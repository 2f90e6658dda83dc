//! The account checks and the whole instruction: decode, check, settle.
use vstd::prelude::*;
use vstd::string::StringSliceAdditionalSpecFns;
use crate::accounts::{
    AccountRecord, Address, create_with_seed, has_pda_marker, is_rent_sysvar, rent_sysvar_id,
    seeded_address,
};
use crate::codec::{Dice, PlayerBalance, PrizePool, dice_bytes, le_u32, parse_dice};
use crate::error::DiceErr;
use crate::settlement::{settle, settlement_of};

verus! {

/// Position of the prize pool record among the accounts.
pub const POOL_INDEX: usize = 0;
/// Position of the player's balance record.
pub const BALANCE_INDEX: usize = 1;
/// Position of the host's rent parameters account.
pub const RENT_INDEX: usize = 2;
/// Position of the player's own account, which must have signed.
pub const PLAYER_INDEX: usize = 3;
/// How many accounts an instruction needs.
pub const ACCOUNT_COUNT: usize = 4;

/// The label mixed into a player's identity to locate the player's balance record.
pub open spec fn balance_seed() -> Seq<u8> {
    seq![99u8, 104, 101, 99, 107, 118, 111, 116, 101]
}

/// Where the balance record of `player` lives for `program_id`, if derivation succeeds.
pub open spec fn balance_key_of(player: Seq<u8>, program_id: Seq<u8>) -> Option<Seq<u8>> {
    if has_pda_marker(program_id) {
        None
    } else {
        Some(seeded_address(player, balance_seed(), program_id))
    }
}

/// The outcome of the ordered account checks. `rent_read` says whether the
/// host's rent parameters could be read; `balance_exempt` whether they exempt
/// the balance record.
pub open spec fn account_checks(
    program_id: Address,
    accounts: Seq<AccountRecord>,
    rent_read: bool,
    balance_exempt: bool,
) -> Result<(), DiceErr> {
    let pool = accounts[POOL_INDEX as int];
    let balance = accounts[BALANCE_INDEX as int];
    let rent = accounts[RENT_INDEX as int];
    let player = accounts[PLAYER_INDEX as int];
    if pool.owner.bytes@ != program_id.bytes@ {
        Err(DiceErr::IncorrectOwner)
    } else if balance.owner.bytes@ != program_id.bytes@ {
        Err(DiceErr::IncorrectOwner)
    } else if rent.key.bytes@ != rent_sysvar_id() || !rent_read {
        Err(DiceErr::InvalidAccountData)
    } else if !balance_exempt {
        Err(DiceErr::AccountNotRentExempt)
    } else if !player.is_signer {
        Err(DiceErr::MissingSignature)
    } else if balance_key_of(player.key.bytes@, program_id.bytes@) != Some(balance.key.bytes@) {
        Err(DiceErr::AccountNotBalanceAccount)
    } else {
        Ok(())
    }
}

/// The new balance and pool that an instruction settles to, or why it is refused.
pub open spec fn instruction_outcome(
    program_id: Address,
    accounts: Seq<AccountRecord>,
    data: Seq<u8>,
    rent_read: bool,
    balance_exempt: bool,
    roll: u8,
) -> Result<(int, int), DiceErr> {
    if parse_dice(data) is Err {
        Err(parse_dice(data)->Err_0)
    } else if accounts.len() < ACCOUNT_COUNT {
        Err(DiceErr::NotEnoughAccountKeys)
    } else if account_checks(program_id, accounts, rent_read, balance_exempt) is Err {
        Err(account_checks(program_id, accounts, rent_read, balance_exempt)->Err_0)
    } else if accounts[BALANCE_INDEX as int].data@.len() != PlayerBalance::LEN
        || accounts[POOL_INDEX as int].data@.len() != PrizePool::LEN {
        Err(DiceErr::InvalidAccountData)
    } else {
        settlement_of(
            le_u32(accounts[BALANCE_INDEX as int].data@) as u32,
            le_u32(accounts[POOL_INDEX as int].data@) as u32,
            parse_dice(data)->Ok_0,
            roll,
        )
    }
}

/// The two records after a successful settlement, to be written back together.
#[derive(Clone, Copy, Debug, PartialEq, Eq, Structural)]
pub struct Settlement {
    pub balance: PlayerBalance,
    pub pool: PrizePool,
}

impl Settlement {
    /// Writes both records into their four-byte buffers.
    pub fn write(&self, balance_data: &mut [u8], pool_data: &mut [u8])
        requires
            old(balance_data)@.len() == PlayerBalance::LEN,
            old(pool_data)@.len() == PrizePool::LEN,
        ensures
            le_u32(final(balance_data)@) == self.balance.balance as int,
            le_u32(final(pool_data)@) == self.pool.pool_amount as int,
            final(balance_data)@.len() == PlayerBalance::LEN,
            final(pool_data)@.len() == PrizePool::LEN,
    {
        self.balance.pack_into_slice(balance_data);
        self.pool.pack_into_slice(pool_data);
        proof {
            crate::codec::lemma_le_round_trip(self.balance.balance);
            crate::codec::lemma_le_round_trip(self.pool.pool_amount);
            assert(final(balance_data)@ =~= crate::codec::le_bytes(self.balance.balance));
            assert(final(pool_data)@ =~= crate::codec::le_bytes(self.pool.pool_amount));
        }
    }
}

/// Where the balance record of `player` lives for `program_id`.
pub fn balance_key(player: &Address, program_id: &Address) -> (r: Option<Address>)
    ensures
        r is Some <==> balance_key_of(player.bytes@, program_id.bytes@) is Some,
        r is Some ==> Some(r->0.bytes@) == balance_key_of(player.bytes@, program_id.bytes@),
{
    let seed: &str = "checkvote";
    proof {
        reveal_strlit("checkvote");
        assert(vstd::string::is_ascii(seed));
        vstd::string::is_ascii_spec_bytes(seed);
        assert(seed.spec_bytes() =~= balance_seed());
    }
    create_with_seed(player, seed, program_id)
}

/// Runs the ordered account checks; the first failing one decides the error.
pub fn check_accounts(
    program_id: &Address,
    accounts: &[AccountRecord],
    rent_read: bool,
    balance_exempt: bool,
) -> (r: Result<(), DiceErr>)
    requires
        accounts@.len() >= ACCOUNT_COUNT,
    ensures
        r == account_checks(*program_id, accounts@, rent_read, balance_exempt),
{
    let pool = &accounts[POOL_INDEX];
    let balance = &accounts[BALANCE_INDEX];
    let rent = &accounts[RENT_INDEX];
    let player = &accounts[PLAYER_INDEX];
    if !pool.owner.same_as(program_id) {
        return Err(DiceErr::IncorrectOwner);
    }
    if !balance.owner.same_as(program_id) {
        return Err(DiceErr::IncorrectOwner);
    }
    if !is_rent_sysvar(&rent.key) || !rent_read {
        return Err(DiceErr::InvalidAccountData);
    }
    if !balance_exempt {
        return Err(DiceErr::AccountNotRentExempt);
    }
    if !player.is_signer {
        return Err(DiceErr::MissingSignature);
    }
    match balance_key(&player.key, program_id) {
        Some(expected) => {
            if !expected.same_as(&balance.key) {
                return Err(DiceErr::AccountNotBalanceAccount);
            }
        },
        None => {
            return Err(DiceErr::AccountNotBalanceAccount);
        },
    }
    Ok(())
}

/// Decodes, checks and settles one instruction. `rent_read` says whether the
/// host's rent parameters could be read from the rent account, and
/// `balance_exempt` whether they exempt the balance record; the host computes
/// both. Nothing is written: a success hands back both new records together.
pub fn process_instruction(
    program_id: &Address,
    accounts: &[AccountRecord],
    instruction_data: &[u8],
    rent_read: bool,
    balance_exempt: bool,
    roll: u8,
) -> (r: Result<Settlement, DiceErr>)
    ensures
        match instruction_outcome(*program_id, accounts@, instruction_data@, rent_read, balance_exempt, roll) {
            Ok((b, p)) => r is Ok && r->Ok_0.balance.balance as int == b && r->Ok_0.pool.pool_amount as int == p,
            Err(e) => r == Err::<Settlement, DiceErr>(e),
        },
{
    let dice = match Dice::unpack_unchecked(instruction_data) {
        Ok(d) => d,
        Err(e) => return Err(e),
    };
    if accounts.len() < ACCOUNT_COUNT {
        return Err(DiceErr::NotEnoughAccountKeys);
    }
    match check_accounts(program_id, accounts, rent_read, balance_exempt) {
        Ok(()) => {},
        Err(e) => return Err(e),
    }
    let mut balance = match PlayerBalance::unpack_unchecked(accounts[BALANCE_INDEX].data.as_slice()) {
        Ok(b) => b,
        Err(e) => return Err(e),
    };
    let mut pool = match PrizePool::unpack_unchecked(accounts[POOL_INDEX].data.as_slice()) {
        Ok(p) => p,
        Err(e) => return Err(e),
    };
    match settle(&dice, roll, &mut balance, &mut pool) {
        Ok(()) => Ok(Settlement { balance, pool }),
        Err(e) => Err(e),
    }
}

/// A malformed wager payload is refused before any account is looked at: the
/// error is the decoder's, whatever accounts are supplied.
pub proof fn lemma_payload_checked_first(
    program_id: Address,
    accounts: Seq<AccountRecord>,
    data: Seq<u8>,
    rent_read: bool,
    balance_exempt: bool,
    roll: u8,
)
    requires
        parse_dice(data) is Err,
    ensures
        instruction_outcome(program_id, accounts, data, rent_read, balance_exempt, roll) == Err::<(int, int), DiceErr>(
            parse_dice(data)->Err_0,
        ),
{
}

/// The account checks read identities, owners and signer flags only: run again
/// on accounts that agree on those (the same accounts, or the same accounts
/// after their record data was rewritten), they give the same result.
pub proof fn lemma_checks_repeatable(
    program_id: Address,
    first: Seq<AccountRecord>,
    again: Seq<AccountRecord>,
    rent_read: bool,
    balance_exempt: bool,
)
    requires
        first.len() >= ACCOUNT_COUNT,
        again.len() == first.len(),
        forall|i: int|
            0 <= i < first.len() ==> (#[trigger] again[i]).key.bytes@ == first[i].key.bytes@
                && again[i].owner.bytes@ == first[i].owner.bytes@ && again[i].is_signer
                == first[i].is_signer,
    ensures
        account_checks(program_id, again, rent_read, balance_exempt) == account_checks(
            program_id,
            first,
            rent_read,
            balance_exempt,
        ),
{
    assert(again[POOL_INDEX as int].owner.bytes@ == first[POOL_INDEX as int].owner.bytes@);
    assert(again[BALANCE_INDEX as int].owner.bytes@ == first[BALANCE_INDEX as int].owner.bytes@);
    assert(again[RENT_INDEX as int].key.bytes@ == first[RENT_INDEX as int].key.bytes@);
    assert(again[PLAYER_INDEX as int].key.bytes@ == first[PLAYER_INDEX as int].key.bytes@);
}

/// A settled instruction moves credits between the two records without
/// creating or destroying any: the sum of the balance and the pool is kept.
pub proof fn lemma_instruction_conserves(
    program_id: Address,
    accounts: Seq<AccountRecord>,
    data: Seq<u8>,
    rent_read: bool,
    balance_exempt: bool,
    roll: u8,
)
    requires
        instruction_outcome(program_id, accounts, data, rent_read, balance_exempt, roll) is Ok,
    ensures
        ({
            let (b, p) = instruction_outcome(program_id, accounts, data, rent_read, balance_exempt, roll)->Ok_0;
            b + p == (le_u32(accounts[BALANCE_INDEX as int].data@) as u32) + (le_u32(
                accounts[POOL_INDEX as int].data@,
            ) as u32)
        }),
{
    crate::settlement::lemma_settlement_conserves(
        le_u32(accounts[BALANCE_INDEX as int].data@) as u32,
        le_u32(accounts[POOL_INDEX as int].data@) as u32,
        parse_dice(data)->Ok_0,
        roll,
    );
}

/// Whether the accounts pass every check and both records have their fixed size.
pub open spec fn accounts_ready(program_id: Address, accounts: Seq<AccountRecord>) -> bool {
    &&& accounts.len() >= ACCOUNT_COUNT
    &&& account_checks(program_id, accounts, true, true) is Ok
    &&& accounts[BALANCE_INDEX as int].data@.len() == PlayerBalance::LEN
    &&& accounts[POOL_INDEX as int].data@.len() == PrizePool::LEN
}

/// The outcome is a function of the wager, the roll and the two record values
/// alone: two instructions with the same payload and roll over ready accounts
/// holding the same balance and pool settle identically.
pub proof fn lemma_outcome_determined(
    program_id: Address,
    first: Seq<AccountRecord>,
    again: Seq<AccountRecord>,
    data: Seq<u8>,
    roll: u8,
)
    requires
        accounts_ready(program_id, first),
        accounts_ready(program_id, again),
        le_u32(first[BALANCE_INDEX as int].data@) == le_u32(again[BALANCE_INDEX as int].data@),
        le_u32(first[POOL_INDEX as int].data@) == le_u32(again[POOL_INDEX as int].data@),
    ensures
        instruction_outcome(program_id, first, data, true, true, roll) == instruction_outcome(
            program_id,
            again,
            data,
            true,
            true,
            roll,
        ),
{
}

/// A well-formed wager with a zero stake over ready accounts is refused as an
/// invalid bet, whatever the balance, the pool and the roll.
pub proof fn lemma_zero_stake_refused(program_id: Address, accounts: Seq<AccountRecord>, d: Dice, roll: u8)
    requires
        accounts_ready(program_id, accounts),
        d.wf(),
        d.bet_amount == 0,
    ensures
        instruction_outcome(program_id, accounts, dice_bytes(d), true, true, roll) == Err::<(int, int), DiceErr>(
            DiceErr::InvalidBet,
        ),
{
    crate::codec::lemma_dice_round_trip(d);
}

/// A well-formed wager staking more than the balance record holds (a zero
/// balance included) over ready accounts is refused for want of balance.
pub proof fn lemma_stake_above_balance_refused(
    program_id: Address,
    accounts: Seq<AccountRecord>,
    d: Dice,
    roll: u8,
)
    requires
        accounts_ready(program_id, accounts),
        d.wf(),
        d.bet_amount > le_u32(accounts[BALANCE_INDEX as int].data@),
    ensures
        instruction_outcome(program_id, accounts, dice_bytes(d), true, true, roll) == Err::<(int, int), DiceErr>(
            DiceErr::NotEnoughBalance,
        ),
{
    crate::codec::lemma_dice_round_trip(d);
}

} // verus!
