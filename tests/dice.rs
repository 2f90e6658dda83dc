use dice::accounts::{AccountRecord, Address};
use dice::codec::{Dice, PlayerBalance, PrizePool};
use dice::error::DiceErr;
use dice::processor::{balance_key, check_accounts, process_instruction, Settlement};
use dice::settlement::{payout, roll_hits, settle};
use solana_program::pubkey::Pubkey;
use solana_program::rent::Rent;

const LUCKY_ROLL: u8 = 20;

fn le(n: u32) -> Vec<u8> {
    n.to_le_bytes().to_vec()
}

fn bet(roll_type: u8, threshold: u8, amount: u32) -> Vec<u8> {
    let mut v = vec![roll_type, threshold];
    v.extend_from_slice(&amount.to_le_bytes());
    v
}

struct World {
    program_id: Address,
    accounts: Vec<AccountRecord>,
}

fn world(balance: u32, pool: u32) -> World {
    let program = Pubkey::new_unique();
    let player = Pubkey::new_unique();
    let balance_key = Pubkey::create_with_seed(&player, "checkvote", &program).unwrap();
    let program_id = Address::new(program.to_bytes());
    let pool_account = AccountRecord {
        key: Address::new(Pubkey::new_unique().to_bytes()),
        owner: program_id,
        is_signer: false,
        lamports: 60000,
        data: le(pool),
    };
    let balance_account = AccountRecord {
        key: Address::new(balance_key.to_bytes()),
        owner: program_id,
        is_signer: false,
        lamports: 1000000,
        data: le(balance),
    };
    let rent_account = AccountRecord {
        key: Address::new(solana_program::sysvar::rent::id().to_bytes()),
        owner: Address::new(Pubkey::default().to_bytes()),
        is_signer: false,
        lamports: 1,
        data: vec![],
    };
    let player_account = AccountRecord {
        key: Address::new(player.to_bytes()),
        owner: Address::new(Pubkey::default().to_bytes()),
        is_signer: true,
        lamports: 0,
        data: vec![],
    };
    World { program_id, accounts: vec![pool_account, balance_account, rent_account, player_account] }
}

fn run(w: &World, data: &[u8]) -> Result<Settlement, DiceErr> {
    let exempt = w.accounts.get(1).map_or(false, |b| Rent::default().is_exempt(b.lamports, b.data.len()));
    process_instruction(&w.program_id, &w.accounts, data, true, exempt, LUCKY_ROLL)
}

fn commit(w: &mut World, s: &Settlement) {
    let mut b = w.accounts[1].data.clone();
    let mut p = w.accounts[0].data.clone();
    s.write(&mut b, &mut p);
    w.accounts[1].data = b;
    w.accounts[0].data = p;
}

fn read_pool(w: &World) -> u32 {
    PrizePool::unpack_unchecked(&w.accounts[0].data).unwrap().pool_amount
}

fn read_balance(w: &World) -> u32 {
    PlayerBalance::unpack_unchecked(&w.accounts[1].data).unwrap().balance
}

#[test]
fn test_sanity1() {
    let mut w = world(50, 1000);
    assert_eq!(read_pool(&w), 1000);
    let s = run(&w, &bet(1, 30, 10)).unwrap();
    commit(&mut w, &s);
    assert_eq!(read_pool(&w), 980);
    assert_eq!(read_balance(&w), 70);
}

#[test]
fn roll_over_miss_moves_stake_to_pool() {
    let mut w = world(70, 980);
    let s = run(&w, &bet(2, 30, 25)).unwrap();
    commit(&mut w, &s);
    assert_eq!(read_pool(&w), 1005);
    assert_eq!(read_balance(&w), 45);
}

#[test]
fn zero_stake_is_invalid_bet() {
    let w = world(50, 1000);
    assert_eq!(run(&w, &bet(1, 30, 0)), Err(DiceErr::InvalidBet));
    assert_eq!(read_balance(&w), 50);
    assert_eq!(read_pool(&w), 1000);
}

#[test]
fn stake_above_balance_is_refused() {
    let w = world(50, 1000);
    assert_eq!(run(&w, &bet(1, 30, 51)), Err(DiceErr::NotEnoughBalance));
    assert_eq!(run(&w, &bet(1, 30, 50)).unwrap().balance.balance, 150);
}

#[test]
fn foreign_balance_record_is_refused() {
    let mut w = world(50, 1000);
    w.accounts[1].key = Address::new(Pubkey::new_unique().to_bytes());
    assert_eq!(run(&w, &bet(1, 30, 10)), Err(DiceErr::AccountNotBalanceAccount));
    assert_eq!(read_balance(&w), 50);
    assert_eq!(read_pool(&w), 1000);
}

#[test]
fn bad_threshold_is_refused_before_accounts() {
    let w = World { program_id: Address::new([7; 32]), accounts: vec![] };
    assert_eq!(run(&w, &bet(1, 1, 10)), Err(DiceErr::IncorrectThreshold));
    assert_eq!(run(&w, &bet(1, 99, 10)), Err(DiceErr::IncorrectThreshold));
    assert_eq!(run(&w, &bet(3, 30, 10)), Err(DiceErr::UnexpectedRollMode));
    assert_eq!(run(&w, &bet(1, 30, 10)), Err(DiceErr::NotEnoughAccountKeys));
}

#[test]
fn payload_of_wrong_length_is_invalid() {
    let w = world(50, 1000);
    assert_eq!(run(&w, &[1, 30, 10]), Err(DiceErr::InvalidAccountData));
}

#[test]
fn owners_must_be_the_program() {
    let mut w = world(50, 1000);
    w.accounts[0].owner = Address::new([9; 32]);
    assert_eq!(run(&w, &bet(1, 30, 10)), Err(DiceErr::IncorrectOwner));
    let mut w = world(50, 1000);
    w.accounts[1].owner = Address::new([9; 32]);
    assert_eq!(run(&w, &bet(1, 30, 10)), Err(DiceErr::IncorrectOwner));
}

#[test]
fn rent_account_and_exemption_are_checked() {
    let mut w = world(50, 1000);
    w.accounts[2].key = Address::new([5; 32]);
    assert_eq!(run(&w, &bet(1, 30, 10)), Err(DiceErr::InvalidAccountData));
    let w = world(50, 1000);
    assert_eq!(
        process_instruction(&w.program_id, &w.accounts, &bet(1, 30, 10), false, true, LUCKY_ROLL),
        Err(DiceErr::InvalidAccountData)
    );
    let mut w = world(50, 1000);
    w.accounts[1].lamports = 10;
    assert_eq!(run(&w, &bet(1, 30, 10)), Err(DiceErr::AccountNotRentExempt));
}

#[test]
fn player_must_sign() {
    let mut w = world(50, 1000);
    w.accounts[3].is_signer = false;
    assert_eq!(run(&w, &bet(1, 30, 10)), Err(DiceErr::MissingSignature));
}

#[test]
fn record_of_wrong_size_is_invalid() {
    let mut w = world(50, 1000);
    w.accounts[0].data = vec![0; 5];
    assert_eq!(run(&w, &bet(1, 30, 10)), Err(DiceErr::InvalidAccountData));
}

#[test]
fn pool_cannot_pay_more_than_it_holds() {
    let w = world(50, 19);
    assert_eq!(run(&w, &bet(1, 30, 10)), Err(DiceErr::InsufficientPool));
    let w = world(50, 20);
    let s = run(&w, &bet(1, 30, 10)).unwrap();
    assert_eq!((s.balance.balance, s.pool.pool_amount), (70, 0));
}

#[test]
fn totals_beyond_u32_are_refused() {
    let w = world(50, u32::MAX - 10);
    assert_eq!(run(&w, &bet(2, 30, 11)), Err(DiceErr::ArithmeticOverflow));
    let w = world(u32::MAX - 5, 1000);
    assert_eq!(run(&w, &bet(1, 30, 10)), Err(DiceErr::ArithmeticOverflow));
}

#[test]
fn settlement_conserves_credits() {
    for &(balance, pool, mode, threshold, stake, roll) in &[
        (50u32, 1000u32, 1u8, 30u8, 10u32, 20u8),
        (70, 980, 2, 30, 25, 20),
        (100, 100, 1, 60, 40, 50),
        (100, 100, 2, 60, 40, 80),
        (u32::MAX / 2, u32::MAX / 2, 2, 98, 7, 3),
    ] {
        let dice = Dice { roll_type: mode, threshold, bet_amount: stake };
        let mut b = PlayerBalance { balance };
        let mut p = PrizePool { pool_amount: pool };
        settle(&dice, roll, &mut b, &mut p).unwrap();
        assert_eq!(b.balance as u64 + p.pool_amount as u64, balance as u64 + pool as u64);
    }
}

#[test]
fn failed_settlement_changes_nothing() {
    let dice = Dice { roll_type: 1, threshold: 30, bet_amount: 10 };
    let mut b = PlayerBalance { balance: 50 };
    let mut p = PrizePool { pool_amount: 5 };
    assert_eq!(settle(&dice, 20, &mut b, &mut p), Err(DiceErr::InsufficientPool));
    assert_eq!((b.balance, p.pool_amount), (50, 5));
}

#[test]
fn same_records_settle_the_same() {
    let w1 = world(50, 1000);
    let w2 = world(50, 1000);
    for payload in [bet(1, 30, 10), bet(2, 30, 25), bet(1, 10, 5)] {
        assert_eq!(run(&w1, &payload), run(&w2, &payload));
        assert_eq!(run(&w1, &payload), run(&w1, &payload));
    }
}

#[test]
fn zero_balance_cannot_stake() {
    let w = world(0, 1000);
    assert_eq!(run(&w, &bet(1, 30, 1)), Err(DiceErr::NotEnoughBalance));
    assert_eq!(run(&w, &bet(2, 50, 0)), Err(DiceErr::InvalidBet));
}

#[test]
fn payout_tiers() {
    let under = Dice { roll_type: 1, threshold: 60, bet_amount: 10 };
    assert_eq!(payout(&under, 20), 20);
    assert_eq!(payout(&under, 50), 10);
    assert_eq!(payout(&under, 60), 10);
    assert_eq!(payout(&under, 61), 0);
    let over = Dice { roll_type: 2, threshold: 30, bet_amount: 10 };
    assert_eq!(payout(&over, 30), 10);
    assert_eq!(payout(&over, 75), 20);
    assert_eq!(payout(&over, 100), 20);
    assert_eq!(payout(&over, 29), 0);
    let big = Dice { roll_type: 2, threshold: 2, bet_amount: u32::MAX };
    assert_eq!(payout(&big, 90), 2 * u32::MAX as u64);
}

#[test]
fn outcome_is_the_same_every_time() {
    let d = Dice { roll_type: 1, threshold: 40, bet_amount: 9 };
    for roll in 0..=100u8 {
        assert_eq!(roll_hits(&d, roll), roll_hits(&d, roll));
        assert_eq!(payout(&d, roll), payout(&d, roll));
    }
}

#[test]
fn parser_round_trips_every_valid_field() {
    for mode in [1u8, 2] {
        for threshold in 2u8..=98 {
            for stake in [0u32, 1, 255, 256, 65535, 16777216, 0x04030201, u32::MAX] {
                let d = Dice::unpack_unchecked(&bet(mode, threshold, stake)).unwrap();
                assert_eq!((d.roll_type, d.threshold, d.bet_amount), (mode, threshold, stake));
            }
        }
    }
    let d = Dice::unpack_from_slice(&[2, 50, 1, 2, 3, 4, 99]).unwrap();
    assert_eq!(d.bet_amount, 0x04030201);
}

#[test]
fn records_pack_little_endian() {
    let mut buf = vec![9u8; 6];
    PlayerBalance { balance: 0x04030201 }.pack_into_slice(&mut buf);
    assert_eq!(buf, vec![1, 2, 3, 4, 9, 9]);
    PrizePool { pool_amount: 0x0a0b0c0d }.pack_into_slice(&mut buf);
    assert_eq!(buf, vec![0x0d, 0x0c, 0x0b, 0x0a, 9, 9]);
    assert_eq!(PrizePool::unpack_from_slice(&buf).unwrap().pool_amount, 0x0a0b0c0d);
    assert_eq!(PlayerBalance::unpack_unchecked(&buf), Err(DiceErr::InvalidAccountData));
    assert_eq!(PrizePool::unpack_unchecked(&[1, 0, 0]), Err(DiceErr::InvalidAccountData));
}

#[test]
fn balance_key_is_the_seeded_address() {
    let program = Pubkey::new_unique();
    let player = Pubkey::new_unique();
    let expected = Pubkey::create_with_seed(&player, "checkvote", &program).unwrap();
    let got = balance_key(&Address::new(player.to_bytes()), &Address::new(program.to_bytes())).unwrap();
    assert_eq!(got.bytes, expected.to_bytes());
    assert_ne!(got.bytes, player.to_bytes());
    let mut marked = [0u8; 32];
    marked[11..].copy_from_slice(b"ProgramDerivedAddress");
    assert!(balance_key(&Address::new(player.to_bytes()), &Address::new(marked)).is_none());
}

#[test]
fn validation_repeats_the_same_answer() {
    let mut w = world(50, 1000);
    let first = check_accounts(&w.program_id, &w.accounts, true, true);
    assert_eq!(first, Ok(()));
    assert_eq!(check_accounts(&w.program_id, &w.accounts, true, true), first);
    let s = run(&w, &bet(1, 30, 10)).unwrap();
    commit(&mut w, &s);
    assert_eq!(check_accounts(&w.program_id, &w.accounts, true, true), first);
    w.accounts[3].is_signer = false;
    let refused = check_accounts(&w.program_id, &w.accounts, true, true);
    assert_eq!(refused, Err(DiceErr::MissingSignature));
    assert_eq!(check_accounts(&w.program_id, &w.accounts, true, true), refused);
}

#[test]
fn exemption_answer_decides_rent_check() {
    let w = world(50, 1000);
    assert_eq!(
        process_instruction(&w.program_id, &w.accounts, &bet(1, 30, 10), true, false, LUCKY_ROLL),
        Err(DiceErr::AccountNotRentExempt)
    );
    let s = process_instruction(&w.program_id, &w.accounts, &bet(1, 30, 10), true, true, LUCKY_ROLL).unwrap();
    assert_eq!((s.balance.balance, s.pool.pool_amount), (70, 980));
}

#[test]
fn addresses_compare_bytewise() {
    let a = Address::new([1; 32]);
    let mut raw = [1u8; 32];
    assert!(a.same_as(&Address::new(raw)));
    raw[31] = 2;
    assert!(!a.same_as(&Address::new(raw)));
}

#[test]
fn error_codes_are_distinct() {
    let all = [
        DiceErr::UnexpectedRollMode,
        DiceErr::IncorrectThreshold,
        DiceErr::IncorrectOwner,
        DiceErr::AccountNotRentExempt,
        DiceErr::AccountNotBalanceAccount,
        DiceErr::NotEnoughBalance,
        DiceErr::InvalidBet,
        DiceErr::InsufficientPool,
        DiceErr::InvalidAccountData,
        DiceErr::MissingSignature,
        DiceErr::NotEnoughAccountKeys,
        DiceErr::ArithmeticOverflow,
    ];
    for (i, e) in all.iter().enumerate() {
        assert_eq!(e.code() as usize, i);
        assert!(!e.message().is_empty());
    }
}
