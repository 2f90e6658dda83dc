//! Outcome of a roll and the transfer between the player's balance and the pool.
use vstd::prelude::*;
use crate::codec::{Dice, PlayerBalance, PrizePool, ROLL_UNDER, ROLL_OVER};
use crate::error::DiceErr;

verus! {

/// Rolls at or below this value fall in the lower outer band.
pub const LOW_BAND: u8 = 25;
/// Rolls at or above this value fall in the upper outer band.
pub const HIGH_BAND: u8 = 75;

/// Whether `roll` wins a wager of the given mode and threshold.
pub open spec fn is_hit(roll_type: u8, threshold: u8, roll: u8) -> bool {
    (roll_type == ROLL_UNDER && roll <= threshold) || (roll_type == ROLL_OVER && roll >= threshold)
}

/// What the pool pays out: twice the stake on a hit in an outer band, the stake
/// on a hit in the middle band, nothing on a miss.
pub open spec fn payout_of(roll_type: u8, threshold: u8, stake: u32, roll: u8) -> int {
    if !is_hit(roll_type, threshold, roll) {
        0
    } else if roll <= LOW_BAND || roll >= HIGH_BAND {
        2 * stake
    } else {
        stake as int
    }
}

/// The balance and pool after one settlement, or why it is refused.
pub open spec fn settlement_of(balance: u32, pool: u32, dice: Dice, roll: u8) -> Result<(int, int), DiceErr> {
    let stake = dice.bet_amount as int;
    let payout = payout_of(dice.roll_type, dice.threshold, dice.bet_amount, roll);
    if stake > balance {
        Err(DiceErr::NotEnoughBalance)
    } else if stake == 0 {
        Err(DiceErr::InvalidBet)
    } else if payout == 0 {
        if pool + stake > u32::MAX {
            Err(DiceErr::ArithmeticOverflow)
        } else {
            Ok((balance - stake, pool + stake))
        }
    } else if payout > pool {
        Err(DiceErr::InsufficientPool)
    } else if balance + payout > u32::MAX {
        Err(DiceErr::ArithmeticOverflow)
    } else {
        Ok((balance + payout, pool - payout))
    }
}

/// Whether the roll wins the wager.
pub fn roll_hits(dice: &Dice, roll: u8) -> (r: bool)
    ensures
        r == is_hit(dice.roll_type, dice.threshold, roll),
{
    (dice.roll_type == ROLL_UNDER && roll <= dice.threshold) || (dice.roll_type == ROLL_OVER
        && roll >= dice.threshold)
}

/// The payout of the wager for the roll; a function of the wager and the roll alone.
pub fn payout(dice: &Dice, roll: u8) -> (r: u64)
    ensures
        r as int == payout_of(dice.roll_type, dice.threshold, dice.bet_amount, roll),
{
    if !roll_hits(dice, roll) {
        0
    } else if roll <= LOW_BAND || roll >= HIGH_BAND {
        2 * (dice.bet_amount as u64)
    } else {
        dice.bet_amount as u64
    }
}

/// Settles the wager: both records change together on success, neither on failure.
pub fn settle(dice: &Dice, roll: u8, balance: &mut PlayerBalance, pool: &mut PrizePool) -> (r: Result<(), DiceErr>)
    ensures
        match settlement_of(old(balance).balance, old(pool).pool_amount, *dice, roll) {
            Ok((b, p)) => r is Ok && final(balance).balance as int == b && final(pool).pool_amount as int == p,
            Err(e) => r == Err::<(), DiceErr>(e) && *final(balance) == *old(balance) && *final(pool) == *old(pool),
        },
{
    let stake = dice.bet_amount;
    if stake > balance.balance {
        return Err(DiceErr::NotEnoughBalance);
    }
    if stake == 0 {
        return Err(DiceErr::InvalidBet);
    }
    let win = payout(dice, roll);
    let (new_balance, new_pool): (u32, u32) = if win == 0 {
        if pool.pool_amount as u64 + stake as u64 > u32::MAX as u64 {
            return Err(DiceErr::ArithmeticOverflow);
        }
        (balance.balance - stake, pool.pool_amount + stake)
    } else {
        if win > pool.pool_amount as u64 {
            return Err(DiceErr::InsufficientPool);
        }
        if balance.balance as u64 + win > u32::MAX as u64 {
            return Err(DiceErr::ArithmeticOverflow);
        }
        (balance.balance + win as u32, pool.pool_amount - win as u32)
    };
    balance.balance = new_balance;
    pool.pool_amount = new_pool;
    Ok(())
}

/// A settlement neither creates nor destroys credits: the sum of the two
/// records is the same before and after.
pub proof fn lemma_settlement_conserves(balance: u32, pool: u32, dice: Dice, roll: u8)
    requires
        settlement_of(balance, pool, dice, roll) is Ok,
    ensures
        ({
            let (b, p) = settlement_of(balance, pool, dice, roll)->Ok_0;
            b + p == balance + pool
        }),
{
}

/// A settlement never wraps around: both new values are the exact integer
/// results and lie in the range of a `u32`.
pub proof fn lemma_settlement_in_range(balance: u32, pool: u32, dice: Dice, roll: u8)
    requires
        settlement_of(balance, pool, dice, roll) is Ok,
    ensures
        ({
            let (b, p) = settlement_of(balance, pool, dice, roll)->Ok_0;
            let pay = payout_of(dice.roll_type, dice.threshold, dice.bet_amount, roll);
            &&& 0 <= b <= u32::MAX
            &&& 0 <= p <= u32::MAX
            &&& pay == 0 ==> b == balance - dice.bet_amount && p == pool + dice.bet_amount
            &&& pay != 0 ==> b == balance + pay && p == pool - pay
        }),
{
}

} // verus!
