//! Fixed-width little-endian layouts of the wager instruction and the two records.
use vstd::prelude::*;
use byteorder::{ByteOrder, LittleEndian};
use crate::error::DiceErr;

verus! {

/// The unsigned value of the first four bytes of `s`, least significant first.
pub open spec fn le_u32(s: Seq<u8>) -> int {
    s[0] as int + 256 * (s[1] as int) + 65536 * (s[2] as int) + 16777216 * (s[3] as int)
}

/// The four bytes of `n`, least significant first.
pub open spec fn le_bytes(n: u32) -> Seq<u8> {
    seq![
        (n % 256) as u8,
        ((n / 256) % 256) as u8,
        ((n / 65536) % 256) as u8,
        (n / 16777216) as u8,
    ]
}

/// Reading back the bytes of a number gives the number.
pub proof fn lemma_le_round_trip(n: u32)
    ensures
        le_bytes(n).len() == 4,
        le_u32(le_bytes(n)) == n as int,
{
    assert(n == (n % 256) + 256 * ((n / 256) % 256) + 65536 * ((n / 65536) % 256) + 16777216 * (n / 16777216)) by (bit_vector);
    assert((n / 16777216) < 256) by (bit_vector);
}

/// Relies on byteorder's `LittleEndian::read_u32`: the first four bytes, least significant first.
#[verifier::external_body]
fn read_u32_le(buf: &[u8]) -> (r: u32)
    requires
        buf@.len() >= 4,
    ensures
        r as int == le_u32(buf@),
{
    LittleEndian::read_u32(buf)
}

/// Relies on byteorder's `LittleEndian::write_u32`: overwrites the first four bytes only.
#[verifier::external_body]
fn write_u32_le(buf: &mut [u8], n: u32)
    requires
        old(buf)@.len() >= 4,
    ensures
        final(buf)@ == le_bytes(n) + old(buf)@.subrange(4, old(buf)@.len() as int),
{
    LittleEndian::write_u32(buf, n)
}

/// Roll mode: win when the roll is at most the threshold.
pub const ROLL_UNDER: u8 = 1;
/// Roll mode: win when the roll is at least the threshold.
pub const ROLL_OVER: u8 = 2;
/// Smallest accepted threshold.
pub const MIN_THRESHOLD: u8 = 2;
/// Largest accepted threshold.
pub const MAX_THRESHOLD: u8 = 98;

/// A decoded wager: roll mode, threshold and stake.
#[derive(Clone, Copy, Debug, PartialEq, Eq, Structural)]
pub struct Dice {
    pub roll_type: u8,
    pub threshold: u8,
    pub bet_amount: u32,
}

/// What decoding a wager payload yields (the payload holds at least six bytes).
pub open spec fn dice_from_bytes(s: Seq<u8>) -> Result<Dice, DiceErr> {
    if s[0] != ROLL_UNDER && s[0] != ROLL_OVER {
        Err(DiceErr::UnexpectedRollMode)
    } else if s[1] < MIN_THRESHOLD || s[1] > MAX_THRESHOLD {
        Err(DiceErr::IncorrectThreshold)
    } else {
        Ok(Dice { roll_type: s[0], threshold: s[1], bet_amount: le_u32(s.subrange(2, 6)) as u32 })
    }
}

/// What decoding a wager payload of any length yields.
pub open spec fn parse_dice(s: Seq<u8>) -> Result<Dice, DiceErr> {
    if s.len() != Dice::LEN {
        Err(DiceErr::InvalidAccountData)
    } else {
        dice_from_bytes(s)
    }
}

/// The wire form of a wager.
pub open spec fn dice_bytes(d: Dice) -> Seq<u8> {
    seq![d.roll_type, d.threshold] + le_bytes(d.bet_amount)
}

impl Dice {
    pub const LEN: usize = 6;

    /// A wager that decoding can produce.
    pub open spec fn wf(self) -> bool {
        (self.roll_type == ROLL_UNDER || self.roll_type == ROLL_OVER)
            && MIN_THRESHOLD <= self.threshold <= MAX_THRESHOLD
    }

    /// Decodes the first six bytes of `src`.
    pub fn unpack_from_slice(src: &[u8]) -> (r: Result<Dice, DiceErr>)
        requires
            src@.len() >= Dice::LEN,
        ensures
            r == dice_from_bytes(src@),
            r is Ok ==> r->Ok_0.wf(),
    {
        let roll_type = src[0];
        if roll_type != ROLL_UNDER && roll_type != ROLL_OVER {
            return Err(DiceErr::UnexpectedRollMode);
        }
        let threshold = src[1];
        if threshold < MIN_THRESHOLD || threshold > MAX_THRESHOLD {
            return Err(DiceErr::IncorrectThreshold);
        }
        let stake_bytes = vstd::slice::slice_subrange(src, 2, 6);
        let bet_amount = read_u32_le(stake_bytes);
        Ok(Dice { roll_type, threshold, bet_amount })
    }

    /// Decodes a payload that must be exactly six bytes long.
    pub fn unpack_unchecked(input: &[u8]) -> (r: Result<Dice, DiceErr>)
        ensures
            r == parse_dice(input@),
    {
        if input.len() != Dice::LEN {
            return Err(DiceErr::InvalidAccountData);
        }
        Dice::unpack_from_slice(input)
    }
}

/// A player's balance record: one little-endian `u32`.
#[derive(Clone, Copy, Debug, PartialEq, Eq, Structural)]
pub struct PlayerBalance {
    pub balance: u32,
}

impl PlayerBalance {
    pub const LEN: usize = 4;

    pub fn unpack_from_slice(src: &[u8]) -> (r: Result<PlayerBalance, DiceErr>)
        requires
            src@.len() >= PlayerBalance::LEN,
        ensures
            r == Ok::<PlayerBalance, DiceErr>(PlayerBalance { balance: le_u32(src@) as u32 }),
    {
        Ok(PlayerBalance { balance: read_u32_le(src) })
    }

    /// Decodes a record that must be exactly four bytes long.
    pub fn unpack_unchecked(input: &[u8]) -> (r: Result<PlayerBalance, DiceErr>)
        ensures
            input@.len() == PlayerBalance::LEN ==> r == Ok::<PlayerBalance, DiceErr>(
                PlayerBalance { balance: le_u32(input@) as u32 },
            ),
            input@.len() != PlayerBalance::LEN ==> r == Err::<PlayerBalance, DiceErr>(
                DiceErr::InvalidAccountData,
            ),
    {
        if input.len() != PlayerBalance::LEN {
            return Err(DiceErr::InvalidAccountData);
        }
        PlayerBalance::unpack_from_slice(input)
    }

    /// Writes the balance into the first four bytes of `dst`.
    pub fn pack_into_slice(&self, dst: &mut [u8])
        requires
            old(dst)@.len() >= PlayerBalance::LEN,
        ensures
            final(dst)@ == le_bytes(self.balance) + old(dst)@.subrange(4, old(dst)@.len() as int),
    {
        write_u32_le(dst, self.balance)
    }
}

/// The shared prize pool record: one little-endian `u32`.
#[derive(Clone, Copy, Debug, PartialEq, Eq, Structural)]
pub struct PrizePool {
    pub pool_amount: u32,
}

impl PrizePool {
    pub const LEN: usize = 4;

    pub fn unpack_from_slice(src: &[u8]) -> (r: Result<PrizePool, DiceErr>)
        requires
            src@.len() >= PrizePool::LEN,
        ensures
            r == Ok::<PrizePool, DiceErr>(PrizePool { pool_amount: le_u32(src@) as u32 }),
    {
        Ok(PrizePool { pool_amount: read_u32_le(src) })
    }

    /// Decodes a record that must be exactly four bytes long.
    pub fn unpack_unchecked(input: &[u8]) -> (r: Result<PrizePool, DiceErr>)
        ensures
            input@.len() == PrizePool::LEN ==> r == Ok::<PrizePool, DiceErr>(
                PrizePool { pool_amount: le_u32(input@) as u32 },
            ),
            input@.len() != PrizePool::LEN ==> r == Err::<PrizePool, DiceErr>(
                DiceErr::InvalidAccountData,
            ),
    {
        if input.len() != PrizePool::LEN {
            return Err(DiceErr::InvalidAccountData);
        }
        PrizePool::unpack_from_slice(input)
    }

    /// Writes the amount into the first four bytes of `dst`.
    pub fn pack_into_slice(&self, dst: &mut [u8])
        requires
            old(dst)@.len() >= PrizePool::LEN,
        ensures
            final(dst)@ == le_bytes(self.pool_amount) + old(dst)@.subrange(4, old(dst)@.len() as int),
    {
        write_u32_le(dst, self.pool_amount)
    }
}

/// Decoding the wire form of any well-formed wager gives back the same wager.
pub proof fn lemma_dice_round_trip(d: Dice)
    requires
        d.wf(),
    ensures
        dice_bytes(d).len() == Dice::LEN,
        parse_dice(dice_bytes(d)) == Ok::<Dice, DiceErr>(d),
{
    lemma_le_round_trip(d.bet_amount);
    let s = dice_bytes(d);
    assert(s.subrange(2, 6) =~= le_bytes(d.bet_amount));
}

} // verus!
