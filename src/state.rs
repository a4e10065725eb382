use vstd::prelude::*;

verus! {

/// Tag stored at the front of every record, telling what the record holds.
#[derive(Debug, Clone, Copy, PartialEq, Eq, Structural)]
pub enum Version {
    Uninitalized,
    Tombstone,
    RNGV1,
    HoneypotV1,
    LockedGuessV1,
}

/// Sample cache: the last value drawn for a requester and the step it was drawn at.
#[derive(Debug, Clone, Copy)]
pub struct RNG {
    pub version: Version,
    pub value: u64,
    pub slot: u64,
}

impl RNG {
    pub const LEN: i64 = 1 + 8 + 8;
}

/// Configuration of a pooled reserve and the nonces of its two derived addresses.
#[derive(Debug, Clone, Copy)]
pub struct Honeypot {
    pub version: Version,
    pub honeypot_bump_seed: u8,
    pub vault_bump_seed: u8,
    pub owner: [u8; 32],
    pub mint: [u8; 32],
    pub tick_size: u64,
    pub max_amount: u64,
    pub minimum_bank_size: u64,
}

impl Honeypot {
    pub const LEN: i64 = 1 + 1 + 1 + 32 + 32 + 8 + 8 + 8;
}

/// A player's wager record: at most one outstanding commitment at a time.
#[derive(Debug, Clone, Copy)]
pub struct LockedGuess {
    pub version: Version,
    pub bump_seed: u8,
    pub owner: [u8; 32],
    pub vault: [u8; 32],
    pub slot: u64,
    pub active: bool,
    pub active_size: u64,
    pub guesses: [u64; 64],
}

impl LockedGuess {
    pub const LEN: i64 = 1 + 1 + 32 + 32 + 8 + 1 + 8 + 8 * 64;

    /// Every slot of the stake table is empty.
    pub open spec fn stakes_cleared(&self) -> bool {
        forall|i: int| 0 <= i < 64 ==> #[trigger] self.guesses@[i] == 0
    }

    /// The slots past the last category are empty.
    pub open spec fn stakes_known(&self) -> bool {
        forall|i: int| 50 <= i < 64 ==> #[trigger] self.guesses@[i] == 0
    }

    /// Idle: no commitment, nothing staked.
    pub open spec fn is_idle(&self) -> bool {
        !self.active && self.active_size == 0 && self.stakes_cleared()
    }

    /// The record's invariant: an inactive record is idle, and no stake
    /// sits outside the category slots.
    pub open spec fn wf(&self) -> bool {
        &&& (!self.active ==> self.is_idle())
        &&& self.stakes_known()
    }

    /// The committed size is the stake table's sum in base units, for a
    /// reserve of unit scale `tick_size`.
    pub open spec fn size_matches(&self, tick_size: u64) -> bool {
        self.active_size == table_sum(self.guesses@) * tick_size
    }
}

/// The sum of the entries of a stake table.
pub open spec fn table_sum(s: Seq<u64>) -> int
    decreases s.len(),
{
    if s.len() == 0 {
        0
    } else {
        table_sum(s.drop_last()) + s.last()
    }
}

/// A bet category: each pocket straight up, then the outside bets.
#[derive(Debug, Clone, Copy, PartialEq, Eq, Structural)]
pub enum Guess {
    Zero,
    DoubleZero,
    R1,
    B2,
    R3,
    B4,
    R5,
    B6,
    R7,
    B8,
    R9,
    B10,
    B11,
    R12,
    B13,
    R14,
    B15,
    R16,
    B17,
    R18,
    R19,
    B20,
    R21,
    B22,
    R23,
    B24,
    R25,
    B26,
    R27,
    B28,
    B29,
    R30,
    B31,
    R32,
    B33,
    R34,
    B35,
    R36,
    Red,
    Black,
    Even,
    Odd,
    Col1,
    Col2,
    Col3,
    Dozen1,
    Dozen2,
    Dozen3,
    Low,
    High,
}


impl Guess {
    /// The ordinal of the category: its slot in a wager record's stake table.
    pub open spec fn spec_index(self) -> nat {
        match self {
            Guess::Zero => 0,
            Guess::DoubleZero => 1,
            Guess::R1 => 2,
            Guess::B2 => 3,
            Guess::R3 => 4,
            Guess::B4 => 5,
            Guess::R5 => 6,
            Guess::B6 => 7,
            Guess::R7 => 8,
            Guess::B8 => 9,
            Guess::R9 => 10,
            Guess::B10 => 11,
            Guess::B11 => 12,
            Guess::R12 => 13,
            Guess::B13 => 14,
            Guess::R14 => 15,
            Guess::B15 => 16,
            Guess::R16 => 17,
            Guess::B17 => 18,
            Guess::R18 => 19,
            Guess::R19 => 20,
            Guess::B20 => 21,
            Guess::R21 => 22,
            Guess::B22 => 23,
            Guess::R23 => 24,
            Guess::B24 => 25,
            Guess::R25 => 26,
            Guess::B26 => 27,
            Guess::R27 => 28,
            Guess::B28 => 29,
            Guess::B29 => 30,
            Guess::R30 => 31,
            Guess::B31 => 32,
            Guess::R32 => 33,
            Guess::B33 => 34,
            Guess::R34 => 35,
            Guess::B35 => 36,
            Guess::R36 => 37,
            Guess::Red => 38,
            Guess::Black => 39,
            Guess::Even => 40,
            Guess::Odd => 41,
            Guess::Col1 => 42,
            Guess::Col2 => 43,
            Guess::Col3 => 44,
            Guess::Dozen1 => 45,
            Guess::Dozen2 => 46,
            Guess::Dozen3 => 47,
            Guess::Low => 48,
            Guess::High => 49,
        }
    }

    pub fn index(&self) -> (r: u8)
        ensures
            r as nat == self.spec_index(),
    {
        match self {
            Guess::Zero => 0,
            Guess::DoubleZero => 1,
            Guess::R1 => 2,
            Guess::B2 => 3,
            Guess::R3 => 4,
            Guess::B4 => 5,
            Guess::R5 => 6,
            Guess::B6 => 7,
            Guess::R7 => 8,
            Guess::B8 => 9,
            Guess::R9 => 10,
            Guess::B10 => 11,
            Guess::B11 => 12,
            Guess::R12 => 13,
            Guess::B13 => 14,
            Guess::R14 => 15,
            Guess::B15 => 16,
            Guess::R16 => 17,
            Guess::B17 => 18,
            Guess::R18 => 19,
            Guess::R19 => 20,
            Guess::B20 => 21,
            Guess::R21 => 22,
            Guess::B22 => 23,
            Guess::R23 => 24,
            Guess::B24 => 25,
            Guess::R25 => 26,
            Guess::B26 => 27,
            Guess::R27 => 28,
            Guess::B28 => 29,
            Guess::B29 => 30,
            Guess::R30 => 31,
            Guess::B31 => 32,
            Guess::R32 => 33,
            Guess::B33 => 34,
            Guess::R34 => 35,
            Guess::B35 => 36,
            Guess::R36 => 37,
            Guess::Red => 38,
            Guess::Black => 39,
            Guess::Even => 40,
            Guess::Odd => 41,
            Guess::Col1 => 42,
            Guess::Col2 => 43,
            Guess::Col3 => 44,
            Guess::Dozen1 => 45,
            Guess::Dozen2 => 46,
            Guess::Dozen3 => 47,
            Guess::Low => 48,
            Guess::High => 49,
        }
    }

    /// The category with the given ordinal, if there is one.
    pub fn from_index(i: u8) -> (r: Option<Guess>)
        ensures
            r is Some <==> i < 50,
            r matches Some(g) ==> g.spec_index() == i as nat,
    {
        match i {
            0 => Some(Guess::Zero),
            1 => Some(Guess::DoubleZero),
            2 => Some(Guess::R1),
            3 => Some(Guess::B2),
            4 => Some(Guess::R3),
            5 => Some(Guess::B4),
            6 => Some(Guess::R5),
            7 => Some(Guess::B6),
            8 => Some(Guess::R7),
            9 => Some(Guess::B8),
            10 => Some(Guess::R9),
            11 => Some(Guess::B10),
            12 => Some(Guess::B11),
            13 => Some(Guess::R12),
            14 => Some(Guess::B13),
            15 => Some(Guess::R14),
            16 => Some(Guess::B15),
            17 => Some(Guess::R16),
            18 => Some(Guess::B17),
            19 => Some(Guess::R18),
            20 => Some(Guess::R19),
            21 => Some(Guess::B20),
            22 => Some(Guess::R21),
            23 => Some(Guess::B22),
            24 => Some(Guess::R23),
            25 => Some(Guess::B24),
            26 => Some(Guess::R25),
            27 => Some(Guess::B26),
            28 => Some(Guess::R27),
            29 => Some(Guess::B28),
            30 => Some(Guess::B29),
            31 => Some(Guess::R30),
            32 => Some(Guess::B31),
            33 => Some(Guess::R32),
            34 => Some(Guess::B33),
            35 => Some(Guess::R34),
            36 => Some(Guess::B35),
            37 => Some(Guess::R36),
            38 => Some(Guess::Red),
            39 => Some(Guess::Black),
            40 => Some(Guess::Even),
            41 => Some(Guess::Odd),
            42 => Some(Guess::Col1),
            43 => Some(Guess::Col2),
            44 => Some(Guess::Col3),
            45 => Some(Guess::Dozen1),
            46 => Some(Guess::Dozen2),
            47 => Some(Guess::Dozen3),
            48 => Some(Guess::Low),
            49 => Some(Guess::High),
            _ => None,
        }
    }

    /// The pocket a straight-up category bets on (37 is the second zero).
    pub open spec fn spec_pocket(self) -> int {
        pocket_at(self.spec_index())
    }

    /// The categories that bet on a single pocket.
    pub open spec fn is_straight_up(self) -> bool {
        self.spec_index() < 38
    }

    /// When the category wins on `outcome`.
    pub open spec fn spec_wins(self, outcome: int) -> bool {
        wins_at(self.spec_index(), outcome)
    }

    /// What a winning stake is multiplied by.
    pub open spec fn spec_multiplier(self) -> nat {
        multiplier_at(self.spec_index())
    }

    pub fn pocket(&self) -> (r: u64)
        requires
            self.is_straight_up(),
        ensures
            r as int == self.spec_pocket(),
    {
        let i = self.index();
        if i == 0 {
            0
        } else if i == 1 {
            37
        } else {
            (i - 1) as u64
        }
    }

    pub fn wins(&self, outcome: u64) -> (r: bool)
        ensures
            r == self.spec_wins(outcome as int),
    {
        match self {
            Guess::Red => outcome != 0 && outcome != 37 && is_red(outcome),
            Guess::Black => outcome != 0 && outcome != 37 && !is_red(outcome),
            Guess::Even => outcome != 0 && outcome % 2 == 0,
            Guess::Odd => outcome != 37 && outcome % 2 == 1,
            Guess::Col1 => outcome != 37 && outcome % 3 == 1,
            Guess::Col2 => outcome % 3 == 2,
            Guess::Col3 => outcome != 0 && outcome % 3 == 0,
            Guess::Dozen1 => outcome > 0 && outcome <= 12,
            Guess::Dozen2 => outcome > 12 && outcome <= 24,
            Guess::Dozen3 => outcome > 24 && outcome < 37,
            Guess::Low => outcome > 0 && outcome <= 18,
            Guess::High => outcome > 18 && outcome < 37,
            _ => outcome == self.pocket(),
        }
    }

    pub fn multiplier(&self) -> (r: u64)
        ensures
            r as nat == self.spec_multiplier(),
    {
        match self {
            Guess::Red | Guess::Black | Guess::Even | Guess::Odd | Guess::Low | Guess::High => 2,
            Guess::Col1 | Guess::Col2 | Guess::Col3 | Guess::Dozen1 | Guess::Dozen2
            | Guess::Dozen3 => 3,
            _ => 36,
        }
    }
}

/// The pocket that the straight-up category of ordinal `i` bets on.
pub open spec fn pocket_at(i: nat) -> int {
    if i == 0 {
        0
    } else if i == 1 {
        37
    } else {
        i - 1
    }
}

/// The payout table, keyed by category ordinal: when the category wins on
/// `outcome`. Ordinals 0 to 37 are the pockets straight up, then come Red,
/// Black, Even, Odd, the three columns, the three dozens, Low and High.
pub open spec fn wins_at(i: nat, outcome: int) -> bool {
    if i < 38 {
        outcome == pocket_at(i)
    } else if i == 38 {
        outcome != 0 && outcome != 37 && red_pocket(outcome)
    } else if i == 39 {
        outcome != 0 && outcome != 37 && !red_pocket(outcome)
    } else if i == 40 {
        outcome != 0 && outcome % 2 == 0
    } else if i == 41 {
        outcome != 37 && outcome % 2 == 1
    } else if i == 42 {
        outcome != 37 && outcome % 3 == 1
    } else if i == 43 {
        outcome % 3 == 2
    } else if i == 44 {
        outcome != 0 && outcome % 3 == 0
    } else if i == 45 {
        0 < outcome <= 12
    } else if i == 46 {
        12 < outcome <= 24
    } else if i == 47 {
        24 < outcome < 37
    } else if i == 48 {
        0 < outcome <= 18
    } else if i == 49 {
        18 < outcome < 37
    } else {
        false
    }
}

/// The multiplier of the category of ordinal `i`.
pub open spec fn multiplier_at(i: nat) -> nat {
    if i < 38 {
        36
    } else if i <= 41 || i == 48 || i == 49 {
        2
    } else {
        3
    }
}

/// The payout of `amount` staked in slot `i` on `outcome`.
pub open spec fn slot_payout(i: nat, amount: u64, outcome: int) -> int {
    if wins_at(i, outcome) {
        amount * multiplier_at(i)
    } else {
        0
    }
}

/// The eighteen red pockets.
pub open spec fn red_pocket(n: int) -> bool {
    n == 1 || n == 3 || n == 5 || n == 7 || n == 9 || n == 12 || n == 14 || n == 16 || n == 18
        || n == 19 || n == 21 || n == 23 || n == 25 || n == 27 || n == 30 || n == 32 || n == 34
        || n == 36
}

pub fn is_red(number: u64) -> (r: bool)
    ensures
        r == red_pocket(number as int),
{
    number == 1 || number == 3 || number == 5 || number == 7 || number == 9 || number == 12
        || number == 14 || number == 16 || number == 18 || number == 19 || number == 21
        || number == 23 || number == 25 || number == 27 || number == 30 || number == 32
        || number == 34 || number == 36
}

/// One stake: a bet category and the amount placed on it, in wager units.
#[derive(Debug, Clone, Copy, PartialEq, Eq, Structural)]
pub struct RouletteGuess {
    pub guess: Guess,
    pub amount: u64,
}

impl RouletteGuess {
    /// The payout of this stake on `outcome`: the amount times the
    /// category's multiplier when the category wins, else nothing.
    pub open spec fn spec_payout(self, outcome: int) -> int {
        if self.guess.spec_wins(outcome) {
            self.amount * self.guess.spec_multiplier()
        } else {
            0
        }
    }

    pub fn get_payout(&self, outcome: u64) -> (r: u64)
        requires
            self.spec_payout(outcome as int) <= u64::MAX,
        ensures
            r as int == self.spec_payout(outcome as int),
    {
        if self.guess.wins(outcome) {
            self.amount * self.guess.multiplier()
        } else {
            0
        }
    }

    /// The payout, or `None` when it does not fit in a `u64`.
    pub fn checked_payout(&self, outcome: u64) -> (r: Option<u64>)
        ensures
            r is Some <==> self.spec_payout(outcome as int) <= u64::MAX,
            r matches Some(v) ==> v as int == self.spec_payout(outcome as int),
    {
        if self.guess.wins(outcome) {
            self.amount.checked_mul(self.guess.multiplier())
        } else {
            Some(0)
        }
    }
}

} // verus!
