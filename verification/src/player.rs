//! Player-specific components: the player marker, experience points and
//! the integer experience-level rule, damage immunity, and block-change
//! acknowledgements.

use vstd::prelude::*;

verus! {

/// A component that represents a Player.
#[derive(Debug, Default)]
pub struct Player;

/// A player's accumulated experience points.
#[derive(Debug, PartialEq, Eq, Structural, Copy, Clone, Default)]
pub struct Xp {
    /// The total amount of experience points.
    pub amount: u16,
}

/// The total experience at which an experience level begins: quadratic in
/// the level, with steeper coefficients past levels 16 and 31.
pub open spec fn xp_level_start(level: int) -> int {
    if level <= 16 {
        level * level + 6 * level
    } else if level <= 31 {
        (5 * level * level - 81 * level + 720) / 2
    } else {
        (9 * level * level - 325 * level + 4440) / 2
    }
}

/// The concrete value of `xp_level_start` at every modelled level.
#[verifier::rlimit(100)]
pub proof fn lemma_xp_table()
    ensures
        xp_level_start(0) == 0,
        xp_level_start(1) == 7,
        xp_level_start(2) == 16,
        xp_level_start(3) == 27,
        xp_level_start(4) == 40,
        xp_level_start(5) == 55,
        xp_level_start(6) == 72,
        xp_level_start(7) == 91,
        xp_level_start(8) == 112,
        xp_level_start(9) == 135,
        xp_level_start(10) == 160,
        xp_level_start(11) == 187,
        xp_level_start(12) == 216,
        xp_level_start(13) == 247,
        xp_level_start(14) == 280,
        xp_level_start(15) == 315,
        xp_level_start(16) == 352,
        xp_level_start(17) == 394,
        xp_level_start(18) == 441,
        xp_level_start(19) == 493,
        xp_level_start(20) == 550,
        xp_level_start(21) == 612,
        xp_level_start(22) == 679,
        xp_level_start(23) == 751,
        xp_level_start(24) == 828,
        xp_level_start(25) == 910,
        xp_level_start(26) == 997,
        xp_level_start(27) == 1089,
        xp_level_start(28) == 1186,
        xp_level_start(29) == 1288,
        xp_level_start(30) == 1395,
        xp_level_start(31) == 1507,
        xp_level_start(32) == 1628,
        xp_level_start(33) == 1758,
        xp_level_start(34) == 1897,
        xp_level_start(35) == 2045,
        xp_level_start(36) == 2202,
        xp_level_start(37) == 2368,
        xp_level_start(38) == 2543,
        xp_level_start(39) == 2727,
        xp_level_start(40) == 2920,
        xp_level_start(41) == 3122,
        xp_level_start(42) == 3333,
        xp_level_start(43) == 3553,
        xp_level_start(44) == 3782,
        xp_level_start(45) == 4020,
        xp_level_start(46) == 4267,
        xp_level_start(47) == 4523,
        xp_level_start(48) == 4788,
        xp_level_start(49) == 5062,
        xp_level_start(50) == 5345,
        xp_level_start(51) == 5637,
        xp_level_start(52) == 5938,
        xp_level_start(53) == 6248,
        xp_level_start(54) == 6567,
        xp_level_start(55) == 6895,
        xp_level_start(56) == 7232,
        xp_level_start(57) == 7578,
        xp_level_start(58) == 7933,
        xp_level_start(59) == 8297,
        xp_level_start(60) == 8670,
        xp_level_start(61) == 9052,
        xp_level_start(62) == 9443,
        xp_level_start(63) == 9843,
{
}

impl Xp {
    /// The experience level these points amount to: the unique level
    /// whose starting total is not above `amount`, capped at 63.
    #[verifier::rlimit(100)]
    pub fn get_level(&self) -> (level: u8)
        ensures
            level <= 63,
            xp_level_start(level as int) <= self.amount as int,
            level < 63 ==> (self.amount as int) < xp_level_start(level as int + 1),
    {
        proof {
            lemma_xp_table();
        }
        let amount = self.amount;
        if amount <= 6 {
            0
        } else if amount <= 15 {
            1
        } else if amount <= 26 {
            2
        } else if amount <= 39 {
            3
        } else if amount <= 54 {
            4
        } else if amount <= 71 {
            5
        } else if amount <= 90 {
            6
        } else if amount <= 111 {
            7
        } else if amount <= 134 {
            8
        } else if amount <= 159 {
            9
        } else if amount <= 186 {
            10
        } else if amount <= 215 {
            11
        } else if amount <= 246 {
            12
        } else if amount <= 279 {
            13
        } else if amount <= 314 {
            14
        } else if amount <= 351 {
            15
        } else if amount <= 393 {
            16
        } else if amount <= 440 {
            17
        } else if amount <= 492 {
            18
        } else if amount <= 549 {
            19
        } else if amount <= 611 {
            20
        } else if amount <= 678 {
            21
        } else if amount <= 750 {
            22
        } else if amount <= 827 {
            23
        } else if amount <= 909 {
            24
        } else if amount <= 996 {
            25
        } else if amount <= 1088 {
            26
        } else if amount <= 1185 {
            27
        } else if amount <= 1287 {
            28
        } else if amount <= 1394 {
            29
        } else if amount <= 1506 {
            30
        } else if amount <= 1627 {
            31
        } else if amount <= 1757 {
            32
        } else if amount <= 1896 {
            33
        } else if amount <= 2044 {
            34
        } else if amount <= 2201 {
            35
        } else if amount <= 2367 {
            36
        } else if amount <= 2542 {
            37
        } else if amount <= 2726 {
            38
        } else if amount <= 2919 {
            39
        } else if amount <= 3121 {
            40
        } else if amount <= 3332 {
            41
        } else if amount <= 3552 {
            42
        } else if amount <= 3781 {
            43
        } else if amount <= 4019 {
            44
        } else if amount <= 4266 {
            45
        } else if amount <= 4522 {
            46
        } else if amount <= 4787 {
            47
        } else if amount <= 5061 {
            48
        } else if amount <= 5344 {
            49
        } else if amount <= 5636 {
            50
        } else if amount <= 5937 {
            51
        } else if amount <= 6247 {
            52
        } else if amount <= 6566 {
            53
        } else if amount <= 6894 {
            54
        } else if amount <= 7231 {
            55
        } else if amount <= 7577 {
            56
        } else if amount <= 7932 {
            57
        } else if amount <= 8296 {
            58
        } else if amount <= 8669 {
            59
        } else if amount <= 9051 {
            60
        } else if amount <= 9442 {
            61
        } else if amount <= 9842 {
            62
        } else {
            63
        }
    }

    /// The experience totals at which a level begins and at which the
    /// next one begins; the span past the last modelled level continues
    /// the preceding spans.
    #[verifier::rlimit(100)]
    pub fn level_bounds(level: u8) -> (r: (u16, u16))
        requires
            level <= 63,
        ensures
            r.0 as int == xp_level_start(level as int),
            level < 63 ==> r.1 as int == xp_level_start(level as int + 1),
            level == 63 ==> r.1 == 10242,
            r.0 < r.1,
    {
        proof {
            lemma_xp_table();
        }
        if level == 0 {
            (0, 7)
        } else if level == 1 {
            (7, 16)
        } else if level == 2 {
            (16, 27)
        } else if level == 3 {
            (27, 40)
        } else if level == 4 {
            (40, 55)
        } else if level == 5 {
            (55, 72)
        } else if level == 6 {
            (72, 91)
        } else if level == 7 {
            (91, 112)
        } else if level == 8 {
            (112, 135)
        } else if level == 9 {
            (135, 160)
        } else if level == 10 {
            (160, 187)
        } else if level == 11 {
            (187, 216)
        } else if level == 12 {
            (216, 247)
        } else if level == 13 {
            (247, 280)
        } else if level == 14 {
            (280, 315)
        } else if level == 15 {
            (315, 352)
        } else if level == 16 {
            (352, 394)
        } else if level == 17 {
            (394, 441)
        } else if level == 18 {
            (441, 493)
        } else if level == 19 {
            (493, 550)
        } else if level == 20 {
            (550, 612)
        } else if level == 21 {
            (612, 679)
        } else if level == 22 {
            (679, 751)
        } else if level == 23 {
            (751, 828)
        } else if level == 24 {
            (828, 910)
        } else if level == 25 {
            (910, 997)
        } else if level == 26 {
            (997, 1089)
        } else if level == 27 {
            (1089, 1186)
        } else if level == 28 {
            (1186, 1288)
        } else if level == 29 {
            (1288, 1395)
        } else if level == 30 {
            (1395, 1507)
        } else if level == 31 {
            (1507, 1628)
        } else if level == 32 {
            (1628, 1758)
        } else if level == 33 {
            (1758, 1897)
        } else if level == 34 {
            (1897, 2045)
        } else if level == 35 {
            (2045, 2202)
        } else if level == 36 {
            (2202, 2368)
        } else if level == 37 {
            (2368, 2543)
        } else if level == 38 {
            (2543, 2727)
        } else if level == 39 {
            (2727, 2920)
        } else if level == 40 {
            (2920, 3122)
        } else if level == 41 {
            (3122, 3333)
        } else if level == 42 {
            (3333, 3553)
        } else if level == 43 {
            (3553, 3782)
        } else if level == 44 {
            (3782, 4020)
        } else if level == 45 {
            (4020, 4267)
        } else if level == 46 {
            (4267, 4523)
        } else if level == 47 {
            (4523, 4788)
        } else if level == 48 {
            (4788, 5062)
        } else if level == 49 {
            (5062, 5345)
        } else if level == 50 {
            (5345, 5637)
        } else if level == 51 {
            (5637, 5938)
        } else if level == 52 {
            (5938, 6248)
        } else if level == 53 {
            (6248, 6567)
        } else if level == 54 {
            (6567, 6895)
        } else if level == 55 {
            (6895, 7232)
        } else if level == 56 {
            (7232, 7578)
        } else if level == 57 {
            (7578, 7933)
        } else if level == 58 {
            (7933, 8297)
        } else if level == 59 {
            (8297, 8670)
        } else if level == 60 {
            (8670, 9052)
        } else if level == 61 {
            (9052, 9443)
        } else if level == 62 {
            (9443, 9843)
        } else {
            (9843, 10242)
        }
    }
}

/// Tracks how long a player stays immune to attacks.
#[derive(Debug, PartialEq, Eq, Structural, Default)]
pub struct ImmuneStatus {
    /// The tick until the player is immune to player attacks.
    pub until: i64,
}

impl ImmuneStatus {
    /// Whether the player is still immune at a given tick.
    pub fn is_invincible(&self, tick: i64) -> (r: bool)
        ensures
            r == (tick < self.until),
    {
        tick < self.until
    }
}

/// The block-change sequence numbers a player still has to acknowledge.
#[derive(Debug, Default)]
pub struct ConfirmBlockSequences(pub Vec<i32>);

/// One of the animations a player entity can perform.
#[derive(Debug, Copy, Clone, PartialEq, Eq, Structural)]
pub enum AnimationKind {
    /// Swing of the main arm.
    SwingMainArm,
    /// Use of the held item.
    UseItem,
    /// Leaving a bed.
    LeaveBed,
    /// Swing of the off hand.
    SwingOffHand,
    /// A critical hit.
    Critical,
    /// A magic critical hit.
    MagicCritical,
}

impl AnimationKind {
    /// The code this animation carries in the downstream protocol.
    pub fn to_u8(self) -> (r: u8)
        ensures
            r == animation_code(self),
    {
        match self {
            AnimationKind::SwingMainArm => 0,
            AnimationKind::UseItem => 1,
            AnimationKind::LeaveBed => 2,
            AnimationKind::SwingOffHand => 3,
            AnimationKind::Critical => 4,
            AnimationKind::MagicCritical => 5,
        }
    }
}

/// The protocol code of each animation.
pub open spec fn animation_code(kind: AnimationKind) -> u8 {
    match kind {
        AnimationKind::SwingMainArm => 0,
        AnimationKind::UseItem => 1,
        AnimationKind::LeaveBed => 2,
        AnimationKind::SwingOffHand => 3,
        AnimationKind::Critical => 4,
        AnimationKind::MagicCritical => 5,
    }
}

} // verus!
