use vstd::prelude::*;

verus! {

/// Number of hues on the color wheel: three primaries, three secondaries and
/// six tertiaries, alternating around a cycle.
pub const NUM_COLORS: u8 = 12;

/// A hue on the fixed twelve-color wheel. The declaration order is the wheel
/// order: `Orange` sits at position 0 and `RedOrange` at position 11, so that
/// stepping through the variants walks the cycle.
#[derive(Clone, Copy, PartialEq, Eq, Structural, Debug, Hash)]
pub enum CrystalColor {
    Orange,
    YellowOrange,
    Yellow,
    YellowGreen,
    Green,
    BlueGreen,
    Blue,
    BluePurple,
    Purple,
    RedPurple,
    Red,
    RedOrange,
}

impl CrystalColor {
    /// Position of this hue on the wheel, in `0..12`.
    pub open spec fn spec_index(self) -> int {
        match self {
            CrystalColor::Orange => 0,
            CrystalColor::YellowOrange => 1,
            CrystalColor::Yellow => 2,
            CrystalColor::YellowGreen => 3,
            CrystalColor::Green => 4,
            CrystalColor::BlueGreen => 5,
            CrystalColor::Blue => 6,
            CrystalColor::BluePurple => 7,
            CrystalColor::Purple => 8,
            CrystalColor::RedPurple => 9,
            CrystalColor::Red => 10,
            CrystalColor::RedOrange => 11,
        }
    }

    /// The hue at position `i` on the wheel; inverse of `spec_index`.
    pub open spec fn spec_from_index(i: int) -> CrystalColor {
        if i == 0 {
            CrystalColor::Orange
        } else if i == 1 {
            CrystalColor::YellowOrange
        } else if i == 2 {
            CrystalColor::Yellow
        } else if i == 3 {
            CrystalColor::YellowGreen
        } else if i == 4 {
            CrystalColor::Green
        } else if i == 5 {
            CrystalColor::BlueGreen
        } else if i == 6 {
            CrystalColor::Blue
        } else if i == 7 {
            CrystalColor::BluePurple
        } else if i == 8 {
            CrystalColor::Purple
        } else if i == 9 {
            CrystalColor::RedPurple
        } else if i == 10 {
            CrystalColor::Red
        } else {
            CrystalColor::RedOrange
        }
    }

    pub fn index(&self) -> (r: u8)
        ensures
            r == self.spec_index(),
            r < NUM_COLORS,
    {
        match self {
            CrystalColor::Orange => 0,
            CrystalColor::YellowOrange => 1,
            CrystalColor::Yellow => 2,
            CrystalColor::YellowGreen => 3,
            CrystalColor::Green => 4,
            CrystalColor::BlueGreen => 5,
            CrystalColor::Blue => 6,
            CrystalColor::BluePurple => 7,
            CrystalColor::Purple => 8,
            CrystalColor::RedPurple => 9,
            CrystalColor::Red => 10,
            CrystalColor::RedOrange => 11,
        }
    }

    pub fn from_index(i: u8) -> (r: CrystalColor)
        requires
            i < NUM_COLORS,
        ensures
            r == Self::spec_from_index(i as int),
            r.spec_index() == i,
    {
        match i {
            0 => CrystalColor::Orange,
            1 => CrystalColor::YellowOrange,
            2 => CrystalColor::Yellow,
            3 => CrystalColor::YellowGreen,
            4 => CrystalColor::Green,
            5 => CrystalColor::BlueGreen,
            6 => CrystalColor::Blue,
            7 => CrystalColor::BluePurple,
            8 => CrystalColor::Purple,
            9 => CrystalColor::RedPurple,
            10 => CrystalColor::Red,
            _ => CrystalColor::RedOrange,
        }
    }

    pub open spec fn spec_is_primary(self) -> bool {
        self == CrystalColor::Red || self == CrystalColor::Blue || self == CrystalColor::Yellow
    }

    pub open spec fn spec_is_secondary(self) -> bool {
        self == CrystalColor::Purple || self == CrystalColor::Green
            || self == CrystalColor::Orange
    }

    pub fn is_primary(&self) -> (r: bool)
        ensures
            r == self.spec_is_primary(),
    {
        match self {
            CrystalColor::Red | CrystalColor::Blue | CrystalColor::Yellow => true,
            _ => false,
        }
    }

    pub fn is_secondary(&self) -> (r: bool)
        ensures
            r == self.spec_is_secondary(),
    {
        match self {
            CrystalColor::Purple | CrystalColor::Green | CrystalColor::Orange => true,
            _ => false,
        }
    }

    pub fn is_tertiary(&self) -> (r: bool)
        ensures
            r == (!self.spec_is_primary() && !self.spec_is_secondary()),
    {
        !self.is_primary() && !self.is_secondary()
    }

    /// Combining moves the held hue one step around the wheel toward the
    /// incoming hue, along the shorter arc. With `d` the cyclic distance from
    /// `a` to `b`: `d == 0` keeps `a`; `0 < d <= 6` steps forward; `d > 6`
    /// steps backward. The exact tie (`d == 6`) thus breaks toward the
    /// increasing index.
    pub open spec fn spec_combine(a: CrystalColor, b: CrystalColor) -> CrystalColor {
        let ia = a.spec_index();
        let ib = b.spec_index();
        let d = (ib - ia + 12) % 12;
        if d == 0 {
            a
        } else if d <= 6 {
            Self::spec_from_index((ia + 1) % 12)
        } else {
            Self::spec_from_index((ia + 11) % 12)
        }
    }

    /// One collection event's effect on a player's held color.
    pub fn combine(&self, other: &Self) -> (r: Self)
        ensures
            r == Self::spec_combine(*self, *other),
    {
        let ia = self.index();
        let ib = other.index();
        let d = (ib + NUM_COLORS - ia) % NUM_COLORS;
        if d == 0 {
            *self
        } else if d <= NUM_COLORS / 2 {
            Self::from_index((ia + 1) % NUM_COLORS)
        } else {
            Self::from_index((ia + NUM_COLORS - 1) % NUM_COLORS)
        }
    }

    /// The display color of this hue, as red, green and blue bytes.
    pub open spec fn spec_rgb(self) -> (u8, u8, u8) {
        match self {
            CrystalColor::Orange => (255u8, 126u8, 0u8),
            CrystalColor::YellowOrange => (255u8, 218u8, 48u8),
            CrystalColor::Yellow => (255u8, 255u8, 0u8),
            CrystalColor::YellowGreen => (192u8, 233u8, 17u8),
            CrystalColor::Green => (38u8, 155u8, 38u8),
            CrystalColor::BlueGreen => (0u8, 141u8, 136u8),
            CrystalColor::Blue => (19u8, 49u8, 192u8),
            CrystalColor::BluePurple => (109u8, 83u8, 192u8),
            CrystalColor::Purple => (114u8, 51u8, 143u8),
            CrystalColor::RedPurple => (183u8, 47u8, 165u8),
            CrystalColor::Red => (239u8, 1u8, 1u8),
            CrystalColor::RedOrange => (255u8, 62u8, 0u8),
        }
    }

    /// The red, green and blue bytes a renderer should draw this hue with.
    pub fn rgb(&self) -> (r: (u8, u8, u8))
        ensures
            r == self.spec_rgb(),
    {
        match self {
            CrystalColor::Orange => (255, 126, 0),
            CrystalColor::YellowOrange => (255, 218, 48),
            CrystalColor::Yellow => (255, 255, 0),
            CrystalColor::YellowGreen => (192, 233, 17),
            CrystalColor::Green => (38, 155, 38),
            CrystalColor::BlueGreen => (0, 141, 136),
            CrystalColor::Blue => (19, 49, 192),
            CrystalColor::BluePurple => (109, 83, 192),
            CrystalColor::Purple => (114, 51, 143),
            CrystalColor::RedPurple => (183, 47, 165),
            CrystalColor::Red => (239, 1, 1),
            CrystalColor::RedOrange => (255, 62, 0),
        }
    }

    /// A primary hue chosen by `seed`. The step function derives `seed` from
    /// the frame number and entity identity, so respawned collectibles get the
    /// same color on every replay of a frame.
    pub open spec fn spec_primary_from_seed(seed: u64) -> CrystalColor {
        if seed % 3 == 0 {
            CrystalColor::Blue
        } else if seed % 3 == 1 {
            CrystalColor::Red
        } else {
            CrystalColor::Yellow
        }
    }

    pub fn primary_from_seed(seed: u64) -> (r: CrystalColor)
        ensures
            r == Self::spec_primary_from_seed(seed),
            r.spec_is_primary(),
    {
        match seed % 3 {
            0 => CrystalColor::Blue,
            1 => CrystalColor::Red,
            _ => CrystalColor::Yellow,
        }
    }

    /// The hue that replaces `current` as the session's target: `seed` picks
    /// uniformly among the eleven wheel positions other than `current`'s.
    pub open spec fn spec_next_target(current: CrystalColor, seed: u64) -> CrystalColor {
        Self::spec_from_index((current.spec_index() + 1 + (seed % 11)) % 12)
    }

    pub fn next_target(current: CrystalColor, seed: u64) -> (r: CrystalColor)
        ensures
            r == Self::spec_next_target(current, seed),
            r != current,
    {
        let offset: u8 = 1 + (seed % 11) as u8;
        let r = Self::from_index((current.index() + offset) % NUM_COLORS);
        proof {
            let ia = current.spec_index();
            assert(r.spec_index() == (ia + offset) % 12);
            assert((ia + offset) % 12 != ia) by {
                assert(0 < offset < 12);
                assert(0 <= ia < 12);
            }
        }
        r
    }

    /// A primary hue from the process's own random generator; used only where
    /// no replay has to reproduce the draw (session setup).
    pub fn random_primary() -> (r: Self)
        ensures
            r.spec_is_primary(),
    {
        match random_byte() % 3 {
            0 => CrystalColor::Blue,
            1 => CrystalColor::Red,
            _ => CrystalColor::Yellow,
        }
    }

    /// A secondary hue from the process's own random generator.
    pub fn random_secondary() -> (r: Self)
        ensures
            r.spec_is_secondary(),
    {
        match random_byte() % 3 {
            0 => CrystalColor::Orange,
            1 => CrystalColor::Green,
            _ => CrystalColor::Purple,
        }
    }

    /// A tertiary hue from the process's own random generator.
    pub fn random_tertiary() -> (r: Self)
        ensures
            !r.spec_is_primary() && !r.spec_is_secondary(),
    {
        match random_byte() % 6 {
            0 => CrystalColor::YellowOrange,
            1 => CrystalColor::YellowGreen,
            2 => CrystalColor::BlueGreen,
            3 => CrystalColor::BluePurple,
            4 => CrystalColor::RedPurple,
            _ => CrystalColor::RedOrange,
        }
    }

    /// Retargeting always changes the target: the seed offsets the wheel
    /// position by one to eleven steps, never zero.
    pub proof fn lemma_next_target_changes(current: CrystalColor, seed: u64)
        ensures
            Self::spec_next_target(current, seed) != current,
    {
        let ia = current.spec_index();
        let offset = 1 + (seed % 11);
        assert(0 < offset < 12);
        assert(0 <= ia < 12);
        assert((ia + offset) % 12 != ia);
        assert(Self::spec_from_index((ia + offset) % 12).spec_index() == (ia + offset) % 12);
    }

    /// Combining a color with itself leaves it unchanged: the cyclic distance
    /// is zero, so no step is taken.
    pub proof fn lemma_combine_self(c: CrystalColor)
        ensures
            Self::spec_combine(c, c) == c,
    {
    }

    /// Combining never jumps: the result is the held color itself or one of
    /// its two neighbors on the wheel.
    pub proof fn lemma_combine_small_step(a: CrystalColor, b: CrystalColor)
        ensures
            Self::spec_combine(a, b) == a
                || Self::spec_combine(a, b).spec_index() == (a.spec_index() + 1) % 12
                || Self::spec_combine(a, b).spec_index() == (a.spec_index() + 11) % 12,
    {
    }
}

/// Relies on rand::random::<u8>: one byte from the thread-local generator.
/// The draw is unpredictable, so nothing is promised of the value.
#[verifier::external_body]
fn random_byte() -> u8 {
    rand::random::<u8>()
}

} // verus!
