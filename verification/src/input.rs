use vstd::prelude::*;

verus! {

/// One of the nine discretized movement directions: the eight compass points,
/// or `Center` for no movement. The wire codes are `0` for `Center` and
/// `1..=8` clockwise from `North`.
#[derive(Clone, Copy, PartialEq, Eq, Structural, Debug)]
pub enum Direction {
    Center,
    North,
    NorthEast,
    East,
    SouthEast,
    South,
    SouthWest,
    West,
    NorthWest,
}

/// Wire mask of the direction nibble (low four bits).
pub const DIR_MASK: u8 = 0x0f;

/// Wire bit of the action flag.
pub const ACTION_BIT: u8 = 0x10;

impl Direction {
    pub open spec fn spec_code(self) -> int {
        match self {
            Direction::Center => 0,
            Direction::North => 1,
            Direction::NorthEast => 2,
            Direction::East => 3,
            Direction::SouthEast => 4,
            Direction::South => 5,
            Direction::SouthWest => 6,
            Direction::West => 7,
            Direction::NorthWest => 8,
        }
    }

    pub open spec fn spec_from_code(code: int) -> Direction {
        if code == 1 {
            Direction::North
        } else if code == 2 {
            Direction::NorthEast
        } else if code == 3 {
            Direction::East
        } else if code == 4 {
            Direction::SouthEast
        } else if code == 5 {
            Direction::South
        } else if code == 6 {
            Direction::SouthWest
        } else if code == 7 {
            Direction::West
        } else if code == 8 {
            Direction::NorthWest
        } else {
            Direction::Center
        }
    }

    pub fn code(&self) -> (r: u8)
        ensures
            r == self.spec_code(),
            r <= 8,
    {
        match self {
            Direction::Center => 0,
            Direction::North => 1,
            Direction::NorthEast => 2,
            Direction::East => 3,
            Direction::SouthEast => 4,
            Direction::South => 5,
            Direction::SouthWest => 6,
            Direction::West => 7,
            Direction::NorthWest => 8,
        }
    }

    /// The unit grid displacement of this direction: east is `+x`, north is
    /// `+y`, each component one of `-1`, `0`, `1`.
    pub open spec fn spec_delta(self) -> (int, int) {
        match self {
            Direction::Center => (0, 0),
            Direction::North => (0, 1),
            Direction::NorthEast => (1, 1),
            Direction::East => (1, 0),
            Direction::SouthEast => (1, -1),
            Direction::South => (0, -1),
            Direction::SouthWest => (-1, -1),
            Direction::West => (-1, 0),
            Direction::NorthWest => (-1, 1),
        }
    }

    pub fn delta(&self) -> (r: (i32, i32))
        ensures
            r.0 == self.spec_delta().0,
            r.1 == self.spec_delta().1,
            -1 <= r.0 <= 1,
            -1 <= r.1 <= 1,
    {
        match self {
            Direction::Center => (0, 0),
            Direction::North => (0, 1),
            Direction::NorthEast => (1, 1),
            Direction::East => (1, 0),
            Direction::SouthEast => (1, -1),
            Direction::South => (0, -1),
            Direction::SouthWest => (-1, -1),
            Direction::West => (-1, 0),
            Direction::NorthWest => (-1, 1),
        }
    }
}

/// The packed wire value of a logical input: direction code in the low
/// nibble, the action flag at bit four, the top three bits zero.
pub open spec fn spec_encode(dir: Direction, action: bool) -> u8 {
    (dir.spec_code() + if action {
        16int
    } else {
        0int
    }) as u8
}

/// A raw byte is well-formed when its reserved bits are clear and its
/// direction nibble names one of the nine directions.
pub open spec fn spec_valid_wire(v: u8) -> bool {
    v & 0xe0 == 0 && v & 0x0f <= 8
}

/// The logical input a raw byte decodes to: its own fields when well-formed,
/// the safe default (no movement, no action) otherwise.
pub open spec fn spec_decode(v: u8) -> (Direction, bool) {
    if spec_valid_wire(v) {
        (Direction::spec_from_code((v & 0x0f) as int), v & 0x10 == 0x10)
    } else {
        (Direction::Center, false)
    }
}

/// Packs a logical input into its one-byte wire form.
pub fn encode(dir: Direction, action: bool) -> (r: u8)
    ensures
        r == spec_encode(dir, action),
        spec_valid_wire(r),
        spec_decode(r) == (dir, action),
        r < 32,
{
    let code = dir.code();
    let r: u8 = if action {
        code + ACTION_BIT
    } else {
        code
    };
    proof {
        lemma_codec_round_trip(dir, action);
        assert(r == spec_encode(dir, action));
    }
    r
}

/// Unpacks a wire byte; a malformed byte (reserved bits set or an unknown
/// direction code) yields the safe default rather than an error, so a bad
/// packet from a peer cannot fail the session.
pub fn decode(v: u8) -> (r: (Direction, bool))
    ensures
        r == spec_decode(v),
{
    let dir_bits = v & DIR_MASK;
    let reserved = v & 0xe0;
    if reserved != 0 || dir_bits > 8 {
        (Direction::Center, false)
    } else {
        let dir = match dir_bits {
            1 => Direction::North,
            2 => Direction::NorthEast,
            3 => Direction::East,
            4 => Direction::SouthEast,
            5 => Direction::South,
            6 => Direction::SouthWest,
            7 => Direction::West,
            8 => Direction::NorthWest,
            _ => Direction::Center,
        };
        (dir, v & ACTION_BIT == ACTION_BIT)
    }
}

/// Decoding is the exact inverse of encoding over the whole input alphabet
/// (nine directions times two action states), which also makes encoding
/// injective.
pub proof fn lemma_codec_round_trip(dir: Direction, action: bool)
    ensures
        spec_decode(spec_encode(dir, action)) == (dir, action),
        spec_valid_wire(spec_encode(dir, action)),
{
    let v = spec_encode(dir, action);
    let code: u8 = dir.spec_code() as u8;
    assert(code <= 8);
    if action {
        assert(v == code + 16);
        assert(v & 0xe0 == 0 && v & 0x0f == code && v & 0x10 == 0x10) by (bit_vector)
            requires
                v == code + 16,
                code <= 8,
        ;
    } else {
        assert(v == code);
        assert(v & 0xe0 == 0 && v & 0x0f == code && v & 0x10 == 0) by (bit_vector)
            requires
                v == code,
                code <= 8,
        ;
    }
    assert(Direction::spec_from_code(code as int) == dir);
}

} // verus!
