use colorwheel_bump::input::{decode, encode, Direction, ACTION_BIT, DIR_MASK};

const DIRECTIONS: [Direction; 9] = [
    Direction::Center,
    Direction::North,
    Direction::NorthEast,
    Direction::East,
    Direction::SouthEast,
    Direction::South,
    Direction::SouthWest,
    Direction::West,
    Direction::NorthWest,
];

#[test]
fn decode_inverts_encode() {
    for dir in DIRECTIONS {
        for action in [false, true] {
            let wire = encode(dir, action);
            assert_eq!(decode(wire), (dir, action));
        }
    }
}

#[test]
fn encode_is_injective() {
    let mut seen = Vec::new();
    for dir in DIRECTIONS {
        for action in [false, true] {
            let wire = encode(dir, action);
            assert!(!seen.contains(&wire));
            seen.push(wire);
        }
    }
    assert_eq!(seen.len(), 18);
}

#[test]
fn wire_layout() {
    let wire = encode(Direction::East, true);
    assert_eq!(wire & DIR_MASK, 3);
    assert_eq!(wire & ACTION_BIT, ACTION_BIT);
    assert_eq!(wire & 0xe0, 0);
    assert_eq!(encode(Direction::Center, false), 0);
    assert_eq!(encode(Direction::NorthWest, false), 8);
}

#[test]
fn malformed_bytes_decode_to_safe_default() {
    // Direction nibble out of range.
    for bad in [9u8, 10, 15, 0x19, 0x1f] {
        assert_eq!(decode(bad), (Direction::Center, false));
    }
    // Reserved high bits set.
    for bad in [0x20u8, 0x83, 0xff, 0x41] {
        assert_eq!(decode(bad), (Direction::Center, false));
    }
}

#[test]
fn deltas_are_unit_grid_steps() {
    assert_eq!(Direction::Center.delta(), (0, 0));
    assert_eq!(Direction::North.delta(), (0, 1));
    assert_eq!(Direction::East.delta(), (1, 0));
    assert_eq!(Direction::SouthWest.delta(), (-1, -1));
    for dir in DIRECTIONS {
        let (dx, dy) = dir.delta();
        assert!((-1..=1).contains(&dx));
        assert!((-1..=1).contains(&dy));
    }
}
