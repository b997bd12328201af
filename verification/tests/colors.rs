use colorwheel_bump::color::CrystalColor;

const PALETTE: [CrystalColor; 12] = [
    CrystalColor::Orange,
    CrystalColor::YellowOrange,
    CrystalColor::Yellow,
    CrystalColor::YellowGreen,
    CrystalColor::Green,
    CrystalColor::BlueGreen,
    CrystalColor::Blue,
    CrystalColor::BluePurple,
    CrystalColor::Purple,
    CrystalColor::RedPurple,
    CrystalColor::Red,
    CrystalColor::RedOrange,
];

#[test]
fn combine_with_itself_is_identity() {
    for c in PALETTE {
        assert_eq!(c.combine(&c), c);
    }
}

#[test]
fn combine_tie_breaks_toward_increasing_index() {
    // Purple sits eight steps ahead of Orange: the distance exceeds half the
    // wheel, so the held color steps backward, wrapping to RedOrange.
    assert_eq!(
        CrystalColor::Orange.combine(&CrystalColor::Purple),
        CrystalColor::RedOrange
    );
    // Blue is exactly opposite Orange (distance six): the tie breaks toward
    // the increasing index.
    assert_eq!(
        CrystalColor::Orange.combine(&CrystalColor::Blue),
        CrystalColor::YellowOrange
    );
}

#[test]
fn combine_moves_one_step_along_the_shorter_arc() {
    // Forward by one: Yellow is two ahead of Orange.
    assert_eq!(
        CrystalColor::Orange.combine(&CrystalColor::Yellow),
        CrystalColor::YellowOrange
    );
    // Backward by one: Orange is four behind Green going down.
    assert_eq!(
        CrystalColor::Green.combine(&CrystalColor::Orange),
        CrystalColor::YellowGreen
    );
    // Wrapping forward: RedOrange to Orange is one step ahead.
    assert_eq!(
        CrystalColor::RedOrange.combine(&CrystalColor::Orange),
        CrystalColor::Orange
    );
}

#[test]
fn combine_never_jumps() {
    for a in PALETTE {
        for b in PALETTE {
            let r = a.combine(&b);
            let ia = a.index() as i32;
            let ir = r.index() as i32;
            let d = (ir - ia).rem_euclid(12);
            assert!(d == 0 || d == 1 || d == 11);
        }
    }
}

#[test]
fn index_round_trip() {
    for c in PALETTE {
        assert_eq!(CrystalColor::from_index(c.index()), c);
    }
    for i in 0..12u8 {
        assert_eq!(CrystalColor::from_index(i).index(), i);
    }
}

#[test]
fn palette_families() {
    let primaries = [CrystalColor::Red, CrystalColor::Blue, CrystalColor::Yellow];
    let secondaries = [CrystalColor::Purple, CrystalColor::Green, CrystalColor::Orange];
    for c in PALETTE {
        let p = primaries.contains(&c);
        let s = secondaries.contains(&c);
        assert_eq!(c.is_primary(), p);
        assert_eq!(c.is_secondary(), s);
        assert_eq!(c.is_tertiary(), !p && !s);
    }
}

#[test]
fn random_colors_come_from_their_family() {
    for _ in 0..64 {
        assert!(CrystalColor::random_primary().is_primary());
        assert!(CrystalColor::random_secondary().is_secondary());
        assert!(CrystalColor::random_tertiary().is_tertiary());
    }
}

#[test]
fn seeded_primary_is_deterministic() {
    for seed in 0..32u64 {
        let a = CrystalColor::primary_from_seed(seed);
        let b = CrystalColor::primary_from_seed(seed);
        assert_eq!(a, b);
        assert!(a.is_primary());
    }
    assert_eq!(CrystalColor::primary_from_seed(0), CrystalColor::Blue);
    assert_eq!(CrystalColor::primary_from_seed(1), CrystalColor::Red);
    assert_eq!(CrystalColor::primary_from_seed(2), CrystalColor::Yellow);
}

#[test]
fn next_target_always_differs() {
    for c in PALETTE {
        for seed in 0..24u64 {
            assert_ne!(CrystalColor::next_target(c, seed), c);
        }
    }
}

#[test]
fn rgb_of_known_hues() {
    assert_eq!(CrystalColor::Orange.rgb(), (255, 126, 0));
    assert_eq!(CrystalColor::Blue.rgb(), (19, 49, 192));
    assert_eq!(CrystalColor::RedOrange.rgb(), (255, 62, 0));
}
