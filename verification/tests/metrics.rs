use bigram_metrics::factor::{Factor, FingerSwitchCost, Hundredths};
use bigram_metrics::key::{Finger, Hand, Key, LayerKey};
use bigram_metrics::movement_pattern::MovementPattern;
use bigram_metrics::std_finger_repeats::{StdFingerRepeats, StdRepeatCost};
use bigram_metrics::std_movement_pattern::{
    against_lengths, lateral_mismatch, vertical, LengthOrder, MovementCost, StdMovementPattern,
    Vertical,
};
use bigram_metrics::sval::SvalKeyDirection;
use bigram_metrics::sval_finger_repeats::{
    center_factor, directional_factor, excluded, SvalFingerRepeats, SvalRepeatCost,
};
use bigram_metrics::sval_movement_pattern::{no_movement, SvalMovementPattern, SwitchCost};

const FINGERS: [Finger; 5] =
    [Finger::Thumb, Finger::Index, Finger::Middle, Finger::Ring, Finger::Pinky];

fn key(hand: Hand, finger: Finger, column: i32, row: i32) -> LayerKey {
    LayerKey {
        key: Key { hand, finger, matrix_position: (column, row) },
        layer: 0,
        symbol: 'x',
        is_modifier: None,
    }
}

fn fixed(h: Hundredths) -> f64 {
    let magnitude = h.value as f64 / 100.0;
    if h.negative {
        -magnitude
    } else {
        magnitude
    }
}

fn value(f: Factor<f64>) -> f64 {
    match f {
        Factor::Configured(x) => x,
        Factor::Fixed(h) => fixed(h),
    }
}

fn unbalancing(u: (f64, f64)) -> f64 {
    let sum = u.0.abs() + u.1.abs();
    if sum == 0.0 {
        1.0
    } else {
        sum
    }
}

fn std_repeat_cost(c: StdRepeatCost<f64>, u1: (f64, f64), u2: (f64, f64), weight: f64) -> f64 {
    match c {
        StdRepeatCost::Zero => 0.0,
        StdRepeatCost::Repeat { unbalancing_factor, finger_factor } => {
            let mut cost = (1.0 + unbalancing_factor * u1.0.abs())
                * (1.0 + unbalancing_factor * u1.1.abs())
                * (1.0 + unbalancing_factor * u2.0.abs())
                * (1.0 + unbalancing_factor * u2.1.abs())
                * weight;
            if let Some(f) = finger_factor {
                cost *= f;
            }
            cost
        }
    }
}

fn sval_repeat_cost(c: SvalRepeatCost<f64>, weight: f64) -> f64 {
    match c {
        SvalRepeatCost::Zero => 0.0,
        SvalRepeatCost::Thumb(h) => weight * fixed(h),
        SvalRepeatCost::Directional { finger_factor, factor } => {
            weight * value(finger_factor) * fixed(factor)
        }
    }
}

fn switch_cost(c: SwitchCost<f64>, u1: (f64, f64), weight: f64) -> f64 {
    match c {
        SwitchCost::Zero => 0.0,
        SwitchCost::Switch(f) => weight * value(f) * unbalancing(u1),
    }
}

fn movement_cost(c: MovementCost<f64>, u1: (f64, f64), weight: f64) -> f64 {
    match c {
        MovementCost::Zero => 0.0,
        MovementCost::Terms(t) => {
            let mut cost = value(t.finger_switch_factor);
            if let Some(f) = t.direction_factor {
                cost *= f;
            }
            if let Some(o) = t.same_row_offset {
                cost += o;
            }
            cost *= 1.0 + t.lateral_mismatch as f64 * t.lateral_stretch_factor;
            cost *= t.unbalancing_factor.powf(unbalancing(u1));
            weight * cost
        }
    }
}

fn std_repeats() -> StdFingerRepeats<f64> {
    StdFingerRepeats::new(&bigram_metrics::std_finger_repeats::Parameters {
        index_finger_factor: 0.5,
        pinky_finger_factor: 1.5,
        unbalancing_factor: 0.1,
    })
}

fn switch_costs() -> Vec<FingerSwitchCost<f64>> {
    vec![
        FingerSwitchCost { from: Finger::Index, to: Finger::Middle, cost: 1000.0 },
        FingerSwitchCost { from: Finger::Middle, to: Finger::Ring, cost: 0.6 },
        FingerSwitchCost { from: Finger::Index, to: Finger::Middle, cost: 0.8 },
    ]
}

fn std_movement() -> StdMovementPattern<f64> {
    StdMovementPattern::new(&bigram_metrics::std_movement_pattern::Parameters {
        finger_switch_factor: switch_costs(),
        finger_lengths: vec![((Hand::Left, Finger::Middle), 1.2), ((Hand::Left, Finger::Pinky), 0.8)],
        short_down_to_long_or_long_up_to_short_factor: 3.0,
        same_row_offset: 0.25,
        unbalancing_factor: 2.0,
        lateral_stretch_factor: 0.5,
    })
}

fn sval_movement() -> SvalMovementPattern<f64> {
    SvalMovementPattern::new(&bigram_metrics::sval_movement_pattern::Parameters {
        finger_switch_factor: switch_costs(),
    })
}

fn movement() -> MovementPattern<f64> {
    MovementPattern::new(&bigram_metrics::movement_pattern::Parameters {
        finger_switch_factor: switch_costs(),
        finger_lengths: vec![((Hand::Left, Finger::Middle), 1.2)],
        short_down_to_long_or_long_up_to_short_factor: 3.0,
        same_row_offset: 0.25,
        unbalancing_factor: 2.0,
        lateral_stretch_factor: 0.5,
    })
}

fn sval_repeats() -> SvalFingerRepeats<f64> {
    SvalFingerRepeats::new(&bigram_metrics::sval_finger_repeats::Parameters {
        finger_factors: vec![(Finger::Index, 0.5), (Finger::Thumb, 9.0), (Finger::Index, 2.0)],
    })
}

fn length_order(a: Factor<f64>, b: Factor<f64>) -> LengthOrder {
    let diff = value(a) - value(b);
    if diff > 0.0 {
        LengthOrder::FirstLonger
    } else if diff < 0.0 {
        LengthOrder::FirstShorter
    } else {
        LengthOrder::Neither
    }
}

#[test]
fn metric_names() {
    assert_eq!(std_repeats().name(), "Finger Repeats (Standard)");
    assert_eq!(std_movement().name(), "Standard Movement Pattern");
    assert_eq!(sval_repeats().name(), "Finger Repeats (Svalboard)");
    assert_eq!(sval_movement().name(), "Svalboard Movement Pattern");
    assert_eq!(movement().name(), "Movement Pattern");
}

#[test]
fn keys_on_two_hands_cost_nothing() {
    for f1 in FINGERS {
        for f2 in FINGERS {
            let k1 = key(Hand::Left, f1, 3, 2);
            let k2 = key(Hand::Right, f2, 4, 2);
            assert_eq!(std_repeats().cost_terms(&k1, &k2), StdRepeatCost::Zero);
            assert_eq!(sval_repeats().cost_terms(&k1, &k2), SvalRepeatCost::Zero);
            assert_eq!(sval_movement().cost_terms(&k1, &k2), SwitchCost::Zero);
            assert_eq!(movement().cost_terms(&k1, &k2), SwitchCost::Zero);
            for order in [LengthOrder::FirstLonger, LengthOrder::FirstShorter, LengthOrder::Neither] {
                assert_eq!(std_movement().cost_terms(&k1, &k2, order), MovementCost::Zero);
            }
            assert!(no_movement(&k1, &k2));
            assert_eq!(switch_cost(sval_movement().cost_terms(&k1, &k2), (0.5, 0.5), 3.0), 0.0);
        }
    }
}

#[test]
fn thumbs_cost_no_movement() {
    for other in FINGERS {
        let thumb = key(Hand::Left, Finger::Thumb, 3, 2);
        let k = key(Hand::Left, other, 4, 2);
        for (a, b) in [(thumb, k), (k, thumb)] {
            assert_eq!(sval_movement().cost_terms(&a, &b), SwitchCost::Zero);
            assert_eq!(movement().cost_terms(&a, &b), SwitchCost::Zero);
            assert_eq!(
                std_movement().cost_terms(&a, &b, LengthOrder::FirstShorter),
                MovementCost::Zero
            );
        }
    }
}

#[test]
fn same_finger_costs_no_movement() {
    let k1 = key(Hand::Left, Finger::Index, 3, 2);
    let k2 = key(Hand::Left, Finger::Index, 3, 1);
    assert!(no_movement(&k1, &k2));
    assert_eq!(sval_movement().cost_terms(&k1, &k2), SwitchCost::Zero);
    assert_eq!(std_movement().cost_terms(&k1, &k2, LengthOrder::Neither), MovementCost::Zero);
    assert!(!no_movement(&k1, &key(Hand::Left, Finger::Ring, 3, 1)));
}

#[test]
fn std_finger_repeats_index_example() {
    let k1 = key(Hand::Left, Finger::Index, 3, 1);
    let k2 = key(Hand::Left, Finger::Index, 3, 2);
    let terms = std_repeats().cost_terms(&k1, &k2);
    assert_eq!(terms, StdRepeatCost::Repeat { unbalancing_factor: 0.1, finger_factor: Some(0.5) });
    assert_eq!(std_repeat_cost(terms, (0.0, 0.0), (0.0, 0.0), 2.0), 1.0);
}

#[test]
fn std_finger_repeats_by_finger() {
    let m = std_repeats();
    let pinky = m.cost_terms(&key(Hand::Right, Finger::Pinky, 9, 1), &key(Hand::Right, Finger::Pinky, 9, 2));
    assert_eq!(pinky, StdRepeatCost::Repeat { unbalancing_factor: 0.1, finger_factor: Some(1.5) });
    assert_eq!(std_repeat_cost(pinky, (1.0, 0.0), (0.0, -2.0), 2.0), 1.1 * 1.2 * 2.0 * 1.5);
    for f in [Finger::Thumb, Finger::Middle, Finger::Ring] {
        let k = key(Hand::Right, f, 7, 1);
        assert_eq!(
            m.cost_terms(&k, &key(Hand::Right, f, 7, 2)),
            StdRepeatCost::Repeat { unbalancing_factor: 0.1, finger_factor: None }
        );
    }
    assert_eq!(
        m.cost_terms(&key(Hand::Right, Finger::Ring, 7, 1), &key(Hand::Right, Finger::Middle, 7, 1)),
        StdRepeatCost::Zero
    );
}

#[test]
fn std_finger_repeats_counts_a_key_pressed_twice() {
    let k = key(Hand::Left, Finger::Middle, 3, 1);
    let terms = std_repeats().cost_terms(&k, &k);
    assert_eq!(terms, StdRepeatCost::Repeat { unbalancing_factor: 0.1, finger_factor: None });
    assert_eq!(std_repeat_cost(terms, (0.0, 0.0), (0.0, 0.0), 4.0), 4.0);
}

#[test]
fn sval_finger_repeats_thumb_costs_are_fixed() {
    let m = sval_repeats();
    let held = LayerKey { is_modifier: Some(1), ..key(Hand::Left, Finger::Thumb, 1, 5) };
    let other = key(Hand::Left, Finger::Thumb, 2, 5);
    assert_eq!(sval_repeat_cost(m.cost_terms(&held, &held), 3.0), 3.0);
    assert_eq!(sval_repeat_cost(m.cost_terms(&held, &other), 3.0), 6.0);
    assert_eq!(sval_repeat_cost(m.cost_terms(&other, &held), 3.0), 6.0);
    assert_eq!(
        m.cost_terms(&held, &held),
        SvalRepeatCost::Thumb(Hundredths { value: 100, negative: false })
    );
}

#[test]
fn sval_finger_repeats_leaves_out_a_plain_key_pressed_twice() {
    let m = sval_repeats();
    let thumb = key(Hand::Left, Finger::Thumb, 1, 5);
    assert_eq!(m.cost_terms(&thumb, &thumb), SvalRepeatCost::Zero);
    let index = key(Hand::Left, Finger::Index, 2, 2);
    assert_eq!(m.cost_terms(&index, &index), SvalRepeatCost::Zero);
    let held = LayerKey { is_modifier: Some(2), ..index };
    assert_eq!(sval_repeat_cost(m.cost_terms(&held, &held), 2.0), 2.0 * 2.0 * 0.7);
    assert_eq!(
        m.cost_terms(&index, &key(Hand::Left, Finger::Middle, 2, 2)),
        SvalRepeatCost::Zero
    );
    assert!(excluded(&index, &index));
    assert!(!excluded(&held, &held));
    assert!(!excluded(&index, &key(Hand::Left, Finger::Index, 2, 1)));
    assert!(excluded(&index, &key(Hand::Right, Finger::Index, 2, 1)));
}

#[test]
fn sval_finger_repeats_directional_costs() {
    let m = sval_repeats();
    let at = |hand, finger, column, row| key(hand, finger, column, row);
    let cost = |k1: LayerKey, k2: LayerKey| sval_repeat_cost(m.cost_terms(&k1, &k2), 2.0);
    // ring finger of the left hand, cluster around (8, 2), factor 1
    let (c, n, s, e, w) = (
        at(Hand::Left, Finger::Ring, 8, 2),
        at(Hand::Left, Finger::Ring, 8, 1),
        at(Hand::Left, Finger::Ring, 8, 3),
        at(Hand::Left, Finger::Ring, 9, 2),
        at(Hand::Left, Finger::Ring, 7, 2),
    );
    assert_eq!(cost(c, s), 0.0);
    assert!(cost(c, s).is_sign_negative());
    assert_eq!(cost(c, n), 2.0 * 0.3);
    assert_eq!(cost(c, e), 2.0 * 0.4);
    assert_eq!(cost(c, w), 2.0 * 3.0);
    assert_eq!(cost(s, c), 0.0);
    assert!(cost(s, c).is_sign_negative());
    assert_eq!(cost(n, c), 2.0 * 0.3);
    assert_eq!(cost(e, c), 2.0 * 0.4);
    assert_eq!(cost(w, c), 2.0 * 3.0);
    assert_eq!(cost(e, w), 2.0 * 1.75);
    assert_eq!(cost(w, e), 2.0 * 1.75);
    assert_eq!(cost(n, s), 2.0 * 1.75);
    assert_eq!(cost(s, n), 2.0 * 1.75);
    assert_eq!(cost(s, e), 2.0);
    assert_eq!(cost(e, n), 2.0);
    // index finger, configured factor 2, the last entry for it
    let (ic, is, ie) = (
        at(Hand::Left, Finger::Index, 11, 2),
        at(Hand::Left, Finger::Index, 11, 3),
        at(Hand::Left, Finger::Index, 12, 2),
    );
    assert_eq!(cost(is, ie), 2.0 * 2.0 * 0.2);
    assert_eq!(cost(ic, ie), 2.0 * 2.0 * 0.4);
    let (rs, re, rw) = (
        at(Hand::Right, Finger::Index, 14, 3),
        at(Hand::Right, Finger::Index, 15, 2),
        at(Hand::Right, Finger::Index, 13, 2),
    );
    assert_eq!(cost(rs, rw), 2.0 * 2.0 * 0.2);
    assert_eq!(cost(rs, re), 2.0 * 2.0);
}

#[test]
fn directional_factor_table() {
    let (center, east, north, south, west) = (
        SvalKeyDirection::Center,
        SvalKeyDirection::East,
        SvalKeyDirection::North,
        SvalKeyDirection::South,
        SvalKeyDirection::West,
    );
    let h = |value| Hundredths { value, negative: false };
    for (d, expected) in [(north, 100), (south, 50), (east, 100), (west, 100), (center, 70)] {
        assert_eq!(directional_factor(Hand::Left, Finger::Ring, d, d), h(expected));
    }
    assert_eq!(
        directional_factor(Hand::Right, Finger::Index, center, south),
        Hundredths { value: 0, negative: true }
    );
    assert_eq!(directional_factor(Hand::Right, Finger::Index, center, west), h(40));
    assert_eq!(directional_factor(Hand::Right, Finger::Index, center, east), h(300));
    assert_eq!(directional_factor(Hand::Left, Finger::Index, south, east), h(20));
    assert_eq!(directional_factor(Hand::Left, Finger::Middle, south, east), h(100));
    assert_eq!(directional_factor(Hand::Left, Finger::Index, south, west), h(100));
    assert_eq!(directional_factor(Hand::Left, Finger::Index, west, center), h(300));
    assert_eq!(directional_factor(Hand::Left, Finger::Index, east, center), h(40));
    assert_eq!(directional_factor(Hand::Right, Finger::Ring, west, center), h(40));
    assert_eq!(directional_factor(Hand::Right, Finger::Ring, east, center), h(300));
    assert_eq!(directional_factor(Hand::Right, Finger::Ring, north, center), h(30));
    assert_eq!(
        directional_factor(Hand::Left, Finger::Middle, south, center),
        Hundredths { value: 0, negative: true }
    );
    assert_eq!(center_factor(Hand::Left, south), Hundredths { value: 0, negative: true });
    assert_eq!(center_factor(Hand::Left, north), h(30));
    assert_eq!(center_factor(Hand::Left, east), h(40));
    assert_eq!(center_factor(Hand::Left, west), h(300));
    assert_eq!(center_factor(Hand::Right, west), h(40));
    assert_eq!(center_factor(Hand::Right, center), h(70));
    assert_eq!(directional_factor(Hand::Left, Finger::Index, north, west), h(100));
}

#[test]
fn south_then_center_on_a_middle_finger_is_free() {
    let m = SvalFingerRepeats::new(&bigram_metrics::sval_finger_repeats::Parameters {
        finger_factors: Vec::<(Finger, f64)>::new(),
    });
    let k1 = key(Hand::Left, Finger::Middle, 2, 3);
    let k2 = key(Hand::Left, Finger::Middle, 2, 2);
    assert_eq!(sval_repeat_cost(m.cost_terms(&k1, &k2), 1.0), 0.0);
    assert_eq!(sval_repeat_cost(m.cost_terms(&k2, &k1), 1.0), 0.0);
}

#[test]
fn the_order_of_two_presses_matters_only_for_the_index_roll() {
    let directions = [
        SvalKeyDirection::North,
        SvalKeyDirection::South,
        SvalKeyDirection::East,
        SvalKeyDirection::West,
        SvalKeyDirection::Center,
    ];
    for hand in [Hand::Left, Hand::Right] {
        for a in directions {
            for b in directions {
                assert_eq!(
                    directional_factor(hand, Finger::Ring, a, b),
                    directional_factor(hand, Finger::Ring, b, a)
                );
            }
        }
    }
    assert_eq!(
        directional_factor(Hand::Left, Finger::Index, SvalKeyDirection::East, SvalKeyDirection::South),
        Hundredths { value: 100, negative: false }
    );
}

#[test]
fn sval_movement_pattern_costs_only_sideways_first_keys() {
    let m = sval_movement();
    let to = key(Hand::Left, Finger::Middle, 14, 2);
    let south = key(Hand::Left, Finger::Index, 11, 3);
    assert_eq!(m.cost_terms(&south, &to), SwitchCost::Zero);
    assert_eq!(switch_cost(m.cost_terms(&south, &to), (1.0, 1.0), 5.0), 0.0);
    for (column, row) in [(11, 2), (11, 1), (11, 3)] {
        let first = key(Hand::Left, Finger::Index, column, row);
        assert_eq!(m.cost_terms(&first, &to), SwitchCost::Zero);
        assert_eq!(movement().cost_terms(&first, &to), SwitchCost::Zero);
    }
    for column in [10, 12] {
        let first = key(Hand::Left, Finger::Index, column, 2);
        let terms = m.cost_terms(&first, &to);
        assert_eq!(terms, SwitchCost::Switch(Factor::Configured(0.8)));
        assert_eq!(movement().cost_terms(&first, &to), terms);
        assert_eq!(switch_cost(terms, (0.0, 0.0), 5.0), 5.0 * 0.8);
        assert_eq!(switch_cost(terms, (0.5, -1.0), 5.0), 5.0 * 0.8 * 1.5);
    }
    let unconfigured = m.cost_terms(&key(Hand::Right, Finger::Ring, 21, 2), &key(Hand::Right, Finger::Index, 14, 2));
    assert_eq!(switch_cost(unconfigured, (0.0, 0.0), 5.0), 0.0);
}

#[test]
fn std_movement_pattern_adds_the_same_row_offset() {
    let m = std_movement();
    let k1 = key(Hand::Left, Finger::Index, 4, 1);
    let k2 = key(Hand::Left, Finger::Middle, 3, 1);
    let lengths = m.finger_lengths_of(&k1, &k2);
    assert_eq!(value(lengths.0), 1.0);
    assert_eq!(value(lengths.1), 1.2);
    let order = length_order(lengths.0, lengths.1);
    assert_eq!(order, LengthOrder::FirstShorter);
    let terms = m.cost_terms(&k1, &k2, order);
    match terms {
        MovementCost::Terms(t) => {
            assert_eq!(t.same_row_offset, Some(0.25));
            assert_eq!(t.direction_factor, None);
            assert_eq!(t.lateral_mismatch, 0);
        }
        MovementCost::Zero => panic!("a movement between two fingers"),
    }
    assert_eq!(movement_cost(terms, (0.0, 0.0), 2.0), 2.0 * ((0.8 + 0.25) * 1.0 * 2.0));
    let far = key(Hand::Left, Finger::Middle, 1, 1);
    assert_eq!(
        movement_cost(m.cost_terms(&k1, &far, order), (1.0, 1.0), 2.0),
        2.0 * ((0.8 + 0.25) * (1.0 + 2.0 * 0.5) * 4.0)
    );
}

#[test]
fn std_movement_pattern_scales_movements_against_the_lengths() {
    let m = std_movement();
    let index = key(Hand::Left, Finger::Index, 4, 2);
    let up = key(Hand::Left, Finger::Middle, 3, 1);
    let down = key(Hand::Left, Finger::Middle, 3, 3);
    let order = length_order(m.finger_lengths_of(&index, &up).0, m.finger_lengths_of(&index, &up).1);
    assert_eq!(movement_cost(m.cost_terms(&index, &up, order), (0.0, 0.0), 1.0), 0.8 * 3.0 * 2.0);
    assert_eq!(movement_cost(m.cost_terms(&index, &down, order), (0.0, 0.0), 1.0), 0.8 * 2.0);
    let back = length_order(m.finger_lengths_of(&up, &index).0, m.finger_lengths_of(&up, &index).1);
    assert_eq!(back, LengthOrder::FirstLonger);
    assert_eq!(movement_cost(m.cost_terms(&down, &index, back), (0.0, 0.0), 1.0), 0.0);
    let ring = key(Hand::Left, Finger::Ring, 2, 3);
    assert_eq!(
        movement_cost(m.cost_terms(&up, &ring, LengthOrder::FirstLonger), (0.0, 0.0), 1.0),
        0.6 * 3.0 * 2.0
    );
    assert_eq!(
        movement_cost(m.cost_terms(&up, &ring, LengthOrder::Neither), (0.0, 0.0), 1.0),
        0.6 * 2.0
    );
}

#[test]
fn movement_helpers() {
    let a = key(Hand::Left, Finger::Index, 4, 2);
    let b = key(Hand::Left, Finger::Pinky, 0, 1);
    assert_eq!(vertical(&a, &b), Vertical::Upwards);
    assert_eq!(vertical(&b, &a), Vertical::Downwards);
    assert_eq!(vertical(&a, &a), Vertical::SameRow);
    assert_eq!(lateral_mismatch(&a, &b), 1);
    assert_eq!(lateral_mismatch(&b, &a), 1);
    assert_eq!(lateral_mismatch(&a, &key(Hand::Left, Finger::Pinky, 4, 1)), 3);
    assert!(against_lengths(Vertical::Upwards, LengthOrder::FirstShorter));
    assert!(against_lengths(Vertical::Downwards, LengthOrder::FirstLonger));
    assert!(!against_lengths(Vertical::Upwards, LengthOrder::FirstLonger));
    assert!(!against_lengths(Vertical::Downwards, LengthOrder::FirstShorter));
    assert!(!against_lengths(Vertical::SameRow, LengthOrder::FirstLonger));
    assert!(!against_lengths(Vertical::Upwards, LengthOrder::Neither));
}

#[test]
fn metrics_built_twice_cost_the_same() {
    let (a, b) = (sval_repeats(), sval_repeats());
    let (c, d) = (std_movement(), std_movement());
    let (e, f) = (sval_movement(), sval_movement());
    let (g, h) = (std_repeats(), std_repeats());
    let (i, j) = (movement(), movement());
    for f1 in FINGERS {
        for f2 in FINGERS {
            for hand in [Hand::Left, Hand::Right] {
                for column in 0..6 {
                    let k1 = key(hand, f1, column, 2);
                    let k2 = key(Hand::Left, f2, 3, 1 + column % 3);
                    assert_eq!(a.cost_terms(&k1, &k2), b.cost_terms(&k1, &k2));
                    assert_eq!(
                        c.cost_terms(&k1, &k2, LengthOrder::FirstLonger),
                        d.cost_terms(&k1, &k2, LengthOrder::FirstLonger)
                    );
                    assert_eq!(e.cost_terms(&k1, &k2), f.cost_terms(&k1, &k2));
                    assert_eq!(g.cost_terms(&k1, &k2), h.cost_terms(&k1, &k2));
                    assert_eq!(i.cost_terms(&k1, &k2), j.cost_terms(&k1, &k2));
                }
            }
        }
    }
}
