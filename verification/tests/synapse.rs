use rthybrid_electrical_synapse::arithmetic::Arithmetic;
use rthybrid_electrical_synapse::binary64::Binary64;
use rthybrid_electrical_synapse::synapse::{
    RthybridElectricalSynapseRust as Synapse, DEGENERATE_SCALE_BITS, LIMIT_BITS,
    NEGATIVE_LIMIT_BITS,
};
use serde_json::Value;
use std::cell::RefCell;

const POST: &str = "Post-synaptic Voltage (V)";
const PRE: &str = "Pre-synaptic Voltage (V)";
const SCALE: &str = "Scale (Pre to Post)";
const OFFSET: &str = "Offset (Pre to Post)";
const CURRENT: &str = "Current (nA)";

fn num(x: f64) -> Binary64 {
    Binary64::from_bits(x.to_bits())
}

fn val(x: Binary64) -> f64 {
    f64::from_bits(x.to_bits())
}

/// The machine's own arithmetic.
struct Hardware;

impl Arithmetic for Hardware {
    fn product(&self, a: Binary64, b: Binary64) -> Binary64 {
        num(val(a) * val(b))
    }

    fn sum(&self, a: Binary64, b: Binary64) -> Binary64 {
        num(val(a) + val(b))
    }

    fn difference(&self, a: Binary64, b: Binary64) -> Binary64 {
        num(val(a) - val(b))
    }

    fn quotient(&self, a: Binary64, b: Binary64) -> Binary64 {
        num(val(a) / val(b))
    }
}

/// An arithmetic that answers every question with the same number.
struct Stuck(f64);

impl Arithmetic for Stuck {
    fn product(&self, _a: Binary64, _b: Binary64) -> Binary64 {
        num(self.0)
    }

    fn sum(&self, _a: Binary64, _b: Binary64) -> Binary64 {
        num(self.0)
    }

    fn difference(&self, _a: Binary64, _b: Binary64) -> Binary64 {
        num(self.0)
    }

    fn quotient(&self, _a: Binary64, _b: Binary64) -> Binary64 {
        num(self.0)
    }
}

/// The machine's arithmetic, keeping a list of what it was asked.
struct Recording {
    asked: RefCell<Vec<(char, f64, f64)>>,
}

impl Recording {
    fn new() -> Recording {
        Recording { asked: RefCell::new(Vec::new()) }
    }
}

impl Arithmetic for Recording {
    fn product(&self, a: Binary64, b: Binary64) -> Binary64 {
        self.asked.borrow_mut().push(('*', val(a), val(b)));
        num(val(a) * val(b))
    }

    fn sum(&self, a: Binary64, b: Binary64) -> Binary64 {
        self.asked.borrow_mut().push(('+', val(a), val(b)));
        num(val(a) + val(b))
    }

    fn difference(&self, a: Binary64, b: Binary64) -> Binary64 {
        self.asked.borrow_mut().push(('-', val(a), val(b)));
        num(val(a) - val(b))
    }

    fn quotient(&self, a: Binary64, b: Binary64) -> Binary64 {
        self.asked.borrow_mut().push(('/', val(a), val(b)));
        num(val(a) / val(b))
    }
}

fn synapse(post_v: f64, pre_v: f64, scale: f64, offset: f64, g_us: f64) -> Synapse {
    Synapse {
        post_v: num(post_v),
        pre_v: num(pre_v),
        scale: num(scale),
        offset: num(offset),
        out_0: num(0.0),
        g_us: num(g_us),
    }
}

fn fields(s: &Synapse) -> [u64; 6] {
    [
        s.post_v.to_bits(),
        s.pre_v.to_bits(),
        s.scale.to_bits(),
        s.offset.to_bits(),
        s.out_0.to_bits(),
        s.g_us.to_bits(),
    ]
}

/// What the tick is to compute, written with the machine's numbers.
fn expected_output(post_v: f64, pre_v: f64, scale: f64, offset: f64, g_us: f64) -> f64 {
    let inputs_finite =
        post_v.is_finite() && pre_v.is_finite() && scale.is_finite() && offset.is_finite();
    if !(g_us.is_finite() && inputs_finite) {
        return 0.0;
    }
    let mut scale = scale;
    let mut offset_mv = offset * 1000.0;
    if scale.abs() < 1e-15 {
        scale = 1.0;
        offset_mv = 0.0;
    }
    scale = scale.clamp(-1e6, 1e6);
    offset_mv = offset_mv.clamp(-1e6, 1e6);
    let out = (g_us * (post_v * 1000.0 - (pre_v * 1000.0 * scale + offset_mv))).clamp(-1e6, 1e6);
    if out.is_finite() {
        out
    } else {
        0.0
    }
}

#[test]
fn limits_encode_their_numbers() {
    assert_eq!(LIMIT_BITS, 1e6f64.to_bits());
    assert_eq!(NEGATIVE_LIMIT_BITS, (-1e6f64).to_bits());
    assert_eq!(DEGENERATE_SCALE_BITS, 1e-15f64.to_bits());
    assert_eq!(val(Synapse::limit()), 1e6);
    assert_eq!(val(Synapse::negative_limit()), -1e6);
    assert_eq!(val(Synapse::degenerate_scale()), 1e-15);
}

#[test]
fn a_new_synapse_is_all_zero() {
    let s = Synapse::default();
    assert_eq!(fields(&s), [0; 6]);
    assert!(!s.is_corrupted());
}

#[test]
fn input_setter_stores_finite_values_bit_for_bit() {
    let values =
        [2.5, -0.0, 0.0, -3.75e-300, 1e308, f64::MIN_POSITIVE, f64::from_bits(1), -f64::MAX];
    for v in values {
        let mut s = Synapse::default();
        s.set_input_value(POST, num(v));
        assert_eq!(s.post_v.to_bits(), v.to_bits());
        s.set_input_value(PRE, num(v));
        assert_eq!(s.pre_v.to_bits(), v.to_bits());
        s.set_input_value(SCALE, num(v));
        assert_eq!(s.scale.to_bits(), v.to_bits());
        s.set_input_value(OFFSET, num(v));
        assert_eq!(s.offset.to_bits(), v.to_bits());
        assert_eq!(s.out_0.to_bits(), 0);
        assert_eq!(s.g_us.to_bits(), 0);
    }
}

#[test]
fn input_setter_touches_one_port_only() {
    let mut s = synapse(1.0, 2.0, 3.0, 4.0, 5.0);
    s.out_0 = num(6.0);
    s.set_input_value(SCALE, num(9.0));
    assert_eq!(fields(&s).map(f64::from_bits), [1.0, 2.0, 9.0, 4.0, 6.0, 5.0]);
    s.set_input_value(POST, num(-1.0));
    assert_eq!(fields(&s).map(f64::from_bits), [-1.0, 2.0, 9.0, 4.0, 6.0, 5.0]);
    s.set_input_value(PRE, num(-2.0));
    assert_eq!(fields(&s).map(f64::from_bits), [-1.0, -2.0, 9.0, 4.0, 6.0, 5.0]);
    s.set_input_value(OFFSET, num(-4.0));
    assert_eq!(fields(&s).map(f64::from_bits), [-1.0, -2.0, 9.0, -4.0, 6.0, 5.0]);
}

#[test]
fn input_setter_replaces_non_finite_values_by_zero() {
    let signalling = f64::from_bits(0x7ff0_0000_0000_0001);
    let bad = [f64::NAN, -f64::NAN, f64::INFINITY, f64::NEG_INFINITY, signalling];
    for key in [POST, PRE, SCALE, OFFSET] {
        for v in bad {
            let mut s = synapse(1.0, 2.0, 3.0, 4.0, 5.0);
            s.set_input_value(key, num(v));
            let stored = s.get_internal_value(match key {
                POST => "post_v",
                PRE => "pre_v",
                SCALE => "scale",
                _ => "offset",
            });
            assert_eq!(stored.map(Binary64::to_bits), Some(0), "{key} <- {v}");
            assert!(!s.is_corrupted());
        }
    }
}

#[test]
fn input_setter_ignores_unknown_keys() {
    let keys =
        ["", "post_v", "g_us", CURRENT, "Scale", "Post-synaptic Voltage (V) ", "Offset (Pre to Post"];
    for key in keys {
        let mut s = synapse(1.0, 2.0, 3.0, 4.0, 5.0);
        s.out_0 = num(6.0);
        let before = fields(&s);
        s.set_input_value(key, num(42.0));
        assert_eq!(fields(&s), before, "{key:?}");
        s.set_input_value(key, num(f64::NAN));
        assert_eq!(fields(&s), before, "{key:?}");
    }
}

#[test]
fn config_setter_stores_microsiemens_as_given() {
    for key in ["g_us", "g_gap", "g (uS)", "g (microS)", "g"] {
        let mut s = synapse(1.0, 2.0, 3.0, 4.0, 5.0);
        s.set_config_value(key, &Value::from(0.75), &Hardware);
        assert_eq!(fields(&s).map(f64::from_bits), [1.0, 2.0, 3.0, 4.0, 0.0, 0.75], "{key}");
    }
}

#[test]
fn config_setter_divides_nanosiemens_by_a_thousand() {
    let mut s = Synapse::default();
    s.set_config_value("g (nS)", &Value::from(2500.0), &Hardware);
    assert_eq!(val(s.g_us), 2.5);
    s.set_config_value("g (nS)", &Value::from(1.0), &Hardware);
    assert_eq!(val(s.g_us), 1.0 / 1000.0);
    s.set_config_value("g (nS)", &Value::from(-3.0), &Hardware);
    assert_eq!(val(s.g_us), -3.0 / 1000.0);
}

#[test]
fn thousand_nanosiemens_are_one_microsiemens() {
    let mut a = Synapse::default();
    a.set_config_value("g (nS)", &Value::from(1000.0), &Hardware);
    let mut b = Synapse::default();
    b.set_config_value("g_us", &Value::from(1.0), &Hardware);
    assert_eq!(val(a.g_us), 1.0);
    assert_eq!(fields(&a), fields(&b));
}

#[test]
fn config_setter_takes_whole_numbers() {
    let mut s = Synapse::default();
    s.set_config_value("g_us", &Value::from(3u64), &Hardware);
    assert_eq!(val(s.g_us), 3.0);
    s.set_config_value("g_us", &Value::from(-2i64), &Hardware);
    assert_eq!(val(s.g_us), -2.0);
    s.set_config_value("g (nS)", &Value::from(500u64), &Hardware);
    assert_eq!(val(s.g_us), 0.5);
    s.set_config_value("g", &Value::from(u64::MAX), &Hardware);
    assert_eq!(val(s.g_us), u64::MAX as f64);
}

#[test]
fn config_setter_ignores_values_that_are_no_numbers() {
    let values = [
        Value::Null,
        Value::Bool(true),
        Value::String("1.5".to_string()),
        Value::Array(vec![Value::from(1.5)]),
        Value::Object(serde_json::Map::new()),
        Value::from(f64::NAN),
        Value::from(f64::INFINITY),
    ];
    for key in ["g_us", "g (nS)", "g"] {
        for value in &values {
            let mut s = synapse(1.0, 2.0, 3.0, 4.0, 5.0);
            let before = fields(&s);
            s.set_config_value(key, value, &Hardware);
            assert_eq!(fields(&s), before, "{key} <- {value}");
        }
    }
}

#[test]
fn config_setter_ignores_unknown_keys() {
    for key in ["", "G", "g_US", "g (ns)", "g (mS)", "post_v", "scale", SCALE, CURRENT, "g_us "] {
        let mut s = synapse(1.0, 2.0, 3.0, 4.0, 5.0);
        s.out_0 = num(6.0);
        let before = fields(&s);
        s.set_config_value(key, &Value::from(9.0), &Hardware);
        assert_eq!(fields(&s), before, "{key:?}");
        s.set_config_number(key, num(9.0), &Hardware);
        assert_eq!(fields(&s), before, "{key:?}");
        s.set_config_number(key, num(f64::NAN), &Hardware);
        assert_eq!(fields(&s), before, "{key:?}");
    }
}

#[test]
fn config_setter_asks_for_the_thousandth_of_the_number() {
    let unit = Recording::new();
    let mut s = Synapse::default();
    s.set_config_value("g (nS)", &Value::from(250.0), &unit);
    assert_eq!(*unit.asked.borrow(), vec![('/', 250.0, 1000.0)]);
    assert_eq!(val(s.g_us), 0.25);
}

#[test]
fn config_setter_asks_nothing_for_microsiemens() {
    for key in ["g_us", "g_gap", "g (uS)", "g (microS)", "g", "unknown"] {
        let unit = Recording::new();
        let mut s = Synapse::default();
        s.set_config_value(key, &Value::from(250.0), &unit);
        assert!(unit.asked.borrow().is_empty(), "{key}");
    }
}

#[test]
fn config_number_is_stored_as_it_comes() {
    let mut s = Synapse::default();
    s.set_config_number("g_us", num(8.0), &Hardware);
    assert_eq!(val(s.g_us), 8.0);
    s.set_config_number("g (nS)", num(8.0), &Hardware);
    assert_eq!(val(s.g_us), 0.008);
    s.set_config_number("g (nS)", num(8.0), &Stuck(0.5));
    assert_eq!(val(s.g_us), 0.5);
    s.set_config_number("g_gap", num(f64::NAN), &Hardware);
    assert!(val(s.g_us).is_nan());
    assert!(s.is_corrupted());
    s.set_config_number("g (nS)", num(f64::INFINITY), &Hardware);
    assert_eq!(val(s.g_us), f64::INFINITY);
    assert!(s.is_corrupted());
    s.set_config_number("g", num(-0.0), &Hardware);
    assert_eq!(s.g_us.to_bits(), (-0.0f64).to_bits());
    assert!(!s.is_corrupted());
}

#[test]
fn degenerate_scale_passes_the_voltage_through() {
    let mut s = Synapse::default();
    s.set_input_value(SCALE, num(0.0));
    s.set_input_value(OFFSET, num(5.0));
    s.set_input_value(PRE, num(2.0));
    s.set_input_value(POST, num(3.0));
    s.set_config_value("g_us", &Value::from(1.0), &Hardware);
    s.process_tick(0, num(0.001), &Hardware);
    assert_eq!(val(s.get_output_value(CURRENT)), 1000.0);
    assert_eq!(s.get_internal_value("current").map(val), Some(1000.0));
}

#[test]
fn nominal_transform_gives_minus_fifty() {
    let mut s = Synapse::default();
    s.set_input_value(SCALE, num(2.0));
    s.set_input_value(OFFSET, num(0.1));
    s.set_input_value(PRE, num(1.0));
    s.set_input_value(POST, num(2.0));
    s.set_config_value("g_us", &Value::from(0.5), &Hardware);
    s.process_tick(0, num(0.001), &Hardware);
    assert_eq!(val(s.get_output_value(CURRENT)), -50.0);
}

#[test]
fn tick_asks_for_the_current_step_by_step() {
    let unit = Recording::new();
    let mut s = synapse(2.0, 1.0, 2.0, 0.1, 0.5);
    s.process_tick(3, num(0.001), &unit);
    assert_eq!(
        *unit.asked.borrow(),
        vec![
            ('*', 0.1, 1000.0),
            ('*', 2.0, 1000.0),
            ('*', 1.0, 1000.0),
            ('*', 1000.0, 2.0),
            ('+', 2000.0, 100.0),
            ('-', 2000.0, 2100.0),
            ('*', 0.5, -100.0),
        ]
    );
    assert_eq!(val(s.out_0), -50.0);
}

#[test]
fn tick_on_a_degenerate_scale_asks_with_scale_one_and_no_offset() {
    let unit = Recording::new();
    let mut s = synapse(3.0, 2.0, 1e-16, 5.0, 1.0);
    s.process_tick(0, num(0.001), &unit);
    assert_eq!(
        *unit.asked.borrow(),
        vec![
            ('*', 5.0, 1000.0),
            ('*', 3.0, 1000.0),
            ('*', 2.0, 1000.0),
            ('*', 2000.0, 1.0),
            ('+', 2000.0, 0.0),
            ('-', 3000.0, 2000.0),
            ('*', 1.0, 1000.0),
        ]
    );
    assert_eq!(val(s.out_0), 1000.0);
}

#[test]
fn tick_on_a_corrupted_state_asks_nothing() {
    let unit = Recording::new();
    let mut s = synapse(3.0, 2.0, 1.0, 5.0, f64::NAN);
    s.out_0 = num(7.0);
    s.process_tick(0, num(0.001), &unit);
    assert!(unit.asked.borrow().is_empty());
    assert_eq!(s.out_0.to_bits(), 0);
}

#[test]
fn output_is_clamped_to_a_million() {
    let mut s = synapse(3.0, 2.0, 1.0, 0.0, 1e9);
    s.process_tick(0, num(0.001), &Hardware);
    assert_eq!(val(s.out_0), 1e6);
    let mut s = synapse(2.0, 3.0, 1.0, 0.0, 1e9);
    s.process_tick(0, num(0.001), &Hardware);
    assert_eq!(val(s.out_0), -1e6);
    let mut s = synapse(1e300, -1e300, 1.0, 0.0, 1e300);
    s.process_tick(0, num(0.001), &Hardware);
    assert_eq!(val(s.out_0), 1e6);
    let mut s = synapse(-1e300, 1e300, 1.0, 0.0, 1e300);
    s.process_tick(0, num(0.001), &Hardware);
    assert_eq!(val(s.out_0), -1e6);
    let mut s = synapse(1.0, 0.0, 1.0, 0.0, 1000.0);
    s.process_tick(0, num(0.001), &Hardware);
    assert_eq!(val(s.out_0), 1e6);
    let mut s = synapse(1.0, 0.0, 1.0, 0.0, 999.0);
    s.process_tick(0, num(0.001), &Hardware);
    assert_eq!(val(s.out_0), 999_000.0);
}

#[test]
fn scale_and_offset_are_clamped_before_use() {
    // A scale of 1e9 counts as 1e6: 1 * (0 - (0.001 * 1000 * 1e6 + 0)) = -1e6.
    let mut s = synapse(0.0, 0.001, 1e9, 0.0, 0.5);
    s.process_tick(0, num(0.001), &Hardware);
    assert_eq!(val(s.out_0), -500_000.0);
    // An offset of 1e9 V is 1e12 mV and counts as 1e6 mV.
    let mut s = synapse(0.0, 0.0, 1.0, 1e9, 0.25);
    s.process_tick(0, num(0.001), &Hardware);
    assert_eq!(val(s.out_0), -250_000.0);
    // An offset whose millivolts overflow counts as 1e6 mV just the same.
    let mut s = synapse(0.0, 0.0, 1.0, -1e308, 0.25);
    s.process_tick(0, num(0.001), &Hardware);
    assert_eq!(val(s.out_0), 250_000.0);
}

#[test]
fn corrupted_state_gives_zero() {
    let bad = [f64::NAN, f64::INFINITY, f64::NEG_INFINITY];
    for v in bad {
        for field in 0..5 {
            let mut s = synapse(3.0, 2.0, 1.5, 0.25, 2.0);
            s.out_0 = num(123.0);
            match field {
                0 => s.post_v = num(v),
                1 => s.pre_v = num(v),
                2 => s.scale = num(v),
                3 => s.offset = num(v),
                _ => s.g_us = num(v),
            }
            assert!(s.is_corrupted());
            s.process_tick(1, num(0.001), &Hardware);
            assert_eq!(s.out_0.to_bits(), 0, "field {field} = {v}");
            assert_eq!(s.get_output_value(CURRENT).to_bits(), 0);
        }
    }
}

#[test]
fn corrupted_conductance_by_configuration_gives_zero() {
    let mut s = synapse(3.0, 2.0, 1.0, 0.0, 1.0);
    s.process_tick(0, num(0.001), &Hardware);
    assert_eq!(val(s.out_0), 1000.0);
    s.set_config_number("g_us", num(f64::INFINITY), &Hardware);
    s.process_tick(1, num(0.001), &Hardware);
    assert_eq!(s.out_0.to_bits(), 0);
    s.set_config_value("g_us", &Value::from(2.0), &Hardware);
    s.process_tick(2, num(0.001), &Hardware);
    assert_eq!(val(s.out_0), 2000.0);
}

#[test]
fn tick_leaves_inputs_and_conductance_alone() {
    let mut s = synapse(3.0, 2.0, 0.0, 5.0, 1.0);
    s.process_tick(0, num(0.001), &Hardware);
    assert_eq!(fields(&s).map(f64::from_bits), [3.0, 2.0, 0.0, 5.0, 1000.0, 1.0]);
    let mut s = synapse(3.0, 2.0, 1e9, 1e9, 1.0);
    s.process_tick(0, num(0.001), &Hardware);
    assert_eq!(val(s.scale), 1e9);
    assert_eq!(val(s.offset), 1e9);
}

#[test]
fn tick_ignores_index_and_period() {
    let ticks = [(0, 0.001), (u64::MAX, 0.0), (7, f64::NAN), (8, -1.0), (9, f64::INFINITY)];
    for (tick, period) in ticks {
        let mut s = synapse(2.0, 1.0, 2.0, 0.1, 0.5);
        s.process_tick(tick, num(period), &Hardware);
        assert_eq!(val(s.out_0), -50.0);
    }
}

#[test]
fn tick_agrees_with_the_formula_on_a_grid() {
    let values = [
        0.0,
        -0.0,
        1.0,
        -1.0,
        0.5,
        2.0,
        1e-16,
        -1e-16,
        9.99e-16,
        1e-15,
        1.01e-15,
        1e-3,
        0.07,
        1e3,
        1e6,
        1e7,
        -1e9,
        1e150,
        -1e300,
        f64::MAX,
        f64::MIN_POSITIVE,
        f64::NAN,
        f64::INFINITY,
        f64::NEG_INFINITY,
    ];
    let mut state: u64 = 0x2545_f491_4f6c_dd1d;
    for _ in 0..20000 {
        let mut pick = || {
            state ^= state << 13;
            state ^= state >> 7;
            state ^= state << 17;
            values[(state % values.len() as u64) as usize]
        };
        let (post_v, pre_v, scale, offset, g_us) = (pick(), pick(), pick(), pick(), pick());
        let mut s = synapse(post_v, pre_v, scale, offset, g_us);
        s.process_tick(0, num(0.001), &Hardware);
        let expected = expected_output(post_v, pre_v, scale, offset, g_us);
        assert_eq!(
            s.out_0.to_bits(),
            expected.to_bits(),
            "post_v {post_v}, pre_v {pre_v}, scale {scale}, offset {offset}, g_us {g_us}"
        );
        assert!(val(s.out_0).is_finite());
        assert!(val(s.out_0) >= -1e6 && val(s.out_0) <= 1e6);
    }
}

#[test]
fn output_is_within_the_limit_whatever_the_arithmetic_answers() {
    let answers = [
        f64::NAN,
        f64::INFINITY,
        f64::NEG_INFINITY,
        1e7,
        -1e7,
        f64::MAX,
        -f64::MAX,
        1e6,
        -1e6,
        0.0,
        -0.0,
        12.5,
    ];
    for answer in answers {
        let mut s = synapse(3.0, 2.0, 1.0, 0.5, 1.0);
        s.process_tick(0, num(0.001), &Stuck(answer));
        let out = val(s.out_0);
        assert!(out.is_finite() && (-1e6..=1e6).contains(&out), "{answer} gave {out}");
        let expected = if answer.is_nan() { 0.0 } else { answer.clamp(-1e6, 1e6) };
        assert_eq!(s.out_0.to_bits(), expected.to_bits());
    }
}

#[test]
fn effective_transform_replaces_a_degenerate_scale() {
    let just_below = f64::from_bits(1e-15f64.to_bits() - 1);
    let scales = [0.0, -0.0, 1e-16, -1e-16, 9.99e-16, -9.99e-16, f64::from_bits(1), just_below];
    for scale in scales {
        for offset_mv in [0.0, 5000.0, -1e9, f64::INFINITY, f64::NAN] {
            let (s, o) = Synapse::effective_transform(num(scale), num(offset_mv));
            assert_eq!(s.to_bits(), 1.0f64.to_bits(), "scale {scale}");
            assert_eq!(o.to_bits(), 0.0f64.to_bits(), "scale {scale}");
        }
    }
}

#[test]
fn effective_transform_keeps_a_scale_at_or_above_the_threshold() {
    for scale in [1e-15, -1e-15, 1.01e-15, 0.5, -2.0, 1e6, -1e6] {
        let (s, o) = Synapse::effective_transform(num(scale), num(-250.0));
        assert_eq!(s.to_bits(), scale.to_bits());
        assert_eq!(val(o), -250.0);
    }
}

#[test]
fn effective_transform_clamps_both() {
    let (s, o) = Synapse::effective_transform(num(1e9), num(-1e12));
    assert_eq!((val(s), val(o)), (1e6, -1e6));
    let (s, o) = Synapse::effective_transform(num(-f64::MAX), num(f64::INFINITY));
    assert_eq!((val(s), val(o)), (-1e6, 1e6));
    let (s, o) = Synapse::effective_transform(num(f64::INFINITY), num(f64::NEG_INFINITY));
    assert_eq!((val(s), val(o)), (1e6, -1e6));
    let (s, o) = Synapse::effective_transform(num(2.0), num(f64::NAN));
    assert_eq!(val(s), 2.0);
    assert!(val(o).is_nan());
    let (s, o) = Synapse::effective_transform(num(f64::NAN), num(3.0));
    assert!(val(s).is_nan());
    assert_eq!(val(o), 3.0);
}

#[test]
fn settle_output_clamps_and_zeroes() {
    let cases: Vec<(f64, f64)> = vec![
        (0.0, 0.0),
        (-0.0, -0.0),
        (12.5, 12.5),
        (-999_999.999, -999_999.999),
        (1e6, 1e6),
        (-1e6, -1e6),
        (f64::from_bits(1e6f64.to_bits() + 1), 1e6),
        (f64::from_bits((-1e6f64).to_bits() + 1), -1e6),
        (1e300, 1e6),
        (-1e300, -1e6),
        (f64::INFINITY, 1e6),
        (f64::NEG_INFINITY, -1e6),
        (f64::NAN, 0.0),
        (-f64::NAN, 0.0),
    ];
    for (raw, expected) in cases {
        let out = Synapse::settle_output(num(raw));
        assert_eq!(out.to_bits(), expected.to_bits(), "{raw}");
    }
}

#[test]
fn is_corrupted_looks_at_inputs_and_conductance() {
    assert!(!synapse(1.0, 2.0, 3.0, 4.0, 5.0).is_corrupted());
    assert!(!synapse(f64::MAX, -f64::MAX, 0.0, -0.0, f64::MIN_POSITIVE).is_corrupted());
    assert!(synapse(f64::NAN, 2.0, 3.0, 4.0, 5.0).is_corrupted());
    assert!(synapse(1.0, f64::INFINITY, 3.0, 4.0, 5.0).is_corrupted());
    assert!(synapse(1.0, 2.0, f64::NEG_INFINITY, 4.0, 5.0).is_corrupted());
    assert!(synapse(1.0, 2.0, 3.0, f64::NAN, 5.0).is_corrupted());
    assert!(synapse(1.0, 2.0, 3.0, 4.0, f64::INFINITY).is_corrupted());
    let mut s = synapse(1.0, 2.0, 3.0, 4.0, 5.0);
    s.out_0 = num(f64::NAN);
    assert!(!s.is_corrupted());
}

#[test]
fn output_accessor_answers_zero_for_unknown_keys() {
    let mut s = Synapse::default();
    s.out_0 = num(-50.0);
    assert_eq!(val(s.get_output_value(CURRENT)), -50.0);
    for key in ["", "current", "out_0", "Current", "Current (nA) ", "current (na)", POST] {
        assert_eq!(s.get_output_value(key).to_bits(), 0, "{key:?}");
    }
}

#[test]
fn internal_accessor_answers_each_variable() {
    let mut s = synapse(1.0, 2.0, 3.0, 4.0, 5.0);
    s.out_0 = num(6.0);
    assert_eq!(s.get_internal_value("post_v").map(val), Some(1.0));
    assert_eq!(s.get_internal_value("pre_v").map(val), Some(2.0));
    assert_eq!(s.get_internal_value("scale").map(val), Some(3.0));
    assert_eq!(s.get_internal_value("offset").map(val), Some(4.0));
    assert_eq!(s.get_internal_value("g_us").map(val), Some(5.0));
    assert_eq!(s.get_internal_value("current").map(val), Some(6.0));
}

#[test]
fn internal_accessor_answers_nothing_for_unknown_keys() {
    let s = synapse(1.0, 2.0, 3.0, 4.0, 5.0);
    for key in ["", "out_0", "g", "g_gap", "g (nS)", CURRENT, POST, "Post_v", "current "] {
        assert!(s.get_internal_value(key).is_none(), "{key:?}");
    }
}

#[test]
fn accessors_differ_on_an_unknown_key() {
    let s = Synapse::default();
    assert_eq!(s.get_output_value("nonsense").to_bits(), 0);
    assert!(s.get_internal_value("nonsense").is_none());
    assert_eq!(s.get_internal_value("current").map(Binary64::to_bits), Some(0));
}

#[test]
fn inputs_hold_until_they_are_set_again() {
    let mut s = Synapse::default();
    s.set_config_value("g", &Value::from(2.0), &Hardware);
    s.set_input_value(SCALE, num(1.0));
    s.set_input_value(POST, num(0.01));
    s.process_tick(0, num(0.001), &Hardware);
    assert_eq!(val(s.out_0), 20.0);
    s.set_input_value(PRE, num(0.004));
    s.process_tick(1, num(0.001), &Hardware);
    assert_eq!(val(s.out_0), 12.0);
    s.set_input_value(PRE, num(f64::NAN));
    s.process_tick(2, num(0.001), &Hardware);
    assert_eq!(val(s.out_0), 20.0);
}
