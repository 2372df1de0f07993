use ocelotter::convert::{
    double_of_int, double_of_long, double_of_single, int_of_double, int_of_single, long_of_double,
    long_of_single, single_of_double, single_of_int, single_of_long,
};
use ocelotter::ieee::{compare_double, compare_single, negate_double, negate_single};
use ocelotter::{InterpEvalStack, JvmValue};

fn singles() -> Vec<f32> {
    vec![
        0.0,
        -0.0,
        1.0,
        -1.0,
        1.5,
        -1.5,
        2.0,
        f32::MIN_POSITIVE,
        -f32::MIN_POSITIVE,
        f32::from_bits(1),
        f32::from_bits(0x8000_0001),
        f32::MAX,
        f32::MIN,
        f32::INFINITY,
        f32::NEG_INFINITY,
        f32::NAN,
        f32::from_bits(0xffc0_0000),
        f32::from_bits(0x7f80_0001),
        3.25e10,
        -7.5e-20,
    ]
}

fn doubles() -> Vec<f64> {
    vec![
        0.0,
        -0.0,
        1.0,
        -1.0,
        1.5,
        -2.5,
        f64::MIN_POSITIVE,
        f64::from_bits(1),
        f64::from_bits(0x8000_0000_0000_0001),
        f64::MAX,
        f64::MIN,
        f64::INFINITY,
        f64::NEG_INFINITY,
        f64::NAN,
        f64::from_bits(0xfff8_0000_0000_0000),
        f64::from_bits(0x7ff0_0000_0000_0001),
        1.0e300,
        -1.0e-300,
    ]
}

fn expected<T: PartialOrd>(a: T, b: T, unordered: i32) -> i32 {
    if a > b {
        1
    } else if a < b {
        -1
    } else if a == b {
        0
    } else {
        unordered
    }
}

#[test]
fn single_comparison_agrees_with_the_hardware() {
    for a in singles() {
        for b in singles() {
            for unordered in [1, -1] {
                assert_eq!(
                    compare_single(a.to_bits(), b.to_bits(), unordered),
                    expected(a, b, unordered),
                    "{} against {}",
                    a,
                    b
                );
            }
        }
    }
}

#[test]
fn double_comparison_agrees_with_the_hardware() {
    for a in doubles() {
        for b in doubles() {
            for unordered in [1, -1] {
                assert_eq!(
                    compare_double(a.to_bits(), b.to_bits(), unordered),
                    expected(a, b, unordered),
                    "{} against {}",
                    a,
                    b
                );
            }
        }
    }
}

#[test]
fn negation_flips_the_sign_bit() {
    for a in singles() {
        assert_eq!(negate_single(a.to_bits()), (-a).to_bits());
    }
    for a in doubles() {
        assert_eq!(negate_double(a.to_bits()), (-a).to_bits());
    }
}

fn top_int(s: &InterpEvalStack) -> i32 {
    match s.peek(0) {
        JvmValue::Int { val } => val,
        other => panic!("no integer on top: {:?}", other),
    }
}

fn compared(a: f32, b: f32, greater: bool) -> i32 {
    let mut s = InterpEvalStack::of();
    s.fconst(a.to_bits());
    s.fconst(b.to_bits());
    if greater {
        s.fcmpg();
    } else {
        s.fcmpl();
    }
    assert_eq!(s.len(), 1);
    top_int(&s)
}

fn compared_doubles(a: f64, b: f64, greater: bool) -> i32 {
    let mut s = InterpEvalStack::of();
    s.dconst(a.to_bits());
    s.dconst(b.to_bits());
    if greater {
        s.dcmpg();
    } else {
        s.dcmpl();
    }
    assert_eq!(s.len(), 1);
    top_int(&s)
}

#[test]
fn fcmpg_gives_one_for_a_nan() {
    for x in singles() {
        assert_eq!(compared(f32::NAN, x, true), 1);
        assert_eq!(compared(x, f32::NAN, true), 1);
    }
}

#[test]
fn fcmpl_gives_minus_one_for_a_nan() {
    for x in singles() {
        assert_eq!(compared(f32::NAN, x, false), -1);
        assert_eq!(compared(x, f32::NAN, false), -1);
    }
}

#[test]
fn dcmpg_and_dcmpl_differ_only_for_a_nan() {
    for x in doubles() {
        assert_eq!(compared_doubles(f64::NAN, x, true), 1);
        assert_eq!(compared_doubles(x, f64::NAN, false), -1);
    }
    assert_eq!(compared_doubles(1.0, 2.0, true), -1);
    assert_eq!(compared_doubles(1.0, 2.0, false), -1);
    assert_eq!(compared_doubles(2.0, 1.0, true), 1);
    assert_eq!(compared_doubles(2.0, 1.0, false), 1);
    assert_eq!(compared_doubles(0.0, -0.0, true), 0);
    assert_eq!(compared_doubles(0.0, -0.0, false), 0);
}

#[test]
fn float_comparison_orders_the_value_under_the_top_against_the_top() {
    assert_eq!(compared(1.0, 2.0, true), -1);
    assert_eq!(compared(2.0, 1.0, true), 1);
    assert_eq!(compared(-1.0, -2.0, false), 1);
    assert_eq!(compared(1.5, 1.5, false), 0);
    assert_eq!(compared(f32::NEG_INFINITY, f32::MIN, true), -1);
}

#[test]
fn fneg_and_dneg_on_the_stack() {
    let mut s = InterpEvalStack::of();
    s.fconst(1.5f32.to_bits());
    s.fneg();
    assert_eq!(s.peek(0), JvmValue::Float { val: (-1.5f32).to_bits() });
    let mut s = InterpEvalStack::of();
    s.dconst((-0.0f64).to_bits());
    s.dneg();
    assert_eq!(s.peek(0), JvmValue::Double { val: 0.0f64.to_bits() });
}

fn more_singles() -> Vec<f32> {
    let mut all = singles();
    all.extend_from_slice(&[
        0.5, -0.5, 0.99999994, 1.9999999, -2.5, 3.75, 1.0e9, -1.0e9, 2147483520.0, 2147483648.0,
        -2147483648.0, -2147483904.0, 4294967296.0, 9.223372e18, 9.2233715e18, -9.223372e18,
        -9.2233725e18, 1.0e20, -1.0e20, 8388608.0, 16777216.0, 16777215.0, 123456.79, -0.1,
        1.0e-40, f32::EPSILON,
    ]);
    all
}

fn more_doubles() -> Vec<f64> {
    let mut all = doubles();
    all.extend_from_slice(&[
        0.5, -0.5, 0.9999999999999999, 1.9999999999999998, -2.5, 3.75, 1.0e9, -1.0e9,
        2147483647.0, 2147483647.5, 2147483648.0, -2147483648.0, -2147483648.5, -2147483649.0,
        4294967296.0, 9007199254740992.0, 9007199254740993.0, 9223372036854774784.0,
        9223372036854775808.0, -9223372036854775808.0, -9223372036854777856.0, 1.0e19, -1.0e19,
        1.0e100, 123456789.987654321, -0.1, 5.0e-324,
    ]);
    all
}

#[test]
fn floats_are_cut_to_integers_as_the_hardware_cuts_them() {
    for x in more_singles() {
        assert_eq!(int_of_single(x.to_bits()), x as i32, "{} as an int", x);
        assert_eq!(long_of_single(x.to_bits()), x as i64, "{} as a long", x);
    }
    for x in more_doubles() {
        assert_eq!(int_of_double(x.to_bits()), x as i32, "{} as an int", x);
        assert_eq!(long_of_double(x.to_bits()), x as i64, "{} as a long", x);
    }
}

#[test]
fn cutting_a_float_rounds_toward_zero_and_saturates() {
    assert_eq!(int_of_single(2.9f32.to_bits()), 2);
    assert_eq!(int_of_single((-2.9f32).to_bits()), -2);
    assert_eq!(int_of_single(f32::NAN.to_bits()), 0);
    assert_eq!(int_of_single(f32::INFINITY.to_bits()), i32::MAX);
    assert_eq!(int_of_single(f32::NEG_INFINITY.to_bits()), i32::MIN);
    assert_eq!(int_of_single(1.0e10f32.to_bits()), i32::MAX);
    assert_eq!(long_of_single((-1.0e30f32).to_bits()), i64::MIN);
    assert_eq!(int_of_double(f64::NAN.to_bits()), 0);
    assert_eq!(int_of_double(1.0e300f64.to_bits()), i32::MAX);
    assert_eq!(long_of_double(f64::NEG_INFINITY.to_bits()), i64::MIN);
    assert_eq!(long_of_double(4.0e18f64.to_bits()), 4_000_000_000_000_000_000);
    assert_eq!(long_of_double((-0.75f64).to_bits()), 0);
}

#[test]
fn f2i_and_its_kin_on_the_stack() {
    let mut s = InterpEvalStack::of();
    s.fconst((-7.5f32).to_bits());
    s.f2i();
    assert_eq!(s.peek(0), JvmValue::Int { val: -7 });
    let mut s = InterpEvalStack::of();
    s.fconst(1.0e12f32.to_bits());
    s.f2l();
    assert_eq!(s.peek(0), JvmValue::Long { val: 1.0e12f32 as i64 });
    let mut s = InterpEvalStack::of();
    s.dconst(1.0e12f64.to_bits());
    s.d2i();
    assert_eq!(s.peek(0), JvmValue::Int { val: i32::MAX });
    let mut s = InterpEvalStack::of();
    s.dconst((-1.0e12f64).to_bits());
    s.d2l();
    assert_eq!(s.peek(0), JvmValue::Long { val: -1_000_000_000_000 });
    assert_eq!(s.len(), 1);
}


fn some_ints() -> Vec<i64> {
    let mut all: Vec<i64> = vec![
        0, 1, -1, 2, 3, 7, 8, -8, 255, 256, 1_000_000, -1_000_000, 8388607, 8388608, 8388609,
        16777215, 16777216, 16777217, 16777218, 16777219, 16777220, 16777221, 33554431, 33554433,
        33554434, 33554435, -16777217, -16777219, 2147483647, -2147483648, 2147483583,
        2147483584, 2147483585, 2147483520, 123456789, -987654321,
    ];
    let big: [i64; 18] = [
        2147483648, 4294967295, 4294967296, 9007199254740991, 9007199254740992,
        9007199254740993, 9007199254740994, 9007199254740995, -9007199254740993,
        18014398509481985, 18014398509481987, 9223372036854775807, -9223372036854775808,
        9223372036854775295, 9223372036854775296, 9223372036854775297, 9223371487098961920,
        -9223372036854775807,
    ];
    all.extend_from_slice(&big);
    for shift in 0..63 {
        all.push(1i64 << shift);
        all.push((1i64 << shift) + 1);
        all.push((1i64 << shift) - 1);
        all.push(-(1i64 << shift) - 1);
        all.push((3i64 << shift) >> 1);
        all.push(((5i64 << shift) >> 2) + 1);
    }
    all
}

#[test]
fn whole_numbers_become_floats_as_the_hardware_makes_them() {
    for i in some_ints() {
        assert_eq!(single_of_long(i), (i as f32).to_bits(), "{} as a float", i);
        assert_eq!(double_of_long(i), (i as f64).to_bits(), "{} as a double", i);
        if i32::MIN as i64 <= i && i <= i32::MAX as i64 {
            let j = i as i32;
            assert_eq!(single_of_int(j), (j as f32).to_bits(), "{} as a float", j);
            assert_eq!(double_of_int(j), (j as f64).to_bits(), "{} as a double", j);
        }
    }
}

#[test]
fn an_exact_half_goes_to_the_even_neighbour() {
    // 2^24 + 1 lies halfway between 2^24 and 2^24 + 2
    assert_eq!(f32::from_bits(single_of_int(16777217)), 16777216.0);
    assert_eq!(f32::from_bits(single_of_int(16777219)), 16777220.0);
    assert_eq!(f32::from_bits(single_of_int(i32::MAX)), 2147483648.0);
    assert_eq!(f64::from_bits(double_of_long(9007199254740993)), 9007199254740992.0);
    assert_eq!(f64::from_bits(double_of_long(9007199254740995)), 9007199254740996.0);
    assert_eq!(f64::from_bits(double_of_long(i64::MAX)), 9223372036854775808.0);
    assert_eq!(f32::from_bits(single_of_long(i64::MIN)), -9223372036854775808.0);
}

#[test]
fn small_integers_survive_the_way_to_float_and_back() {
    for i in some_ints() {
        if -8388608 <= i && i <= 8388608 {
            assert_eq!(int_of_single(single_of_int(i as i32)), i as i32);
            assert_eq!(long_of_single(single_of_long(i)), i);
        }
        if i32::MIN as i64 <= i && i <= i32::MAX as i64 {
            assert_eq!(int_of_double(double_of_int(i as i32)), i as i32);
        }
    }
}

#[test]
fn floats_widen_to_doubles_as_the_hardware_widens_them() {
    let mut all = more_singles();
    for bits in [1u32, 2, 3, 0x7f_ffff, 0x80_0000, 0x80_0001, 0x7f7f_ffff, 0x8000_0001, 0x0040_0000] {
        all.push(f32::from_bits(bits));
    }
    for x in all {
        let wide = double_of_single(x.to_bits());
        if x.is_nan() {
            assert!(f64::from_bits(wide).is_nan());
            assert_eq!(f64::from_bits(wide).is_sign_negative(), x.is_sign_negative());
        } else {
            assert_eq!(wide, (x as f64).to_bits(), "{:e} as a double", x);
        }
    }
}

#[test]
fn doubles_narrow_to_floats_as_the_hardware_narrows_them() {
    let mut all = more_doubles();
    for x in more_singles() {
        all.push(x as f64);
    }
    all.extend_from_slice(&[
        3.4028234663852886e38,
        3.4028235677973366e38,
        3.4028235677973362e38,
        3.402823669209385e38,
        -3.5e38,
        1.0e39,
        1.1754943508222875e-38,
        1.1754942106924411e-38,
        1.1754943e-38,
        1.4012984643248170e-45,
        7.006492321624085e-46,
        7.006492321624086e-46,
        7.0064923e-46,
        2.1019476964872256e-45,
        1.0e-46,
        -1.0e-50,
        1.0000000596046448,
        1.0000000596046447,
        1.0000000596046449,
        1.0000001788139343,
        16777217.0,
        16777219.0,
        0.1,
        1.0 / 3.0,
    ]);
    for bits in [1u64, 0x000f_ffff_ffff_ffff, 0x0010_0000_0000_0000, 0x36a0_0000_0000_0000, 0x369f_ffff_ffff_ffff, 0x36a0_0000_0000_0001, 0x380f_ffff_ffff_ffff, 0x47ef_ffff_f000_0000, 0x47ef_ffff_efff_ffff] {
        all.push(f64::from_bits(bits));
        all.push(-f64::from_bits(bits));
    }
    for x in all {
        let narrow = single_of_double(x.to_bits());
        if x.is_nan() {
            assert!(f32::from_bits(narrow).is_nan());
            assert_eq!(f32::from_bits(narrow).is_sign_negative(), x.is_sign_negative());
        } else {
            assert_eq!(narrow, (x as f32).to_bits(), "{:e} as a float", x);
        }
    }
}

#[test]
fn conversions_on_the_stack() {
    let mut s = InterpEvalStack::of();
    s.iconst(16777217);
    s.i2f();
    assert_eq!(s.peek(0), JvmValue::Float { val: 16777216.0f32.to_bits() });
    s.f2d();
    assert_eq!(s.peek(0), JvmValue::Double { val: 16777216.0f64.to_bits() });
    s.d2f();
    assert_eq!(s.peek(0), JvmValue::Float { val: 16777216.0f32.to_bits() });
    let mut s = InterpEvalStack::of();
    s.iconst(-16777217);
    s.i2d();
    assert_eq!(s.peek(0), JvmValue::Double { val: (-16777217.0f64).to_bits() });
    let mut s = InterpEvalStack::of();
    s.lconst(i64::MAX);
    s.l2d();
    assert_eq!(s.peek(0), JvmValue::Double { val: 9223372036854775808.0f64.to_bits() });
    let mut s = InterpEvalStack::of();
    s.lconst(-3);
    s.l2f();
    assert_eq!(s.peek(0), JvmValue::Float { val: (-3.0f32).to_bits() });
    assert_eq!(s.len(), 1);
}
