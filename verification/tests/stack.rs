use ocelotter::{InterpEvalStack, JvmValue};

fn stack_of_ints(vals: &[i32]) -> InterpEvalStack {
    let mut s = InterpEvalStack::of();
    for v in vals {
        s.iconst(*v);
    }
    s
}

fn stack_of_longs(vals: &[i64]) -> InterpEvalStack {
    let mut s = InterpEvalStack::of();
    for v in vals {
        s.lconst(*v);
    }
    s
}

fn contents(s: &InterpEvalStack) -> Vec<JvmValue> {
    let mut out = Vec::new();
    let n = s.len();
    for depth in 0..n {
        out.push(s.peek(n - 1 - depth));
    }
    out
}

fn int_value(v: i32) -> JvmValue {
    JvmValue::Int { val: v }
}

fn long_value(v: i64) -> JvmValue {
    JvmValue::Long { val: v }
}

#[test]
fn push_then_pop_is_last_in_first_out() {
    let mut s = InterpEvalStack::of();
    assert_eq!(s.len(), 0);
    s.push(int_value(7));
    s.push(long_value(9));
    assert_eq!(s.len(), 2);
    assert_eq!(s.peek(0), long_value(9));
    assert_eq!(s.peek(1), int_value(7));
    assert_eq!(s.pop(), long_value(9));
    assert_eq!(s.pop(), int_value(7));
    assert_eq!(s.len(), 0);
}

#[test]
fn aconst_null_pushes_the_null_reference() {
    let mut s = InterpEvalStack::of();
    s.aconst_null();
    assert_eq!(contents(&s), vec![JvmValue::ObjRef { val: 0 }]);
}

#[test]
fn has_operands_looks_at_type_and_height() {
    let s = stack_of_ints(&[1, 2]);
    assert!(s.has_operands('I', 1));
    assert!(s.has_operands('I', 2));
    assert!(!s.has_operands('J', 1));
    assert!(!s.has_operands('I', 3));
    assert!(!s.has_operands('I', 0));
    let mut t = InterpEvalStack::of();
    assert!(!t.has_operands('I', 1));
    t.lconst(1);
    t.iconst(1);
    assert!(t.has_operands('I', 1));
    assert!(!t.has_operands('I', 2));
}

#[test]
fn iadd_wraps() {
    let mut s = stack_of_ints(&[9, i32::MAX, 1]);
    s.iadd();
    assert_eq!(contents(&s), vec![int_value(9), int_value(i32::MIN)]);
}

#[test]
fn isub_takes_the_top_from_the_value_under_it() {
    let mut s = stack_of_ints(&[10, 3]);
    s.isub();
    assert_eq!(contents(&s), vec![int_value(7)]);
    let mut s = stack_of_ints(&[i32::MIN, 1]);
    s.isub();
    assert_eq!(contents(&s), vec![int_value(i32::MAX)]);
}

#[test]
fn imul_wraps() {
    let mut s = stack_of_ints(&[6, 7]);
    s.imul();
    assert_eq!(contents(&s), vec![int_value(42)]);
    let mut s = stack_of_ints(&[65536, 65536]);
    s.imul();
    assert_eq!(contents(&s), vec![int_value(0)]);
    let mut s = stack_of_ints(&[i32::MAX, 2]);
    s.imul();
    assert_eq!(contents(&s), vec![int_value(-2)]);
}

#[test]
fn idiv_rounds_toward_zero() {
    for (a, b, q) in [(7, 2, 3), (-7, 2, -3), (7, -2, -3), (-7, -2, 3), (0, 5, 0), (5, 7, 0)] {
        let mut s = stack_of_ints(&[a, b]);
        s.idiv();
        assert_eq!(contents(&s), vec![int_value(q)], "{} / {}", a, b);
    }
}

#[test]
fn irem_has_the_sign_of_the_dividend() {
    for (a, b, r) in [(7, 2, 1), (-7, 2, -1), (7, -2, 1), (-7, -2, -1), (6, 3, 0), (5, 7, 5)] {
        let mut s = stack_of_ints(&[a, b]);
        s.irem();
        assert_eq!(contents(&s), vec![int_value(r)], "{} % {}", a, b);
    }
}

#[test]
fn least_int_divided_by_minus_one_wraps() {
    let mut s = stack_of_ints(&[i32::MIN, -1]);
    s.idiv();
    assert_eq!(contents(&s), vec![int_value(i32::MIN)]);
    let mut s = stack_of_ints(&[i32::MIN, -1]);
    s.irem();
    assert_eq!(contents(&s), vec![int_value(0)]);
    let mut s = stack_of_longs(&[i64::MIN, -1]);
    s.ldiv();
    assert_eq!(contents(&s), vec![long_value(i64::MIN)]);
    let mut s = stack_of_longs(&[i64::MIN, -1]);
    s.lrem();
    assert_eq!(contents(&s), vec![long_value(0)]);
}

#[test]
fn ineg_of_the_least_int_is_itself() {
    let mut s = stack_of_ints(&[i32::MIN]);
    s.ineg();
    assert_eq!(contents(&s), vec![int_value(i32::MIN)]);
    let mut s = stack_of_ints(&[5]);
    s.ineg();
    assert_eq!(contents(&s), vec![int_value(-5)]);
    let mut s = stack_of_longs(&[i64::MIN]);
    s.lneg();
    assert_eq!(contents(&s), vec![long_value(i64::MIN)]);
    let mut s = stack_of_longs(&[-8]);
    s.lneg();
    assert_eq!(contents(&s), vec![long_value(8)]);
}

#[test]
fn int_bit_operators() {
    let mut s = stack_of_ints(&[0b1100, 0b1010]);
    s.iand();
    assert_eq!(contents(&s), vec![int_value(0b1000)]);
    let mut s = stack_of_ints(&[0b1100, 0b1010]);
    s.ior();
    assert_eq!(contents(&s), vec![int_value(0b1110)]);
    let mut s = stack_of_ints(&[0b1100, 0b1010]);
    s.ixor();
    assert_eq!(contents(&s), vec![int_value(0b0110)]);
    let mut s = stack_of_ints(&[-1, 0x0f0f]);
    s.iand();
    assert_eq!(contents(&s), vec![int_value(0x0f0f)]);
}

#[test]
fn int_shifts_use_the_low_five_bits_of_the_amount() {
    let mut s = stack_of_ints(&[1, 4]);
    s.ishl();
    assert_eq!(contents(&s), vec![int_value(16)]);
    let mut s = stack_of_ints(&[1, 33]);
    s.ishl();
    assert_eq!(contents(&s), vec![int_value(2)]);
    let mut s = stack_of_ints(&[1, 31]);
    s.ishl();
    assert_eq!(contents(&s), vec![int_value(i32::MIN)]);
    let mut s = stack_of_ints(&[-16, 2]);
    s.ishr();
    assert_eq!(contents(&s), vec![int_value(-4)]);
    let mut s = stack_of_ints(&[-16, 34]);
    s.ishr();
    assert_eq!(contents(&s), vec![int_value(-4)]);
    let mut s = stack_of_ints(&[-16, 28]);
    s.iushr();
    assert_eq!(contents(&s), vec![int_value(15)]);
    let mut s = stack_of_ints(&[-1, -1]);
    s.iushr();
    assert_eq!(contents(&s), vec![int_value(1)]);
    let mut s = stack_of_ints(&[-1, 0]);
    s.iushr();
    assert_eq!(contents(&s), vec![int_value(-1)]);
}

#[test]
fn long_shifts_use_the_low_six_bits_of_the_amount() {
    let mut s = stack_of_longs(&[1, 40]);
    s.lshl();
    assert_eq!(contents(&s), vec![long_value(1 << 40)]);
    let mut s = stack_of_longs(&[1, 65]);
    s.lshl();
    assert_eq!(contents(&s), vec![long_value(2)]);
    let mut s = stack_of_longs(&[-256, 4]);
    s.lshr();
    assert_eq!(contents(&s), vec![long_value(-16)]);
    let mut s = stack_of_longs(&[-1, 60]);
    s.lushr();
    assert_eq!(contents(&s), vec![long_value(15)]);
    let mut s = stack_of_longs(&[i64::MIN, 63]);
    s.lushr();
    assert_eq!(contents(&s), vec![long_value(1)]);
}

#[test]
fn long_arithmetic() {
    let mut s = stack_of_longs(&[i64::MAX, 1]);
    s.ladd();
    assert_eq!(contents(&s), vec![long_value(i64::MIN)]);
    let mut s = stack_of_longs(&[10, 3]);
    s.lsub();
    assert_eq!(contents(&s), vec![long_value(7)]);
    let mut s = stack_of_longs(&[1 << 40, 1 << 30]);
    s.lmul();
    assert_eq!(contents(&s), vec![long_value(0)]);
    let mut s = stack_of_longs(&[-7, 2]);
    s.ldiv();
    assert_eq!(contents(&s), vec![long_value(-3)]);
    let mut s = stack_of_longs(&[-7, 2]);
    s.lrem();
    assert_eq!(contents(&s), vec![long_value(-1)]);
    let mut s = stack_of_longs(&[0xff00, 0x0ff0]);
    s.land();
    assert_eq!(contents(&s), vec![long_value(0x0f00)]);
    let mut s = stack_of_longs(&[0xff00, 0x0ff0]);
    s.lor();
    assert_eq!(contents(&s), vec![long_value(0xfff0)]);
    let mut s = stack_of_longs(&[0xff00, 0x0ff0]);
    s.lxor();
    assert_eq!(contents(&s), vec![long_value(0xf0f0)]);
}

#[test]
fn lcmp_orders_the_value_under_the_top_against_the_top() {
    for (a, b, r) in [(1i64, 2i64, -1), (2, 1, 1), (5, 5, 0), (i64::MIN, i64::MAX, -1)] {
        let mut s = stack_of_longs(&[a, b]);
        s.lcmp();
        assert_eq!(contents(&s), vec![int_value(r)]);
    }
}

#[test]
fn narrowing_conversions_keep_the_low_bits() {
    let mut s = stack_of_ints(&[0x1ff]);
    s.i2b();
    assert_eq!(contents(&s), vec![JvmValue::Byte { val: -1 }]);
    let mut s = stack_of_ints(&[0x180]);
    s.i2b();
    assert_eq!(contents(&s), vec![JvmValue::Byte { val: -128 }]);
    let mut s = stack_of_ints(&[0x1ffff]);
    s.i2s();
    assert_eq!(contents(&s), vec![JvmValue::Short { val: -1 }]);
    let mut s = stack_of_ints(&[-1]);
    s.i2c();
    assert_eq!(contents(&s), vec![JvmValue::Char { val: 0xffff }]);
    let mut s = stack_of_ints(&[0x10041]);
    s.i2c();
    assert_eq!(contents(&s), vec![JvmValue::Char { val: 0x41 }]);
    let mut s = stack_of_longs(&[0x1_0000_0005]);
    s.l2i();
    assert_eq!(contents(&s), vec![int_value(5)]);
    let mut s = stack_of_longs(&[0xffff_ffff]);
    s.l2i();
    assert_eq!(contents(&s), vec![int_value(-1)]);
}

#[test]
fn widening_then_narrowing_an_int_gives_it_back() {
    for v in [0, 1, -1, i32::MAX, i32::MIN, 123456789, -987654321] {
        let mut s = stack_of_ints(&[v]);
        s.i2l();
        assert_eq!(contents(&s), vec![long_value(v as i64)]);
        s.l2i();
        assert_eq!(contents(&s), vec![int_value(v)]);
    }
}

#[test]
fn dup_doubles_the_top() {
    let mut s = stack_of_ints(&[1, 2]);
    s.dup();
    assert_eq!(contents(&s), vec![int_value(1), int_value(2), int_value(2)]);
}

#[test]
fn dup_x1_puts_a_copy_of_the_top_two_places_down() {
    let mut s = stack_of_ints(&[0, 1, 2]);
    s.dup_x1();
    assert_eq!(contents(&s), vec![int_value(0), int_value(2), int_value(1), int_value(2)]);
}

#[test]
fn dup2_doubles_the_top_pair_or_one_wide_value() {
    let mut s = stack_of_ints(&[0, 1, 2]);
    s.dup2();
    assert_eq!(contents(&s), vec![int_value(0), int_value(1), int_value(2), int_value(1), int_value(2)]);
    let mut s = InterpEvalStack::of();
    s.iconst(1);
    s.lconst(7);
    s.dup2();
    assert_eq!(contents(&s), vec![int_value(1), long_value(7), long_value(7)]);
    let mut s = InterpEvalStack::of();
    s.dconst(3);
    s.dup2();
    assert_eq!(contents(&s), vec![JvmValue::Double { val: 3 }, JvmValue::Double { val: 3 }]);
}

#[test]
fn swap_exchanges_the_top_two() {
    let mut s = stack_of_ints(&[0, 1, 2]);
    s.swap();
    assert_eq!(contents(&s), vec![int_value(0), int_value(2), int_value(1)]);
}

#[test]
fn value_names_and_default() {
    assert_eq!(JvmValue::Boolean { val: true }.name(), 'Z');
    assert_eq!(JvmValue::Byte { val: 1 }.name(), 'B');
    assert_eq!(JvmValue::Short { val: 1 }.name(), 'S');
    assert_eq!(int_value(1).name(), 'I');
    assert_eq!(long_value(1).name(), 'J');
    assert_eq!(JvmValue::Float { val: 1 }.name(), 'F');
    assert_eq!(JvmValue::Double { val: 1 }.name(), 'D');
    assert_eq!(JvmValue::Char { val: 1 }.name(), 'C');
    assert_eq!(JvmValue::ObjRef { val: 1 }.name(), 'A');
    assert_eq!(JvmValue::default(), int_value(0));
}

#[test]
fn int_operators_take_the_narrow_types_too() {
    let mut s = InterpEvalStack::of();
    s.push(JvmValue::Byte { val: -3 });
    s.push(JvmValue::Char { val: 0xffff });
    assert!(s.has_operands('I', 2));
    assert!(!s.has_operands('B', 1));
    s.iadd();
    assert_eq!(contents(&s), vec![int_value(65532)]);
    let mut s = InterpEvalStack::of();
    s.push(JvmValue::Boolean { val: true });
    s.push(JvmValue::Short { val: -2 });
    s.imul();
    assert_eq!(contents(&s), vec![int_value(-2)]);
    let mut s = InterpEvalStack::of();
    s.push(JvmValue::Short { val: -2 });
    s.i2l();
    assert_eq!(contents(&s), vec![long_value(-2)]);
    assert_eq!(JvmValue::Byte { val: -1 }.as_int(), Some(-1));
    assert_eq!(JvmValue::Boolean { val: false }.as_int(), Some(0));
    assert_eq!(JvmValue::Long { val: 1 }.as_int(), None);
    assert_eq!(JvmValue::ObjRef { val: 1 }.as_int(), None);
    assert!(JvmValue::Char { val: 1 }.has_type('I'));
    assert!(JvmValue::Long { val: 1 }.has_type('J'));
    assert!(!JvmValue::Long { val: 1 }.has_type('I'));
}
