use vstd::prelude::*;
use vstd::string::StringExecFns;
use crate::constant_pool::{CpEntry, ACC_NATIVE, ACC_PUBLIC, ACC_STATIC};
use crate::opcode::Opcode;
use crate::otklass::{KlassModel, OtKlass};
use crate::otmethod::{MethodModel, OtMethod, DEFAULT_MAX_LOCALS};
use crate::semantics::{next, run_of, MachineModel, Transition};
use crate::value::JvmValue;

verus! {

/// A method of a built-in class.
pub open spec fn built_in(
    klass_name: Seq<char>,
    name: Seq<char>,
    desc: Seq<char>,
    flags: u16,
    code: Seq<u8>,
) -> MethodModel {
    MethodModel {
        klass_name,
        flags,
        name,
        name_desc: name + seq![':'] + desc,
        name_idx: 0,
        desc_idx: 0,
        code,
        attrs: Seq::empty(),
        max_locals: DEFAULT_MAX_LOCALS,
    }
}

/// A built-in class: it has no constant pool and no fields.
pub open spec fn built_in_klass(
    id: usize,
    name: Seq<char>,
    super_name: Seq<char>,
    methods: Seq<MethodModel>,
) -> KlassModel {
    KlassModel {
        id,
        name,
        super_name,
        flags: ACC_PUBLIC,
        pool: Seq::empty(),
        methods,
        fields: Seq::empty(),
        statics: Seq::empty(),
    }
}

/// The code of `abs`: the argument if it is not negative, else what the
/// negation of integers makes of it.
pub open spec fn abs_code() -> Seq<u8> {
    seq![
        Opcode::ILOAD_0,
        Opcode::IFGE,
        0,
        5,
        Opcode::ILOAD_0,
        Opcode::INEG,
        Opcode::IRETURN,
        Opcode::ILOAD_0,
        Opcode::IRETURN,
    ]
}

/// The code of `max` and `min`: the first argument if the comparison
/// `branch` of the first with the second holds, else the second.
pub open spec fn pick_code(branch: u8) -> Seq<u8> {
    seq![
        Opcode::ILOAD_0,
        Opcode::ILOAD_1,
        branch,
        0,
        4,
        Opcode::ILOAD_1,
        Opcode::IRETURN,
        Opcode::ILOAD_0,
        Opcode::IRETURN,
    ]
}

/// `java/lang/Object`, the class that every other descends from. Its
/// constructor returns at once; its hash code is left to the host.
pub open spec fn object_klass(id: usize) -> KlassModel {
    built_in_klass(
        id,
        "java/lang/Object"@,
        ""@,
        seq![
            built_in("java/lang/Object"@, "<init>"@, "()V"@, ACC_PUBLIC, seq![Opcode::RETURN]),
            built_in(
                "java/lang/Object"@,
                "hashCode"@,
                "()I"@,
                (ACC_PUBLIC | ACC_NATIVE) as u16,
                Seq::empty(),
            ),
        ],
    )
}

/// `java/lang/Math`, with the arithmetic that needs no floating point.
pub open spec fn math_klass(id: usize) -> KlassModel {
    built_in_klass(
        id,
        "java/lang/Math"@,
        "java/lang/Object"@,
        seq![
            built_in(
                "java/lang/Math"@,
                "abs"@,
                "(I)I"@,
                (ACC_PUBLIC | ACC_STATIC) as u16,
                abs_code(),
            ),
            built_in(
                "java/lang/Math"@,
                "max"@,
                "(II)I"@,
                (ACC_PUBLIC | ACC_STATIC) as u16,
                pick_code(Opcode::IF_ICMPGE),
            ),
            built_in(
                "java/lang/Math"@,
                "min"@,
                "(II)I"@,
                (ACC_PUBLIC | ACC_STATIC) as u16,
                pick_code(Opcode::IF_ICMPLE),
            ),
        ],
    )
}

/// `java/lang/System`, whose clock is left to the host.
pub open spec fn system_klass(id: usize) -> KlassModel {
    built_in_klass(
        id,
        "java/lang/System"@,
        "java/lang/Object"@,
        seq![
            built_in(
                "java/lang/System"@,
                "currentTimeMillis"@,
                "()J"@,
                (ACC_PUBLIC | ACC_STATIC | ACC_NATIVE) as u16,
                Seq::empty(),
            ),
        ],
    )
}

fn method(klass_name: &str, name: &str, desc: &str, flags: u16, code: Vec<u8>) -> (m: OtMethod)
    ensures
        m@ == built_in(klass_name@, name@, desc@, flags, code@),
{
    let mut m = OtMethod::of(
        String::from_str(klass_name),
        String::from_str(name),
        String::from_str(desc),
        flags,
        0,
        0,
    );
    m.set_code(code);
    m
}

fn klass(name: &str, super_name: &str, methods: Vec<OtMethod>) -> (k: OtKlass)
    ensures
        k.wf(),
        k@ == built_in_klass(0, name@, super_name@, crate::otklass::method_models(methods@)),
{
    let pool: Vec<CpEntry> = Vec::new();
    let k = OtKlass::of(
        String::from_str(name),
        String::from_str(super_name),
        ACC_PUBLIC,
        &pool,
        &methods,
    );
    assert(k@.pool =~= Seq::empty());
    k
}

fn pick(branch: u8) -> (code: Vec<u8>)
    ensures
        code@ == pick_code(branch),
{
    let code = vec![
        Opcode::ILOAD_0,
        Opcode::ILOAD_1,
        branch,
        0,
        4,
        Opcode::ILOAD_1,
        Opcode::IRETURN,
        Opcode::ILOAD_0,
        Opcode::IRETURN,
    ];
    code
}

/// `java/lang/Object` before it has an id.
pub fn object() -> (k: OtKlass)
    ensures
        k.wf(),
        k@ == object_klass(0),
{
    let init = vec![Opcode::RETURN];
    assert(init@ =~= seq![Opcode::RETURN]);
    let methods = vec![
        method("java/lang/Object", "<init>", "()V", ACC_PUBLIC, init),
        method("java/lang/Object", "hashCode", "()I", ACC_PUBLIC | ACC_NATIVE, Vec::new()),
    ];
    let k = klass("java/lang/Object", "", methods);
    assert(k@.methods =~= object_klass(0).methods);
    k
}

/// `java/lang/Math` before it has an id.
pub fn math() -> (k: OtKlass)
    ensures
        k.wf(),
        k@ == math_klass(0),
{
    let abs = vec![
        Opcode::ILOAD_0,
        Opcode::IFGE,
        0,
        5,
        Opcode::ILOAD_0,
        Opcode::INEG,
        Opcode::IRETURN,
        Opcode::ILOAD_0,
        Opcode::IRETURN,
    ];
    let methods = vec![
        method("java/lang/Math", "abs", "(I)I", ACC_PUBLIC | ACC_STATIC, abs),
        method("java/lang/Math", "max", "(II)I", ACC_PUBLIC | ACC_STATIC, pick(Opcode::IF_ICMPGE)),
        method("java/lang/Math", "min", "(II)I", ACC_PUBLIC | ACC_STATIC, pick(Opcode::IF_ICMPLE)),
    ];
    let k = klass("java/lang/Math", "java/lang/Object", methods);
    assert(k@.methods =~= math_klass(0).methods);
    k
}

/// `java/lang/System` before it has an id.
pub fn system() -> (k: OtKlass)
    ensures
        k.wf(),
        k@ == system_klass(0),
{
    let methods = vec![
        method(
            "java/lang/System",
            "currentTimeMillis",
            "()J",
            ACC_PUBLIC | ACC_STATIC | ACC_NATIVE,
            Vec::new(),
        ),
    ];
    let k = klass("java/lang/System", "java/lang/Object", methods);
    assert(k@.methods =~= system_klass(0).methods);
    k
}

/// The state in which the outermost activation is about to run `code` with
/// the arguments `args` in its first local variables.
pub open spec fn called(m: MachineModel, code: Seq<u8>, args: Seq<JvmValue>) -> bool {
    &&& m.frame.code == code
    &&& m.frame.pc == 0
    &&& m.frame.stack.len() == 0
    &&& m.callers.len() == 0
    &&& m.frame.lvt.len() >= args.len()
    &&& forall|i: int| 0 <= i < args.len() ==> m.frame.lvt[i] == args[i]
}

/// The built-in `abs` returns its argument if that is not negative, else
/// what the negation of integers makes of it.
pub proof fn lemma_abs(m: MachineModel, x: i32)
    requires
        called(m, abs_code(), seq![JvmValue::Int { val: x }]),
    ensures
        run_of(m, 5).1 == Some(
            Transition::Returns {
                value: Some(
                    JvmValue::Int {
                        val: if x >= 0 {
                            x
                        } else {
                            0i32.wrapping_sub(x)
                        },
                    },
                ),
            },
        ),
{
    reveal_with_fuel(run_of, 6);
    // The argument is loaded and tested.
    let m1 = next(m)->to;
    assert(m1.frame.pc == 1 && m1.frame.stack =~= seq![JvmValue::Int { val: x }]);
    let m2 = next(m1)->to;
    if x >= 0 {
        // It is loaded again and returned.
        assert(m2.frame.pc == 7);
        let m3 = next(m2)->to;
        assert(m3.frame.pc == 8 && m3.frame.stack =~= seq![JvmValue::Int { val: x }]);
    } else {
        // It is loaded again, negated and returned.
        assert(m2.frame.pc == 4);
        let m3 = next(m2)->to;
        assert(m3.frame.pc == 5 && m3.frame.stack =~= seq![JvmValue::Int { val: x }]);
        let m4 = next(m3)->to;
        assert(m4.frame.pc == 6);
    }
}

/// The code of `max` and `min` returns the first argument if the comparison
/// holds of the first and the second, else the second.
proof fn lemma_pick(m: MachineModel, branch: u8, a: i32, b: i32)
    requires
        branch == Opcode::IF_ICMPGE || branch == Opcode::IF_ICMPLE,
        called(m, pick_code(branch), seq![JvmValue::Int { val: a }, JvmValue::Int { val: b }]),
    ensures
        run_of(m, 5).1 == Some(
            Transition::Returns {
                value: Some(
                    JvmValue::Int {
                        val: if (branch == Opcode::IF_ICMPGE && a >= b) || (branch
                            == Opcode::IF_ICMPLE && a <= b) {
                            a
                        } else {
                            b
                        },
                    },
                ),
            },
        ),
{
    reveal_with_fuel(run_of, 6);
    // Both arguments are loaded and compared.
    let m1 = next(m)->to;
    assert(m1.frame.pc == 1);
    let m2 = next(m1)->to;
    assert(m2.frame.pc == 2);
    let m3 = next(m2)->to;
    if (branch == Opcode::IF_ICMPGE && a >= b) || (branch == Opcode::IF_ICMPLE && a <= b) {
        // The first is loaded again and returned.
        assert(m3.frame.pc == 7);
        let m4 = next(m3)->to;
        assert(m4.frame.pc == 8 && m4.frame.stack =~= seq![JvmValue::Int { val: a }]);
    } else {
        // The second is loaded again and returned.
        assert(m3.frame.pc == 5);
        let m4 = next(m3)->to;
        assert(m4.frame.pc == 6 && m4.frame.stack =~= seq![JvmValue::Int { val: b }]);
    }
}

/// The built-in `max` returns the greater of its two arguments.
pub proof fn lemma_max(m: MachineModel, a: i32, b: i32)
    requires
        called(
            m,
            pick_code(Opcode::IF_ICMPGE),
            seq![JvmValue::Int { val: a }, JvmValue::Int { val: b }],
        ),
    ensures
        run_of(m, 5).1 == Some(
            Transition::Returns {
                value: Some(
                    JvmValue::Int {
                        val: if a >= b {
                            a
                        } else {
                            b
                        },
                    },
                ),
            },
        ),
{
    lemma_pick(m, Opcode::IF_ICMPGE, a, b);
}

/// The built-in `min` returns the lesser of its two arguments.
pub proof fn lemma_min(m: MachineModel, a: i32, b: i32)
    requires
        called(
            m,
            pick_code(Opcode::IF_ICMPLE),
            seq![JvmValue::Int { val: a }, JvmValue::Int { val: b }],
        ),
    ensures
        run_of(m, 5).1 == Some(
            Transition::Returns {
                value: Some(
                    JvmValue::Int {
                        val: if a <= b {
                            a
                        } else {
                            b
                        },
                    },
                ),
            },
        ),
{
    lemma_pick(m, Opcode::IF_ICMPLE, a, b);
}

} // verus!
