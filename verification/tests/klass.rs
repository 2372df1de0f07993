use ocelotter::constant_pool::{ACC_PUBLIC, ACC_STATIC};
use ocelotter::descriptor::parameter_count;
use ocelotter::klass_repo::{FieldSite, MethodSite};
use ocelotter::{
    CpAttr, CpEntry, InterpLocalVars, JvmValue, OtField, OtKlass, OtMethod, OtObj,
    SharedKlassRepo, SharedSimpleHeap, VmContext,
};

fn utf8(s: &str) -> CpEntry {
    CpEntry::Utf8 { val: s.to_string() }
}

fn method(klass: &str, name: &str, desc: &str, flags: u16) -> OtMethod {
    OtMethod::of(klass.to_string(), name.to_string(), desc.to_string(), flags, 0, 0)
}

fn field(offset: u16, klass: &str, name: &str, desc: &str, flags: u16) -> OtField {
    OtField::of(offset, klass.to_string(), name.to_string(), desc.to_string(), flags, 0, 0)
}

/// index: 1 "Foo", 2 class Foo, 3 "bar", 4 "(I)V", 5 bar:(I)V, 6 Foo.bar:(I)V,
/// 7 "x", 8 "I", 9 x:I, 10 Foo.x:I
fn sample_pool() -> Vec<CpEntry> {
    vec![
        utf8(""),
        utf8("Foo"),
        CpEntry::Class { idx: 1 },
        utf8("bar"),
        utf8("(I)V"),
        CpEntry::NameAndType { name_idx: 3, type_idx: 4 },
        CpEntry::MethodRef { clz_idx: 2, nt_idx: 5 },
        utf8("x"),
        utf8("I"),
        CpEntry::NameAndType { name_idx: 7, type_idx: 8 },
        CpEntry::FieldRef { clz_idx: 2, nt_idx: 9 },
        CpEntry::IntConst { val: 77 },
    ]
}

fn sample_klass() -> OtKlass {
    let methods = vec![
        method("Foo", "bar", "(I)V", ACC_PUBLIC),
        method("Foo", "baz", "()I", ACC_PUBLIC | ACC_STATIC),
    ];
    OtKlass::of("Foo".to_string(), "java/lang/Object".to_string(), ACC_PUBLIC, &sample_pool(), &methods)
}

#[test]
fn method_record_keeps_what_it_was_made_of() {
    let mut m = method("Foo", "bar", "(I)V", ACC_STATIC);
    assert_eq!(m.get_klass_name(), "Foo");
    assert_eq!(m.get_name(), "bar");
    assert_eq!(m.get_desc(), "bar:(I)V");
    assert_eq!(m.get_fq_name_desc(), "Foo.bar:(I)V");
    assert_eq!(m.get_flags(), ACC_STATIC);
    assert!(m.is_static());
    assert!(!m.is_native());
    assert_eq!(m.get_code(), Vec::<u8>::new());
    assert_eq!(m.get_max_locals(), 255);
    m.set_code(vec![1, 2, 3]);
    m.set_max_locals(4);
    m.set_attr(0, CpAttr { name_idx: 3 });
    assert_eq!(m.get_code(), vec![1, 2, 3]);
    assert_eq!(m.get_max_locals(), 4);
    assert_eq!(m.get_fq_name_desc(), "Foo.bar:(I)V");
    let copy = m.clone();
    assert_eq!(copy.get_code(), vec![1, 2, 3]);
    assert_eq!(copy.get_desc(), "bar:(I)V");
}

#[test]
fn field_record_keeps_what_it_was_made_of() {
    let f = field(3, "Foo", "x", "I", ACC_STATIC | ACC_PUBLIC);
    assert_eq!(f.get_offset(), 3);
    assert_eq!(f.get_name(), "x");
    assert_eq!(f.get_desc(), "I");
    assert_eq!(f.get_klass_name(), "Foo");
    assert_eq!(f.get_fq_name_desc(), "Foo.x:I");
    assert!(f.is_static());
    assert!(!field(0, "Foo", "y", "I", ACC_PUBLIC).is_static());
    f.set_attr(1, CpAttr { name_idx: 1 });
    assert_eq!(f.get_name(), "x");
}

#[test]
fn field_default_follows_the_descriptor() {
    let default_of = |desc: &str| field(0, "Foo", "x", desc, 0).get_default();
    assert_eq!(default_of("Z"), JvmValue::Boolean { val: false });
    assert_eq!(default_of("B"), JvmValue::Byte { val: 0 });
    assert_eq!(default_of("S"), JvmValue::Short { val: 0 });
    assert_eq!(default_of("C"), JvmValue::Char { val: 0 });
    assert_eq!(default_of("I"), JvmValue::Int { val: 0 });
    assert_eq!(default_of("J"), JvmValue::Long { val: 0 });
    assert_eq!(default_of("F"), JvmValue::Float { val: 0.0f32.to_bits() });
    assert_eq!(default_of("D"), JvmValue::Double { val: 0.0f64.to_bits() });
    assert_eq!(default_of("Ljava/lang/String;"), JvmValue::ObjRef { val: 0 });
    assert_eq!(default_of("[I"), JvmValue::ObjRef { val: 0 });
    assert_eq!(default_of(""), JvmValue::ObjRef { val: 0 });
    assert_eq!(default_of("II"), JvmValue::ObjRef { val: 0 });
}

#[test]
fn klass_getters() {
    let mut k = sample_klass();
    assert_eq!(k.get_id(), 0);
    assert_eq!(k.get_name(), "Foo");
    assert_eq!(k.get_super_name(), "java/lang/Object");
    assert_eq!(k.get_flags(), ACC_PUBLIC);
    k.set_id(9);
    assert_eq!(k.get_id(), 9);
    let methods = k.get_methods();
    assert_eq!(methods.len(), 2);
    assert_eq!(methods[0].get_fq_name_desc(), "Foo.bar:(I)V");
    assert_eq!(methods[1].get_fq_name_desc(), "Foo.baz:()I");
}

#[test]
fn cp_as_string_renders_entries_through_their_references() {
    let k = sample_klass();
    assert_eq!(k.cp_as_string(1), "Foo");
    assert_eq!(k.cp_as_string(2), "Foo");
    assert_eq!(k.cp_as_string(5), "bar:(I)V");
    assert_eq!(k.cp_as_string(6), "Foo.bar:(I)V");
    assert_eq!(k.cp_as_string(10), "Foo.x:I");
}

#[test]
fn cp_text_is_missing_where_an_entry_has_none() {
    let k = sample_klass();
    assert_eq!(k.cp_text(6), Some("Foo.bar:(I)V".to_string()));
    assert_eq!(k.cp_text(11), None);
    assert_eq!(k.cp_text(12), None);
    assert_eq!(k.cp_text(60000), None);
}

#[test]
fn cp_text_of_entries_that_refer_in_a_circle_is_missing() {
    let pool = vec![CpEntry::Class { idx: 1 }, CpEntry::Class { idx: 0 }, CpEntry::Class { idx: 2 }];
    let k = OtKlass::of("Loop".to_string(), "".to_string(), 0, &pool, &Vec::new());
    assert_eq!(k.cp_text(0), None);
    assert_eq!(k.cp_text(1), None);
    assert_eq!(k.cp_text(2), None);
}

#[test]
fn cp_text_follows_a_chain_as_long_as_the_pool() {
    let pool = vec![
        CpEntry::Class { idx: 1 },
        CpEntry::Class { idx: 2 },
        CpEntry::Class { idx: 3 },
        utf8("deep"),
    ];
    let k = OtKlass::of("Chain".to_string(), "".to_string(), 0, &pool, &Vec::new());
    assert_eq!(k.cp_text(0), Some("deep".to_string()));
}

#[test]
fn lookup_cp_returns_the_entry() {
    let k = sample_klass();
    match k.lookup_cp(6) {
        CpEntry::MethodRef { clz_idx, nt_idx } => {
            assert_eq!((clz_idx, nt_idx), (2, 5));
        }
        other => panic!("not a method reference: {:?}", other),
    }
    match k.lookup_cp(1) {
        CpEntry::Utf8 { val } => assert_eq!(val, "Foo"),
        other => panic!("not a string: {:?}", other),
    }
    assert!(k.cp_entry(12).is_none());
    assert!(k.cp_entry(11).is_some());
}

#[test]
fn methods_are_found_by_their_full_name() {
    let k = sample_klass();
    assert_eq!(k.find_method("Foo.bar:(I)V"), Some(0));
    assert_eq!(k.find_method("Foo.baz:()I"), Some(1));
    assert_eq!(k.find_method("bar:(I)V"), None);
    assert_eq!(k.find_method("Foo.bar:()V"), None);
    let m = k.get_method_by_name_and_desc("Foo.baz:()I".to_string());
    assert_eq!(m.get_fq_name_desc(), "Foo.baz:()I");
    assert!(m.is_static());
}

#[test]
fn every_method_is_found_under_its_own_full_name() {
    let k = sample_klass();
    let methods = k.get_methods();
    for (i, m) in methods.iter().enumerate() {
        let at = k.find_method(&m.get_fq_name_desc()).unwrap();
        assert_eq!(at, i);
        assert_eq!(k.method_at(at).get_fq_name_desc(), m.get_fq_name_desc());
    }
}

#[test]
fn of_two_methods_with_one_name_the_later_is_found() {
    let mut first = method("Foo", "bar", "()V", 0);
    first.set_code(vec![1]);
    let mut second = method("Foo", "bar", "()V", 0);
    second.set_code(vec![2]);
    let k = OtKlass::of("Foo".to_string(), "".to_string(), 0, &Vec::new(), &vec![first, second]);
    assert_eq!(k.find_method("Foo.bar:()V"), Some(1));
    assert_eq!(k.get_method_by_name_and_desc("Foo.bar:()V".to_string()).get_code(), vec![2]);
}

#[test]
fn fields_go_to_the_layout_or_to_the_statics() {
    let mut k = sample_klass();
    k.add_field(field(0, "Foo", "x", "I", 0));
    k.add_field(field(0, "Foo", "count", "J", ACC_STATIC));
    k.add_field(field(1, "Foo", "name", "Ljava/lang/String;", 0));
    assert_eq!(k.get_fields().len(), 2);
    assert_eq!(k.find_field("x", "I"), Some(0));
    assert_eq!(k.find_field("x", "J"), None);
    assert_eq!(k.find_field("name", "Ljava/lang/String;"), Some(1));
    assert_eq!(k.find_field("count", "J"), None);
    assert_eq!(k.find_declared_static("count", "J"), Some(0));
    assert_eq!(k.find_declared_static("count", "I"), None);
    assert_eq!(k.find_declared_static("x", "I"), None);
    assert_eq!(k.find_static("count"), Some(0));
    assert_eq!(k.find_static("x"), None);
    assert_eq!(k.field_at(1).get_name(), "name");
    assert_eq!(k.static_at(0).get_name(), "count");
    assert_eq!(
        k.instance_defaults(),
        vec![JvmValue::Int { val: 0 }, JvmValue::ObjRef { val: 0 }]
    );
}

#[test]
fn static_fields_hold_their_default_until_set() {
    let mut k = sample_klass();
    k.add_field(field(0, "Foo", "count", "J", ACC_STATIC));
    k.add_field(field(0, "Foo", "flag", "Z", ACC_STATIC));
    assert_eq!(k.get_static_field("count"), Some(JvmValue::Long { val: 0 }));
    assert_eq!(k.get_static_field("flag"), Some(JvmValue::Boolean { val: false }));
    assert_eq!(k.get_static_field("other"), None);
    k.set_static_field("count".to_string(), JvmValue::Long { val: 12 });
    assert_eq!(k.get_static_field("count"), Some(JvmValue::Long { val: 12 }));
    assert_eq!(k.get_static_field("flag"), Some(JvmValue::Boolean { val: false }));
    k.set_static_field("other".to_string(), JvmValue::Long { val: 1 });
    assert_eq!(k.get_static_field("other"), None);
    k.put_static(1, JvmValue::Boolean { val: true });
    assert_eq!(k.get_static(1), JvmValue::Boolean { val: true });
}

#[test]
fn repo_gives_ids_in_order_of_arrival() {
    let mut repo = SharedKlassRepo::of();
    assert_eq!(repo.len(), 0);
    repo.add_klass(OtKlass::of("First".to_string(), "".to_string(), 0, &Vec::new(), &Vec::new()));
    repo.add_klass(sample_klass());
    assert_eq!(repo.len(), 2);
    assert_eq!(repo.find_klass("First"), Some(1));
    assert_eq!(repo.find_klass("Foo"), Some(2));
    assert_eq!(repo.find_klass("Bar"), None);
    assert_eq!(repo.lookup_klass("Foo".to_string()).get_id(), 2);
    assert_eq!(repo.lookup_klass_by_id(1).get_name(), "First");
    assert_eq!(repo.lookup_klass_by_id(2).get_name(), "Foo");
}

#[test]
fn bootstrap_installs_the_built_in_classes() {
    let mut repo = SharedKlassRepo::of();
    repo.add_klass(sample_klass());
    repo.bootstrap();
    assert_eq!(repo.len(), 4);
    assert_eq!(repo.find_klass("java/lang/Object"), Some(2));
    assert_eq!(repo.find_klass("java/lang/Math"), Some(3));
    assert_eq!(repo.find_klass("java/lang/System"), Some(4));
    let root = repo.lookup_klass("java/lang/Object".to_string());
    assert_eq!(root.get_id(), 2);
    assert_eq!(root.get_super_name(), "");
    let init = root.get_method_by_name_and_desc("java/lang/Object.<init>:()V".to_string());
    assert_eq!(init.get_code(), vec![0xb1]);
    assert!(!init.is_native());
    let hash = root.get_method_by_name_and_desc("java/lang/Object.hashCode:()I".to_string());
    assert!(hash.is_native());
    assert_eq!(root.get_fields().len(), 0);
    let math = repo.lookup_klass("java/lang/Math".to_string());
    assert_eq!(math.get_super_name(), "java/lang/Object");
    assert_eq!(math.get_methods().len(), 3);
    assert!(math.get_method_by_name_and_desc("java/lang/Math.abs:(I)I".to_string()).is_static());
    let system = repo.lookup_klass("java/lang/System".to_string());
    let clock =
        system.get_method_by_name_and_desc("java/lang/System.currentTimeMillis:()J".to_string());
    assert!(clock.is_native() && clock.is_static());
}

fn run_built_in(name: &str, args: &[i32]) -> i32 {
    let mut repo = SharedKlassRepo::of();
    repo.bootstrap();
    let meth = repo
        .lookup_klass("java/lang/Math".to_string())
        .get_method_by_name_and_desc(name.to_string());
    let mut lvt = InterpLocalVars::of(meth.get_max_locals());
    for (i, v) in args.iter().enumerate() {
        lvt.store(i as u8, JvmValue::Int { val: *v });
    }
    let mut context = VmContext::with(repo, SharedSimpleHeap::of());
    match ocelotter::exec_method(&mut context, &meth, lvt, 5) {
        Some(ocelotter::Step::Returned { value: Some(JvmValue::Int { val }) }) => val,
        other => panic!("{} did not return an integer: {:?}", name, other),
    }
}

#[test]
fn the_built_in_arithmetic_computes() {
    for x in [0, 1, -1, 17, -17, i32::MAX, i32::MIN + 1] {
        assert_eq!(run_built_in("java/lang/Math.abs:(I)I", &[x]), x.abs(), "abs of {}", x);
    }
    assert_eq!(run_built_in("java/lang/Math.abs:(I)I", &[i32::MIN]), i32::MIN);
    for (a, b) in [(1, 2), (2, 1), (3, 3), (-5, 4), (i32::MIN, i32::MAX)] {
        assert_eq!(run_built_in("java/lang/Math.max:(II)I", &[a, b]), a.max(b));
        assert_eq!(run_built_in("java/lang/Math.min:(II)I", &[a, b]), a.min(b));
    }
}

#[test]
fn a_later_class_replaces_an_earlier_one_of_the_same_name() {
    let mut repo = SharedKlassRepo::of();
    repo.add_klass(sample_klass());
    let other = OtKlass::of("Foo".to_string(), "Other".to_string(), 0, &Vec::new(), &Vec::new());
    repo.add_klass(other);
    assert_eq!(repo.find_klass("Foo"), Some(2));
    assert_eq!(repo.lookup_klass("Foo".to_string()).get_super_name(), "Other");
    assert_eq!(repo.lookup_klass_by_id(1).get_super_name(), "java/lang/Object");
}

fn family() -> SharedKlassRepo {
    let mut repo = SharedKlassRepo::of();
    repo.bootstrap();
    let mut base = OtKlass::of(
        "Base".to_string(),
        "java/lang/Object".to_string(),
        0,
        &Vec::new(),
        &vec![method("Base", "run", "()I", 0), method("Base", "stop", "()V", 0)],
    );
    base.add_field(field(0, "Base", "x", "I", 0));
    base.add_field(field(0, "Base", "total", "I", ACC_STATIC));
    repo.add_klass(base);
    let pool = vec![
        utf8(""),
        utf8("Derived"),
        CpEntry::Class { idx: 1 },
        utf8("stop"),
        utf8("()V"),
        CpEntry::NameAndType { name_idx: 3, type_idx: 4 },
        CpEntry::MethodRef { clz_idx: 2, nt_idx: 5 },
        utf8("x"),
        utf8("I"),
        CpEntry::NameAndType { name_idx: 7, type_idx: 8 },
        CpEntry::FieldRef { clz_idx: 2, nt_idx: 9 },
        utf8("run"),
        utf8("()I"),
        CpEntry::NameAndType { name_idx: 11, type_idx: 12 },
        CpEntry::MethodRef { clz_idx: 2, nt_idx: 13 },
        utf8("total"),
        CpEntry::NameAndType { name_idx: 15, type_idx: 8 },
        CpEntry::FieldRef { clz_idx: 2, nt_idx: 16 },
    ];
    let mut derived = OtKlass::of(
        "Derived".to_string(),
        "Base".to_string(),
        0,
        &pool,
        &vec![method("Derived", "run", "()I", 0)],
    );
    derived.add_field(field(0, "Derived", "x", "I", 0));
    derived.add_field(field(1, "Derived", "y", "J", 0));
    repo.add_klass(derived);
    repo
}

#[test]
fn virtual_lookup_takes_the_nearest_method_going_up() {
    let repo = family();
    assert_eq!(repo.find_virtual(5, "run:()I"), Some(MethodSite { klass_id: 5, at: 0 }));
    assert_eq!(repo.find_virtual(5, "stop:()V"), Some(MethodSite { klass_id: 4, at: 1 }));
    assert_eq!(repo.find_virtual(4, "run:()I"), Some(MethodSite { klass_id: 4, at: 0 }));
    assert_eq!(repo.find_virtual(5, "<init>:()V"), Some(MethodSite { klass_id: 1, at: 0 }));
    assert_eq!(repo.find_virtual(5, "hashCode:()I"), Some(MethodSite { klass_id: 1, at: 1 }));
    assert_eq!(repo.find_virtual(5, "none:()V"), None);
    assert_eq!(repo.find_virtual(0, "run:()I"), None);
    assert_eq!(repo.find_virtual(9, "run:()I"), None);
    let stop = repo.lookup_method_virtual(&"Derived".to_string(), 6);
    assert_eq!(stop.get_fq_name_desc(), "Base.stop:()V");
    let run = repo.lookup_method_virtual(&"Derived".to_string(), 14);
    assert_eq!(run.get_fq_name_desc(), "Derived.run:()I");
}

#[test]
fn exact_lookup_looks_at_the_named_class_only() {
    let repo = family();
    let run = repo.lookup_method_exact(&"Base".to_string(), "Base.run:()I".to_string());
    assert_eq!(run.get_klass_name(), "Base");
    assert_eq!(repo.find_exact(5, 14), Some(MethodSite { klass_id: 5, at: 0 }));
    // Derived has no method `stop` of its own.
    assert_eq!(repo.find_exact(5, 6), None);
    assert_eq!(repo.find_exact(5, 10), None);
    assert_eq!(repo.find_exact(7, 6), None);
    assert_eq!(repo.find_method_ref(5, 6), Some("stop:()V".to_string()));
    assert_eq!(repo.find_method_ref(5, 10), None);
}

#[test]
fn field_lookup_finds_instance_and_static_fields() {
    let repo = family();
    assert_eq!(
        repo.find_field_ref(5, 10),
        Some(FieldSite { klass_id: 5, is_static: false, at: 0 })
    );
    assert_eq!(
        repo.find_field_ref(5, 17),
        Some(FieldSite { klass_id: 4, is_static: true, at: 0 })
    );
    assert_eq!(repo.find_field_ref(5, 6), None);
    assert_eq!(
        repo.find_field(5, "y", "J"),
        Some(FieldSite { klass_id: 5, is_static: false, at: 1 })
    );
    assert_eq!(repo.find_field(5, "y", "I"), None);
    assert_eq!(repo.find_field(4, "y", "J"), None);
    assert_eq!(
        repo.find_field(5, "total", "I"),
        Some(FieldSite { klass_id: 4, is_static: true, at: 0 })
    );
    let x = repo.lookup_field("Derived".to_string(), 10);
    assert_eq!(x.get_fq_name_desc(), "Derived.x:I");
    let total = repo.lookup_field("Derived".to_string(), 17);
    assert_eq!(total.get_fq_name_desc(), "Base.total:I");
    assert!(total.is_static());
}

#[test]
fn subclass_test_walks_the_chain() {
    let repo = family();
    assert!(repo.is_subclass(5, 5));
    assert!(repo.is_subclass(5, 4));
    assert!(repo.is_subclass(5, 1));
    assert!(repo.is_subclass(2, 1));
    assert!(!repo.is_subclass(5, 2));
    assert!(!repo.is_subclass(4, 5));
    assert!(!repo.is_subclass(1, 4));
    assert!(!repo.is_subclass(0, 1));
    assert_eq!(repo.find_klass_ref(5, 2), Some(5));
    assert_eq!(repo.find_klass_ref(5, 1), None);
}

#[test]
fn a_class_that_is_its_own_superclass_ends_the_walk() {
    let mut repo = SharedKlassRepo::of();
    repo.add_klass(OtKlass::of("A".to_string(), "B".to_string(), 0, &Vec::new(), &Vec::new()));
    repo.add_klass(OtKlass::of("B".to_string(), "A".to_string(), 0, &Vec::new(), &Vec::new()));
    assert_eq!(repo.find_virtual(1, "run:()V"), None);
    assert_eq!(repo.find_field(1, "x", "I"), None);
    assert!(repo.is_subclass(1, 2));
    assert!(!repo.is_subclass(1, 3));
}

#[test]
fn repo_put_static_changes_one_slot() {
    let mut repo = family();
    repo.put_static(4, 0, JvmValue::Int { val: 41 });
    assert_eq!(repo.lookup_klass_by_id(4).get_static(0), JvmValue::Int { val: 41 });
    assert_eq!(repo.find_klass("Base"), Some(4));
}

#[test]
fn heap_references_are_fresh_and_count_from_one() {
    let mut heap = SharedSimpleHeap::of();
    assert!(!heap.is_live(0));
    assert!(!heap.is_live(1));
    let mut k = sample_klass();
    k.set_id(4);
    k.add_field(field(0, "Foo", "x", "I", 0));
    k.add_field(field(1, "Foo", "y", "D", 0));
    let a = heap.allocate_obj(&k);
    let b = heap.allocate_obj(&k);
    let c = heap.allocate_int_arr(3);
    assert_eq!((a, b, c), (1, 2, 3));
    assert_eq!(heap.len(), 3);
    assert!(heap.is_live(1) && heap.is_live(3));
    assert!(!heap.is_live(4));
    assert!(!heap.is_live(0));
    let obj = heap.deref(a);
    assert!(!obj.is_array());
    assert_eq!(obj.klass_id(), Some(4));
    assert_eq!(obj.length(), 2);
    assert_eq!(obj.get_slot(0), JvmValue::Int { val: 0 });
    assert_eq!(obj.get_slot(1), JvmValue::Double { val: 0 });
}

#[test]
fn instance_slots_are_the_field_defaults() {
    let mut heap = SharedSimpleHeap::of();
    let mut k = sample_klass();
    for (i, desc) in ["Z", "B", "S", "C", "I", "J", "F", "D", "LFoo;"].iter().enumerate() {
        k.add_field(field(i as u16, "Foo", &format!("f{}", i), desc, 0));
    }
    let r = heap.allocate_obj(&k);
    let obj = heap.deref(r);
    let fields = k.get_fields();
    assert_eq!(obj.length(), fields.len());
    for (i, f) in fields.iter().enumerate() {
        assert_eq!(obj.get_slot(i), f.get_default());
    }
}

#[test]
fn arrays_hold_the_default_of_their_element_type() {
    let mut heap = SharedSimpleHeap::of();
    let ints = heap.allocate_int_arr(2);
    let longs = heap.allocate_array('J', 1);
    let refs = heap.allocate_array('A', 2);
    let none = heap.allocate_array('Z', 0);
    assert_eq!(heap.deref(ints).elem(), Some('I'));
    assert_eq!(heap.deref(ints).length(), 2);
    assert_eq!(heap.deref(ints).get_slot(1), JvmValue::Int { val: 0 });
    assert_eq!(heap.deref(longs).get_slot(0), JvmValue::Long { val: 0 });
    assert_eq!(heap.deref(refs).get_slot(0), JvmValue::ObjRef { val: 0 });
    assert_eq!(heap.deref(none).length(), 0);
    assert!(heap.deref(none).is_array());
    assert_eq!(heap.deref(none).klass_id(), None);
}

#[test]
fn put_slot_changes_one_slot_of_one_object() {
    let mut heap = SharedSimpleHeap::of();
    let a = heap.allocate_int_arr(2);
    let b = heap.allocate_int_arr(2);
    heap.put_slot(a, 1, JvmValue::Int { val: 5 });
    assert_eq!(heap.deref(a).get_slot(0), JvmValue::Int { val: 0 });
    assert_eq!(heap.deref(a).get_slot(1), JvmValue::Int { val: 5 });
    assert_eq!(heap.deref(b).get_slot(1), JvmValue::Int { val: 0 });
    let mut obj = OtObj::of(1, vec![JvmValue::Int { val: 1 }]);
    obj.put_slot(0, JvmValue::Int { val: 2 });
    assert_eq!(obj.get_slot(0), JvmValue::Int { val: 2 });
}

#[test]
fn context_allocates_through_its_heap() {
    let mut context = VmContext::of();
    context.add_klass(sample_klass());
    assert_eq!(context.get_repo().find_klass("Foo"), Some(1));
    let k = sample_klass();
    let a = context.allocate_obj(&k);
    let b = context.allocate_int_arr(4);
    assert_eq!((a, b), (1, 2));
    assert_eq!(context.heap().deref(b).length(), 4);
    let c = context.get_heap().allocate_int_arr(1);
    assert_eq!(c, 3);
    assert_eq!(context.heap().len(), 3);
}

#[test]
fn local_variables_start_at_the_default() {
    let mut lvt = InterpLocalVars::of(3);
    assert_eq!(lvt.len(), 3);
    for i in 0..3 {
        assert_eq!(lvt.load(i), JvmValue::Int { val: 0 });
    }
    lvt.store(1, JvmValue::Long { val: 8 });
    assert_eq!(lvt.load(1), JvmValue::Long { val: 8 });
    assert_eq!(lvt.load(0), JvmValue::Int { val: 0 });
    assert_eq!(InterpLocalVars::of(0).len(), 0);
    assert_eq!(InterpLocalVars::of(255).len(), 255);
}

#[test]
fn iinc_adds_the_signed_operand() {
    let mut lvt = InterpLocalVars::of(2);
    lvt.store(0, JvmValue::Int { val: 10 });
    lvt.iinc(0, 5);
    assert_eq!(lvt.load(0), JvmValue::Int { val: 15 });
    lvt.iinc(0, 0xff);
    assert_eq!(lvt.load(0), JvmValue::Int { val: 14 });
    lvt.iinc(0, 0x80);
    assert_eq!(lvt.load(0), JvmValue::Int { val: -114 });
    lvt.store(1, JvmValue::Int { val: i32::MAX });
    lvt.iinc(1, 1);
    assert_eq!(lvt.load(1), JvmValue::Int { val: i32::MIN });
    lvt.store(1, JvmValue::Byte { val: -1 });
    lvt.iinc(1, 1);
    assert_eq!(lvt.load(1), JvmValue::Int { val: 0 });
}

#[test]
fn parameter_count_reads_the_descriptor() {
    assert_eq!(parameter_count("main:()V"), Some(0));
    assert_eq!(parameter_count("add:(II)I"), Some(2));
    assert_eq!(parameter_count("f:(JD)V"), Some(2));
    assert_eq!(parameter_count("main2:([Ljava/lang/String;)I"), Some(1));
    assert_eq!(parameter_count("g:(ILjava/lang/Object;[[I[Ljava/lang/String;Z)V"), Some(5));
    assert_eq!(parameter_count("<init>:()V"), Some(0));
}

#[test]
fn parameter_count_refuses_a_malformed_descriptor() {
    assert_eq!(parameter_count(""), None);
    assert_eq!(parameter_count("main"), None);
    assert_eq!(parameter_count("main:"), None);
    assert_eq!(parameter_count("main:I"), None);
    assert_eq!(parameter_count("main:(I"), None);
    assert_eq!(parameter_count("main:(Ljava/lang/String)V"), None);
    assert_eq!(parameter_count("main:(X)V"), None);
    assert_eq!(parameter_count("main:([)V"), None);
    assert_eq!(parameter_count("main:(V)V"), None);
}

/// `Base` declares `x:I`, the static `s:I` and `z:I`; `Sub extends Base`
/// declares `x:I` again, `x:J`, a static `z:I` and a field `s:I`. The layout
/// of `Sub` holds the inherited fields first.
fn hiding() -> SharedKlassRepo {
    let mut repo = SharedKlassRepo::of();
    let mut base = OtKlass::of("Base".to_string(), "".to_string(), 0, &Vec::new(), &Vec::new());
    base.add_field(field(0, "Base", "x", "I", 0));
    base.add_field(field(1, "Base", "z", "I", 0));
    base.add_field(field(0, "Base", "s", "I", ACC_STATIC));
    repo.add_klass(base);
    let pool = vec![
        utf8(""),                                           // 0
        utf8("Sub"),                                        // 1
        CpEntry::Class { idx: 1 },                          // 2
        utf8("x"),                                          // 3
        utf8("I"),                                          // 4
        CpEntry::NameAndType { name_idx: 3, type_idx: 4 },  // 5
        CpEntry::FieldRef { clz_idx: 2, nt_idx: 5 },        // 6  Sub.x:I
        utf8("J"),                                          // 7
        CpEntry::NameAndType { name_idx: 3, type_idx: 7 },  // 8
        CpEntry::FieldRef { clz_idx: 2, nt_idx: 8 },        // 9  Sub.x:J
        utf8("z"),                                          // 10
        CpEntry::NameAndType { name_idx: 10, type_idx: 4 }, // 11
        CpEntry::FieldRef { clz_idx: 2, nt_idx: 11 },       // 12 Sub.z:I
        utf8("s"),                                          // 13
        CpEntry::NameAndType { name_idx: 13, type_idx: 4 }, // 14
        CpEntry::FieldRef { clz_idx: 2, nt_idx: 14 },       // 15 Sub.s:I
        utf8("Base"),                                       // 16
        CpEntry::Class { idx: 16 },                         // 17
        CpEntry::FieldRef { clz_idx: 17, nt_idx: 5 },       // 18 Base.x:I
        CpEntry::FieldRef { clz_idx: 17, nt_idx: 11 },      // 19 Base.z:I
        CpEntry::FieldRef { clz_idx: 17, nt_idx: 14 },      // 20 Base.s:I
        utf8("Z"),                                          // 21
        CpEntry::NameAndType { name_idx: 3, type_idx: 21 }, // 22
        CpEntry::FieldRef { clz_idx: 2, nt_idx: 22 },       // 23 Sub.x:Z
    ];
    let mut sub = OtKlass::of("Sub".to_string(), "Base".to_string(), 0, &pool, &Vec::new());
    sub.add_field(field(0, "Base", "x", "I", 0));
    sub.add_field(field(1, "Base", "z", "I", 0));
    sub.add_field(field(2, "Sub", "x", "I", 0));
    sub.add_field(field(3, "Sub", "x", "J", 0));
    sub.add_field(field(0, "Sub", "z", "I", ACC_STATIC));
    sub.add_field(field(4, "Sub", "s", "I", 0));
    repo.add_klass(sub);
    repo
}

#[test]
fn a_field_that_hides_an_inherited_one_is_found_at_its_own_class() {
    let repo = hiding();
    let own = repo.lookup_field("Sub".to_string(), 6);
    assert_eq!(own.get_fq_name_desc(), "Sub.x:I");
    assert_eq!(own.get_klass_name(), "Sub");
    assert_eq!(own.get_offset(), 2);
    assert_eq!(repo.find_field_ref(2, 6), Some(FieldSite { klass_id: 2, is_static: false, at: 2 }));
    let inherited = repo.lookup_field("Sub".to_string(), 18);
    assert_eq!(inherited.get_fq_name_desc(), "Base.x:I");
    assert_eq!(inherited.get_offset(), 0);
    assert_eq!(repo.find_field_ref(2, 18), Some(FieldSite { klass_id: 1, is_static: false, at: 0 }));
}

#[test]
fn fields_of_one_name_are_told_apart_by_their_descriptors() {
    let repo = hiding();
    let wide = repo.lookup_field("Sub".to_string(), 9);
    assert_eq!(wide.get_fq_name_desc(), "Sub.x:J");
    assert_eq!(wide.get_offset(), 3);
    assert_eq!(wide.get_default(), JvmValue::Long { val: 0 });
    assert_eq!(repo.lookup_field("Sub".to_string(), 6).get_default(), JvmValue::Int { val: 0 });
    // Neither class declares x:Z.
    assert_eq!(repo.find_field_ref(2, 23), None);
    assert_eq!(repo.find_field(2, "x", "Z"), None);
}

#[test]
fn an_inherited_field_does_not_hide_the_class_own_static() {
    let repo = hiding();
    let own = repo.lookup_field("Sub".to_string(), 12);
    assert_eq!(own.get_fq_name_desc(), "Sub.z:I");
    assert!(own.is_static());
    assert_eq!(repo.find_field_ref(2, 12), Some(FieldSite { klass_id: 2, is_static: true, at: 0 }));
    let inherited = repo.lookup_field("Sub".to_string(), 19);
    assert_eq!(inherited.get_fq_name_desc(), "Base.z:I");
    assert!(!inherited.is_static());
    // The other way round: an own instance field before an inherited static.
    let own = repo.lookup_field("Sub".to_string(), 15);
    assert_eq!(own.get_fq_name_desc(), "Sub.s:I");
    assert!(!own.is_static());
    assert_eq!(own.get_offset(), 4);
    let inherited = repo.lookup_field("Sub".to_string(), 20);
    assert_eq!(inherited.get_fq_name_desc(), "Base.s:I");
    assert!(inherited.is_static());
}

#[test]
fn a_field_that_only_a_superclass_declares_is_found_there() {
    let mut repo = hiding();
    let pool = vec![
        utf8(""),
        utf8("Leaf"),
        CpEntry::Class { idx: 1 },
        utf8("z"),
        utf8("I"),
        CpEntry::NameAndType { name_idx: 3, type_idx: 4 },
        CpEntry::FieldRef { clz_idx: 2, nt_idx: 5 }, // 6 Leaf.z:I
        utf8("x"),
        CpEntry::NameAndType { name_idx: 7, type_idx: 4 },
        CpEntry::FieldRef { clz_idx: 2, nt_idx: 8 }, // 9 Leaf.x:I
    ];
    let mut leaf = OtKlass::of("Leaf".to_string(), "Sub".to_string(), 0, &pool, &Vec::new());
    for f in repo.lookup_klass("Sub".to_string()).get_fields() {
        leaf.add_field(f);
    }
    repo.add_klass(leaf);
    // Sub's static z is nearer than Base's instance field z.
    assert_eq!(repo.lookup_field("Leaf".to_string(), 6).get_fq_name_desc(), "Sub.z:I");
    let x = repo.lookup_field("Leaf".to_string(), 9);
    assert_eq!(x.get_fq_name_desc(), "Sub.x:I");
    assert_eq!(x.get_offset(), 2);
}
