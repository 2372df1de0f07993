use vstd::prelude::*;
use vstd::string::{StrSliceExecFns, StringExecFns};

verus! {

pub const ACC_PUBLIC: u16 = 0x0001;

pub const ACC_PRIVATE: u16 = 0x0002;

pub const ACC_PROTECTED: u16 = 0x0004;

pub const ACC_STATIC: u16 = 0x0008;

pub const ACC_FINAL: u16 = 0x0010;

pub const ACC_NATIVE: u16 = 0x0100;

pub const ACC_INTERFACE: u16 = 0x0200;

pub const ACC_ABSTRACT: u16 = 0x0400;

/// An attribute of a class member, known by the pool index of its name.
#[derive(Clone, Copy, Debug, PartialEq, Eq, Structural)]
pub struct CpAttr {
    pub name_idx: u16,
}

/// One entry of a class's constant pool. Floating-point constants are held as
/// their IEEE-754 bit patterns.
#[derive(Debug)]
#[allow(inconsistent_fields)]
pub enum CpEntry {
    Utf8 { val: String },
    Class { idx: u16 },
    NameAndType { name_idx: u16, type_idx: u16 },
    MethodRef { clz_idx: u16, nt_idx: u16 },
    FieldRef { clz_idx: u16, nt_idx: u16 },
    IntConst { val: i32 },
    LongConst { val: i64 },
    FloatConst { val: u32 },
    DoubleConst { val: u64 },
    StringConst { idx: u16 },
}

/// A constant-pool entry as a mathematical value.
#[allow(inconsistent_fields)]
pub enum CpModel {
    Utf8 { val: Seq<char> },
    Class { idx: u16 },
    NameAndType { name_idx: u16, type_idx: u16 },
    MethodRef { clz_idx: u16, nt_idx: u16 },
    FieldRef { clz_idx: u16, nt_idx: u16 },
    IntConst { val: i32 },
    LongConst { val: i64 },
    FloatConst { val: u32 },
    DoubleConst { val: u64 },
    StringConst { idx: u16 },
}

impl View for CpEntry {
    type V = CpModel;

    open spec fn view(&self) -> CpModel {
        match *self {
            CpEntry::Utf8 { val } => CpModel::Utf8 { val: val@ },
            CpEntry::Class { idx } => CpModel::Class { idx },
            CpEntry::NameAndType { name_idx, type_idx } => CpModel::NameAndType {
                name_idx,
                type_idx,
            },
            CpEntry::MethodRef { clz_idx, nt_idx } => CpModel::MethodRef { clz_idx, nt_idx },
            CpEntry::FieldRef { clz_idx, nt_idx } => CpModel::FieldRef { clz_idx, nt_idx },
            CpEntry::IntConst { val } => CpModel::IntConst { val },
            CpEntry::LongConst { val } => CpModel::LongConst { val },
            CpEntry::FloatConst { val } => CpModel::FloatConst { val },
            CpEntry::DoubleConst { val } => CpModel::DoubleConst { val },
            CpEntry::StringConst { idx } => CpModel::StringConst { idx },
        }
    }
}

impl Clone for CpEntry {
    fn clone(&self) -> (r: CpEntry)
        ensures
            r@ == self@,
    {
        match self {
            CpEntry::Utf8 { val } => CpEntry::Utf8 { val: val.clone() },
            CpEntry::Class { idx } => CpEntry::Class { idx: *idx },
            CpEntry::NameAndType { name_idx, type_idx } => CpEntry::NameAndType {
                name_idx: *name_idx,
                type_idx: *type_idx,
            },
            CpEntry::MethodRef { clz_idx, nt_idx } => CpEntry::MethodRef {
                clz_idx: *clz_idx,
                nt_idx: *nt_idx,
            },
            CpEntry::FieldRef { clz_idx, nt_idx } => CpEntry::FieldRef {
                clz_idx: *clz_idx,
                nt_idx: *nt_idx,
            },
            CpEntry::IntConst { val } => CpEntry::IntConst { val: *val },
            CpEntry::LongConst { val } => CpEntry::LongConst { val: *val },
            CpEntry::FloatConst { val } => CpEntry::FloatConst { val: *val },
            CpEntry::DoubleConst { val } => CpEntry::DoubleConst { val: *val },
            CpEntry::StringConst { idx } => CpEntry::StringConst { idx: *idx },
        }
    }
}

/// The entries of a pool as mathematical values, in pool order.
pub open spec fn pool_model(entries: Seq<CpEntry>) -> Seq<CpModel> {
    entries.map_values(|e: CpEntry| e@)
}

/// Two rendered parts with a separator between them; nothing if either part
/// is missing.
pub open spec fn joined(a: Option<Seq<char>>, sep: char, b: Option<Seq<char>>) -> Option<
    Seq<char>,
> {
    match (a, b) {
        (Some(x), Some(y)) => Some(x + seq![sep] + y),
        _ => None,
    }
}

/// The text of entry `i`, following at most `depth` entries one after another:
/// - a string is itself,
/// - a class is the text of its name entry,
/// - a name-and-type pair is name, `:`, type,
/// - a method or field reference is class, `.`, name-and-type.
/// An index outside the pool, an entry of another kind and a chain longer
/// than `depth` have no text.
pub open spec fn rendered(pool: Seq<CpModel>, i: int, depth: nat) -> Option<Seq<char>>
    decreases depth,
{
    if depth == 0 || !(0 <= i < pool.len()) {
        None
    } else {
        let rest = (depth - 1) as nat;
        match pool[i] {
            CpModel::Utf8 { val } => Some(val),
            CpModel::Class { idx } => rendered(pool, idx as int, rest),
            CpModel::NameAndType { name_idx, type_idx } => joined(
                rendered(pool, name_idx as int, rest),
                ':',
                rendered(pool, type_idx as int, rest),
            ),
            CpModel::MethodRef { clz_idx, nt_idx } => joined(
                rendered(pool, clz_idx as int, rest),
                '.',
                rendered(pool, nt_idx as int, rest),
            ),
            CpModel::FieldRef { clz_idx, nt_idx } => joined(
                rendered(pool, clz_idx as int, rest),
                '.',
                rendered(pool, nt_idx as int, rest),
            ),
            _ => None,
        }
    }
}

/// The text of entry `i` of the pool. A chain of entries that does not pass
/// the same entry twice is no longer than the pool, so the pool's length
/// bounds the depth: only a pool whose entries refer to each other in a
/// circle loses a text by it.
pub open spec fn pool_text(pool: Seq<CpModel>, i: int) -> Option<Seq<char>> {
    rendered(pool, i, pool.len())
}

/// A text found within some depth is found, unchanged, within any greater one.
pub proof fn lemma_rendered_deeper(pool: Seq<CpModel>, i: int, depth: nat, deeper: nat)
    requires
        rendered(pool, i, depth) is Some,
        depth <= deeper,
    ensures
        rendered(pool, i, deeper) == rendered(pool, i, depth),
    decreases depth,
{
    let rest = (depth - 1) as nat;
    let more = (deeper - 1) as nat;
    match pool[i] {
        CpModel::Class { idx } => {
            lemma_rendered_deeper(pool, idx as int, rest, more);
        },
        CpModel::NameAndType { name_idx, type_idx } => {
            lemma_rendered_deeper(pool, name_idx as int, rest, more);
            lemma_rendered_deeper(pool, type_idx as int, rest, more);
        },
        CpModel::MethodRef { clz_idx, nt_idx } => {
            lemma_rendered_deeper(pool, clz_idx as int, rest, more);
            lemma_rendered_deeper(pool, nt_idx as int, rest, more);
        },
        CpModel::FieldRef { clz_idx, nt_idx } => {
            lemma_rendered_deeper(pool, clz_idx as int, rest, more);
            lemma_rendered_deeper(pool, nt_idx as int, rest, more);
        },
        _ => {},
    }
}

/// A method reference whose class entry names a string and whose
/// name-and-type entry names two strings reads `Class.Name:Desc`.
pub proof fn lemma_method_ref_text(
    pool: Seq<CpModel>,
    i: int,
    class: Seq<char>,
    name: Seq<char>,
    desc: Seq<char>,
)
    requires
        0 <= i < pool.len(),
        pool[i] is MethodRef,
        ({
            let c = pool[i]->MethodRef_clz_idx as int;
            let nt = pool[i]->MethodRef_nt_idx as int;
            &&& c < pool.len()
            &&& nt < pool.len()
            &&& pool[c] is Class
            &&& pool[nt] is NameAndType
            &&& (pool[c]->Class_idx as int) < pool.len()
            &&& (pool[nt]->NameAndType_name_idx as int) < pool.len()
            &&& (pool[nt]->NameAndType_type_idx as int) < pool.len()
            &&& pool[pool[c]->Class_idx as int] == (CpModel::Utf8 { val: class })
            &&& pool[pool[nt]->NameAndType_name_idx as int] == (CpModel::Utf8 { val: name })
            &&& pool[pool[nt]->NameAndType_type_idx as int] == (CpModel::Utf8 { val: desc })
        }),
    ensures
        pool_text(pool, i) == Some(class + seq!['.'] + name + seq![':'] + desc),
{
    let c = pool[i]->MethodRef_clz_idx as int;
    let nt = pool[i]->MethodRef_nt_idx as int;
    let u = pool[c]->Class_idx as int;
    let n = pool[nt]->NameAndType_name_idx as int;
    let t = pool[nt]->NameAndType_type_idx as int;
    // The reference, its class entry and the class's name are three entries.
    assert(rendered(pool, u, 1) == Some(class));
    assert(rendered(pool, n, 1) == Some(name));
    assert(rendered(pool, t, 1) == Some(desc));
    assert(rendered(pool, c, 2) == Some(class));
    assert(rendered(pool, nt, 2) == Some(name + seq![':'] + desc));
    lemma_rendered_deeper(pool, i, 3, pool.len());
}

/// Whether two strings hold the same text.
pub fn same_text(a: &str, b: &str) -> (same: bool)
    ensures
        same == (a@ == b@),
{
    let n = a.unicode_len();
    if n != b.unicode_len() {
        return false;
    }
    let mut i: usize = 0;
    while i < n
        invariant
            i <= n,
            n == a@.len(),
            n == b@.len(),
            forall|k: int| 0 <= k < i ==> a@[k] == b@[k],
        decreases n - i,
    {
        if a.get_char(i) != b.get_char(i) {
            return false;
        }
        i = i + 1;
    }
    assert(a@ =~= b@);
    true
}

/// `a`, then `sep`, then `b`, as one new string.
pub fn join_text(a: String, sep: char, b: &str) -> (r: String)
    requires
        sep == '.' || sep == ':',
    ensures
        r@ == a@ + seq![sep] + b@,
{
    proof {
        reveal_strlit(".");
        reveal_strlit(":");
    }
    let head = if sep == '.' {
        a.concat(".")
    } else {
        a.concat(":")
    };
    head.concat(b)
}

/// The entry at `i`, if the pool has one there.
pub fn entry_of(pool: &Vec<CpEntry>, i: u16) -> (e: Option<&CpEntry>)
    ensures
        e matches Some(entry) ==> (i as int) < pool@.len() && entry@ == pool_model(pool@)[i as int],
        e is None ==> (i as int) >= pool@.len(),
{
    if (i as usize) < pool.len() {
        Some(&pool[i as usize])
    } else {
        None
    }
}

fn render(pool: &Vec<CpEntry>, i: u16, depth: usize) -> (r: Option<String>)
    ensures
        r matches Some(s) ==> rendered(pool_model(pool@), i as int, depth as nat) == Some(s@),
        r is None ==> rendered(pool_model(pool@), i as int, depth as nat) is None,
    decreases depth, 0nat,
{
    if depth == 0 {
        return None;
    }
    let rest = depth - 1;
    match entry_of(pool, i) {
        None => None,
        Some(entry) => match entry {
            CpEntry::Utf8 { val } => Some(val.clone()),
            CpEntry::Class { idx } => render(pool, *idx, rest),
            CpEntry::NameAndType { name_idx, type_idx } => render_pair(
                pool,
                *name_idx,
                ':',
                *type_idx,
                rest,
            ),
            CpEntry::MethodRef { clz_idx, nt_idx } => render_pair(pool, *clz_idx, '.', *nt_idx, rest),
            CpEntry::FieldRef { clz_idx, nt_idx } => render_pair(pool, *clz_idx, '.', *nt_idx, rest),
            _ => None,
        },
    }
}

fn render_pair(pool: &Vec<CpEntry>, left: u16, sep: char, right: u16, depth: usize) -> (r: Option<
    String,
>)
    requires
        sep == '.' || sep == ':',
    ensures
        r matches Some(s) ==> joined(
            rendered(pool_model(pool@), left as int, depth as nat),
            sep,
            rendered(pool_model(pool@), right as int, depth as nat),
        ) == Some(s@),
        r is None ==> joined(
            rendered(pool_model(pool@), left as int, depth as nat),
            sep,
            rendered(pool_model(pool@), right as int, depth as nat),
        ) is None,
    decreases depth, 1nat,
{
    match render(pool, left, depth) {
        None => None,
        Some(a) => match render(pool, right, depth) {
            None => None,
            Some(b) => Some(join_text(a, sep, b.as_str())),
        },
    }
}

/// The text of the entry at `i` of the pool, if it has one.
pub fn text_of(pool: &Vec<CpEntry>, i: u16) -> (r: Option<String>)
    ensures
        r matches Some(s) ==> pool_text(pool_model(pool@), i as int) == Some(s@),
        r is None ==> pool_text(pool_model(pool@), i as int) is None,
{
    render(pool, i, pool.len())
}

} // verus!
