use vstd::prelude::*;
use crate::constant_pool::{pool_model, pool_text, same_text, text_of, CpEntry, CpModel, ACC_STATIC};
use crate::otfield::{default_value, FieldModel, OtField};
use crate::otklass::{
    field_models, method_models, offsets_in_order, KlassModel, OtKlass, StaticModel,
};
use crate::otmethod::{MethodModel, OtMethod, DEFAULT_MAX_LOCALS};

verus! {

/// Why a sequence of bytes is not a class that the parser can read.
#[derive(Clone, Copy, Debug, PartialEq, Eq, Structural)]
pub enum ParseError {
    /// The bytes end before the class does.
    Truncated,
    /// The bytes do not start with the number that marks a class file.
    BadMagic,
    /// A constant of a kind that the machine has no use for.
    UnsupportedConstant,
    /// A string of the pool holds a byte above 127.
    NonAscii,
    /// A long or double constant in the last place of the pool, which has no
    /// room for its second half.
    BadPool,
    /// The name of the class, of its superclass or of a member is no string
    /// of the pool.
    BadName,
    /// A code attribute that is shorter than the code it announces.
    BadCode,
    /// More instance fields, the inherited ones counted, than an offset can
    /// number.
    TooManyFields,
}

/// The number that marks a class file.
pub const MAGIC: u32 = 0xCAFE_BABE;

/// What fills the places of the pool that hold no constant: place 0, and the
/// place after each long and double.
pub open spec fn filler() -> CpModel {
    CpModel::IntConst { val: 0 }
}

/// The unsigned 16-bit number in the two bytes from `at`.
pub open spec fn be16(b: Seq<u8>, at: int) -> int {
    b[at] * 256 + b[at + 1]
}

/// The unsigned 32-bit number in the four bytes from `at`.
pub open spec fn be32(b: Seq<u8>, at: int) -> int {
    b[at] * 16777216 + b[at + 1] * 65536 + b[at + 2] * 256 + b[at + 3]
}

/// The unsigned 64-bit number in the eight bytes from `at`.
pub open spec fn be64(b: Seq<u8>, at: int) -> int {
    be32(b, at) * 4294967296 + be32(b, at + 4)
}

/// The number below 2^32 read as a signed one.
pub open spec fn signed32(u: int) -> int {
    if u >= 2147483648 {
        u - 4294967296
    } else {
        u
    }
}

/// The number below 2^64 read as a signed one.
pub open spec fn signed64(u: int) -> int {
    if u >= 9223372036854775808 {
        u - 18446744073709551616
    } else {
        u
    }
}

/// Whether the `len` bytes from `at` are all below 128.
pub open spec fn is_ascii_run(b: Seq<u8>, at: int, len: int) -> bool {
    forall|i: int| at <= i < at + len ==> #[trigger] b[i] < 128
}

/// The `len` bytes from `at`, each read as the character of its number.
pub open spec fn ascii_text(b: Seq<u8>, at: int, len: int) -> Seq<char> {
    Seq::new(len as nat, |i: int| b[at + i] as char)
}

/// A constant read from the bytes: the entry, where the next one starts, and
/// how many places of the pool it takes.
pub struct ReadEntry {
    pub entry: CpModel,
    pub next: int,
    pub places: int,
}

/// The constant that starts at `at`. Its first byte says of what kind it is;
/// what follows depends on the kind:
/// - 1, a string: its length in two bytes, then its bytes;
/// - 3 and 4, an integer and a float: four bytes;
/// - 5 and 6, a long and a double: eight bytes, and two places of the pool;
/// - 7 and 8, a class and a string constant: the index of a string;
/// - 9, 10 and 11, a reference to a field, a method, an interface method:
///   the index of a class and that of a name-and-type pair;
/// - 12, a name-and-type pair: the indices of two strings.
pub open spec fn entry_at(b: Seq<u8>, at: int) -> Result<ReadEntry, ParseError> {
    if at + 1 > b.len() {
        Err(ParseError::Truncated)
    } else {
        let tag = b[at];
        if tag == 1 {
            if at + 3 > b.len() || at + 3 + be16(b, at + 1) > b.len() {
                Err(ParseError::Truncated)
            } else if !is_ascii_run(b, at + 3, be16(b, at + 1)) {
                Err(ParseError::NonAscii)
            } else {
                Ok(
                    ReadEntry {
                        entry: CpModel::Utf8 { val: ascii_text(b, at + 3, be16(b, at + 1)) },
                        next: at + 3 + be16(b, at + 1),
                        places: 1,
                    },
                )
            }
        } else if tag == 3 || tag == 4 {
            if at + 5 > b.len() {
                Err(ParseError::Truncated)
            } else if tag == 3 {
                Ok(
                    ReadEntry {
                        entry: CpModel::IntConst { val: signed32(be32(b, at + 1)) as i32 },
                        next: at + 5,
                        places: 1,
                    },
                )
            } else {
                Ok(
                    ReadEntry {
                        entry: CpModel::FloatConst { val: be32(b, at + 1) as u32 },
                        next: at + 5,
                        places: 1,
                    },
                )
            }
        } else if tag == 5 || tag == 6 {
            if at + 9 > b.len() {
                Err(ParseError::Truncated)
            } else if tag == 5 {
                Ok(
                    ReadEntry {
                        entry: CpModel::LongConst { val: signed64(be64(b, at + 1)) as i64 },
                        next: at + 9,
                        places: 2,
                    },
                )
            } else {
                Ok(
                    ReadEntry {
                        entry: CpModel::DoubleConst { val: be64(b, at + 1) as u64 },
                        next: at + 9,
                        places: 2,
                    },
                )
            }
        } else if tag == 7 || tag == 8 {
            if at + 3 > b.len() {
                Err(ParseError::Truncated)
            } else if tag == 7 {
                Ok(
                    ReadEntry {
                        entry: CpModel::Class { idx: be16(b, at + 1) as u16 },
                        next: at + 3,
                        places: 1,
                    },
                )
            } else {
                Ok(
                    ReadEntry {
                        entry: CpModel::StringConst { idx: be16(b, at + 1) as u16 },
                        next: at + 3,
                        places: 1,
                    },
                )
            }
        } else if 9 <= tag <= 12 {
            if at + 5 > b.len() {
                Err(ParseError::Truncated)
            } else {
                let first = be16(b, at + 1) as u16;
                let second = be16(b, at + 3) as u16;
                Ok(
                    ReadEntry {
                        entry: if tag == 9 {
                            CpModel::FieldRef { clz_idx: first, nt_idx: second }
                        } else if tag == 12 {
                            CpModel::NameAndType { name_idx: first, type_idx: second }
                        } else {
                            CpModel::MethodRef { clz_idx: first, nt_idx: second }
                        },
                        next: at + 5,
                        places: 1,
                    },
                )
            }
        } else {
            Err(ParseError::UnsupportedConstant)
        }
    }
}

/// The pool of `count` places of which the places in `done` are read already
/// and the rest is read from `at` on, and where the bytes of the pool end. A
/// long and a double take two places, of which the second holds a filler.
pub open spec fn pool_from(b: Seq<u8>, at: int, count: int, done: Seq<CpModel>) -> Result<
    (Seq<CpModel>, int),
    ParseError,
>
    decreases count - done.len(),
{
    if done.len() >= count {
        Ok((done, at))
    } else {
        match entry_at(b, at) {
            Err(e) => Err(e),
            Ok(read) => if done.len() + read.places > count {
                Err(ParseError::BadPool)
            } else if read.places == 2 {
                pool_from(b, read.next, count, done.push(read.entry).push(filler()))
            } else {
                pool_from(b, read.next, count, done.push(read.entry))
            },
        }
    }
}

/// The code of a method as its code attribute holds it.
pub struct CodeModel {
    pub code: Seq<u8>,
    /// The number of local variables, but no more than 255.
    pub max_locals: u8,
}

/// The name of the attribute that holds a method's code.
pub open spec fn code_name() -> Seq<char> {
    seq!['C', 'o', 'd', 'e']
}

/// What the `left` attributes from `at` on hold of code, and where they end.
/// An attribute is the index of its name, its length in four bytes, and that
/// many bytes. The first attribute called `Code` counts: it holds the stack
/// height and the number of local variables in two bytes each, the length of
/// the code in four, and the code. `found` is what attributes before `at`
/// held.
pub open spec fn attributes_from(
    b: Seq<u8>,
    at: int,
    left: int,
    pool: Seq<CpModel>,
    found: Option<CodeModel>,
) -> Result<(Option<CodeModel>, int), ParseError>
    decreases left,
{
    if left <= 0 {
        Ok((found, at))
    } else if at + 6 > b.len() || at + 6 + be32(b, at + 2) > b.len() {
        Err(ParseError::Truncated)
    } else {
        let len = be32(b, at + 2);
        if found is None && pool_text(pool, be16(b, at)) == Some(code_name()) {
            if len < 8 || 8 + be32(b, at + 10) > len {
                Err(ParseError::BadCode)
            } else {
                attributes_from(
                    b,
                    at + 6 + len,
                    left - 1,
                    pool,
                    Some(
                        CodeModel {
                            code: b.subrange(at + 14, at + 14 + be32(b, at + 10)),
                            max_locals: if be16(b, at + 8) > 255 {
                                255u8
                            } else {
                                be16(b, at + 8) as u8
                            },
                        },
                    ),
                )
            }
        } else {
            attributes_from(b, at + 6 + len, left - 1, pool, found)
        }
    }
}

/// A field or a method as the bytes of a class hold it.
pub struct MemberModel {
    pub flags: u16,
    pub name_idx: u16,
    pub desc_idx: u16,
    pub name: Seq<char>,
    pub desc: Seq<char>,
    pub code: Option<CodeModel>,
}

/// The member that starts at `at`, and where it ends: its flags, the indices
/// of its name and of its descriptor, the number of its attributes in two
/// bytes each, then the attributes.
pub open spec fn member_at(b: Seq<u8>, at: int, pool: Seq<CpModel>) -> Result<
    (MemberModel, int),
    ParseError,
> {
    if at + 8 > b.len() {
        Err(ParseError::Truncated)
    } else {
        match (pool_text(pool, be16(b, at + 2)), pool_text(pool, be16(b, at + 4))) {
            (Some(name), Some(desc)) => match attributes_from(
                b,
                at + 8,
                be16(b, at + 6),
                pool,
                None,
            ) {
                Err(e) => Err(e),
                Ok((code, next)) => Ok(
                    (
                        MemberModel {
                            flags: be16(b, at) as u16,
                            name_idx: be16(b, at + 2) as u16,
                            desc_idx: be16(b, at + 4) as u16,
                            name,
                            desc,
                            code,
                        },
                        next,
                    ),
                ),
            },
            _ => Err(ParseError::BadName),
        }
    }
}

/// The members in `done` and then the `left` members from `at` on, and where
/// they end.
pub open spec fn members_from(
    b: Seq<u8>,
    at: int,
    left: int,
    pool: Seq<CpModel>,
    done: Seq<MemberModel>,
) -> Result<(Seq<MemberModel>, int), ParseError>
    decreases left,
{
    if left <= 0 {
        Ok((done, at))
    } else {
        match member_at(b, at, pool) {
            Err(e) => Err(e),
            Ok((member, next)) => members_from(b, next, left - 1, pool, done.push(member)),
        }
    }
}

/// A class as its bytes hold it.
pub struct ParsedModel {
    pub name: Seq<char>,
    pub super_name: Seq<char>,
    pub flags: u16,
    pub pool: Seq<CpModel>,
    pub fields: Seq<MemberModel>,
    pub methods: Seq<MemberModel>,
}

/// The class that the bytes hold, or why they hold none:
/// - the mark of a class file and two version numbers, which are not looked
///   at;
/// - the number of places of the pool, and the pool;
/// - the flags, the index of the class's own name, that of its superclass
///   (0 for none), and the interfaces, which are skipped;
/// - the number of fields and the fields; the number of methods and the
///   methods.
/// What follows the methods is not looked at.
pub open spec fn parsed(b: Seq<u8>) -> Result<ParsedModel, ParseError> {
    if b.len() < 10 {
        Err(ParseError::Truncated)
    } else if be32(b, 0) != MAGIC {
        Err(ParseError::BadMagic)
    } else {
        match pool_from(b, 10, be16(b, 8), seq![filler()]) {
            Err(e) => Err(e),
            Ok((pool, at)) => if at + 8 > b.len() || at + 10 + 2 * be16(b, at + 6) > b.len() {
                Err(ParseError::Truncated)
            } else {
                let fields_at = at + 8 + 2 * be16(b, at + 6);
                let super_name = if be16(b, at + 4) == 0 {
                    Some(Seq::<char>::empty())
                } else {
                    pool_text(pool, be16(b, at + 4))
                };
                match (pool_text(pool, be16(b, at + 2)), super_name) {
                    (Some(name), Some(super_name)) => match members_from(
                        b,
                        fields_at + 2,
                        be16(b, fields_at),
                        pool,
                        Seq::empty(),
                    ) {
                        Err(e) => Err(e),
                        Ok((fields, methods_at)) => if methods_at + 2 > b.len() {
                            Err(ParseError::Truncated)
                        } else {
                            match members_from(
                                b,
                                methods_at + 2,
                                be16(b, methods_at),
                                pool,
                                Seq::empty(),
                            ) {
                                Err(e) => Err(e),
                                Ok((methods, _)) => Ok(
                                    ParsedModel {
                                        name,
                                        super_name,
                                        flags: be16(b, at) as u16,
                                        pool,
                                        fields,
                                        methods,
                                    },
                                ),
                            }
                        },
                    },
                    _ => Err(ParseError::BadName),
                }
            },
        }
    }
}

/// Appends a character to a string; this is `String::push` of the standard
/// library, of which its documentation says just that.
#[verifier::external_body]
fn push_char(s: &mut String, c: char)
    ensures
        final(s)@ == old(s)@.push(c),
{
    s.push(c);
}

fn read16(b: &Vec<u8>, at: usize) -> (v: u16)
    requires
        at + 2 <= b.len(),
    ensures
        v == be16(b@, at as int),
{
    (b[at] as u16) * 256 + (b[at + 1] as u16)
}

fn read32(b: &Vec<u8>, at: usize) -> (v: u32)
    requires
        at + 4 <= b.len(),
    ensures
        v == be32(b@, at as int),
{
    (b[at] as u32) * 16777216 + (b[at + 1] as u32) * 65536 + (b[at + 2] as u32) * 256 + (b[at
        + 3] as u32)
}

fn read64(b: &Vec<u8>, at: usize) -> (v: u64)
    requires
        at + 8 <= b.len(),
    ensures
        v == be64(b@, at as int),
{
    (read32(b, at) as u64) * 4294967296 + (read32(b, at + 4) as u64)
}

fn as_signed32(u: u32) -> (v: i32)
    ensures
        v == signed32(u as int),
{
    if u >= 2147483648 {
        (u as i64 - 4294967296) as i32
    } else {
        u as i32
    }
}

fn as_signed64(u: u64) -> (v: i64)
    ensures
        v == signed64(u as int),
{
    if u >= 9223372036854775808 {
        (u as i128 - 18446744073709551616) as i64
    } else {
        u as i64
    }
}

/// The string in the `len` bytes from `at`, if they are all below 128.
fn read_text(b: &Vec<u8>, at: usize, len: usize) -> (r: Option<String>)
    requires
        at + len <= b.len(),
    ensures
        r matches Some(s) ==> is_ascii_run(b@, at as int, len as int) && s@ == ascii_text(
            b@,
            at as int,
            len as int,
        ),
        r is None ==> !is_ascii_run(b@, at as int, len as int),
{
    let mut s = String::new();
    let mut i: usize = 0;
    while i < len
        invariant
            i <= len,
            at + len <= b.len(),
            is_ascii_run(b@, at as int, i as int),
            s@ == ascii_text(b@, at as int, i as int),
        decreases len - i,
    {
        let byte = b[at + i];
        if byte >= 128 {
            return None;
        }
        push_char(&mut s, byte as char);
        i = i + 1;
    }
    Some(s)
}

/// The constant that starts at `at`, where the next one starts, and whether
/// it takes two places.
fn read_entry(b: &Vec<u8>, at: usize) -> (r: Result<(CpEntry, usize, bool), ParseError>)
    requires
        at <= b.len(),
    ensures
        match entry_at(b@, at as int) {
            Ok(read) => r matches Ok((entry, next, wide)) && entry@ == read.entry && next
                == read.next && at < next <= b.len() && read.places == (if wide {
                2int
            } else {
                1int
            }),
            Err(e) => r == Err::<(CpEntry, usize, bool), ParseError>(e),
        },
{
    let room = b.len() - at;
    if room < 1 {
        return Err(ParseError::Truncated);
    }
    let tag = b[at];
    if tag == 1 {
        if room < 3 {
            return Err(ParseError::Truncated);
        }
        let len = read16(b, at + 1) as usize;
        if room - 3 < len {
            return Err(ParseError::Truncated);
        }
        match read_text(b, at + 3, len) {
            Some(val) => Ok((CpEntry::Utf8 { val }, at + 3 + len, false)),
            None => Err(ParseError::NonAscii),
        }
    } else if tag == 3 || tag == 4 {
        if room < 5 {
            return Err(ParseError::Truncated);
        }
        let u = read32(b, at + 1);
        if tag == 3 {
            Ok((CpEntry::IntConst { val: as_signed32(u) }, at + 5, false))
        } else {
            Ok((CpEntry::FloatConst { val: u }, at + 5, false))
        }
    } else if tag == 5 || tag == 6 {
        if room < 9 {
            return Err(ParseError::Truncated);
        }
        let u = read64(b, at + 1);
        if tag == 5 {
            Ok((CpEntry::LongConst { val: as_signed64(u) }, at + 9, true))
        } else {
            Ok((CpEntry::DoubleConst { val: u }, at + 9, true))
        }
    } else if tag == 7 || tag == 8 {
        if room < 3 {
            return Err(ParseError::Truncated);
        }
        let idx = read16(b, at + 1);
        if tag == 7 {
            Ok((CpEntry::Class { idx }, at + 3, false))
        } else {
            Ok((CpEntry::StringConst { idx }, at + 3, false))
        }
    } else if 9 <= tag && tag <= 12 {
        if room < 5 {
            return Err(ParseError::Truncated);
        }
        let first = read16(b, at + 1);
        let second = read16(b, at + 3);
        let entry = if tag == 9 {
            CpEntry::FieldRef { clz_idx: first, nt_idx: second }
        } else if tag == 12 {
            CpEntry::NameAndType { name_idx: first, type_idx: second }
        } else {
            CpEntry::MethodRef { clz_idx: first, nt_idx: second }
        };
        Ok((entry, at + 5, false))
    } else {
        Err(ParseError::UnsupportedConstant)
    }
}

/// The code of a method.
#[derive(Debug)]
pub struct Code {
    pub code: Vec<u8>,
    pub max_locals: u8,
}

impl View for Code {
    type V = CodeModel;

    open spec fn view(&self) -> CodeModel {
        CodeModel { code: self.code@, max_locals: self.max_locals }
    }
}

/// A field or a method as read from the bytes of a class.
#[derive(Debug)]
pub struct Member {
    pub flags: u16,
    pub name_idx: u16,
    pub desc_idx: u16,
    pub name: String,
    pub desc: String,
    pub code: Option<Code>,
}

impl View for Member {
    type V = MemberModel;

    open spec fn view(&self) -> MemberModel {
        MemberModel {
            flags: self.flags,
            name_idx: self.name_idx,
            desc_idx: self.desc_idx,
            name: self.name@,
            desc: self.desc@,
            code: match self.code {
                Some(c) => Some(c@),
                None => None,
            },
        }
    }
}

pub open spec fn member_models(members: Seq<Member>) -> Seq<MemberModel> {
    members.map_values(|m: Member| m@)
}

/// A class as read from its bytes.
#[derive(Debug)]
pub struct ParsedKlass {
    pub name: String,
    pub super_name: String,
    pub flags: u16,
    pub pool: Vec<CpEntry>,
    pub fields: Vec<Member>,
    pub methods: Vec<Member>,
}

impl View for ParsedKlass {
    type V = ParsedModel;

    open spec fn view(&self) -> ParsedModel {
        ParsedModel {
            name: self.name@,
            super_name: self.super_name@,
            flags: self.flags,
            pool: pool_model(self.pool@),
            fields: member_models(self.fields@),
            methods: member_models(self.methods@),
        }
    }
}

/// The pool of `count` places that starts at `at`.
fn read_pool(b: &Vec<u8>, at: usize, count: u16) -> (r: Result<(Vec<CpEntry>, usize), ParseError>)
    requires
        at <= b.len(),
    ensures
        match pool_from(b@, at as int, count as int, seq![filler()]) {
            Ok((pool, end)) => r matches Ok((entries, next)) && pool_model(entries@) == pool
                && next == end && next <= b.len(),
            Err(e) => r == Err::<(Vec<CpEntry>, usize), ParseError>(e),
        },
{
    let mut entries: Vec<CpEntry> = Vec::new();
    entries.push(CpEntry::IntConst { val: 0 });
    assert(pool_model(entries@) =~= seq![filler()]);
    let mut here: usize = at;
    while entries.len() < count as usize
        invariant
            here <= b.len(),
            pool_from(b@, at as int, count as int, seq![filler()]) == pool_from(
                b@,
                here as int,
                count as int,
                pool_model(entries@),
            ),
        decreases count - entries.len(),
    {
        let ghost done = pool_model(entries@);
        let (entry, next, wide) = match read_entry(b, here) {
            Ok(read) => read,
            Err(e) => {
                return Err(e);
            },
        };
        if wide && count as usize - entries.len() < 2 {
            return Err(ParseError::BadPool);
        }
        let ghost model = entry@;
        entries.push(entry);
        assert(pool_model(entries@) =~= done.push(model));
        if wide {
            entries.push(CpEntry::IntConst { val: 0 });
            assert(pool_model(entries@) =~= done.push(model).push(filler()));
        }
        here = next;
    }
    Ok((entries, here))
}

/// Whether the entry at `i` of the pool reads `Code`.
fn names_code(pool: &Vec<CpEntry>, i: u16) -> (yes: bool)
    ensures
        yes == (pool_text(pool_model(pool@), i as int) == Some(code_name())),
{
    proof {
        reveal_strlit("Code");
        assert("Code"@ =~= code_name());
    }
    match text_of(pool, i) {
        Some(name) => same_text(name.as_str(), "Code"),
        None => false,
    }
}

/// The `len` bytes from `at`.
fn copy_bytes(b: &Vec<u8>, at: usize, len: usize) -> (r: Vec<u8>)
    requires
        at + len <= b.len(),
    ensures
        r@ == b@.subrange(at as int, at + len),
{
    let mut r: Vec<u8> = Vec::new();
    let mut i: usize = 0;
    while i < len
        invariant
            i <= len,
            at + len <= b.len(),
            r@ == b@.subrange(at as int, at + i),
        decreases len - i,
    {
        r.push(b[at + i]);
        i = i + 1;
    }
    r
}

/// What the `count` attributes from `at` on hold of code.
fn read_attributes(b: &Vec<u8>, at: usize, count: u16, pool: &Vec<CpEntry>) -> (r: Result<
    (Option<Code>, usize),
    ParseError,
>)
    requires
        at <= b.len(),
    ensures
        match attributes_from(b@, at as int, count as int, pool_model(pool@), None) {
            Ok((code, end)) => r matches Ok((found, next)) && next == end && next <= b.len() && (
            match found {
                Some(c) => code == Some(c@),
                None => code is None,
            }),
            Err(e) => r == Err::<(Option<Code>, usize), ParseError>(e),
        },
{
    let mut found: Option<Code> = None;
    let mut here: usize = at;
    let mut left: u16 = count;
    while left > 0
        invariant
            here <= b.len(),
            attributes_from(b@, at as int, count as int, pool_model(pool@), None)
                == attributes_from(
                b@,
                here as int,
                left as int,
                pool_model(pool@),
                match found {
                    Some(c) => Some(c@),
                    None => None,
                },
            ),
        decreases left,
    {
        let room = b.len() - here;
        if room < 6 {
            return Err(ParseError::Truncated);
        }
        let len = read32(b, here + 2) as usize;
        if room - 6 < len {
            return Err(ParseError::Truncated);
        }
        if found.is_none() && names_code(pool, read16(b, here)) {
            if len < 8 {
                return Err(ParseError::BadCode);
            }
            let code_len = read32(b, here + 10) as usize;
            if len - 8 < code_len {
                return Err(ParseError::BadCode);
            }
            let locals = read16(b, here + 8);
            found = Some(
                Code {
                    code: copy_bytes(b, here + 14, code_len),
                    max_locals: if locals > 255 {
                        255
                    } else {
                        locals as u8
                    },
                },
            );
        }
        here = here + 6 + len;
        left = left - 1;
    }
    Ok((found, here))
}

/// The member that starts at `at`.
fn read_member(b: &Vec<u8>, at: usize, pool: &Vec<CpEntry>) -> (r: Result<(Member, usize), ParseError>)
    requires
        at <= b.len(),
    ensures
        match member_at(b@, at as int, pool_model(pool@)) {
            Ok((member, end)) => r matches Ok((read, next)) && read@ == member && next == end
                && next <= b.len(),
            Err(e) => r == Err::<(Member, usize), ParseError>(e),
        },
{
    if b.len() - at < 8 {
        return Err(ParseError::Truncated);
    }
    let flags = read16(b, at);
    let name_idx = read16(b, at + 2);
    let desc_idx = read16(b, at + 4);
    let name = match text_of(pool, name_idx) {
        Some(s) => s,
        None => {
            return Err(ParseError::BadName);
        },
    };
    let desc = match text_of(pool, desc_idx) {
        Some(s) => s,
        None => {
            return Err(ParseError::BadName);
        },
    };
    match read_attributes(b, at + 8, read16(b, at + 6), pool) {
        Err(e) => Err(e),
        Ok((code, next)) => Ok((Member { flags, name_idx, desc_idx, name, desc, code }, next)),
    }
}

/// The `count` members from `at` on.
fn read_members(b: &Vec<u8>, at: usize, count: u16, pool: &Vec<CpEntry>) -> (r: Result<
    (Vec<Member>, usize),
    ParseError,
>)
    requires
        at <= b.len(),
    ensures
        match members_from(b@, at as int, count as int, pool_model(pool@), Seq::empty()) {
            Ok((members, end)) => r matches Ok((read, next)) && member_models(read@) == members
                && next == end && next <= b.len(),
            Err(e) => r == Err::<(Vec<Member>, usize), ParseError>(e),
        },
{
    let mut members: Vec<Member> = Vec::new();
    assert(member_models(members@) =~= Seq::empty());
    let mut here: usize = at;
    let mut left: u16 = count;
    while left > 0
        invariant
            here <= b.len(),
            members_from(b@, at as int, count as int, pool_model(pool@), Seq::empty())
                == members_from(
                b@,
                here as int,
                left as int,
                pool_model(pool@),
                member_models(members@),
            ),
        decreases left,
    {
        let ghost done = member_models(members@);
        let (member, next) = match read_member(b, here, pool) {
            Ok(read) => read,
            Err(e) => {
                return Err(e);
            },
        };
        let ghost model = member@;
        members.push(member);
        assert(member_models(members@) =~= done.push(model));
        here = next;
        left = left - 1;
    }
    Ok((members, here))
}

/// Reads a class from the bytes of a class file.
pub fn parse(b: &Vec<u8>) -> (r: Result<ParsedKlass, ParseError>)
    ensures
        match parsed(b@) {
            Ok(model) => r matches Ok(k) && k@ == model,
            Err(e) => r matches Err(error) && error == e,
        },
{
    if b.len() < 10 {
        return Err(ParseError::Truncated);
    }
    if read32(b, 0) != MAGIC {
        return Err(ParseError::BadMagic);
    }
    let (pool, at) = match read_pool(b, 10, read16(b, 8)) {
        Ok(read) => read,
        Err(e) => {
            return Err(e);
        },
    };
    let room = b.len() - at;
    if room < 8 {
        return Err(ParseError::Truncated);
    }
    let interfaces = read16(b, at + 6) as usize;
    if room - 8 < 2 * interfaces + 2 {
        return Err(ParseError::Truncated);
    }
    let flags = read16(b, at);
    let fields_at = at + 8 + 2 * interfaces;
    let super_idx = read16(b, at + 4);
    let name = text_of(&pool, read16(b, at + 2));
    let super_name = if super_idx == 0 {
        Some(String::new())
    } else {
        text_of(&pool, super_idx)
    };
    let (name, super_name) = match (name, super_name) {
        (Some(name), Some(super_name)) => (name, super_name),
        _ => {
            return Err(ParseError::BadName);
        },
    };
    let (fields, methods_at) = match read_members(b, fields_at + 2, read16(b, fields_at), &pool) {
        Ok(read) => read,
        Err(e) => {
            return Err(e);
        },
    };
    if b.len() - methods_at < 2 {
        return Err(ParseError::Truncated);
    }
    match read_members(b, methods_at + 2, read16(b, methods_at), &pool) {
        Ok((methods, _)) => Ok(ParsedKlass { name, super_name, flags, pool, fields, methods }),
        Err(e) => Err(e),
    }
}

/// The method that a member of the class `klass_name` stands for. A method
/// without code has room for the default number of local variables.
pub open spec fn method_of(klass_name: Seq<char>, m: MemberModel) -> MethodModel {
    MethodModel {
        klass_name,
        flags: m.flags,
        name: m.name,
        name_desc: m.name + seq![':'] + m.desc,
        name_idx: m.name_idx,
        desc_idx: m.desc_idx,
        code: match m.code {
            Some(c) => c.code,
            None => Seq::empty(),
        },
        attrs: Seq::empty(),
        max_locals: match m.code {
            Some(c) => c.max_locals,
            None => DEFAULT_MAX_LOCALS,
        },
    }
}

/// The field that a member of the class `klass_name` stands for, at the
/// offset given.
pub open spec fn field_of(klass_name: Seq<char>, m: MemberModel, offset: u16) -> FieldModel {
    FieldModel {
        offset,
        klass_name,
        flags: m.flags,
        name_idx: m.name_idx,
        desc_idx: m.desc_idx,
        name: m.name,
        desc: m.desc,
        attrs: Seq::empty(),
    }
}

/// The class `k` with the fields from `from` on added in order: a static
/// field gets a slot of its own with its default in it, an instance field the
/// next place of the layout, whose number is its offset. Nothing if the layout
/// grows beyond what an offset can number.
pub open spec fn laid_out(k: KlassModel, fields: Seq<MemberModel>, from: int) -> Option<KlassModel>
    decreases fields.len() - from,
{
    if from < 0 || from >= fields.len() {
        Some(k)
    } else {
        let m = fields[from];
        if m.flags & ACC_STATIC == ACC_STATIC {
            laid_out(
                KlassModel {
                    statics: k.statics.push(
                        StaticModel { field: field_of(k.name, m, 0), value: default_value(m.desc) },
                    ),
                    ..k
                },
                fields,
                from + 1,
            )
        } else if k.fields.len() > u16::MAX {
            None
        } else {
            laid_out(
                KlassModel {
                    fields: k.fields.push(field_of(k.name, m, k.fields.len() as u16)),
                    ..k
                },
                fields,
                from + 1,
            )
        }
    }
}

/// The class that the machine runs for a class as read, where `inherited` is
/// the instance layout of its superclass: the inherited fields keep the first
/// places of the layout, the class's own follow.
pub open spec fn built(p: ParsedModel, inherited: Seq<FieldModel>) -> Option<KlassModel> {
    laid_out(
        KlassModel {
            id: 0,
            name: p.name,
            super_name: p.super_name,
            flags: p.flags,
            pool: p.pool,
            methods: p.methods.map_values(|m: MemberModel| method_of(p.name, m)),
            fields: inherited,
            statics: Seq::empty(),
        },
        p.fields,
        0,
    )
}

/// Laying out fields after a layout whose fields stand at their offsets
/// gives such a layout again.
pub proof fn lemma_laid_out_in_order(k: KlassModel, fields: Seq<MemberModel>, from: int)
    requires
        offsets_in_order(k.fields),
        laid_out(k, fields, from) is Some,
    ensures
        offsets_in_order(laid_out(k, fields, from)->0.fields),
    decreases fields.len() - from,
{
    if 0 <= from < fields.len() {
        let m = fields[from];
        if m.flags & ACC_STATIC == ACC_STATIC {
            lemma_laid_out_in_order(
                KlassModel {
                    statics: k.statics.push(
                        StaticModel { field: field_of(k.name, m, 0), value: default_value(m.desc) },
                    ),
                    ..k
                },
                fields,
                from + 1,
            );
        } else {
            let grown = KlassModel {
                fields: k.fields.push(field_of(k.name, m, k.fields.len() as u16)),
                ..k
            };
            assert forall|j: int| 0 <= j < grown.fields.len() implies (
            #[trigger] grown.fields[j]).offset == j by {
                if j < k.fields.len() {
                    assert(grown.fields[j] == k.fields[j]);
                }
            }
            lemma_laid_out_in_order(grown, fields, from + 1);
        }
    }
}

/// A class that is built after a layout whose fields stand at their offsets
/// has such a layout itself.
pub proof fn lemma_built_in_order(p: ParsedModel, inherited: Seq<FieldModel>)
    requires
        offsets_in_order(inherited),
        built(p, inherited) is Some,
    ensures
        offsets_in_order(built(p, inherited)->0.fields),
{
    lemma_laid_out_in_order(
        KlassModel {
            id: 0,
            name: p.name,
            super_name: p.super_name,
            flags: p.flags,
            pool: p.pool,
            methods: p.methods.map_values(|m: MemberModel| method_of(p.name, m)),
            fields: inherited,
            statics: Seq::empty(),
        },
        p.fields,
        0,
    );
}

impl ParsedKlass {
    /// Makes the class that the machine runs. `inherited` is the instance
    /// layout of the superclass.
    pub fn build(&self, inherited: Vec<OtField>) -> (r: Option<OtKlass>)
        ensures
            match built(self@, field_models(inherited@)) {
                Some(model) => r matches Some(k) && k.wf() && k@ == model,
                None => r is None,
            },
    {
        let mut methods: Vec<OtMethod> = Vec::new();
        let mut i: usize = 0;
        while i < self.methods.len()
            invariant
                i <= self.methods.len(),
                methods@.len() == i,
                method_models(methods@) == self@.methods.map_values(
                    |m: MemberModel| method_of(self@.name, m),
                ).take(i as int),
            decreases self.methods.len() - i,
        {
            let m = &self.methods[i];
            let mut method = OtMethod::of(
                self.name.clone(),
                m.name.clone(),
                m.desc.clone(),
                m.flags,
                m.name_idx,
                m.desc_idx,
            );
            match &m.code {
                Some(c) => {
                    method.set_code(c.code.clone());
                    method.set_max_locals(c.max_locals);
                },
                None => {},
            }
            methods.push(method);
            i = i + 1;
        }
        assert(self@.methods.map_values(|m: MemberModel| method_of(self@.name, m)).take(
            i as int,
        ) =~= self@.methods.map_values(|m: MemberModel| method_of(self@.name, m)));
        let mut k = OtKlass::of(
            self.name.clone(),
            self.super_name.clone(),
            self.flags,
            &self.pool,
            &methods,
        );
        k.set_layout(inherited);
        let mut j: usize = 0;
        while j < self.fields.len()
            invariant
                j <= self.fields.len(),
                k.wf(),
                k@.name == self@.name,
                built(self@, field_models(inherited@)) == laid_out(k@, self@.fields, j as int),
            decreases self.fields.len() - j,
        {
            let m = &self.fields[j];
            let is_static = m.flags & ACC_STATIC == ACC_STATIC;
            let offset: u16 = if is_static {
                0
            } else {
                let n = k.layout_len();
                if n > 0xffff {
                    return None;
                }
                n as u16
            };
            let field = OtField::of(
                offset,
                self.name.clone(),
                m.name.clone(),
                m.desc.clone(),
                m.flags,
                m.name_idx,
                m.desc_idx,
            );
            k.add_field(field);
            j = j + 1;
        }
        Some(k)
    }
}

} // verus!
