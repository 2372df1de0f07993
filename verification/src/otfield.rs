use vstd::prelude::*;
use vstd::string::StrSliceExecFns;
use crate::constant_pool::{join_text, CpAttr, ACC_STATIC};
use crate::value::JvmValue;

verus! {

/// A field of a loaded class. It knows its class by name: when a field is
/// made its class has no id yet.
#[derive(Debug)]
pub struct OtField {
    offset: u16,
    klass_name: String,
    flags: u16,
    name_idx: u16,
    desc_idx: u16,
    name: String,
    desc: String,
    attrs: Vec<CpAttr>,
}

/// A field as a mathematical value.
pub struct FieldModel {
    /// The slot of an instance that holds the field.
    pub offset: u16,
    pub klass_name: Seq<char>,
    pub flags: u16,
    pub name_idx: u16,
    pub desc_idx: u16,
    pub name: Seq<char>,
    pub desc: Seq<char>,
    pub attrs: Seq<CpAttr>,
}

/// The value that a field of the given descriptor holds before anything is
/// stored in it: false, zero, or the null reference.
pub open spec fn default_value(desc: Seq<char>) -> JvmValue {
    if desc == seq!['Z'] {
        JvmValue::Boolean { val: false }
    } else if desc == seq!['B'] {
        JvmValue::Byte { val: 0 }
    } else if desc == seq!['S'] {
        JvmValue::Short { val: 0 }
    } else if desc == seq!['C'] {
        JvmValue::Char { val: 0 }
    } else if desc == seq!['I'] {
        JvmValue::Int { val: 0 }
    } else if desc == seq!['J'] {
        JvmValue::Long { val: 0 }
    } else if desc == seq!['F'] {
        JvmValue::Float { val: 0 }
    } else if desc == seq!['D'] {
        JvmValue::Double { val: 0 }
    } else {
        JvmValue::ObjRef { val: 0 }
    }
}

impl FieldModel {
    pub open spec fn fq_name_desc(self) -> Seq<char> {
        self.klass_name + seq!['.'] + self.name + seq![':'] + self.desc
    }

    pub open spec fn is_static(self) -> bool {
        self.flags & ACC_STATIC == ACC_STATIC
    }

    pub open spec fn default(self) -> JvmValue {
        default_value(self.desc)
    }

    /// Whether this is the field called `name` with the descriptor `desc`
    /// that the class `owner` declares.
    pub open spec fn is_declared(self, owner: Seq<char>, name: Seq<char>, desc: Seq<char>) -> bool {
        self.klass_name == owner && self.name == name && self.desc == desc
    }
}

impl View for OtField {
    type V = FieldModel;

    closed spec fn view(&self) -> FieldModel {
        FieldModel {
            offset: self.offset,
            klass_name: self.klass_name@,
            flags: self.flags,
            name_idx: self.name_idx,
            desc_idx: self.desc_idx,
            name: self.name@,
            desc: self.desc@,
            attrs: self.attrs@,
        }
    }
}

impl Clone for OtField {
    fn clone(&self) -> (r: OtField)
        ensures
            r@ == self@,
    {
        OtField {
            offset: self.offset,
            klass_name: self.klass_name.clone(),
            flags: self.flags,
            name_idx: self.name_idx,
            desc_idx: self.desc_idx,
            name: self.name.clone(),
            desc: self.desc.clone(),
            attrs: self.attrs.clone(),
        }
    }
}

impl OtField {
    pub fn of(
        offset: u16,
        klass_name: String,
        field_name: String,
        field_desc: String,
        field_flags: u16,
        name: u16,
        desc: u16,
    ) -> (f: OtField)
        ensures
            f@ == (FieldModel {
                offset,
                klass_name: klass_name@,
                flags: field_flags,
                name_idx: name,
                desc_idx: desc,
                name: field_name@,
                desc: field_desc@,
                attrs: Seq::empty(),
            }),
    {
        OtField {
            offset,
            klass_name,
            flags: field_flags,
            name_idx: name,
            desc_idx: desc,
            name: field_name,
            desc: field_desc,
            attrs: Vec::new(),
        }
    }

    pub fn get_offset(&self) -> (offset: u16)
        ensures
            offset == self@.offset,
    {
        self.offset
    }

    /// Attributes of a field are read by the loader and not kept.
    pub fn set_attr(&self, _index: u16, _attr: CpAttr) {
    }

    pub fn get_name(&self) -> (s: String)
        ensures
            s@ == self@.name,
    {
        self.name.clone()
    }

    /// The name, borrowed.
    pub fn name_ref(&self) -> (s: &str)
        ensures
            s@ == self@.name,
    {
        self.name.as_str()
    }

    /// The descriptor, borrowed.
    pub fn desc_ref(&self) -> (s: &str)
        ensures
            s@ == self@.desc,
    {
        self.desc.as_str()
    }

    /// The name of the class that declares the field, borrowed.
    pub fn klass_name_ref(&self) -> (s: &str)
        ensures
            s@ == self@.klass_name,
    {
        self.klass_name.as_str()
    }

    pub fn get_desc(&self) -> (s: String)
        ensures
            s@ == self@.desc,
    {
        self.desc.clone()
    }

    pub fn get_flags(&self) -> (flags: u16)
        ensures
            flags == self@.flags,
    {
        self.flags
    }

    pub fn is_static(&self) -> (b: bool)
        ensures
            b == self@.is_static(),
    {
        self.flags & ACC_STATIC == ACC_STATIC
    }

    pub fn get_klass_name(&self) -> (s: String)
        ensures
            s@ == self@.klass_name,
    {
        self.klass_name.clone()
    }

    pub fn get_fq_name_desc(&self) -> (s: String)
        ensures
            s@ == self@.fq_name_desc(),
    {
        let owner_and_name = join_text(self.klass_name.clone(), '.', self.name.as_str());
        join_text(owner_and_name, ':', self.desc.as_str())
    }

    pub fn get_default(&self) -> (v: JvmValue)
        ensures
            v == self@.default(),
    {
        let desc = self.desc.as_str();
        if desc.unicode_len() != 1 {
            return JvmValue::ObjRef { val: 0 };
        }
        let letter = desc.get_char(0);
        assert(self@.desc =~= seq![letter]);
        match letter {
            'Z' => JvmValue::Boolean { val: false },
            'B' => JvmValue::Byte { val: 0 },
            'S' => JvmValue::Short { val: 0 },
            'C' => JvmValue::Char { val: 0 },
            'I' => JvmValue::Int { val: 0i32 },
            'J' => JvmValue::Long { val: 0i64 },
            'F' => JvmValue::Float { val: 0 },
            'D' => JvmValue::Double { val: 0 },
            _ => JvmValue::ObjRef { val: 0 },
        }
    }
}

} // verus!
