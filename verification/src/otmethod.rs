use vstd::prelude::*;
use crate::constant_pool::{join_text, CpAttr, ACC_NATIVE, ACC_STATIC};

verus! {

/// The number of local variables that a method has room for when its code
/// declares none.
pub const DEFAULT_MAX_LOCALS: u8 = 255;

/// A method of a loaded class.
#[derive(Debug)]
pub struct OtMethod {
    klass_name: String,
    flags: u16,
    name: String,
    name_desc: String,
    name_idx: u16,
    desc_idx: u16,
    code: Vec<u8>,
    attrs: Vec<CpAttr>,
    max_locals: u8,
}

/// A method as a mathematical value.
pub struct MethodModel {
    pub klass_name: Seq<char>,
    pub flags: u16,
    pub name: Seq<char>,
    /// Name, `:`, descriptor.
    pub name_desc: Seq<char>,
    pub name_idx: u16,
    pub desc_idx: u16,
    pub code: Seq<u8>,
    pub attrs: Seq<CpAttr>,
    pub max_locals: u8,
}

impl MethodModel {
    /// The name under which a class finds the method: class, `.`, name, `:`,
    /// descriptor.
    pub open spec fn fq_name_desc(self) -> Seq<char> {
        self.klass_name + seq!['.'] + self.name_desc
    }

    pub open spec fn is_static(self) -> bool {
        self.flags & ACC_STATIC == ACC_STATIC
    }

    pub open spec fn is_native(self) -> bool {
        self.flags & ACC_NATIVE == ACC_NATIVE
    }
}

impl View for OtMethod {
    type V = MethodModel;

    closed spec fn view(&self) -> MethodModel {
        MethodModel {
            klass_name: self.klass_name@,
            flags: self.flags,
            name: self.name@,
            name_desc: self.name_desc@,
            name_idx: self.name_idx,
            desc_idx: self.desc_idx,
            code: self.code@,
            attrs: self.attrs@,
            max_locals: self.max_locals,
        }
    }
}

impl Clone for OtMethod {
    fn clone(&self) -> (r: OtMethod)
        ensures
            r@ == self@,
    {
        OtMethod {
            klass_name: self.klass_name.clone(),
            flags: self.flags,
            name: self.name.clone(),
            name_desc: self.name_desc.clone(),
            name_idx: self.name_idx,
            desc_idx: self.desc_idx,
            code: self.code.clone(),
            attrs: self.attrs.clone(),
            max_locals: self.max_locals,
        }
    }
}

impl OtMethod {
    pub fn of(
        klass_name: String,
        name: String,
        desc: String,
        flags: u16,
        name_idx: u16,
        desc_idx: u16,
    ) -> (m: OtMethod)
        ensures
            m@ == (MethodModel {
                klass_name: klass_name@,
                flags,
                name: name@,
                name_desc: name@ + seq![':'] + desc@,
                name_idx,
                desc_idx,
                code: Seq::empty(),
                attrs: Seq::empty(),
                max_locals: DEFAULT_MAX_LOCALS,
            }),
    {
        let name_and_desc = join_text(name.clone(), ':', desc.as_str());
        OtMethod {
            klass_name,
            flags,
            name,
            name_desc: name_and_desc,
            attrs: Vec::new(),
            code: Vec::new(),
            name_idx,
            desc_idx,
            max_locals: DEFAULT_MAX_LOCALS,
        }
    }

    /// Attributes of a method are read by the loader and not kept.
    pub fn set_attr(&self, _index: u16, _attr: CpAttr) {
    }

    pub fn set_code(&mut self, code: Vec<u8>)
        ensures
            final(self)@ == (MethodModel { code: code@, ..old(self)@ }),
    {
        self.code = code;
    }

    pub fn set_max_locals(&mut self, max_locals: u8)
        ensures
            final(self)@ == (MethodModel { max_locals, ..old(self)@ }),
    {
        self.max_locals = max_locals;
    }

    pub fn get_code(&self) -> (code: Vec<u8>)
        ensures
            code@ == self@.code,
    {
        self.code.clone()
    }

    /// The code, borrowed.
    pub fn code(&self) -> (code: &Vec<u8>)
        ensures
            code@ == self@.code,
    {
        &self.code
    }

    pub fn get_max_locals(&self) -> (n: u8)
        ensures
            n == self@.max_locals,
    {
        self.max_locals
    }

    pub fn get_klass_name(&self) -> (s: String)
        ensures
            s@ == self@.klass_name,
    {
        self.klass_name.clone()
    }

    pub fn get_name(&self) -> (s: String)
        ensures
            s@ == self@.name,
    {
        self.name.clone()
    }

    /// Name, `:`, descriptor.
    pub fn get_desc(&self) -> (s: String)
        ensures
            s@ == self@.name_desc,
    {
        self.name_desc.clone()
    }

    pub fn get_fq_name_desc(&self) -> (s: String)
        ensures
            s@ == self@.fq_name_desc(),
    {
        join_text(self.klass_name.clone(), '.', self.name_desc.as_str())
    }

    pub fn get_flags(&self) -> (flags: u16)
        ensures
            flags == self@.flags,
    {
        self.flags
    }

    pub fn is_static(&self) -> (b: bool)
        ensures
            b == self@.is_static(),
    {
        self.flags & ACC_STATIC == ACC_STATIC
    }

    pub fn is_native(&self) -> (b: bool)
        ensures
            b == self@.is_native(),
    {
        self.flags & ACC_NATIVE == ACC_NATIVE
    }
}

} // verus!
