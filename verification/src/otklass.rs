use vstd::prelude::*;
use vstd::hash_map::StringHashMap;
use crate::constant_pool::{pool_model, pool_text, same_text, text_of, CpEntry, CpModel};
use crate::otfield::{FieldModel, OtField};
use crate::otmethod::{MethodModel, OtMethod};
use crate::value::JvmValue;

verus! {

/// The methods as mathematical values, in declaration order.
pub open spec fn method_models(methods: Seq<OtMethod>) -> Seq<MethodModel> {
    methods.map_values(|m: OtMethod| m@)
}

/// The fields as mathematical values, in layout order.
pub open spec fn field_models(fields: Seq<OtField>) -> Seq<FieldModel> {
    fields.map_values(|f: OtField| f@)
}

/// The map from `Class.Name:Desc` to the place of the method of that name in
/// `methods`. Of two methods with one name the later is found.
pub open spec fn method_index(methods: Seq<MethodModel>) -> Map<Seq<char>, usize>
    decreases methods.len(),
{
    if methods.len() == 0 {
        Map::empty()
    } else {
        method_index(methods.drop_last()).insert(
            methods.last().fq_name_desc(),
            (methods.len() - 1) as usize,
        )
    }
}

/// Every key of the map is the full name of the method that it points at, and
/// every method's full name is a key.
pub proof fn lemma_method_index(methods: Seq<MethodModel>)
    requires
        methods.len() <= usize::MAX,
    ensures
        forall|key: Seq<char>| #[trigger]
            method_index(methods).contains_key(key) ==> {
                let at = method_index(methods)[key] as int;
                &&& 0 <= at < methods.len()
                &&& methods[at].fq_name_desc() == key
            },
        forall|i: int|
            0 <= i < methods.len() ==> method_index(methods).contains_key(
                #[trigger] methods[i].fq_name_desc(),
            ),
    decreases methods.len(),
{
    if methods.len() > 0 {
        let front = methods.drop_last();
        lemma_method_index(front);
        assert forall|i: int| 0 <= i < methods.len() implies method_index(methods).contains_key(
            #[trigger] methods[i].fq_name_desc(),
        ) by {
            if i < methods.len() - 1 {
                assert(front[i] == methods[i]);
            }
        }
        assert forall|key: Seq<char>| #[trigger]
            method_index(methods).contains_key(key) implies {
            let at = method_index(methods)[key] as int;
            &&& 0 <= at < methods.len()
            &&& methods[at].fq_name_desc() == key
        } by {
            if key != methods.last().fq_name_desc() {
                assert(method_index(front).contains_key(key));
            }
        }
    }
}

/// A static field of a class with the value it holds.
#[derive(Debug)]
pub struct StaticSlot {
    pub field: OtField,
    pub value: JvmValue,
}

/// A static field and its value as mathematical values.
pub struct StaticModel {
    pub field: FieldModel,
    pub value: JvmValue,
}

impl View for StaticSlot {
    type V = StaticModel;

    open spec fn view(&self) -> StaticModel {
        StaticModel { field: self.field@, value: self.value }
    }
}

pub open spec fn static_models(slots: Seq<StaticSlot>) -> Seq<StaticModel> {
    slots.map_values(|s: StaticSlot| s@)
}

/// The place of the first static field called `name` at or after `from`.
pub open spec fn static_position(statics: Seq<StaticModel>, name: Seq<char>, from: int) -> Option<
    int,
>
    decreases statics.len() - from,
{
    if from < 0 || from >= statics.len() {
        None
    } else if statics[from].field.name == name {
        Some(from)
    } else {
        static_position(statics, name, from + 1)
    }
}

/// The place of the first field at or after `from` that the class `owner`
/// declares under the name `name` with the descriptor `desc`. The fields that
/// a class has from its superclasses stand in its layout too; they are not
/// its own, and are passed over.
pub open spec fn field_position(
    fields: Seq<FieldModel>,
    owner: Seq<char>,
    name: Seq<char>,
    desc: Seq<char>,
    from: int,
) -> Option<int>
    decreases fields.len() - from,
{
    if from < 0 || from >= fields.len() {
        None
    } else if fields[from].is_declared(owner, name, desc) {
        Some(from)
    } else {
        field_position(fields, owner, name, desc, from + 1)
    }
}

/// The same among the static fields.
pub open spec fn declared_static(
    statics: Seq<StaticModel>,
    owner: Seq<char>,
    name: Seq<char>,
    desc: Seq<char>,
    from: int,
) -> Option<int>
    decreases statics.len() - from,
{
    if from < 0 || from >= statics.len() {
        None
    } else if statics[from].field.is_declared(owner, name, desc) {
        Some(from)
    } else {
        declared_static(statics, owner, name, desc, from + 1)
    }
}

/// The place that the search for a declared field gives lies within the
/// sequence and holds a field that the class declares under that name and
/// descriptor; and where the search gives none, there is no such field.
pub proof fn lemma_field_position(
    fields: Seq<FieldModel>,
    owner: Seq<char>,
    name: Seq<char>,
    desc: Seq<char>,
    from: int,
)
    requires
        0 <= from,
    ensures
        field_position(fields, owner, name, desc, from) matches Some(at) ==> from <= at
            < fields.len() && fields[at].is_declared(owner, name, desc),
        field_position(fields, owner, name, desc, from) is None ==> forall|i: int|
            from <= i < fields.len() ==> !(#[trigger] fields[i]).is_declared(owner, name, desc),
    decreases fields.len() - from,
{
    if from < fields.len() {
        lemma_field_position(fields, owner, name, desc, from + 1);
    }
}

/// The same of the search among the static fields.
pub proof fn lemma_declared_static(
    statics: Seq<StaticModel>,
    owner: Seq<char>,
    name: Seq<char>,
    desc: Seq<char>,
    from: int,
)
    requires
        0 <= from,
    ensures
        declared_static(statics, owner, name, desc, from) matches Some(at) ==> from <= at
            < statics.len() && statics[at].field.is_declared(owner, name, desc),
        declared_static(statics, owner, name, desc, from) is None ==> forall|i: int|
            from <= i < statics.len() ==> !(#[trigger] statics[i]).field.is_declared(
                owner,
                name,
                desc,
            ),
    decreases statics.len() - from,
{
    if from < statics.len() {
        lemma_declared_static(statics, owner, name, desc, from + 1);
    }
}

/// The place that the search for a static field gives lies within the
/// sequence and holds a field of that name.
pub proof fn lemma_static_position(statics: Seq<StaticModel>, name: Seq<char>, from: int)
    requires
        0 <= from,
    ensures
        static_position(statics, name, from) matches Some(at) ==> from <= at < statics.len()
            && statics[at].field.name == name,
    decreases statics.len() - from,
{
    if from < statics.len() {
        lemma_static_position(statics, name, from + 1);
    }
}

/// Whether every field of a layout stands at the place that is its offset,
/// so that the slot of an instance at a field's offset is that field's slot.
pub open spec fn offsets_in_order(fields: Seq<FieldModel>) -> bool {
    forall|j: int| 0 <= j < fields.len() ==> (#[trigger] fields[j]).offset == j
}

/// A loaded class.
pub struct OtKlass {
    id: usize,
    name: String,
    super_name: String,
    flags: u16,
    cp_entries: Vec<CpEntry>,
    methods: Vec<OtMethod>,
    name_desc_lookup: StringHashMap<usize>,
    i_fields: Vec<OtField>,
    statics: Vec<StaticSlot>,
}

/// A class as a mathematical value.
pub struct KlassModel {
    /// 0 until a repository has taken the class in.
    pub id: usize,
    pub name: Seq<char>,
    pub super_name: Seq<char>,
    pub flags: u16,
    pub pool: Seq<CpModel>,
    pub methods: Seq<MethodModel>,
    /// The layout of an instance: one field for each slot, in slot order.
    pub fields: Seq<FieldModel>,
    pub statics: Seq<StaticModel>,
}

impl KlassModel {
    /// From `Class.Name:Desc` to the place of that method among the methods.
    pub open spec fn lookup(self) -> Map<Seq<char>, usize> {
        method_index(self.methods)
    }

    /// The slots of a new instance: each field's default, in layout order.
    pub open spec fn instance_defaults(self) -> Seq<JvmValue> {
        self.fields.map_values(|f: FieldModel| f.default())
    }

    /// The place in the layout of the instance field that the class itself
    /// declares under `name` and `desc`.
    pub open spec fn own_field(self, name: Seq<char>, desc: Seq<char>) -> Option<int> {
        field_position(self.fields, self.name, name, desc, 0)
    }

    /// The place of the static field that the class itself declares under
    /// `name` and `desc`.
    pub open spec fn own_static(self, name: Seq<char>, desc: Seq<char>) -> Option<int> {
        declared_static(self.statics, self.name, name, desc, 0)
    }

    /// Whether the class itself declares a field under `name` and `desc`.
    pub open spec fn declares(self, name: Seq<char>, desc: Seq<char>) -> bool {
        self.own_field(name, desc) is Some || self.own_static(name, desc) is Some
    }
}

impl View for OtKlass {
    type V = KlassModel;

    closed spec fn view(&self) -> KlassModel {
        KlassModel {
            id: self.id,
            name: self.name@,
            super_name: self.super_name@,
            flags: self.flags,
            pool: pool_model(self.cp_entries@),
            methods: method_models(self.methods@),
            fields: field_models(self.i_fields@),
            statics: static_models(self.statics@),
        }
    }
}

impl OtKlass {
    /// The class's own map of method names says what `lookup` says.
    pub closed spec fn wf(&self) -> bool {
        self.name_desc_lookup@ == method_index(method_models(self.methods@))
    }

    pub fn of(
        klass_name: String,
        super_klass: String,
        flags: u16,
        cp_entries: &Vec<CpEntry>,
        methods: &Vec<OtMethod>,
    ) -> (k: OtKlass)
        ensures
            k.wf(),
            k@ == (KlassModel {
                id: 0,
                name: klass_name@,
                super_name: super_klass@,
                flags,
                pool: pool_model(cp_entries@),
                methods: method_models(methods@),
                fields: Seq::empty(),
                statics: Seq::empty(),
            }),
    {
        let mut lookup: StringHashMap<usize> = StringHashMap::new();
        let mut own_methods: Vec<OtMethod> = Vec::new();
        let mut i: usize = 0;
        while i < methods.len()
            invariant
                i <= methods.len(),
                own_methods@.len() == i,
                method_models(own_methods@) == method_models(methods@).take(i as int),
                lookup@ == method_index(method_models(own_methods@)),
            decreases methods.len() - i,
        {
            let meth = methods[i].clone();
            lookup.insert(meth.get_fq_name_desc(), i);
            own_methods.push(meth);
            proof {
                let now = method_models(own_methods@);
                assert(now.drop_last() =~= method_models(methods@).take(i as int));
            }
            i = i + 1;
        }
        assert(method_models(methods@).take(i as int) =~= method_models(methods@));
        let mut own_entries: Vec<CpEntry> = Vec::new();
        let mut j: usize = 0;
        while j < cp_entries.len()
            invariant
                j <= cp_entries.len(),
                own_entries@.len() == j,
                pool_model(own_entries@) == pool_model(cp_entries@).take(j as int),
            decreases cp_entries.len() - j,
        {
            own_entries.push(cp_entries[j].clone());
            j = j + 1;
        }
        assert(pool_model(cp_entries@).take(j as int) =~= pool_model(cp_entries@));
        let k = OtKlass {
            id: 0,
            name: klass_name,
            super_name: super_klass,
            flags,
            cp_entries: own_entries,
            methods: own_methods,
            name_desc_lookup: lookup,
            i_fields: Vec::new(),
            statics: Vec::new(),
        };
        assert(k@.fields =~= Seq::empty());
        assert(k@.statics =~= Seq::empty());
        k
    }

    pub fn set_id(&mut self, id: usize)
        requires
            old(self).wf(),
        ensures
            final(self).wf(),
            final(self)@ == (KlassModel { id, ..old(self)@ }),
    {
        self.id = id
    }

    pub fn get_id(&self) -> (id: usize)
        ensures
            id == self@.id,
    {
        self.id
    }

    pub fn get_name(&self) -> (s: String)
        ensures
            s@ == self@.name,
    {
        self.name.clone()
    }

    /// The name, borrowed.
    pub fn name_ref(&self) -> (s: &str)
        ensures
            s@ == self@.name,
    {
        self.name.as_str()
    }

    /// The name of the superclass, borrowed.
    pub fn super_ref(&self) -> (s: &str)
        ensures
            s@ == self@.super_name,
    {
        self.super_name.as_str()
    }

    pub fn get_super_name(&self) -> (s: String)
        ensures
            s@ == self@.super_name,
    {
        self.super_name.clone()
    }

    pub fn get_flags(&self) -> (flags: u16)
        ensures
            flags == self@.flags,
    {
        self.flags
    }

    pub fn get_methods(&self) -> (methods: Vec<OtMethod>)
        ensures
            method_models(methods@) == self@.methods,
    {
        let methods = self.methods.clone();
        methods
    }

    /// The method at place `at` among the methods.
    pub fn method_at(&self, at: usize) -> (m: &OtMethod)
        requires
            at < self@.methods.len(),
        ensures
            m@ == self@.methods[at as int],
    {
        &self.methods[at]
    }

    /// Where the method of this full name stands, if the class has one.
    pub fn find_method(&self, name_desc: &str) -> (at: Option<usize>)
        requires
            self.wf(),
        ensures
            at == (if self@.lookup().contains_key(name_desc@) {
                Some(self@.lookup()[name_desc@])
            } else {
                None
            }),
            at matches Some(i) ==> i < self@.methods.len() && self@.methods[i as int].fq_name_desc()
                == name_desc@,
    {
        proof {
            assert(self@.methods.len() == self.methods.len());
            lemma_method_index(self@.methods);
        }
        match self.name_desc_lookup.get(name_desc) {
            Some(value) => Some(*value),
            None => None,
        }
    }

    /// The method of the full name `name_desc`: class, `.`, name, `:`, descriptor.
    pub fn get_method_by_name_and_desc(&self, name_desc: String) -> (m: OtMethod)
        requires
            self.wf(),
            self@.lookup().contains_key(name_desc@),
        ensures
            m@ == self@.methods[self@.lookup()[name_desc@] as int],
            m@.fq_name_desc() == name_desc@,
    {
        match self.find_method(name_desc.as_str()) {
            Some(at) => self.methods[at].clone(),
            None => vstd::pervasive::unreached(),
        }
    }

    pub fn lookup_cp(&self, cp_idx: u16) -> (e: CpEntry)
        requires
            (cp_idx as int) < self@.pool.len(),
        ensures
            e@ == self@.pool[cp_idx as int],
    {
        self.cp_entries[cp_idx as usize].clone()
    }

    /// The entry at `cp_idx`, borrowed, if the pool has one there.
    pub fn cp_entry(&self, cp_idx: u16) -> (e: Option<&CpEntry>)
        ensures
            e matches Some(entry) ==> (cp_idx as int) < self@.pool.len() && entry@
                == self@.pool[cp_idx as int],
            e is None ==> (cp_idx as int) >= self@.pool.len(),
    {
        if (cp_idx as usize) < self.cp_entries.len() {
            Some(&self.cp_entries[cp_idx as usize])
        } else {
            None
        }
    }

    /// The text of the entry at `i`, if it has one.
    pub fn cp_text(&self, i: u16) -> (r: Option<String>)
        ensures
            r matches Some(s) ==> pool_text(self@.pool, i as int) == Some(s@),
            r is None ==> pool_text(self@.pool, i as int) is None,
    {
        text_of(&self.cp_entries, i)
    }

    /// Takes a field in, as the loader found it: a static field gets a slot of
    /// its own that holds its default, an instance field goes to the end of
    /// the instance layout.
    pub fn add_field(&mut self, field: OtField)
        requires
            old(self).wf(),
        ensures
            final(self).wf(),
            field@.is_static() ==> final(self)@ == (KlassModel {
                statics: old(self)@.statics.push(
                    StaticModel { field: field@, value: field@.default() },
                ),
                ..old(self)@
            }),
            !field@.is_static() ==> final(self)@ == (KlassModel {
                fields: old(self)@.fields.push(field@),
                ..old(self)@
            }),
    {
        if field.is_static() {
            let value = field.get_default();
            self.statics.push(StaticSlot { field, value });
            assert(static_models(self.statics@) =~= static_models(old(self).statics@).push(
                StaticModel { field: field@, value },
            ));
        } else {
            self.i_fields.push(field);
            assert(field_models(self.i_fields@) =~= field_models(old(self).i_fields@).push(
                field@,
            ));
        }
    }

    /// Replaces the instance layout, as when a class starts out with the
    /// layout of its superclass.
    pub fn set_layout(&mut self, fields: Vec<OtField>)
        requires
            old(self).wf(),
        ensures
            final(self).wf(),
            final(self)@ == (KlassModel { fields: field_models(fields@), ..old(self)@ }),
    {
        self.i_fields = fields;
    }

    /// The number of fields in the instance layout.
    pub fn layout_len(&self) -> (n: usize)
        ensures
            n == self@.fields.len(),
    {
        self.i_fields.len()
    }

    /// The instance layout.
    pub fn get_fields(&self) -> (fields: Vec<OtField>)
        ensures
            field_models(fields@) == self@.fields,
    {
        let fields = self.i_fields.clone();
        fields
    }

    /// The instance field that the class itself declares under this name and
    /// descriptor.
    pub fn find_field(&self, name: &str, desc: &str) -> (at: Option<usize>)
        ensures
            at matches Some(i) ==> self@.own_field(name@, desc@) == Some(i as int) && i
                < self@.fields.len() && self@.fields[i as int].is_declared(
                self@.name,
                name@,
                desc@,
            ),
            at is None ==> self@.own_field(name@, desc@) is None,
    {
        let mut i: usize = 0;
        while i < self.i_fields.len()
            invariant
                i <= self.i_fields.len(),
                self@.fields.len() == self.i_fields.len(),
                self@.own_field(name@, desc@) == field_position(
                    self@.fields,
                    self@.name,
                    name@,
                    desc@,
                    i as int,
                ),
            decreases self.i_fields.len() - i,
        {
            let field = &self.i_fields[i];
            assert(field@ == self@.fields[i as int]);
            if same_text(field.klass_name_ref(), self.name.as_str()) && same_text(
                field.name_ref(),
                name,
            ) && same_text(field.desc_ref(), desc) {
                return Some(i);
            }
            i = i + 1;
        }
        None
    }

    /// The static field that the class itself declares under this name and
    /// descriptor.
    pub fn find_declared_static(&self, name: &str, desc: &str) -> (at: Option<usize>)
        ensures
            at matches Some(i) ==> self@.own_static(name@, desc@) == Some(i as int) && i
                < self@.statics.len() && self@.statics[i as int].field.is_declared(
                self@.name,
                name@,
                desc@,
            ),
            at is None ==> self@.own_static(name@, desc@) is None,
    {
        let mut i: usize = 0;
        while i < self.statics.len()
            invariant
                i <= self.statics.len(),
                self@.statics.len() == self.statics.len(),
                self@.own_static(name@, desc@) == declared_static(
                    self@.statics,
                    self@.name,
                    name@,
                    desc@,
                    i as int,
                ),
            decreases self.statics.len() - i,
        {
            let slot = &self.statics[i];
            assert(slot@ == self@.statics[i as int]);
            if same_text(slot.field.klass_name_ref(), self.name.as_str()) && same_text(
                slot.field.name_ref(),
                name,
            ) && same_text(slot.field.desc_ref(), desc) {
                return Some(i);
            }
            i = i + 1;
        }
        None
    }

    /// The field at place `at` of the instance layout.
    pub fn field_at(&self, at: usize) -> (f: &OtField)
        requires
            at < self@.fields.len(),
        ensures
            f@ == self@.fields[at as int],
    {
        &self.i_fields[at]
    }

    /// The slots of a new instance.
    pub fn instance_defaults(&self) -> (slots: Vec<JvmValue>)
        ensures
            slots@ == self@.instance_defaults(),
    {
        let mut slots: Vec<JvmValue> = Vec::new();
        let mut i: usize = 0;
        while i < self.i_fields.len()
            invariant
                i <= self.i_fields.len(),
                self@.fields.len() == self.i_fields.len(),
                slots@ == self@.instance_defaults().take(i as int),
            decreases self.i_fields.len() - i,
        {
            slots.push(self.i_fields[i].get_default());
            i = i + 1;
        }
        slots
    }

    /// The first static field of this name.
    pub fn find_static(&self, name: &str) -> (at: Option<usize>)
        ensures
            at matches Some(i) ==> static_position(self@.statics, name@, 0) == Some(i as int) && i
                < self@.statics.len(),
            at is None ==> static_position(self@.statics, name@, 0) is None,
    {
        let mut i: usize = 0;
        while i < self.statics.len()
            invariant
                i <= self.statics.len(),
                self@.statics.len() == self.statics.len(),
                static_position(self@.statics, name@, 0) == static_position(
                    self@.statics,
                    name@,
                    i as int,
                ),
            decreases self.statics.len() - i,
        {
            let slot = &self.statics[i];
            if same_text(slot.field.name_ref(), name) {
                return Some(i);
            }
            i = i + 1;
        }
        None
    }

    /// The static field at place `at`.
    pub fn static_at(&self, at: usize) -> (f: &OtField)
        requires
            at < self@.statics.len(),
        ensures
            f@ == self@.statics[at as int].field,
    {
        &self.statics[at].field
    }

    /// The value of the static field at place `at`.
    pub fn get_static(&self, at: usize) -> (v: JvmValue)
        requires
            at < self@.statics.len(),
        ensures
            v == self@.statics[at as int].value,
    {
        self.statics[at].value
    }

    /// Stores `val` in the static field at place `at`.
    pub fn put_static(&mut self, at: usize, val: JvmValue)
        requires
            old(self).wf(),
            at < old(self)@.statics.len(),
        ensures
            final(self).wf(),
            final(self)@ == (KlassModel {
                statics: old(self)@.statics.update(
                    at as int,
                    StaticModel { value: val, ..old(self)@.statics[at as int] },
                ),
                ..old(self)@
            }),
    {
        self.statics[at].value = val;
        assert(static_models(self.statics@) =~= static_models(old(self).statics@).update(
            at as int,
            StaticModel { value: val, ..old(self)@.statics[at as int] },
        ));
    }

    /// The value of the first static field called `f`, if there is one.
    pub fn get_static_field(&self, f: &str) -> (v: Option<JvmValue>)
        ensures
            v == (match static_position(self@.statics, f@, 0) {
                Some(at) => Some(self@.statics[at].value),
                None => None,
            }),
    {
        proof {
            lemma_static_position(self@.statics, f@, 0);
        }
        match self.find_static(f) {
            Some(at) => Some(self.get_static(at)),
            None => None,
        }
    }

    /// Stores `vals` in the first static field called `f`. A class without
    /// such a field stays as it is.
    pub fn set_static_field(&mut self, f: String, vals: JvmValue)
        requires
            old(self).wf(),
        ensures
            final(self).wf(),
            final(self)@ == (match static_position(old(self)@.statics, f@, 0) {
                Some(at) => KlassModel {
                    statics: old(self)@.statics.update(
                        at,
                        StaticModel { value: vals, ..old(self)@.statics[at] },
                    ),
                    ..old(self)@
                },
                None => old(self)@,
            }),
    {
        proof {
            lemma_static_position(self@.statics, f@, 0);
        }
        match self.find_static(f.as_str()) {
            Some(at) => {
                self.put_static(at, vals);
            },
            None => {},
        }
    }

    pub fn cp_as_string(&self, i: u16) -> (s: String)
        requires
            pool_text(self@.pool, i as int) is Some,
        ensures
            Some(s@) == pool_text(self@.pool, i as int),
    {
        match self.cp_text(i) {
            Some(s) => s,
            None => vstd::pervasive::unreached(),
        }
    }
}

} // verus!
