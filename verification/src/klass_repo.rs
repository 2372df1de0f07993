use vstd::prelude::*;
use vstd::hash_map::StringHashMap;
use crate::bootstrap::{math, math_klass, object, object_klass, system, system_klass};
use crate::constant_pool::{join_text, pool_text, CpEntry};
use crate::klass_parser::{built, lemma_built_in_order, parse, parsed, ParseError};
use crate::otfield::{FieldModel, OtField};
use crate::otklass::{
    field_models, lemma_declared_static, lemma_field_position, offsets_in_order, KlassModel,
    OtKlass,
};
use crate::otmethod::OtMethod;
use crate::value::JvmValue;

verus! {

/// The classes as mathematical values, in the order they came in.
pub open spec fn klass_models(klasses: Seq<OtKlass>) -> Seq<KlassModel> {
    klasses.map_values(|k: OtKlass| k@)
}

/// The map from a class's name to its id. The id of a class is its place in
/// the order of arrival, counted from 1. Of two classes with one name the
/// later is found.
pub open spec fn name_index(klasses: Seq<KlassModel>) -> Map<Seq<char>, usize>
    decreases klasses.len(),
{
    if klasses.len() == 0 {
        Map::empty()
    } else {
        name_index(klasses.drop_last()).insert(klasses.last().name, klasses.len() as usize)
    }
}

/// Every class carries the id that its place gives it.
pub open spec fn ids_in_order(klasses: Seq<KlassModel>) -> bool {
    forall|i: int| 0 <= i < klasses.len() ==> (#[trigger] klasses[i]).id == i + 1
}

/// Whether `id` is the id of one of the classes.
pub open spec fn known(klasses: Seq<KlassModel>, id: usize) -> bool {
    1 <= id <= klasses.len()
}

/// Every name in the map leads to a class of that name, and every class's
/// name is in the map.
pub proof fn lemma_name_index(klasses: Seq<KlassModel>)
    requires
        klasses.len() <= usize::MAX,
    ensures
        forall|name: Seq<char>| #[trigger]
            name_index(klasses).contains_key(name) ==> {
                let id = name_index(klasses)[name];
                &&& known(klasses, id)
                &&& klasses[id - 1].name == name
            },
        forall|i: int|
            0 <= i < klasses.len() ==> name_index(klasses).contains_key(
                (#[trigger] klasses[i]).name,
            ),
    decreases klasses.len(),
{
    if klasses.len() > 0 {
        let front = klasses.drop_last();
        lemma_name_index(front);
        assert forall|i: int| 0 <= i < klasses.len() implies name_index(klasses).contains_key(
            (#[trigger] klasses[i]).name,
        ) by {
            if i < klasses.len() - 1 {
                assert(front[i] == klasses[i]);
            }
        }
        assert forall|name: Seq<char>| #[trigger]
            name_index(klasses).contains_key(name) implies {
            let id = name_index(klasses)[name];
            &&& known(klasses, id)
            &&& klasses[id - 1].name == name
        } by {
            if name != klasses.last().name {
                assert(name_index(front).contains_key(name));
            }
        }
    }
}

/// Where a method was found: the id of its class and its place among that
/// class's methods.
#[derive(Clone, Copy, Debug, PartialEq, Eq, Structural)]
pub struct MethodSite {
    pub klass_id: usize,
    pub at: usize,
}

/// Where a field was found: the id of its class, whether it is a static
/// field, and its place among the class's static or instance fields.
#[derive(Clone, Copy, Debug, PartialEq, Eq, Structural)]
pub struct FieldSite {
    pub klass_id: usize,
    pub is_static: bool,
    pub at: usize,
}

/// The method called `name_desc` (name, `:`, descriptor) that an object of
/// the class `start` answers to: the class's own if it has one, else that of
/// the nearest superclass that has one. `depth` bounds the classes looked at.
pub open spec fn resolve_virtual(
    klasses: Seq<KlassModel>,
    start: usize,
    name_desc: Seq<char>,
    depth: nat,
) -> Option<MethodSite>
    decreases depth,
{
    if depth == 0 || !known(klasses, start) {
        None
    } else {
        let k = klasses[start - 1];
        let key = k.name + seq!['.'] + name_desc;
        if k.lookup().contains_key(key) {
            Some(MethodSite { klass_id: start, at: k.lookup()[key] })
        } else if name_index(klasses).contains_key(k.super_name) {
            resolve_virtual(
                klasses,
                name_index(klasses)[k.super_name],
                name_desc,
                (depth - 1) as nat,
            )
        } else {
            None
        }
    }
}

/// The field called `name` with the descriptor `desc` as the class `start`
/// sees it: the instance field that the class declares itself, else the
/// static field that it declares itself, else what its superclass sees. A
/// field that the class only has from a superclass is found at that
/// superclass.
pub open spec fn resolve_field(
    klasses: Seq<KlassModel>,
    start: usize,
    name: Seq<char>,
    desc: Seq<char>,
    depth: nat,
) -> Option<FieldSite>
    decreases depth,
{
    if depth == 0 || !known(klasses, start) {
        None
    } else {
        let k = klasses[start - 1];
        match k.own_field(name, desc) {
            Some(at) => Some(FieldSite { klass_id: start, is_static: false, at: at as usize }),
            None => match k.own_static(name, desc) {
                Some(at) => Some(FieldSite { klass_id: start, is_static: true, at: at as usize }),
                None => if name_index(klasses).contains_key(k.super_name) {
                    resolve_field(
                        klasses,
                        name_index(klasses)[k.super_name],
                        name,
                        desc,
                        (depth - 1) as nat,
                    )
                } else {
                    None
                },
            },
        }
    }
}

/// The field record at a site.
pub open spec fn field_at_site(klasses: Seq<KlassModel>, site: FieldSite) -> FieldModel {
    if site.is_static {
        klasses[site.klass_id - 1].statics[site.at as int].field
    } else {
        klasses[site.klass_id - 1].fields[site.at as int]
    }
}

/// Whether the site names a class of the repository and a field that this
/// class declares itself under `name` and `desc`.
pub open spec fn site_declares(
    klasses: Seq<KlassModel>,
    site: FieldSite,
    name: Seq<char>,
    desc: Seq<char>,
) -> bool {
    &&& known(klasses, site.klass_id)
    &&& site.is_static ==> site.at < klasses[site.klass_id - 1].statics.len()
    &&& !site.is_static ==> site.at < klasses[site.klass_id - 1].fields.len()
    &&& field_at_site(klasses, site).is_declared(klasses[site.klass_id - 1].name, name, desc)
}

/// Whether every class has no more methods and fields than a machine word
/// counts, as every class that the machine holds has.
pub open spec fn countable(klasses: Seq<KlassModel>) -> bool {
    forall|i: int|
        0 <= i < klasses.len() ==> (#[trigger] klasses[i]).fields.len() <= usize::MAX
            && klasses[i].statics.len() <= usize::MAX
}

/// A field is resolved to the record of the class that declares it: the site
/// that a resolution gives names a class and a field that this class
/// declares itself under the name and descriptor asked for, so the full name
/// of the record is that class's name, `.`, the name, `:`, the descriptor.
/// Where the class at which the resolution starts declares such a field
/// itself, that is the one found, whatever its superclasses declare.
pub proof fn lemma_field_resolution(
    klasses: Seq<KlassModel>,
    start: usize,
    name: Seq<char>,
    desc: Seq<char>,
    depth: nat,
)
    requires
        countable(klasses),
    ensures
        resolve_field(klasses, start, name, desc, depth) matches Some(site) ==> {
            &&& site_declares(klasses, site, name, desc)
            &&& field_at_site(klasses, site).fq_name_desc() == klasses[site.klass_id - 1].name
                + seq!['.'] + name + seq![':'] + desc
        },
        depth > 0 && known(klasses, start) && klasses[start - 1].declares(name, desc) ==> (
        resolve_field(klasses, start, name, desc, depth) matches Some(site) && site.klass_id
            == start),
    decreases depth,
{
    if depth > 0 && known(klasses, start) {
        let k = klasses[start - 1];
        lemma_field_position(k.fields, k.name, name, desc, 0);
        lemma_declared_static(k.statics, k.name, name, desc, 0);
        if !k.declares(name, desc) && name_index(klasses).contains_key(k.super_name) {
            lemma_field_resolution(
                klasses,
                name_index(klasses)[k.super_name],
                name,
                desc,
                (depth - 1) as nat,
            );
        }
    }
}

/// Whether `start` is `target` or has it among its superclasses, looking at
/// no more than `depth` classes.
pub open spec fn descends_from(
    klasses: Seq<KlassModel>,
    start: usize,
    target: usize,
    depth: nat,
) -> bool
    decreases depth,
{
    if depth == 0 || !known(klasses, start) {
        false
    } else if start == target {
        true
    } else {
        let k = klasses[start - 1];
        name_index(klasses).contains_key(k.super_name) && descends_from(
            klasses,
            name_index(klasses)[k.super_name],
            target,
            (depth - 1) as nat,
        )
    }
}

/// The method that the method reference at `idx` of the pool of class `owner`
/// names exactly: the class is the one the reference names, the method the
/// one of that class whose full name is the reference's text.
pub open spec fn exact_target(klasses: Seq<KlassModel>, owner: usize, idx: u16) -> Option<
    MethodSite,
> {
    if !known(klasses, owner) {
        None
    } else {
        let pool = klasses[owner - 1].pool;
        if idx < pool.len() && pool[idx as int] is MethodRef {
            let clz = pool[idx as int]->MethodRef_clz_idx;
            match (pool_text(pool, clz as int), pool_text(pool, idx as int)) {
                (Some(klass_name), Some(full_name)) => {
                    if name_index(klasses).contains_key(klass_name) {
                        let id = name_index(klasses)[klass_name];
                        let k = klasses[id - 1];
                        if k.lookup().contains_key(full_name) {
                            Some(MethodSite { klass_id: id, at: k.lookup()[full_name] })
                        } else {
                            None
                        }
                    } else {
                        None
                    }
                },
                _ => None,
            }
        } else {
            None
        }
    }
}

/// The name and descriptor (name, `:`, descriptor) of the method reference at
/// `idx` of the pool of class `owner`.
pub open spec fn method_ref_name_desc(klasses: Seq<KlassModel>, owner: usize, idx: u16) -> Option<
    Seq<char>,
> {
    if !known(klasses, owner) {
        None
    } else {
        let pool = klasses[owner - 1].pool;
        if idx < pool.len() && pool[idx as int] is MethodRef {
            pool_text(pool, pool[idx as int]->MethodRef_nt_idx as int)
        } else {
            None
        }
    }
}

/// What a field reference says: the name of a class, and the name and the
/// descriptor of a field.
pub struct FieldRefParts {
    pub klass_name: Seq<char>,
    pub name: Seq<char>,
    pub desc: Seq<char>,
}

/// What the field reference at `idx` of the pool of class `owner` says: the
/// text of its class entry, and the texts of the name and of the type of its
/// name-and-type entry.
pub open spec fn field_ref_parts(klasses: Seq<KlassModel>, owner: usize, idx: u16) -> Option<
    FieldRefParts,
> {
    if !known(klasses, owner) {
        None
    } else {
        let pool = klasses[owner - 1].pool;
        if idx < pool.len() && pool[idx as int] is FieldRef {
            let clz = pool[idx as int]->FieldRef_clz_idx;
            let nt = pool[idx as int]->FieldRef_nt_idx;
            if nt < pool.len() && pool[nt as int] is NameAndType {
                match (
                    pool_text(pool, clz as int),
                    pool_text(pool, pool[nt as int]->NameAndType_name_idx as int),
                    pool_text(pool, pool[nt as int]->NameAndType_type_idx as int),
                ) {
                    (Some(klass_name), Some(name), Some(desc)) => Some(
                        FieldRefParts { klass_name, name, desc },
                    ),
                    _ => None,
                }
            } else {
                None
            }
        } else {
            None
        }
    }
}

/// The field that the field reference at `idx` of the pool of class `owner`
/// names: the field of that name and descriptor as the class that the
/// reference names sees it.
pub open spec fn field_target(klasses: Seq<KlassModel>, owner: usize, idx: u16) -> Option<
    FieldSite,
> {
    match field_ref_parts(klasses, owner, idx) {
        Some(parts) => if name_index(klasses).contains_key(parts.klass_name) {
            resolve_field(
                klasses,
                name_index(klasses)[parts.klass_name],
                parts.name,
                parts.desc,
                klasses.len(),
            )
        } else {
            None
        },
        None => None,
    }
}

/// Whether the class that the field reference at `idx` of the pool of class
/// `owner` names is in the repository and declares the field itself.
pub open spec fn declared_by_named(klasses: Seq<KlassModel>, owner: usize, idx: u16) -> bool {
    field_ref_parts(klasses, owner, idx) matches Some(parts) && name_index(klasses).contains_key(
        parts.klass_name,
    ) && klasses[name_index(klasses)[parts.klass_name] - 1].declares(parts.name, parts.desc)
}

/// The id of the class that the class entry at `idx` of the pool of class
/// `owner` names.
pub open spec fn klass_target(klasses: Seq<KlassModel>, owner: usize, idx: u16) -> Option<usize> {
    if !known(klasses, owner) {
        None
    } else {
        let pool = klasses[owner - 1].pool;
        if idx < pool.len() && pool[idx as int] is Class {
            match pool_text(pool, idx as int) {
                Some(klass_name) => if name_index(klasses).contains_key(klass_name) {
                    Some(name_index(klasses)[klass_name])
                } else {
                    None
                },
                None => None,
            }
        } else {
            None
        }
    }
}

/// The built-in classes, with the ids they get where `first` is the next id
/// that the repository gives out.
pub open spec fn built_in_klasses(first: usize) -> Seq<KlassModel> {
    seq![
        object_klass(first),
        math_klass((first + 1) as usize),
        system_klass((first + 2) as usize),
    ]
}

/// Whether in every class each field of the layout stands at the place that
/// is its offset.
pub open spec fn layouts_in_order(klasses: Seq<KlassModel>) -> bool {
    forall|i: int| 0 <= i < klasses.len() ==> offsets_in_order((#[trigger] klasses[i]).fields)
}

/// A class that is loaded into a repository whose layouts are in order has
/// its layout in order.
pub proof fn lemma_loaded_in_order(klasses: Seq<KlassModel>, bytes: Seq<u8>)
    requires
        klasses.len() <= usize::MAX,
        layouts_in_order(klasses),
        loaded(klasses, bytes) is Ok,
    ensures
        offsets_in_order(loaded(klasses, bytes)->Ok_0.fields),
{
    let p = parsed(bytes)->Ok_0;
    lemma_name_index(klasses);
    let inherited = if name_index(klasses).contains_key(p.super_name) {
        klasses[name_index(klasses)[p.super_name] - 1].fields
    } else {
        Seq::<FieldModel>::empty()
    };
    lemma_built_in_order(p, inherited);
}

/// The class that the repository takes in for the bytes of a class file:
/// the class as read, laid out after the fields of its superclass, or after
/// none where the repository does not have the superclass.
pub open spec fn loaded(klasses: Seq<KlassModel>, bytes: Seq<u8>) -> Result<KlassModel, ParseError> {
    match parsed(bytes) {
        Err(e) => Err(e),
        Ok(p) => {
            let inherited = if name_index(klasses).contains_key(p.super_name) {
                klasses[name_index(klasses)[p.super_name] - 1].fields
            } else {
                Seq::empty()
            };
            match built(p, inherited) {
                Some(k) => Ok(k),
                None => Err(ParseError::TooManyFields),
            }
        },
    }
}

/// The registry of loaded classes. It owns them, gives each an id when it
/// comes in, and finds them by name and by id.
pub struct SharedKlassRepo {
    klasses: Vec<OtKlass>,
    klass_lookup: StringHashMap<usize>,
}

impl View for SharedKlassRepo {
    type V = Seq<KlassModel>;

    closed spec fn view(&self) -> Seq<KlassModel> {
        klass_models(self.klasses@)
    }
}

impl SharedKlassRepo {
    /// The repository's own map of names says what `name_index` says, every
    /// class is well formed and carries the id of its place.
    pub closed spec fn wf(&self) -> bool {
        &&& self.klass_lookup@ == name_index(self@)
        &&& ids_in_order(self@)
        &&& forall|i: int| 0 <= i < self.klasses@.len() ==> (#[trigger] self.klasses@[i]).wf()
    }

    pub fn of() -> (r: SharedKlassRepo)
        ensures
            r.wf(),
            r@ == Seq::<KlassModel>::empty(),
    {
        let r = SharedKlassRepo { klasses: Vec::new(), klass_lookup: StringHashMap::new() };
        r
    }

    /// The number of classes.
    pub fn len(&self) -> (n: usize)
        ensures
            n == self@.len(),
    {
        self.klasses.len()
    }

    /// Takes the class in and gives it the next id. A class of the same name
    /// that came earlier is no longer found by name, only by id.
    pub fn add_klass(&mut self, k: OtKlass)
        requires
            old(self).wf(),
            k.wf(),
            old(self)@.len() < usize::MAX,
        ensures
            final(self).wf(),
            final(self)@ == old(self)@.push(
                KlassModel { id: (old(self)@.len() + 1) as usize, ..k@ },
            ),
            layouts_in_order(old(self)@) && offsets_in_order(k@.fields) ==> layouts_in_order(
                final(self)@,
            ),
    {
        let mut k = k;
        let id = self.klasses.len() + 1;
        k.set_id(id);
        self.klass_lookup.insert(k.get_name(), id);
        self.klasses.push(k);
        proof {
            assert(self@.drop_last() =~= old(self)@);
            assert forall|i: int| 0 <= i < self@.len() implies (#[trigger] self@[i]).id == i
                + 1 by {
                if i < old(self)@.len() {
                    assert(self@[i] == old(self)@[i]);
                }
            }
            assert forall|i: int| 0 <= i < self.klasses@.len() implies (
            #[trigger] self.klasses@[i]).wf() by {
            }
        }
    }

    /// Takes in the classes that are built in: `java/lang/Object`,
    /// `java/lang/Math` and `java/lang/System`, in this order.
    pub fn bootstrap(&mut self)
        requires
            old(self).wf(),
            old(self)@.len() + 3 <= usize::MAX,
        ensures
            final(self).wf(),
            final(self)@ == old(self)@ + built_in_klasses((old(self)@.len() + 1) as usize),
            layouts_in_order(old(self)@) ==> layouts_in_order(final(self)@),
    {
        self.add_klass(object());
        self.add_klass(math());
        self.add_klass(system());
        assert(self@ =~= old(self)@ + built_in_klasses((old(self)@.len() + 1) as usize));
    }

    /// Reads a class from the bytes of a class file and takes it in. The
    /// class's instance layout starts with that of its superclass, if that is
    /// in the repository already. Gives the id of the new class, or says why
    /// the bytes hold none; then the repository stays as it is.
    pub fn parse_and_add(&mut self, bytes: &Vec<u8>) -> (r: Result<usize, ParseError>)
        requires
            old(self).wf(),
            old(self)@.len() < usize::MAX,
        ensures
            final(self).wf(),
            match loaded(old(self)@, bytes@) {
                Ok(k) => r == Ok::<usize, ParseError>((old(self)@.len() + 1) as usize)
                    && final(self)@ == old(self)@.push(
                    KlassModel { id: (old(self)@.len() + 1) as usize, ..k },
                ),
                Err(e) => r == Err::<usize, ParseError>(e) && final(self)@ == old(self)@,
            },
            layouts_in_order(old(self)@) ==> layouts_in_order(final(self)@),
    {
        proof {
            if layouts_in_order(self@) && loaded(self@, bytes@) is Ok {
                lemma_loaded_in_order(self@, bytes@);
            }
        }
        let read = match parse(bytes) {
            Ok(read) => read,
            Err(e) => {
                return Err(e);
            },
        };
        let inherited = match self.find_klass(read.super_name.as_str()) {
            Some(id) => self.lookup_klass_by_id(id).get_fields(),
            None => {
                let none: Vec<OtField> = Vec::new();
                assert(field_models(none@) =~= Seq::empty());
                none
            },
        };
        match read.build(inherited) {
            Some(k) => {
                self.add_klass(k);
                Ok(self.klasses.len())
            },
            None => Err(ParseError::TooManyFields),
        }
    }

    /// The id of the class called `name`, if there is one.
    pub fn find_klass(&self, name: &str) -> (id: Option<usize>)
        requires
            self.wf(),
        ensures
            id == (if name_index(self@).contains_key(name@) {
                Some(name_index(self@)[name@])
            } else {
                None
            }),
            id matches Some(i) ==> known(self@, i) && self@[i - 1].name == name@,
    {
        proof {
            lemma_name_index(self@);
        }
        match self.klass_lookup.get(name) {
            Some(value) => Some(*value),
            None => None,
        }
    }

    pub fn lookup_klass_by_id(&self, id: usize) -> (k: &OtKlass)
        requires
            self.wf(),
            known(self@, id),
        ensures
            k.wf(),
            k@ == self@[id - 1],
            k@.id == id,
    {
        &self.klasses[id - 1]
    }

    pub fn lookup_klass(&self, klass_name: String) -> (k: &OtKlass)
        requires
            self.wf(),
            name_index(self@).contains_key(klass_name@),
        ensures
            k.wf(),
            k@ == self@[name_index(self@)[klass_name@] - 1],
            k@.name == klass_name@,
    {
        match self.find_klass(klass_name.as_str()) {
            Some(id) => self.lookup_klass_by_id(id),
            None => vstd::pervasive::unreached(),
        }
    }

    /// Stores `val` in the static field at place `at` of the class `id`.
    pub fn put_static(&mut self, id: usize, at: usize, val: JvmValue)
        requires
            old(self).wf(),
            known(old(self)@, id),
            at < old(self)@[id - 1].statics.len(),
        ensures
            final(self).wf(),
            final(self)@ == old(self)@.update(
                id - 1,
                KlassModel {
                    statics: old(self)@[id - 1].statics.update(
                        at as int,
                        crate::otklass::StaticModel {
                            value: val,
                            ..old(self)@[id - 1].statics[at as int]
                        },
                    ),
                    ..old(self)@[id - 1]
                },
            ),
            name_index(final(self)@) == name_index(old(self)@),
    {
        self.klasses[id - 1].put_static(at, val);
        proof {
            let changed = self.klasses@[id - 1]@;
            assert(self@ =~= old(self)@.update(id - 1, changed));
            lemma_name_index_update(old(self)@, id - 1, changed);
            assert forall|i: int| 0 <= i < self.klasses@.len() implies (
            #[trigger] self.klasses@[i]).wf() by {
            }
            assert forall|i: int| 0 <= i < self@.len() implies (#[trigger] self@[i]).id == i
                + 1 by {
            }
        }
    }

    /// The method that an object of the class `start` answers to when asked
    /// for `name_desc`.
    pub fn find_virtual(&self, start: usize, name_desc: &str) -> (site: Option<MethodSite>)
        requires
            self.wf(),
        ensures
            site == resolve_virtual(self@, start, name_desc@, self@.len()),
            site matches Some(s) ==> known(self@, s.klass_id) && s.at < self@[s.klass_id
                - 1].methods.len(),
    {
        let mut current: usize = start;
        let mut left: usize = self.klasses.len();
        let mut found: Option<MethodSite> = None;
        let mut done: bool = false;
        while !done
            invariant
                self.wf(),
                self@.len() == self.klasses.len(),
                left <= self@.len(),
                !done ==> resolve_virtual(self@, start, name_desc@, self@.len())
                    == resolve_virtual(self@, current, name_desc@, left as nat),
                !done ==> found is None,
                done ==> found == resolve_virtual(self@, start, name_desc@, self@.len()),
                done && found is Some ==> known(self@, found->0.klass_id) && found->0.at
                    < self@[found->0.klass_id - 1].methods.len(),
            decreases left + (if done { 0int } else { 1int }),
        {
            if left == 0 || current < 1 || current > self.klasses.len() {
                done = true;
            } else {
                let k = self.lookup_klass_by_id(current);
                let key = join_text(k.get_name(), '.', name_desc);
                match k.find_method(key.as_str()) {
                    Some(at) => {
                        found = Some(MethodSite { klass_id: current, at });
                        done = true;
                    },
                    None => {
                        match self.find_klass(k.super_ref()) {
                            Some(parent) => {
                                current = parent;
                                left = left - 1;
                            },
                            None => {
                                done = true;
                            },
                        }
                    },
                }
            }
        }
        found
    }

    /// The field called `name` with the descriptor `desc` as the class `start`
    /// sees it: its own, or else that of the nearest superclass that declares
    /// one.
    pub fn find_field(&self, start: usize, name: &str, desc: &str) -> (site: Option<FieldSite>)
        requires
            self.wf(),
        ensures
            site == resolve_field(self@, start, name@, desc@, self@.len()),
            site matches Some(s) ==> site_declares(self@, s, name@, desc@),
            known(self@, start) && self@[start - 1].declares(name@, desc@) ==> (site matches Some(
                s,
            ) && s.klass_id == start),
    {
        let mut current: usize = start;
        let mut left: usize = self.klasses.len();
        let mut found: Option<FieldSite> = None;
        let mut done: bool = false;
        while !done
            invariant
                self.wf(),
                self@.len() == self.klasses.len(),
                left <= self@.len(),
                !done ==> resolve_field(self@, start, name@, desc@, self@.len()) == resolve_field(
                    self@,
                    current,
                    name@,
                    desc@,
                    left as nat,
                ),
                !done ==> found is None,
                !done ==> (current == start && left == self@.len()) || !(known(self@, start)
                    && self@[start - 1].declares(name@, desc@)),
                done ==> found == resolve_field(self@, start, name@, desc@, self@.len()),
                done && found is Some ==> site_declares(self@, found->0, name@, desc@),
                done && known(self@, start) && self@[start - 1].declares(name@, desc@)
                    ==> found is Some && found->0.klass_id == start,
            decreases left + (if done { 0int } else { 1int }),
        {
            if left == 0 || current < 1 || current > self.klasses.len() {
                done = true;
            } else {
                let k = self.lookup_klass_by_id(current);
                match k.find_field(name, desc) {
                    Some(at) => {
                        found = Some(FieldSite { klass_id: current, is_static: false, at });
                        done = true;
                    },
                    None => match k.find_declared_static(name, desc) {
                        Some(at) => {
                            found = Some(FieldSite { klass_id: current, is_static: true, at });
                            done = true;
                        },
                        None => match self.find_klass(k.super_ref()) {
                            Some(parent) => {
                                current = parent;
                                left = left - 1;
                            },
                            None => {
                                done = true;
                            },
                        },
                    },
                }
            }
        }
        found
    }

    /// Whether the class `start` is the class `target` or one of its
    /// subclasses.
    pub fn is_subclass(&self, start: usize, target: usize) -> (b: bool)
        requires
            self.wf(),
        ensures
            b == descends_from(self@, start, target, self@.len()),
    {
        let mut current: usize = start;
        let mut left: usize = self.klasses.len();
        let mut found: bool = false;
        let mut done: bool = false;
        while !done
            invariant
                self.wf(),
                self@.len() == self.klasses.len(),
                left <= self@.len(),
                !done ==> descends_from(self@, start, target, self@.len()) == descends_from(
                    self@,
                    current,
                    target,
                    left as nat,
                ),
                !done ==> !found,
                done ==> found == descends_from(self@, start, target, self@.len()),
            decreases left + (if done { 0int } else { 1int }),
        {
            if left == 0 || current < 1 || current > self.klasses.len() {
                done = true;
            } else if current == target {
                found = true;
                done = true;
            } else {
                let k = self.lookup_klass_by_id(current);
                match self.find_klass(k.super_ref()) {
                    Some(parent) => {
                        current = parent;
                        left = left - 1;
                    },
                    None => {
                        done = true;
                    },
                }
            }
        }
        found
    }

    /// The method that the method reference at `idx` of the pool of the class
    /// `owner` names exactly.
    pub fn find_exact(&self, owner: usize, idx: u16) -> (site: Option<MethodSite>)
        requires
            self.wf(),
        ensures
            site == exact_target(self@, owner, idx),
            site matches Some(s) ==> known(self@, s.klass_id) && s.at < self@[s.klass_id
                - 1].methods.len(),
    {
        if owner < 1 || owner > self.klasses.len() {
            return None;
        }
        let k = self.lookup_klass_by_id(owner);
        let clz = match k.cp_entry(idx) {
            Some(CpEntry::MethodRef { clz_idx, .. }) => *clz_idx,
            _ => {
                return None;
            },
        };
        let klass_name = match k.cp_text(clz) {
            Some(s) => s,
            None => {
                return None;
            },
        };
        let full_name = match k.cp_text(idx) {
            Some(s) => s,
            None => {
                return None;
            },
        };
        let id = match self.find_klass(klass_name.as_str()) {
            Some(id) => id,
            None => {
                return None;
            },
        };
        match self.lookup_klass_by_id(id).find_method(full_name.as_str()) {
            Some(at) => Some(MethodSite { klass_id: id, at }),
            None => None,
        }
    }

    /// Name, `:` and descriptor of the method reference at `idx` of the pool
    /// of the class `owner`.
    pub fn find_method_ref(&self, owner: usize, idx: u16) -> (name_desc: Option<String>)
        requires
            self.wf(),
        ensures
            name_desc matches Some(s) ==> method_ref_name_desc(self@, owner, idx) == Some(s@),
            name_desc is None ==> method_ref_name_desc(self@, owner, idx) is None,
    {
        if owner < 1 || owner > self.klasses.len() {
            return None;
        }
        let k = self.lookup_klass_by_id(owner);
        match k.cp_entry(idx) {
            Some(CpEntry::MethodRef { nt_idx, .. }) => k.cp_text(*nt_idx),
            _ => None,
        }
    }

    /// The field that the field reference at `idx` of the pool of the class
    /// `owner` names.
    pub fn find_field_ref(&self, owner: usize, idx: u16) -> (site: Option<FieldSite>)
        requires
            self.wf(),
        ensures
            site == field_target(self@, owner, idx),
            site matches Some(s) ==> (field_ref_parts(self@, owner, idx) matches Some(parts)
                && site_declares(self@, s, parts.name, parts.desc)),
            site matches Some(s) ==> declared_by_named(self@, owner, idx) ==> self@[s.klass_id
                - 1].name == field_ref_parts(self@, owner, idx)->0.klass_name,
    {
        if owner < 1 || owner > self.klasses.len() {
            return None;
        }
        let k = self.lookup_klass_by_id(owner);
        let (clz, nt) = match k.cp_entry(idx) {
            Some(CpEntry::FieldRef { clz_idx, nt_idx }) => (*clz_idx, *nt_idx),
            _ => {
                return None;
            },
        };
        let (name_idx, type_idx) = match k.cp_entry(nt) {
            Some(CpEntry::NameAndType { name_idx, type_idx }) => (*name_idx, *type_idx),
            _ => {
                return None;
            },
        };
        let klass_name = match k.cp_text(clz) {
            Some(s) => s,
            None => {
                return None;
            },
        };
        let name = match k.cp_text(name_idx) {
            Some(s) => s,
            None => {
                return None;
            },
        };
        let desc = match k.cp_text(type_idx) {
            Some(s) => s,
            None => {
                return None;
            },
        };
        match self.find_klass(klass_name.as_str()) {
            Some(id) => self.find_field(id, name.as_str(), desc.as_str()),
            None => None,
        }
    }

    /// The id of the class that the class entry at `idx` of the pool of the
    /// class `owner` names.
    pub fn find_klass_ref(&self, owner: usize, idx: u16) -> (id: Option<usize>)
        requires
            self.wf(),
        ensures
            id == klass_target(self@, owner, idx),
            id matches Some(i) ==> known(self@, i),
    {
        if owner < 1 || owner > self.klasses.len() {
            return None;
        }
        let k = self.lookup_klass_by_id(owner);
        match k.cp_entry(idx) {
            Some(CpEntry::Class { .. }) => {},
            _ => {
                return None;
            },
        }
        match k.cp_text(idx) {
            Some(klass_name) => self.find_klass(klass_name.as_str()),
            None => None,
        }
    }

    /// The field record at a site.
    pub fn field_at(&self, site: FieldSite) -> (f: &OtField)
        requires
            self.wf(),
            known(self@, site.klass_id),
            site.is_static ==> site.at < self@[site.klass_id - 1].statics.len(),
            !site.is_static ==> site.at < self@[site.klass_id - 1].fields.len(),
        ensures
            f@ == field_at_site(self@, site),
    {
        let k = self.lookup_klass_by_id(site.klass_id);
        if site.is_static {
            k.static_at(site.at)
        } else {
            k.field_at(site.at)
        }
    }

    /// The record of the field that the field reference at `idx` of the pool
    /// of the class `klass_name` names, from the class that declares the
    /// field: the class that the reference names if that declares a field of
    /// the name and descriptor itself, else the nearest of its superclasses
    /// that does.
    pub fn lookup_field(&self, klass_name: String, idx: u16) -> (f: OtField)
        requires
            self.wf(),
            name_index(self@).contains_key(klass_name@),
            field_target(self@, name_index(self@)[klass_name@], idx) is Some,
        ensures
            ({
                let owner = name_index(self@)[klass_name@];
                let site = field_target(self@, owner, idx)->0;
                let parts = field_ref_parts(self@, owner, idx)->0;
                &&& f@ == field_at_site(self@, site)
                &&& f@.name == parts.name
                &&& f@.desc == parts.desc
                &&& f@.klass_name == self@[site.klass_id - 1].name
                &&& f@.fq_name_desc() == f@.klass_name + seq!['.'] + parts.name + seq![':']
                    + parts.desc
                &&& declared_by_named(self@, owner, idx) ==> f@.klass_name == parts.klass_name
            }),
    {
        let owner = match self.find_klass(klass_name.as_str()) {
            Some(id) => id,
            None => vstd::pervasive::unreached(),
        };
        match self.find_field_ref(owner, idx) {
            Some(site) => self.field_at(site).clone(),
            None => vstd::pervasive::unreached(),
        }
    }

    pub fn lookup_method_exact(&self, klass_name: &String, fq_name_desc: String) -> (m: OtMethod)
        requires
            self.wf(),
            name_index(self@).contains_key(klass_name@),
            self@[name_index(self@)[klass_name@] - 1].lookup().contains_key(fq_name_desc@),
        ensures
            ({
                let k = self@[name_index(self@)[klass_name@] - 1];
                m@ == k.methods[k.lookup()[fq_name_desc@] as int]
            }),
            m@.fq_name_desc() == fq_name_desc@,
    {
        match self.find_klass(klass_name.as_str()) {
            Some(id) => self.lookup_klass_by_id(id).get_method_by_name_and_desc(fq_name_desc),
            None => vstd::pervasive::unreached(),
        }
    }

    /// The method that an object of the class `klass_name` answers to when
    /// asked for the method that the reference at `idx` of that class's pool
    /// names.
    pub fn lookup_method_virtual(&self, klass_name: &String, idx: u16) -> (m: OtMethod)
        requires
            self.wf(),
            name_index(self@).contains_key(klass_name@),
            virtual_target(self@, name_index(self@)[klass_name@], idx) is Some,
        ensures
            ({
                let site = virtual_target(self@, name_index(self@)[klass_name@], idx)->0;
                m@ == self@[site.klass_id - 1].methods[site.at as int]
            }),
    {
        let owner = match self.find_klass(klass_name.as_str()) {
            Some(id) => id,
            None => vstd::pervasive::unreached(),
        };
        let name_desc = match self.find_method_ref(owner, idx) {
            Some(s) => s,
            None => vstd::pervasive::unreached(),
        };
        match self.find_virtual(owner, name_desc.as_str()) {
            Some(site) => self.lookup_klass_by_id(site.klass_id).method_at(site.at).clone(),
            None => vstd::pervasive::unreached(),
        }
    }
}

/// The method that an object of the class `owner` answers to when asked for
/// the method that the reference at `idx` of its own pool names.
pub open spec fn virtual_target(klasses: Seq<KlassModel>, owner: usize, idx: u16) -> Option<
    MethodSite,
> {
    match method_ref_name_desc(klasses, owner, idx) {
        Some(name_desc) => resolve_virtual(klasses, owner, name_desc, klasses.len()),
        None => None,
    }
}

/// Replacing a class by one of the same name leaves the map of names as it
/// was.
pub proof fn lemma_name_index_update(klasses: Seq<KlassModel>, at: int, changed: KlassModel)
    requires
        0 <= at < klasses.len(),
        changed.name == klasses[at].name,
    ensures
        name_index(klasses.update(at, changed)) == name_index(klasses),
    decreases klasses.len(),
{
    let after = klasses.update(at, changed);
    if at == klasses.len() - 1 {
        assert(after.drop_last() =~= klasses.drop_last());
    } else {
        lemma_name_index_update(klasses.drop_last(), at, changed);
        assert(after.drop_last() =~= klasses.drop_last().update(at, changed));
    }
}

} // verus!
