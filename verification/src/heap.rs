use vstd::prelude::*;
use crate::otfield::default_value;
use crate::otklass::{KlassModel, OtKlass};
use crate::value::JvmValue;

verus! {

/// An object on the heap: an instance of a class, with one slot for each
/// field of its layout, or an array, whose elements have the type of the
/// descriptor letter `elem` (`'A'` for references).
#[derive(Debug)]
pub enum OtObj {
    Instance { klass_id: usize, slots: Vec<JvmValue> },
    Array { elem: char, slots: Vec<JvmValue> },
}

/// A heap object as a mathematical value.
pub enum ObjModel {
    Instance { klass_id: usize, slots: Seq<JvmValue> },
    Array { elem: char, slots: Seq<JvmValue> },
}

impl ObjModel {
    pub open spec fn slots(self) -> Seq<JvmValue> {
        match self {
            ObjModel::Instance { slots, .. } => slots,
            ObjModel::Array { slots, .. } => slots,
        }
    }

    /// The same object with `val` in slot `at`.
    pub open spec fn with_slot(self, at: int, val: JvmValue) -> ObjModel {
        match self {
            ObjModel::Instance { klass_id, slots } => ObjModel::Instance {
                klass_id,
                slots: slots.update(at, val),
            },
            ObjModel::Array { elem, slots } => ObjModel::Array {
                elem,
                slots: slots.update(at, val),
            },
        }
    }
}

impl View for OtObj {
    type V = ObjModel;

    open spec fn view(&self) -> ObjModel {
        match *self {
            OtObj::Instance { klass_id, slots } => ObjModel::Instance { klass_id, slots: slots@ },
            OtObj::Array { elem, slots } => ObjModel::Array { elem, slots: slots@ },
        }
    }
}

impl OtObj {
    /// A new instance of the class with id `klass_id`.
    pub fn of(klass_id: usize, slots: Vec<JvmValue>) -> (o: OtObj)
        ensures
            o@ == (ObjModel::Instance { klass_id, slots: slots@ }),
    {
        OtObj::Instance { klass_id, slots }
    }

    pub fn is_array(&self) -> (b: bool)
        ensures
            b == (self@ is Array),
    {
        match self {
            OtObj::Array { .. } => true,
            OtObj::Instance { .. } => false,
        }
    }

    /// The number of slots: of fields for an instance, of elements for an
    /// array.
    pub fn length(&self) -> (n: usize)
        ensures
            n == self@.slots().len(),
    {
        match self {
            OtObj::Instance { slots, .. } => slots.len(),
            OtObj::Array { slots, .. } => slots.len(),
        }
    }

    /// The id of the object's class; an array has none.
    pub fn klass_id(&self) -> (id: Option<usize>)
        ensures
            id == (match self@ {
                ObjModel::Instance { klass_id, .. } => Some(klass_id),
                ObjModel::Array { .. } => None,
            }),
    {
        match self {
            OtObj::Instance { klass_id, .. } => Some(*klass_id),
            OtObj::Array { .. } => None,
        }
    }

    /// The type of the elements; an instance has none.
    pub fn elem(&self) -> (e: Option<char>)
        ensures
            e == (match self@ {
                ObjModel::Instance { .. } => None,
                ObjModel::Array { elem, .. } => Some(elem),
            }),
    {
        match self {
            OtObj::Instance { .. } => None,
            OtObj::Array { elem, .. } => Some(*elem),
        }
    }

    pub fn get_slot(&self, at: usize) -> (v: JvmValue)
        requires
            at < self@.slots().len(),
        ensures
            v == self@.slots()[at as int],
    {
        match self {
            OtObj::Instance { slots, .. } => slots[at],
            OtObj::Array { slots, .. } => slots[at],
        }
    }

    pub fn put_slot(&mut self, at: usize, val: JvmValue)
        requires
            at < old(self)@.slots().len(),
        ensures
            final(self)@ == old(self)@.with_slot(at as int, val),
    {
        match self {
            OtObj::Instance { slots, .. } => {
                slots[at] = val;
            },
            OtObj::Array { slots, .. } => {
                slots[at] = val;
            },
        }
    }
}

/// The objects as mathematical values, in the order they were made.
pub open spec fn object_models(objects: Seq<OtObj>) -> Seq<ObjModel> {
    objects.map_values(|o: OtObj| o@)
}

/// The default of an array element whose type has the descriptor letter
/// `elem`.
pub open spec fn element_default(elem: char) -> JvmValue {
    default_value(seq![elem])
}

/// `len` slots that all hold the default of `elem`.
pub open spec fn array_slots(elem: char, len: int) -> Seq<JvmValue> {
    Seq::new(len as nat, |i: int| element_default(elem))
}

/// Whether `r` refers to an object of a heap that holds `objects`: the
/// reference `n` is the `n`-th object made; 0 is null.
pub open spec fn live(objects: Seq<ObjModel>, r: u64) -> bool {
    1 <= r <= objects.len()
}

/// The object that the live reference `r` refers to.
pub open spec fn target(objects: Seq<ObjModel>, r: u64) -> ObjModel {
    objects[r - 1]
}

/// Whether `r` is a fresh reference of the heap `after`, which was `before`:
/// it is not null and was not live, it is live now, and every reference that
/// was live is another one, is live still and leads to the object it led to.
pub open spec fn is_fresh(before: Seq<ObjModel>, after: Seq<ObjModel>, r: u64) -> bool {
    &&& r != 0
    &&& !live(before, r)
    &&& live(after, r)
    &&& forall|earlier: u64| #[trigger]
        live(before, earlier) ==> earlier != r && live(after, earlier) && target(after, earlier)
            == target(before, earlier)
}

/// Whether `o` is an instance of the class `k` as it is when it is made: it
/// carries the class's id, and has one slot for each field of the class's
/// layout, which holds that field's default. Where a field stands in the
/// layout at the place that is its offset, the slot at its offset holds its
/// default.
pub open spec fn is_new_instance(k: KlassModel, o: ObjModel) -> bool {
    &&& o is Instance
    &&& o->klass_id == k.id
    &&& o.slots().len() == k.fields.len()
    &&& forall|j: int|
        0 <= j < k.fields.len() ==> o.slots()[j] == (#[trigger] k.fields[j]).default()
    &&& forall|j: int|
        0 <= j < k.fields.len() && (#[trigger] k.fields[j]).offset == j
            ==> o.slots()[k.fields[j].offset as int] == k.fields[j].default()
}

/// A store of objects that only grows: nothing is ever taken out or moved.
pub struct SharedSimpleHeap {
    objects: Vec<OtObj>,
}

impl View for SharedSimpleHeap {
    type V = Seq<ObjModel>;

    closed spec fn view(&self) -> Seq<ObjModel> {
        object_models(self.objects@)
    }
}

pub fn default_of_element(elem: char) -> (v: JvmValue)
    ensures
        v == element_default(elem),
{
    assert(seq![elem][0] == elem);
    match elem {
        'Z' => JvmValue::Boolean { val: false },
        'B' => JvmValue::Byte { val: 0 },
        'S' => JvmValue::Short { val: 0 },
        'C' => JvmValue::Char { val: 0 },
        'I' => JvmValue::Int { val: 0 },
        'J' => JvmValue::Long { val: 0 },
        'F' => JvmValue::Float { val: 0 },
        'D' => JvmValue::Double { val: 0 },
        _ => JvmValue::ObjRef { val: 0 },
    }
}

impl SharedSimpleHeap {
    pub fn of() -> (h: SharedSimpleHeap)
        ensures
            h@ == Seq::<ObjModel>::empty(),
    {
        let h = SharedSimpleHeap { objects: Vec::new() };
        h
    }

    /// The number of objects made so far.
    pub fn len(&self) -> (n: usize)
        ensures
            n == self@.len(),
    {
        self.objects.len()
    }

    /// Whether one more object can be given a reference.
    pub fn has_room(&self) -> (b: bool)
        ensures
            b == (self@.len() < usize::MAX),
    {
        self.objects.len() < usize::MAX
    }

    pub fn is_live(&self, r: u64) -> (b: bool)
        ensures
            b == live(self@, r),
    {
        1 <= r && r <= self.objects.len() as u64
    }

    fn add(&mut self, obj: OtObj) -> (r: u64)
        ensures
            r == old(self)@.len() + 1,
            final(self)@ == old(self)@.push(obj@),
            is_fresh(old(self)@, final(self)@, r),
    {
        self.objects.push(obj);
        self.objects.len() as u64
    }

    /// Makes an instance of `klass`: it carries the id of the class and has
    /// one slot for each field of the class's layout, which holds that field's
    /// default. The reference returned is not null and is one that no earlier
    /// call returned: it was not live before, and every reference that was
    /// live is live still and leads to the object it led to.
    pub fn allocate_obj(&mut self, klass: &OtKlass) -> (r: u64)
        ensures
            r == old(self)@.len() + 1,
            is_fresh(old(self)@, final(self)@, r),
            final(self)@ == old(self)@.push(
                ObjModel::Instance { klass_id: klass@.id, slots: klass@.instance_defaults() },
            ),
            is_new_instance(klass@, target(final(self)@, r)),
    {
        let klassid = klass.get_id();
        self.add(OtObj::of(klassid, klass.instance_defaults()))
    }

    /// Makes an array of `len` elements of the type `elem`, each holding that
    /// type's default. The reference returned is fresh.
    pub fn allocate_array(&mut self, elem: char, len: i32) -> (r: u64)
        requires
            len >= 0,
        ensures
            r == old(self)@.len() + 1,
            is_fresh(old(self)@, final(self)@, r),
            final(self)@ == old(self)@.push(
                ObjModel::Array { elem, slots: array_slots(elem, len as int) },
            ),
    {
        let fill = default_of_element(elem);
        let mut slots: Vec<JvmValue> = Vec::new();
        let mut i: i32 = 0;
        while i < len
            invariant
                0 <= i <= len,
                fill == element_default(elem),
                slots@ == array_slots(elem, i as int),
            decreases len - i,
        {
            slots.push(fill);
            assert(slots@ =~= array_slots(elem, i + 1));
            i = i + 1;
        }
        self.add(OtObj::Array { elem, slots })
    }

    /// Makes an array of the type `elem` that holds `slots`. The reference
    /// returned is fresh.
    pub fn allocate_filled(&mut self, elem: char, slots: Vec<JvmValue>) -> (r: u64)
        ensures
            r == old(self)@.len() + 1,
            is_fresh(old(self)@, final(self)@, r),
            final(self)@ == old(self)@.push(ObjModel::Array { elem, slots: slots@ }),
    {
        self.add(OtObj::Array { elem, slots })
    }

    pub fn allocate_int_arr(&mut self, size: i32) -> (r: u64)
        requires
            size >= 0,
        ensures
            r == old(self)@.len() + 1,
            is_fresh(old(self)@, final(self)@, r),
            final(self)@ == old(self)@.push(
                ObjModel::Array { elem: 'I', slots: array_slots('I', size as int) },
            ),
    {
        self.allocate_array('I', size)
    }

    /// The object that `r` refers to.
    pub fn deref(&self, r: u64) -> (o: &OtObj)
        requires
            live(self@, r),
        ensures
            o@ == target(self@, r),
    {
        assert(self@.len() == self.objects.len());
        let i = (r - 1) as usize;
        &self.objects[i]
    }

    /// Stores `val` in slot `at` of the object that `r` refers to.
    pub fn put_slot(&mut self, r: u64, at: usize, val: JvmValue)
        requires
            live(old(self)@, r),
            at < target(old(self)@, r).slots().len(),
        ensures
            final(self)@ == old(self)@.update(
                r - 1,
                target(old(self)@, r).with_slot(at as int, val),
            ),
    {
        assert(self@.len() == self.objects.len());
        let i = (r - 1) as usize;
        self.objects[i].put_slot(at, val);
    }
}

/// A reference that a heap gives out for a new object is fresh.
pub proof fn lemma_fresh_reference(before: Seq<ObjModel>, made: ObjModel, r: u64)
    requires
        r == before.len() + 1,
    ensures
        is_fresh(before, before.push(made), r),
        target(before.push(made), r) == made,
{
}

/// A new instance is made of the defaults of its class's fields.
pub proof fn lemma_new_instance(k: KlassModel)
    ensures
        is_new_instance(k, ObjModel::Instance { klass_id: k.id, slots: k.instance_defaults() }),
{
}

/// A heap never gives out a reference twice. In a history of the states of a
/// heap, none of which holds fewer objects than the one before, the
/// reference that an allocation in the state `i` gives out is live in every
/// later state, and is not the one that an allocation in such a state gives
/// out.
pub proof fn lemma_never_given_twice(history: Seq<Seq<ObjModel>>, i: int, j: int)
    requires
        forall|a: int, b: int|
            0 <= a <= b < history.len() ==> (#[trigger] history[a]).len() <= (
            #[trigger] history[b]).len(),
        0 <= i < j < history.len(),
        history[i + 1].len() == history[i].len() + 1,
    ensures
        1 <= history[i].len() + 1 <= history[j].len(),
        history[i].len() + 1 != history[j].len() + 1,
{
    assert(history[i + 1].len() <= history[j].len());
}

} // verus!
