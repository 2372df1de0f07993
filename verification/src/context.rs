use vstd::prelude::*;
use crate::heap::{array_slots, is_fresh, is_new_instance, target, ObjModel, SharedSimpleHeap};
use crate::klass_repo::SharedKlassRepo;
use crate::otklass::{KlassModel, OtKlass};

verus! {

/// What the running methods of one machine share: the classes and the
/// objects.
pub struct VmContext {
    heap: SharedSimpleHeap,
    repo: SharedKlassRepo,
}

/// The shared state as a mathematical value.
pub struct ContextModel {
    pub klasses: Seq<KlassModel>,
    pub objects: Seq<ObjModel>,
}

impl View for VmContext {
    type V = ContextModel;

    closed spec fn view(&self) -> ContextModel {
        ContextModel { klasses: self.repo@, objects: self.heap@ }
    }
}

impl VmContext {
    pub closed spec fn wf(&self) -> bool {
        self.repo.wf()
    }

    /// An empty heap and a repository without classes.
    pub fn of() -> (c: VmContext)
        ensures
            c.wf(),
            c@ == (ContextModel { klasses: Seq::empty(), objects: Seq::empty() }),
    {
        VmContext { heap: SharedSimpleHeap::of(), repo: SharedKlassRepo::of() }
    }

    /// A context over the given classes and objects.
    pub fn with(repo: SharedKlassRepo, heap: SharedSimpleHeap) -> (c: VmContext)
        requires
            repo.wf(),
        ensures
            c.wf(),
            c@ == (ContextModel { klasses: repo@, objects: heap@ }),
    {
        VmContext { heap, repo }
    }

    /// Gives up the classes and the objects.
    pub fn into_parts(self) -> (parts: (SharedKlassRepo, SharedSimpleHeap))
        requires
            self.wf(),
        ensures
            parts.0.wf(),
            parts.0@ == self@.klasses,
            parts.1@ == self@.objects,
    {
        (self.repo, self.heap)
    }

    pub fn get_repo(&self) -> (repo: &SharedKlassRepo)
        requires
            self.wf(),
        ensures
            repo.wf(),
            repo@ == self@.klasses,
    {
        &self.repo
    }

    pub fn get_heap(&mut self) -> (heap: &mut SharedSimpleHeap)
        ensures
            heap@ == old(self)@.objects,
            final(self)@ == (ContextModel { objects: final(heap)@, ..old(self)@ }),
            old(self).wf() ==> final(self).wf(),
    {
        &mut self.heap
    }

    /// The heap, to read from.
    pub fn heap(&self) -> (heap: &SharedSimpleHeap)
        ensures
            heap@ == self@.objects,
    {
        &self.heap
    }

    /// Takes a class into the repository.
    pub fn add_klass(&mut self, k: OtKlass)
        requires
            old(self).wf(),
            k.wf(),
            old(self)@.klasses.len() < usize::MAX,
        ensures
            final(self).wf(),
            final(self)@ == (ContextModel {
                klasses: old(self)@.klasses.push(
                    KlassModel { id: (old(self)@.klasses.len() + 1) as usize, ..k@ },
                ),
                ..old(self)@
            }),
    {
        self.repo.add_klass(k);
    }

    pub fn allocate_obj(&mut self, klass: &OtKlass) -> (r: u64)
        ensures
            r == old(self)@.objects.len() + 1,
            is_fresh(old(self)@.objects, final(self)@.objects, r),
            is_new_instance(klass@, target(final(self)@.objects, r)),
            final(self)@ == (ContextModel {
                objects: old(self)@.objects.push(
                    ObjModel::Instance { klass_id: klass@.id, slots: klass@.instance_defaults() },
                ),
                ..old(self)@
            }),
            old(self).wf() ==> final(self).wf(),
    {
        self.heap.allocate_obj(klass)
    }

    pub fn allocate_int_arr(&mut self, size: i32) -> (r: u64)
        requires
            size >= 0,
        ensures
            r == old(self)@.objects.len() + 1,
            is_fresh(old(self)@.objects, final(self)@.objects, r),
            final(self)@ == (ContextModel {
                objects: old(self)@.objects.push(
                    ObjModel::Array { elem: 'I', slots: array_slots('I', size as int) },
                ),
                ..old(self)@
            }),
            old(self).wf() ==> final(self).wf(),
    {
        self.heap.allocate_int_arr(size)
    }
}

} // verus!
