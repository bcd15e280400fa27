use vstd::prelude::*;
use crate::focus::FocusArea;
use crate::geometry::Rect;

verus! {

/// `i` is the first place in `entries` that holds `id`.
pub open spec fn is_first_index(entries: Seq<(FocusArea, Rect)>, id: FocusArea, i: int) -> bool {
    &&& 0 <= i < entries.len()
    &&& entries[i].0 == id
    &&& forall|j: int| 0 <= j < i ==> (#[trigger] entries[j]).0 != id
}

/// Some place in `entries` holds `id`.
pub open spec fn is_registered(entries: Seq<(FocusArea, Rect)>, id: FocusArea) -> bool {
    exists|i: int| is_first_index(entries, id, i)
}

/// The first place in `entries` that holds `id`, where one does.
pub open spec fn first_index(entries: Seq<(FocusArea, Rect)>, id: FocusArea) -> int {
    choose|i: int| is_first_index(entries, id, i)
}

/// The rectangle that `entries` holds for `id`.
pub open spec fn lookup(entries: Seq<(FocusArea, Rect)>, id: FocusArea) -> Option<Rect> {
    if is_registered(entries, id) {
        Some(entries[first_index(entries, id)].1)
    } else {
        None
    }
}

/// `entries` after `rect` was registered for `id`: an area that is already
/// there keeps its place and gets the new rectangle, a new one goes last.
pub open spec fn register(entries: Seq<(FocusArea, Rect)>, id: FocusArea, rect: Rect) -> Seq<
    (FocusArea, Rect),
> {
    if is_registered(entries, id) {
        entries.update(first_index(entries, id), (id, rect))
    } else {
        entries.push((id, rect))
    }
}

/// No area occurs twice in `entries`.
pub open spec fn distinct_ids(entries: Seq<(FocusArea, Rect)>) -> bool {
    forall|i: int, j: int|
        0 <= i < j < entries.len() ==> (#[trigger] entries[i]).0 != (#[trigger] entries[j]).0
}

/// At most one place is the first that holds `id`.
pub proof fn lemma_first_index_unique(entries: Seq<(FocusArea, Rect)>, id: FocusArea, i: int, j: int)
    requires
        is_first_index(entries, id, i),
        is_first_index(entries, id, j),
    ensures
        i == j,
{
    if i < j {
        assert(entries[i].0 == id);
    } else if j < i {
        assert(entries[j].0 == id);
    }
}

/// The rectangle at the first place that holds `id` is the one that `lookup` gives.
pub proof fn lemma_lookup_at(entries: Seq<(FocusArea, Rect)>, id: FocusArea, i: int)
    requires
        is_first_index(entries, id, i),
    ensures
        is_registered(entries, id),
        first_index(entries, id) == i,
        lookup(entries, id) == Some(entries[i].1),
{
    lemma_first_index_unique(entries, id, i, first_index(entries, id));
}

/// An area that occurs nowhere in `entries` is not registered.
pub proof fn lemma_absent(entries: Seq<(FocusArea, Rect)>, id: FocusArea)
    requires
        forall|j: int| 0 <= j < entries.len() ==> (#[trigger] entries[j]).0 != id,
    ensures
        !is_registered(entries, id),
        lookup(entries, id) is None,
        forall|rect: Rect| #[trigger] register(entries, id, rect) == entries.push((id, rect)),
{
    if is_registered(entries, id) {
        let k = first_index(entries, id);
        assert(entries[k].0 == id);
    }
}

/// An area that occurs in `entries` has a first place there.
pub proof fn lemma_occurrence_is_registered(entries: Seq<(FocusArea, Rect)>, id: FocusArea, k: int)
    requires
        0 <= k < entries.len(),
        entries[k].0 == id,
    ensures
        is_registered(entries, id),
        first_index(entries, id) <= k,
    decreases k,
{
    if forall|j: int| 0 <= j < k ==> (#[trigger] entries[j]).0 != id {
        assert(is_first_index(entries, id, k));
        lemma_first_index_unique(entries, id, k, first_index(entries, id));
    } else {
        let j = choose|j: int| 0 <= j < k && (#[trigger] entries[j]).0 == id;
        lemma_occurrence_is_registered(entries, id, j);
    }
}

/// After `register`, the area is found with the new rectangle, and every
/// other area is found as before.
pub proof fn lemma_register_then_lookup(
    entries: Seq<(FocusArea, Rect)>,
    id: FocusArea,
    rect: Rect,
    other: FocusArea,
)
    ensures
        lookup(register(entries, id, rect), id) == Some(rect),
        other != id ==> lookup(register(entries, id, rect), other) == lookup(entries, other),
{
    let after = register(entries, id, rect);
    if is_registered(entries, id) {
        let i = first_index(entries, id);
        assert(is_first_index(after, id, i)) by {
            assert forall|j: int| 0 <= j < i implies (#[trigger] after[j]).0 != id by {
                assert(entries[j].0 != id);
            }
        }
        lemma_first_index_unique(after, id, i, first_index(after, id));
    } else {
        let i = entries.len() as int;
        assert(is_first_index(after, id, i)) by {
            assert forall|j: int| 0 <= j < i implies (#[trigger] after[j]).0 != id by {
                if entries[j].0 == id {
                    lemma_occurrence_is_registered(entries, id, j);
                }
            }
        }
        lemma_first_index_unique(after, id, i, first_index(after, id));
    }
    if other != id {
        if is_registered(entries, other) {
            let k = first_index(entries, other);
            assert(is_first_index(after, other, k)) by {
                assert(after[k] == entries[k]);
                assert forall|j: int| 0 <= j < k implies (#[trigger] after[j]).0 != other by {
                    assert(entries[j].0 != other);
                }
            }
            lemma_first_index_unique(after, other, k, first_index(after, other));
        } else if is_registered(after, other) {
            let k = first_index(after, other);
            assert(after[k].0 == other);
            assert(k < entries.len() && entries[k].0 == other);
            lemma_occurrence_is_registered(entries, other, k);
        }
    }
}

/// `register` keeps the areas distinct.
pub proof fn lemma_register_keeps_distinct(
    entries: Seq<(FocusArea, Rect)>,
    id: FocusArea,
    rect: Rect,
)
    requires
        distinct_ids(entries),
    ensures
        distinct_ids(register(entries, id, rect)),
{
    let after = register(entries, id, rect);
    if is_registered(entries, id) {
        let k = first_index(entries, id);
        assert forall|i: int, j: int| 0 <= i < j < after.len() implies (#[trigger] after[i]).0 != (
        #[trigger] after[j]).0 by {
            assert(after[i].0 == entries[i].0);
            assert(after[j].0 == entries[j].0);
        }
    } else {
        assert forall|i: int, j: int| 0 <= i < j < after.len() implies (#[trigger] after[i]).0 != (
        #[trigger] after[j]).0 by {
            if j == entries.len() {
                if entries[i].0 == id {
                    lemma_occurrence_is_registered(entries, id, i);
                }
            } else {
                assert(after[i].0 == entries[i].0);
                assert(after[j].0 == entries[j].0);
            }
        }
    }
}

/// Nothing is found in an empty registry, whatever it held before, and an
/// area is found again once it is registered anew.
pub proof fn lemma_empty_holds_nothing(id: FocusArea, rect: Rect)
    ensures
        lookup(Seq::<(FocusArea, Rect)>::empty(), id) == None::<Rect>,
        lookup(register(Seq::<(FocusArea, Rect)>::empty(), id, rect), id) == Some(rect),
{
    lemma_register_then_lookup(Seq::<(FocusArea, Rect)>::empty(), id, rect, id);
}

/// For each area that the last frame drew, the rectangle it was drawn in.
///
/// The areas are kept in the order in which they were first registered, and
/// every walk over the registry goes in that order.
#[derive(Debug, Clone)]
pub struct GeometryRegistry {
    entries: Vec<(FocusArea, Rect)>,
}

impl View for GeometryRegistry {
    type V = Seq<(FocusArea, Rect)>;

    closed spec fn view(&self) -> Seq<(FocusArea, Rect)> {
        self.entries@
    }
}

impl GeometryRegistry {
    /// No area is registered twice.
    pub open spec fn wf(&self) -> bool {
        distinct_ids(self@)
    }

    pub fn new() -> (registry: GeometryRegistry)
        ensures
            registry@ == Seq::<(FocusArea, Rect)>::empty(),
            registry.wf(),
    {
        GeometryRegistry { entries: Vec::new() }
    }

    /// Forgets every area.
    pub fn clear(&mut self)
        ensures
            final(self)@ == Seq::<(FocusArea, Rect)>::empty(),
            forall|id: FocusArea| lookup(final(self)@, id) is None,
            final(self).wf(),
    {
        self.entries.clear();
    }

    /// The number of areas registered.
    pub fn len(&self) -> (n: usize)
        ensures
            n == self@.len(),
    {
        self.entries.len()
    }

    /// The area and rectangle at place `i` of the registration order.
    pub fn entry(&self, i: usize) -> (entry: Option<(FocusArea, Rect)>)
        ensures
            entry == if i < self@.len() {
                Some(self@[i as int])
            } else {
                None
            },
    {
        if i < self.entries.len() {
            Some(self.entries[i])
        } else {
            None
        }
    }

    /// The place of `id` in the registration order.
    pub fn position(&self, id: FocusArea) -> (found: Option<usize>)
        ensures
            match found {
                Some(i) => is_first_index(self@, id, i as int),
                None => !is_registered(self@, id),
            },
    {
        let mut i: usize = 0;
        while i < self.entries.len()
            invariant
                i <= self.entries@.len(),
                forall|j: int| 0 <= j < i ==> (#[trigger] self.entries@[j]).0 != id,
            decreases self.entries@.len() - i,
        {
            if self.entries[i].0 == id {
                return Some(i);
            }
            i += 1;
        }
        proof {
            lemma_absent(self@, id);
        }
        None
    }

    /// The rectangle registered for `id`.
    pub fn lookup(&self, id: FocusArea) -> (rect: Option<Rect>)
        ensures
            rect == lookup(self@, id),
    {
        match self.position(id) {
            Some(i) => {
                proof {
                    lemma_lookup_at(self@, id, i as int);
                }
                Some(self.entries[i].1)
            },
            None => None,
        }
    }

    /// Registers `rect` for `id`, in place of what was registered for it.
    pub fn register(&mut self, id: FocusArea, rect: Rect)
        ensures
            final(self)@ == register(old(self)@, id, rect),
            old(self).wf() ==> final(self).wf(),
    {
        proof {
            if old(self).wf() {
                lemma_register_keeps_distinct(old(self)@, id, rect);
            }
        }
        match self.position(id) {
            Some(i) => {
                proof {
                    lemma_lookup_at(self@, id, i as int);
                }
                self.entries.set(i, (id, rect));
            },
            None => {
                self.entries.push((id, rect));
            },
        }
    }
}

} // verus!
