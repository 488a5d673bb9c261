use std::marker::PhantomData;
use vstd::prelude::*;
use vstd::view::View as AbstractView;

pub mod tuples;

use crate::storage::component::{contains_type, Component, ComponentTypeId};

verus! {

/// A type that names the filter a query over it applies by default.
pub trait DefaultFilter {
    type Filter;
}

/// A type which can pull entity data out of a world.
pub trait View<'data>: DefaultFilter + Sized {
    type Element: Send + Sync;
    /// The fetch type yielded for each archetype.
    type Fetch: Fetch + IntoIndexableIter<Item = Self::Element> + 'data;

    /// Determines if this view type is valid: whether its accesses to
    /// component data can coexist.
    fn validate() -> bool;

    /// The component types that the view reads.
    fn reads_types() -> Vec<ComponentTypeId>;

    /// The component types that the view writes.
    fn writes_types() -> Vec<ComponentTypeId>;

    /// Determines if the view reads the specified data type.
    fn reads<T: Component>() -> bool;

    /// Determines if the view writes to the specified data type.
    fn writes<T: Component>() -> bool;
}

/// A type that can be turned into an iterator over its items by position.
pub trait IntoIndexableIter {
    type Item: Send + Sync;
    type IntoIter: Send + Sync;

    fn into_indexable_iter(self) -> Self::IntoIter;
}

/// A type which holds onto a slice of entity data retrieved from a single archetype.
pub trait Fetch: IntoIndexableIter + Send + Sync {
    type Data;

    /// Converts the fetch into the retrieved component slices.
    fn into_components(self) -> Self::Data;

    /// Tries to find a slice of components, if this fetch contains the
    /// requested component type.
    fn find<T: 'static>(&self) -> Option<&[T]>;

    /// Tries to find a mutable slice of components, if this fetch contains
    /// the requested component type.
    fn find_mut<T: 'static>(&mut self) -> Option<&mut [T]>;

    /// Tries to find the component slice version of a component,
    /// if this fetch contains the requested component type.
    fn version<T: Component>(&self) -> Option<u64>;

    /// Indicates that the archetype is going to be provided to the user.
    /// Component slice versions are incremented here.
    fn accepted(&mut self);
}

/// A fetch which only retrieves shared references to component data.
pub trait ReadOnlyFetch: Fetch {
    fn get_components(&self) -> Self::Data;
}

/// A marker trait which marks types which only perform data reads.
pub trait ReadOnly {}

impl<'a, T> ReadOnly for &'a T {}

impl<'a, T> ReadOnly for Option<&'a T> {}

/// The fetches of the views of a tuple, held together.
pub struct MultiFetch<'a, T> {
    fetches: T,
    _phantom: PhantomData<&'a T>,
}

impl<'a, T> MultiFetch<'a, T> {
    /// The fetches held.
    pub closed spec fn fetches(&self) -> T {
        self.fetches
    }

    /// The multi-fetch that holds `fetches`.
    pub closed spec fn holding(fetches: T) -> Self {
        MultiFetch { fetches, _phantom: PhantomData }
    }

    /// A multi-fetch made of some fetches holds exactly those.
    pub proof fn lemma_holding(fetches: T)
        ensures
            Self::holding(fetches).fetches() == fetches,
    {
    }
}

impl<'a, T> From<T> for MultiFetch<'a, T> {
    fn from(value: T) -> (fetch: Self) {
        Self { fetches: value, _phantom: PhantomData }
    }
}

impl<'a, T> vstd::std_specs::convert::FromSpecImpl<T> for MultiFetch<'a, T> {
    open spec fn obeys_from_spec() -> bool {
        true
    }

    open spec fn from_spec(value: T) -> Self {
        MultiFetch::<'a, T>::holding(value)
    }
}

/// No view writes a component type that another view of the same tuple reads:
/// `reads[j]` and `writes[i]` are what the views at `j` and `i` access.
pub open spec fn conflict_free(reads: Seq<Seq<ComponentTypeId>>, writes: Seq<Seq<ComponentTypeId>>) -> bool {
    forall|i: int, j: int, k: int|
        #![trigger reads[j].contains(writes[i][k])]
        0 <= i < writes.len() && 0 <= j < reads.len() && i != j && 0 <= k < writes[i].len()
            ==> !reads[j].contains(writes[i][k])
}

/// The contents of each of `lists`.
pub open spec fn type_lists(lists: Seq<Vec<ComponentTypeId>>) -> Seq<Seq<ComponentTypeId>> {
    lists.map_values(|list: Vec<ComponentTypeId>| list@)
}

/// The lists of `lists`, one after the other.
pub fn concat_types(lists: Vec<Vec<ComponentTypeId>>) -> (types: Vec<ComponentTypeId>)
    ensures
        types@ == type_lists(lists@).flatten(),
{
    let mut types: Vec<ComponentTypeId> = Vec::new();
    let mut i: usize = 0;
    while i < lists.len()
        invariant
            i <= lists@.len(),
            types@ == type_lists(lists@.take(i as int)).flatten(),
        decreases lists@.len() - i,
    {
        let mut next = lists[i].clone();
        assert(next@ == lists@[i as int]@);
        types.append(&mut next);
        proof {
            let done = type_lists(lists@.take(i as int));
            assert(type_lists(lists@.take(i + 1)) =~= done.push(lists@[i as int]@));
            done.lemma_flatten_push(lists@[i as int]@);
        }
        i = i + 1;
    }
    assert(lists@.take(lists@.len() as int) =~= lists@);
    types
}

/// Whether no view writes a component type that another view reads, where
/// `reads[j]` and `writes[j]` are what the `j`-th view of a tuple accesses.
pub fn accesses_conflict_free(reads: &Vec<Vec<ComponentTypeId>>, writes: &Vec<Vec<ComponentTypeId>>) -> (free: bool)
    ensures
        free == conflict_free(type_lists(reads@), type_lists(writes@)),
{
    let ghost r = type_lists(reads@);
    let ghost w = type_lists(writes@);
    let mut i: usize = 0;
    while i < writes.len()
        invariant
            r == type_lists(reads@),
            w == type_lists(writes@),
            i <= writes@.len(),
            forall|i2: int, j: int, k: int|
                #![trigger r[j].contains(w[i2][k])]
                0 <= i2 < i && 0 <= j < r.len() && i2 != j && 0 <= k < w[i2].len()
                    ==> !r[j].contains(w[i2][k]),
        decreases writes@.len() - i,
    {
        let written = &writes[i];
        let mut j: usize = 0;
        while j < reads.len()
            invariant
                r == type_lists(reads@),
                w == type_lists(writes@),
                i < writes@.len(),
                *written == writes@[i as int],
                j <= reads@.len(),
                forall|i2: int, j2: int, k: int|
                    #![trigger r[j2].contains(w[i2][k])]
                    0 <= i2 < i && 0 <= j2 < r.len() && i2 != j2 && 0 <= k < w[i2].len()
                        ==> !r[j2].contains(w[i2][k]),
                forall|j2: int, k: int|
                    #![trigger r[j2].contains(w[i as int][k])]
                    0 <= j2 < j && i != j2 && 0 <= k < w[i as int].len()
                        ==> !r[j2].contains(w[i as int][k]),
            decreases reads@.len() - j,
        {
            if i != j {
                let other_reads = &reads[j];
                let mut k: usize = 0;
                while k < written.len()
                    invariant
                        r == type_lists(reads@),
                        w == type_lists(writes@),
                        i < writes@.len(),
                        j < reads@.len(),
                        i != j,
                        *written == writes@[i as int],
                        *other_reads == reads@[j as int],
                        k <= written@.len(),
                        forall|k2: int|
                            #![trigger r[j as int].contains(w[i as int][k2])]
                            0 <= k2 < k ==> !r[j as int].contains(w[i as int][k2]),
                    decreases written@.len() - k,
                {
                    if contains_type(other_reads.as_slice(), &written[k]) {
                        assert(r[j as int].contains(w[i as int][k as int]));
                        return false;
                    }
                    k = k + 1;
                }
            }
            j = j + 1;
        }
        i = i + 1;
    }
    true
}

/// A view alone in a tuple never conflicts: a single view is valid whatever
/// it reads and writes.
pub proof fn law_single_view_is_valid(reads: Seq<ComponentTypeId>, writes: Seq<ComponentTypeId>)
    ensures
        conflict_free(seq![reads], seq![writes]),
{
}

/// Two views can coexist exactly when neither writes a component type that
/// the other reads.
pub proof fn law_pair_valid_iff_no_cross_access(
    reads_a: Seq<ComponentTypeId>,
    writes_a: Seq<ComponentTypeId>,
    reads_b: Seq<ComponentTypeId>,
    writes_b: Seq<ComponentTypeId>,
)
    ensures
        conflict_free(seq![reads_a, reads_b], seq![writes_a, writes_b]) <==> (forall|id: ComponentTypeId|
            #![trigger writes_a.contains(id)]
            #![trigger writes_b.contains(id)]
            (writes_a.contains(id) ==> !reads_b.contains(id))
            && (writes_b.contains(id) ==> !reads_a.contains(id))),
{
    let r = seq![reads_a, reads_b];
    let w = seq![writes_a, writes_b];
    if conflict_free(r, w) {
        assert forall|id: ComponentTypeId|
            #![trigger writes_a.contains(id)]
            #![trigger writes_b.contains(id)]
            (writes_a.contains(id) ==> !reads_b.contains(id))
            && (writes_b.contains(id) ==> !reads_a.contains(id)) by {
            if writes_a.contains(id) {
                let k = choose|k: int| 0 <= k < w[0].len() && w[0][k] == id;
                assert(!r[1].contains(w[0][k]));
            }
            if writes_b.contains(id) {
                let k = choose|k: int| 0 <= k < w[1].len() && w[1][k] == id;
                assert(!r[0].contains(w[1][k]));
            }
        }
    } else {
        let (i, j, k) = choose|i: int, j: int, k: int|
            #![trigger r[j].contains(w[i][k])]
            0 <= i < w.len() && 0 <= j < r.len() && i != j && 0 <= k < w[i].len()
                && r[j].contains(w[i][k]);
        let id = w[i][k];
        if i == 0 {
            assert(writes_a.contains(id));
        } else {
            assert(writes_b.contains(id));
        }
    }
}

/// Whether two views can coexist does not depend on their order.
pub proof fn law_pair_validity_ignores_order(
    reads_a: Seq<ComponentTypeId>,
    writes_a: Seq<ComponentTypeId>,
    reads_b: Seq<ComponentTypeId>,
    writes_b: Seq<ComponentTypeId>,
)
    ensures
        conflict_free(seq![reads_a, reads_b], seq![writes_a, writes_b]) == conflict_free(
            seq![reads_b, reads_a],
            seq![writes_b, writes_a],
        ),
{
    law_pair_valid_iff_no_cross_access(reads_a, writes_a, reads_b, writes_b);
    law_pair_valid_iff_no_cross_access(reads_b, writes_b, reads_a, writes_a);
}

} // verus!
