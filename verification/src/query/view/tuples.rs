use vstd::prelude::*;
use vstd::view::View as AbstractView;

use super::{
    accesses_conflict_free, concat_types, conflict_free, type_lists, DefaultFilter, Fetch,
    IntoIndexableIter, MultiFetch, ReadOnlyFetch, View,
};
use crate::storage::component::{Component, ComponentTypeId};

verus! {

// The views and fetches of a tuple are called as function values, so that each
// result is known to be one that the view or fetch can give (`call_ensures`).

// Tuples of 1 view.

impl<A: DefaultFilter> DefaultFilter for (A,) {
    type Filter = (A::Filter,);
}

impl<'a, A: View<'a> + 'a> View<'a> for (A,) {
    type Element = <Self::Fetch as IntoIndexableIter>::Item;
    type Fetch = MultiFetch<'a, (A::Fetch,)>;

    fn validate() -> (valid: bool)
        ensures
            exists|reads: Seq<Vec<ComponentTypeId>>, writes: Seq<Vec<ComponentTypeId>>|
                reads.len() == 1 && writes.len() == 1
                && call_ensures(A::reads_types, (), reads[0])
                && call_ensures(A::writes_types, (), writes[0])
                && valid == conflict_free(type_lists(reads), type_lists(writes)),
    {
        let reads = vec![(A::reads_types)()];
        let writes = vec![(A::writes_types)()];
        let valid = accesses_conflict_free(&reads, &writes);
        assert(
            reads@.len() == 1 && writes@.len() == 1
            && call_ensures(A::reads_types, (), reads@[0])
            && call_ensures(A::writes_types, (), writes@[0])
            && valid == conflict_free(type_lists(reads@), type_lists(writes@))
        );
        valid
    }

    fn reads_types() -> (types: Vec<ComponentTypeId>)
        ensures
            exists|lists: Seq<Vec<ComponentTypeId>>|
                lists.len() == 1
                && call_ensures(A::reads_types, (), lists[0])
                && types@ == type_lists(lists).flatten(),
    {
        let lists = vec![(A::reads_types)()];
        let ghost views = lists@;
        let types = concat_types(lists);
        assert(
            views.len() == 1
            && call_ensures(A::reads_types, (), views[0])
            && types@ == type_lists(views).flatten()
        );
        types
    }

    fn writes_types() -> (types: Vec<ComponentTypeId>)
        ensures
            exists|lists: Seq<Vec<ComponentTypeId>>|
                lists.len() == 1
                && call_ensures(A::writes_types, (), lists[0])
                && types@ == type_lists(lists).flatten(),
    {
        let lists = vec![(A::writes_types)()];
        let ghost views = lists@;
        let types = concat_types(lists);
        assert(
            views.len() == 1
            && call_ensures(A::writes_types, (), views[0])
            && types@ == type_lists(views).flatten()
        );
        types
    }

    fn reads<Comp: Component>() -> bool {
        tuple1_reads::<'a, A, Comp>()
    }

    fn writes<Comp: Component>() -> bool {
        tuple1_writes::<'a, A, Comp>()
    }
}

impl<'a, A: Fetch> IntoIndexableIter for MultiFetch<'a, (A,)> {
    type Item = (A::Item,);
    type IntoIter = (A::IntoIter,);

    fn into_indexable_iter(self) -> (iter: Self::IntoIter)
        ensures
            call_ensures(A::into_indexable_iter, (self.fetches().0,), iter.0),
    {
        let (a,) = self.fetches;
        ((A::into_indexable_iter)(a),)
    }
}

impl<'a, A: Fetch> Fetch for MultiFetch<'a, (A,)> {
    type Data = (A::Data,);

    fn into_components(self) -> (data: Self::Data)
        ensures
            call_ensures(A::into_components, (self.fetches().0,), data.0),
    {
        let (a,) = self.fetches;
        ((A::into_components)(a),)
    }

    fn find<Comp: 'static>(&self) -> Option<&[Comp]> {
        tuple1_find::<A, Comp>(&self.fetches)
    }

    fn find_mut<Comp: 'static>(&mut self) -> Option<&mut [Comp]> {
        tuple1_find_mut::<A, Comp>(&mut self.fetches)
    }

    fn version<Comp: Component>(&self) -> Option<u64> {
        tuple1_version::<A, Comp>(&self.fetches)
    }

    fn accepted(&mut self)
        ensures
            exists|m: &mut A|
                *m == old(self).fetches().0 && *final(m) == final(self).fetches().0
                && call_ensures(A::accepted, (m,), ()),
    {
        let (a,) = &mut self.fetches;
        (A::accepted)(a);
    }
}

impl<'a, A: ReadOnlyFetch> ReadOnlyFetch for MultiFetch<'a, (A,)> {
    fn get_components(&self) -> (data: Self::Data)
        ensures
            call_ensures(A::get_components, (&self.fetches().0,), data.0),
    {
        let (a,) = &self.fetches;
        ((A::get_components)(a),)
    }
}

/// Whether some view of a tuple of 1 reads `Comp`, asking the views in order.
pub fn tuple1_reads<'a, A: View<'a> + 'a, Comp: Component>() -> (found: bool)
    ensures
        call_ensures(A::reads::<Comp>, (), found),
{
    (A::reads::<Comp>)()
}

/// Whether some view of a tuple of 1 writes `Comp`, asking the views in order.
pub fn tuple1_writes<'a, A: View<'a> + 'a, Comp: Component>() -> (found: bool)
    ensures
        call_ensures(A::writes::<Comp>, (), found),
{
    (A::writes::<Comp>)()
}

/// The slice of the first fetch of a tuple of 1 that holds `Comp`.
pub fn tuple1_find<'f, A: Fetch, Comp: 'static>(fetches: &'f (A,)) -> (found: Option<&'f [Comp]>)
    ensures
        call_ensures(A::find::<Comp>, (&fetches.0,), found),
{
    let (a,) = fetches;
    (A::find::<Comp>)(a)
}

/// The mutable slice of the first fetch of a tuple of 1 that holds `Comp`.
pub fn tuple1_find_mut<'f, A: Fetch, Comp: 'static>(fetches: &'f mut (A,)) -> (found: Option<&'f mut [Comp]>)
    ensures
        exists|m: &mut A|
            *m == old(fetches).0
            && *final(m) == final(fetches).0
            && call_ensures(A::find_mut::<Comp>, (m,), found),
{
    (A::find_mut::<Comp>)(&mut fetches.0)
}

/// The version of `Comp` in the first fetch of a tuple of 1 that holds it.
pub fn tuple1_version<A: Fetch, Comp: Component>(fetches: &(A,)) -> (version: Option<u64>)
    ensures
        call_ensures(A::version::<Comp>, (&fetches.0,), version),
{
    let (a,) = fetches;
    (A::version::<Comp>)(a)
}

// Tuples of 2 views.

impl<A: DefaultFilter, B: DefaultFilter> DefaultFilter for (A, B) {
    type Filter = (A::Filter, B::Filter);
}

impl<'a, A: View<'a> + 'a, B: View<'a> + 'a> View<'a> for (A, B) {
    type Element = <Self::Fetch as IntoIndexableIter>::Item;
    type Fetch = MultiFetch<'a, (A::Fetch, B::Fetch)>;

    fn validate() -> (valid: bool)
        ensures
            exists|reads: Seq<Vec<ComponentTypeId>>, writes: Seq<Vec<ComponentTypeId>>|
                reads.len() == 2 && writes.len() == 2
                && call_ensures(A::reads_types, (), reads[0])
                && call_ensures(A::writes_types, (), writes[0])
                && call_ensures(B::reads_types, (), reads[1])
                && call_ensures(B::writes_types, (), writes[1])
                && valid == conflict_free(type_lists(reads), type_lists(writes)),
    {
        let reads = vec![(A::reads_types)(), (B::reads_types)()];
        let writes = vec![(A::writes_types)(), (B::writes_types)()];
        let valid = accesses_conflict_free(&reads, &writes);
        assert(
            reads@.len() == 2 && writes@.len() == 2
            && call_ensures(A::reads_types, (), reads@[0])
            && call_ensures(A::writes_types, (), writes@[0])
            && call_ensures(B::reads_types, (), reads@[1])
            && call_ensures(B::writes_types, (), writes@[1])
            && valid == conflict_free(type_lists(reads@), type_lists(writes@))
        );
        valid
    }

    fn reads_types() -> (types: Vec<ComponentTypeId>)
        ensures
            exists|lists: Seq<Vec<ComponentTypeId>>|
                lists.len() == 2
                && call_ensures(A::reads_types, (), lists[0])
                && call_ensures(B::reads_types, (), lists[1])
                && types@ == type_lists(lists).flatten(),
    {
        let lists = vec![(A::reads_types)(), (B::reads_types)()];
        let ghost views = lists@;
        let types = concat_types(lists);
        assert(
            views.len() == 2
            && call_ensures(A::reads_types, (), views[0])
            && call_ensures(B::reads_types, (), views[1])
            && types@ == type_lists(views).flatten()
        );
        types
    }

    fn writes_types() -> (types: Vec<ComponentTypeId>)
        ensures
            exists|lists: Seq<Vec<ComponentTypeId>>|
                lists.len() == 2
                && call_ensures(A::writes_types, (), lists[0])
                && call_ensures(B::writes_types, (), lists[1])
                && types@ == type_lists(lists).flatten(),
    {
        let lists = vec![(A::writes_types)(), (B::writes_types)()];
        let ghost views = lists@;
        let types = concat_types(lists);
        assert(
            views.len() == 2
            && call_ensures(A::writes_types, (), views[0])
            && call_ensures(B::writes_types, (), views[1])
            && types@ == type_lists(views).flatten()
        );
        types
    }

    fn reads<Comp: Component>() -> bool {
        tuple2_reads::<'a, A, B, Comp>()
    }

    fn writes<Comp: Component>() -> bool {
        tuple2_writes::<'a, A, B, Comp>()
    }
}

impl<'a, A: Fetch, B: Fetch> IntoIndexableIter for MultiFetch<'a, (A, B)> {
    type Item = (A::Item, B::Item);
    type IntoIter = (A::IntoIter, B::IntoIter);

    fn into_indexable_iter(self) -> (iter: Self::IntoIter)
        ensures
            call_ensures(A::into_indexable_iter, (self.fetches().0,), iter.0),
            call_ensures(B::into_indexable_iter, (self.fetches().1,), iter.1),
    {
        let (a, b) = self.fetches;
        ((A::into_indexable_iter)(a), (B::into_indexable_iter)(b))
    }
}

impl<'a, A: Fetch, B: Fetch> Fetch for MultiFetch<'a, (A, B)> {
    type Data = (A::Data, B::Data);

    fn into_components(self) -> (data: Self::Data)
        ensures
            call_ensures(A::into_components, (self.fetches().0,), data.0),
            call_ensures(B::into_components, (self.fetches().1,), data.1),
    {
        let (a, b) = self.fetches;
        ((A::into_components)(a), (B::into_components)(b))
    }

    fn find<Comp: 'static>(&self) -> Option<&[Comp]> {
        tuple2_find::<A, B, Comp>(&self.fetches)
    }

    fn find_mut<Comp: 'static>(&mut self) -> Option<&mut [Comp]> {
        tuple2_find_mut::<A, B, Comp>(&mut self.fetches)
    }

    fn version<Comp: Component>(&self) -> Option<u64> {
        tuple2_version::<A, B, Comp>(&self.fetches)
    }

    fn accepted(&mut self)
        ensures
            exists|m: &mut A|
                *m == old(self).fetches().0 && *final(m) == final(self).fetches().0
                && call_ensures(A::accepted, (m,), ()),
            exists|m: &mut B|
                *m == old(self).fetches().1 && *final(m) == final(self).fetches().1
                && call_ensures(B::accepted, (m,), ()),
    {
        let (a, b) = &mut self.fetches;
        (A::accepted)(a);
        (B::accepted)(b);
    }
}

impl<'a, A: ReadOnlyFetch, B: ReadOnlyFetch> ReadOnlyFetch for MultiFetch<'a, (A, B)> {
    fn get_components(&self) -> (data: Self::Data)
        ensures
            call_ensures(A::get_components, (&self.fetches().0,), data.0),
            call_ensures(B::get_components, (&self.fetches().1,), data.1),
    {
        let (a, b) = &self.fetches;
        ((A::get_components)(a), (B::get_components)(b))
    }
}

/// Whether some view of a tuple of 2 reads `Comp`, asking the views in order.
pub fn tuple2_reads<'a, A: View<'a> + 'a, B: View<'a> + 'a, Comp: Component>() -> (found: bool)
    ensures
        (found && call_ensures(A::reads::<Comp>, (), true))
        || (call_ensures(A::reads::<Comp>, (), false) && (
            call_ensures(B::reads::<Comp>, (), found))),
{
    (A::reads::<Comp>)()
        || (B::reads::<Comp>)()
}

/// Whether some view of a tuple of 2 writes `Comp`, asking the views in order.
pub fn tuple2_writes<'a, A: View<'a> + 'a, B: View<'a> + 'a, Comp: Component>() -> (found: bool)
    ensures
        (found && call_ensures(A::writes::<Comp>, (), true))
        || (call_ensures(A::writes::<Comp>, (), false) && (
            call_ensures(B::writes::<Comp>, (), found))),
{
    (A::writes::<Comp>)()
        || (B::writes::<Comp>)()
}

/// The slice of the first fetch of a tuple of 2 that holds `Comp`.
pub fn tuple2_find<'f, A: Fetch, B: Fetch, Comp: 'static>(fetches: &'f (A, B)) -> (found: Option<&'f [Comp]>)
    ensures
        (found is Some && call_ensures(A::find::<Comp>, (&fetches.0,), found))
        || (call_ensures(A::find::<Comp>, (&fetches.0,), None) && (
            call_ensures(B::find::<Comp>, (&fetches.1,), found))),
{
    let (a, b) = fetches;
    if let Some(slice) = (A::find::<Comp>)(a) {
        return Some(slice);
    }
    (B::find::<Comp>)(b)
}

/// The mutable slice of the first fetch of a tuple of 2 that holds `Comp`.
pub fn tuple2_find_mut<'f, A: Fetch, B: Fetch, Comp: 'static>(fetches: &'f mut (A, B)) -> (found: Option<&'f mut [Comp]>)
    ensures
        exists|m: &mut A|
            *m == old(fetches).0
            && *final(m) == final(fetches).0
            && ((found is Some && call_ensures(A::find_mut::<Comp>, (m,), found) && final(fetches).1 == old(fetches).1)
            || (call_ensures(A::find_mut::<Comp>, (m,), None) && (
                exists|m: &mut B|
                    *m == old(fetches).1
                    && *final(m) == final(fetches).1
                    && call_ensures(B::find_mut::<Comp>, (m,), found)))),
{
    let found = (A::find_mut::<Comp>)(&mut fetches.0);
    if found.is_some() {
        return found;
    }
    (B::find_mut::<Comp>)(&mut fetches.1)
}

/// The version of `Comp` in the first fetch of a tuple of 2 that holds it.
pub fn tuple2_version<A: Fetch, B: Fetch, Comp: Component>(fetches: &(A, B)) -> (version: Option<u64>)
    ensures
        (version is Some && call_ensures(A::version::<Comp>, (&fetches.0,), version))
        || (call_ensures(A::version::<Comp>, (&fetches.0,), None) && (
            call_ensures(B::version::<Comp>, (&fetches.1,), version))),
{
    let (a, b) = fetches;
    if let Some(version) = (A::version::<Comp>)(a) {
        return Some(version);
    }
    (B::version::<Comp>)(b)
}

// Tuples of 3 views.

impl<A: DefaultFilter, B: DefaultFilter, C: DefaultFilter> DefaultFilter for (A, B, C) {
    type Filter = (A::Filter, B::Filter, C::Filter);
}

impl<'a, A: View<'a> + 'a, B: View<'a> + 'a, C: View<'a> + 'a> View<'a> for (A, B, C) {
    type Element = <Self::Fetch as IntoIndexableIter>::Item;
    type Fetch = MultiFetch<'a, (A::Fetch, B::Fetch, C::Fetch)>;

    fn validate() -> (valid: bool)
        ensures
            exists|reads: Seq<Vec<ComponentTypeId>>, writes: Seq<Vec<ComponentTypeId>>|
                reads.len() == 3 && writes.len() == 3
                && call_ensures(A::reads_types, (), reads[0])
                && call_ensures(A::writes_types, (), writes[0])
                && call_ensures(B::reads_types, (), reads[1])
                && call_ensures(B::writes_types, (), writes[1])
                && call_ensures(C::reads_types, (), reads[2])
                && call_ensures(C::writes_types, (), writes[2])
                && valid == conflict_free(type_lists(reads), type_lists(writes)),
    {
        let reads = vec![(A::reads_types)(), (B::reads_types)(), (C::reads_types)()];
        let writes = vec![(A::writes_types)(), (B::writes_types)(), (C::writes_types)()];
        let valid = accesses_conflict_free(&reads, &writes);
        assert(
            reads@.len() == 3 && writes@.len() == 3
            && call_ensures(A::reads_types, (), reads@[0])
            && call_ensures(A::writes_types, (), writes@[0])
            && call_ensures(B::reads_types, (), reads@[1])
            && call_ensures(B::writes_types, (), writes@[1])
            && call_ensures(C::reads_types, (), reads@[2])
            && call_ensures(C::writes_types, (), writes@[2])
            && valid == conflict_free(type_lists(reads@), type_lists(writes@))
        );
        valid
    }

    fn reads_types() -> (types: Vec<ComponentTypeId>)
        ensures
            exists|lists: Seq<Vec<ComponentTypeId>>|
                lists.len() == 3
                && call_ensures(A::reads_types, (), lists[0])
                && call_ensures(B::reads_types, (), lists[1])
                && call_ensures(C::reads_types, (), lists[2])
                && types@ == type_lists(lists).flatten(),
    {
        let lists = vec![(A::reads_types)(), (B::reads_types)(), (C::reads_types)()];
        let ghost views = lists@;
        let types = concat_types(lists);
        assert(
            views.len() == 3
            && call_ensures(A::reads_types, (), views[0])
            && call_ensures(B::reads_types, (), views[1])
            && call_ensures(C::reads_types, (), views[2])
            && types@ == type_lists(views).flatten()
        );
        types
    }

    fn writes_types() -> (types: Vec<ComponentTypeId>)
        ensures
            exists|lists: Seq<Vec<ComponentTypeId>>|
                lists.len() == 3
                && call_ensures(A::writes_types, (), lists[0])
                && call_ensures(B::writes_types, (), lists[1])
                && call_ensures(C::writes_types, (), lists[2])
                && types@ == type_lists(lists).flatten(),
    {
        let lists = vec![(A::writes_types)(), (B::writes_types)(), (C::writes_types)()];
        let ghost views = lists@;
        let types = concat_types(lists);
        assert(
            views.len() == 3
            && call_ensures(A::writes_types, (), views[0])
            && call_ensures(B::writes_types, (), views[1])
            && call_ensures(C::writes_types, (), views[2])
            && types@ == type_lists(views).flatten()
        );
        types
    }

    fn reads<Comp: Component>() -> bool {
        tuple3_reads::<'a, A, B, C, Comp>()
    }

    fn writes<Comp: Component>() -> bool {
        tuple3_writes::<'a, A, B, C, Comp>()
    }
}

impl<'a, A: Fetch, B: Fetch, C: Fetch> IntoIndexableIter for MultiFetch<'a, (A, B, C)> {
    type Item = (A::Item, B::Item, C::Item);
    type IntoIter = (A::IntoIter, B::IntoIter, C::IntoIter);

    fn into_indexable_iter(self) -> (iter: Self::IntoIter)
        ensures
            call_ensures(A::into_indexable_iter, (self.fetches().0,), iter.0),
            call_ensures(B::into_indexable_iter, (self.fetches().1,), iter.1),
            call_ensures(C::into_indexable_iter, (self.fetches().2,), iter.2),
    {
        let (a, b, c) = self.fetches;
        ((A::into_indexable_iter)(a), (B::into_indexable_iter)(b), (C::into_indexable_iter)(c))
    }
}

impl<'a, A: Fetch, B: Fetch, C: Fetch> Fetch for MultiFetch<'a, (A, B, C)> {
    type Data = (A::Data, B::Data, C::Data);

    fn into_components(self) -> (data: Self::Data)
        ensures
            call_ensures(A::into_components, (self.fetches().0,), data.0),
            call_ensures(B::into_components, (self.fetches().1,), data.1),
            call_ensures(C::into_components, (self.fetches().2,), data.2),
    {
        let (a, b, c) = self.fetches;
        ((A::into_components)(a), (B::into_components)(b), (C::into_components)(c))
    }

    fn find<Comp: 'static>(&self) -> Option<&[Comp]> {
        tuple3_find::<A, B, C, Comp>(&self.fetches)
    }

    fn find_mut<Comp: 'static>(&mut self) -> Option<&mut [Comp]> {
        tuple3_find_mut::<A, B, C, Comp>(&mut self.fetches)
    }

    fn version<Comp: Component>(&self) -> Option<u64> {
        tuple3_version::<A, B, C, Comp>(&self.fetches)
    }

    fn accepted(&mut self)
        ensures
            exists|m: &mut A|
                *m == old(self).fetches().0 && *final(m) == final(self).fetches().0
                && call_ensures(A::accepted, (m,), ()),
            exists|m: &mut B|
                *m == old(self).fetches().1 && *final(m) == final(self).fetches().1
                && call_ensures(B::accepted, (m,), ()),
            exists|m: &mut C|
                *m == old(self).fetches().2 && *final(m) == final(self).fetches().2
                && call_ensures(C::accepted, (m,), ()),
    {
        let (a, b, c) = &mut self.fetches;
        (A::accepted)(a);
        (B::accepted)(b);
        (C::accepted)(c);
    }
}

impl<'a, A: ReadOnlyFetch, B: ReadOnlyFetch, C: ReadOnlyFetch> ReadOnlyFetch for MultiFetch<'a, (A, B, C)> {
    fn get_components(&self) -> (data: Self::Data)
        ensures
            call_ensures(A::get_components, (&self.fetches().0,), data.0),
            call_ensures(B::get_components, (&self.fetches().1,), data.1),
            call_ensures(C::get_components, (&self.fetches().2,), data.2),
    {
        let (a, b, c) = &self.fetches;
        ((A::get_components)(a), (B::get_components)(b), (C::get_components)(c))
    }
}

/// Whether some view of a tuple of 3 reads `Comp`, asking the views in order.
pub fn tuple3_reads<'a, A: View<'a> + 'a, B: View<'a> + 'a, C: View<'a> + 'a, Comp: Component>() -> (found: bool)
    ensures
        (found && call_ensures(A::reads::<Comp>, (), true))
        || (call_ensures(A::reads::<Comp>, (), false) && (
            (found && call_ensures(B::reads::<Comp>, (), true))
            || (call_ensures(B::reads::<Comp>, (), false) && (
                call_ensures(C::reads::<Comp>, (), found))))),
{
    (A::reads::<Comp>)()
        || (B::reads::<Comp>)()
        || (C::reads::<Comp>)()
}

/// Whether some view of a tuple of 3 writes `Comp`, asking the views in order.
pub fn tuple3_writes<'a, A: View<'a> + 'a, B: View<'a> + 'a, C: View<'a> + 'a, Comp: Component>() -> (found: bool)
    ensures
        (found && call_ensures(A::writes::<Comp>, (), true))
        || (call_ensures(A::writes::<Comp>, (), false) && (
            (found && call_ensures(B::writes::<Comp>, (), true))
            || (call_ensures(B::writes::<Comp>, (), false) && (
                call_ensures(C::writes::<Comp>, (), found))))),
{
    (A::writes::<Comp>)()
        || (B::writes::<Comp>)()
        || (C::writes::<Comp>)()
}

/// The slice of the first fetch of a tuple of 3 that holds `Comp`.
pub fn tuple3_find<'f, A: Fetch, B: Fetch, C: Fetch, Comp: 'static>(fetches: &'f (A, B, C)) -> (found: Option<&'f [Comp]>)
    ensures
        (found is Some && call_ensures(A::find::<Comp>, (&fetches.0,), found))
        || (call_ensures(A::find::<Comp>, (&fetches.0,), None) && (
            (found is Some && call_ensures(B::find::<Comp>, (&fetches.1,), found))
            || (call_ensures(B::find::<Comp>, (&fetches.1,), None) && (
                call_ensures(C::find::<Comp>, (&fetches.2,), found))))),
{
    let (a, b, c) = fetches;
    if let Some(slice) = (A::find::<Comp>)(a) {
        return Some(slice);
    }
    if let Some(slice) = (B::find::<Comp>)(b) {
        return Some(slice);
    }
    (C::find::<Comp>)(c)
}

/// The mutable slice of the first fetch of a tuple of 3 that holds `Comp`.
pub fn tuple3_find_mut<'f, A: Fetch, B: Fetch, C: Fetch, Comp: 'static>(fetches: &'f mut (A, B, C)) -> (found: Option<&'f mut [Comp]>)
    ensures
        exists|m: &mut A|
            *m == old(fetches).0
            && *final(m) == final(fetches).0
            && ((found is Some && call_ensures(A::find_mut::<Comp>, (m,), found) && final(fetches).1 == old(fetches).1 && final(fetches).2 == old(fetches).2)
            || (call_ensures(A::find_mut::<Comp>, (m,), None) && (
                exists|m: &mut B|
                    *m == old(fetches).1
                    && *final(m) == final(fetches).1
                    && ((found is Some && call_ensures(B::find_mut::<Comp>, (m,), found) && final(fetches).2 == old(fetches).2)
                    || (call_ensures(B::find_mut::<Comp>, (m,), None) && (
                        exists|m: &mut C|
                            *m == old(fetches).2
                            && *final(m) == final(fetches).2
                            && call_ensures(C::find_mut::<Comp>, (m,), found))))))),
{
    let found = (A::find_mut::<Comp>)(&mut fetches.0);
    if found.is_some() {
        return found;
    }
    let found = (B::find_mut::<Comp>)(&mut fetches.1);
    if found.is_some() {
        return found;
    }
    (C::find_mut::<Comp>)(&mut fetches.2)
}

/// The version of `Comp` in the first fetch of a tuple of 3 that holds it.
pub fn tuple3_version<A: Fetch, B: Fetch, C: Fetch, Comp: Component>(fetches: &(A, B, C)) -> (version: Option<u64>)
    ensures
        (version is Some && call_ensures(A::version::<Comp>, (&fetches.0,), version))
        || (call_ensures(A::version::<Comp>, (&fetches.0,), None) && (
            (version is Some && call_ensures(B::version::<Comp>, (&fetches.1,), version))
            || (call_ensures(B::version::<Comp>, (&fetches.1,), None) && (
                call_ensures(C::version::<Comp>, (&fetches.2,), version))))),
{
    let (a, b, c) = fetches;
    if let Some(version) = (A::version::<Comp>)(a) {
        return Some(version);
    }
    if let Some(version) = (B::version::<Comp>)(b) {
        return Some(version);
    }
    (C::version::<Comp>)(c)
}

// Tuples of 4 views.

impl<A: DefaultFilter, B: DefaultFilter, C: DefaultFilter, D: DefaultFilter> DefaultFilter for (A, B, C, D) {
    type Filter = (A::Filter, B::Filter, C::Filter, D::Filter);
}

impl<'a, A: View<'a> + 'a, B: View<'a> + 'a, C: View<'a> + 'a, D: View<'a> + 'a> View<'a> for (A, B, C, D) {
    type Element = <Self::Fetch as IntoIndexableIter>::Item;
    type Fetch = MultiFetch<'a, (A::Fetch, B::Fetch, C::Fetch, D::Fetch)>;

    fn validate() -> (valid: bool)
        ensures
            exists|reads: Seq<Vec<ComponentTypeId>>, writes: Seq<Vec<ComponentTypeId>>|
                reads.len() == 4 && writes.len() == 4
                && call_ensures(A::reads_types, (), reads[0])
                && call_ensures(A::writes_types, (), writes[0])
                && call_ensures(B::reads_types, (), reads[1])
                && call_ensures(B::writes_types, (), writes[1])
                && call_ensures(C::reads_types, (), reads[2])
                && call_ensures(C::writes_types, (), writes[2])
                && call_ensures(D::reads_types, (), reads[3])
                && call_ensures(D::writes_types, (), writes[3])
                && valid == conflict_free(type_lists(reads), type_lists(writes)),
    {
        let reads = vec![(A::reads_types)(), (B::reads_types)(), (C::reads_types)(), (D::reads_types)()];
        let writes = vec![(A::writes_types)(), (B::writes_types)(), (C::writes_types)(), (D::writes_types)()];
        let valid = accesses_conflict_free(&reads, &writes);
        assert(
            reads@.len() == 4 && writes@.len() == 4
            && call_ensures(A::reads_types, (), reads@[0])
            && call_ensures(A::writes_types, (), writes@[0])
            && call_ensures(B::reads_types, (), reads@[1])
            && call_ensures(B::writes_types, (), writes@[1])
            && call_ensures(C::reads_types, (), reads@[2])
            && call_ensures(C::writes_types, (), writes@[2])
            && call_ensures(D::reads_types, (), reads@[3])
            && call_ensures(D::writes_types, (), writes@[3])
            && valid == conflict_free(type_lists(reads@), type_lists(writes@))
        );
        valid
    }

    fn reads_types() -> (types: Vec<ComponentTypeId>)
        ensures
            exists|lists: Seq<Vec<ComponentTypeId>>|
                lists.len() == 4
                && call_ensures(A::reads_types, (), lists[0])
                && call_ensures(B::reads_types, (), lists[1])
                && call_ensures(C::reads_types, (), lists[2])
                && call_ensures(D::reads_types, (), lists[3])
                && types@ == type_lists(lists).flatten(),
    {
        let lists = vec![(A::reads_types)(), (B::reads_types)(), (C::reads_types)(), (D::reads_types)()];
        let ghost views = lists@;
        let types = concat_types(lists);
        assert(
            views.len() == 4
            && call_ensures(A::reads_types, (), views[0])
            && call_ensures(B::reads_types, (), views[1])
            && call_ensures(C::reads_types, (), views[2])
            && call_ensures(D::reads_types, (), views[3])
            && types@ == type_lists(views).flatten()
        );
        types
    }

    fn writes_types() -> (types: Vec<ComponentTypeId>)
        ensures
            exists|lists: Seq<Vec<ComponentTypeId>>|
                lists.len() == 4
                && call_ensures(A::writes_types, (), lists[0])
                && call_ensures(B::writes_types, (), lists[1])
                && call_ensures(C::writes_types, (), lists[2])
                && call_ensures(D::writes_types, (), lists[3])
                && types@ == type_lists(lists).flatten(),
    {
        let lists = vec![(A::writes_types)(), (B::writes_types)(), (C::writes_types)(), (D::writes_types)()];
        let ghost views = lists@;
        let types = concat_types(lists);
        assert(
            views.len() == 4
            && call_ensures(A::writes_types, (), views[0])
            && call_ensures(B::writes_types, (), views[1])
            && call_ensures(C::writes_types, (), views[2])
            && call_ensures(D::writes_types, (), views[3])
            && types@ == type_lists(views).flatten()
        );
        types
    }

    fn reads<Comp: Component>() -> bool {
        tuple4_reads::<'a, A, B, C, D, Comp>()
    }

    fn writes<Comp: Component>() -> bool {
        tuple4_writes::<'a, A, B, C, D, Comp>()
    }
}

impl<'a, A: Fetch, B: Fetch, C: Fetch, D: Fetch> IntoIndexableIter for MultiFetch<'a, (A, B, C, D)> {
    type Item = (A::Item, B::Item, C::Item, D::Item);
    type IntoIter = (A::IntoIter, B::IntoIter, C::IntoIter, D::IntoIter);

    fn into_indexable_iter(self) -> (iter: Self::IntoIter)
        ensures
            call_ensures(A::into_indexable_iter, (self.fetches().0,), iter.0),
            call_ensures(B::into_indexable_iter, (self.fetches().1,), iter.1),
            call_ensures(C::into_indexable_iter, (self.fetches().2,), iter.2),
            call_ensures(D::into_indexable_iter, (self.fetches().3,), iter.3),
    {
        let (a, b, c, d) = self.fetches;
        ((A::into_indexable_iter)(a), (B::into_indexable_iter)(b), (C::into_indexable_iter)(c), (D::into_indexable_iter)(d))
    }
}

impl<'a, A: Fetch, B: Fetch, C: Fetch, D: Fetch> Fetch for MultiFetch<'a, (A, B, C, D)> {
    type Data = (A::Data, B::Data, C::Data, D::Data);

    fn into_components(self) -> (data: Self::Data)
        ensures
            call_ensures(A::into_components, (self.fetches().0,), data.0),
            call_ensures(B::into_components, (self.fetches().1,), data.1),
            call_ensures(C::into_components, (self.fetches().2,), data.2),
            call_ensures(D::into_components, (self.fetches().3,), data.3),
    {
        let (a, b, c, d) = self.fetches;
        ((A::into_components)(a), (B::into_components)(b), (C::into_components)(c), (D::into_components)(d))
    }

    fn find<Comp: 'static>(&self) -> Option<&[Comp]> {
        tuple4_find::<A, B, C, D, Comp>(&self.fetches)
    }

    fn find_mut<Comp: 'static>(&mut self) -> Option<&mut [Comp]> {
        tuple4_find_mut::<A, B, C, D, Comp>(&mut self.fetches)
    }

    fn version<Comp: Component>(&self) -> Option<u64> {
        tuple4_version::<A, B, C, D, Comp>(&self.fetches)
    }

    fn accepted(&mut self)
        ensures
            exists|m: &mut A|
                *m == old(self).fetches().0 && *final(m) == final(self).fetches().0
                && call_ensures(A::accepted, (m,), ()),
            exists|m: &mut B|
                *m == old(self).fetches().1 && *final(m) == final(self).fetches().1
                && call_ensures(B::accepted, (m,), ()),
            exists|m: &mut C|
                *m == old(self).fetches().2 && *final(m) == final(self).fetches().2
                && call_ensures(C::accepted, (m,), ()),
            exists|m: &mut D|
                *m == old(self).fetches().3 && *final(m) == final(self).fetches().3
                && call_ensures(D::accepted, (m,), ()),
    {
        let (a, b, c, d) = &mut self.fetches;
        (A::accepted)(a);
        (B::accepted)(b);
        (C::accepted)(c);
        (D::accepted)(d);
    }
}

impl<'a, A: ReadOnlyFetch, B: ReadOnlyFetch, C: ReadOnlyFetch, D: ReadOnlyFetch> ReadOnlyFetch for MultiFetch<'a, (A, B, C, D)> {
    fn get_components(&self) -> (data: Self::Data)
        ensures
            call_ensures(A::get_components, (&self.fetches().0,), data.0),
            call_ensures(B::get_components, (&self.fetches().1,), data.1),
            call_ensures(C::get_components, (&self.fetches().2,), data.2),
            call_ensures(D::get_components, (&self.fetches().3,), data.3),
    {
        let (a, b, c, d) = &self.fetches;
        ((A::get_components)(a), (B::get_components)(b), (C::get_components)(c), (D::get_components)(d))
    }
}

/// Whether some view of a tuple of 4 reads `Comp`, asking the views in order.
pub fn tuple4_reads<'a, A: View<'a> + 'a, B: View<'a> + 'a, C: View<'a> + 'a, D: View<'a> + 'a, Comp: Component>() -> (found: bool)
    ensures
        (found && call_ensures(A::reads::<Comp>, (), true))
        || (call_ensures(A::reads::<Comp>, (), false) && (
            (found && call_ensures(B::reads::<Comp>, (), true))
            || (call_ensures(B::reads::<Comp>, (), false) && (
                (found && call_ensures(C::reads::<Comp>, (), true))
                || (call_ensures(C::reads::<Comp>, (), false) && (
                    call_ensures(D::reads::<Comp>, (), found))))))),
{
    (A::reads::<Comp>)()
        || (B::reads::<Comp>)()
        || (C::reads::<Comp>)()
        || (D::reads::<Comp>)()
}

/// Whether some view of a tuple of 4 writes `Comp`, asking the views in order.
pub fn tuple4_writes<'a, A: View<'a> + 'a, B: View<'a> + 'a, C: View<'a> + 'a, D: View<'a> + 'a, Comp: Component>() -> (found: bool)
    ensures
        (found && call_ensures(A::writes::<Comp>, (), true))
        || (call_ensures(A::writes::<Comp>, (), false) && (
            (found && call_ensures(B::writes::<Comp>, (), true))
            || (call_ensures(B::writes::<Comp>, (), false) && (
                (found && call_ensures(C::writes::<Comp>, (), true))
                || (call_ensures(C::writes::<Comp>, (), false) && (
                    call_ensures(D::writes::<Comp>, (), found))))))),
{
    (A::writes::<Comp>)()
        || (B::writes::<Comp>)()
        || (C::writes::<Comp>)()
        || (D::writes::<Comp>)()
}

/// The slice of the first fetch of a tuple of 4 that holds `Comp`.
pub fn tuple4_find<'f, A: Fetch, B: Fetch, C: Fetch, D: Fetch, Comp: 'static>(fetches: &'f (A, B, C, D)) -> (found: Option<&'f [Comp]>)
    ensures
        (found is Some && call_ensures(A::find::<Comp>, (&fetches.0,), found))
        || (call_ensures(A::find::<Comp>, (&fetches.0,), None) && (
            (found is Some && call_ensures(B::find::<Comp>, (&fetches.1,), found))
            || (call_ensures(B::find::<Comp>, (&fetches.1,), None) && (
                (found is Some && call_ensures(C::find::<Comp>, (&fetches.2,), found))
                || (call_ensures(C::find::<Comp>, (&fetches.2,), None) && (
                    call_ensures(D::find::<Comp>, (&fetches.3,), found))))))),
{
    let (a, b, c, d) = fetches;
    if let Some(slice) = (A::find::<Comp>)(a) {
        return Some(slice);
    }
    if let Some(slice) = (B::find::<Comp>)(b) {
        return Some(slice);
    }
    if let Some(slice) = (C::find::<Comp>)(c) {
        return Some(slice);
    }
    (D::find::<Comp>)(d)
}

/// The mutable slice of the first fetch of a tuple of 4 that holds `Comp`.
pub fn tuple4_find_mut<'f, A: Fetch, B: Fetch, C: Fetch, D: Fetch, Comp: 'static>(fetches: &'f mut (A, B, C, D)) -> (found: Option<&'f mut [Comp]>)
    ensures
        exists|m: &mut A|
            *m == old(fetches).0
            && *final(m) == final(fetches).0
            && ((found is Some && call_ensures(A::find_mut::<Comp>, (m,), found) && final(fetches).1 == old(fetches).1 && final(fetches).2 == old(fetches).2 && final(fetches).3 == old(fetches).3)
            || (call_ensures(A::find_mut::<Comp>, (m,), None) && (
                exists|m: &mut B|
                    *m == old(fetches).1
                    && *final(m) == final(fetches).1
                    && ((found is Some && call_ensures(B::find_mut::<Comp>, (m,), found) && final(fetches).2 == old(fetches).2 && final(fetches).3 == old(fetches).3)
                    || (call_ensures(B::find_mut::<Comp>, (m,), None) && (
                        exists|m: &mut C|
                            *m == old(fetches).2
                            && *final(m) == final(fetches).2
                            && ((found is Some && call_ensures(C::find_mut::<Comp>, (m,), found) && final(fetches).3 == old(fetches).3)
                            || (call_ensures(C::find_mut::<Comp>, (m,), None) && (
                                exists|m: &mut D|
                                    *m == old(fetches).3
                                    && *final(m) == final(fetches).3
                                    && call_ensures(D::find_mut::<Comp>, (m,), found)))))))))),
{
    let found = (A::find_mut::<Comp>)(&mut fetches.0);
    if found.is_some() {
        return found;
    }
    let found = (B::find_mut::<Comp>)(&mut fetches.1);
    if found.is_some() {
        return found;
    }
    let found = (C::find_mut::<Comp>)(&mut fetches.2);
    if found.is_some() {
        return found;
    }
    (D::find_mut::<Comp>)(&mut fetches.3)
}

/// The version of `Comp` in the first fetch of a tuple of 4 that holds it.
pub fn tuple4_version<A: Fetch, B: Fetch, C: Fetch, D: Fetch, Comp: Component>(fetches: &(A, B, C, D)) -> (version: Option<u64>)
    ensures
        (version is Some && call_ensures(A::version::<Comp>, (&fetches.0,), version))
        || (call_ensures(A::version::<Comp>, (&fetches.0,), None) && (
            (version is Some && call_ensures(B::version::<Comp>, (&fetches.1,), version))
            || (call_ensures(B::version::<Comp>, (&fetches.1,), None) && (
                (version is Some && call_ensures(C::version::<Comp>, (&fetches.2,), version))
                || (call_ensures(C::version::<Comp>, (&fetches.2,), None) && (
                    call_ensures(D::version::<Comp>, (&fetches.3,), version))))))),
{
    let (a, b, c, d) = fetches;
    if let Some(version) = (A::version::<Comp>)(a) {
        return Some(version);
    }
    if let Some(version) = (B::version::<Comp>)(b) {
        return Some(version);
    }
    if let Some(version) = (C::version::<Comp>)(c) {
        return Some(version);
    }
    (D::version::<Comp>)(d)
}

// Tuples of 5 views.

impl<A: DefaultFilter, B: DefaultFilter, C: DefaultFilter, D: DefaultFilter, E: DefaultFilter> DefaultFilter for (A, B, C, D, E) {
    type Filter = (A::Filter, B::Filter, C::Filter, D::Filter, E::Filter);
}

impl<'a, A: View<'a> + 'a, B: View<'a> + 'a, C: View<'a> + 'a, D: View<'a> + 'a, E: View<'a> + 'a> View<'a> for (A, B, C, D, E) {
    type Element = <Self::Fetch as IntoIndexableIter>::Item;
    type Fetch = MultiFetch<'a, (A::Fetch, B::Fetch, C::Fetch, D::Fetch, E::Fetch)>;

    fn validate() -> (valid: bool)
        ensures
            exists|reads: Seq<Vec<ComponentTypeId>>, writes: Seq<Vec<ComponentTypeId>>|
                reads.len() == 5 && writes.len() == 5
                && call_ensures(A::reads_types, (), reads[0])
                && call_ensures(A::writes_types, (), writes[0])
                && call_ensures(B::reads_types, (), reads[1])
                && call_ensures(B::writes_types, (), writes[1])
                && call_ensures(C::reads_types, (), reads[2])
                && call_ensures(C::writes_types, (), writes[2])
                && call_ensures(D::reads_types, (), reads[3])
                && call_ensures(D::writes_types, (), writes[3])
                && call_ensures(E::reads_types, (), reads[4])
                && call_ensures(E::writes_types, (), writes[4])
                && valid == conflict_free(type_lists(reads), type_lists(writes)),
    {
        let reads = vec![(A::reads_types)(), (B::reads_types)(), (C::reads_types)(), (D::reads_types)(), (E::reads_types)()];
        let writes = vec![(A::writes_types)(), (B::writes_types)(), (C::writes_types)(), (D::writes_types)(), (E::writes_types)()];
        let valid = accesses_conflict_free(&reads, &writes);
        assert(
            reads@.len() == 5 && writes@.len() == 5
            && call_ensures(A::reads_types, (), reads@[0])
            && call_ensures(A::writes_types, (), writes@[0])
            && call_ensures(B::reads_types, (), reads@[1])
            && call_ensures(B::writes_types, (), writes@[1])
            && call_ensures(C::reads_types, (), reads@[2])
            && call_ensures(C::writes_types, (), writes@[2])
            && call_ensures(D::reads_types, (), reads@[3])
            && call_ensures(D::writes_types, (), writes@[3])
            && call_ensures(E::reads_types, (), reads@[4])
            && call_ensures(E::writes_types, (), writes@[4])
            && valid == conflict_free(type_lists(reads@), type_lists(writes@))
        );
        valid
    }

    fn reads_types() -> (types: Vec<ComponentTypeId>)
        ensures
            exists|lists: Seq<Vec<ComponentTypeId>>|
                lists.len() == 5
                && call_ensures(A::reads_types, (), lists[0])
                && call_ensures(B::reads_types, (), lists[1])
                && call_ensures(C::reads_types, (), lists[2])
                && call_ensures(D::reads_types, (), lists[3])
                && call_ensures(E::reads_types, (), lists[4])
                && types@ == type_lists(lists).flatten(),
    {
        let lists = vec![(A::reads_types)(), (B::reads_types)(), (C::reads_types)(), (D::reads_types)(), (E::reads_types)()];
        let ghost views = lists@;
        let types = concat_types(lists);
        assert(
            views.len() == 5
            && call_ensures(A::reads_types, (), views[0])
            && call_ensures(B::reads_types, (), views[1])
            && call_ensures(C::reads_types, (), views[2])
            && call_ensures(D::reads_types, (), views[3])
            && call_ensures(E::reads_types, (), views[4])
            && types@ == type_lists(views).flatten()
        );
        types
    }

    fn writes_types() -> (types: Vec<ComponentTypeId>)
        ensures
            exists|lists: Seq<Vec<ComponentTypeId>>|
                lists.len() == 5
                && call_ensures(A::writes_types, (), lists[0])
                && call_ensures(B::writes_types, (), lists[1])
                && call_ensures(C::writes_types, (), lists[2])
                && call_ensures(D::writes_types, (), lists[3])
                && call_ensures(E::writes_types, (), lists[4])
                && types@ == type_lists(lists).flatten(),
    {
        let lists = vec![(A::writes_types)(), (B::writes_types)(), (C::writes_types)(), (D::writes_types)(), (E::writes_types)()];
        let ghost views = lists@;
        let types = concat_types(lists);
        assert(
            views.len() == 5
            && call_ensures(A::writes_types, (), views[0])
            && call_ensures(B::writes_types, (), views[1])
            && call_ensures(C::writes_types, (), views[2])
            && call_ensures(D::writes_types, (), views[3])
            && call_ensures(E::writes_types, (), views[4])
            && types@ == type_lists(views).flatten()
        );
        types
    }

    fn reads<Comp: Component>() -> bool {
        tuple5_reads::<'a, A, B, C, D, E, Comp>()
    }

    fn writes<Comp: Component>() -> bool {
        tuple5_writes::<'a, A, B, C, D, E, Comp>()
    }
}

impl<'a, A: Fetch, B: Fetch, C: Fetch, D: Fetch, E: Fetch> IntoIndexableIter for MultiFetch<'a, (A, B, C, D, E)> {
    type Item = (A::Item, B::Item, C::Item, D::Item, E::Item);
    type IntoIter = (A::IntoIter, B::IntoIter, C::IntoIter, D::IntoIter, E::IntoIter);

    fn into_indexable_iter(self) -> (iter: Self::IntoIter)
        ensures
            call_ensures(A::into_indexable_iter, (self.fetches().0,), iter.0),
            call_ensures(B::into_indexable_iter, (self.fetches().1,), iter.1),
            call_ensures(C::into_indexable_iter, (self.fetches().2,), iter.2),
            call_ensures(D::into_indexable_iter, (self.fetches().3,), iter.3),
            call_ensures(E::into_indexable_iter, (self.fetches().4,), iter.4),
    {
        let (a, b, c, d, e) = self.fetches;
        ((A::into_indexable_iter)(a), (B::into_indexable_iter)(b), (C::into_indexable_iter)(c), (D::into_indexable_iter)(d), (E::into_indexable_iter)(e))
    }
}

impl<'a, A: Fetch, B: Fetch, C: Fetch, D: Fetch, E: Fetch> Fetch for MultiFetch<'a, (A, B, C, D, E)> {
    type Data = (A::Data, B::Data, C::Data, D::Data, E::Data);

    fn into_components(self) -> (data: Self::Data)
        ensures
            call_ensures(A::into_components, (self.fetches().0,), data.0),
            call_ensures(B::into_components, (self.fetches().1,), data.1),
            call_ensures(C::into_components, (self.fetches().2,), data.2),
            call_ensures(D::into_components, (self.fetches().3,), data.3),
            call_ensures(E::into_components, (self.fetches().4,), data.4),
    {
        let (a, b, c, d, e) = self.fetches;
        ((A::into_components)(a), (B::into_components)(b), (C::into_components)(c), (D::into_components)(d), (E::into_components)(e))
    }

    fn find<Comp: 'static>(&self) -> Option<&[Comp]> {
        tuple5_find::<A, B, C, D, E, Comp>(&self.fetches)
    }

    fn find_mut<Comp: 'static>(&mut self) -> Option<&mut [Comp]> {
        tuple5_find_mut::<A, B, C, D, E, Comp>(&mut self.fetches)
    }

    fn version<Comp: Component>(&self) -> Option<u64> {
        tuple5_version::<A, B, C, D, E, Comp>(&self.fetches)
    }

    fn accepted(&mut self)
        ensures
            exists|m: &mut A|
                *m == old(self).fetches().0 && *final(m) == final(self).fetches().0
                && call_ensures(A::accepted, (m,), ()),
            exists|m: &mut B|
                *m == old(self).fetches().1 && *final(m) == final(self).fetches().1
                && call_ensures(B::accepted, (m,), ()),
            exists|m: &mut C|
                *m == old(self).fetches().2 && *final(m) == final(self).fetches().2
                && call_ensures(C::accepted, (m,), ()),
            exists|m: &mut D|
                *m == old(self).fetches().3 && *final(m) == final(self).fetches().3
                && call_ensures(D::accepted, (m,), ()),
            exists|m: &mut E|
                *m == old(self).fetches().4 && *final(m) == final(self).fetches().4
                && call_ensures(E::accepted, (m,), ()),
    {
        let (a, b, c, d, e) = &mut self.fetches;
        (A::accepted)(a);
        (B::accepted)(b);
        (C::accepted)(c);
        (D::accepted)(d);
        (E::accepted)(e);
    }
}

impl<'a, A: ReadOnlyFetch, B: ReadOnlyFetch, C: ReadOnlyFetch, D: ReadOnlyFetch, E: ReadOnlyFetch> ReadOnlyFetch for MultiFetch<'a, (A, B, C, D, E)> {
    fn get_components(&self) -> (data: Self::Data)
        ensures
            call_ensures(A::get_components, (&self.fetches().0,), data.0),
            call_ensures(B::get_components, (&self.fetches().1,), data.1),
            call_ensures(C::get_components, (&self.fetches().2,), data.2),
            call_ensures(D::get_components, (&self.fetches().3,), data.3),
            call_ensures(E::get_components, (&self.fetches().4,), data.4),
    {
        let (a, b, c, d, e) = &self.fetches;
        ((A::get_components)(a), (B::get_components)(b), (C::get_components)(c), (D::get_components)(d), (E::get_components)(e))
    }
}

/// Whether some view of a tuple of 5 reads `Comp`, asking the views in order.
pub fn tuple5_reads<'a, A: View<'a> + 'a, B: View<'a> + 'a, C: View<'a> + 'a, D: View<'a> + 'a, E: View<'a> + 'a, Comp: Component>() -> (found: bool)
    ensures
        (found && call_ensures(A::reads::<Comp>, (), true))
        || (call_ensures(A::reads::<Comp>, (), false) && (
            (found && call_ensures(B::reads::<Comp>, (), true))
            || (call_ensures(B::reads::<Comp>, (), false) && (
                (found && call_ensures(C::reads::<Comp>, (), true))
                || (call_ensures(C::reads::<Comp>, (), false) && (
                    (found && call_ensures(D::reads::<Comp>, (), true))
                    || (call_ensures(D::reads::<Comp>, (), false) && (
                        call_ensures(E::reads::<Comp>, (), found))))))))),
{
    (A::reads::<Comp>)()
        || (B::reads::<Comp>)()
        || (C::reads::<Comp>)()
        || (D::reads::<Comp>)()
        || (E::reads::<Comp>)()
}

/// Whether some view of a tuple of 5 writes `Comp`, asking the views in order.
pub fn tuple5_writes<'a, A: View<'a> + 'a, B: View<'a> + 'a, C: View<'a> + 'a, D: View<'a> + 'a, E: View<'a> + 'a, Comp: Component>() -> (found: bool)
    ensures
        (found && call_ensures(A::writes::<Comp>, (), true))
        || (call_ensures(A::writes::<Comp>, (), false) && (
            (found && call_ensures(B::writes::<Comp>, (), true))
            || (call_ensures(B::writes::<Comp>, (), false) && (
                (found && call_ensures(C::writes::<Comp>, (), true))
                || (call_ensures(C::writes::<Comp>, (), false) && (
                    (found && call_ensures(D::writes::<Comp>, (), true))
                    || (call_ensures(D::writes::<Comp>, (), false) && (
                        call_ensures(E::writes::<Comp>, (), found))))))))),
{
    (A::writes::<Comp>)()
        || (B::writes::<Comp>)()
        || (C::writes::<Comp>)()
        || (D::writes::<Comp>)()
        || (E::writes::<Comp>)()
}

/// The slice of the first fetch of a tuple of 5 that holds `Comp`.
pub fn tuple5_find<'f, A: Fetch, B: Fetch, C: Fetch, D: Fetch, E: Fetch, Comp: 'static>(fetches: &'f (A, B, C, D, E)) -> (found: Option<&'f [Comp]>)
    ensures
        (found is Some && call_ensures(A::find::<Comp>, (&fetches.0,), found))
        || (call_ensures(A::find::<Comp>, (&fetches.0,), None) && (
            (found is Some && call_ensures(B::find::<Comp>, (&fetches.1,), found))
            || (call_ensures(B::find::<Comp>, (&fetches.1,), None) && (
                (found is Some && call_ensures(C::find::<Comp>, (&fetches.2,), found))
                || (call_ensures(C::find::<Comp>, (&fetches.2,), None) && (
                    (found is Some && call_ensures(D::find::<Comp>, (&fetches.3,), found))
                    || (call_ensures(D::find::<Comp>, (&fetches.3,), None) && (
                        call_ensures(E::find::<Comp>, (&fetches.4,), found))))))))),
{
    let (a, b, c, d, e) = fetches;
    if let Some(slice) = (A::find::<Comp>)(a) {
        return Some(slice);
    }
    if let Some(slice) = (B::find::<Comp>)(b) {
        return Some(slice);
    }
    if let Some(slice) = (C::find::<Comp>)(c) {
        return Some(slice);
    }
    if let Some(slice) = (D::find::<Comp>)(d) {
        return Some(slice);
    }
    (E::find::<Comp>)(e)
}

/// The mutable slice of the first fetch of a tuple of 5 that holds `Comp`.
pub fn tuple5_find_mut<'f, A: Fetch, B: Fetch, C: Fetch, D: Fetch, E: Fetch, Comp: 'static>(fetches: &'f mut (A, B, C, D, E)) -> (found: Option<&'f mut [Comp]>)
    ensures
        exists|m: &mut A|
            *m == old(fetches).0
            && *final(m) == final(fetches).0
            && ((found is Some && call_ensures(A::find_mut::<Comp>, (m,), found) && final(fetches).1 == old(fetches).1 && final(fetches).2 == old(fetches).2 && final(fetches).3 == old(fetches).3 && final(fetches).4 == old(fetches).4)
            || (call_ensures(A::find_mut::<Comp>, (m,), None) && (
                exists|m: &mut B|
                    *m == old(fetches).1
                    && *final(m) == final(fetches).1
                    && ((found is Some && call_ensures(B::find_mut::<Comp>, (m,), found) && final(fetches).2 == old(fetches).2 && final(fetches).3 == old(fetches).3 && final(fetches).4 == old(fetches).4)
                    || (call_ensures(B::find_mut::<Comp>, (m,), None) && (
                        exists|m: &mut C|
                            *m == old(fetches).2
                            && *final(m) == final(fetches).2
                            && ((found is Some && call_ensures(C::find_mut::<Comp>, (m,), found) && final(fetches).3 == old(fetches).3 && final(fetches).4 == old(fetches).4)
                            || (call_ensures(C::find_mut::<Comp>, (m,), None) && (
                                exists|m: &mut D|
                                    *m == old(fetches).3
                                    && *final(m) == final(fetches).3
                                    && ((found is Some && call_ensures(D::find_mut::<Comp>, (m,), found) && final(fetches).4 == old(fetches).4)
                                    || (call_ensures(D::find_mut::<Comp>, (m,), None) && (
                                        exists|m: &mut E|
                                            *m == old(fetches).4
                                            && *final(m) == final(fetches).4
                                            && call_ensures(E::find_mut::<Comp>, (m,), found))))))))))))),
{
    let found = (A::find_mut::<Comp>)(&mut fetches.0);
    if found.is_some() {
        return found;
    }
    let found = (B::find_mut::<Comp>)(&mut fetches.1);
    if found.is_some() {
        return found;
    }
    let found = (C::find_mut::<Comp>)(&mut fetches.2);
    if found.is_some() {
        return found;
    }
    let found = (D::find_mut::<Comp>)(&mut fetches.3);
    if found.is_some() {
        return found;
    }
    (E::find_mut::<Comp>)(&mut fetches.4)
}

/// The version of `Comp` in the first fetch of a tuple of 5 that holds it.
pub fn tuple5_version<A: Fetch, B: Fetch, C: Fetch, D: Fetch, E: Fetch, Comp: Component>(fetches: &(A, B, C, D, E)) -> (version: Option<u64>)
    ensures
        (version is Some && call_ensures(A::version::<Comp>, (&fetches.0,), version))
        || (call_ensures(A::version::<Comp>, (&fetches.0,), None) && (
            (version is Some && call_ensures(B::version::<Comp>, (&fetches.1,), version))
            || (call_ensures(B::version::<Comp>, (&fetches.1,), None) && (
                (version is Some && call_ensures(C::version::<Comp>, (&fetches.2,), version))
                || (call_ensures(C::version::<Comp>, (&fetches.2,), None) && (
                    (version is Some && call_ensures(D::version::<Comp>, (&fetches.3,), version))
                    || (call_ensures(D::version::<Comp>, (&fetches.3,), None) && (
                        call_ensures(E::version::<Comp>, (&fetches.4,), version))))))))),
{
    let (a, b, c, d, e) = fetches;
    if let Some(version) = (A::version::<Comp>)(a) {
        return Some(version);
    }
    if let Some(version) = (B::version::<Comp>)(b) {
        return Some(version);
    }
    if let Some(version) = (C::version::<Comp>)(c) {
        return Some(version);
    }
    if let Some(version) = (D::version::<Comp>)(d) {
        return Some(version);
    }
    (E::version::<Comp>)(e)
}

// Tuples of 6 views.

impl<A: DefaultFilter, B: DefaultFilter, C: DefaultFilter, D: DefaultFilter, E: DefaultFilter, F: DefaultFilter> DefaultFilter for (A, B, C, D, E, F) {
    type Filter = (A::Filter, B::Filter, C::Filter, D::Filter, E::Filter, F::Filter);
}

impl<'a, A: View<'a> + 'a, B: View<'a> + 'a, C: View<'a> + 'a, D: View<'a> + 'a, E: View<'a> + 'a, F: View<'a> + 'a> View<'a> for (A, B, C, D, E, F) {
    type Element = <Self::Fetch as IntoIndexableIter>::Item;
    type Fetch = MultiFetch<'a, (A::Fetch, B::Fetch, C::Fetch, D::Fetch, E::Fetch, F::Fetch)>;

    fn validate() -> (valid: bool)
        ensures
            exists|reads: Seq<Vec<ComponentTypeId>>, writes: Seq<Vec<ComponentTypeId>>|
                reads.len() == 6 && writes.len() == 6
                && call_ensures(A::reads_types, (), reads[0])
                && call_ensures(A::writes_types, (), writes[0])
                && call_ensures(B::reads_types, (), reads[1])
                && call_ensures(B::writes_types, (), writes[1])
                && call_ensures(C::reads_types, (), reads[2])
                && call_ensures(C::writes_types, (), writes[2])
                && call_ensures(D::reads_types, (), reads[3])
                && call_ensures(D::writes_types, (), writes[3])
                && call_ensures(E::reads_types, (), reads[4])
                && call_ensures(E::writes_types, (), writes[4])
                && call_ensures(F::reads_types, (), reads[5])
                && call_ensures(F::writes_types, (), writes[5])
                && valid == conflict_free(type_lists(reads), type_lists(writes)),
    {
        let reads = vec![(A::reads_types)(), (B::reads_types)(), (C::reads_types)(), (D::reads_types)(), (E::reads_types)(), (F::reads_types)()];
        let writes = vec![(A::writes_types)(), (B::writes_types)(), (C::writes_types)(), (D::writes_types)(), (E::writes_types)(), (F::writes_types)()];
        let valid = accesses_conflict_free(&reads, &writes);
        assert(
            reads@.len() == 6 && writes@.len() == 6
            && call_ensures(A::reads_types, (), reads@[0])
            && call_ensures(A::writes_types, (), writes@[0])
            && call_ensures(B::reads_types, (), reads@[1])
            && call_ensures(B::writes_types, (), writes@[1])
            && call_ensures(C::reads_types, (), reads@[2])
            && call_ensures(C::writes_types, (), writes@[2])
            && call_ensures(D::reads_types, (), reads@[3])
            && call_ensures(D::writes_types, (), writes@[3])
            && call_ensures(E::reads_types, (), reads@[4])
            && call_ensures(E::writes_types, (), writes@[4])
            && call_ensures(F::reads_types, (), reads@[5])
            && call_ensures(F::writes_types, (), writes@[5])
            && valid == conflict_free(type_lists(reads@), type_lists(writes@))
        );
        valid
    }

    fn reads_types() -> (types: Vec<ComponentTypeId>)
        ensures
            exists|lists: Seq<Vec<ComponentTypeId>>|
                lists.len() == 6
                && call_ensures(A::reads_types, (), lists[0])
                && call_ensures(B::reads_types, (), lists[1])
                && call_ensures(C::reads_types, (), lists[2])
                && call_ensures(D::reads_types, (), lists[3])
                && call_ensures(E::reads_types, (), lists[4])
                && call_ensures(F::reads_types, (), lists[5])
                && types@ == type_lists(lists).flatten(),
    {
        let lists = vec![(A::reads_types)(), (B::reads_types)(), (C::reads_types)(), (D::reads_types)(), (E::reads_types)(), (F::reads_types)()];
        let ghost views = lists@;
        let types = concat_types(lists);
        assert(
            views.len() == 6
            && call_ensures(A::reads_types, (), views[0])
            && call_ensures(B::reads_types, (), views[1])
            && call_ensures(C::reads_types, (), views[2])
            && call_ensures(D::reads_types, (), views[3])
            && call_ensures(E::reads_types, (), views[4])
            && call_ensures(F::reads_types, (), views[5])
            && types@ == type_lists(views).flatten()
        );
        types
    }

    fn writes_types() -> (types: Vec<ComponentTypeId>)
        ensures
            exists|lists: Seq<Vec<ComponentTypeId>>|
                lists.len() == 6
                && call_ensures(A::writes_types, (), lists[0])
                && call_ensures(B::writes_types, (), lists[1])
                && call_ensures(C::writes_types, (), lists[2])
                && call_ensures(D::writes_types, (), lists[3])
                && call_ensures(E::writes_types, (), lists[4])
                && call_ensures(F::writes_types, (), lists[5])
                && types@ == type_lists(lists).flatten(),
    {
        let lists = vec![(A::writes_types)(), (B::writes_types)(), (C::writes_types)(), (D::writes_types)(), (E::writes_types)(), (F::writes_types)()];
        let ghost views = lists@;
        let types = concat_types(lists);
        assert(
            views.len() == 6
            && call_ensures(A::writes_types, (), views[0])
            && call_ensures(B::writes_types, (), views[1])
            && call_ensures(C::writes_types, (), views[2])
            && call_ensures(D::writes_types, (), views[3])
            && call_ensures(E::writes_types, (), views[4])
            && call_ensures(F::writes_types, (), views[5])
            && types@ == type_lists(views).flatten()
        );
        types
    }

    fn reads<Comp: Component>() -> bool {
        tuple6_reads::<'a, A, B, C, D, E, F, Comp>()
    }

    fn writes<Comp: Component>() -> bool {
        tuple6_writes::<'a, A, B, C, D, E, F, Comp>()
    }
}

impl<'a, A: Fetch, B: Fetch, C: Fetch, D: Fetch, E: Fetch, F: Fetch> IntoIndexableIter for MultiFetch<'a, (A, B, C, D, E, F)> {
    type Item = (A::Item, B::Item, C::Item, D::Item, E::Item, F::Item);
    type IntoIter = (A::IntoIter, B::IntoIter, C::IntoIter, D::IntoIter, E::IntoIter, F::IntoIter);

    fn into_indexable_iter(self) -> (iter: Self::IntoIter)
        ensures
            call_ensures(A::into_indexable_iter, (self.fetches().0,), iter.0),
            call_ensures(B::into_indexable_iter, (self.fetches().1,), iter.1),
            call_ensures(C::into_indexable_iter, (self.fetches().2,), iter.2),
            call_ensures(D::into_indexable_iter, (self.fetches().3,), iter.3),
            call_ensures(E::into_indexable_iter, (self.fetches().4,), iter.4),
            call_ensures(F::into_indexable_iter, (self.fetches().5,), iter.5),
    {
        let (a, b, c, d, e, f) = self.fetches;
        ((A::into_indexable_iter)(a), (B::into_indexable_iter)(b), (C::into_indexable_iter)(c), (D::into_indexable_iter)(d), (E::into_indexable_iter)(e), (F::into_indexable_iter)(f))
    }
}

impl<'a, A: Fetch, B: Fetch, C: Fetch, D: Fetch, E: Fetch, F: Fetch> Fetch for MultiFetch<'a, (A, B, C, D, E, F)> {
    type Data = (A::Data, B::Data, C::Data, D::Data, E::Data, F::Data);

    fn into_components(self) -> (data: Self::Data)
        ensures
            call_ensures(A::into_components, (self.fetches().0,), data.0),
            call_ensures(B::into_components, (self.fetches().1,), data.1),
            call_ensures(C::into_components, (self.fetches().2,), data.2),
            call_ensures(D::into_components, (self.fetches().3,), data.3),
            call_ensures(E::into_components, (self.fetches().4,), data.4),
            call_ensures(F::into_components, (self.fetches().5,), data.5),
    {
        let (a, b, c, d, e, f) = self.fetches;
        ((A::into_components)(a), (B::into_components)(b), (C::into_components)(c), (D::into_components)(d), (E::into_components)(e), (F::into_components)(f))
    }

    fn find<Comp: 'static>(&self) -> Option<&[Comp]> {
        tuple6_find::<A, B, C, D, E, F, Comp>(&self.fetches)
    }

    fn find_mut<Comp: 'static>(&mut self) -> Option<&mut [Comp]> {
        tuple6_find_mut::<A, B, C, D, E, F, Comp>(&mut self.fetches)
    }

    fn version<Comp: Component>(&self) -> Option<u64> {
        tuple6_version::<A, B, C, D, E, F, Comp>(&self.fetches)
    }

    fn accepted(&mut self)
        ensures
            exists|m: &mut A|
                *m == old(self).fetches().0 && *final(m) == final(self).fetches().0
                && call_ensures(A::accepted, (m,), ()),
            exists|m: &mut B|
                *m == old(self).fetches().1 && *final(m) == final(self).fetches().1
                && call_ensures(B::accepted, (m,), ()),
            exists|m: &mut C|
                *m == old(self).fetches().2 && *final(m) == final(self).fetches().2
                && call_ensures(C::accepted, (m,), ()),
            exists|m: &mut D|
                *m == old(self).fetches().3 && *final(m) == final(self).fetches().3
                && call_ensures(D::accepted, (m,), ()),
            exists|m: &mut E|
                *m == old(self).fetches().4 && *final(m) == final(self).fetches().4
                && call_ensures(E::accepted, (m,), ()),
            exists|m: &mut F|
                *m == old(self).fetches().5 && *final(m) == final(self).fetches().5
                && call_ensures(F::accepted, (m,), ()),
    {
        let (a, b, c, d, e, f) = &mut self.fetches;
        (A::accepted)(a);
        (B::accepted)(b);
        (C::accepted)(c);
        (D::accepted)(d);
        (E::accepted)(e);
        (F::accepted)(f);
    }
}

impl<'a, A: ReadOnlyFetch, B: ReadOnlyFetch, C: ReadOnlyFetch, D: ReadOnlyFetch, E: ReadOnlyFetch, F: ReadOnlyFetch> ReadOnlyFetch for MultiFetch<'a, (A, B, C, D, E, F)> {
    fn get_components(&self) -> (data: Self::Data)
        ensures
            call_ensures(A::get_components, (&self.fetches().0,), data.0),
            call_ensures(B::get_components, (&self.fetches().1,), data.1),
            call_ensures(C::get_components, (&self.fetches().2,), data.2),
            call_ensures(D::get_components, (&self.fetches().3,), data.3),
            call_ensures(E::get_components, (&self.fetches().4,), data.4),
            call_ensures(F::get_components, (&self.fetches().5,), data.5),
    {
        let (a, b, c, d, e, f) = &self.fetches;
        ((A::get_components)(a), (B::get_components)(b), (C::get_components)(c), (D::get_components)(d), (E::get_components)(e), (F::get_components)(f))
    }
}

/// Whether some view of a tuple of 6 reads `Comp`, asking the views in order.
pub fn tuple6_reads<'a, A: View<'a> + 'a, B: View<'a> + 'a, C: View<'a> + 'a, D: View<'a> + 'a, E: View<'a> + 'a, F: View<'a> + 'a, Comp: Component>() -> (found: bool)
    ensures
        (found && call_ensures(A::reads::<Comp>, (), true))
        || (call_ensures(A::reads::<Comp>, (), false) && (
            (found && call_ensures(B::reads::<Comp>, (), true))
            || (call_ensures(B::reads::<Comp>, (), false) && (
                (found && call_ensures(C::reads::<Comp>, (), true))
                || (call_ensures(C::reads::<Comp>, (), false) && (
                    (found && call_ensures(D::reads::<Comp>, (), true))
                    || (call_ensures(D::reads::<Comp>, (), false) && (
                        (found && call_ensures(E::reads::<Comp>, (), true))
                        || (call_ensures(E::reads::<Comp>, (), false) && (
                            call_ensures(F::reads::<Comp>, (), found))))))))))),
{
    (A::reads::<Comp>)()
        || (B::reads::<Comp>)()
        || (C::reads::<Comp>)()
        || (D::reads::<Comp>)()
        || (E::reads::<Comp>)()
        || (F::reads::<Comp>)()
}

/// Whether some view of a tuple of 6 writes `Comp`, asking the views in order.
pub fn tuple6_writes<'a, A: View<'a> + 'a, B: View<'a> + 'a, C: View<'a> + 'a, D: View<'a> + 'a, E: View<'a> + 'a, F: View<'a> + 'a, Comp: Component>() -> (found: bool)
    ensures
        (found && call_ensures(A::writes::<Comp>, (), true))
        || (call_ensures(A::writes::<Comp>, (), false) && (
            (found && call_ensures(B::writes::<Comp>, (), true))
            || (call_ensures(B::writes::<Comp>, (), false) && (
                (found && call_ensures(C::writes::<Comp>, (), true))
                || (call_ensures(C::writes::<Comp>, (), false) && (
                    (found && call_ensures(D::writes::<Comp>, (), true))
                    || (call_ensures(D::writes::<Comp>, (), false) && (
                        (found && call_ensures(E::writes::<Comp>, (), true))
                        || (call_ensures(E::writes::<Comp>, (), false) && (
                            call_ensures(F::writes::<Comp>, (), found))))))))))),
{
    (A::writes::<Comp>)()
        || (B::writes::<Comp>)()
        || (C::writes::<Comp>)()
        || (D::writes::<Comp>)()
        || (E::writes::<Comp>)()
        || (F::writes::<Comp>)()
}

/// The slice of the first fetch of a tuple of 6 that holds `Comp`.
pub fn tuple6_find<'f, A: Fetch, B: Fetch, C: Fetch, D: Fetch, E: Fetch, F: Fetch, Comp: 'static>(fetches: &'f (A, B, C, D, E, F)) -> (found: Option<&'f [Comp]>)
    ensures
        (found is Some && call_ensures(A::find::<Comp>, (&fetches.0,), found))
        || (call_ensures(A::find::<Comp>, (&fetches.0,), None) && (
            (found is Some && call_ensures(B::find::<Comp>, (&fetches.1,), found))
            || (call_ensures(B::find::<Comp>, (&fetches.1,), None) && (
                (found is Some && call_ensures(C::find::<Comp>, (&fetches.2,), found))
                || (call_ensures(C::find::<Comp>, (&fetches.2,), None) && (
                    (found is Some && call_ensures(D::find::<Comp>, (&fetches.3,), found))
                    || (call_ensures(D::find::<Comp>, (&fetches.3,), None) && (
                        (found is Some && call_ensures(E::find::<Comp>, (&fetches.4,), found))
                        || (call_ensures(E::find::<Comp>, (&fetches.4,), None) && (
                            call_ensures(F::find::<Comp>, (&fetches.5,), found))))))))))),
{
    let (a, b, c, d, e, f) = fetches;
    if let Some(slice) = (A::find::<Comp>)(a) {
        return Some(slice);
    }
    if let Some(slice) = (B::find::<Comp>)(b) {
        return Some(slice);
    }
    if let Some(slice) = (C::find::<Comp>)(c) {
        return Some(slice);
    }
    if let Some(slice) = (D::find::<Comp>)(d) {
        return Some(slice);
    }
    if let Some(slice) = (E::find::<Comp>)(e) {
        return Some(slice);
    }
    (F::find::<Comp>)(f)
}

/// The mutable slice of the first fetch of a tuple of 6 that holds `Comp`.
pub fn tuple6_find_mut<'f, A: Fetch, B: Fetch, C: Fetch, D: Fetch, E: Fetch, F: Fetch, Comp: 'static>(fetches: &'f mut (A, B, C, D, E, F)) -> (found: Option<&'f mut [Comp]>)
    ensures
        exists|m: &mut A|
            *m == old(fetches).0
            && *final(m) == final(fetches).0
            && ((found is Some && call_ensures(A::find_mut::<Comp>, (m,), found) && final(fetches).1 == old(fetches).1 && final(fetches).2 == old(fetches).2 && final(fetches).3 == old(fetches).3 && final(fetches).4 == old(fetches).4 && final(fetches).5 == old(fetches).5)
            || (call_ensures(A::find_mut::<Comp>, (m,), None) && (
                exists|m: &mut B|
                    *m == old(fetches).1
                    && *final(m) == final(fetches).1
                    && ((found is Some && call_ensures(B::find_mut::<Comp>, (m,), found) && final(fetches).2 == old(fetches).2 && final(fetches).3 == old(fetches).3 && final(fetches).4 == old(fetches).4 && final(fetches).5 == old(fetches).5)
                    || (call_ensures(B::find_mut::<Comp>, (m,), None) && (
                        exists|m: &mut C|
                            *m == old(fetches).2
                            && *final(m) == final(fetches).2
                            && ((found is Some && call_ensures(C::find_mut::<Comp>, (m,), found) && final(fetches).3 == old(fetches).3 && final(fetches).4 == old(fetches).4 && final(fetches).5 == old(fetches).5)
                            || (call_ensures(C::find_mut::<Comp>, (m,), None) && (
                                exists|m: &mut D|
                                    *m == old(fetches).3
                                    && *final(m) == final(fetches).3
                                    && ((found is Some && call_ensures(D::find_mut::<Comp>, (m,), found) && final(fetches).4 == old(fetches).4 && final(fetches).5 == old(fetches).5)
                                    || (call_ensures(D::find_mut::<Comp>, (m,), None) && (
                                        exists|m: &mut E|
                                            *m == old(fetches).4
                                            && *final(m) == final(fetches).4
                                            && ((found is Some && call_ensures(E::find_mut::<Comp>, (m,), found) && final(fetches).5 == old(fetches).5)
                                            || (call_ensures(E::find_mut::<Comp>, (m,), None) && (
                                                exists|m: &mut F|
                                                    *m == old(fetches).5
                                                    && *final(m) == final(fetches).5
                                                    && call_ensures(F::find_mut::<Comp>, (m,), found)))))))))))))))),
{
    let found = (A::find_mut::<Comp>)(&mut fetches.0);
    if found.is_some() {
        return found;
    }
    let found = (B::find_mut::<Comp>)(&mut fetches.1);
    if found.is_some() {
        return found;
    }
    let found = (C::find_mut::<Comp>)(&mut fetches.2);
    if found.is_some() {
        return found;
    }
    let found = (D::find_mut::<Comp>)(&mut fetches.3);
    if found.is_some() {
        return found;
    }
    let found = (E::find_mut::<Comp>)(&mut fetches.4);
    if found.is_some() {
        return found;
    }
    (F::find_mut::<Comp>)(&mut fetches.5)
}

/// The version of `Comp` in the first fetch of a tuple of 6 that holds it.
pub fn tuple6_version<A: Fetch, B: Fetch, C: Fetch, D: Fetch, E: Fetch, F: Fetch, Comp: Component>(fetches: &(A, B, C, D, E, F)) -> (version: Option<u64>)
    ensures
        (version is Some && call_ensures(A::version::<Comp>, (&fetches.0,), version))
        || (call_ensures(A::version::<Comp>, (&fetches.0,), None) && (
            (version is Some && call_ensures(B::version::<Comp>, (&fetches.1,), version))
            || (call_ensures(B::version::<Comp>, (&fetches.1,), None) && (
                (version is Some && call_ensures(C::version::<Comp>, (&fetches.2,), version))
                || (call_ensures(C::version::<Comp>, (&fetches.2,), None) && (
                    (version is Some && call_ensures(D::version::<Comp>, (&fetches.3,), version))
                    || (call_ensures(D::version::<Comp>, (&fetches.3,), None) && (
                        (version is Some && call_ensures(E::version::<Comp>, (&fetches.4,), version))
                        || (call_ensures(E::version::<Comp>, (&fetches.4,), None) && (
                            call_ensures(F::version::<Comp>, (&fetches.5,), version))))))))))),
{
    let (a, b, c, d, e, f) = fetches;
    if let Some(version) = (A::version::<Comp>)(a) {
        return Some(version);
    }
    if let Some(version) = (B::version::<Comp>)(b) {
        return Some(version);
    }
    if let Some(version) = (C::version::<Comp>)(c) {
        return Some(version);
    }
    if let Some(version) = (D::version::<Comp>)(d) {
        return Some(version);
    }
    if let Some(version) = (E::version::<Comp>)(e) {
        return Some(version);
    }
    (F::version::<Comp>)(f)
}

// Tuples of 7 views.

impl<A: DefaultFilter, B: DefaultFilter, C: DefaultFilter, D: DefaultFilter, E: DefaultFilter, F: DefaultFilter, G: DefaultFilter> DefaultFilter for (A, B, C, D, E, F, G) {
    type Filter = (A::Filter, B::Filter, C::Filter, D::Filter, E::Filter, F::Filter, G::Filter);
}

impl<'a, A: View<'a> + 'a, B: View<'a> + 'a, C: View<'a> + 'a, D: View<'a> + 'a, E: View<'a> + 'a, F: View<'a> + 'a, G: View<'a> + 'a> View<'a> for (A, B, C, D, E, F, G) {
    type Element = <Self::Fetch as IntoIndexableIter>::Item;
    type Fetch = MultiFetch<'a, (A::Fetch, B::Fetch, C::Fetch, D::Fetch, E::Fetch, F::Fetch, G::Fetch)>;

    fn validate() -> (valid: bool)
        ensures
            exists|reads: Seq<Vec<ComponentTypeId>>, writes: Seq<Vec<ComponentTypeId>>|
                reads.len() == 7 && writes.len() == 7
                && call_ensures(A::reads_types, (), reads[0])
                && call_ensures(A::writes_types, (), writes[0])
                && call_ensures(B::reads_types, (), reads[1])
                && call_ensures(B::writes_types, (), writes[1])
                && call_ensures(C::reads_types, (), reads[2])
                && call_ensures(C::writes_types, (), writes[2])
                && call_ensures(D::reads_types, (), reads[3])
                && call_ensures(D::writes_types, (), writes[3])
                && call_ensures(E::reads_types, (), reads[4])
                && call_ensures(E::writes_types, (), writes[4])
                && call_ensures(F::reads_types, (), reads[5])
                && call_ensures(F::writes_types, (), writes[5])
                && call_ensures(G::reads_types, (), reads[6])
                && call_ensures(G::writes_types, (), writes[6])
                && valid == conflict_free(type_lists(reads), type_lists(writes)),
    {
        let reads = vec![(A::reads_types)(), (B::reads_types)(), (C::reads_types)(), (D::reads_types)(), (E::reads_types)(), (F::reads_types)(), (G::reads_types)()];
        let writes = vec![(A::writes_types)(), (B::writes_types)(), (C::writes_types)(), (D::writes_types)(), (E::writes_types)(), (F::writes_types)(), (G::writes_types)()];
        let valid = accesses_conflict_free(&reads, &writes);
        assert(
            reads@.len() == 7 && writes@.len() == 7
            && call_ensures(A::reads_types, (), reads@[0])
            && call_ensures(A::writes_types, (), writes@[0])
            && call_ensures(B::reads_types, (), reads@[1])
            && call_ensures(B::writes_types, (), writes@[1])
            && call_ensures(C::reads_types, (), reads@[2])
            && call_ensures(C::writes_types, (), writes@[2])
            && call_ensures(D::reads_types, (), reads@[3])
            && call_ensures(D::writes_types, (), writes@[3])
            && call_ensures(E::reads_types, (), reads@[4])
            && call_ensures(E::writes_types, (), writes@[4])
            && call_ensures(F::reads_types, (), reads@[5])
            && call_ensures(F::writes_types, (), writes@[5])
            && call_ensures(G::reads_types, (), reads@[6])
            && call_ensures(G::writes_types, (), writes@[6])
            && valid == conflict_free(type_lists(reads@), type_lists(writes@))
        );
        valid
    }

    fn reads_types() -> (types: Vec<ComponentTypeId>)
        ensures
            exists|lists: Seq<Vec<ComponentTypeId>>|
                lists.len() == 7
                && call_ensures(A::reads_types, (), lists[0])
                && call_ensures(B::reads_types, (), lists[1])
                && call_ensures(C::reads_types, (), lists[2])
                && call_ensures(D::reads_types, (), lists[3])
                && call_ensures(E::reads_types, (), lists[4])
                && call_ensures(F::reads_types, (), lists[5])
                && call_ensures(G::reads_types, (), lists[6])
                && types@ == type_lists(lists).flatten(),
    {
        let lists = vec![(A::reads_types)(), (B::reads_types)(), (C::reads_types)(), (D::reads_types)(), (E::reads_types)(), (F::reads_types)(), (G::reads_types)()];
        let ghost views = lists@;
        let types = concat_types(lists);
        assert(
            views.len() == 7
            && call_ensures(A::reads_types, (), views[0])
            && call_ensures(B::reads_types, (), views[1])
            && call_ensures(C::reads_types, (), views[2])
            && call_ensures(D::reads_types, (), views[3])
            && call_ensures(E::reads_types, (), views[4])
            && call_ensures(F::reads_types, (), views[5])
            && call_ensures(G::reads_types, (), views[6])
            && types@ == type_lists(views).flatten()
        );
        types
    }

    fn writes_types() -> (types: Vec<ComponentTypeId>)
        ensures
            exists|lists: Seq<Vec<ComponentTypeId>>|
                lists.len() == 7
                && call_ensures(A::writes_types, (), lists[0])
                && call_ensures(B::writes_types, (), lists[1])
                && call_ensures(C::writes_types, (), lists[2])
                && call_ensures(D::writes_types, (), lists[3])
                && call_ensures(E::writes_types, (), lists[4])
                && call_ensures(F::writes_types, (), lists[5])
                && call_ensures(G::writes_types, (), lists[6])
                && types@ == type_lists(lists).flatten(),
    {
        let lists = vec![(A::writes_types)(), (B::writes_types)(), (C::writes_types)(), (D::writes_types)(), (E::writes_types)(), (F::writes_types)(), (G::writes_types)()];
        let ghost views = lists@;
        let types = concat_types(lists);
        assert(
            views.len() == 7
            && call_ensures(A::writes_types, (), views[0])
            && call_ensures(B::writes_types, (), views[1])
            && call_ensures(C::writes_types, (), views[2])
            && call_ensures(D::writes_types, (), views[3])
            && call_ensures(E::writes_types, (), views[4])
            && call_ensures(F::writes_types, (), views[5])
            && call_ensures(G::writes_types, (), views[6])
            && types@ == type_lists(views).flatten()
        );
        types
    }

    fn reads<Comp: Component>() -> bool {
        tuple7_reads::<'a, A, B, C, D, E, F, G, Comp>()
    }

    fn writes<Comp: Component>() -> bool {
        tuple7_writes::<'a, A, B, C, D, E, F, G, Comp>()
    }
}

impl<'a, A: Fetch, B: Fetch, C: Fetch, D: Fetch, E: Fetch, F: Fetch, G: Fetch> IntoIndexableIter for MultiFetch<'a, (A, B, C, D, E, F, G)> {
    type Item = (A::Item, B::Item, C::Item, D::Item, E::Item, F::Item, G::Item);
    type IntoIter = (A::IntoIter, B::IntoIter, C::IntoIter, D::IntoIter, E::IntoIter, F::IntoIter, G::IntoIter);

    fn into_indexable_iter(self) -> (iter: Self::IntoIter)
        ensures
            call_ensures(A::into_indexable_iter, (self.fetches().0,), iter.0),
            call_ensures(B::into_indexable_iter, (self.fetches().1,), iter.1),
            call_ensures(C::into_indexable_iter, (self.fetches().2,), iter.2),
            call_ensures(D::into_indexable_iter, (self.fetches().3,), iter.3),
            call_ensures(E::into_indexable_iter, (self.fetches().4,), iter.4),
            call_ensures(F::into_indexable_iter, (self.fetches().5,), iter.5),
            call_ensures(G::into_indexable_iter, (self.fetches().6,), iter.6),
    {
        let (a, b, c, d, e, f, g) = self.fetches;
        ((A::into_indexable_iter)(a), (B::into_indexable_iter)(b), (C::into_indexable_iter)(c), (D::into_indexable_iter)(d), (E::into_indexable_iter)(e), (F::into_indexable_iter)(f), (G::into_indexable_iter)(g))
    }
}

impl<'a, A: Fetch, B: Fetch, C: Fetch, D: Fetch, E: Fetch, F: Fetch, G: Fetch> Fetch for MultiFetch<'a, (A, B, C, D, E, F, G)> {
    type Data = (A::Data, B::Data, C::Data, D::Data, E::Data, F::Data, G::Data);

    fn into_components(self) -> (data: Self::Data)
        ensures
            call_ensures(A::into_components, (self.fetches().0,), data.0),
            call_ensures(B::into_components, (self.fetches().1,), data.1),
            call_ensures(C::into_components, (self.fetches().2,), data.2),
            call_ensures(D::into_components, (self.fetches().3,), data.3),
            call_ensures(E::into_components, (self.fetches().4,), data.4),
            call_ensures(F::into_components, (self.fetches().5,), data.5),
            call_ensures(G::into_components, (self.fetches().6,), data.6),
    {
        let (a, b, c, d, e, f, g) = self.fetches;
        ((A::into_components)(a), (B::into_components)(b), (C::into_components)(c), (D::into_components)(d), (E::into_components)(e), (F::into_components)(f), (G::into_components)(g))
    }

    fn find<Comp: 'static>(&self) -> Option<&[Comp]> {
        tuple7_find::<A, B, C, D, E, F, G, Comp>(&self.fetches)
    }

    fn find_mut<Comp: 'static>(&mut self) -> Option<&mut [Comp]> {
        tuple7_find_mut::<A, B, C, D, E, F, G, Comp>(&mut self.fetches)
    }

    fn version<Comp: Component>(&self) -> Option<u64> {
        tuple7_version::<A, B, C, D, E, F, G, Comp>(&self.fetches)
    }

    fn accepted(&mut self)
        ensures
            exists|m: &mut A|
                *m == old(self).fetches().0 && *final(m) == final(self).fetches().0
                && call_ensures(A::accepted, (m,), ()),
            exists|m: &mut B|
                *m == old(self).fetches().1 && *final(m) == final(self).fetches().1
                && call_ensures(B::accepted, (m,), ()),
            exists|m: &mut C|
                *m == old(self).fetches().2 && *final(m) == final(self).fetches().2
                && call_ensures(C::accepted, (m,), ()),
            exists|m: &mut D|
                *m == old(self).fetches().3 && *final(m) == final(self).fetches().3
                && call_ensures(D::accepted, (m,), ()),
            exists|m: &mut E|
                *m == old(self).fetches().4 && *final(m) == final(self).fetches().4
                && call_ensures(E::accepted, (m,), ()),
            exists|m: &mut F|
                *m == old(self).fetches().5 && *final(m) == final(self).fetches().5
                && call_ensures(F::accepted, (m,), ()),
            exists|m: &mut G|
                *m == old(self).fetches().6 && *final(m) == final(self).fetches().6
                && call_ensures(G::accepted, (m,), ()),
    {
        let (a, b, c, d, e, f, g) = &mut self.fetches;
        (A::accepted)(a);
        (B::accepted)(b);
        (C::accepted)(c);
        (D::accepted)(d);
        (E::accepted)(e);
        (F::accepted)(f);
        (G::accepted)(g);
    }
}

impl<'a, A: ReadOnlyFetch, B: ReadOnlyFetch, C: ReadOnlyFetch, D: ReadOnlyFetch, E: ReadOnlyFetch, F: ReadOnlyFetch, G: ReadOnlyFetch> ReadOnlyFetch for MultiFetch<'a, (A, B, C, D, E, F, G)> {
    fn get_components(&self) -> (data: Self::Data)
        ensures
            call_ensures(A::get_components, (&self.fetches().0,), data.0),
            call_ensures(B::get_components, (&self.fetches().1,), data.1),
            call_ensures(C::get_components, (&self.fetches().2,), data.2),
            call_ensures(D::get_components, (&self.fetches().3,), data.3),
            call_ensures(E::get_components, (&self.fetches().4,), data.4),
            call_ensures(F::get_components, (&self.fetches().5,), data.5),
            call_ensures(G::get_components, (&self.fetches().6,), data.6),
    {
        let (a, b, c, d, e, f, g) = &self.fetches;
        ((A::get_components)(a), (B::get_components)(b), (C::get_components)(c), (D::get_components)(d), (E::get_components)(e), (F::get_components)(f), (G::get_components)(g))
    }
}

/// Whether some view of a tuple of 7 reads `Comp`, asking the views in order.
pub fn tuple7_reads<'a, A: View<'a> + 'a, B: View<'a> + 'a, C: View<'a> + 'a, D: View<'a> + 'a, E: View<'a> + 'a, F: View<'a> + 'a, G: View<'a> + 'a, Comp: Component>() -> (found: bool)
    ensures
        (found && call_ensures(A::reads::<Comp>, (), true))
        || (call_ensures(A::reads::<Comp>, (), false) && (
            (found && call_ensures(B::reads::<Comp>, (), true))
            || (call_ensures(B::reads::<Comp>, (), false) && (
                (found && call_ensures(C::reads::<Comp>, (), true))
                || (call_ensures(C::reads::<Comp>, (), false) && (
                    (found && call_ensures(D::reads::<Comp>, (), true))
                    || (call_ensures(D::reads::<Comp>, (), false) && (
                        (found && call_ensures(E::reads::<Comp>, (), true))
                        || (call_ensures(E::reads::<Comp>, (), false) && (
                            (found && call_ensures(F::reads::<Comp>, (), true))
                            || (call_ensures(F::reads::<Comp>, (), false) && (
                                call_ensures(G::reads::<Comp>, (), found))))))))))))),
{
    (A::reads::<Comp>)()
        || (B::reads::<Comp>)()
        || (C::reads::<Comp>)()
        || (D::reads::<Comp>)()
        || (E::reads::<Comp>)()
        || (F::reads::<Comp>)()
        || (G::reads::<Comp>)()
}

/// Whether some view of a tuple of 7 writes `Comp`, asking the views in order.
pub fn tuple7_writes<'a, A: View<'a> + 'a, B: View<'a> + 'a, C: View<'a> + 'a, D: View<'a> + 'a, E: View<'a> + 'a, F: View<'a> + 'a, G: View<'a> + 'a, Comp: Component>() -> (found: bool)
    ensures
        (found && call_ensures(A::writes::<Comp>, (), true))
        || (call_ensures(A::writes::<Comp>, (), false) && (
            (found && call_ensures(B::writes::<Comp>, (), true))
            || (call_ensures(B::writes::<Comp>, (), false) && (
                (found && call_ensures(C::writes::<Comp>, (), true))
                || (call_ensures(C::writes::<Comp>, (), false) && (
                    (found && call_ensures(D::writes::<Comp>, (), true))
                    || (call_ensures(D::writes::<Comp>, (), false) && (
                        (found && call_ensures(E::writes::<Comp>, (), true))
                        || (call_ensures(E::writes::<Comp>, (), false) && (
                            (found && call_ensures(F::writes::<Comp>, (), true))
                            || (call_ensures(F::writes::<Comp>, (), false) && (
                                call_ensures(G::writes::<Comp>, (), found))))))))))))),
{
    (A::writes::<Comp>)()
        || (B::writes::<Comp>)()
        || (C::writes::<Comp>)()
        || (D::writes::<Comp>)()
        || (E::writes::<Comp>)()
        || (F::writes::<Comp>)()
        || (G::writes::<Comp>)()
}

/// The slice of the first fetch of a tuple of 7 that holds `Comp`.
pub fn tuple7_find<'f, A: Fetch, B: Fetch, C: Fetch, D: Fetch, E: Fetch, F: Fetch, G: Fetch, Comp: 'static>(fetches: &'f (A, B, C, D, E, F, G)) -> (found: Option<&'f [Comp]>)
    ensures
        (found is Some && call_ensures(A::find::<Comp>, (&fetches.0,), found))
        || (call_ensures(A::find::<Comp>, (&fetches.0,), None) && (
            (found is Some && call_ensures(B::find::<Comp>, (&fetches.1,), found))
            || (call_ensures(B::find::<Comp>, (&fetches.1,), None) && (
                (found is Some && call_ensures(C::find::<Comp>, (&fetches.2,), found))
                || (call_ensures(C::find::<Comp>, (&fetches.2,), None) && (
                    (found is Some && call_ensures(D::find::<Comp>, (&fetches.3,), found))
                    || (call_ensures(D::find::<Comp>, (&fetches.3,), None) && (
                        (found is Some && call_ensures(E::find::<Comp>, (&fetches.4,), found))
                        || (call_ensures(E::find::<Comp>, (&fetches.4,), None) && (
                            (found is Some && call_ensures(F::find::<Comp>, (&fetches.5,), found))
                            || (call_ensures(F::find::<Comp>, (&fetches.5,), None) && (
                                call_ensures(G::find::<Comp>, (&fetches.6,), found))))))))))))),
{
    let (a, b, c, d, e, f, g) = fetches;
    if let Some(slice) = (A::find::<Comp>)(a) {
        return Some(slice);
    }
    if let Some(slice) = (B::find::<Comp>)(b) {
        return Some(slice);
    }
    if let Some(slice) = (C::find::<Comp>)(c) {
        return Some(slice);
    }
    if let Some(slice) = (D::find::<Comp>)(d) {
        return Some(slice);
    }
    if let Some(slice) = (E::find::<Comp>)(e) {
        return Some(slice);
    }
    if let Some(slice) = (F::find::<Comp>)(f) {
        return Some(slice);
    }
    (G::find::<Comp>)(g)
}

/// The mutable slice of the first fetch of a tuple of 7 that holds `Comp`.
pub fn tuple7_find_mut<'f, A: Fetch, B: Fetch, C: Fetch, D: Fetch, E: Fetch, F: Fetch, G: Fetch, Comp: 'static>(fetches: &'f mut (A, B, C, D, E, F, G)) -> (found: Option<&'f mut [Comp]>)
    ensures
        exists|m: &mut A|
            *m == old(fetches).0
            && *final(m) == final(fetches).0
            && ((found is Some && call_ensures(A::find_mut::<Comp>, (m,), found) && final(fetches).1 == old(fetches).1 && final(fetches).2 == old(fetches).2 && final(fetches).3 == old(fetches).3 && final(fetches).4 == old(fetches).4 && final(fetches).5 == old(fetches).5 && final(fetches).6 == old(fetches).6)
            || (call_ensures(A::find_mut::<Comp>, (m,), None) && (
                exists|m: &mut B|
                    *m == old(fetches).1
                    && *final(m) == final(fetches).1
                    && ((found is Some && call_ensures(B::find_mut::<Comp>, (m,), found) && final(fetches).2 == old(fetches).2 && final(fetches).3 == old(fetches).3 && final(fetches).4 == old(fetches).4 && final(fetches).5 == old(fetches).5 && final(fetches).6 == old(fetches).6)
                    || (call_ensures(B::find_mut::<Comp>, (m,), None) && (
                        exists|m: &mut C|
                            *m == old(fetches).2
                            && *final(m) == final(fetches).2
                            && ((found is Some && call_ensures(C::find_mut::<Comp>, (m,), found) && final(fetches).3 == old(fetches).3 && final(fetches).4 == old(fetches).4 && final(fetches).5 == old(fetches).5 && final(fetches).6 == old(fetches).6)
                            || (call_ensures(C::find_mut::<Comp>, (m,), None) && (
                                exists|m: &mut D|
                                    *m == old(fetches).3
                                    && *final(m) == final(fetches).3
                                    && ((found is Some && call_ensures(D::find_mut::<Comp>, (m,), found) && final(fetches).4 == old(fetches).4 && final(fetches).5 == old(fetches).5 && final(fetches).6 == old(fetches).6)
                                    || (call_ensures(D::find_mut::<Comp>, (m,), None) && (
                                        exists|m: &mut E|
                                            *m == old(fetches).4
                                            && *final(m) == final(fetches).4
                                            && ((found is Some && call_ensures(E::find_mut::<Comp>, (m,), found) && final(fetches).5 == old(fetches).5 && final(fetches).6 == old(fetches).6)
                                            || (call_ensures(E::find_mut::<Comp>, (m,), None) && (
                                                exists|m: &mut F|
                                                    *m == old(fetches).5
                                                    && *final(m) == final(fetches).5
                                                    && ((found is Some && call_ensures(F::find_mut::<Comp>, (m,), found) && final(fetches).6 == old(fetches).6)
                                                    || (call_ensures(F::find_mut::<Comp>, (m,), None) && (
                                                        exists|m: &mut G|
                                                            *m == old(fetches).6
                                                            && *final(m) == final(fetches).6
                                                            && call_ensures(G::find_mut::<Comp>, (m,), found))))))))))))))))))),
{
    let found = (A::find_mut::<Comp>)(&mut fetches.0);
    if found.is_some() {
        return found;
    }
    let found = (B::find_mut::<Comp>)(&mut fetches.1);
    if found.is_some() {
        return found;
    }
    let found = (C::find_mut::<Comp>)(&mut fetches.2);
    if found.is_some() {
        return found;
    }
    let found = (D::find_mut::<Comp>)(&mut fetches.3);
    if found.is_some() {
        return found;
    }
    let found = (E::find_mut::<Comp>)(&mut fetches.4);
    if found.is_some() {
        return found;
    }
    let found = (F::find_mut::<Comp>)(&mut fetches.5);
    if found.is_some() {
        return found;
    }
    (G::find_mut::<Comp>)(&mut fetches.6)
}

/// The version of `Comp` in the first fetch of a tuple of 7 that holds it.
pub fn tuple7_version<A: Fetch, B: Fetch, C: Fetch, D: Fetch, E: Fetch, F: Fetch, G: Fetch, Comp: Component>(fetches: &(A, B, C, D, E, F, G)) -> (version: Option<u64>)
    ensures
        (version is Some && call_ensures(A::version::<Comp>, (&fetches.0,), version))
        || (call_ensures(A::version::<Comp>, (&fetches.0,), None) && (
            (version is Some && call_ensures(B::version::<Comp>, (&fetches.1,), version))
            || (call_ensures(B::version::<Comp>, (&fetches.1,), None) && (
                (version is Some && call_ensures(C::version::<Comp>, (&fetches.2,), version))
                || (call_ensures(C::version::<Comp>, (&fetches.2,), None) && (
                    (version is Some && call_ensures(D::version::<Comp>, (&fetches.3,), version))
                    || (call_ensures(D::version::<Comp>, (&fetches.3,), None) && (
                        (version is Some && call_ensures(E::version::<Comp>, (&fetches.4,), version))
                        || (call_ensures(E::version::<Comp>, (&fetches.4,), None) && (
                            (version is Some && call_ensures(F::version::<Comp>, (&fetches.5,), version))
                            || (call_ensures(F::version::<Comp>, (&fetches.5,), None) && (
                                call_ensures(G::version::<Comp>, (&fetches.6,), version))))))))))))),
{
    let (a, b, c, d, e, f, g) = fetches;
    if let Some(version) = (A::version::<Comp>)(a) {
        return Some(version);
    }
    if let Some(version) = (B::version::<Comp>)(b) {
        return Some(version);
    }
    if let Some(version) = (C::version::<Comp>)(c) {
        return Some(version);
    }
    if let Some(version) = (D::version::<Comp>)(d) {
        return Some(version);
    }
    if let Some(version) = (E::version::<Comp>)(e) {
        return Some(version);
    }
    if let Some(version) = (F::version::<Comp>)(f) {
        return Some(version);
    }
    (G::version::<Comp>)(g)
}

// Tuples of 8 views.

impl<A: DefaultFilter, B: DefaultFilter, C: DefaultFilter, D: DefaultFilter, E: DefaultFilter, F: DefaultFilter, G: DefaultFilter, H: DefaultFilter> DefaultFilter for (A, B, C, D, E, F, G, H) {
    type Filter = (A::Filter, B::Filter, C::Filter, D::Filter, E::Filter, F::Filter, G::Filter, H::Filter);
}

impl<'a, A: View<'a> + 'a, B: View<'a> + 'a, C: View<'a> + 'a, D: View<'a> + 'a, E: View<'a> + 'a, F: View<'a> + 'a, G: View<'a> + 'a, H: View<'a> + 'a> View<'a> for (A, B, C, D, E, F, G, H) {
    type Element = <Self::Fetch as IntoIndexableIter>::Item;
    type Fetch = MultiFetch<'a, (A::Fetch, B::Fetch, C::Fetch, D::Fetch, E::Fetch, F::Fetch, G::Fetch, H::Fetch)>;

    fn validate() -> (valid: bool)
        ensures
            exists|reads: Seq<Vec<ComponentTypeId>>, writes: Seq<Vec<ComponentTypeId>>|
                reads.len() == 8 && writes.len() == 8
                && call_ensures(A::reads_types, (), reads[0])
                && call_ensures(A::writes_types, (), writes[0])
                && call_ensures(B::reads_types, (), reads[1])
                && call_ensures(B::writes_types, (), writes[1])
                && call_ensures(C::reads_types, (), reads[2])
                && call_ensures(C::writes_types, (), writes[2])
                && call_ensures(D::reads_types, (), reads[3])
                && call_ensures(D::writes_types, (), writes[3])
                && call_ensures(E::reads_types, (), reads[4])
                && call_ensures(E::writes_types, (), writes[4])
                && call_ensures(F::reads_types, (), reads[5])
                && call_ensures(F::writes_types, (), writes[5])
                && call_ensures(G::reads_types, (), reads[6])
                && call_ensures(G::writes_types, (), writes[6])
                && call_ensures(H::reads_types, (), reads[7])
                && call_ensures(H::writes_types, (), writes[7])
                && valid == conflict_free(type_lists(reads), type_lists(writes)),
    {
        let reads = vec![(A::reads_types)(), (B::reads_types)(), (C::reads_types)(), (D::reads_types)(), (E::reads_types)(), (F::reads_types)(), (G::reads_types)(), (H::reads_types)()];
        let writes = vec![(A::writes_types)(), (B::writes_types)(), (C::writes_types)(), (D::writes_types)(), (E::writes_types)(), (F::writes_types)(), (G::writes_types)(), (H::writes_types)()];
        let valid = accesses_conflict_free(&reads, &writes);
        assert(
            reads@.len() == 8 && writes@.len() == 8
            && call_ensures(A::reads_types, (), reads@[0])
            && call_ensures(A::writes_types, (), writes@[0])
            && call_ensures(B::reads_types, (), reads@[1])
            && call_ensures(B::writes_types, (), writes@[1])
            && call_ensures(C::reads_types, (), reads@[2])
            && call_ensures(C::writes_types, (), writes@[2])
            && call_ensures(D::reads_types, (), reads@[3])
            && call_ensures(D::writes_types, (), writes@[3])
            && call_ensures(E::reads_types, (), reads@[4])
            && call_ensures(E::writes_types, (), writes@[4])
            && call_ensures(F::reads_types, (), reads@[5])
            && call_ensures(F::writes_types, (), writes@[5])
            && call_ensures(G::reads_types, (), reads@[6])
            && call_ensures(G::writes_types, (), writes@[6])
            && call_ensures(H::reads_types, (), reads@[7])
            && call_ensures(H::writes_types, (), writes@[7])
            && valid == conflict_free(type_lists(reads@), type_lists(writes@))
        );
        valid
    }

    fn reads_types() -> (types: Vec<ComponentTypeId>)
        ensures
            exists|lists: Seq<Vec<ComponentTypeId>>|
                lists.len() == 8
                && call_ensures(A::reads_types, (), lists[0])
                && call_ensures(B::reads_types, (), lists[1])
                && call_ensures(C::reads_types, (), lists[2])
                && call_ensures(D::reads_types, (), lists[3])
                && call_ensures(E::reads_types, (), lists[4])
                && call_ensures(F::reads_types, (), lists[5])
                && call_ensures(G::reads_types, (), lists[6])
                && call_ensures(H::reads_types, (), lists[7])
                && types@ == type_lists(lists).flatten(),
    {
        let lists = vec![(A::reads_types)(), (B::reads_types)(), (C::reads_types)(), (D::reads_types)(), (E::reads_types)(), (F::reads_types)(), (G::reads_types)(), (H::reads_types)()];
        let ghost views = lists@;
        let types = concat_types(lists);
        assert(
            views.len() == 8
            && call_ensures(A::reads_types, (), views[0])
            && call_ensures(B::reads_types, (), views[1])
            && call_ensures(C::reads_types, (), views[2])
            && call_ensures(D::reads_types, (), views[3])
            && call_ensures(E::reads_types, (), views[4])
            && call_ensures(F::reads_types, (), views[5])
            && call_ensures(G::reads_types, (), views[6])
            && call_ensures(H::reads_types, (), views[7])
            && types@ == type_lists(views).flatten()
        );
        types
    }

    fn writes_types() -> (types: Vec<ComponentTypeId>)
        ensures
            exists|lists: Seq<Vec<ComponentTypeId>>|
                lists.len() == 8
                && call_ensures(A::writes_types, (), lists[0])
                && call_ensures(B::writes_types, (), lists[1])
                && call_ensures(C::writes_types, (), lists[2])
                && call_ensures(D::writes_types, (), lists[3])
                && call_ensures(E::writes_types, (), lists[4])
                && call_ensures(F::writes_types, (), lists[5])
                && call_ensures(G::writes_types, (), lists[6])
                && call_ensures(H::writes_types, (), lists[7])
                && types@ == type_lists(lists).flatten(),
    {
        let lists = vec![(A::writes_types)(), (B::writes_types)(), (C::writes_types)(), (D::writes_types)(), (E::writes_types)(), (F::writes_types)(), (G::writes_types)(), (H::writes_types)()];
        let ghost views = lists@;
        let types = concat_types(lists);
        assert(
            views.len() == 8
            && call_ensures(A::writes_types, (), views[0])
            && call_ensures(B::writes_types, (), views[1])
            && call_ensures(C::writes_types, (), views[2])
            && call_ensures(D::writes_types, (), views[3])
            && call_ensures(E::writes_types, (), views[4])
            && call_ensures(F::writes_types, (), views[5])
            && call_ensures(G::writes_types, (), views[6])
            && call_ensures(H::writes_types, (), views[7])
            && types@ == type_lists(views).flatten()
        );
        types
    }

    fn reads<Comp: Component>() -> bool {
        tuple8_reads::<'a, A, B, C, D, E, F, G, H, Comp>()
    }

    fn writes<Comp: Component>() -> bool {
        tuple8_writes::<'a, A, B, C, D, E, F, G, H, Comp>()
    }
}

impl<'a, A: Fetch, B: Fetch, C: Fetch, D: Fetch, E: Fetch, F: Fetch, G: Fetch, H: Fetch> IntoIndexableIter for MultiFetch<'a, (A, B, C, D, E, F, G, H)> {
    type Item = (A::Item, B::Item, C::Item, D::Item, E::Item, F::Item, G::Item, H::Item);
    type IntoIter = (A::IntoIter, B::IntoIter, C::IntoIter, D::IntoIter, E::IntoIter, F::IntoIter, G::IntoIter, H::IntoIter);

    fn into_indexable_iter(self) -> (iter: Self::IntoIter)
        ensures
            call_ensures(A::into_indexable_iter, (self.fetches().0,), iter.0),
            call_ensures(B::into_indexable_iter, (self.fetches().1,), iter.1),
            call_ensures(C::into_indexable_iter, (self.fetches().2,), iter.2),
            call_ensures(D::into_indexable_iter, (self.fetches().3,), iter.3),
            call_ensures(E::into_indexable_iter, (self.fetches().4,), iter.4),
            call_ensures(F::into_indexable_iter, (self.fetches().5,), iter.5),
            call_ensures(G::into_indexable_iter, (self.fetches().6,), iter.6),
            call_ensures(H::into_indexable_iter, (self.fetches().7,), iter.7),
    {
        let (a, b, c, d, e, f, g, h) = self.fetches;
        ((A::into_indexable_iter)(a), (B::into_indexable_iter)(b), (C::into_indexable_iter)(c), (D::into_indexable_iter)(d), (E::into_indexable_iter)(e), (F::into_indexable_iter)(f), (G::into_indexable_iter)(g), (H::into_indexable_iter)(h))
    }
}

impl<'a, A: Fetch, B: Fetch, C: Fetch, D: Fetch, E: Fetch, F: Fetch, G: Fetch, H: Fetch> Fetch for MultiFetch<'a, (A, B, C, D, E, F, G, H)> {
    type Data = (A::Data, B::Data, C::Data, D::Data, E::Data, F::Data, G::Data, H::Data);

    fn into_components(self) -> (data: Self::Data)
        ensures
            call_ensures(A::into_components, (self.fetches().0,), data.0),
            call_ensures(B::into_components, (self.fetches().1,), data.1),
            call_ensures(C::into_components, (self.fetches().2,), data.2),
            call_ensures(D::into_components, (self.fetches().3,), data.3),
            call_ensures(E::into_components, (self.fetches().4,), data.4),
            call_ensures(F::into_components, (self.fetches().5,), data.5),
            call_ensures(G::into_components, (self.fetches().6,), data.6),
            call_ensures(H::into_components, (self.fetches().7,), data.7),
    {
        let (a, b, c, d, e, f, g, h) = self.fetches;
        ((A::into_components)(a), (B::into_components)(b), (C::into_components)(c), (D::into_components)(d), (E::into_components)(e), (F::into_components)(f), (G::into_components)(g), (H::into_components)(h))
    }

    fn find<Comp: 'static>(&self) -> Option<&[Comp]> {
        tuple8_find::<A, B, C, D, E, F, G, H, Comp>(&self.fetches)
    }

    fn find_mut<Comp: 'static>(&mut self) -> Option<&mut [Comp]> {
        tuple8_find_mut::<A, B, C, D, E, F, G, H, Comp>(&mut self.fetches)
    }

    fn version<Comp: Component>(&self) -> Option<u64> {
        tuple8_version::<A, B, C, D, E, F, G, H, Comp>(&self.fetches)
    }

    fn accepted(&mut self)
        ensures
            exists|m: &mut A|
                *m == old(self).fetches().0 && *final(m) == final(self).fetches().0
                && call_ensures(A::accepted, (m,), ()),
            exists|m: &mut B|
                *m == old(self).fetches().1 && *final(m) == final(self).fetches().1
                && call_ensures(B::accepted, (m,), ()),
            exists|m: &mut C|
                *m == old(self).fetches().2 && *final(m) == final(self).fetches().2
                && call_ensures(C::accepted, (m,), ()),
            exists|m: &mut D|
                *m == old(self).fetches().3 && *final(m) == final(self).fetches().3
                && call_ensures(D::accepted, (m,), ()),
            exists|m: &mut E|
                *m == old(self).fetches().4 && *final(m) == final(self).fetches().4
                && call_ensures(E::accepted, (m,), ()),
            exists|m: &mut F|
                *m == old(self).fetches().5 && *final(m) == final(self).fetches().5
                && call_ensures(F::accepted, (m,), ()),
            exists|m: &mut G|
                *m == old(self).fetches().6 && *final(m) == final(self).fetches().6
                && call_ensures(G::accepted, (m,), ()),
            exists|m: &mut H|
                *m == old(self).fetches().7 && *final(m) == final(self).fetches().7
                && call_ensures(H::accepted, (m,), ()),
    {
        let (a, b, c, d, e, f, g, h) = &mut self.fetches;
        (A::accepted)(a);
        (B::accepted)(b);
        (C::accepted)(c);
        (D::accepted)(d);
        (E::accepted)(e);
        (F::accepted)(f);
        (G::accepted)(g);
        (H::accepted)(h);
    }
}

impl<'a, A: ReadOnlyFetch, B: ReadOnlyFetch, C: ReadOnlyFetch, D: ReadOnlyFetch, E: ReadOnlyFetch, F: ReadOnlyFetch, G: ReadOnlyFetch, H: ReadOnlyFetch> ReadOnlyFetch for MultiFetch<'a, (A, B, C, D, E, F, G, H)> {
    fn get_components(&self) -> (data: Self::Data)
        ensures
            call_ensures(A::get_components, (&self.fetches().0,), data.0),
            call_ensures(B::get_components, (&self.fetches().1,), data.1),
            call_ensures(C::get_components, (&self.fetches().2,), data.2),
            call_ensures(D::get_components, (&self.fetches().3,), data.3),
            call_ensures(E::get_components, (&self.fetches().4,), data.4),
            call_ensures(F::get_components, (&self.fetches().5,), data.5),
            call_ensures(G::get_components, (&self.fetches().6,), data.6),
            call_ensures(H::get_components, (&self.fetches().7,), data.7),
    {
        let (a, b, c, d, e, f, g, h) = &self.fetches;
        ((A::get_components)(a), (B::get_components)(b), (C::get_components)(c), (D::get_components)(d), (E::get_components)(e), (F::get_components)(f), (G::get_components)(g), (H::get_components)(h))
    }
}

/// Whether some view of a tuple of 8 reads `Comp`, asking the views in order.
pub fn tuple8_reads<'a, A: View<'a> + 'a, B: View<'a> + 'a, C: View<'a> + 'a, D: View<'a> + 'a, E: View<'a> + 'a, F: View<'a> + 'a, G: View<'a> + 'a, H: View<'a> + 'a, Comp: Component>() -> (found: bool)
    ensures
        (found && call_ensures(A::reads::<Comp>, (), true))
        || (call_ensures(A::reads::<Comp>, (), false) && (
            (found && call_ensures(B::reads::<Comp>, (), true))
            || (call_ensures(B::reads::<Comp>, (), false) && (
                (found && call_ensures(C::reads::<Comp>, (), true))
                || (call_ensures(C::reads::<Comp>, (), false) && (
                    (found && call_ensures(D::reads::<Comp>, (), true))
                    || (call_ensures(D::reads::<Comp>, (), false) && (
                        (found && call_ensures(E::reads::<Comp>, (), true))
                        || (call_ensures(E::reads::<Comp>, (), false) && (
                            (found && call_ensures(F::reads::<Comp>, (), true))
                            || (call_ensures(F::reads::<Comp>, (), false) && (
                                (found && call_ensures(G::reads::<Comp>, (), true))
                                || (call_ensures(G::reads::<Comp>, (), false) && (
                                    call_ensures(H::reads::<Comp>, (), found))))))))))))))),
{
    (A::reads::<Comp>)()
        || (B::reads::<Comp>)()
        || (C::reads::<Comp>)()
        || (D::reads::<Comp>)()
        || (E::reads::<Comp>)()
        || (F::reads::<Comp>)()
        || (G::reads::<Comp>)()
        || (H::reads::<Comp>)()
}

/// Whether some view of a tuple of 8 writes `Comp`, asking the views in order.
pub fn tuple8_writes<'a, A: View<'a> + 'a, B: View<'a> + 'a, C: View<'a> + 'a, D: View<'a> + 'a, E: View<'a> + 'a, F: View<'a> + 'a, G: View<'a> + 'a, H: View<'a> + 'a, Comp: Component>() -> (found: bool)
    ensures
        (found && call_ensures(A::writes::<Comp>, (), true))
        || (call_ensures(A::writes::<Comp>, (), false) && (
            (found && call_ensures(B::writes::<Comp>, (), true))
            || (call_ensures(B::writes::<Comp>, (), false) && (
                (found && call_ensures(C::writes::<Comp>, (), true))
                || (call_ensures(C::writes::<Comp>, (), false) && (
                    (found && call_ensures(D::writes::<Comp>, (), true))
                    || (call_ensures(D::writes::<Comp>, (), false) && (
                        (found && call_ensures(E::writes::<Comp>, (), true))
                        || (call_ensures(E::writes::<Comp>, (), false) && (
                            (found && call_ensures(F::writes::<Comp>, (), true))
                            || (call_ensures(F::writes::<Comp>, (), false) && (
                                (found && call_ensures(G::writes::<Comp>, (), true))
                                || (call_ensures(G::writes::<Comp>, (), false) && (
                                    call_ensures(H::writes::<Comp>, (), found))))))))))))))),
{
    (A::writes::<Comp>)()
        || (B::writes::<Comp>)()
        || (C::writes::<Comp>)()
        || (D::writes::<Comp>)()
        || (E::writes::<Comp>)()
        || (F::writes::<Comp>)()
        || (G::writes::<Comp>)()
        || (H::writes::<Comp>)()
}

/// The slice of the first fetch of a tuple of 8 that holds `Comp`.
pub fn tuple8_find<'f, A: Fetch, B: Fetch, C: Fetch, D: Fetch, E: Fetch, F: Fetch, G: Fetch, H: Fetch, Comp: 'static>(fetches: &'f (A, B, C, D, E, F, G, H)) -> (found: Option<&'f [Comp]>)
    ensures
        (found is Some && call_ensures(A::find::<Comp>, (&fetches.0,), found))
        || (call_ensures(A::find::<Comp>, (&fetches.0,), None) && (
            (found is Some && call_ensures(B::find::<Comp>, (&fetches.1,), found))
            || (call_ensures(B::find::<Comp>, (&fetches.1,), None) && (
                (found is Some && call_ensures(C::find::<Comp>, (&fetches.2,), found))
                || (call_ensures(C::find::<Comp>, (&fetches.2,), None) && (
                    (found is Some && call_ensures(D::find::<Comp>, (&fetches.3,), found))
                    || (call_ensures(D::find::<Comp>, (&fetches.3,), None) && (
                        (found is Some && call_ensures(E::find::<Comp>, (&fetches.4,), found))
                        || (call_ensures(E::find::<Comp>, (&fetches.4,), None) && (
                            (found is Some && call_ensures(F::find::<Comp>, (&fetches.5,), found))
                            || (call_ensures(F::find::<Comp>, (&fetches.5,), None) && (
                                (found is Some && call_ensures(G::find::<Comp>, (&fetches.6,), found))
                                || (call_ensures(G::find::<Comp>, (&fetches.6,), None) && (
                                    call_ensures(H::find::<Comp>, (&fetches.7,), found))))))))))))))),
{
    let (a, b, c, d, e, f, g, h) = fetches;
    if let Some(slice) = (A::find::<Comp>)(a) {
        return Some(slice);
    }
    if let Some(slice) = (B::find::<Comp>)(b) {
        return Some(slice);
    }
    if let Some(slice) = (C::find::<Comp>)(c) {
        return Some(slice);
    }
    if let Some(slice) = (D::find::<Comp>)(d) {
        return Some(slice);
    }
    if let Some(slice) = (E::find::<Comp>)(e) {
        return Some(slice);
    }
    if let Some(slice) = (F::find::<Comp>)(f) {
        return Some(slice);
    }
    if let Some(slice) = (G::find::<Comp>)(g) {
        return Some(slice);
    }
    (H::find::<Comp>)(h)
}

/// The mutable slice of the first fetch of a tuple of 8 that holds `Comp`.
pub fn tuple8_find_mut<'f, A: Fetch, B: Fetch, C: Fetch, D: Fetch, E: Fetch, F: Fetch, G: Fetch, H: Fetch, Comp: 'static>(fetches: &'f mut (A, B, C, D, E, F, G, H)) -> (found: Option<&'f mut [Comp]>)
    ensures
        exists|m: &mut A|
            *m == old(fetches).0
            && *final(m) == final(fetches).0
            && ((found is Some && call_ensures(A::find_mut::<Comp>, (m,), found) && final(fetches).1 == old(fetches).1 && final(fetches).2 == old(fetches).2 && final(fetches).3 == old(fetches).3 && final(fetches).4 == old(fetches).4 && final(fetches).5 == old(fetches).5 && final(fetches).6 == old(fetches).6 && final(fetches).7 == old(fetches).7)
            || (call_ensures(A::find_mut::<Comp>, (m,), None) && (
                exists|m: &mut B|
                    *m == old(fetches).1
                    && *final(m) == final(fetches).1
                    && ((found is Some && call_ensures(B::find_mut::<Comp>, (m,), found) && final(fetches).2 == old(fetches).2 && final(fetches).3 == old(fetches).3 && final(fetches).4 == old(fetches).4 && final(fetches).5 == old(fetches).5 && final(fetches).6 == old(fetches).6 && final(fetches).7 == old(fetches).7)
                    || (call_ensures(B::find_mut::<Comp>, (m,), None) && (
                        exists|m: &mut C|
                            *m == old(fetches).2
                            && *final(m) == final(fetches).2
                            && ((found is Some && call_ensures(C::find_mut::<Comp>, (m,), found) && final(fetches).3 == old(fetches).3 && final(fetches).4 == old(fetches).4 && final(fetches).5 == old(fetches).5 && final(fetches).6 == old(fetches).6 && final(fetches).7 == old(fetches).7)
                            || (call_ensures(C::find_mut::<Comp>, (m,), None) && (
                                exists|m: &mut D|
                                    *m == old(fetches).3
                                    && *final(m) == final(fetches).3
                                    && ((found is Some && call_ensures(D::find_mut::<Comp>, (m,), found) && final(fetches).4 == old(fetches).4 && final(fetches).5 == old(fetches).5 && final(fetches).6 == old(fetches).6 && final(fetches).7 == old(fetches).7)
                                    || (call_ensures(D::find_mut::<Comp>, (m,), None) && (
                                        exists|m: &mut E|
                                            *m == old(fetches).4
                                            && *final(m) == final(fetches).4
                                            && ((found is Some && call_ensures(E::find_mut::<Comp>, (m,), found) && final(fetches).5 == old(fetches).5 && final(fetches).6 == old(fetches).6 && final(fetches).7 == old(fetches).7)
                                            || (call_ensures(E::find_mut::<Comp>, (m,), None) && (
                                                exists|m: &mut F|
                                                    *m == old(fetches).5
                                                    && *final(m) == final(fetches).5
                                                    && ((found is Some && call_ensures(F::find_mut::<Comp>, (m,), found) && final(fetches).6 == old(fetches).6 && final(fetches).7 == old(fetches).7)
                                                    || (call_ensures(F::find_mut::<Comp>, (m,), None) && (
                                                        exists|m: &mut G|
                                                            *m == old(fetches).6
                                                            && *final(m) == final(fetches).6
                                                            && ((found is Some && call_ensures(G::find_mut::<Comp>, (m,), found) && final(fetches).7 == old(fetches).7)
                                                            || (call_ensures(G::find_mut::<Comp>, (m,), None) && (
                                                                exists|m: &mut H|
                                                                    *m == old(fetches).7
                                                                    && *final(m) == final(fetches).7
                                                                    && call_ensures(H::find_mut::<Comp>, (m,), found)))))))))))))))))))))),
{
    let found = (A::find_mut::<Comp>)(&mut fetches.0);
    if found.is_some() {
        return found;
    }
    let found = (B::find_mut::<Comp>)(&mut fetches.1);
    if found.is_some() {
        return found;
    }
    let found = (C::find_mut::<Comp>)(&mut fetches.2);
    if found.is_some() {
        return found;
    }
    let found = (D::find_mut::<Comp>)(&mut fetches.3);
    if found.is_some() {
        return found;
    }
    let found = (E::find_mut::<Comp>)(&mut fetches.4);
    if found.is_some() {
        return found;
    }
    let found = (F::find_mut::<Comp>)(&mut fetches.5);
    if found.is_some() {
        return found;
    }
    let found = (G::find_mut::<Comp>)(&mut fetches.6);
    if found.is_some() {
        return found;
    }
    (H::find_mut::<Comp>)(&mut fetches.7)
}

/// The version of `Comp` in the first fetch of a tuple of 8 that holds it.
pub fn tuple8_version<A: Fetch, B: Fetch, C: Fetch, D: Fetch, E: Fetch, F: Fetch, G: Fetch, H: Fetch, Comp: Component>(fetches: &(A, B, C, D, E, F, G, H)) -> (version: Option<u64>)
    ensures
        (version is Some && call_ensures(A::version::<Comp>, (&fetches.0,), version))
        || (call_ensures(A::version::<Comp>, (&fetches.0,), None) && (
            (version is Some && call_ensures(B::version::<Comp>, (&fetches.1,), version))
            || (call_ensures(B::version::<Comp>, (&fetches.1,), None) && (
                (version is Some && call_ensures(C::version::<Comp>, (&fetches.2,), version))
                || (call_ensures(C::version::<Comp>, (&fetches.2,), None) && (
                    (version is Some && call_ensures(D::version::<Comp>, (&fetches.3,), version))
                    || (call_ensures(D::version::<Comp>, (&fetches.3,), None) && (
                        (version is Some && call_ensures(E::version::<Comp>, (&fetches.4,), version))
                        || (call_ensures(E::version::<Comp>, (&fetches.4,), None) && (
                            (version is Some && call_ensures(F::version::<Comp>, (&fetches.5,), version))
                            || (call_ensures(F::version::<Comp>, (&fetches.5,), None) && (
                                (version is Some && call_ensures(G::version::<Comp>, (&fetches.6,), version))
                                || (call_ensures(G::version::<Comp>, (&fetches.6,), None) && (
                                    call_ensures(H::version::<Comp>, (&fetches.7,), version))))))))))))))),
{
    let (a, b, c, d, e, f, g, h) = fetches;
    if let Some(version) = (A::version::<Comp>)(a) {
        return Some(version);
    }
    if let Some(version) = (B::version::<Comp>)(b) {
        return Some(version);
    }
    if let Some(version) = (C::version::<Comp>)(c) {
        return Some(version);
    }
    if let Some(version) = (D::version::<Comp>)(d) {
        return Some(version);
    }
    if let Some(version) = (E::version::<Comp>)(e) {
        return Some(version);
    }
    if let Some(version) = (F::version::<Comp>)(f) {
        return Some(version);
    }
    if let Some(version) = (G::version::<Comp>)(g) {
        return Some(version);
    }
    (H::version::<Comp>)(h)
}

// Tuples of 9 views.

impl<A: DefaultFilter, B: DefaultFilter, C: DefaultFilter, D: DefaultFilter, E: DefaultFilter, F: DefaultFilter, G: DefaultFilter, H: DefaultFilter, I: DefaultFilter> DefaultFilter for (A, B, C, D, E, F, G, H, I) {
    type Filter = (A::Filter, B::Filter, C::Filter, D::Filter, E::Filter, F::Filter, G::Filter, H::Filter, I::Filter);
}

impl<'a, A: View<'a> + 'a, B: View<'a> + 'a, C: View<'a> + 'a, D: View<'a> + 'a, E: View<'a> + 'a, F: View<'a> + 'a, G: View<'a> + 'a, H: View<'a> + 'a, I: View<'a> + 'a> View<'a> for (A, B, C, D, E, F, G, H, I) {
    type Element = <Self::Fetch as IntoIndexableIter>::Item;
    type Fetch = MultiFetch<'a, (A::Fetch, B::Fetch, C::Fetch, D::Fetch, E::Fetch, F::Fetch, G::Fetch, H::Fetch, I::Fetch)>;

    fn validate() -> (valid: bool)
        ensures
            exists|reads: Seq<Vec<ComponentTypeId>>, writes: Seq<Vec<ComponentTypeId>>|
                reads.len() == 9 && writes.len() == 9
                && call_ensures(A::reads_types, (), reads[0])
                && call_ensures(A::writes_types, (), writes[0])
                && call_ensures(B::reads_types, (), reads[1])
                && call_ensures(B::writes_types, (), writes[1])
                && call_ensures(C::reads_types, (), reads[2])
                && call_ensures(C::writes_types, (), writes[2])
                && call_ensures(D::reads_types, (), reads[3])
                && call_ensures(D::writes_types, (), writes[3])
                && call_ensures(E::reads_types, (), reads[4])
                && call_ensures(E::writes_types, (), writes[4])
                && call_ensures(F::reads_types, (), reads[5])
                && call_ensures(F::writes_types, (), writes[5])
                && call_ensures(G::reads_types, (), reads[6])
                && call_ensures(G::writes_types, (), writes[6])
                && call_ensures(H::reads_types, (), reads[7])
                && call_ensures(H::writes_types, (), writes[7])
                && call_ensures(I::reads_types, (), reads[8])
                && call_ensures(I::writes_types, (), writes[8])
                && valid == conflict_free(type_lists(reads), type_lists(writes)),
    {
        let reads = vec![(A::reads_types)(), (B::reads_types)(), (C::reads_types)(), (D::reads_types)(), (E::reads_types)(), (F::reads_types)(), (G::reads_types)(), (H::reads_types)(), (I::reads_types)()];
        let writes = vec![(A::writes_types)(), (B::writes_types)(), (C::writes_types)(), (D::writes_types)(), (E::writes_types)(), (F::writes_types)(), (G::writes_types)(), (H::writes_types)(), (I::writes_types)()];
        let valid = accesses_conflict_free(&reads, &writes);
        assert(
            reads@.len() == 9 && writes@.len() == 9
            && call_ensures(A::reads_types, (), reads@[0])
            && call_ensures(A::writes_types, (), writes@[0])
            && call_ensures(B::reads_types, (), reads@[1])
            && call_ensures(B::writes_types, (), writes@[1])
            && call_ensures(C::reads_types, (), reads@[2])
            && call_ensures(C::writes_types, (), writes@[2])
            && call_ensures(D::reads_types, (), reads@[3])
            && call_ensures(D::writes_types, (), writes@[3])
            && call_ensures(E::reads_types, (), reads@[4])
            && call_ensures(E::writes_types, (), writes@[4])
            && call_ensures(F::reads_types, (), reads@[5])
            && call_ensures(F::writes_types, (), writes@[5])
            && call_ensures(G::reads_types, (), reads@[6])
            && call_ensures(G::writes_types, (), writes@[6])
            && call_ensures(H::reads_types, (), reads@[7])
            && call_ensures(H::writes_types, (), writes@[7])
            && call_ensures(I::reads_types, (), reads@[8])
            && call_ensures(I::writes_types, (), writes@[8])
            && valid == conflict_free(type_lists(reads@), type_lists(writes@))
        );
        valid
    }

    fn reads_types() -> (types: Vec<ComponentTypeId>)
        ensures
            exists|lists: Seq<Vec<ComponentTypeId>>|
                lists.len() == 9
                && call_ensures(A::reads_types, (), lists[0])
                && call_ensures(B::reads_types, (), lists[1])
                && call_ensures(C::reads_types, (), lists[2])
                && call_ensures(D::reads_types, (), lists[3])
                && call_ensures(E::reads_types, (), lists[4])
                && call_ensures(F::reads_types, (), lists[5])
                && call_ensures(G::reads_types, (), lists[6])
                && call_ensures(H::reads_types, (), lists[7])
                && call_ensures(I::reads_types, (), lists[8])
                && types@ == type_lists(lists).flatten(),
    {
        let lists = vec![(A::reads_types)(), (B::reads_types)(), (C::reads_types)(), (D::reads_types)(), (E::reads_types)(), (F::reads_types)(), (G::reads_types)(), (H::reads_types)(), (I::reads_types)()];
        let ghost views = lists@;
        let types = concat_types(lists);
        assert(
            views.len() == 9
            && call_ensures(A::reads_types, (), views[0])
            && call_ensures(B::reads_types, (), views[1])
            && call_ensures(C::reads_types, (), views[2])
            && call_ensures(D::reads_types, (), views[3])
            && call_ensures(E::reads_types, (), views[4])
            && call_ensures(F::reads_types, (), views[5])
            && call_ensures(G::reads_types, (), views[6])
            && call_ensures(H::reads_types, (), views[7])
            && call_ensures(I::reads_types, (), views[8])
            && types@ == type_lists(views).flatten()
        );
        types
    }

    fn writes_types() -> (types: Vec<ComponentTypeId>)
        ensures
            exists|lists: Seq<Vec<ComponentTypeId>>|
                lists.len() == 9
                && call_ensures(A::writes_types, (), lists[0])
                && call_ensures(B::writes_types, (), lists[1])
                && call_ensures(C::writes_types, (), lists[2])
                && call_ensures(D::writes_types, (), lists[3])
                && call_ensures(E::writes_types, (), lists[4])
                && call_ensures(F::writes_types, (), lists[5])
                && call_ensures(G::writes_types, (), lists[6])
                && call_ensures(H::writes_types, (), lists[7])
                && call_ensures(I::writes_types, (), lists[8])
                && types@ == type_lists(lists).flatten(),
    {
        let lists = vec![(A::writes_types)(), (B::writes_types)(), (C::writes_types)(), (D::writes_types)(), (E::writes_types)(), (F::writes_types)(), (G::writes_types)(), (H::writes_types)(), (I::writes_types)()];
        let ghost views = lists@;
        let types = concat_types(lists);
        assert(
            views.len() == 9
            && call_ensures(A::writes_types, (), views[0])
            && call_ensures(B::writes_types, (), views[1])
            && call_ensures(C::writes_types, (), views[2])
            && call_ensures(D::writes_types, (), views[3])
            && call_ensures(E::writes_types, (), views[4])
            && call_ensures(F::writes_types, (), views[5])
            && call_ensures(G::writes_types, (), views[6])
            && call_ensures(H::writes_types, (), views[7])
            && call_ensures(I::writes_types, (), views[8])
            && types@ == type_lists(views).flatten()
        );
        types
    }

    fn reads<Comp: Component>() -> bool {
        tuple9_reads::<'a, A, B, C, D, E, F, G, H, I, Comp>()
    }

    fn writes<Comp: Component>() -> bool {
        tuple9_writes::<'a, A, B, C, D, E, F, G, H, I, Comp>()
    }
}

impl<'a, A: Fetch, B: Fetch, C: Fetch, D: Fetch, E: Fetch, F: Fetch, G: Fetch, H: Fetch, I: Fetch> IntoIndexableIter for MultiFetch<'a, (A, B, C, D, E, F, G, H, I)> {
    type Item = (A::Item, B::Item, C::Item, D::Item, E::Item, F::Item, G::Item, H::Item, I::Item);
    type IntoIter = (A::IntoIter, B::IntoIter, C::IntoIter, D::IntoIter, E::IntoIter, F::IntoIter, G::IntoIter, H::IntoIter, I::IntoIter);

    fn into_indexable_iter(self) -> (iter: Self::IntoIter)
        ensures
            call_ensures(A::into_indexable_iter, (self.fetches().0,), iter.0),
            call_ensures(B::into_indexable_iter, (self.fetches().1,), iter.1),
            call_ensures(C::into_indexable_iter, (self.fetches().2,), iter.2),
            call_ensures(D::into_indexable_iter, (self.fetches().3,), iter.3),
            call_ensures(E::into_indexable_iter, (self.fetches().4,), iter.4),
            call_ensures(F::into_indexable_iter, (self.fetches().5,), iter.5),
            call_ensures(G::into_indexable_iter, (self.fetches().6,), iter.6),
            call_ensures(H::into_indexable_iter, (self.fetches().7,), iter.7),
            call_ensures(I::into_indexable_iter, (self.fetches().8,), iter.8),
    {
        let (a, b, c, d, e, f, g, h, i) = self.fetches;
        ((A::into_indexable_iter)(a), (B::into_indexable_iter)(b), (C::into_indexable_iter)(c), (D::into_indexable_iter)(d), (E::into_indexable_iter)(e), (F::into_indexable_iter)(f), (G::into_indexable_iter)(g), (H::into_indexable_iter)(h), (I::into_indexable_iter)(i))
    }
}

impl<'a, A: Fetch, B: Fetch, C: Fetch, D: Fetch, E: Fetch, F: Fetch, G: Fetch, H: Fetch, I: Fetch> Fetch for MultiFetch<'a, (A, B, C, D, E, F, G, H, I)> {
    type Data = (A::Data, B::Data, C::Data, D::Data, E::Data, F::Data, G::Data, H::Data, I::Data);

    fn into_components(self) -> (data: Self::Data)
        ensures
            call_ensures(A::into_components, (self.fetches().0,), data.0),
            call_ensures(B::into_components, (self.fetches().1,), data.1),
            call_ensures(C::into_components, (self.fetches().2,), data.2),
            call_ensures(D::into_components, (self.fetches().3,), data.3),
            call_ensures(E::into_components, (self.fetches().4,), data.4),
            call_ensures(F::into_components, (self.fetches().5,), data.5),
            call_ensures(G::into_components, (self.fetches().6,), data.6),
            call_ensures(H::into_components, (self.fetches().7,), data.7),
            call_ensures(I::into_components, (self.fetches().8,), data.8),
    {
        let (a, b, c, d, e, f, g, h, i) = self.fetches;
        ((A::into_components)(a), (B::into_components)(b), (C::into_components)(c), (D::into_components)(d), (E::into_components)(e), (F::into_components)(f), (G::into_components)(g), (H::into_components)(h), (I::into_components)(i))
    }

    fn find<Comp: 'static>(&self) -> Option<&[Comp]> {
        tuple9_find::<A, B, C, D, E, F, G, H, I, Comp>(&self.fetches)
    }

    fn find_mut<Comp: 'static>(&mut self) -> Option<&mut [Comp]> {
        tuple9_find_mut::<A, B, C, D, E, F, G, H, I, Comp>(&mut self.fetches)
    }

    fn version<Comp: Component>(&self) -> Option<u64> {
        tuple9_version::<A, B, C, D, E, F, G, H, I, Comp>(&self.fetches)
    }

    fn accepted(&mut self)
        ensures
            exists|m: &mut A|
                *m == old(self).fetches().0 && *final(m) == final(self).fetches().0
                && call_ensures(A::accepted, (m,), ()),
            exists|m: &mut B|
                *m == old(self).fetches().1 && *final(m) == final(self).fetches().1
                && call_ensures(B::accepted, (m,), ()),
            exists|m: &mut C|
                *m == old(self).fetches().2 && *final(m) == final(self).fetches().2
                && call_ensures(C::accepted, (m,), ()),
            exists|m: &mut D|
                *m == old(self).fetches().3 && *final(m) == final(self).fetches().3
                && call_ensures(D::accepted, (m,), ()),
            exists|m: &mut E|
                *m == old(self).fetches().4 && *final(m) == final(self).fetches().4
                && call_ensures(E::accepted, (m,), ()),
            exists|m: &mut F|
                *m == old(self).fetches().5 && *final(m) == final(self).fetches().5
                && call_ensures(F::accepted, (m,), ()),
            exists|m: &mut G|
                *m == old(self).fetches().6 && *final(m) == final(self).fetches().6
                && call_ensures(G::accepted, (m,), ()),
            exists|m: &mut H|
                *m == old(self).fetches().7 && *final(m) == final(self).fetches().7
                && call_ensures(H::accepted, (m,), ()),
            exists|m: &mut I|
                *m == old(self).fetches().8 && *final(m) == final(self).fetches().8
                && call_ensures(I::accepted, (m,), ()),
    {
        let (a, b, c, d, e, f, g, h, i) = &mut self.fetches;
        (A::accepted)(a);
        (B::accepted)(b);
        (C::accepted)(c);
        (D::accepted)(d);
        (E::accepted)(e);
        (F::accepted)(f);
        (G::accepted)(g);
        (H::accepted)(h);
        (I::accepted)(i);
    }
}

impl<'a, A: ReadOnlyFetch, B: ReadOnlyFetch, C: ReadOnlyFetch, D: ReadOnlyFetch, E: ReadOnlyFetch, F: ReadOnlyFetch, G: ReadOnlyFetch, H: ReadOnlyFetch, I: ReadOnlyFetch> ReadOnlyFetch for MultiFetch<'a, (A, B, C, D, E, F, G, H, I)> {
    fn get_components(&self) -> (data: Self::Data)
        ensures
            call_ensures(A::get_components, (&self.fetches().0,), data.0),
            call_ensures(B::get_components, (&self.fetches().1,), data.1),
            call_ensures(C::get_components, (&self.fetches().2,), data.2),
            call_ensures(D::get_components, (&self.fetches().3,), data.3),
            call_ensures(E::get_components, (&self.fetches().4,), data.4),
            call_ensures(F::get_components, (&self.fetches().5,), data.5),
            call_ensures(G::get_components, (&self.fetches().6,), data.6),
            call_ensures(H::get_components, (&self.fetches().7,), data.7),
            call_ensures(I::get_components, (&self.fetches().8,), data.8),
    {
        let (a, b, c, d, e, f, g, h, i) = &self.fetches;
        ((A::get_components)(a), (B::get_components)(b), (C::get_components)(c), (D::get_components)(d), (E::get_components)(e), (F::get_components)(f), (G::get_components)(g), (H::get_components)(h), (I::get_components)(i))
    }
}

/// Whether some view of a tuple of 9 reads `Comp`, asking the views in order.
pub fn tuple9_reads<'a, A: View<'a> + 'a, B: View<'a> + 'a, C: View<'a> + 'a, D: View<'a> + 'a, E: View<'a> + 'a, F: View<'a> + 'a, G: View<'a> + 'a, H: View<'a> + 'a, I: View<'a> + 'a, Comp: Component>() -> (found: bool)
    ensures
        (found && call_ensures(A::reads::<Comp>, (), true))
        || (call_ensures(A::reads::<Comp>, (), false) && (
            (found && call_ensures(B::reads::<Comp>, (), true))
            || (call_ensures(B::reads::<Comp>, (), false) && (
                (found && call_ensures(C::reads::<Comp>, (), true))
                || (call_ensures(C::reads::<Comp>, (), false) && (
                    (found && call_ensures(D::reads::<Comp>, (), true))
                    || (call_ensures(D::reads::<Comp>, (), false) && (
                        (found && call_ensures(E::reads::<Comp>, (), true))
                        || (call_ensures(E::reads::<Comp>, (), false) && (
                            (found && call_ensures(F::reads::<Comp>, (), true))
                            || (call_ensures(F::reads::<Comp>, (), false) && (
                                (found && call_ensures(G::reads::<Comp>, (), true))
                                || (call_ensures(G::reads::<Comp>, (), false) && (
                                    (found && call_ensures(H::reads::<Comp>, (), true))
                                    || (call_ensures(H::reads::<Comp>, (), false) && (
                                        call_ensures(I::reads::<Comp>, (), found))))))))))))))))),
{
    (A::reads::<Comp>)()
        || (B::reads::<Comp>)()
        || (C::reads::<Comp>)()
        || (D::reads::<Comp>)()
        || (E::reads::<Comp>)()
        || (F::reads::<Comp>)()
        || (G::reads::<Comp>)()
        || (H::reads::<Comp>)()
        || (I::reads::<Comp>)()
}

/// Whether some view of a tuple of 9 writes `Comp`, asking the views in order.
pub fn tuple9_writes<'a, A: View<'a> + 'a, B: View<'a> + 'a, C: View<'a> + 'a, D: View<'a> + 'a, E: View<'a> + 'a, F: View<'a> + 'a, G: View<'a> + 'a, H: View<'a> + 'a, I: View<'a> + 'a, Comp: Component>() -> (found: bool)
    ensures
        (found && call_ensures(A::writes::<Comp>, (), true))
        || (call_ensures(A::writes::<Comp>, (), false) && (
            (found && call_ensures(B::writes::<Comp>, (), true))
            || (call_ensures(B::writes::<Comp>, (), false) && (
                (found && call_ensures(C::writes::<Comp>, (), true))
                || (call_ensures(C::writes::<Comp>, (), false) && (
                    (found && call_ensures(D::writes::<Comp>, (), true))
                    || (call_ensures(D::writes::<Comp>, (), false) && (
                        (found && call_ensures(E::writes::<Comp>, (), true))
                        || (call_ensures(E::writes::<Comp>, (), false) && (
                            (found && call_ensures(F::writes::<Comp>, (), true))
                            || (call_ensures(F::writes::<Comp>, (), false) && (
                                (found && call_ensures(G::writes::<Comp>, (), true))
                                || (call_ensures(G::writes::<Comp>, (), false) && (
                                    (found && call_ensures(H::writes::<Comp>, (), true))
                                    || (call_ensures(H::writes::<Comp>, (), false) && (
                                        call_ensures(I::writes::<Comp>, (), found))))))))))))))))),
{
    (A::writes::<Comp>)()
        || (B::writes::<Comp>)()
        || (C::writes::<Comp>)()
        || (D::writes::<Comp>)()
        || (E::writes::<Comp>)()
        || (F::writes::<Comp>)()
        || (G::writes::<Comp>)()
        || (H::writes::<Comp>)()
        || (I::writes::<Comp>)()
}

/// The slice of the first fetch of a tuple of 9 that holds `Comp`.
pub fn tuple9_find<'f, A: Fetch, B: Fetch, C: Fetch, D: Fetch, E: Fetch, F: Fetch, G: Fetch, H: Fetch, I: Fetch, Comp: 'static>(fetches: &'f (A, B, C, D, E, F, G, H, I)) -> (found: Option<&'f [Comp]>)
    ensures
        (found is Some && call_ensures(A::find::<Comp>, (&fetches.0,), found))
        || (call_ensures(A::find::<Comp>, (&fetches.0,), None) && (
            (found is Some && call_ensures(B::find::<Comp>, (&fetches.1,), found))
            || (call_ensures(B::find::<Comp>, (&fetches.1,), None) && (
                (found is Some && call_ensures(C::find::<Comp>, (&fetches.2,), found))
                || (call_ensures(C::find::<Comp>, (&fetches.2,), None) && (
                    (found is Some && call_ensures(D::find::<Comp>, (&fetches.3,), found))
                    || (call_ensures(D::find::<Comp>, (&fetches.3,), None) && (
                        (found is Some && call_ensures(E::find::<Comp>, (&fetches.4,), found))
                        || (call_ensures(E::find::<Comp>, (&fetches.4,), None) && (
                            (found is Some && call_ensures(F::find::<Comp>, (&fetches.5,), found))
                            || (call_ensures(F::find::<Comp>, (&fetches.5,), None) && (
                                (found is Some && call_ensures(G::find::<Comp>, (&fetches.6,), found))
                                || (call_ensures(G::find::<Comp>, (&fetches.6,), None) && (
                                    (found is Some && call_ensures(H::find::<Comp>, (&fetches.7,), found))
                                    || (call_ensures(H::find::<Comp>, (&fetches.7,), None) && (
                                        call_ensures(I::find::<Comp>, (&fetches.8,), found))))))))))))))))),
{
    let (a, b, c, d, e, f, g, h, i) = fetches;
    if let Some(slice) = (A::find::<Comp>)(a) {
        return Some(slice);
    }
    if let Some(slice) = (B::find::<Comp>)(b) {
        return Some(slice);
    }
    if let Some(slice) = (C::find::<Comp>)(c) {
        return Some(slice);
    }
    if let Some(slice) = (D::find::<Comp>)(d) {
        return Some(slice);
    }
    if let Some(slice) = (E::find::<Comp>)(e) {
        return Some(slice);
    }
    if let Some(slice) = (F::find::<Comp>)(f) {
        return Some(slice);
    }
    if let Some(slice) = (G::find::<Comp>)(g) {
        return Some(slice);
    }
    if let Some(slice) = (H::find::<Comp>)(h) {
        return Some(slice);
    }
    (I::find::<Comp>)(i)
}

/// The mutable slice of the first fetch of a tuple of 9 that holds `Comp`.
pub fn tuple9_find_mut<'f, A: Fetch, B: Fetch, C: Fetch, D: Fetch, E: Fetch, F: Fetch, G: Fetch, H: Fetch, I: Fetch, Comp: 'static>(fetches: &'f mut (A, B, C, D, E, F, G, H, I)) -> (found: Option<&'f mut [Comp]>)
    ensures
        exists|m: &mut A|
            *m == old(fetches).0
            && *final(m) == final(fetches).0
            && ((found is Some && call_ensures(A::find_mut::<Comp>, (m,), found) && final(fetches).1 == old(fetches).1 && final(fetches).2 == old(fetches).2 && final(fetches).3 == old(fetches).3 && final(fetches).4 == old(fetches).4 && final(fetches).5 == old(fetches).5 && final(fetches).6 == old(fetches).6 && final(fetches).7 == old(fetches).7 && final(fetches).8 == old(fetches).8)
            || (call_ensures(A::find_mut::<Comp>, (m,), None) && (
                exists|m: &mut B|
                    *m == old(fetches).1
                    && *final(m) == final(fetches).1
                    && ((found is Some && call_ensures(B::find_mut::<Comp>, (m,), found) && final(fetches).2 == old(fetches).2 && final(fetches).3 == old(fetches).3 && final(fetches).4 == old(fetches).4 && final(fetches).5 == old(fetches).5 && final(fetches).6 == old(fetches).6 && final(fetches).7 == old(fetches).7 && final(fetches).8 == old(fetches).8)
                    || (call_ensures(B::find_mut::<Comp>, (m,), None) && (
                        exists|m: &mut C|
                            *m == old(fetches).2
                            && *final(m) == final(fetches).2
                            && ((found is Some && call_ensures(C::find_mut::<Comp>, (m,), found) && final(fetches).3 == old(fetches).3 && final(fetches).4 == old(fetches).4 && final(fetches).5 == old(fetches).5 && final(fetches).6 == old(fetches).6 && final(fetches).7 == old(fetches).7 && final(fetches).8 == old(fetches).8)
                            || (call_ensures(C::find_mut::<Comp>, (m,), None) && (
                                exists|m: &mut D|
                                    *m == old(fetches).3
                                    && *final(m) == final(fetches).3
                                    && ((found is Some && call_ensures(D::find_mut::<Comp>, (m,), found) && final(fetches).4 == old(fetches).4 && final(fetches).5 == old(fetches).5 && final(fetches).6 == old(fetches).6 && final(fetches).7 == old(fetches).7 && final(fetches).8 == old(fetches).8)
                                    || (call_ensures(D::find_mut::<Comp>, (m,), None) && (
                                        exists|m: &mut E|
                                            *m == old(fetches).4
                                            && *final(m) == final(fetches).4
                                            && ((found is Some && call_ensures(E::find_mut::<Comp>, (m,), found) && final(fetches).5 == old(fetches).5 && final(fetches).6 == old(fetches).6 && final(fetches).7 == old(fetches).7 && final(fetches).8 == old(fetches).8)
                                            || (call_ensures(E::find_mut::<Comp>, (m,), None) && (
                                                exists|m: &mut F|
                                                    *m == old(fetches).5
                                                    && *final(m) == final(fetches).5
                                                    && ((found is Some && call_ensures(F::find_mut::<Comp>, (m,), found) && final(fetches).6 == old(fetches).6 && final(fetches).7 == old(fetches).7 && final(fetches).8 == old(fetches).8)
                                                    || (call_ensures(F::find_mut::<Comp>, (m,), None) && (
                                                        exists|m: &mut G|
                                                            *m == old(fetches).6
                                                            && *final(m) == final(fetches).6
                                                            && ((found is Some && call_ensures(G::find_mut::<Comp>, (m,), found) && final(fetches).7 == old(fetches).7 && final(fetches).8 == old(fetches).8)
                                                            || (call_ensures(G::find_mut::<Comp>, (m,), None) && (
                                                                exists|m: &mut H|
                                                                    *m == old(fetches).7
                                                                    && *final(m) == final(fetches).7
                                                                    && ((found is Some && call_ensures(H::find_mut::<Comp>, (m,), found) && final(fetches).8 == old(fetches).8)
                                                                    || (call_ensures(H::find_mut::<Comp>, (m,), None) && (
                                                                        exists|m: &mut I|
                                                                            *m == old(fetches).8
                                                                            && *final(m) == final(fetches).8
                                                                            && call_ensures(I::find_mut::<Comp>, (m,), found))))))))))))))))))))))))),
{
    let found = (A::find_mut::<Comp>)(&mut fetches.0);
    if found.is_some() {
        return found;
    }
    let found = (B::find_mut::<Comp>)(&mut fetches.1);
    if found.is_some() {
        return found;
    }
    let found = (C::find_mut::<Comp>)(&mut fetches.2);
    if found.is_some() {
        return found;
    }
    let found = (D::find_mut::<Comp>)(&mut fetches.3);
    if found.is_some() {
        return found;
    }
    let found = (E::find_mut::<Comp>)(&mut fetches.4);
    if found.is_some() {
        return found;
    }
    let found = (F::find_mut::<Comp>)(&mut fetches.5);
    if found.is_some() {
        return found;
    }
    let found = (G::find_mut::<Comp>)(&mut fetches.6);
    if found.is_some() {
        return found;
    }
    let found = (H::find_mut::<Comp>)(&mut fetches.7);
    if found.is_some() {
        return found;
    }
    (I::find_mut::<Comp>)(&mut fetches.8)
}

/// The version of `Comp` in the first fetch of a tuple of 9 that holds it.
pub fn tuple9_version<A: Fetch, B: Fetch, C: Fetch, D: Fetch, E: Fetch, F: Fetch, G: Fetch, H: Fetch, I: Fetch, Comp: Component>(fetches: &(A, B, C, D, E, F, G, H, I)) -> (version: Option<u64>)
    ensures
        (version is Some && call_ensures(A::version::<Comp>, (&fetches.0,), version))
        || (call_ensures(A::version::<Comp>, (&fetches.0,), None) && (
            (version is Some && call_ensures(B::version::<Comp>, (&fetches.1,), version))
            || (call_ensures(B::version::<Comp>, (&fetches.1,), None) && (
                (version is Some && call_ensures(C::version::<Comp>, (&fetches.2,), version))
                || (call_ensures(C::version::<Comp>, (&fetches.2,), None) && (
                    (version is Some && call_ensures(D::version::<Comp>, (&fetches.3,), version))
                    || (call_ensures(D::version::<Comp>, (&fetches.3,), None) && (
                        (version is Some && call_ensures(E::version::<Comp>, (&fetches.4,), version))
                        || (call_ensures(E::version::<Comp>, (&fetches.4,), None) && (
                            (version is Some && call_ensures(F::version::<Comp>, (&fetches.5,), version))
                            || (call_ensures(F::version::<Comp>, (&fetches.5,), None) && (
                                (version is Some && call_ensures(G::version::<Comp>, (&fetches.6,), version))
                                || (call_ensures(G::version::<Comp>, (&fetches.6,), None) && (
                                    (version is Some && call_ensures(H::version::<Comp>, (&fetches.7,), version))
                                    || (call_ensures(H::version::<Comp>, (&fetches.7,), None) && (
                                        call_ensures(I::version::<Comp>, (&fetches.8,), version))))))))))))))))),
{
    let (a, b, c, d, e, f, g, h, i) = fetches;
    if let Some(version) = (A::version::<Comp>)(a) {
        return Some(version);
    }
    if let Some(version) = (B::version::<Comp>)(b) {
        return Some(version);
    }
    if let Some(version) = (C::version::<Comp>)(c) {
        return Some(version);
    }
    if let Some(version) = (D::version::<Comp>)(d) {
        return Some(version);
    }
    if let Some(version) = (E::version::<Comp>)(e) {
        return Some(version);
    }
    if let Some(version) = (F::version::<Comp>)(f) {
        return Some(version);
    }
    if let Some(version) = (G::version::<Comp>)(g) {
        return Some(version);
    }
    if let Some(version) = (H::version::<Comp>)(h) {
        return Some(version);
    }
    (I::version::<Comp>)(i)
}

// Tuples of 10 views.

impl<A: DefaultFilter, B: DefaultFilter, C: DefaultFilter, D: DefaultFilter, E: DefaultFilter, F: DefaultFilter, G: DefaultFilter, H: DefaultFilter, I: DefaultFilter, J: DefaultFilter> DefaultFilter for (A, B, C, D, E, F, G, H, I, J) {
    type Filter = (A::Filter, B::Filter, C::Filter, D::Filter, E::Filter, F::Filter, G::Filter, H::Filter, I::Filter, J::Filter);
}

impl<'a, A: View<'a> + 'a, B: View<'a> + 'a, C: View<'a> + 'a, D: View<'a> + 'a, E: View<'a> + 'a, F: View<'a> + 'a, G: View<'a> + 'a, H: View<'a> + 'a, I: View<'a> + 'a, J: View<'a> + 'a> View<'a> for (A, B, C, D, E, F, G, H, I, J) {
    type Element = <Self::Fetch as IntoIndexableIter>::Item;
    type Fetch = MultiFetch<'a, (A::Fetch, B::Fetch, C::Fetch, D::Fetch, E::Fetch, F::Fetch, G::Fetch, H::Fetch, I::Fetch, J::Fetch)>;

    fn validate() -> (valid: bool)
        ensures
            exists|reads: Seq<Vec<ComponentTypeId>>, writes: Seq<Vec<ComponentTypeId>>|
                reads.len() == 10 && writes.len() == 10
                && call_ensures(A::reads_types, (), reads[0])
                && call_ensures(A::writes_types, (), writes[0])
                && call_ensures(B::reads_types, (), reads[1])
                && call_ensures(B::writes_types, (), writes[1])
                && call_ensures(C::reads_types, (), reads[2])
                && call_ensures(C::writes_types, (), writes[2])
                && call_ensures(D::reads_types, (), reads[3])
                && call_ensures(D::writes_types, (), writes[3])
                && call_ensures(E::reads_types, (), reads[4])
                && call_ensures(E::writes_types, (), writes[4])
                && call_ensures(F::reads_types, (), reads[5])
                && call_ensures(F::writes_types, (), writes[5])
                && call_ensures(G::reads_types, (), reads[6])
                && call_ensures(G::writes_types, (), writes[6])
                && call_ensures(H::reads_types, (), reads[7])
                && call_ensures(H::writes_types, (), writes[7])
                && call_ensures(I::reads_types, (), reads[8])
                && call_ensures(I::writes_types, (), writes[8])
                && call_ensures(J::reads_types, (), reads[9])
                && call_ensures(J::writes_types, (), writes[9])
                && valid == conflict_free(type_lists(reads), type_lists(writes)),
    {
        let reads = vec![(A::reads_types)(), (B::reads_types)(), (C::reads_types)(), (D::reads_types)(), (E::reads_types)(), (F::reads_types)(), (G::reads_types)(), (H::reads_types)(), (I::reads_types)(), (J::reads_types)()];
        let writes = vec![(A::writes_types)(), (B::writes_types)(), (C::writes_types)(), (D::writes_types)(), (E::writes_types)(), (F::writes_types)(), (G::writes_types)(), (H::writes_types)(), (I::writes_types)(), (J::writes_types)()];
        let valid = accesses_conflict_free(&reads, &writes);
        assert(
            reads@.len() == 10 && writes@.len() == 10
            && call_ensures(A::reads_types, (), reads@[0])
            && call_ensures(A::writes_types, (), writes@[0])
            && call_ensures(B::reads_types, (), reads@[1])
            && call_ensures(B::writes_types, (), writes@[1])
            && call_ensures(C::reads_types, (), reads@[2])
            && call_ensures(C::writes_types, (), writes@[2])
            && call_ensures(D::reads_types, (), reads@[3])
            && call_ensures(D::writes_types, (), writes@[3])
            && call_ensures(E::reads_types, (), reads@[4])
            && call_ensures(E::writes_types, (), writes@[4])
            && call_ensures(F::reads_types, (), reads@[5])
            && call_ensures(F::writes_types, (), writes@[5])
            && call_ensures(G::reads_types, (), reads@[6])
            && call_ensures(G::writes_types, (), writes@[6])
            && call_ensures(H::reads_types, (), reads@[7])
            && call_ensures(H::writes_types, (), writes@[7])
            && call_ensures(I::reads_types, (), reads@[8])
            && call_ensures(I::writes_types, (), writes@[8])
            && call_ensures(J::reads_types, (), reads@[9])
            && call_ensures(J::writes_types, (), writes@[9])
            && valid == conflict_free(type_lists(reads@), type_lists(writes@))
        );
        valid
    }

    fn reads_types() -> (types: Vec<ComponentTypeId>)
        ensures
            exists|lists: Seq<Vec<ComponentTypeId>>|
                lists.len() == 10
                && call_ensures(A::reads_types, (), lists[0])
                && call_ensures(B::reads_types, (), lists[1])
                && call_ensures(C::reads_types, (), lists[2])
                && call_ensures(D::reads_types, (), lists[3])
                && call_ensures(E::reads_types, (), lists[4])
                && call_ensures(F::reads_types, (), lists[5])
                && call_ensures(G::reads_types, (), lists[6])
                && call_ensures(H::reads_types, (), lists[7])
                && call_ensures(I::reads_types, (), lists[8])
                && call_ensures(J::reads_types, (), lists[9])
                && types@ == type_lists(lists).flatten(),
    {
        let lists = vec![(A::reads_types)(), (B::reads_types)(), (C::reads_types)(), (D::reads_types)(), (E::reads_types)(), (F::reads_types)(), (G::reads_types)(), (H::reads_types)(), (I::reads_types)(), (J::reads_types)()];
        let ghost views = lists@;
        let types = concat_types(lists);
        assert(
            views.len() == 10
            && call_ensures(A::reads_types, (), views[0])
            && call_ensures(B::reads_types, (), views[1])
            && call_ensures(C::reads_types, (), views[2])
            && call_ensures(D::reads_types, (), views[3])
            && call_ensures(E::reads_types, (), views[4])
            && call_ensures(F::reads_types, (), views[5])
            && call_ensures(G::reads_types, (), views[6])
            && call_ensures(H::reads_types, (), views[7])
            && call_ensures(I::reads_types, (), views[8])
            && call_ensures(J::reads_types, (), views[9])
            && types@ == type_lists(views).flatten()
        );
        types
    }

    fn writes_types() -> (types: Vec<ComponentTypeId>)
        ensures
            exists|lists: Seq<Vec<ComponentTypeId>>|
                lists.len() == 10
                && call_ensures(A::writes_types, (), lists[0])
                && call_ensures(B::writes_types, (), lists[1])
                && call_ensures(C::writes_types, (), lists[2])
                && call_ensures(D::writes_types, (), lists[3])
                && call_ensures(E::writes_types, (), lists[4])
                && call_ensures(F::writes_types, (), lists[5])
                && call_ensures(G::writes_types, (), lists[6])
                && call_ensures(H::writes_types, (), lists[7])
                && call_ensures(I::writes_types, (), lists[8])
                && call_ensures(J::writes_types, (), lists[9])
                && types@ == type_lists(lists).flatten(),
    {
        let lists = vec![(A::writes_types)(), (B::writes_types)(), (C::writes_types)(), (D::writes_types)(), (E::writes_types)(), (F::writes_types)(), (G::writes_types)(), (H::writes_types)(), (I::writes_types)(), (J::writes_types)()];
        let ghost views = lists@;
        let types = concat_types(lists);
        assert(
            views.len() == 10
            && call_ensures(A::writes_types, (), views[0])
            && call_ensures(B::writes_types, (), views[1])
            && call_ensures(C::writes_types, (), views[2])
            && call_ensures(D::writes_types, (), views[3])
            && call_ensures(E::writes_types, (), views[4])
            && call_ensures(F::writes_types, (), views[5])
            && call_ensures(G::writes_types, (), views[6])
            && call_ensures(H::writes_types, (), views[7])
            && call_ensures(I::writes_types, (), views[8])
            && call_ensures(J::writes_types, (), views[9])
            && types@ == type_lists(views).flatten()
        );
        types
    }

    fn reads<Comp: Component>() -> bool {
        tuple10_reads::<'a, A, B, C, D, E, F, G, H, I, J, Comp>()
    }

    fn writes<Comp: Component>() -> bool {
        tuple10_writes::<'a, A, B, C, D, E, F, G, H, I, J, Comp>()
    }
}

impl<'a, A: Fetch, B: Fetch, C: Fetch, D: Fetch, E: Fetch, F: Fetch, G: Fetch, H: Fetch, I: Fetch, J: Fetch> IntoIndexableIter for MultiFetch<'a, (A, B, C, D, E, F, G, H, I, J)> {
    type Item = (A::Item, B::Item, C::Item, D::Item, E::Item, F::Item, G::Item, H::Item, I::Item, J::Item);
    type IntoIter = (A::IntoIter, B::IntoIter, C::IntoIter, D::IntoIter, E::IntoIter, F::IntoIter, G::IntoIter, H::IntoIter, I::IntoIter, J::IntoIter);

    fn into_indexable_iter(self) -> (iter: Self::IntoIter)
        ensures
            call_ensures(A::into_indexable_iter, (self.fetches().0,), iter.0),
            call_ensures(B::into_indexable_iter, (self.fetches().1,), iter.1),
            call_ensures(C::into_indexable_iter, (self.fetches().2,), iter.2),
            call_ensures(D::into_indexable_iter, (self.fetches().3,), iter.3),
            call_ensures(E::into_indexable_iter, (self.fetches().4,), iter.4),
            call_ensures(F::into_indexable_iter, (self.fetches().5,), iter.5),
            call_ensures(G::into_indexable_iter, (self.fetches().6,), iter.6),
            call_ensures(H::into_indexable_iter, (self.fetches().7,), iter.7),
            call_ensures(I::into_indexable_iter, (self.fetches().8,), iter.8),
            call_ensures(J::into_indexable_iter, (self.fetches().9,), iter.9),
    {
        let (a, b, c, d, e, f, g, h, i, j) = self.fetches;
        ((A::into_indexable_iter)(a), (B::into_indexable_iter)(b), (C::into_indexable_iter)(c), (D::into_indexable_iter)(d), (E::into_indexable_iter)(e), (F::into_indexable_iter)(f), (G::into_indexable_iter)(g), (H::into_indexable_iter)(h), (I::into_indexable_iter)(i), (J::into_indexable_iter)(j))
    }
}

impl<'a, A: Fetch, B: Fetch, C: Fetch, D: Fetch, E: Fetch, F: Fetch, G: Fetch, H: Fetch, I: Fetch, J: Fetch> Fetch for MultiFetch<'a, (A, B, C, D, E, F, G, H, I, J)> {
    type Data = (A::Data, B::Data, C::Data, D::Data, E::Data, F::Data, G::Data, H::Data, I::Data, J::Data);

    fn into_components(self) -> (data: Self::Data)
        ensures
            call_ensures(A::into_components, (self.fetches().0,), data.0),
            call_ensures(B::into_components, (self.fetches().1,), data.1),
            call_ensures(C::into_components, (self.fetches().2,), data.2),
            call_ensures(D::into_components, (self.fetches().3,), data.3),
            call_ensures(E::into_components, (self.fetches().4,), data.4),
            call_ensures(F::into_components, (self.fetches().5,), data.5),
            call_ensures(G::into_components, (self.fetches().6,), data.6),
            call_ensures(H::into_components, (self.fetches().7,), data.7),
            call_ensures(I::into_components, (self.fetches().8,), data.8),
            call_ensures(J::into_components, (self.fetches().9,), data.9),
    {
        let (a, b, c, d, e, f, g, h, i, j) = self.fetches;
        ((A::into_components)(a), (B::into_components)(b), (C::into_components)(c), (D::into_components)(d), (E::into_components)(e), (F::into_components)(f), (G::into_components)(g), (H::into_components)(h), (I::into_components)(i), (J::into_components)(j))
    }

    fn find<Comp: 'static>(&self) -> Option<&[Comp]> {
        tuple10_find::<A, B, C, D, E, F, G, H, I, J, Comp>(&self.fetches)
    }

    fn find_mut<Comp: 'static>(&mut self) -> Option<&mut [Comp]> {
        tuple10_find_mut::<A, B, C, D, E, F, G, H, I, J, Comp>(&mut self.fetches)
    }

    fn version<Comp: Component>(&self) -> Option<u64> {
        tuple10_version::<A, B, C, D, E, F, G, H, I, J, Comp>(&self.fetches)
    }

    fn accepted(&mut self)
        ensures
            exists|m: &mut A|
                *m == old(self).fetches().0 && *final(m) == final(self).fetches().0
                && call_ensures(A::accepted, (m,), ()),
            exists|m: &mut B|
                *m == old(self).fetches().1 && *final(m) == final(self).fetches().1
                && call_ensures(B::accepted, (m,), ()),
            exists|m: &mut C|
                *m == old(self).fetches().2 && *final(m) == final(self).fetches().2
                && call_ensures(C::accepted, (m,), ()),
            exists|m: &mut D|
                *m == old(self).fetches().3 && *final(m) == final(self).fetches().3
                && call_ensures(D::accepted, (m,), ()),
            exists|m: &mut E|
                *m == old(self).fetches().4 && *final(m) == final(self).fetches().4
                && call_ensures(E::accepted, (m,), ()),
            exists|m: &mut F|
                *m == old(self).fetches().5 && *final(m) == final(self).fetches().5
                && call_ensures(F::accepted, (m,), ()),
            exists|m: &mut G|
                *m == old(self).fetches().6 && *final(m) == final(self).fetches().6
                && call_ensures(G::accepted, (m,), ()),
            exists|m: &mut H|
                *m == old(self).fetches().7 && *final(m) == final(self).fetches().7
                && call_ensures(H::accepted, (m,), ()),
            exists|m: &mut I|
                *m == old(self).fetches().8 && *final(m) == final(self).fetches().8
                && call_ensures(I::accepted, (m,), ()),
            exists|m: &mut J|
                *m == old(self).fetches().9 && *final(m) == final(self).fetches().9
                && call_ensures(J::accepted, (m,), ()),
    {
        let (a, b, c, d, e, f, g, h, i, j) = &mut self.fetches;
        (A::accepted)(a);
        (B::accepted)(b);
        (C::accepted)(c);
        (D::accepted)(d);
        (E::accepted)(e);
        (F::accepted)(f);
        (G::accepted)(g);
        (H::accepted)(h);
        (I::accepted)(i);
        (J::accepted)(j);
    }
}

impl<'a, A: ReadOnlyFetch, B: ReadOnlyFetch, C: ReadOnlyFetch, D: ReadOnlyFetch, E: ReadOnlyFetch, F: ReadOnlyFetch, G: ReadOnlyFetch, H: ReadOnlyFetch, I: ReadOnlyFetch, J: ReadOnlyFetch> ReadOnlyFetch for MultiFetch<'a, (A, B, C, D, E, F, G, H, I, J)> {
    fn get_components(&self) -> (data: Self::Data)
        ensures
            call_ensures(A::get_components, (&self.fetches().0,), data.0),
            call_ensures(B::get_components, (&self.fetches().1,), data.1),
            call_ensures(C::get_components, (&self.fetches().2,), data.2),
            call_ensures(D::get_components, (&self.fetches().3,), data.3),
            call_ensures(E::get_components, (&self.fetches().4,), data.4),
            call_ensures(F::get_components, (&self.fetches().5,), data.5),
            call_ensures(G::get_components, (&self.fetches().6,), data.6),
            call_ensures(H::get_components, (&self.fetches().7,), data.7),
            call_ensures(I::get_components, (&self.fetches().8,), data.8),
            call_ensures(J::get_components, (&self.fetches().9,), data.9),
    {
        let (a, b, c, d, e, f, g, h, i, j) = &self.fetches;
        ((A::get_components)(a), (B::get_components)(b), (C::get_components)(c), (D::get_components)(d), (E::get_components)(e), (F::get_components)(f), (G::get_components)(g), (H::get_components)(h), (I::get_components)(i), (J::get_components)(j))
    }
}

/// Whether some view of a tuple of 10 reads `Comp`, asking the views in order.
pub fn tuple10_reads<'a, A: View<'a> + 'a, B: View<'a> + 'a, C: View<'a> + 'a, D: View<'a> + 'a, E: View<'a> + 'a, F: View<'a> + 'a, G: View<'a> + 'a, H: View<'a> + 'a, I: View<'a> + 'a, J: View<'a> + 'a, Comp: Component>() -> (found: bool)
    ensures
        (found && call_ensures(A::reads::<Comp>, (), true))
        || (call_ensures(A::reads::<Comp>, (), false) && (
            (found && call_ensures(B::reads::<Comp>, (), true))
            || (call_ensures(B::reads::<Comp>, (), false) && (
                (found && call_ensures(C::reads::<Comp>, (), true))
                || (call_ensures(C::reads::<Comp>, (), false) && (
                    (found && call_ensures(D::reads::<Comp>, (), true))
                    || (call_ensures(D::reads::<Comp>, (), false) && (
                        (found && call_ensures(E::reads::<Comp>, (), true))
                        || (call_ensures(E::reads::<Comp>, (), false) && (
                            (found && call_ensures(F::reads::<Comp>, (), true))
                            || (call_ensures(F::reads::<Comp>, (), false) && (
                                (found && call_ensures(G::reads::<Comp>, (), true))
                                || (call_ensures(G::reads::<Comp>, (), false) && (
                                    (found && call_ensures(H::reads::<Comp>, (), true))
                                    || (call_ensures(H::reads::<Comp>, (), false) && (
                                        (found && call_ensures(I::reads::<Comp>, (), true))
                                        || (call_ensures(I::reads::<Comp>, (), false) && (
                                            call_ensures(J::reads::<Comp>, (), found))))))))))))))))))),
{
    (A::reads::<Comp>)()
        || (B::reads::<Comp>)()
        || (C::reads::<Comp>)()
        || (D::reads::<Comp>)()
        || (E::reads::<Comp>)()
        || (F::reads::<Comp>)()
        || (G::reads::<Comp>)()
        || (H::reads::<Comp>)()
        || (I::reads::<Comp>)()
        || (J::reads::<Comp>)()
}

/// Whether some view of a tuple of 10 writes `Comp`, asking the views in order.
pub fn tuple10_writes<'a, A: View<'a> + 'a, B: View<'a> + 'a, C: View<'a> + 'a, D: View<'a> + 'a, E: View<'a> + 'a, F: View<'a> + 'a, G: View<'a> + 'a, H: View<'a> + 'a, I: View<'a> + 'a, J: View<'a> + 'a, Comp: Component>() -> (found: bool)
    ensures
        (found && call_ensures(A::writes::<Comp>, (), true))
        || (call_ensures(A::writes::<Comp>, (), false) && (
            (found && call_ensures(B::writes::<Comp>, (), true))
            || (call_ensures(B::writes::<Comp>, (), false) && (
                (found && call_ensures(C::writes::<Comp>, (), true))
                || (call_ensures(C::writes::<Comp>, (), false) && (
                    (found && call_ensures(D::writes::<Comp>, (), true))
                    || (call_ensures(D::writes::<Comp>, (), false) && (
                        (found && call_ensures(E::writes::<Comp>, (), true))
                        || (call_ensures(E::writes::<Comp>, (), false) && (
                            (found && call_ensures(F::writes::<Comp>, (), true))
                            || (call_ensures(F::writes::<Comp>, (), false) && (
                                (found && call_ensures(G::writes::<Comp>, (), true))
                                || (call_ensures(G::writes::<Comp>, (), false) && (
                                    (found && call_ensures(H::writes::<Comp>, (), true))
                                    || (call_ensures(H::writes::<Comp>, (), false) && (
                                        (found && call_ensures(I::writes::<Comp>, (), true))
                                        || (call_ensures(I::writes::<Comp>, (), false) && (
                                            call_ensures(J::writes::<Comp>, (), found))))))))))))))))))),
{
    (A::writes::<Comp>)()
        || (B::writes::<Comp>)()
        || (C::writes::<Comp>)()
        || (D::writes::<Comp>)()
        || (E::writes::<Comp>)()
        || (F::writes::<Comp>)()
        || (G::writes::<Comp>)()
        || (H::writes::<Comp>)()
        || (I::writes::<Comp>)()
        || (J::writes::<Comp>)()
}

/// The slice of the first fetch of a tuple of 10 that holds `Comp`.
pub fn tuple10_find<'f, A: Fetch, B: Fetch, C: Fetch, D: Fetch, E: Fetch, F: Fetch, G: Fetch, H: Fetch, I: Fetch, J: Fetch, Comp: 'static>(fetches: &'f (A, B, C, D, E, F, G, H, I, J)) -> (found: Option<&'f [Comp]>)
    ensures
        (found is Some && call_ensures(A::find::<Comp>, (&fetches.0,), found))
        || (call_ensures(A::find::<Comp>, (&fetches.0,), None) && (
            (found is Some && call_ensures(B::find::<Comp>, (&fetches.1,), found))
            || (call_ensures(B::find::<Comp>, (&fetches.1,), None) && (
                (found is Some && call_ensures(C::find::<Comp>, (&fetches.2,), found))
                || (call_ensures(C::find::<Comp>, (&fetches.2,), None) && (
                    (found is Some && call_ensures(D::find::<Comp>, (&fetches.3,), found))
                    || (call_ensures(D::find::<Comp>, (&fetches.3,), None) && (
                        (found is Some && call_ensures(E::find::<Comp>, (&fetches.4,), found))
                        || (call_ensures(E::find::<Comp>, (&fetches.4,), None) && (
                            (found is Some && call_ensures(F::find::<Comp>, (&fetches.5,), found))
                            || (call_ensures(F::find::<Comp>, (&fetches.5,), None) && (
                                (found is Some && call_ensures(G::find::<Comp>, (&fetches.6,), found))
                                || (call_ensures(G::find::<Comp>, (&fetches.6,), None) && (
                                    (found is Some && call_ensures(H::find::<Comp>, (&fetches.7,), found))
                                    || (call_ensures(H::find::<Comp>, (&fetches.7,), None) && (
                                        (found is Some && call_ensures(I::find::<Comp>, (&fetches.8,), found))
                                        || (call_ensures(I::find::<Comp>, (&fetches.8,), None) && (
                                            call_ensures(J::find::<Comp>, (&fetches.9,), found))))))))))))))))))),
{
    let (a, b, c, d, e, f, g, h, i, j) = fetches;
    if let Some(slice) = (A::find::<Comp>)(a) {
        return Some(slice);
    }
    if let Some(slice) = (B::find::<Comp>)(b) {
        return Some(slice);
    }
    if let Some(slice) = (C::find::<Comp>)(c) {
        return Some(slice);
    }
    if let Some(slice) = (D::find::<Comp>)(d) {
        return Some(slice);
    }
    if let Some(slice) = (E::find::<Comp>)(e) {
        return Some(slice);
    }
    if let Some(slice) = (F::find::<Comp>)(f) {
        return Some(slice);
    }
    if let Some(slice) = (G::find::<Comp>)(g) {
        return Some(slice);
    }
    if let Some(slice) = (H::find::<Comp>)(h) {
        return Some(slice);
    }
    if let Some(slice) = (I::find::<Comp>)(i) {
        return Some(slice);
    }
    (J::find::<Comp>)(j)
}

/// The mutable slice of the first fetch of a tuple of 10 that holds `Comp`.
pub fn tuple10_find_mut<'f, A: Fetch, B: Fetch, C: Fetch, D: Fetch, E: Fetch, F: Fetch, G: Fetch, H: Fetch, I: Fetch, J: Fetch, Comp: 'static>(fetches: &'f mut (A, B, C, D, E, F, G, H, I, J)) -> (found: Option<&'f mut [Comp]>)
    ensures
        exists|m: &mut A|
            *m == old(fetches).0
            && *final(m) == final(fetches).0
            && ((found is Some && call_ensures(A::find_mut::<Comp>, (m,), found) && final(fetches).1 == old(fetches).1 && final(fetches).2 == old(fetches).2 && final(fetches).3 == old(fetches).3 && final(fetches).4 == old(fetches).4 && final(fetches).5 == old(fetches).5 && final(fetches).6 == old(fetches).6 && final(fetches).7 == old(fetches).7 && final(fetches).8 == old(fetches).8 && final(fetches).9 == old(fetches).9)
            || (call_ensures(A::find_mut::<Comp>, (m,), None) && (
                exists|m: &mut B|
                    *m == old(fetches).1
                    && *final(m) == final(fetches).1
                    && ((found is Some && call_ensures(B::find_mut::<Comp>, (m,), found) && final(fetches).2 == old(fetches).2 && final(fetches).3 == old(fetches).3 && final(fetches).4 == old(fetches).4 && final(fetches).5 == old(fetches).5 && final(fetches).6 == old(fetches).6 && final(fetches).7 == old(fetches).7 && final(fetches).8 == old(fetches).8 && final(fetches).9 == old(fetches).9)
                    || (call_ensures(B::find_mut::<Comp>, (m,), None) && (
                        exists|m: &mut C|
                            *m == old(fetches).2
                            && *final(m) == final(fetches).2
                            && ((found is Some && call_ensures(C::find_mut::<Comp>, (m,), found) && final(fetches).3 == old(fetches).3 && final(fetches).4 == old(fetches).4 && final(fetches).5 == old(fetches).5 && final(fetches).6 == old(fetches).6 && final(fetches).7 == old(fetches).7 && final(fetches).8 == old(fetches).8 && final(fetches).9 == old(fetches).9)
                            || (call_ensures(C::find_mut::<Comp>, (m,), None) && (
                                exists|m: &mut D|
                                    *m == old(fetches).3
                                    && *final(m) == final(fetches).3
                                    && ((found is Some && call_ensures(D::find_mut::<Comp>, (m,), found) && final(fetches).4 == old(fetches).4 && final(fetches).5 == old(fetches).5 && final(fetches).6 == old(fetches).6 && final(fetches).7 == old(fetches).7 && final(fetches).8 == old(fetches).8 && final(fetches).9 == old(fetches).9)
                                    || (call_ensures(D::find_mut::<Comp>, (m,), None) && (
                                        exists|m: &mut E|
                                            *m == old(fetches).4
                                            && *final(m) == final(fetches).4
                                            && ((found is Some && call_ensures(E::find_mut::<Comp>, (m,), found) && final(fetches).5 == old(fetches).5 && final(fetches).6 == old(fetches).6 && final(fetches).7 == old(fetches).7 && final(fetches).8 == old(fetches).8 && final(fetches).9 == old(fetches).9)
                                            || (call_ensures(E::find_mut::<Comp>, (m,), None) && (
                                                exists|m: &mut F|
                                                    *m == old(fetches).5
                                                    && *final(m) == final(fetches).5
                                                    && ((found is Some && call_ensures(F::find_mut::<Comp>, (m,), found) && final(fetches).6 == old(fetches).6 && final(fetches).7 == old(fetches).7 && final(fetches).8 == old(fetches).8 && final(fetches).9 == old(fetches).9)
                                                    || (call_ensures(F::find_mut::<Comp>, (m,), None) && (
                                                        exists|m: &mut G|
                                                            *m == old(fetches).6
                                                            && *final(m) == final(fetches).6
                                                            && ((found is Some && call_ensures(G::find_mut::<Comp>, (m,), found) && final(fetches).7 == old(fetches).7 && final(fetches).8 == old(fetches).8 && final(fetches).9 == old(fetches).9)
                                                            || (call_ensures(G::find_mut::<Comp>, (m,), None) && (
                                                                exists|m: &mut H|
                                                                    *m == old(fetches).7
                                                                    && *final(m) == final(fetches).7
                                                                    && ((found is Some && call_ensures(H::find_mut::<Comp>, (m,), found) && final(fetches).8 == old(fetches).8 && final(fetches).9 == old(fetches).9)
                                                                    || (call_ensures(H::find_mut::<Comp>, (m,), None) && (
                                                                        exists|m: &mut I|
                                                                            *m == old(fetches).8
                                                                            && *final(m) == final(fetches).8
                                                                            && ((found is Some && call_ensures(I::find_mut::<Comp>, (m,), found) && final(fetches).9 == old(fetches).9)
                                                                            || (call_ensures(I::find_mut::<Comp>, (m,), None) && (
                                                                                exists|m: &mut J|
                                                                                    *m == old(fetches).9
                                                                                    && *final(m) == final(fetches).9
                                                                                    && call_ensures(J::find_mut::<Comp>, (m,), found)))))))))))))))))))))))))))),
{
    let found = (A::find_mut::<Comp>)(&mut fetches.0);
    if found.is_some() {
        return found;
    }
    let found = (B::find_mut::<Comp>)(&mut fetches.1);
    if found.is_some() {
        return found;
    }
    let found = (C::find_mut::<Comp>)(&mut fetches.2);
    if found.is_some() {
        return found;
    }
    let found = (D::find_mut::<Comp>)(&mut fetches.3);
    if found.is_some() {
        return found;
    }
    let found = (E::find_mut::<Comp>)(&mut fetches.4);
    if found.is_some() {
        return found;
    }
    let found = (F::find_mut::<Comp>)(&mut fetches.5);
    if found.is_some() {
        return found;
    }
    let found = (G::find_mut::<Comp>)(&mut fetches.6);
    if found.is_some() {
        return found;
    }
    let found = (H::find_mut::<Comp>)(&mut fetches.7);
    if found.is_some() {
        return found;
    }
    let found = (I::find_mut::<Comp>)(&mut fetches.8);
    if found.is_some() {
        return found;
    }
    (J::find_mut::<Comp>)(&mut fetches.9)
}

/// The version of `Comp` in the first fetch of a tuple of 10 that holds it.
pub fn tuple10_version<A: Fetch, B: Fetch, C: Fetch, D: Fetch, E: Fetch, F: Fetch, G: Fetch, H: Fetch, I: Fetch, J: Fetch, Comp: Component>(fetches: &(A, B, C, D, E, F, G, H, I, J)) -> (version: Option<u64>)
    ensures
        (version is Some && call_ensures(A::version::<Comp>, (&fetches.0,), version))
        || (call_ensures(A::version::<Comp>, (&fetches.0,), None) && (
            (version is Some && call_ensures(B::version::<Comp>, (&fetches.1,), version))
            || (call_ensures(B::version::<Comp>, (&fetches.1,), None) && (
                (version is Some && call_ensures(C::version::<Comp>, (&fetches.2,), version))
                || (call_ensures(C::version::<Comp>, (&fetches.2,), None) && (
                    (version is Some && call_ensures(D::version::<Comp>, (&fetches.3,), version))
                    || (call_ensures(D::version::<Comp>, (&fetches.3,), None) && (
                        (version is Some && call_ensures(E::version::<Comp>, (&fetches.4,), version))
                        || (call_ensures(E::version::<Comp>, (&fetches.4,), None) && (
                            (version is Some && call_ensures(F::version::<Comp>, (&fetches.5,), version))
                            || (call_ensures(F::version::<Comp>, (&fetches.5,), None) && (
                                (version is Some && call_ensures(G::version::<Comp>, (&fetches.6,), version))
                                || (call_ensures(G::version::<Comp>, (&fetches.6,), None) && (
                                    (version is Some && call_ensures(H::version::<Comp>, (&fetches.7,), version))
                                    || (call_ensures(H::version::<Comp>, (&fetches.7,), None) && (
                                        (version is Some && call_ensures(I::version::<Comp>, (&fetches.8,), version))
                                        || (call_ensures(I::version::<Comp>, (&fetches.8,), None) && (
                                            call_ensures(J::version::<Comp>, (&fetches.9,), version))))))))))))))))))),
{
    let (a, b, c, d, e, f, g, h, i, j) = fetches;
    if let Some(version) = (A::version::<Comp>)(a) {
        return Some(version);
    }
    if let Some(version) = (B::version::<Comp>)(b) {
        return Some(version);
    }
    if let Some(version) = (C::version::<Comp>)(c) {
        return Some(version);
    }
    if let Some(version) = (D::version::<Comp>)(d) {
        return Some(version);
    }
    if let Some(version) = (E::version::<Comp>)(e) {
        return Some(version);
    }
    if let Some(version) = (F::version::<Comp>)(f) {
        return Some(version);
    }
    if let Some(version) = (G::version::<Comp>)(g) {
        return Some(version);
    }
    if let Some(version) = (H::version::<Comp>)(h) {
        return Some(version);
    }
    if let Some(version) = (I::version::<Comp>)(i) {
        return Some(version);
    }
    (J::version::<Comp>)(j)
}

// Tuples of 11 views.

impl<A: DefaultFilter, B: DefaultFilter, C: DefaultFilter, D: DefaultFilter, E: DefaultFilter, F: DefaultFilter, G: DefaultFilter, H: DefaultFilter, I: DefaultFilter, J: DefaultFilter, K: DefaultFilter> DefaultFilter for (A, B, C, D, E, F, G, H, I, J, K) {
    type Filter = (A::Filter, B::Filter, C::Filter, D::Filter, E::Filter, F::Filter, G::Filter, H::Filter, I::Filter, J::Filter, K::Filter);
}

impl<'a, A: View<'a> + 'a, B: View<'a> + 'a, C: View<'a> + 'a, D: View<'a> + 'a, E: View<'a> + 'a, F: View<'a> + 'a, G: View<'a> + 'a, H: View<'a> + 'a, I: View<'a> + 'a, J: View<'a> + 'a, K: View<'a> + 'a> View<'a> for (A, B, C, D, E, F, G, H, I, J, K) {
    type Element = <Self::Fetch as IntoIndexableIter>::Item;
    type Fetch = MultiFetch<'a, (A::Fetch, B::Fetch, C::Fetch, D::Fetch, E::Fetch, F::Fetch, G::Fetch, H::Fetch, I::Fetch, J::Fetch, K::Fetch)>;

    fn validate() -> (valid: bool)
        ensures
            exists|reads: Seq<Vec<ComponentTypeId>>, writes: Seq<Vec<ComponentTypeId>>|
                reads.len() == 11 && writes.len() == 11
                && call_ensures(A::reads_types, (), reads[0])
                && call_ensures(A::writes_types, (), writes[0])
                && call_ensures(B::reads_types, (), reads[1])
                && call_ensures(B::writes_types, (), writes[1])
                && call_ensures(C::reads_types, (), reads[2])
                && call_ensures(C::writes_types, (), writes[2])
                && call_ensures(D::reads_types, (), reads[3])
                && call_ensures(D::writes_types, (), writes[3])
                && call_ensures(E::reads_types, (), reads[4])
                && call_ensures(E::writes_types, (), writes[4])
                && call_ensures(F::reads_types, (), reads[5])
                && call_ensures(F::writes_types, (), writes[5])
                && call_ensures(G::reads_types, (), reads[6])
                && call_ensures(G::writes_types, (), writes[6])
                && call_ensures(H::reads_types, (), reads[7])
                && call_ensures(H::writes_types, (), writes[7])
                && call_ensures(I::reads_types, (), reads[8])
                && call_ensures(I::writes_types, (), writes[8])
                && call_ensures(J::reads_types, (), reads[9])
                && call_ensures(J::writes_types, (), writes[9])
                && call_ensures(K::reads_types, (), reads[10])
                && call_ensures(K::writes_types, (), writes[10])
                && valid == conflict_free(type_lists(reads), type_lists(writes)),
    {
        let reads = vec![(A::reads_types)(), (B::reads_types)(), (C::reads_types)(), (D::reads_types)(), (E::reads_types)(), (F::reads_types)(), (G::reads_types)(), (H::reads_types)(), (I::reads_types)(), (J::reads_types)(), (K::reads_types)()];
        let writes = vec![(A::writes_types)(), (B::writes_types)(), (C::writes_types)(), (D::writes_types)(), (E::writes_types)(), (F::writes_types)(), (G::writes_types)(), (H::writes_types)(), (I::writes_types)(), (J::writes_types)(), (K::writes_types)()];
        let valid = accesses_conflict_free(&reads, &writes);
        assert(
            reads@.len() == 11 && writes@.len() == 11
            && call_ensures(A::reads_types, (), reads@[0])
            && call_ensures(A::writes_types, (), writes@[0])
            && call_ensures(B::reads_types, (), reads@[1])
            && call_ensures(B::writes_types, (), writes@[1])
            && call_ensures(C::reads_types, (), reads@[2])
            && call_ensures(C::writes_types, (), writes@[2])
            && call_ensures(D::reads_types, (), reads@[3])
            && call_ensures(D::writes_types, (), writes@[3])
            && call_ensures(E::reads_types, (), reads@[4])
            && call_ensures(E::writes_types, (), writes@[4])
            && call_ensures(F::reads_types, (), reads@[5])
            && call_ensures(F::writes_types, (), writes@[5])
            && call_ensures(G::reads_types, (), reads@[6])
            && call_ensures(G::writes_types, (), writes@[6])
            && call_ensures(H::reads_types, (), reads@[7])
            && call_ensures(H::writes_types, (), writes@[7])
            && call_ensures(I::reads_types, (), reads@[8])
            && call_ensures(I::writes_types, (), writes@[8])
            && call_ensures(J::reads_types, (), reads@[9])
            && call_ensures(J::writes_types, (), writes@[9])
            && call_ensures(K::reads_types, (), reads@[10])
            && call_ensures(K::writes_types, (), writes@[10])
            && valid == conflict_free(type_lists(reads@), type_lists(writes@))
        );
        valid
    }

    fn reads_types() -> (types: Vec<ComponentTypeId>)
        ensures
            exists|lists: Seq<Vec<ComponentTypeId>>|
                lists.len() == 11
                && call_ensures(A::reads_types, (), lists[0])
                && call_ensures(B::reads_types, (), lists[1])
                && call_ensures(C::reads_types, (), lists[2])
                && call_ensures(D::reads_types, (), lists[3])
                && call_ensures(E::reads_types, (), lists[4])
                && call_ensures(F::reads_types, (), lists[5])
                && call_ensures(G::reads_types, (), lists[6])
                && call_ensures(H::reads_types, (), lists[7])
                && call_ensures(I::reads_types, (), lists[8])
                && call_ensures(J::reads_types, (), lists[9])
                && call_ensures(K::reads_types, (), lists[10])
                && types@ == type_lists(lists).flatten(),
    {
        let lists = vec![(A::reads_types)(), (B::reads_types)(), (C::reads_types)(), (D::reads_types)(), (E::reads_types)(), (F::reads_types)(), (G::reads_types)(), (H::reads_types)(), (I::reads_types)(), (J::reads_types)(), (K::reads_types)()];
        let ghost views = lists@;
        let types = concat_types(lists);
        assert(
            views.len() == 11
            && call_ensures(A::reads_types, (), views[0])
            && call_ensures(B::reads_types, (), views[1])
            && call_ensures(C::reads_types, (), views[2])
            && call_ensures(D::reads_types, (), views[3])
            && call_ensures(E::reads_types, (), views[4])
            && call_ensures(F::reads_types, (), views[5])
            && call_ensures(G::reads_types, (), views[6])
            && call_ensures(H::reads_types, (), views[7])
            && call_ensures(I::reads_types, (), views[8])
            && call_ensures(J::reads_types, (), views[9])
            && call_ensures(K::reads_types, (), views[10])
            && types@ == type_lists(views).flatten()
        );
        types
    }

    fn writes_types() -> (types: Vec<ComponentTypeId>)
        ensures
            exists|lists: Seq<Vec<ComponentTypeId>>|
                lists.len() == 11
                && call_ensures(A::writes_types, (), lists[0])
                && call_ensures(B::writes_types, (), lists[1])
                && call_ensures(C::writes_types, (), lists[2])
                && call_ensures(D::writes_types, (), lists[3])
                && call_ensures(E::writes_types, (), lists[4])
                && call_ensures(F::writes_types, (), lists[5])
                && call_ensures(G::writes_types, (), lists[6])
                && call_ensures(H::writes_types, (), lists[7])
                && call_ensures(I::writes_types, (), lists[8])
                && call_ensures(J::writes_types, (), lists[9])
                && call_ensures(K::writes_types, (), lists[10])
                && types@ == type_lists(lists).flatten(),
    {
        let lists = vec![(A::writes_types)(), (B::writes_types)(), (C::writes_types)(), (D::writes_types)(), (E::writes_types)(), (F::writes_types)(), (G::writes_types)(), (H::writes_types)(), (I::writes_types)(), (J::writes_types)(), (K::writes_types)()];
        let ghost views = lists@;
        let types = concat_types(lists);
        assert(
            views.len() == 11
            && call_ensures(A::writes_types, (), views[0])
            && call_ensures(B::writes_types, (), views[1])
            && call_ensures(C::writes_types, (), views[2])
            && call_ensures(D::writes_types, (), views[3])
            && call_ensures(E::writes_types, (), views[4])
            && call_ensures(F::writes_types, (), views[5])
            && call_ensures(G::writes_types, (), views[6])
            && call_ensures(H::writes_types, (), views[7])
            && call_ensures(I::writes_types, (), views[8])
            && call_ensures(J::writes_types, (), views[9])
            && call_ensures(K::writes_types, (), views[10])
            && types@ == type_lists(views).flatten()
        );
        types
    }

    fn reads<Comp: Component>() -> bool {
        tuple11_reads::<'a, A, B, C, D, E, F, G, H, I, J, K, Comp>()
    }

    fn writes<Comp: Component>() -> bool {
        tuple11_writes::<'a, A, B, C, D, E, F, G, H, I, J, K, Comp>()
    }
}

impl<'a, A: Fetch, B: Fetch, C: Fetch, D: Fetch, E: Fetch, F: Fetch, G: Fetch, H: Fetch, I: Fetch, J: Fetch, K: Fetch> IntoIndexableIter for MultiFetch<'a, (A, B, C, D, E, F, G, H, I, J, K)> {
    type Item = (A::Item, B::Item, C::Item, D::Item, E::Item, F::Item, G::Item, H::Item, I::Item, J::Item, K::Item);
    type IntoIter = (A::IntoIter, B::IntoIter, C::IntoIter, D::IntoIter, E::IntoIter, F::IntoIter, G::IntoIter, H::IntoIter, I::IntoIter, J::IntoIter, K::IntoIter);

    fn into_indexable_iter(self) -> (iter: Self::IntoIter)
        ensures
            call_ensures(A::into_indexable_iter, (self.fetches().0,), iter.0),
            call_ensures(B::into_indexable_iter, (self.fetches().1,), iter.1),
            call_ensures(C::into_indexable_iter, (self.fetches().2,), iter.2),
            call_ensures(D::into_indexable_iter, (self.fetches().3,), iter.3),
            call_ensures(E::into_indexable_iter, (self.fetches().4,), iter.4),
            call_ensures(F::into_indexable_iter, (self.fetches().5,), iter.5),
            call_ensures(G::into_indexable_iter, (self.fetches().6,), iter.6),
            call_ensures(H::into_indexable_iter, (self.fetches().7,), iter.7),
            call_ensures(I::into_indexable_iter, (self.fetches().8,), iter.8),
            call_ensures(J::into_indexable_iter, (self.fetches().9,), iter.9),
            call_ensures(K::into_indexable_iter, (self.fetches().10,), iter.10),
    {
        let (a, b, c, d, e, f, g, h, i, j, k) = self.fetches;
        ((A::into_indexable_iter)(a), (B::into_indexable_iter)(b), (C::into_indexable_iter)(c), (D::into_indexable_iter)(d), (E::into_indexable_iter)(e), (F::into_indexable_iter)(f), (G::into_indexable_iter)(g), (H::into_indexable_iter)(h), (I::into_indexable_iter)(i), (J::into_indexable_iter)(j), (K::into_indexable_iter)(k))
    }
}

impl<'a, A: Fetch, B: Fetch, C: Fetch, D: Fetch, E: Fetch, F: Fetch, G: Fetch, H: Fetch, I: Fetch, J: Fetch, K: Fetch> Fetch for MultiFetch<'a, (A, B, C, D, E, F, G, H, I, J, K)> {
    type Data = (A::Data, B::Data, C::Data, D::Data, E::Data, F::Data, G::Data, H::Data, I::Data, J::Data, K::Data);

    fn into_components(self) -> (data: Self::Data)
        ensures
            call_ensures(A::into_components, (self.fetches().0,), data.0),
            call_ensures(B::into_components, (self.fetches().1,), data.1),
            call_ensures(C::into_components, (self.fetches().2,), data.2),
            call_ensures(D::into_components, (self.fetches().3,), data.3),
            call_ensures(E::into_components, (self.fetches().4,), data.4),
            call_ensures(F::into_components, (self.fetches().5,), data.5),
            call_ensures(G::into_components, (self.fetches().6,), data.6),
            call_ensures(H::into_components, (self.fetches().7,), data.7),
            call_ensures(I::into_components, (self.fetches().8,), data.8),
            call_ensures(J::into_components, (self.fetches().9,), data.9),
            call_ensures(K::into_components, (self.fetches().10,), data.10),
    {
        let (a, b, c, d, e, f, g, h, i, j, k) = self.fetches;
        ((A::into_components)(a), (B::into_components)(b), (C::into_components)(c), (D::into_components)(d), (E::into_components)(e), (F::into_components)(f), (G::into_components)(g), (H::into_components)(h), (I::into_components)(i), (J::into_components)(j), (K::into_components)(k))
    }

    fn find<Comp: 'static>(&self) -> Option<&[Comp]> {
        tuple11_find::<A, B, C, D, E, F, G, H, I, J, K, Comp>(&self.fetches)
    }

    fn find_mut<Comp: 'static>(&mut self) -> Option<&mut [Comp]> {
        tuple11_find_mut::<A, B, C, D, E, F, G, H, I, J, K, Comp>(&mut self.fetches)
    }

    fn version<Comp: Component>(&self) -> Option<u64> {
        tuple11_version::<A, B, C, D, E, F, G, H, I, J, K, Comp>(&self.fetches)
    }

    fn accepted(&mut self)
        ensures
            exists|m: &mut A|
                *m == old(self).fetches().0 && *final(m) == final(self).fetches().0
                && call_ensures(A::accepted, (m,), ()),
            exists|m: &mut B|
                *m == old(self).fetches().1 && *final(m) == final(self).fetches().1
                && call_ensures(B::accepted, (m,), ()),
            exists|m: &mut C|
                *m == old(self).fetches().2 && *final(m) == final(self).fetches().2
                && call_ensures(C::accepted, (m,), ()),
            exists|m: &mut D|
                *m == old(self).fetches().3 && *final(m) == final(self).fetches().3
                && call_ensures(D::accepted, (m,), ()),
            exists|m: &mut E|
                *m == old(self).fetches().4 && *final(m) == final(self).fetches().4
                && call_ensures(E::accepted, (m,), ()),
            exists|m: &mut F|
                *m == old(self).fetches().5 && *final(m) == final(self).fetches().5
                && call_ensures(F::accepted, (m,), ()),
            exists|m: &mut G|
                *m == old(self).fetches().6 && *final(m) == final(self).fetches().6
                && call_ensures(G::accepted, (m,), ()),
            exists|m: &mut H|
                *m == old(self).fetches().7 && *final(m) == final(self).fetches().7
                && call_ensures(H::accepted, (m,), ()),
            exists|m: &mut I|
                *m == old(self).fetches().8 && *final(m) == final(self).fetches().8
                && call_ensures(I::accepted, (m,), ()),
            exists|m: &mut J|
                *m == old(self).fetches().9 && *final(m) == final(self).fetches().9
                && call_ensures(J::accepted, (m,), ()),
            exists|m: &mut K|
                *m == old(self).fetches().10 && *final(m) == final(self).fetches().10
                && call_ensures(K::accepted, (m,), ()),
    {
        let (a, b, c, d, e, f, g, h, i, j, k) = &mut self.fetches;
        (A::accepted)(a);
        (B::accepted)(b);
        (C::accepted)(c);
        (D::accepted)(d);
        (E::accepted)(e);
        (F::accepted)(f);
        (G::accepted)(g);
        (H::accepted)(h);
        (I::accepted)(i);
        (J::accepted)(j);
        (K::accepted)(k);
    }
}

impl<'a, A: ReadOnlyFetch, B: ReadOnlyFetch, C: ReadOnlyFetch, D: ReadOnlyFetch, E: ReadOnlyFetch, F: ReadOnlyFetch, G: ReadOnlyFetch, H: ReadOnlyFetch, I: ReadOnlyFetch, J: ReadOnlyFetch, K: ReadOnlyFetch> ReadOnlyFetch for MultiFetch<'a, (A, B, C, D, E, F, G, H, I, J, K)> {
    fn get_components(&self) -> (data: Self::Data)
        ensures
            call_ensures(A::get_components, (&self.fetches().0,), data.0),
            call_ensures(B::get_components, (&self.fetches().1,), data.1),
            call_ensures(C::get_components, (&self.fetches().2,), data.2),
            call_ensures(D::get_components, (&self.fetches().3,), data.3),
            call_ensures(E::get_components, (&self.fetches().4,), data.4),
            call_ensures(F::get_components, (&self.fetches().5,), data.5),
            call_ensures(G::get_components, (&self.fetches().6,), data.6),
            call_ensures(H::get_components, (&self.fetches().7,), data.7),
            call_ensures(I::get_components, (&self.fetches().8,), data.8),
            call_ensures(J::get_components, (&self.fetches().9,), data.9),
            call_ensures(K::get_components, (&self.fetches().10,), data.10),
    {
        let (a, b, c, d, e, f, g, h, i, j, k) = &self.fetches;
        ((A::get_components)(a), (B::get_components)(b), (C::get_components)(c), (D::get_components)(d), (E::get_components)(e), (F::get_components)(f), (G::get_components)(g), (H::get_components)(h), (I::get_components)(i), (J::get_components)(j), (K::get_components)(k))
    }
}

/// Whether some view of a tuple of 11 reads `Comp`, asking the views in order.
pub fn tuple11_reads<'a, A: View<'a> + 'a, B: View<'a> + 'a, C: View<'a> + 'a, D: View<'a> + 'a, E: View<'a> + 'a, F: View<'a> + 'a, G: View<'a> + 'a, H: View<'a> + 'a, I: View<'a> + 'a, J: View<'a> + 'a, K: View<'a> + 'a, Comp: Component>() -> (found: bool)
    ensures
        (found && call_ensures(A::reads::<Comp>, (), true))
        || (call_ensures(A::reads::<Comp>, (), false) && (
            (found && call_ensures(B::reads::<Comp>, (), true))
            || (call_ensures(B::reads::<Comp>, (), false) && (
                (found && call_ensures(C::reads::<Comp>, (), true))
                || (call_ensures(C::reads::<Comp>, (), false) && (
                    (found && call_ensures(D::reads::<Comp>, (), true))
                    || (call_ensures(D::reads::<Comp>, (), false) && (
                        (found && call_ensures(E::reads::<Comp>, (), true))
                        || (call_ensures(E::reads::<Comp>, (), false) && (
                            (found && call_ensures(F::reads::<Comp>, (), true))
                            || (call_ensures(F::reads::<Comp>, (), false) && (
                                (found && call_ensures(G::reads::<Comp>, (), true))
                                || (call_ensures(G::reads::<Comp>, (), false) && (
                                    (found && call_ensures(H::reads::<Comp>, (), true))
                                    || (call_ensures(H::reads::<Comp>, (), false) && (
                                        (found && call_ensures(I::reads::<Comp>, (), true))
                                        || (call_ensures(I::reads::<Comp>, (), false) && (
                                            (found && call_ensures(J::reads::<Comp>, (), true))
                                            || (call_ensures(J::reads::<Comp>, (), false) && (
                                                call_ensures(K::reads::<Comp>, (), found))))))))))))))))))))),
{
    (A::reads::<Comp>)()
        || (B::reads::<Comp>)()
        || (C::reads::<Comp>)()
        || (D::reads::<Comp>)()
        || (E::reads::<Comp>)()
        || (F::reads::<Comp>)()
        || (G::reads::<Comp>)()
        || (H::reads::<Comp>)()
        || (I::reads::<Comp>)()
        || (J::reads::<Comp>)()
        || (K::reads::<Comp>)()
}

/// Whether some view of a tuple of 11 writes `Comp`, asking the views in order.
pub fn tuple11_writes<'a, A: View<'a> + 'a, B: View<'a> + 'a, C: View<'a> + 'a, D: View<'a> + 'a, E: View<'a> + 'a, F: View<'a> + 'a, G: View<'a> + 'a, H: View<'a> + 'a, I: View<'a> + 'a, J: View<'a> + 'a, K: View<'a> + 'a, Comp: Component>() -> (found: bool)
    ensures
        (found && call_ensures(A::writes::<Comp>, (), true))
        || (call_ensures(A::writes::<Comp>, (), false) && (
            (found && call_ensures(B::writes::<Comp>, (), true))
            || (call_ensures(B::writes::<Comp>, (), false) && (
                (found && call_ensures(C::writes::<Comp>, (), true))
                || (call_ensures(C::writes::<Comp>, (), false) && (
                    (found && call_ensures(D::writes::<Comp>, (), true))
                    || (call_ensures(D::writes::<Comp>, (), false) && (
                        (found && call_ensures(E::writes::<Comp>, (), true))
                        || (call_ensures(E::writes::<Comp>, (), false) && (
                            (found && call_ensures(F::writes::<Comp>, (), true))
                            || (call_ensures(F::writes::<Comp>, (), false) && (
                                (found && call_ensures(G::writes::<Comp>, (), true))
                                || (call_ensures(G::writes::<Comp>, (), false) && (
                                    (found && call_ensures(H::writes::<Comp>, (), true))
                                    || (call_ensures(H::writes::<Comp>, (), false) && (
                                        (found && call_ensures(I::writes::<Comp>, (), true))
                                        || (call_ensures(I::writes::<Comp>, (), false) && (
                                            (found && call_ensures(J::writes::<Comp>, (), true))
                                            || (call_ensures(J::writes::<Comp>, (), false) && (
                                                call_ensures(K::writes::<Comp>, (), found))))))))))))))))))))),
{
    (A::writes::<Comp>)()
        || (B::writes::<Comp>)()
        || (C::writes::<Comp>)()
        || (D::writes::<Comp>)()
        || (E::writes::<Comp>)()
        || (F::writes::<Comp>)()
        || (G::writes::<Comp>)()
        || (H::writes::<Comp>)()
        || (I::writes::<Comp>)()
        || (J::writes::<Comp>)()
        || (K::writes::<Comp>)()
}

/// The slice of the first fetch of a tuple of 11 that holds `Comp`.
pub fn tuple11_find<'f, A: Fetch, B: Fetch, C: Fetch, D: Fetch, E: Fetch, F: Fetch, G: Fetch, H: Fetch, I: Fetch, J: Fetch, K: Fetch, Comp: 'static>(fetches: &'f (A, B, C, D, E, F, G, H, I, J, K)) -> (found: Option<&'f [Comp]>)
    ensures
        (found is Some && call_ensures(A::find::<Comp>, (&fetches.0,), found))
        || (call_ensures(A::find::<Comp>, (&fetches.0,), None) && (
            (found is Some && call_ensures(B::find::<Comp>, (&fetches.1,), found))
            || (call_ensures(B::find::<Comp>, (&fetches.1,), None) && (
                (found is Some && call_ensures(C::find::<Comp>, (&fetches.2,), found))
                || (call_ensures(C::find::<Comp>, (&fetches.2,), None) && (
                    (found is Some && call_ensures(D::find::<Comp>, (&fetches.3,), found))
                    || (call_ensures(D::find::<Comp>, (&fetches.3,), None) && (
                        (found is Some && call_ensures(E::find::<Comp>, (&fetches.4,), found))
                        || (call_ensures(E::find::<Comp>, (&fetches.4,), None) && (
                            (found is Some && call_ensures(F::find::<Comp>, (&fetches.5,), found))
                            || (call_ensures(F::find::<Comp>, (&fetches.5,), None) && (
                                (found is Some && call_ensures(G::find::<Comp>, (&fetches.6,), found))
                                || (call_ensures(G::find::<Comp>, (&fetches.6,), None) && (
                                    (found is Some && call_ensures(H::find::<Comp>, (&fetches.7,), found))
                                    || (call_ensures(H::find::<Comp>, (&fetches.7,), None) && (
                                        (found is Some && call_ensures(I::find::<Comp>, (&fetches.8,), found))
                                        || (call_ensures(I::find::<Comp>, (&fetches.8,), None) && (
                                            (found is Some && call_ensures(J::find::<Comp>, (&fetches.9,), found))
                                            || (call_ensures(J::find::<Comp>, (&fetches.9,), None) && (
                                                call_ensures(K::find::<Comp>, (&fetches.10,), found))))))))))))))))))))),
{
    let (a, b, c, d, e, f, g, h, i, j, k) = fetches;
    if let Some(slice) = (A::find::<Comp>)(a) {
        return Some(slice);
    }
    if let Some(slice) = (B::find::<Comp>)(b) {
        return Some(slice);
    }
    if let Some(slice) = (C::find::<Comp>)(c) {
        return Some(slice);
    }
    if let Some(slice) = (D::find::<Comp>)(d) {
        return Some(slice);
    }
    if let Some(slice) = (E::find::<Comp>)(e) {
        return Some(slice);
    }
    if let Some(slice) = (F::find::<Comp>)(f) {
        return Some(slice);
    }
    if let Some(slice) = (G::find::<Comp>)(g) {
        return Some(slice);
    }
    if let Some(slice) = (H::find::<Comp>)(h) {
        return Some(slice);
    }
    if let Some(slice) = (I::find::<Comp>)(i) {
        return Some(slice);
    }
    if let Some(slice) = (J::find::<Comp>)(j) {
        return Some(slice);
    }
    (K::find::<Comp>)(k)
}

/// The mutable slice of the first fetch of a tuple of 11 that holds `Comp`.
pub fn tuple11_find_mut<'f, A: Fetch, B: Fetch, C: Fetch, D: Fetch, E: Fetch, F: Fetch, G: Fetch, H: Fetch, I: Fetch, J: Fetch, K: Fetch, Comp: 'static>(fetches: &'f mut (A, B, C, D, E, F, G, H, I, J, K)) -> (found: Option<&'f mut [Comp]>)
    ensures
        exists|m: &mut A|
            *m == old(fetches).0
            && *final(m) == final(fetches).0
            && ((found is Some && call_ensures(A::find_mut::<Comp>, (m,), found) && final(fetches).1 == old(fetches).1 && final(fetches).2 == old(fetches).2 && final(fetches).3 == old(fetches).3 && final(fetches).4 == old(fetches).4 && final(fetches).5 == old(fetches).5 && final(fetches).6 == old(fetches).6 && final(fetches).7 == old(fetches).7 && final(fetches).8 == old(fetches).8 && final(fetches).9 == old(fetches).9 && final(fetches).10 == old(fetches).10)
            || (call_ensures(A::find_mut::<Comp>, (m,), None) && (
                exists|m: &mut B|
                    *m == old(fetches).1
                    && *final(m) == final(fetches).1
                    && ((found is Some && call_ensures(B::find_mut::<Comp>, (m,), found) && final(fetches).2 == old(fetches).2 && final(fetches).3 == old(fetches).3 && final(fetches).4 == old(fetches).4 && final(fetches).5 == old(fetches).5 && final(fetches).6 == old(fetches).6 && final(fetches).7 == old(fetches).7 && final(fetches).8 == old(fetches).8 && final(fetches).9 == old(fetches).9 && final(fetches).10 == old(fetches).10)
                    || (call_ensures(B::find_mut::<Comp>, (m,), None) && (
                        exists|m: &mut C|
                            *m == old(fetches).2
                            && *final(m) == final(fetches).2
                            && ((found is Some && call_ensures(C::find_mut::<Comp>, (m,), found) && final(fetches).3 == old(fetches).3 && final(fetches).4 == old(fetches).4 && final(fetches).5 == old(fetches).5 && final(fetches).6 == old(fetches).6 && final(fetches).7 == old(fetches).7 && final(fetches).8 == old(fetches).8 && final(fetches).9 == old(fetches).9 && final(fetches).10 == old(fetches).10)
                            || (call_ensures(C::find_mut::<Comp>, (m,), None) && (
                                exists|m: &mut D|
                                    *m == old(fetches).3
                                    && *final(m) == final(fetches).3
                                    && ((found is Some && call_ensures(D::find_mut::<Comp>, (m,), found) && final(fetches).4 == old(fetches).4 && final(fetches).5 == old(fetches).5 && final(fetches).6 == old(fetches).6 && final(fetches).7 == old(fetches).7 && final(fetches).8 == old(fetches).8 && final(fetches).9 == old(fetches).9 && final(fetches).10 == old(fetches).10)
                                    || (call_ensures(D::find_mut::<Comp>, (m,), None) && (
                                        exists|m: &mut E|
                                            *m == old(fetches).4
                                            && *final(m) == final(fetches).4
                                            && ((found is Some && call_ensures(E::find_mut::<Comp>, (m,), found) && final(fetches).5 == old(fetches).5 && final(fetches).6 == old(fetches).6 && final(fetches).7 == old(fetches).7 && final(fetches).8 == old(fetches).8 && final(fetches).9 == old(fetches).9 && final(fetches).10 == old(fetches).10)
                                            || (call_ensures(E::find_mut::<Comp>, (m,), None) && (
                                                exists|m: &mut F|
                                                    *m == old(fetches).5
                                                    && *final(m) == final(fetches).5
                                                    && ((found is Some && call_ensures(F::find_mut::<Comp>, (m,), found) && final(fetches).6 == old(fetches).6 && final(fetches).7 == old(fetches).7 && final(fetches).8 == old(fetches).8 && final(fetches).9 == old(fetches).9 && final(fetches).10 == old(fetches).10)
                                                    || (call_ensures(F::find_mut::<Comp>, (m,), None) && (
                                                        exists|m: &mut G|
                                                            *m == old(fetches).6
                                                            && *final(m) == final(fetches).6
                                                            && ((found is Some && call_ensures(G::find_mut::<Comp>, (m,), found) && final(fetches).7 == old(fetches).7 && final(fetches).8 == old(fetches).8 && final(fetches).9 == old(fetches).9 && final(fetches).10 == old(fetches).10)
                                                            || (call_ensures(G::find_mut::<Comp>, (m,), None) && (
                                                                exists|m: &mut H|
                                                                    *m == old(fetches).7
                                                                    && *final(m) == final(fetches).7
                                                                    && ((found is Some && call_ensures(H::find_mut::<Comp>, (m,), found) && final(fetches).8 == old(fetches).8 && final(fetches).9 == old(fetches).9 && final(fetches).10 == old(fetches).10)
                                                                    || (call_ensures(H::find_mut::<Comp>, (m,), None) && (
                                                                        exists|m: &mut I|
                                                                            *m == old(fetches).8
                                                                            && *final(m) == final(fetches).8
                                                                            && ((found is Some && call_ensures(I::find_mut::<Comp>, (m,), found) && final(fetches).9 == old(fetches).9 && final(fetches).10 == old(fetches).10)
                                                                            || (call_ensures(I::find_mut::<Comp>, (m,), None) && (
                                                                                exists|m: &mut J|
                                                                                    *m == old(fetches).9
                                                                                    && *final(m) == final(fetches).9
                                                                                    && ((found is Some && call_ensures(J::find_mut::<Comp>, (m,), found) && final(fetches).10 == old(fetches).10)
                                                                                    || (call_ensures(J::find_mut::<Comp>, (m,), None) && (
                                                                                        exists|m: &mut K|
                                                                                            *m == old(fetches).10
                                                                                            && *final(m) == final(fetches).10
                                                                                            && call_ensures(K::find_mut::<Comp>, (m,), found))))))))))))))))))))))))))))))),
{
    let found = (A::find_mut::<Comp>)(&mut fetches.0);
    if found.is_some() {
        return found;
    }
    let found = (B::find_mut::<Comp>)(&mut fetches.1);
    if found.is_some() {
        return found;
    }
    let found = (C::find_mut::<Comp>)(&mut fetches.2);
    if found.is_some() {
        return found;
    }
    let found = (D::find_mut::<Comp>)(&mut fetches.3);
    if found.is_some() {
        return found;
    }
    let found = (E::find_mut::<Comp>)(&mut fetches.4);
    if found.is_some() {
        return found;
    }
    let found = (F::find_mut::<Comp>)(&mut fetches.5);
    if found.is_some() {
        return found;
    }
    let found = (G::find_mut::<Comp>)(&mut fetches.6);
    if found.is_some() {
        return found;
    }
    let found = (H::find_mut::<Comp>)(&mut fetches.7);
    if found.is_some() {
        return found;
    }
    let found = (I::find_mut::<Comp>)(&mut fetches.8);
    if found.is_some() {
        return found;
    }
    let found = (J::find_mut::<Comp>)(&mut fetches.9);
    if found.is_some() {
        return found;
    }
    (K::find_mut::<Comp>)(&mut fetches.10)
}

/// The version of `Comp` in the first fetch of a tuple of 11 that holds it.
pub fn tuple11_version<A: Fetch, B: Fetch, C: Fetch, D: Fetch, E: Fetch, F: Fetch, G: Fetch, H: Fetch, I: Fetch, J: Fetch, K: Fetch, Comp: Component>(fetches: &(A, B, C, D, E, F, G, H, I, J, K)) -> (version: Option<u64>)
    ensures
        (version is Some && call_ensures(A::version::<Comp>, (&fetches.0,), version))
        || (call_ensures(A::version::<Comp>, (&fetches.0,), None) && (
            (version is Some && call_ensures(B::version::<Comp>, (&fetches.1,), version))
            || (call_ensures(B::version::<Comp>, (&fetches.1,), None) && (
                (version is Some && call_ensures(C::version::<Comp>, (&fetches.2,), version))
                || (call_ensures(C::version::<Comp>, (&fetches.2,), None) && (
                    (version is Some && call_ensures(D::version::<Comp>, (&fetches.3,), version))
                    || (call_ensures(D::version::<Comp>, (&fetches.3,), None) && (
                        (version is Some && call_ensures(E::version::<Comp>, (&fetches.4,), version))
                        || (call_ensures(E::version::<Comp>, (&fetches.4,), None) && (
                            (version is Some && call_ensures(F::version::<Comp>, (&fetches.5,), version))
                            || (call_ensures(F::version::<Comp>, (&fetches.5,), None) && (
                                (version is Some && call_ensures(G::version::<Comp>, (&fetches.6,), version))
                                || (call_ensures(G::version::<Comp>, (&fetches.6,), None) && (
                                    (version is Some && call_ensures(H::version::<Comp>, (&fetches.7,), version))
                                    || (call_ensures(H::version::<Comp>, (&fetches.7,), None) && (
                                        (version is Some && call_ensures(I::version::<Comp>, (&fetches.8,), version))
                                        || (call_ensures(I::version::<Comp>, (&fetches.8,), None) && (
                                            (version is Some && call_ensures(J::version::<Comp>, (&fetches.9,), version))
                                            || (call_ensures(J::version::<Comp>, (&fetches.9,), None) && (
                                                call_ensures(K::version::<Comp>, (&fetches.10,), version))))))))))))))))))))),
{
    let (a, b, c, d, e, f, g, h, i, j, k) = fetches;
    if let Some(version) = (A::version::<Comp>)(a) {
        return Some(version);
    }
    if let Some(version) = (B::version::<Comp>)(b) {
        return Some(version);
    }
    if let Some(version) = (C::version::<Comp>)(c) {
        return Some(version);
    }
    if let Some(version) = (D::version::<Comp>)(d) {
        return Some(version);
    }
    if let Some(version) = (E::version::<Comp>)(e) {
        return Some(version);
    }
    if let Some(version) = (F::version::<Comp>)(f) {
        return Some(version);
    }
    if let Some(version) = (G::version::<Comp>)(g) {
        return Some(version);
    }
    if let Some(version) = (H::version::<Comp>)(h) {
        return Some(version);
    }
    if let Some(version) = (I::version::<Comp>)(i) {
        return Some(version);
    }
    if let Some(version) = (J::version::<Comp>)(j) {
        return Some(version);
    }
    (K::version::<Comp>)(k)
}

// Tuples of 12 views.

impl<A: DefaultFilter, B: DefaultFilter, C: DefaultFilter, D: DefaultFilter, E: DefaultFilter, F: DefaultFilter, G: DefaultFilter, H: DefaultFilter, I: DefaultFilter, J: DefaultFilter, K: DefaultFilter, L: DefaultFilter> DefaultFilter for (A, B, C, D, E, F, G, H, I, J, K, L) {
    type Filter = (A::Filter, B::Filter, C::Filter, D::Filter, E::Filter, F::Filter, G::Filter, H::Filter, I::Filter, J::Filter, K::Filter, L::Filter);
}

impl<'a, A: View<'a> + 'a, B: View<'a> + 'a, C: View<'a> + 'a, D: View<'a> + 'a, E: View<'a> + 'a, F: View<'a> + 'a, G: View<'a> + 'a, H: View<'a> + 'a, I: View<'a> + 'a, J: View<'a> + 'a, K: View<'a> + 'a, L: View<'a> + 'a> View<'a> for (A, B, C, D, E, F, G, H, I, J, K, L) {
    type Element = <Self::Fetch as IntoIndexableIter>::Item;
    type Fetch = MultiFetch<'a, (A::Fetch, B::Fetch, C::Fetch, D::Fetch, E::Fetch, F::Fetch, G::Fetch, H::Fetch, I::Fetch, J::Fetch, K::Fetch, L::Fetch)>;

    fn validate() -> (valid: bool)
        ensures
            exists|reads: Seq<Vec<ComponentTypeId>>, writes: Seq<Vec<ComponentTypeId>>|
                reads.len() == 12 && writes.len() == 12
                && call_ensures(A::reads_types, (), reads[0])
                && call_ensures(A::writes_types, (), writes[0])
                && call_ensures(B::reads_types, (), reads[1])
                && call_ensures(B::writes_types, (), writes[1])
                && call_ensures(C::reads_types, (), reads[2])
                && call_ensures(C::writes_types, (), writes[2])
                && call_ensures(D::reads_types, (), reads[3])
                && call_ensures(D::writes_types, (), writes[3])
                && call_ensures(E::reads_types, (), reads[4])
                && call_ensures(E::writes_types, (), writes[4])
                && call_ensures(F::reads_types, (), reads[5])
                && call_ensures(F::writes_types, (), writes[5])
                && call_ensures(G::reads_types, (), reads[6])
                && call_ensures(G::writes_types, (), writes[6])
                && call_ensures(H::reads_types, (), reads[7])
                && call_ensures(H::writes_types, (), writes[7])
                && call_ensures(I::reads_types, (), reads[8])
                && call_ensures(I::writes_types, (), writes[8])
                && call_ensures(J::reads_types, (), reads[9])
                && call_ensures(J::writes_types, (), writes[9])
                && call_ensures(K::reads_types, (), reads[10])
                && call_ensures(K::writes_types, (), writes[10])
                && call_ensures(L::reads_types, (), reads[11])
                && call_ensures(L::writes_types, (), writes[11])
                && valid == conflict_free(type_lists(reads), type_lists(writes)),
    {
        let reads = vec![(A::reads_types)(), (B::reads_types)(), (C::reads_types)(), (D::reads_types)(), (E::reads_types)(), (F::reads_types)(), (G::reads_types)(), (H::reads_types)(), (I::reads_types)(), (J::reads_types)(), (K::reads_types)(), (L::reads_types)()];
        let writes = vec![(A::writes_types)(), (B::writes_types)(), (C::writes_types)(), (D::writes_types)(), (E::writes_types)(), (F::writes_types)(), (G::writes_types)(), (H::writes_types)(), (I::writes_types)(), (J::writes_types)(), (K::writes_types)(), (L::writes_types)()];
        let valid = accesses_conflict_free(&reads, &writes);
        assert(
            reads@.len() == 12 && writes@.len() == 12
            && call_ensures(A::reads_types, (), reads@[0])
            && call_ensures(A::writes_types, (), writes@[0])
            && call_ensures(B::reads_types, (), reads@[1])
            && call_ensures(B::writes_types, (), writes@[1])
            && call_ensures(C::reads_types, (), reads@[2])
            && call_ensures(C::writes_types, (), writes@[2])
            && call_ensures(D::reads_types, (), reads@[3])
            && call_ensures(D::writes_types, (), writes@[3])
            && call_ensures(E::reads_types, (), reads@[4])
            && call_ensures(E::writes_types, (), writes@[4])
            && call_ensures(F::reads_types, (), reads@[5])
            && call_ensures(F::writes_types, (), writes@[5])
            && call_ensures(G::reads_types, (), reads@[6])
            && call_ensures(G::writes_types, (), writes@[6])
            && call_ensures(H::reads_types, (), reads@[7])
            && call_ensures(H::writes_types, (), writes@[7])
            && call_ensures(I::reads_types, (), reads@[8])
            && call_ensures(I::writes_types, (), writes@[8])
            && call_ensures(J::reads_types, (), reads@[9])
            && call_ensures(J::writes_types, (), writes@[9])
            && call_ensures(K::reads_types, (), reads@[10])
            && call_ensures(K::writes_types, (), writes@[10])
            && call_ensures(L::reads_types, (), reads@[11])
            && call_ensures(L::writes_types, (), writes@[11])
            && valid == conflict_free(type_lists(reads@), type_lists(writes@))
        );
        valid
    }

    fn reads_types() -> (types: Vec<ComponentTypeId>)
        ensures
            exists|lists: Seq<Vec<ComponentTypeId>>|
                lists.len() == 12
                && call_ensures(A::reads_types, (), lists[0])
                && call_ensures(B::reads_types, (), lists[1])
                && call_ensures(C::reads_types, (), lists[2])
                && call_ensures(D::reads_types, (), lists[3])
                && call_ensures(E::reads_types, (), lists[4])
                && call_ensures(F::reads_types, (), lists[5])
                && call_ensures(G::reads_types, (), lists[6])
                && call_ensures(H::reads_types, (), lists[7])
                && call_ensures(I::reads_types, (), lists[8])
                && call_ensures(J::reads_types, (), lists[9])
                && call_ensures(K::reads_types, (), lists[10])
                && call_ensures(L::reads_types, (), lists[11])
                && types@ == type_lists(lists).flatten(),
    {
        let lists = vec![(A::reads_types)(), (B::reads_types)(), (C::reads_types)(), (D::reads_types)(), (E::reads_types)(), (F::reads_types)(), (G::reads_types)(), (H::reads_types)(), (I::reads_types)(), (J::reads_types)(), (K::reads_types)(), (L::reads_types)()];
        let ghost views = lists@;
        let types = concat_types(lists);
        assert(
            views.len() == 12
            && call_ensures(A::reads_types, (), views[0])
            && call_ensures(B::reads_types, (), views[1])
            && call_ensures(C::reads_types, (), views[2])
            && call_ensures(D::reads_types, (), views[3])
            && call_ensures(E::reads_types, (), views[4])
            && call_ensures(F::reads_types, (), views[5])
            && call_ensures(G::reads_types, (), views[6])
            && call_ensures(H::reads_types, (), views[7])
            && call_ensures(I::reads_types, (), views[8])
            && call_ensures(J::reads_types, (), views[9])
            && call_ensures(K::reads_types, (), views[10])
            && call_ensures(L::reads_types, (), views[11])
            && types@ == type_lists(views).flatten()
        );
        types
    }

    fn writes_types() -> (types: Vec<ComponentTypeId>)
        ensures
            exists|lists: Seq<Vec<ComponentTypeId>>|
                lists.len() == 12
                && call_ensures(A::writes_types, (), lists[0])
                && call_ensures(B::writes_types, (), lists[1])
                && call_ensures(C::writes_types, (), lists[2])
                && call_ensures(D::writes_types, (), lists[3])
                && call_ensures(E::writes_types, (), lists[4])
                && call_ensures(F::writes_types, (), lists[5])
                && call_ensures(G::writes_types, (), lists[6])
                && call_ensures(H::writes_types, (), lists[7])
                && call_ensures(I::writes_types, (), lists[8])
                && call_ensures(J::writes_types, (), lists[9])
                && call_ensures(K::writes_types, (), lists[10])
                && call_ensures(L::writes_types, (), lists[11])
                && types@ == type_lists(lists).flatten(),
    {
        let lists = vec![(A::writes_types)(), (B::writes_types)(), (C::writes_types)(), (D::writes_types)(), (E::writes_types)(), (F::writes_types)(), (G::writes_types)(), (H::writes_types)(), (I::writes_types)(), (J::writes_types)(), (K::writes_types)(), (L::writes_types)()];
        let ghost views = lists@;
        let types = concat_types(lists);
        assert(
            views.len() == 12
            && call_ensures(A::writes_types, (), views[0])
            && call_ensures(B::writes_types, (), views[1])
            && call_ensures(C::writes_types, (), views[2])
            && call_ensures(D::writes_types, (), views[3])
            && call_ensures(E::writes_types, (), views[4])
            && call_ensures(F::writes_types, (), views[5])
            && call_ensures(G::writes_types, (), views[6])
            && call_ensures(H::writes_types, (), views[7])
            && call_ensures(I::writes_types, (), views[8])
            && call_ensures(J::writes_types, (), views[9])
            && call_ensures(K::writes_types, (), views[10])
            && call_ensures(L::writes_types, (), views[11])
            && types@ == type_lists(views).flatten()
        );
        types
    }

    fn reads<Comp: Component>() -> bool {
        tuple12_reads::<'a, A, B, C, D, E, F, G, H, I, J, K, L, Comp>()
    }

    fn writes<Comp: Component>() -> bool {
        tuple12_writes::<'a, A, B, C, D, E, F, G, H, I, J, K, L, Comp>()
    }
}

impl<'a, A: Fetch, B: Fetch, C: Fetch, D: Fetch, E: Fetch, F: Fetch, G: Fetch, H: Fetch, I: Fetch, J: Fetch, K: Fetch, L: Fetch> IntoIndexableIter for MultiFetch<'a, (A, B, C, D, E, F, G, H, I, J, K, L)> {
    type Item = (A::Item, B::Item, C::Item, D::Item, E::Item, F::Item, G::Item, H::Item, I::Item, J::Item, K::Item, L::Item);
    type IntoIter = (A::IntoIter, B::IntoIter, C::IntoIter, D::IntoIter, E::IntoIter, F::IntoIter, G::IntoIter, H::IntoIter, I::IntoIter, J::IntoIter, K::IntoIter, L::IntoIter);

    fn into_indexable_iter(self) -> (iter: Self::IntoIter)
        ensures
            call_ensures(A::into_indexable_iter, (self.fetches().0,), iter.0),
            call_ensures(B::into_indexable_iter, (self.fetches().1,), iter.1),
            call_ensures(C::into_indexable_iter, (self.fetches().2,), iter.2),
            call_ensures(D::into_indexable_iter, (self.fetches().3,), iter.3),
            call_ensures(E::into_indexable_iter, (self.fetches().4,), iter.4),
            call_ensures(F::into_indexable_iter, (self.fetches().5,), iter.5),
            call_ensures(G::into_indexable_iter, (self.fetches().6,), iter.6),
            call_ensures(H::into_indexable_iter, (self.fetches().7,), iter.7),
            call_ensures(I::into_indexable_iter, (self.fetches().8,), iter.8),
            call_ensures(J::into_indexable_iter, (self.fetches().9,), iter.9),
            call_ensures(K::into_indexable_iter, (self.fetches().10,), iter.10),
            call_ensures(L::into_indexable_iter, (self.fetches().11,), iter.11),
    {
        let (a, b, c, d, e, f, g, h, i, j, k, l) = self.fetches;
        ((A::into_indexable_iter)(a), (B::into_indexable_iter)(b), (C::into_indexable_iter)(c), (D::into_indexable_iter)(d), (E::into_indexable_iter)(e), (F::into_indexable_iter)(f), (G::into_indexable_iter)(g), (H::into_indexable_iter)(h), (I::into_indexable_iter)(i), (J::into_indexable_iter)(j), (K::into_indexable_iter)(k), (L::into_indexable_iter)(l))
    }
}

impl<'a, A: Fetch, B: Fetch, C: Fetch, D: Fetch, E: Fetch, F: Fetch, G: Fetch, H: Fetch, I: Fetch, J: Fetch, K: Fetch, L: Fetch> Fetch for MultiFetch<'a, (A, B, C, D, E, F, G, H, I, J, K, L)> {
    type Data = (A::Data, B::Data, C::Data, D::Data, E::Data, F::Data, G::Data, H::Data, I::Data, J::Data, K::Data, L::Data);

    fn into_components(self) -> (data: Self::Data)
        ensures
            call_ensures(A::into_components, (self.fetches().0,), data.0),
            call_ensures(B::into_components, (self.fetches().1,), data.1),
            call_ensures(C::into_components, (self.fetches().2,), data.2),
            call_ensures(D::into_components, (self.fetches().3,), data.3),
            call_ensures(E::into_components, (self.fetches().4,), data.4),
            call_ensures(F::into_components, (self.fetches().5,), data.5),
            call_ensures(G::into_components, (self.fetches().6,), data.6),
            call_ensures(H::into_components, (self.fetches().7,), data.7),
            call_ensures(I::into_components, (self.fetches().8,), data.8),
            call_ensures(J::into_components, (self.fetches().9,), data.9),
            call_ensures(K::into_components, (self.fetches().10,), data.10),
            call_ensures(L::into_components, (self.fetches().11,), data.11),
    {
        let (a, b, c, d, e, f, g, h, i, j, k, l) = self.fetches;
        ((A::into_components)(a), (B::into_components)(b), (C::into_components)(c), (D::into_components)(d), (E::into_components)(e), (F::into_components)(f), (G::into_components)(g), (H::into_components)(h), (I::into_components)(i), (J::into_components)(j), (K::into_components)(k), (L::into_components)(l))
    }

    fn find<Comp: 'static>(&self) -> Option<&[Comp]> {
        tuple12_find::<A, B, C, D, E, F, G, H, I, J, K, L, Comp>(&self.fetches)
    }

    fn find_mut<Comp: 'static>(&mut self) -> Option<&mut [Comp]> {
        tuple12_find_mut::<A, B, C, D, E, F, G, H, I, J, K, L, Comp>(&mut self.fetches)
    }

    fn version<Comp: Component>(&self) -> Option<u64> {
        tuple12_version::<A, B, C, D, E, F, G, H, I, J, K, L, Comp>(&self.fetches)
    }

    fn accepted(&mut self)
        ensures
            exists|m: &mut A|
                *m == old(self).fetches().0 && *final(m) == final(self).fetches().0
                && call_ensures(A::accepted, (m,), ()),
            exists|m: &mut B|
                *m == old(self).fetches().1 && *final(m) == final(self).fetches().1
                && call_ensures(B::accepted, (m,), ()),
            exists|m: &mut C|
                *m == old(self).fetches().2 && *final(m) == final(self).fetches().2
                && call_ensures(C::accepted, (m,), ()),
            exists|m: &mut D|
                *m == old(self).fetches().3 && *final(m) == final(self).fetches().3
                && call_ensures(D::accepted, (m,), ()),
            exists|m: &mut E|
                *m == old(self).fetches().4 && *final(m) == final(self).fetches().4
                && call_ensures(E::accepted, (m,), ()),
            exists|m: &mut F|
                *m == old(self).fetches().5 && *final(m) == final(self).fetches().5
                && call_ensures(F::accepted, (m,), ()),
            exists|m: &mut G|
                *m == old(self).fetches().6 && *final(m) == final(self).fetches().6
                && call_ensures(G::accepted, (m,), ()),
            exists|m: &mut H|
                *m == old(self).fetches().7 && *final(m) == final(self).fetches().7
                && call_ensures(H::accepted, (m,), ()),
            exists|m: &mut I|
                *m == old(self).fetches().8 && *final(m) == final(self).fetches().8
                && call_ensures(I::accepted, (m,), ()),
            exists|m: &mut J|
                *m == old(self).fetches().9 && *final(m) == final(self).fetches().9
                && call_ensures(J::accepted, (m,), ()),
            exists|m: &mut K|
                *m == old(self).fetches().10 && *final(m) == final(self).fetches().10
                && call_ensures(K::accepted, (m,), ()),
            exists|m: &mut L|
                *m == old(self).fetches().11 && *final(m) == final(self).fetches().11
                && call_ensures(L::accepted, (m,), ()),
    {
        let (a, b, c, d, e, f, g, h, i, j, k, l) = &mut self.fetches;
        (A::accepted)(a);
        (B::accepted)(b);
        (C::accepted)(c);
        (D::accepted)(d);
        (E::accepted)(e);
        (F::accepted)(f);
        (G::accepted)(g);
        (H::accepted)(h);
        (I::accepted)(i);
        (J::accepted)(j);
        (K::accepted)(k);
        (L::accepted)(l);
    }
}

impl<'a, A: ReadOnlyFetch, B: ReadOnlyFetch, C: ReadOnlyFetch, D: ReadOnlyFetch, E: ReadOnlyFetch, F: ReadOnlyFetch, G: ReadOnlyFetch, H: ReadOnlyFetch, I: ReadOnlyFetch, J: ReadOnlyFetch, K: ReadOnlyFetch, L: ReadOnlyFetch> ReadOnlyFetch for MultiFetch<'a, (A, B, C, D, E, F, G, H, I, J, K, L)> {
    fn get_components(&self) -> (data: Self::Data)
        ensures
            call_ensures(A::get_components, (&self.fetches().0,), data.0),
            call_ensures(B::get_components, (&self.fetches().1,), data.1),
            call_ensures(C::get_components, (&self.fetches().2,), data.2),
            call_ensures(D::get_components, (&self.fetches().3,), data.3),
            call_ensures(E::get_components, (&self.fetches().4,), data.4),
            call_ensures(F::get_components, (&self.fetches().5,), data.5),
            call_ensures(G::get_components, (&self.fetches().6,), data.6),
            call_ensures(H::get_components, (&self.fetches().7,), data.7),
            call_ensures(I::get_components, (&self.fetches().8,), data.8),
            call_ensures(J::get_components, (&self.fetches().9,), data.9),
            call_ensures(K::get_components, (&self.fetches().10,), data.10),
            call_ensures(L::get_components, (&self.fetches().11,), data.11),
    {
        let (a, b, c, d, e, f, g, h, i, j, k, l) = &self.fetches;
        ((A::get_components)(a), (B::get_components)(b), (C::get_components)(c), (D::get_components)(d), (E::get_components)(e), (F::get_components)(f), (G::get_components)(g), (H::get_components)(h), (I::get_components)(i), (J::get_components)(j), (K::get_components)(k), (L::get_components)(l))
    }
}

/// Whether some view of a tuple of 12 reads `Comp`, asking the views in order.
pub fn tuple12_reads<'a, A: View<'a> + 'a, B: View<'a> + 'a, C: View<'a> + 'a, D: View<'a> + 'a, E: View<'a> + 'a, F: View<'a> + 'a, G: View<'a> + 'a, H: View<'a> + 'a, I: View<'a> + 'a, J: View<'a> + 'a, K: View<'a> + 'a, L: View<'a> + 'a, Comp: Component>() -> (found: bool)
    ensures
        (found && call_ensures(A::reads::<Comp>, (), true))
        || (call_ensures(A::reads::<Comp>, (), false) && (
            (found && call_ensures(B::reads::<Comp>, (), true))
            || (call_ensures(B::reads::<Comp>, (), false) && (
                (found && call_ensures(C::reads::<Comp>, (), true))
                || (call_ensures(C::reads::<Comp>, (), false) && (
                    (found && call_ensures(D::reads::<Comp>, (), true))
                    || (call_ensures(D::reads::<Comp>, (), false) && (
                        (found && call_ensures(E::reads::<Comp>, (), true))
                        || (call_ensures(E::reads::<Comp>, (), false) && (
                            (found && call_ensures(F::reads::<Comp>, (), true))
                            || (call_ensures(F::reads::<Comp>, (), false) && (
                                (found && call_ensures(G::reads::<Comp>, (), true))
                                || (call_ensures(G::reads::<Comp>, (), false) && (
                                    (found && call_ensures(H::reads::<Comp>, (), true))
                                    || (call_ensures(H::reads::<Comp>, (), false) && (
                                        (found && call_ensures(I::reads::<Comp>, (), true))
                                        || (call_ensures(I::reads::<Comp>, (), false) && (
                                            (found && call_ensures(J::reads::<Comp>, (), true))
                                            || (call_ensures(J::reads::<Comp>, (), false) && (
                                                (found && call_ensures(K::reads::<Comp>, (), true))
                                                || (call_ensures(K::reads::<Comp>, (), false) && (
                                                    call_ensures(L::reads::<Comp>, (), found))))))))))))))))))))))),
{
    (A::reads::<Comp>)()
        || (B::reads::<Comp>)()
        || (C::reads::<Comp>)()
        || (D::reads::<Comp>)()
        || (E::reads::<Comp>)()
        || (F::reads::<Comp>)()
        || (G::reads::<Comp>)()
        || (H::reads::<Comp>)()
        || (I::reads::<Comp>)()
        || (J::reads::<Comp>)()
        || (K::reads::<Comp>)()
        || (L::reads::<Comp>)()
}

/// Whether some view of a tuple of 12 writes `Comp`, asking the views in order.
pub fn tuple12_writes<'a, A: View<'a> + 'a, B: View<'a> + 'a, C: View<'a> + 'a, D: View<'a> + 'a, E: View<'a> + 'a, F: View<'a> + 'a, G: View<'a> + 'a, H: View<'a> + 'a, I: View<'a> + 'a, J: View<'a> + 'a, K: View<'a> + 'a, L: View<'a> + 'a, Comp: Component>() -> (found: bool)
    ensures
        (found && call_ensures(A::writes::<Comp>, (), true))
        || (call_ensures(A::writes::<Comp>, (), false) && (
            (found && call_ensures(B::writes::<Comp>, (), true))
            || (call_ensures(B::writes::<Comp>, (), false) && (
                (found && call_ensures(C::writes::<Comp>, (), true))
                || (call_ensures(C::writes::<Comp>, (), false) && (
                    (found && call_ensures(D::writes::<Comp>, (), true))
                    || (call_ensures(D::writes::<Comp>, (), false) && (
                        (found && call_ensures(E::writes::<Comp>, (), true))
                        || (call_ensures(E::writes::<Comp>, (), false) && (
                            (found && call_ensures(F::writes::<Comp>, (), true))
                            || (call_ensures(F::writes::<Comp>, (), false) && (
                                (found && call_ensures(G::writes::<Comp>, (), true))
                                || (call_ensures(G::writes::<Comp>, (), false) && (
                                    (found && call_ensures(H::writes::<Comp>, (), true))
                                    || (call_ensures(H::writes::<Comp>, (), false) && (
                                        (found && call_ensures(I::writes::<Comp>, (), true))
                                        || (call_ensures(I::writes::<Comp>, (), false) && (
                                            (found && call_ensures(J::writes::<Comp>, (), true))
                                            || (call_ensures(J::writes::<Comp>, (), false) && (
                                                (found && call_ensures(K::writes::<Comp>, (), true))
                                                || (call_ensures(K::writes::<Comp>, (), false) && (
                                                    call_ensures(L::writes::<Comp>, (), found))))))))))))))))))))))),
{
    (A::writes::<Comp>)()
        || (B::writes::<Comp>)()
        || (C::writes::<Comp>)()
        || (D::writes::<Comp>)()
        || (E::writes::<Comp>)()
        || (F::writes::<Comp>)()
        || (G::writes::<Comp>)()
        || (H::writes::<Comp>)()
        || (I::writes::<Comp>)()
        || (J::writes::<Comp>)()
        || (K::writes::<Comp>)()
        || (L::writes::<Comp>)()
}

/// The slice of the first fetch of a tuple of 12 that holds `Comp`.
pub fn tuple12_find<'f, A: Fetch, B: Fetch, C: Fetch, D: Fetch, E: Fetch, F: Fetch, G: Fetch, H: Fetch, I: Fetch, J: Fetch, K: Fetch, L: Fetch, Comp: 'static>(fetches: &'f (A, B, C, D, E, F, G, H, I, J, K, L)) -> (found: Option<&'f [Comp]>)
    ensures
        (found is Some && call_ensures(A::find::<Comp>, (&fetches.0,), found))
        || (call_ensures(A::find::<Comp>, (&fetches.0,), None) && (
            (found is Some && call_ensures(B::find::<Comp>, (&fetches.1,), found))
            || (call_ensures(B::find::<Comp>, (&fetches.1,), None) && (
                (found is Some && call_ensures(C::find::<Comp>, (&fetches.2,), found))
                || (call_ensures(C::find::<Comp>, (&fetches.2,), None) && (
                    (found is Some && call_ensures(D::find::<Comp>, (&fetches.3,), found))
                    || (call_ensures(D::find::<Comp>, (&fetches.3,), None) && (
                        (found is Some && call_ensures(E::find::<Comp>, (&fetches.4,), found))
                        || (call_ensures(E::find::<Comp>, (&fetches.4,), None) && (
                            (found is Some && call_ensures(F::find::<Comp>, (&fetches.5,), found))
                            || (call_ensures(F::find::<Comp>, (&fetches.5,), None) && (
                                (found is Some && call_ensures(G::find::<Comp>, (&fetches.6,), found))
                                || (call_ensures(G::find::<Comp>, (&fetches.6,), None) && (
                                    (found is Some && call_ensures(H::find::<Comp>, (&fetches.7,), found))
                                    || (call_ensures(H::find::<Comp>, (&fetches.7,), None) && (
                                        (found is Some && call_ensures(I::find::<Comp>, (&fetches.8,), found))
                                        || (call_ensures(I::find::<Comp>, (&fetches.8,), None) && (
                                            (found is Some && call_ensures(J::find::<Comp>, (&fetches.9,), found))
                                            || (call_ensures(J::find::<Comp>, (&fetches.9,), None) && (
                                                (found is Some && call_ensures(K::find::<Comp>, (&fetches.10,), found))
                                                || (call_ensures(K::find::<Comp>, (&fetches.10,), None) && (
                                                    call_ensures(L::find::<Comp>, (&fetches.11,), found))))))))))))))))))))))),
{
    let (a, b, c, d, e, f, g, h, i, j, k, l) = fetches;
    if let Some(slice) = (A::find::<Comp>)(a) {
        return Some(slice);
    }
    if let Some(slice) = (B::find::<Comp>)(b) {
        return Some(slice);
    }
    if let Some(slice) = (C::find::<Comp>)(c) {
        return Some(slice);
    }
    if let Some(slice) = (D::find::<Comp>)(d) {
        return Some(slice);
    }
    if let Some(slice) = (E::find::<Comp>)(e) {
        return Some(slice);
    }
    if let Some(slice) = (F::find::<Comp>)(f) {
        return Some(slice);
    }
    if let Some(slice) = (G::find::<Comp>)(g) {
        return Some(slice);
    }
    if let Some(slice) = (H::find::<Comp>)(h) {
        return Some(slice);
    }
    if let Some(slice) = (I::find::<Comp>)(i) {
        return Some(slice);
    }
    if let Some(slice) = (J::find::<Comp>)(j) {
        return Some(slice);
    }
    if let Some(slice) = (K::find::<Comp>)(k) {
        return Some(slice);
    }
    (L::find::<Comp>)(l)
}

/// The mutable slice of the first fetch of a tuple of 12 that holds `Comp`.
pub fn tuple12_find_mut<'f, A: Fetch, B: Fetch, C: Fetch, D: Fetch, E: Fetch, F: Fetch, G: Fetch, H: Fetch, I: Fetch, J: Fetch, K: Fetch, L: Fetch, Comp: 'static>(fetches: &'f mut (A, B, C, D, E, F, G, H, I, J, K, L)) -> (found: Option<&'f mut [Comp]>)
    ensures
        exists|m: &mut A|
            *m == old(fetches).0
            && *final(m) == final(fetches).0
            && ((found is Some && call_ensures(A::find_mut::<Comp>, (m,), found) && final(fetches).1 == old(fetches).1 && final(fetches).2 == old(fetches).2 && final(fetches).3 == old(fetches).3 && final(fetches).4 == old(fetches).4 && final(fetches).5 == old(fetches).5 && final(fetches).6 == old(fetches).6 && final(fetches).7 == old(fetches).7 && final(fetches).8 == old(fetches).8 && final(fetches).9 == old(fetches).9 && final(fetches).10 == old(fetches).10 && final(fetches).11 == old(fetches).11)
            || (call_ensures(A::find_mut::<Comp>, (m,), None) && (
                exists|m: &mut B|
                    *m == old(fetches).1
                    && *final(m) == final(fetches).1
                    && ((found is Some && call_ensures(B::find_mut::<Comp>, (m,), found) && final(fetches).2 == old(fetches).2 && final(fetches).3 == old(fetches).3 && final(fetches).4 == old(fetches).4 && final(fetches).5 == old(fetches).5 && final(fetches).6 == old(fetches).6 && final(fetches).7 == old(fetches).7 && final(fetches).8 == old(fetches).8 && final(fetches).9 == old(fetches).9 && final(fetches).10 == old(fetches).10 && final(fetches).11 == old(fetches).11)
                    || (call_ensures(B::find_mut::<Comp>, (m,), None) && (
                        exists|m: &mut C|
                            *m == old(fetches).2
                            && *final(m) == final(fetches).2
                            && ((found is Some && call_ensures(C::find_mut::<Comp>, (m,), found) && final(fetches).3 == old(fetches).3 && final(fetches).4 == old(fetches).4 && final(fetches).5 == old(fetches).5 && final(fetches).6 == old(fetches).6 && final(fetches).7 == old(fetches).7 && final(fetches).8 == old(fetches).8 && final(fetches).9 == old(fetches).9 && final(fetches).10 == old(fetches).10 && final(fetches).11 == old(fetches).11)
                            || (call_ensures(C::find_mut::<Comp>, (m,), None) && (
                                exists|m: &mut D|
                                    *m == old(fetches).3
                                    && *final(m) == final(fetches).3
                                    && ((found is Some && call_ensures(D::find_mut::<Comp>, (m,), found) && final(fetches).4 == old(fetches).4 && final(fetches).5 == old(fetches).5 && final(fetches).6 == old(fetches).6 && final(fetches).7 == old(fetches).7 && final(fetches).8 == old(fetches).8 && final(fetches).9 == old(fetches).9 && final(fetches).10 == old(fetches).10 && final(fetches).11 == old(fetches).11)
                                    || (call_ensures(D::find_mut::<Comp>, (m,), None) && (
                                        exists|m: &mut E|
                                            *m == old(fetches).4
                                            && *final(m) == final(fetches).4
                                            && ((found is Some && call_ensures(E::find_mut::<Comp>, (m,), found) && final(fetches).5 == old(fetches).5 && final(fetches).6 == old(fetches).6 && final(fetches).7 == old(fetches).7 && final(fetches).8 == old(fetches).8 && final(fetches).9 == old(fetches).9 && final(fetches).10 == old(fetches).10 && final(fetches).11 == old(fetches).11)
                                            || (call_ensures(E::find_mut::<Comp>, (m,), None) && (
                                                exists|m: &mut F|
                                                    *m == old(fetches).5
                                                    && *final(m) == final(fetches).5
                                                    && ((found is Some && call_ensures(F::find_mut::<Comp>, (m,), found) && final(fetches).6 == old(fetches).6 && final(fetches).7 == old(fetches).7 && final(fetches).8 == old(fetches).8 && final(fetches).9 == old(fetches).9 && final(fetches).10 == old(fetches).10 && final(fetches).11 == old(fetches).11)
                                                    || (call_ensures(F::find_mut::<Comp>, (m,), None) && (
                                                        exists|m: &mut G|
                                                            *m == old(fetches).6
                                                            && *final(m) == final(fetches).6
                                                            && ((found is Some && call_ensures(G::find_mut::<Comp>, (m,), found) && final(fetches).7 == old(fetches).7 && final(fetches).8 == old(fetches).8 && final(fetches).9 == old(fetches).9 && final(fetches).10 == old(fetches).10 && final(fetches).11 == old(fetches).11)
                                                            || (call_ensures(G::find_mut::<Comp>, (m,), None) && (
                                                                exists|m: &mut H|
                                                                    *m == old(fetches).7
                                                                    && *final(m) == final(fetches).7
                                                                    && ((found is Some && call_ensures(H::find_mut::<Comp>, (m,), found) && final(fetches).8 == old(fetches).8 && final(fetches).9 == old(fetches).9 && final(fetches).10 == old(fetches).10 && final(fetches).11 == old(fetches).11)
                                                                    || (call_ensures(H::find_mut::<Comp>, (m,), None) && (
                                                                        exists|m: &mut I|
                                                                            *m == old(fetches).8
                                                                            && *final(m) == final(fetches).8
                                                                            && ((found is Some && call_ensures(I::find_mut::<Comp>, (m,), found) && final(fetches).9 == old(fetches).9 && final(fetches).10 == old(fetches).10 && final(fetches).11 == old(fetches).11)
                                                                            || (call_ensures(I::find_mut::<Comp>, (m,), None) && (
                                                                                exists|m: &mut J|
                                                                                    *m == old(fetches).9
                                                                                    && *final(m) == final(fetches).9
                                                                                    && ((found is Some && call_ensures(J::find_mut::<Comp>, (m,), found) && final(fetches).10 == old(fetches).10 && final(fetches).11 == old(fetches).11)
                                                                                    || (call_ensures(J::find_mut::<Comp>, (m,), None) && (
                                                                                        exists|m: &mut K|
                                                                                            *m == old(fetches).10
                                                                                            && *final(m) == final(fetches).10
                                                                                            && ((found is Some && call_ensures(K::find_mut::<Comp>, (m,), found) && final(fetches).11 == old(fetches).11)
                                                                                            || (call_ensures(K::find_mut::<Comp>, (m,), None) && (
                                                                                                exists|m: &mut L|
                                                                                                    *m == old(fetches).11
                                                                                                    && *final(m) == final(fetches).11
                                                                                                    && call_ensures(L::find_mut::<Comp>, (m,), found)))))))))))))))))))))))))))))))))),
{
    let found = (A::find_mut::<Comp>)(&mut fetches.0);
    if found.is_some() {
        return found;
    }
    let found = (B::find_mut::<Comp>)(&mut fetches.1);
    if found.is_some() {
        return found;
    }
    let found = (C::find_mut::<Comp>)(&mut fetches.2);
    if found.is_some() {
        return found;
    }
    let found = (D::find_mut::<Comp>)(&mut fetches.3);
    if found.is_some() {
        return found;
    }
    let found = (E::find_mut::<Comp>)(&mut fetches.4);
    if found.is_some() {
        return found;
    }
    let found = (F::find_mut::<Comp>)(&mut fetches.5);
    if found.is_some() {
        return found;
    }
    let found = (G::find_mut::<Comp>)(&mut fetches.6);
    if found.is_some() {
        return found;
    }
    let found = (H::find_mut::<Comp>)(&mut fetches.7);
    if found.is_some() {
        return found;
    }
    let found = (I::find_mut::<Comp>)(&mut fetches.8);
    if found.is_some() {
        return found;
    }
    let found = (J::find_mut::<Comp>)(&mut fetches.9);
    if found.is_some() {
        return found;
    }
    let found = (K::find_mut::<Comp>)(&mut fetches.10);
    if found.is_some() {
        return found;
    }
    (L::find_mut::<Comp>)(&mut fetches.11)
}

/// The version of `Comp` in the first fetch of a tuple of 12 that holds it.
pub fn tuple12_version<A: Fetch, B: Fetch, C: Fetch, D: Fetch, E: Fetch, F: Fetch, G: Fetch, H: Fetch, I: Fetch, J: Fetch, K: Fetch, L: Fetch, Comp: Component>(fetches: &(A, B, C, D, E, F, G, H, I, J, K, L)) -> (version: Option<u64>)
    ensures
        (version is Some && call_ensures(A::version::<Comp>, (&fetches.0,), version))
        || (call_ensures(A::version::<Comp>, (&fetches.0,), None) && (
            (version is Some && call_ensures(B::version::<Comp>, (&fetches.1,), version))
            || (call_ensures(B::version::<Comp>, (&fetches.1,), None) && (
                (version is Some && call_ensures(C::version::<Comp>, (&fetches.2,), version))
                || (call_ensures(C::version::<Comp>, (&fetches.2,), None) && (
                    (version is Some && call_ensures(D::version::<Comp>, (&fetches.3,), version))
                    || (call_ensures(D::version::<Comp>, (&fetches.3,), None) && (
                        (version is Some && call_ensures(E::version::<Comp>, (&fetches.4,), version))
                        || (call_ensures(E::version::<Comp>, (&fetches.4,), None) && (
                            (version is Some && call_ensures(F::version::<Comp>, (&fetches.5,), version))
                            || (call_ensures(F::version::<Comp>, (&fetches.5,), None) && (
                                (version is Some && call_ensures(G::version::<Comp>, (&fetches.6,), version))
                                || (call_ensures(G::version::<Comp>, (&fetches.6,), None) && (
                                    (version is Some && call_ensures(H::version::<Comp>, (&fetches.7,), version))
                                    || (call_ensures(H::version::<Comp>, (&fetches.7,), None) && (
                                        (version is Some && call_ensures(I::version::<Comp>, (&fetches.8,), version))
                                        || (call_ensures(I::version::<Comp>, (&fetches.8,), None) && (
                                            (version is Some && call_ensures(J::version::<Comp>, (&fetches.9,), version))
                                            || (call_ensures(J::version::<Comp>, (&fetches.9,), None) && (
                                                (version is Some && call_ensures(K::version::<Comp>, (&fetches.10,), version))
                                                || (call_ensures(K::version::<Comp>, (&fetches.10,), None) && (
                                                    call_ensures(L::version::<Comp>, (&fetches.11,), version))))))))))))))))))))))),
{
    let (a, b, c, d, e, f, g, h, i, j, k, l) = fetches;
    if let Some(version) = (A::version::<Comp>)(a) {
        return Some(version);
    }
    if let Some(version) = (B::version::<Comp>)(b) {
        return Some(version);
    }
    if let Some(version) = (C::version::<Comp>)(c) {
        return Some(version);
    }
    if let Some(version) = (D::version::<Comp>)(d) {
        return Some(version);
    }
    if let Some(version) = (E::version::<Comp>)(e) {
        return Some(version);
    }
    if let Some(version) = (F::version::<Comp>)(f) {
        return Some(version);
    }
    if let Some(version) = (G::version::<Comp>)(g) {
        return Some(version);
    }
    if let Some(version) = (H::version::<Comp>)(h) {
        return Some(version);
    }
    if let Some(version) = (I::version::<Comp>)(i) {
        return Some(version);
    }
    if let Some(version) = (J::version::<Comp>)(j) {
        return Some(version);
    }
    if let Some(version) = (K::version::<Comp>)(k) {
        return Some(version);
    }
    (L::version::<Comp>)(l)
}

// Tuples of 13 views.

impl<A: DefaultFilter, B: DefaultFilter, C: DefaultFilter, D: DefaultFilter, E: DefaultFilter, F: DefaultFilter, G: DefaultFilter, H: DefaultFilter, I: DefaultFilter, J: DefaultFilter, K: DefaultFilter, L: DefaultFilter, M: DefaultFilter> DefaultFilter for (A, B, C, D, E, F, G, H, I, J, K, L, M) {
    type Filter = (A::Filter, B::Filter, C::Filter, D::Filter, E::Filter, F::Filter, G::Filter, H::Filter, I::Filter, J::Filter, K::Filter, L::Filter, M::Filter);
}

impl<'a, A: View<'a> + 'a, B: View<'a> + 'a, C: View<'a> + 'a, D: View<'a> + 'a, E: View<'a> + 'a, F: View<'a> + 'a, G: View<'a> + 'a, H: View<'a> + 'a, I: View<'a> + 'a, J: View<'a> + 'a, K: View<'a> + 'a, L: View<'a> + 'a, M: View<'a> + 'a> View<'a> for (A, B, C, D, E, F, G, H, I, J, K, L, M) {
    type Element = <Self::Fetch as IntoIndexableIter>::Item;
    type Fetch = MultiFetch<'a, (A::Fetch, B::Fetch, C::Fetch, D::Fetch, E::Fetch, F::Fetch, G::Fetch, H::Fetch, I::Fetch, J::Fetch, K::Fetch, L::Fetch, M::Fetch)>;

    fn validate() -> (valid: bool)
        ensures
            exists|reads: Seq<Vec<ComponentTypeId>>, writes: Seq<Vec<ComponentTypeId>>|
                reads.len() == 13 && writes.len() == 13
                && call_ensures(A::reads_types, (), reads[0])
                && call_ensures(A::writes_types, (), writes[0])
                && call_ensures(B::reads_types, (), reads[1])
                && call_ensures(B::writes_types, (), writes[1])
                && call_ensures(C::reads_types, (), reads[2])
                && call_ensures(C::writes_types, (), writes[2])
                && call_ensures(D::reads_types, (), reads[3])
                && call_ensures(D::writes_types, (), writes[3])
                && call_ensures(E::reads_types, (), reads[4])
                && call_ensures(E::writes_types, (), writes[4])
                && call_ensures(F::reads_types, (), reads[5])
                && call_ensures(F::writes_types, (), writes[5])
                && call_ensures(G::reads_types, (), reads[6])
                && call_ensures(G::writes_types, (), writes[6])
                && call_ensures(H::reads_types, (), reads[7])
                && call_ensures(H::writes_types, (), writes[7])
                && call_ensures(I::reads_types, (), reads[8])
                && call_ensures(I::writes_types, (), writes[8])
                && call_ensures(J::reads_types, (), reads[9])
                && call_ensures(J::writes_types, (), writes[9])
                && call_ensures(K::reads_types, (), reads[10])
                && call_ensures(K::writes_types, (), writes[10])
                && call_ensures(L::reads_types, (), reads[11])
                && call_ensures(L::writes_types, (), writes[11])
                && call_ensures(M::reads_types, (), reads[12])
                && call_ensures(M::writes_types, (), writes[12])
                && valid == conflict_free(type_lists(reads), type_lists(writes)),
    {
        let reads = vec![(A::reads_types)(), (B::reads_types)(), (C::reads_types)(), (D::reads_types)(), (E::reads_types)(), (F::reads_types)(), (G::reads_types)(), (H::reads_types)(), (I::reads_types)(), (J::reads_types)(), (K::reads_types)(), (L::reads_types)(), (M::reads_types)()];
        let writes = vec![(A::writes_types)(), (B::writes_types)(), (C::writes_types)(), (D::writes_types)(), (E::writes_types)(), (F::writes_types)(), (G::writes_types)(), (H::writes_types)(), (I::writes_types)(), (J::writes_types)(), (K::writes_types)(), (L::writes_types)(), (M::writes_types)()];
        let valid = accesses_conflict_free(&reads, &writes);
        assert(
            reads@.len() == 13 && writes@.len() == 13
            && call_ensures(A::reads_types, (), reads@[0])
            && call_ensures(A::writes_types, (), writes@[0])
            && call_ensures(B::reads_types, (), reads@[1])
            && call_ensures(B::writes_types, (), writes@[1])
            && call_ensures(C::reads_types, (), reads@[2])
            && call_ensures(C::writes_types, (), writes@[2])
            && call_ensures(D::reads_types, (), reads@[3])
            && call_ensures(D::writes_types, (), writes@[3])
            && call_ensures(E::reads_types, (), reads@[4])
            && call_ensures(E::writes_types, (), writes@[4])
            && call_ensures(F::reads_types, (), reads@[5])
            && call_ensures(F::writes_types, (), writes@[5])
            && call_ensures(G::reads_types, (), reads@[6])
            && call_ensures(G::writes_types, (), writes@[6])
            && call_ensures(H::reads_types, (), reads@[7])
            && call_ensures(H::writes_types, (), writes@[7])
            && call_ensures(I::reads_types, (), reads@[8])
            && call_ensures(I::writes_types, (), writes@[8])
            && call_ensures(J::reads_types, (), reads@[9])
            && call_ensures(J::writes_types, (), writes@[9])
            && call_ensures(K::reads_types, (), reads@[10])
            && call_ensures(K::writes_types, (), writes@[10])
            && call_ensures(L::reads_types, (), reads@[11])
            && call_ensures(L::writes_types, (), writes@[11])
            && call_ensures(M::reads_types, (), reads@[12])
            && call_ensures(M::writes_types, (), writes@[12])
            && valid == conflict_free(type_lists(reads@), type_lists(writes@))
        );
        valid
    }

    fn reads_types() -> (types: Vec<ComponentTypeId>)
        ensures
            exists|lists: Seq<Vec<ComponentTypeId>>|
                lists.len() == 13
                && call_ensures(A::reads_types, (), lists[0])
                && call_ensures(B::reads_types, (), lists[1])
                && call_ensures(C::reads_types, (), lists[2])
                && call_ensures(D::reads_types, (), lists[3])
                && call_ensures(E::reads_types, (), lists[4])
                && call_ensures(F::reads_types, (), lists[5])
                && call_ensures(G::reads_types, (), lists[6])
                && call_ensures(H::reads_types, (), lists[7])
                && call_ensures(I::reads_types, (), lists[8])
                && call_ensures(J::reads_types, (), lists[9])
                && call_ensures(K::reads_types, (), lists[10])
                && call_ensures(L::reads_types, (), lists[11])
                && call_ensures(M::reads_types, (), lists[12])
                && types@ == type_lists(lists).flatten(),
    {
        let lists = vec![(A::reads_types)(), (B::reads_types)(), (C::reads_types)(), (D::reads_types)(), (E::reads_types)(), (F::reads_types)(), (G::reads_types)(), (H::reads_types)(), (I::reads_types)(), (J::reads_types)(), (K::reads_types)(), (L::reads_types)(), (M::reads_types)()];
        let ghost views = lists@;
        let types = concat_types(lists);
        assert(
            views.len() == 13
            && call_ensures(A::reads_types, (), views[0])
            && call_ensures(B::reads_types, (), views[1])
            && call_ensures(C::reads_types, (), views[2])
            && call_ensures(D::reads_types, (), views[3])
            && call_ensures(E::reads_types, (), views[4])
            && call_ensures(F::reads_types, (), views[5])
            && call_ensures(G::reads_types, (), views[6])
            && call_ensures(H::reads_types, (), views[7])
            && call_ensures(I::reads_types, (), views[8])
            && call_ensures(J::reads_types, (), views[9])
            && call_ensures(K::reads_types, (), views[10])
            && call_ensures(L::reads_types, (), views[11])
            && call_ensures(M::reads_types, (), views[12])
            && types@ == type_lists(views).flatten()
        );
        types
    }

    fn writes_types() -> (types: Vec<ComponentTypeId>)
        ensures
            exists|lists: Seq<Vec<ComponentTypeId>>|
                lists.len() == 13
                && call_ensures(A::writes_types, (), lists[0])
                && call_ensures(B::writes_types, (), lists[1])
                && call_ensures(C::writes_types, (), lists[2])
                && call_ensures(D::writes_types, (), lists[3])
                && call_ensures(E::writes_types, (), lists[4])
                && call_ensures(F::writes_types, (), lists[5])
                && call_ensures(G::writes_types, (), lists[6])
                && call_ensures(H::writes_types, (), lists[7])
                && call_ensures(I::writes_types, (), lists[8])
                && call_ensures(J::writes_types, (), lists[9])
                && call_ensures(K::writes_types, (), lists[10])
                && call_ensures(L::writes_types, (), lists[11])
                && call_ensures(M::writes_types, (), lists[12])
                && types@ == type_lists(lists).flatten(),
    {
        let lists = vec![(A::writes_types)(), (B::writes_types)(), (C::writes_types)(), (D::writes_types)(), (E::writes_types)(), (F::writes_types)(), (G::writes_types)(), (H::writes_types)(), (I::writes_types)(), (J::writes_types)(), (K::writes_types)(), (L::writes_types)(), (M::writes_types)()];
        let ghost views = lists@;
        let types = concat_types(lists);
        assert(
            views.len() == 13
            && call_ensures(A::writes_types, (), views[0])
            && call_ensures(B::writes_types, (), views[1])
            && call_ensures(C::writes_types, (), views[2])
            && call_ensures(D::writes_types, (), views[3])
            && call_ensures(E::writes_types, (), views[4])
            && call_ensures(F::writes_types, (), views[5])
            && call_ensures(G::writes_types, (), views[6])
            && call_ensures(H::writes_types, (), views[7])
            && call_ensures(I::writes_types, (), views[8])
            && call_ensures(J::writes_types, (), views[9])
            && call_ensures(K::writes_types, (), views[10])
            && call_ensures(L::writes_types, (), views[11])
            && call_ensures(M::writes_types, (), views[12])
            && types@ == type_lists(views).flatten()
        );
        types
    }

    fn reads<Comp: Component>() -> bool {
        tuple13_reads::<'a, A, B, C, D, E, F, G, H, I, J, K, L, M, Comp>()
    }

    fn writes<Comp: Component>() -> bool {
        tuple13_writes::<'a, A, B, C, D, E, F, G, H, I, J, K, L, M, Comp>()
    }
}

impl<'a, A: Fetch, B: Fetch, C: Fetch, D: Fetch, E: Fetch, F: Fetch, G: Fetch, H: Fetch, I: Fetch, J: Fetch, K: Fetch, L: Fetch, M: Fetch> IntoIndexableIter for MultiFetch<'a, (A, B, C, D, E, F, G, H, I, J, K, L, M)> {
    type Item = (A::Item, B::Item, C::Item, D::Item, E::Item, F::Item, G::Item, H::Item, I::Item, J::Item, K::Item, L::Item, M::Item);
    type IntoIter = (A::IntoIter, B::IntoIter, C::IntoIter, D::IntoIter, E::IntoIter, F::IntoIter, G::IntoIter, H::IntoIter, I::IntoIter, J::IntoIter, K::IntoIter, L::IntoIter, M::IntoIter);

    fn into_indexable_iter(self) -> (iter: Self::IntoIter)
        ensures
            call_ensures(A::into_indexable_iter, (self.fetches().0,), iter.0),
            call_ensures(B::into_indexable_iter, (self.fetches().1,), iter.1),
            call_ensures(C::into_indexable_iter, (self.fetches().2,), iter.2),
            call_ensures(D::into_indexable_iter, (self.fetches().3,), iter.3),
            call_ensures(E::into_indexable_iter, (self.fetches().4,), iter.4),
            call_ensures(F::into_indexable_iter, (self.fetches().5,), iter.5),
            call_ensures(G::into_indexable_iter, (self.fetches().6,), iter.6),
            call_ensures(H::into_indexable_iter, (self.fetches().7,), iter.7),
            call_ensures(I::into_indexable_iter, (self.fetches().8,), iter.8),
            call_ensures(J::into_indexable_iter, (self.fetches().9,), iter.9),
            call_ensures(K::into_indexable_iter, (self.fetches().10,), iter.10),
            call_ensures(L::into_indexable_iter, (self.fetches().11,), iter.11),
            call_ensures(M::into_indexable_iter, (self.fetches().12,), iter.12),
    {
        let (a, b, c, d, e, f, g, h, i, j, k, l, m) = self.fetches;
        ((A::into_indexable_iter)(a), (B::into_indexable_iter)(b), (C::into_indexable_iter)(c), (D::into_indexable_iter)(d), (E::into_indexable_iter)(e), (F::into_indexable_iter)(f), (G::into_indexable_iter)(g), (H::into_indexable_iter)(h), (I::into_indexable_iter)(i), (J::into_indexable_iter)(j), (K::into_indexable_iter)(k), (L::into_indexable_iter)(l), (M::into_indexable_iter)(m))
    }
}

impl<'a, A: Fetch, B: Fetch, C: Fetch, D: Fetch, E: Fetch, F: Fetch, G: Fetch, H: Fetch, I: Fetch, J: Fetch, K: Fetch, L: Fetch, M: Fetch> Fetch for MultiFetch<'a, (A, B, C, D, E, F, G, H, I, J, K, L, M)> {
    type Data = (A::Data, B::Data, C::Data, D::Data, E::Data, F::Data, G::Data, H::Data, I::Data, J::Data, K::Data, L::Data, M::Data);

    fn into_components(self) -> (data: Self::Data)
        ensures
            call_ensures(A::into_components, (self.fetches().0,), data.0),
            call_ensures(B::into_components, (self.fetches().1,), data.1),
            call_ensures(C::into_components, (self.fetches().2,), data.2),
            call_ensures(D::into_components, (self.fetches().3,), data.3),
            call_ensures(E::into_components, (self.fetches().4,), data.4),
            call_ensures(F::into_components, (self.fetches().5,), data.5),
            call_ensures(G::into_components, (self.fetches().6,), data.6),
            call_ensures(H::into_components, (self.fetches().7,), data.7),
            call_ensures(I::into_components, (self.fetches().8,), data.8),
            call_ensures(J::into_components, (self.fetches().9,), data.9),
            call_ensures(K::into_components, (self.fetches().10,), data.10),
            call_ensures(L::into_components, (self.fetches().11,), data.11),
            call_ensures(M::into_components, (self.fetches().12,), data.12),
    {
        let (a, b, c, d, e, f, g, h, i, j, k, l, m) = self.fetches;
        ((A::into_components)(a), (B::into_components)(b), (C::into_components)(c), (D::into_components)(d), (E::into_components)(e), (F::into_components)(f), (G::into_components)(g), (H::into_components)(h), (I::into_components)(i), (J::into_components)(j), (K::into_components)(k), (L::into_components)(l), (M::into_components)(m))
    }

    fn find<Comp: 'static>(&self) -> Option<&[Comp]> {
        tuple13_find::<A, B, C, D, E, F, G, H, I, J, K, L, M, Comp>(&self.fetches)
    }

    fn find_mut<Comp: 'static>(&mut self) -> Option<&mut [Comp]> {
        tuple13_find_mut::<A, B, C, D, E, F, G, H, I, J, K, L, M, Comp>(&mut self.fetches)
    }

    fn version<Comp: Component>(&self) -> Option<u64> {
        tuple13_version::<A, B, C, D, E, F, G, H, I, J, K, L, M, Comp>(&self.fetches)
    }

    fn accepted(&mut self)
        ensures
            exists|m: &mut A|
                *m == old(self).fetches().0 && *final(m) == final(self).fetches().0
                && call_ensures(A::accepted, (m,), ()),
            exists|m: &mut B|
                *m == old(self).fetches().1 && *final(m) == final(self).fetches().1
                && call_ensures(B::accepted, (m,), ()),
            exists|m: &mut C|
                *m == old(self).fetches().2 && *final(m) == final(self).fetches().2
                && call_ensures(C::accepted, (m,), ()),
            exists|m: &mut D|
                *m == old(self).fetches().3 && *final(m) == final(self).fetches().3
                && call_ensures(D::accepted, (m,), ()),
            exists|m: &mut E|
                *m == old(self).fetches().4 && *final(m) == final(self).fetches().4
                && call_ensures(E::accepted, (m,), ()),
            exists|m: &mut F|
                *m == old(self).fetches().5 && *final(m) == final(self).fetches().5
                && call_ensures(F::accepted, (m,), ()),
            exists|m: &mut G|
                *m == old(self).fetches().6 && *final(m) == final(self).fetches().6
                && call_ensures(G::accepted, (m,), ()),
            exists|m: &mut H|
                *m == old(self).fetches().7 && *final(m) == final(self).fetches().7
                && call_ensures(H::accepted, (m,), ()),
            exists|m: &mut I|
                *m == old(self).fetches().8 && *final(m) == final(self).fetches().8
                && call_ensures(I::accepted, (m,), ()),
            exists|m: &mut J|
                *m == old(self).fetches().9 && *final(m) == final(self).fetches().9
                && call_ensures(J::accepted, (m,), ()),
            exists|m: &mut K|
                *m == old(self).fetches().10 && *final(m) == final(self).fetches().10
                && call_ensures(K::accepted, (m,), ()),
            exists|m: &mut L|
                *m == old(self).fetches().11 && *final(m) == final(self).fetches().11
                && call_ensures(L::accepted, (m,), ()),
            exists|m: &mut M|
                *m == old(self).fetches().12 && *final(m) == final(self).fetches().12
                && call_ensures(M::accepted, (m,), ()),
    {
        let (a, b, c, d, e, f, g, h, i, j, k, l, m) = &mut self.fetches;
        (A::accepted)(a);
        (B::accepted)(b);
        (C::accepted)(c);
        (D::accepted)(d);
        (E::accepted)(e);
        (F::accepted)(f);
        (G::accepted)(g);
        (H::accepted)(h);
        (I::accepted)(i);
        (J::accepted)(j);
        (K::accepted)(k);
        (L::accepted)(l);
        (M::accepted)(m);
    }
}

impl<'a, A: ReadOnlyFetch, B: ReadOnlyFetch, C: ReadOnlyFetch, D: ReadOnlyFetch, E: ReadOnlyFetch, F: ReadOnlyFetch, G: ReadOnlyFetch, H: ReadOnlyFetch, I: ReadOnlyFetch, J: ReadOnlyFetch, K: ReadOnlyFetch, L: ReadOnlyFetch, M: ReadOnlyFetch> ReadOnlyFetch for MultiFetch<'a, (A, B, C, D, E, F, G, H, I, J, K, L, M)> {
    fn get_components(&self) -> (data: Self::Data)
        ensures
            call_ensures(A::get_components, (&self.fetches().0,), data.0),
            call_ensures(B::get_components, (&self.fetches().1,), data.1),
            call_ensures(C::get_components, (&self.fetches().2,), data.2),
            call_ensures(D::get_components, (&self.fetches().3,), data.3),
            call_ensures(E::get_components, (&self.fetches().4,), data.4),
            call_ensures(F::get_components, (&self.fetches().5,), data.5),
            call_ensures(G::get_components, (&self.fetches().6,), data.6),
            call_ensures(H::get_components, (&self.fetches().7,), data.7),
            call_ensures(I::get_components, (&self.fetches().8,), data.8),
            call_ensures(J::get_components, (&self.fetches().9,), data.9),
            call_ensures(K::get_components, (&self.fetches().10,), data.10),
            call_ensures(L::get_components, (&self.fetches().11,), data.11),
            call_ensures(M::get_components, (&self.fetches().12,), data.12),
    {
        let (a, b, c, d, e, f, g, h, i, j, k, l, m) = &self.fetches;
        ((A::get_components)(a), (B::get_components)(b), (C::get_components)(c), (D::get_components)(d), (E::get_components)(e), (F::get_components)(f), (G::get_components)(g), (H::get_components)(h), (I::get_components)(i), (J::get_components)(j), (K::get_components)(k), (L::get_components)(l), (M::get_components)(m))
    }
}

/// Whether some view of a tuple of 13 reads `Comp`, asking the views in order.
pub fn tuple13_reads<'a, A: View<'a> + 'a, B: View<'a> + 'a, C: View<'a> + 'a, D: View<'a> + 'a, E: View<'a> + 'a, F: View<'a> + 'a, G: View<'a> + 'a, H: View<'a> + 'a, I: View<'a> + 'a, J: View<'a> + 'a, K: View<'a> + 'a, L: View<'a> + 'a, M: View<'a> + 'a, Comp: Component>() -> (found: bool)
    ensures
        (found && call_ensures(A::reads::<Comp>, (), true))
        || (call_ensures(A::reads::<Comp>, (), false) && (
            (found && call_ensures(B::reads::<Comp>, (), true))
            || (call_ensures(B::reads::<Comp>, (), false) && (
                (found && call_ensures(C::reads::<Comp>, (), true))
                || (call_ensures(C::reads::<Comp>, (), false) && (
                    (found && call_ensures(D::reads::<Comp>, (), true))
                    || (call_ensures(D::reads::<Comp>, (), false) && (
                        (found && call_ensures(E::reads::<Comp>, (), true))
                        || (call_ensures(E::reads::<Comp>, (), false) && (
                            (found && call_ensures(F::reads::<Comp>, (), true))
                            || (call_ensures(F::reads::<Comp>, (), false) && (
                                (found && call_ensures(G::reads::<Comp>, (), true))
                                || (call_ensures(G::reads::<Comp>, (), false) && (
                                    (found && call_ensures(H::reads::<Comp>, (), true))
                                    || (call_ensures(H::reads::<Comp>, (), false) && (
                                        (found && call_ensures(I::reads::<Comp>, (), true))
                                        || (call_ensures(I::reads::<Comp>, (), false) && (
                                            (found && call_ensures(J::reads::<Comp>, (), true))
                                            || (call_ensures(J::reads::<Comp>, (), false) && (
                                                (found && call_ensures(K::reads::<Comp>, (), true))
                                                || (call_ensures(K::reads::<Comp>, (), false) && (
                                                    (found && call_ensures(L::reads::<Comp>, (), true))
                                                    || (call_ensures(L::reads::<Comp>, (), false) && (
                                                        call_ensures(M::reads::<Comp>, (), found))))))))))))))))))))))))),
{
    (A::reads::<Comp>)()
        || (B::reads::<Comp>)()
        || (C::reads::<Comp>)()
        || (D::reads::<Comp>)()
        || (E::reads::<Comp>)()
        || (F::reads::<Comp>)()
        || (G::reads::<Comp>)()
        || (H::reads::<Comp>)()
        || (I::reads::<Comp>)()
        || (J::reads::<Comp>)()
        || (K::reads::<Comp>)()
        || (L::reads::<Comp>)()
        || (M::reads::<Comp>)()
}

/// Whether some view of a tuple of 13 writes `Comp`, asking the views in order.
pub fn tuple13_writes<'a, A: View<'a> + 'a, B: View<'a> + 'a, C: View<'a> + 'a, D: View<'a> + 'a, E: View<'a> + 'a, F: View<'a> + 'a, G: View<'a> + 'a, H: View<'a> + 'a, I: View<'a> + 'a, J: View<'a> + 'a, K: View<'a> + 'a, L: View<'a> + 'a, M: View<'a> + 'a, Comp: Component>() -> (found: bool)
    ensures
        (found && call_ensures(A::writes::<Comp>, (), true))
        || (call_ensures(A::writes::<Comp>, (), false) && (
            (found && call_ensures(B::writes::<Comp>, (), true))
            || (call_ensures(B::writes::<Comp>, (), false) && (
                (found && call_ensures(C::writes::<Comp>, (), true))
                || (call_ensures(C::writes::<Comp>, (), false) && (
                    (found && call_ensures(D::writes::<Comp>, (), true))
                    || (call_ensures(D::writes::<Comp>, (), false) && (
                        (found && call_ensures(E::writes::<Comp>, (), true))
                        || (call_ensures(E::writes::<Comp>, (), false) && (
                            (found && call_ensures(F::writes::<Comp>, (), true))
                            || (call_ensures(F::writes::<Comp>, (), false) && (
                                (found && call_ensures(G::writes::<Comp>, (), true))
                                || (call_ensures(G::writes::<Comp>, (), false) && (
                                    (found && call_ensures(H::writes::<Comp>, (), true))
                                    || (call_ensures(H::writes::<Comp>, (), false) && (
                                        (found && call_ensures(I::writes::<Comp>, (), true))
                                        || (call_ensures(I::writes::<Comp>, (), false) && (
                                            (found && call_ensures(J::writes::<Comp>, (), true))
                                            || (call_ensures(J::writes::<Comp>, (), false) && (
                                                (found && call_ensures(K::writes::<Comp>, (), true))
                                                || (call_ensures(K::writes::<Comp>, (), false) && (
                                                    (found && call_ensures(L::writes::<Comp>, (), true))
                                                    || (call_ensures(L::writes::<Comp>, (), false) && (
                                                        call_ensures(M::writes::<Comp>, (), found))))))))))))))))))))))))),
{
    (A::writes::<Comp>)()
        || (B::writes::<Comp>)()
        || (C::writes::<Comp>)()
        || (D::writes::<Comp>)()
        || (E::writes::<Comp>)()
        || (F::writes::<Comp>)()
        || (G::writes::<Comp>)()
        || (H::writes::<Comp>)()
        || (I::writes::<Comp>)()
        || (J::writes::<Comp>)()
        || (K::writes::<Comp>)()
        || (L::writes::<Comp>)()
        || (M::writes::<Comp>)()
}

/// The slice of the first fetch of a tuple of 13 that holds `Comp`.
pub fn tuple13_find<'f, A: Fetch, B: Fetch, C: Fetch, D: Fetch, E: Fetch, F: Fetch, G: Fetch, H: Fetch, I: Fetch, J: Fetch, K: Fetch, L: Fetch, M: Fetch, Comp: 'static>(fetches: &'f (A, B, C, D, E, F, G, H, I, J, K, L, M)) -> (found: Option<&'f [Comp]>)
    ensures
        (found is Some && call_ensures(A::find::<Comp>, (&fetches.0,), found))
        || (call_ensures(A::find::<Comp>, (&fetches.0,), None) && (
            (found is Some && call_ensures(B::find::<Comp>, (&fetches.1,), found))
            || (call_ensures(B::find::<Comp>, (&fetches.1,), None) && (
                (found is Some && call_ensures(C::find::<Comp>, (&fetches.2,), found))
                || (call_ensures(C::find::<Comp>, (&fetches.2,), None) && (
                    (found is Some && call_ensures(D::find::<Comp>, (&fetches.3,), found))
                    || (call_ensures(D::find::<Comp>, (&fetches.3,), None) && (
                        (found is Some && call_ensures(E::find::<Comp>, (&fetches.4,), found))
                        || (call_ensures(E::find::<Comp>, (&fetches.4,), None) && (
                            (found is Some && call_ensures(F::find::<Comp>, (&fetches.5,), found))
                            || (call_ensures(F::find::<Comp>, (&fetches.5,), None) && (
                                (found is Some && call_ensures(G::find::<Comp>, (&fetches.6,), found))
                                || (call_ensures(G::find::<Comp>, (&fetches.6,), None) && (
                                    (found is Some && call_ensures(H::find::<Comp>, (&fetches.7,), found))
                                    || (call_ensures(H::find::<Comp>, (&fetches.7,), None) && (
                                        (found is Some && call_ensures(I::find::<Comp>, (&fetches.8,), found))
                                        || (call_ensures(I::find::<Comp>, (&fetches.8,), None) && (
                                            (found is Some && call_ensures(J::find::<Comp>, (&fetches.9,), found))
                                            || (call_ensures(J::find::<Comp>, (&fetches.9,), None) && (
                                                (found is Some && call_ensures(K::find::<Comp>, (&fetches.10,), found))
                                                || (call_ensures(K::find::<Comp>, (&fetches.10,), None) && (
                                                    (found is Some && call_ensures(L::find::<Comp>, (&fetches.11,), found))
                                                    || (call_ensures(L::find::<Comp>, (&fetches.11,), None) && (
                                                        call_ensures(M::find::<Comp>, (&fetches.12,), found))))))))))))))))))))))))),
{
    let (a, b, c, d, e, f, g, h, i, j, k, l, m) = fetches;
    if let Some(slice) = (A::find::<Comp>)(a) {
        return Some(slice);
    }
    if let Some(slice) = (B::find::<Comp>)(b) {
        return Some(slice);
    }
    if let Some(slice) = (C::find::<Comp>)(c) {
        return Some(slice);
    }
    if let Some(slice) = (D::find::<Comp>)(d) {
        return Some(slice);
    }
    if let Some(slice) = (E::find::<Comp>)(e) {
        return Some(slice);
    }
    if let Some(slice) = (F::find::<Comp>)(f) {
        return Some(slice);
    }
    if let Some(slice) = (G::find::<Comp>)(g) {
        return Some(slice);
    }
    if let Some(slice) = (H::find::<Comp>)(h) {
        return Some(slice);
    }
    if let Some(slice) = (I::find::<Comp>)(i) {
        return Some(slice);
    }
    if let Some(slice) = (J::find::<Comp>)(j) {
        return Some(slice);
    }
    if let Some(slice) = (K::find::<Comp>)(k) {
        return Some(slice);
    }
    if let Some(slice) = (L::find::<Comp>)(l) {
        return Some(slice);
    }
    (M::find::<Comp>)(m)
}

/// The mutable slice of the first fetch of a tuple of 13 that holds `Comp`.
pub fn tuple13_find_mut<'f, A: Fetch, B: Fetch, C: Fetch, D: Fetch, E: Fetch, F: Fetch, G: Fetch, H: Fetch, I: Fetch, J: Fetch, K: Fetch, L: Fetch, M: Fetch, Comp: 'static>(fetches: &'f mut (A, B, C, D, E, F, G, H, I, J, K, L, M)) -> (found: Option<&'f mut [Comp]>)
    ensures
        exists|m: &mut A|
            *m == old(fetches).0
            && *final(m) == final(fetches).0
            && ((found is Some && call_ensures(A::find_mut::<Comp>, (m,), found) && final(fetches).1 == old(fetches).1 && final(fetches).2 == old(fetches).2 && final(fetches).3 == old(fetches).3 && final(fetches).4 == old(fetches).4 && final(fetches).5 == old(fetches).5 && final(fetches).6 == old(fetches).6 && final(fetches).7 == old(fetches).7 && final(fetches).8 == old(fetches).8 && final(fetches).9 == old(fetches).9 && final(fetches).10 == old(fetches).10 && final(fetches).11 == old(fetches).11 && final(fetches).12 == old(fetches).12)
            || (call_ensures(A::find_mut::<Comp>, (m,), None) && (
                exists|m: &mut B|
                    *m == old(fetches).1
                    && *final(m) == final(fetches).1
                    && ((found is Some && call_ensures(B::find_mut::<Comp>, (m,), found) && final(fetches).2 == old(fetches).2 && final(fetches).3 == old(fetches).3 && final(fetches).4 == old(fetches).4 && final(fetches).5 == old(fetches).5 && final(fetches).6 == old(fetches).6 && final(fetches).7 == old(fetches).7 && final(fetches).8 == old(fetches).8 && final(fetches).9 == old(fetches).9 && final(fetches).10 == old(fetches).10 && final(fetches).11 == old(fetches).11 && final(fetches).12 == old(fetches).12)
                    || (call_ensures(B::find_mut::<Comp>, (m,), None) && (
                        exists|m: &mut C|
                            *m == old(fetches).2
                            && *final(m) == final(fetches).2
                            && ((found is Some && call_ensures(C::find_mut::<Comp>, (m,), found) && final(fetches).3 == old(fetches).3 && final(fetches).4 == old(fetches).4 && final(fetches).5 == old(fetches).5 && final(fetches).6 == old(fetches).6 && final(fetches).7 == old(fetches).7 && final(fetches).8 == old(fetches).8 && final(fetches).9 == old(fetches).9 && final(fetches).10 == old(fetches).10 && final(fetches).11 == old(fetches).11 && final(fetches).12 == old(fetches).12)
                            || (call_ensures(C::find_mut::<Comp>, (m,), None) && (
                                exists|m: &mut D|
                                    *m == old(fetches).3
                                    && *final(m) == final(fetches).3
                                    && ((found is Some && call_ensures(D::find_mut::<Comp>, (m,), found) && final(fetches).4 == old(fetches).4 && final(fetches).5 == old(fetches).5 && final(fetches).6 == old(fetches).6 && final(fetches).7 == old(fetches).7 && final(fetches).8 == old(fetches).8 && final(fetches).9 == old(fetches).9 && final(fetches).10 == old(fetches).10 && final(fetches).11 == old(fetches).11 && final(fetches).12 == old(fetches).12)
                                    || (call_ensures(D::find_mut::<Comp>, (m,), None) && (
                                        exists|m: &mut E|
                                            *m == old(fetches).4
                                            && *final(m) == final(fetches).4
                                            && ((found is Some && call_ensures(E::find_mut::<Comp>, (m,), found) && final(fetches).5 == old(fetches).5 && final(fetches).6 == old(fetches).6 && final(fetches).7 == old(fetches).7 && final(fetches).8 == old(fetches).8 && final(fetches).9 == old(fetches).9 && final(fetches).10 == old(fetches).10 && final(fetches).11 == old(fetches).11 && final(fetches).12 == old(fetches).12)
                                            || (call_ensures(E::find_mut::<Comp>, (m,), None) && (
                                                exists|m: &mut F|
                                                    *m == old(fetches).5
                                                    && *final(m) == final(fetches).5
                                                    && ((found is Some && call_ensures(F::find_mut::<Comp>, (m,), found) && final(fetches).6 == old(fetches).6 && final(fetches).7 == old(fetches).7 && final(fetches).8 == old(fetches).8 && final(fetches).9 == old(fetches).9 && final(fetches).10 == old(fetches).10 && final(fetches).11 == old(fetches).11 && final(fetches).12 == old(fetches).12)
                                                    || (call_ensures(F::find_mut::<Comp>, (m,), None) && (
                                                        exists|m: &mut G|
                                                            *m == old(fetches).6
                                                            && *final(m) == final(fetches).6
                                                            && ((found is Some && call_ensures(G::find_mut::<Comp>, (m,), found) && final(fetches).7 == old(fetches).7 && final(fetches).8 == old(fetches).8 && final(fetches).9 == old(fetches).9 && final(fetches).10 == old(fetches).10 && final(fetches).11 == old(fetches).11 && final(fetches).12 == old(fetches).12)
                                                            || (call_ensures(G::find_mut::<Comp>, (m,), None) && (
                                                                exists|m: &mut H|
                                                                    *m == old(fetches).7
                                                                    && *final(m) == final(fetches).7
                                                                    && ((found is Some && call_ensures(H::find_mut::<Comp>, (m,), found) && final(fetches).8 == old(fetches).8 && final(fetches).9 == old(fetches).9 && final(fetches).10 == old(fetches).10 && final(fetches).11 == old(fetches).11 && final(fetches).12 == old(fetches).12)
                                                                    || (call_ensures(H::find_mut::<Comp>, (m,), None) && (
                                                                        exists|m: &mut I|
                                                                            *m == old(fetches).8
                                                                            && *final(m) == final(fetches).8
                                                                            && ((found is Some && call_ensures(I::find_mut::<Comp>, (m,), found) && final(fetches).9 == old(fetches).9 && final(fetches).10 == old(fetches).10 && final(fetches).11 == old(fetches).11 && final(fetches).12 == old(fetches).12)
                                                                            || (call_ensures(I::find_mut::<Comp>, (m,), None) && (
                                                                                exists|m: &mut J|
                                                                                    *m == old(fetches).9
                                                                                    && *final(m) == final(fetches).9
                                                                                    && ((found is Some && call_ensures(J::find_mut::<Comp>, (m,), found) && final(fetches).10 == old(fetches).10 && final(fetches).11 == old(fetches).11 && final(fetches).12 == old(fetches).12)
                                                                                    || (call_ensures(J::find_mut::<Comp>, (m,), None) && (
                                                                                        exists|m: &mut K|
                                                                                            *m == old(fetches).10
                                                                                            && *final(m) == final(fetches).10
                                                                                            && ((found is Some && call_ensures(K::find_mut::<Comp>, (m,), found) && final(fetches).11 == old(fetches).11 && final(fetches).12 == old(fetches).12)
                                                                                            || (call_ensures(K::find_mut::<Comp>, (m,), None) && (
                                                                                                exists|m: &mut L|
                                                                                                    *m == old(fetches).11
                                                                                                    && *final(m) == final(fetches).11
                                                                                                    && ((found is Some && call_ensures(L::find_mut::<Comp>, (m,), found) && final(fetches).12 == old(fetches).12)
                                                                                                    || (call_ensures(L::find_mut::<Comp>, (m,), None) && (
                                                                                                        exists|m: &mut M|
                                                                                                            *m == old(fetches).12
                                                                                                            && *final(m) == final(fetches).12
                                                                                                            && call_ensures(M::find_mut::<Comp>, (m,), found))))))))))))))))))))))))))))))))))))),
{
    let found = (A::find_mut::<Comp>)(&mut fetches.0);
    if found.is_some() {
        return found;
    }
    let found = (B::find_mut::<Comp>)(&mut fetches.1);
    if found.is_some() {
        return found;
    }
    let found = (C::find_mut::<Comp>)(&mut fetches.2);
    if found.is_some() {
        return found;
    }
    let found = (D::find_mut::<Comp>)(&mut fetches.3);
    if found.is_some() {
        return found;
    }
    let found = (E::find_mut::<Comp>)(&mut fetches.4);
    if found.is_some() {
        return found;
    }
    let found = (F::find_mut::<Comp>)(&mut fetches.5);
    if found.is_some() {
        return found;
    }
    let found = (G::find_mut::<Comp>)(&mut fetches.6);
    if found.is_some() {
        return found;
    }
    let found = (H::find_mut::<Comp>)(&mut fetches.7);
    if found.is_some() {
        return found;
    }
    let found = (I::find_mut::<Comp>)(&mut fetches.8);
    if found.is_some() {
        return found;
    }
    let found = (J::find_mut::<Comp>)(&mut fetches.9);
    if found.is_some() {
        return found;
    }
    let found = (K::find_mut::<Comp>)(&mut fetches.10);
    if found.is_some() {
        return found;
    }
    let found = (L::find_mut::<Comp>)(&mut fetches.11);
    if found.is_some() {
        return found;
    }
    (M::find_mut::<Comp>)(&mut fetches.12)
}

/// The version of `Comp` in the first fetch of a tuple of 13 that holds it.
pub fn tuple13_version<A: Fetch, B: Fetch, C: Fetch, D: Fetch, E: Fetch, F: Fetch, G: Fetch, H: Fetch, I: Fetch, J: Fetch, K: Fetch, L: Fetch, M: Fetch, Comp: Component>(fetches: &(A, B, C, D, E, F, G, H, I, J, K, L, M)) -> (version: Option<u64>)
    ensures
        (version is Some && call_ensures(A::version::<Comp>, (&fetches.0,), version))
        || (call_ensures(A::version::<Comp>, (&fetches.0,), None) && (
            (version is Some && call_ensures(B::version::<Comp>, (&fetches.1,), version))
            || (call_ensures(B::version::<Comp>, (&fetches.1,), None) && (
                (version is Some && call_ensures(C::version::<Comp>, (&fetches.2,), version))
                || (call_ensures(C::version::<Comp>, (&fetches.2,), None) && (
                    (version is Some && call_ensures(D::version::<Comp>, (&fetches.3,), version))
                    || (call_ensures(D::version::<Comp>, (&fetches.3,), None) && (
                        (version is Some && call_ensures(E::version::<Comp>, (&fetches.4,), version))
                        || (call_ensures(E::version::<Comp>, (&fetches.4,), None) && (
                            (version is Some && call_ensures(F::version::<Comp>, (&fetches.5,), version))
                            || (call_ensures(F::version::<Comp>, (&fetches.5,), None) && (
                                (version is Some && call_ensures(G::version::<Comp>, (&fetches.6,), version))
                                || (call_ensures(G::version::<Comp>, (&fetches.6,), None) && (
                                    (version is Some && call_ensures(H::version::<Comp>, (&fetches.7,), version))
                                    || (call_ensures(H::version::<Comp>, (&fetches.7,), None) && (
                                        (version is Some && call_ensures(I::version::<Comp>, (&fetches.8,), version))
                                        || (call_ensures(I::version::<Comp>, (&fetches.8,), None) && (
                                            (version is Some && call_ensures(J::version::<Comp>, (&fetches.9,), version))
                                            || (call_ensures(J::version::<Comp>, (&fetches.9,), None) && (
                                                (version is Some && call_ensures(K::version::<Comp>, (&fetches.10,), version))
                                                || (call_ensures(K::version::<Comp>, (&fetches.10,), None) && (
                                                    (version is Some && call_ensures(L::version::<Comp>, (&fetches.11,), version))
                                                    || (call_ensures(L::version::<Comp>, (&fetches.11,), None) && (
                                                        call_ensures(M::version::<Comp>, (&fetches.12,), version))))))))))))))))))))))))),
{
    let (a, b, c, d, e, f, g, h, i, j, k, l, m) = fetches;
    if let Some(version) = (A::version::<Comp>)(a) {
        return Some(version);
    }
    if let Some(version) = (B::version::<Comp>)(b) {
        return Some(version);
    }
    if let Some(version) = (C::version::<Comp>)(c) {
        return Some(version);
    }
    if let Some(version) = (D::version::<Comp>)(d) {
        return Some(version);
    }
    if let Some(version) = (E::version::<Comp>)(e) {
        return Some(version);
    }
    if let Some(version) = (F::version::<Comp>)(f) {
        return Some(version);
    }
    if let Some(version) = (G::version::<Comp>)(g) {
        return Some(version);
    }
    if let Some(version) = (H::version::<Comp>)(h) {
        return Some(version);
    }
    if let Some(version) = (I::version::<Comp>)(i) {
        return Some(version);
    }
    if let Some(version) = (J::version::<Comp>)(j) {
        return Some(version);
    }
    if let Some(version) = (K::version::<Comp>)(k) {
        return Some(version);
    }
    if let Some(version) = (L::version::<Comp>)(l) {
        return Some(version);
    }
    (M::version::<Comp>)(m)
}

// Tuples of 14 views.

impl<A: DefaultFilter, B: DefaultFilter, C: DefaultFilter, D: DefaultFilter, E: DefaultFilter, F: DefaultFilter, G: DefaultFilter, H: DefaultFilter, I: DefaultFilter, J: DefaultFilter, K: DefaultFilter, L: DefaultFilter, M: DefaultFilter, N: DefaultFilter> DefaultFilter for (A, B, C, D, E, F, G, H, I, J, K, L, M, N) {
    type Filter = (A::Filter, B::Filter, C::Filter, D::Filter, E::Filter, F::Filter, G::Filter, H::Filter, I::Filter, J::Filter, K::Filter, L::Filter, M::Filter, N::Filter);
}

impl<'a, A: View<'a> + 'a, B: View<'a> + 'a, C: View<'a> + 'a, D: View<'a> + 'a, E: View<'a> + 'a, F: View<'a> + 'a, G: View<'a> + 'a, H: View<'a> + 'a, I: View<'a> + 'a, J: View<'a> + 'a, K: View<'a> + 'a, L: View<'a> + 'a, M: View<'a> + 'a, N: View<'a> + 'a> View<'a> for (A, B, C, D, E, F, G, H, I, J, K, L, M, N) {
    type Element = <Self::Fetch as IntoIndexableIter>::Item;
    type Fetch = MultiFetch<'a, (A::Fetch, B::Fetch, C::Fetch, D::Fetch, E::Fetch, F::Fetch, G::Fetch, H::Fetch, I::Fetch, J::Fetch, K::Fetch, L::Fetch, M::Fetch, N::Fetch)>;

    fn validate() -> (valid: bool)
        ensures
            exists|reads: Seq<Vec<ComponentTypeId>>, writes: Seq<Vec<ComponentTypeId>>|
                reads.len() == 14 && writes.len() == 14
                && call_ensures(A::reads_types, (), reads[0])
                && call_ensures(A::writes_types, (), writes[0])
                && call_ensures(B::reads_types, (), reads[1])
                && call_ensures(B::writes_types, (), writes[1])
                && call_ensures(C::reads_types, (), reads[2])
                && call_ensures(C::writes_types, (), writes[2])
                && call_ensures(D::reads_types, (), reads[3])
                && call_ensures(D::writes_types, (), writes[3])
                && call_ensures(E::reads_types, (), reads[4])
                && call_ensures(E::writes_types, (), writes[4])
                && call_ensures(F::reads_types, (), reads[5])
                && call_ensures(F::writes_types, (), writes[5])
                && call_ensures(G::reads_types, (), reads[6])
                && call_ensures(G::writes_types, (), writes[6])
                && call_ensures(H::reads_types, (), reads[7])
                && call_ensures(H::writes_types, (), writes[7])
                && call_ensures(I::reads_types, (), reads[8])
                && call_ensures(I::writes_types, (), writes[8])
                && call_ensures(J::reads_types, (), reads[9])
                && call_ensures(J::writes_types, (), writes[9])
                && call_ensures(K::reads_types, (), reads[10])
                && call_ensures(K::writes_types, (), writes[10])
                && call_ensures(L::reads_types, (), reads[11])
                && call_ensures(L::writes_types, (), writes[11])
                && call_ensures(M::reads_types, (), reads[12])
                && call_ensures(M::writes_types, (), writes[12])
                && call_ensures(N::reads_types, (), reads[13])
                && call_ensures(N::writes_types, (), writes[13])
                && valid == conflict_free(type_lists(reads), type_lists(writes)),
    {
        let reads = vec![(A::reads_types)(), (B::reads_types)(), (C::reads_types)(), (D::reads_types)(), (E::reads_types)(), (F::reads_types)(), (G::reads_types)(), (H::reads_types)(), (I::reads_types)(), (J::reads_types)(), (K::reads_types)(), (L::reads_types)(), (M::reads_types)(), (N::reads_types)()];
        let writes = vec![(A::writes_types)(), (B::writes_types)(), (C::writes_types)(), (D::writes_types)(), (E::writes_types)(), (F::writes_types)(), (G::writes_types)(), (H::writes_types)(), (I::writes_types)(), (J::writes_types)(), (K::writes_types)(), (L::writes_types)(), (M::writes_types)(), (N::writes_types)()];
        let valid = accesses_conflict_free(&reads, &writes);
        assert(
            reads@.len() == 14 && writes@.len() == 14
            && call_ensures(A::reads_types, (), reads@[0])
            && call_ensures(A::writes_types, (), writes@[0])
            && call_ensures(B::reads_types, (), reads@[1])
            && call_ensures(B::writes_types, (), writes@[1])
            && call_ensures(C::reads_types, (), reads@[2])
            && call_ensures(C::writes_types, (), writes@[2])
            && call_ensures(D::reads_types, (), reads@[3])
            && call_ensures(D::writes_types, (), writes@[3])
            && call_ensures(E::reads_types, (), reads@[4])
            && call_ensures(E::writes_types, (), writes@[4])
            && call_ensures(F::reads_types, (), reads@[5])
            && call_ensures(F::writes_types, (), writes@[5])
            && call_ensures(G::reads_types, (), reads@[6])
            && call_ensures(G::writes_types, (), writes@[6])
            && call_ensures(H::reads_types, (), reads@[7])
            && call_ensures(H::writes_types, (), writes@[7])
            && call_ensures(I::reads_types, (), reads@[8])
            && call_ensures(I::writes_types, (), writes@[8])
            && call_ensures(J::reads_types, (), reads@[9])
            && call_ensures(J::writes_types, (), writes@[9])
            && call_ensures(K::reads_types, (), reads@[10])
            && call_ensures(K::writes_types, (), writes@[10])
            && call_ensures(L::reads_types, (), reads@[11])
            && call_ensures(L::writes_types, (), writes@[11])
            && call_ensures(M::reads_types, (), reads@[12])
            && call_ensures(M::writes_types, (), writes@[12])
            && call_ensures(N::reads_types, (), reads@[13])
            && call_ensures(N::writes_types, (), writes@[13])
            && valid == conflict_free(type_lists(reads@), type_lists(writes@))
        );
        valid
    }

    fn reads_types() -> (types: Vec<ComponentTypeId>)
        ensures
            exists|lists: Seq<Vec<ComponentTypeId>>|
                lists.len() == 14
                && call_ensures(A::reads_types, (), lists[0])
                && call_ensures(B::reads_types, (), lists[1])
                && call_ensures(C::reads_types, (), lists[2])
                && call_ensures(D::reads_types, (), lists[3])
                && call_ensures(E::reads_types, (), lists[4])
                && call_ensures(F::reads_types, (), lists[5])
                && call_ensures(G::reads_types, (), lists[6])
                && call_ensures(H::reads_types, (), lists[7])
                && call_ensures(I::reads_types, (), lists[8])
                && call_ensures(J::reads_types, (), lists[9])
                && call_ensures(K::reads_types, (), lists[10])
                && call_ensures(L::reads_types, (), lists[11])
                && call_ensures(M::reads_types, (), lists[12])
                && call_ensures(N::reads_types, (), lists[13])
                && types@ == type_lists(lists).flatten(),
    {
        let lists = vec![(A::reads_types)(), (B::reads_types)(), (C::reads_types)(), (D::reads_types)(), (E::reads_types)(), (F::reads_types)(), (G::reads_types)(), (H::reads_types)(), (I::reads_types)(), (J::reads_types)(), (K::reads_types)(), (L::reads_types)(), (M::reads_types)(), (N::reads_types)()];
        let ghost views = lists@;
        let types = concat_types(lists);
        assert(
            views.len() == 14
            && call_ensures(A::reads_types, (), views[0])
            && call_ensures(B::reads_types, (), views[1])
            && call_ensures(C::reads_types, (), views[2])
            && call_ensures(D::reads_types, (), views[3])
            && call_ensures(E::reads_types, (), views[4])
            && call_ensures(F::reads_types, (), views[5])
            && call_ensures(G::reads_types, (), views[6])
            && call_ensures(H::reads_types, (), views[7])
            && call_ensures(I::reads_types, (), views[8])
            && call_ensures(J::reads_types, (), views[9])
            && call_ensures(K::reads_types, (), views[10])
            && call_ensures(L::reads_types, (), views[11])
            && call_ensures(M::reads_types, (), views[12])
            && call_ensures(N::reads_types, (), views[13])
            && types@ == type_lists(views).flatten()
        );
        types
    }

    fn writes_types() -> (types: Vec<ComponentTypeId>)
        ensures
            exists|lists: Seq<Vec<ComponentTypeId>>|
                lists.len() == 14
                && call_ensures(A::writes_types, (), lists[0])
                && call_ensures(B::writes_types, (), lists[1])
                && call_ensures(C::writes_types, (), lists[2])
                && call_ensures(D::writes_types, (), lists[3])
                && call_ensures(E::writes_types, (), lists[4])
                && call_ensures(F::writes_types, (), lists[5])
                && call_ensures(G::writes_types, (), lists[6])
                && call_ensures(H::writes_types, (), lists[7])
                && call_ensures(I::writes_types, (), lists[8])
                && call_ensures(J::writes_types, (), lists[9])
                && call_ensures(K::writes_types, (), lists[10])
                && call_ensures(L::writes_types, (), lists[11])
                && call_ensures(M::writes_types, (), lists[12])
                && call_ensures(N::writes_types, (), lists[13])
                && types@ == type_lists(lists).flatten(),
    {
        let lists = vec![(A::writes_types)(), (B::writes_types)(), (C::writes_types)(), (D::writes_types)(), (E::writes_types)(), (F::writes_types)(), (G::writes_types)(), (H::writes_types)(), (I::writes_types)(), (J::writes_types)(), (K::writes_types)(), (L::writes_types)(), (M::writes_types)(), (N::writes_types)()];
        let ghost views = lists@;
        let types = concat_types(lists);
        assert(
            views.len() == 14
            && call_ensures(A::writes_types, (), views[0])
            && call_ensures(B::writes_types, (), views[1])
            && call_ensures(C::writes_types, (), views[2])
            && call_ensures(D::writes_types, (), views[3])
            && call_ensures(E::writes_types, (), views[4])
            && call_ensures(F::writes_types, (), views[5])
            && call_ensures(G::writes_types, (), views[6])
            && call_ensures(H::writes_types, (), views[7])
            && call_ensures(I::writes_types, (), views[8])
            && call_ensures(J::writes_types, (), views[9])
            && call_ensures(K::writes_types, (), views[10])
            && call_ensures(L::writes_types, (), views[11])
            && call_ensures(M::writes_types, (), views[12])
            && call_ensures(N::writes_types, (), views[13])
            && types@ == type_lists(views).flatten()
        );
        types
    }

    fn reads<Comp: Component>() -> bool {
        tuple14_reads::<'a, A, B, C, D, E, F, G, H, I, J, K, L, M, N, Comp>()
    }

    fn writes<Comp: Component>() -> bool {
        tuple14_writes::<'a, A, B, C, D, E, F, G, H, I, J, K, L, M, N, Comp>()
    }
}

impl<'a, A: Fetch, B: Fetch, C: Fetch, D: Fetch, E: Fetch, F: Fetch, G: Fetch, H: Fetch, I: Fetch, J: Fetch, K: Fetch, L: Fetch, M: Fetch, N: Fetch> IntoIndexableIter for MultiFetch<'a, (A, B, C, D, E, F, G, H, I, J, K, L, M, N)> {
    type Item = (A::Item, B::Item, C::Item, D::Item, E::Item, F::Item, G::Item, H::Item, I::Item, J::Item, K::Item, L::Item, M::Item, N::Item);
    type IntoIter = (A::IntoIter, B::IntoIter, C::IntoIter, D::IntoIter, E::IntoIter, F::IntoIter, G::IntoIter, H::IntoIter, I::IntoIter, J::IntoIter, K::IntoIter, L::IntoIter, M::IntoIter, N::IntoIter);

    fn into_indexable_iter(self) -> (iter: Self::IntoIter)
        ensures
            call_ensures(A::into_indexable_iter, (self.fetches().0,), iter.0),
            call_ensures(B::into_indexable_iter, (self.fetches().1,), iter.1),
            call_ensures(C::into_indexable_iter, (self.fetches().2,), iter.2),
            call_ensures(D::into_indexable_iter, (self.fetches().3,), iter.3),
            call_ensures(E::into_indexable_iter, (self.fetches().4,), iter.4),
            call_ensures(F::into_indexable_iter, (self.fetches().5,), iter.5),
            call_ensures(G::into_indexable_iter, (self.fetches().6,), iter.6),
            call_ensures(H::into_indexable_iter, (self.fetches().7,), iter.7),
            call_ensures(I::into_indexable_iter, (self.fetches().8,), iter.8),
            call_ensures(J::into_indexable_iter, (self.fetches().9,), iter.9),
            call_ensures(K::into_indexable_iter, (self.fetches().10,), iter.10),
            call_ensures(L::into_indexable_iter, (self.fetches().11,), iter.11),
            call_ensures(M::into_indexable_iter, (self.fetches().12,), iter.12),
            call_ensures(N::into_indexable_iter, (self.fetches().13,), iter.13),
    {
        let (a, b, c, d, e, f, g, h, i, j, k, l, m, n) = self.fetches;
        ((A::into_indexable_iter)(a), (B::into_indexable_iter)(b), (C::into_indexable_iter)(c), (D::into_indexable_iter)(d), (E::into_indexable_iter)(e), (F::into_indexable_iter)(f), (G::into_indexable_iter)(g), (H::into_indexable_iter)(h), (I::into_indexable_iter)(i), (J::into_indexable_iter)(j), (K::into_indexable_iter)(k), (L::into_indexable_iter)(l), (M::into_indexable_iter)(m), (N::into_indexable_iter)(n))
    }
}

impl<'a, A: Fetch, B: Fetch, C: Fetch, D: Fetch, E: Fetch, F: Fetch, G: Fetch, H: Fetch, I: Fetch, J: Fetch, K: Fetch, L: Fetch, M: Fetch, N: Fetch> Fetch for MultiFetch<'a, (A, B, C, D, E, F, G, H, I, J, K, L, M, N)> {
    type Data = (A::Data, B::Data, C::Data, D::Data, E::Data, F::Data, G::Data, H::Data, I::Data, J::Data, K::Data, L::Data, M::Data, N::Data);

    fn into_components(self) -> (data: Self::Data)
        ensures
            call_ensures(A::into_components, (self.fetches().0,), data.0),
            call_ensures(B::into_components, (self.fetches().1,), data.1),
            call_ensures(C::into_components, (self.fetches().2,), data.2),
            call_ensures(D::into_components, (self.fetches().3,), data.3),
            call_ensures(E::into_components, (self.fetches().4,), data.4),
            call_ensures(F::into_components, (self.fetches().5,), data.5),
            call_ensures(G::into_components, (self.fetches().6,), data.6),
            call_ensures(H::into_components, (self.fetches().7,), data.7),
            call_ensures(I::into_components, (self.fetches().8,), data.8),
            call_ensures(J::into_components, (self.fetches().9,), data.9),
            call_ensures(K::into_components, (self.fetches().10,), data.10),
            call_ensures(L::into_components, (self.fetches().11,), data.11),
            call_ensures(M::into_components, (self.fetches().12,), data.12),
            call_ensures(N::into_components, (self.fetches().13,), data.13),
    {
        let (a, b, c, d, e, f, g, h, i, j, k, l, m, n) = self.fetches;
        ((A::into_components)(a), (B::into_components)(b), (C::into_components)(c), (D::into_components)(d), (E::into_components)(e), (F::into_components)(f), (G::into_components)(g), (H::into_components)(h), (I::into_components)(i), (J::into_components)(j), (K::into_components)(k), (L::into_components)(l), (M::into_components)(m), (N::into_components)(n))
    }

    fn find<Comp: 'static>(&self) -> Option<&[Comp]> {
        tuple14_find::<A, B, C, D, E, F, G, H, I, J, K, L, M, N, Comp>(&self.fetches)
    }

    fn find_mut<Comp: 'static>(&mut self) -> Option<&mut [Comp]> {
        tuple14_find_mut::<A, B, C, D, E, F, G, H, I, J, K, L, M, N, Comp>(&mut self.fetches)
    }

    fn version<Comp: Component>(&self) -> Option<u64> {
        tuple14_version::<A, B, C, D, E, F, G, H, I, J, K, L, M, N, Comp>(&self.fetches)
    }

    fn accepted(&mut self)
        ensures
            exists|m: &mut A|
                *m == old(self).fetches().0 && *final(m) == final(self).fetches().0
                && call_ensures(A::accepted, (m,), ()),
            exists|m: &mut B|
                *m == old(self).fetches().1 && *final(m) == final(self).fetches().1
                && call_ensures(B::accepted, (m,), ()),
            exists|m: &mut C|
                *m == old(self).fetches().2 && *final(m) == final(self).fetches().2
                && call_ensures(C::accepted, (m,), ()),
            exists|m: &mut D|
                *m == old(self).fetches().3 && *final(m) == final(self).fetches().3
                && call_ensures(D::accepted, (m,), ()),
            exists|m: &mut E|
                *m == old(self).fetches().4 && *final(m) == final(self).fetches().4
                && call_ensures(E::accepted, (m,), ()),
            exists|m: &mut F|
                *m == old(self).fetches().5 && *final(m) == final(self).fetches().5
                && call_ensures(F::accepted, (m,), ()),
            exists|m: &mut G|
                *m == old(self).fetches().6 && *final(m) == final(self).fetches().6
                && call_ensures(G::accepted, (m,), ()),
            exists|m: &mut H|
                *m == old(self).fetches().7 && *final(m) == final(self).fetches().7
                && call_ensures(H::accepted, (m,), ()),
            exists|m: &mut I|
                *m == old(self).fetches().8 && *final(m) == final(self).fetches().8
                && call_ensures(I::accepted, (m,), ()),
            exists|m: &mut J|
                *m == old(self).fetches().9 && *final(m) == final(self).fetches().9
                && call_ensures(J::accepted, (m,), ()),
            exists|m: &mut K|
                *m == old(self).fetches().10 && *final(m) == final(self).fetches().10
                && call_ensures(K::accepted, (m,), ()),
            exists|m: &mut L|
                *m == old(self).fetches().11 && *final(m) == final(self).fetches().11
                && call_ensures(L::accepted, (m,), ()),
            exists|m: &mut M|
                *m == old(self).fetches().12 && *final(m) == final(self).fetches().12
                && call_ensures(M::accepted, (m,), ()),
            exists|m: &mut N|
                *m == old(self).fetches().13 && *final(m) == final(self).fetches().13
                && call_ensures(N::accepted, (m,), ()),
    {
        let (a, b, c, d, e, f, g, h, i, j, k, l, m, n) = &mut self.fetches;
        (A::accepted)(a);
        (B::accepted)(b);
        (C::accepted)(c);
        (D::accepted)(d);
        (E::accepted)(e);
        (F::accepted)(f);
        (G::accepted)(g);
        (H::accepted)(h);
        (I::accepted)(i);
        (J::accepted)(j);
        (K::accepted)(k);
        (L::accepted)(l);
        (M::accepted)(m);
        (N::accepted)(n);
    }
}

impl<'a, A: ReadOnlyFetch, B: ReadOnlyFetch, C: ReadOnlyFetch, D: ReadOnlyFetch, E: ReadOnlyFetch, F: ReadOnlyFetch, G: ReadOnlyFetch, H: ReadOnlyFetch, I: ReadOnlyFetch, J: ReadOnlyFetch, K: ReadOnlyFetch, L: ReadOnlyFetch, M: ReadOnlyFetch, N: ReadOnlyFetch> ReadOnlyFetch for MultiFetch<'a, (A, B, C, D, E, F, G, H, I, J, K, L, M, N)> {
    fn get_components(&self) -> (data: Self::Data)
        ensures
            call_ensures(A::get_components, (&self.fetches().0,), data.0),
            call_ensures(B::get_components, (&self.fetches().1,), data.1),
            call_ensures(C::get_components, (&self.fetches().2,), data.2),
            call_ensures(D::get_components, (&self.fetches().3,), data.3),
            call_ensures(E::get_components, (&self.fetches().4,), data.4),
            call_ensures(F::get_components, (&self.fetches().5,), data.5),
            call_ensures(G::get_components, (&self.fetches().6,), data.6),
            call_ensures(H::get_components, (&self.fetches().7,), data.7),
            call_ensures(I::get_components, (&self.fetches().8,), data.8),
            call_ensures(J::get_components, (&self.fetches().9,), data.9),
            call_ensures(K::get_components, (&self.fetches().10,), data.10),
            call_ensures(L::get_components, (&self.fetches().11,), data.11),
            call_ensures(M::get_components, (&self.fetches().12,), data.12),
            call_ensures(N::get_components, (&self.fetches().13,), data.13),
    {
        let (a, b, c, d, e, f, g, h, i, j, k, l, m, n) = &self.fetches;
        ((A::get_components)(a), (B::get_components)(b), (C::get_components)(c), (D::get_components)(d), (E::get_components)(e), (F::get_components)(f), (G::get_components)(g), (H::get_components)(h), (I::get_components)(i), (J::get_components)(j), (K::get_components)(k), (L::get_components)(l), (M::get_components)(m), (N::get_components)(n))
    }
}

/// Whether some view of a tuple of 14 reads `Comp`, asking the views in order.
pub fn tuple14_reads<'a, A: View<'a> + 'a, B: View<'a> + 'a, C: View<'a> + 'a, D: View<'a> + 'a, E: View<'a> + 'a, F: View<'a> + 'a, G: View<'a> + 'a, H: View<'a> + 'a, I: View<'a> + 'a, J: View<'a> + 'a, K: View<'a> + 'a, L: View<'a> + 'a, M: View<'a> + 'a, N: View<'a> + 'a, Comp: Component>() -> (found: bool)
    ensures
        (found && call_ensures(A::reads::<Comp>, (), true))
        || (call_ensures(A::reads::<Comp>, (), false) && (
            (found && call_ensures(B::reads::<Comp>, (), true))
            || (call_ensures(B::reads::<Comp>, (), false) && (
                (found && call_ensures(C::reads::<Comp>, (), true))
                || (call_ensures(C::reads::<Comp>, (), false) && (
                    (found && call_ensures(D::reads::<Comp>, (), true))
                    || (call_ensures(D::reads::<Comp>, (), false) && (
                        (found && call_ensures(E::reads::<Comp>, (), true))
                        || (call_ensures(E::reads::<Comp>, (), false) && (
                            (found && call_ensures(F::reads::<Comp>, (), true))
                            || (call_ensures(F::reads::<Comp>, (), false) && (
                                (found && call_ensures(G::reads::<Comp>, (), true))
                                || (call_ensures(G::reads::<Comp>, (), false) && (
                                    (found && call_ensures(H::reads::<Comp>, (), true))
                                    || (call_ensures(H::reads::<Comp>, (), false) && (
                                        (found && call_ensures(I::reads::<Comp>, (), true))
                                        || (call_ensures(I::reads::<Comp>, (), false) && (
                                            (found && call_ensures(J::reads::<Comp>, (), true))
                                            || (call_ensures(J::reads::<Comp>, (), false) && (
                                                (found && call_ensures(K::reads::<Comp>, (), true))
                                                || (call_ensures(K::reads::<Comp>, (), false) && (
                                                    (found && call_ensures(L::reads::<Comp>, (), true))
                                                    || (call_ensures(L::reads::<Comp>, (), false) && (
                                                        (found && call_ensures(M::reads::<Comp>, (), true))
                                                        || (call_ensures(M::reads::<Comp>, (), false) && (
                                                            call_ensures(N::reads::<Comp>, (), found))))))))))))))))))))))))))),
{
    (A::reads::<Comp>)()
        || (B::reads::<Comp>)()
        || (C::reads::<Comp>)()
        || (D::reads::<Comp>)()
        || (E::reads::<Comp>)()
        || (F::reads::<Comp>)()
        || (G::reads::<Comp>)()
        || (H::reads::<Comp>)()
        || (I::reads::<Comp>)()
        || (J::reads::<Comp>)()
        || (K::reads::<Comp>)()
        || (L::reads::<Comp>)()
        || (M::reads::<Comp>)()
        || (N::reads::<Comp>)()
}

/// Whether some view of a tuple of 14 writes `Comp`, asking the views in order.
pub fn tuple14_writes<'a, A: View<'a> + 'a, B: View<'a> + 'a, C: View<'a> + 'a, D: View<'a> + 'a, E: View<'a> + 'a, F: View<'a> + 'a, G: View<'a> + 'a, H: View<'a> + 'a, I: View<'a> + 'a, J: View<'a> + 'a, K: View<'a> + 'a, L: View<'a> + 'a, M: View<'a> + 'a, N: View<'a> + 'a, Comp: Component>() -> (found: bool)
    ensures
        (found && call_ensures(A::writes::<Comp>, (), true))
        || (call_ensures(A::writes::<Comp>, (), false) && (
            (found && call_ensures(B::writes::<Comp>, (), true))
            || (call_ensures(B::writes::<Comp>, (), false) && (
                (found && call_ensures(C::writes::<Comp>, (), true))
                || (call_ensures(C::writes::<Comp>, (), false) && (
                    (found && call_ensures(D::writes::<Comp>, (), true))
                    || (call_ensures(D::writes::<Comp>, (), false) && (
                        (found && call_ensures(E::writes::<Comp>, (), true))
                        || (call_ensures(E::writes::<Comp>, (), false) && (
                            (found && call_ensures(F::writes::<Comp>, (), true))
                            || (call_ensures(F::writes::<Comp>, (), false) && (
                                (found && call_ensures(G::writes::<Comp>, (), true))
                                || (call_ensures(G::writes::<Comp>, (), false) && (
                                    (found && call_ensures(H::writes::<Comp>, (), true))
                                    || (call_ensures(H::writes::<Comp>, (), false) && (
                                        (found && call_ensures(I::writes::<Comp>, (), true))
                                        || (call_ensures(I::writes::<Comp>, (), false) && (
                                            (found && call_ensures(J::writes::<Comp>, (), true))
                                            || (call_ensures(J::writes::<Comp>, (), false) && (
                                                (found && call_ensures(K::writes::<Comp>, (), true))
                                                || (call_ensures(K::writes::<Comp>, (), false) && (
                                                    (found && call_ensures(L::writes::<Comp>, (), true))
                                                    || (call_ensures(L::writes::<Comp>, (), false) && (
                                                        (found && call_ensures(M::writes::<Comp>, (), true))
                                                        || (call_ensures(M::writes::<Comp>, (), false) && (
                                                            call_ensures(N::writes::<Comp>, (), found))))))))))))))))))))))))))),
{
    (A::writes::<Comp>)()
        || (B::writes::<Comp>)()
        || (C::writes::<Comp>)()
        || (D::writes::<Comp>)()
        || (E::writes::<Comp>)()
        || (F::writes::<Comp>)()
        || (G::writes::<Comp>)()
        || (H::writes::<Comp>)()
        || (I::writes::<Comp>)()
        || (J::writes::<Comp>)()
        || (K::writes::<Comp>)()
        || (L::writes::<Comp>)()
        || (M::writes::<Comp>)()
        || (N::writes::<Comp>)()
}

/// The slice of the first fetch of a tuple of 14 that holds `Comp`.
pub fn tuple14_find<'f, A: Fetch, B: Fetch, C: Fetch, D: Fetch, E: Fetch, F: Fetch, G: Fetch, H: Fetch, I: Fetch, J: Fetch, K: Fetch, L: Fetch, M: Fetch, N: Fetch, Comp: 'static>(fetches: &'f (A, B, C, D, E, F, G, H, I, J, K, L, M, N)) -> (found: Option<&'f [Comp]>)
    ensures
        (found is Some && call_ensures(A::find::<Comp>, (&fetches.0,), found))
        || (call_ensures(A::find::<Comp>, (&fetches.0,), None) && (
            (found is Some && call_ensures(B::find::<Comp>, (&fetches.1,), found))
            || (call_ensures(B::find::<Comp>, (&fetches.1,), None) && (
                (found is Some && call_ensures(C::find::<Comp>, (&fetches.2,), found))
                || (call_ensures(C::find::<Comp>, (&fetches.2,), None) && (
                    (found is Some && call_ensures(D::find::<Comp>, (&fetches.3,), found))
                    || (call_ensures(D::find::<Comp>, (&fetches.3,), None) && (
                        (found is Some && call_ensures(E::find::<Comp>, (&fetches.4,), found))
                        || (call_ensures(E::find::<Comp>, (&fetches.4,), None) && (
                            (found is Some && call_ensures(F::find::<Comp>, (&fetches.5,), found))
                            || (call_ensures(F::find::<Comp>, (&fetches.5,), None) && (
                                (found is Some && call_ensures(G::find::<Comp>, (&fetches.6,), found))
                                || (call_ensures(G::find::<Comp>, (&fetches.6,), None) && (
                                    (found is Some && call_ensures(H::find::<Comp>, (&fetches.7,), found))
                                    || (call_ensures(H::find::<Comp>, (&fetches.7,), None) && (
                                        (found is Some && call_ensures(I::find::<Comp>, (&fetches.8,), found))
                                        || (call_ensures(I::find::<Comp>, (&fetches.8,), None) && (
                                            (found is Some && call_ensures(J::find::<Comp>, (&fetches.9,), found))
                                            || (call_ensures(J::find::<Comp>, (&fetches.9,), None) && (
                                                (found is Some && call_ensures(K::find::<Comp>, (&fetches.10,), found))
                                                || (call_ensures(K::find::<Comp>, (&fetches.10,), None) && (
                                                    (found is Some && call_ensures(L::find::<Comp>, (&fetches.11,), found))
                                                    || (call_ensures(L::find::<Comp>, (&fetches.11,), None) && (
                                                        (found is Some && call_ensures(M::find::<Comp>, (&fetches.12,), found))
                                                        || (call_ensures(M::find::<Comp>, (&fetches.12,), None) && (
                                                            call_ensures(N::find::<Comp>, (&fetches.13,), found))))))))))))))))))))))))))),
{
    let (a, b, c, d, e, f, g, h, i, j, k, l, m, n) = fetches;
    if let Some(slice) = (A::find::<Comp>)(a) {
        return Some(slice);
    }
    if let Some(slice) = (B::find::<Comp>)(b) {
        return Some(slice);
    }
    if let Some(slice) = (C::find::<Comp>)(c) {
        return Some(slice);
    }
    if let Some(slice) = (D::find::<Comp>)(d) {
        return Some(slice);
    }
    if let Some(slice) = (E::find::<Comp>)(e) {
        return Some(slice);
    }
    if let Some(slice) = (F::find::<Comp>)(f) {
        return Some(slice);
    }
    if let Some(slice) = (G::find::<Comp>)(g) {
        return Some(slice);
    }
    if let Some(slice) = (H::find::<Comp>)(h) {
        return Some(slice);
    }
    if let Some(slice) = (I::find::<Comp>)(i) {
        return Some(slice);
    }
    if let Some(slice) = (J::find::<Comp>)(j) {
        return Some(slice);
    }
    if let Some(slice) = (K::find::<Comp>)(k) {
        return Some(slice);
    }
    if let Some(slice) = (L::find::<Comp>)(l) {
        return Some(slice);
    }
    if let Some(slice) = (M::find::<Comp>)(m) {
        return Some(slice);
    }
    (N::find::<Comp>)(n)
}

/// The mutable slice of the first fetch of a tuple of 14 that holds `Comp`.
pub fn tuple14_find_mut<'f, A: Fetch, B: Fetch, C: Fetch, D: Fetch, E: Fetch, F: Fetch, G: Fetch, H: Fetch, I: Fetch, J: Fetch, K: Fetch, L: Fetch, M: Fetch, N: Fetch, Comp: 'static>(fetches: &'f mut (A, B, C, D, E, F, G, H, I, J, K, L, M, N)) -> (found: Option<&'f mut [Comp]>)
    ensures
        exists|m: &mut A|
            *m == old(fetches).0
            && *final(m) == final(fetches).0
            && ((found is Some && call_ensures(A::find_mut::<Comp>, (m,), found) && final(fetches).1 == old(fetches).1 && final(fetches).2 == old(fetches).2 && final(fetches).3 == old(fetches).3 && final(fetches).4 == old(fetches).4 && final(fetches).5 == old(fetches).5 && final(fetches).6 == old(fetches).6 && final(fetches).7 == old(fetches).7 && final(fetches).8 == old(fetches).8 && final(fetches).9 == old(fetches).9 && final(fetches).10 == old(fetches).10 && final(fetches).11 == old(fetches).11 && final(fetches).12 == old(fetches).12 && final(fetches).13 == old(fetches).13)
            || (call_ensures(A::find_mut::<Comp>, (m,), None) && (
                exists|m: &mut B|
                    *m == old(fetches).1
                    && *final(m) == final(fetches).1
                    && ((found is Some && call_ensures(B::find_mut::<Comp>, (m,), found) && final(fetches).2 == old(fetches).2 && final(fetches).3 == old(fetches).3 && final(fetches).4 == old(fetches).4 && final(fetches).5 == old(fetches).5 && final(fetches).6 == old(fetches).6 && final(fetches).7 == old(fetches).7 && final(fetches).8 == old(fetches).8 && final(fetches).9 == old(fetches).9 && final(fetches).10 == old(fetches).10 && final(fetches).11 == old(fetches).11 && final(fetches).12 == old(fetches).12 && final(fetches).13 == old(fetches).13)
                    || (call_ensures(B::find_mut::<Comp>, (m,), None) && (
                        exists|m: &mut C|
                            *m == old(fetches).2
                            && *final(m) == final(fetches).2
                            && ((found is Some && call_ensures(C::find_mut::<Comp>, (m,), found) && final(fetches).3 == old(fetches).3 && final(fetches).4 == old(fetches).4 && final(fetches).5 == old(fetches).5 && final(fetches).6 == old(fetches).6 && final(fetches).7 == old(fetches).7 && final(fetches).8 == old(fetches).8 && final(fetches).9 == old(fetches).9 && final(fetches).10 == old(fetches).10 && final(fetches).11 == old(fetches).11 && final(fetches).12 == old(fetches).12 && final(fetches).13 == old(fetches).13)
                            || (call_ensures(C::find_mut::<Comp>, (m,), None) && (
                                exists|m: &mut D|
                                    *m == old(fetches).3
                                    && *final(m) == final(fetches).3
                                    && ((found is Some && call_ensures(D::find_mut::<Comp>, (m,), found) && final(fetches).4 == old(fetches).4 && final(fetches).5 == old(fetches).5 && final(fetches).6 == old(fetches).6 && final(fetches).7 == old(fetches).7 && final(fetches).8 == old(fetches).8 && final(fetches).9 == old(fetches).9 && final(fetches).10 == old(fetches).10 && final(fetches).11 == old(fetches).11 && final(fetches).12 == old(fetches).12 && final(fetches).13 == old(fetches).13)
                                    || (call_ensures(D::find_mut::<Comp>, (m,), None) && (
                                        exists|m: &mut E|
                                            *m == old(fetches).4
                                            && *final(m) == final(fetches).4
                                            && ((found is Some && call_ensures(E::find_mut::<Comp>, (m,), found) && final(fetches).5 == old(fetches).5 && final(fetches).6 == old(fetches).6 && final(fetches).7 == old(fetches).7 && final(fetches).8 == old(fetches).8 && final(fetches).9 == old(fetches).9 && final(fetches).10 == old(fetches).10 && final(fetches).11 == old(fetches).11 && final(fetches).12 == old(fetches).12 && final(fetches).13 == old(fetches).13)
                                            || (call_ensures(E::find_mut::<Comp>, (m,), None) && (
                                                exists|m: &mut F|
                                                    *m == old(fetches).5
                                                    && *final(m) == final(fetches).5
                                                    && ((found is Some && call_ensures(F::find_mut::<Comp>, (m,), found) && final(fetches).6 == old(fetches).6 && final(fetches).7 == old(fetches).7 && final(fetches).8 == old(fetches).8 && final(fetches).9 == old(fetches).9 && final(fetches).10 == old(fetches).10 && final(fetches).11 == old(fetches).11 && final(fetches).12 == old(fetches).12 && final(fetches).13 == old(fetches).13)
                                                    || (call_ensures(F::find_mut::<Comp>, (m,), None) && (
                                                        exists|m: &mut G|
                                                            *m == old(fetches).6
                                                            && *final(m) == final(fetches).6
                                                            && ((found is Some && call_ensures(G::find_mut::<Comp>, (m,), found) && final(fetches).7 == old(fetches).7 && final(fetches).8 == old(fetches).8 && final(fetches).9 == old(fetches).9 && final(fetches).10 == old(fetches).10 && final(fetches).11 == old(fetches).11 && final(fetches).12 == old(fetches).12 && final(fetches).13 == old(fetches).13)
                                                            || (call_ensures(G::find_mut::<Comp>, (m,), None) && (
                                                                exists|m: &mut H|
                                                                    *m == old(fetches).7
                                                                    && *final(m) == final(fetches).7
                                                                    && ((found is Some && call_ensures(H::find_mut::<Comp>, (m,), found) && final(fetches).8 == old(fetches).8 && final(fetches).9 == old(fetches).9 && final(fetches).10 == old(fetches).10 && final(fetches).11 == old(fetches).11 && final(fetches).12 == old(fetches).12 && final(fetches).13 == old(fetches).13)
                                                                    || (call_ensures(H::find_mut::<Comp>, (m,), None) && (
                                                                        exists|m: &mut I|
                                                                            *m == old(fetches).8
                                                                            && *final(m) == final(fetches).8
                                                                            && ((found is Some && call_ensures(I::find_mut::<Comp>, (m,), found) && final(fetches).9 == old(fetches).9 && final(fetches).10 == old(fetches).10 && final(fetches).11 == old(fetches).11 && final(fetches).12 == old(fetches).12 && final(fetches).13 == old(fetches).13)
                                                                            || (call_ensures(I::find_mut::<Comp>, (m,), None) && (
                                                                                exists|m: &mut J|
                                                                                    *m == old(fetches).9
                                                                                    && *final(m) == final(fetches).9
                                                                                    && ((found is Some && call_ensures(J::find_mut::<Comp>, (m,), found) && final(fetches).10 == old(fetches).10 && final(fetches).11 == old(fetches).11 && final(fetches).12 == old(fetches).12 && final(fetches).13 == old(fetches).13)
                                                                                    || (call_ensures(J::find_mut::<Comp>, (m,), None) && (
                                                                                        exists|m: &mut K|
                                                                                            *m == old(fetches).10
                                                                                            && *final(m) == final(fetches).10
                                                                                            && ((found is Some && call_ensures(K::find_mut::<Comp>, (m,), found) && final(fetches).11 == old(fetches).11 && final(fetches).12 == old(fetches).12 && final(fetches).13 == old(fetches).13)
                                                                                            || (call_ensures(K::find_mut::<Comp>, (m,), None) && (
                                                                                                exists|m: &mut L|
                                                                                                    *m == old(fetches).11
                                                                                                    && *final(m) == final(fetches).11
                                                                                                    && ((found is Some && call_ensures(L::find_mut::<Comp>, (m,), found) && final(fetches).12 == old(fetches).12 && final(fetches).13 == old(fetches).13)
                                                                                                    || (call_ensures(L::find_mut::<Comp>, (m,), None) && (
                                                                                                        exists|m: &mut M|
                                                                                                            *m == old(fetches).12
                                                                                                            && *final(m) == final(fetches).12
                                                                                                            && ((found is Some && call_ensures(M::find_mut::<Comp>, (m,), found) && final(fetches).13 == old(fetches).13)
                                                                                                            || (call_ensures(M::find_mut::<Comp>, (m,), None) && (
                                                                                                                exists|m: &mut N|
                                                                                                                    *m == old(fetches).13
                                                                                                                    && *final(m) == final(fetches).13
                                                                                                                    && call_ensures(N::find_mut::<Comp>, (m,), found)))))))))))))))))))))))))))))))))))))))),
{
    let found = (A::find_mut::<Comp>)(&mut fetches.0);
    if found.is_some() {
        return found;
    }
    let found = (B::find_mut::<Comp>)(&mut fetches.1);
    if found.is_some() {
        return found;
    }
    let found = (C::find_mut::<Comp>)(&mut fetches.2);
    if found.is_some() {
        return found;
    }
    let found = (D::find_mut::<Comp>)(&mut fetches.3);
    if found.is_some() {
        return found;
    }
    let found = (E::find_mut::<Comp>)(&mut fetches.4);
    if found.is_some() {
        return found;
    }
    let found = (F::find_mut::<Comp>)(&mut fetches.5);
    if found.is_some() {
        return found;
    }
    let found = (G::find_mut::<Comp>)(&mut fetches.6);
    if found.is_some() {
        return found;
    }
    let found = (H::find_mut::<Comp>)(&mut fetches.7);
    if found.is_some() {
        return found;
    }
    let found = (I::find_mut::<Comp>)(&mut fetches.8);
    if found.is_some() {
        return found;
    }
    let found = (J::find_mut::<Comp>)(&mut fetches.9);
    if found.is_some() {
        return found;
    }
    let found = (K::find_mut::<Comp>)(&mut fetches.10);
    if found.is_some() {
        return found;
    }
    let found = (L::find_mut::<Comp>)(&mut fetches.11);
    if found.is_some() {
        return found;
    }
    let found = (M::find_mut::<Comp>)(&mut fetches.12);
    if found.is_some() {
        return found;
    }
    (N::find_mut::<Comp>)(&mut fetches.13)
}

/// The version of `Comp` in the first fetch of a tuple of 14 that holds it.
pub fn tuple14_version<A: Fetch, B: Fetch, C: Fetch, D: Fetch, E: Fetch, F: Fetch, G: Fetch, H: Fetch, I: Fetch, J: Fetch, K: Fetch, L: Fetch, M: Fetch, N: Fetch, Comp: Component>(fetches: &(A, B, C, D, E, F, G, H, I, J, K, L, M, N)) -> (version: Option<u64>)
    ensures
        (version is Some && call_ensures(A::version::<Comp>, (&fetches.0,), version))
        || (call_ensures(A::version::<Comp>, (&fetches.0,), None) && (
            (version is Some && call_ensures(B::version::<Comp>, (&fetches.1,), version))
            || (call_ensures(B::version::<Comp>, (&fetches.1,), None) && (
                (version is Some && call_ensures(C::version::<Comp>, (&fetches.2,), version))
                || (call_ensures(C::version::<Comp>, (&fetches.2,), None) && (
                    (version is Some && call_ensures(D::version::<Comp>, (&fetches.3,), version))
                    || (call_ensures(D::version::<Comp>, (&fetches.3,), None) && (
                        (version is Some && call_ensures(E::version::<Comp>, (&fetches.4,), version))
                        || (call_ensures(E::version::<Comp>, (&fetches.4,), None) && (
                            (version is Some && call_ensures(F::version::<Comp>, (&fetches.5,), version))
                            || (call_ensures(F::version::<Comp>, (&fetches.5,), None) && (
                                (version is Some && call_ensures(G::version::<Comp>, (&fetches.6,), version))
                                || (call_ensures(G::version::<Comp>, (&fetches.6,), None) && (
                                    (version is Some && call_ensures(H::version::<Comp>, (&fetches.7,), version))
                                    || (call_ensures(H::version::<Comp>, (&fetches.7,), None) && (
                                        (version is Some && call_ensures(I::version::<Comp>, (&fetches.8,), version))
                                        || (call_ensures(I::version::<Comp>, (&fetches.8,), None) && (
                                            (version is Some && call_ensures(J::version::<Comp>, (&fetches.9,), version))
                                            || (call_ensures(J::version::<Comp>, (&fetches.9,), None) && (
                                                (version is Some && call_ensures(K::version::<Comp>, (&fetches.10,), version))
                                                || (call_ensures(K::version::<Comp>, (&fetches.10,), None) && (
                                                    (version is Some && call_ensures(L::version::<Comp>, (&fetches.11,), version))
                                                    || (call_ensures(L::version::<Comp>, (&fetches.11,), None) && (
                                                        (version is Some && call_ensures(M::version::<Comp>, (&fetches.12,), version))
                                                        || (call_ensures(M::version::<Comp>, (&fetches.12,), None) && (
                                                            call_ensures(N::version::<Comp>, (&fetches.13,), version))))))))))))))))))))))))))),
{
    let (a, b, c, d, e, f, g, h, i, j, k, l, m, n) = fetches;
    if let Some(version) = (A::version::<Comp>)(a) {
        return Some(version);
    }
    if let Some(version) = (B::version::<Comp>)(b) {
        return Some(version);
    }
    if let Some(version) = (C::version::<Comp>)(c) {
        return Some(version);
    }
    if let Some(version) = (D::version::<Comp>)(d) {
        return Some(version);
    }
    if let Some(version) = (E::version::<Comp>)(e) {
        return Some(version);
    }
    if let Some(version) = (F::version::<Comp>)(f) {
        return Some(version);
    }
    if let Some(version) = (G::version::<Comp>)(g) {
        return Some(version);
    }
    if let Some(version) = (H::version::<Comp>)(h) {
        return Some(version);
    }
    if let Some(version) = (I::version::<Comp>)(i) {
        return Some(version);
    }
    if let Some(version) = (J::version::<Comp>)(j) {
        return Some(version);
    }
    if let Some(version) = (K::version::<Comp>)(k) {
        return Some(version);
    }
    if let Some(version) = (L::version::<Comp>)(l) {
        return Some(version);
    }
    if let Some(version) = (M::version::<Comp>)(m) {
        return Some(version);
    }
    (N::version::<Comp>)(n)
}

// Tuples of 15 views.

impl<A: DefaultFilter, B: DefaultFilter, C: DefaultFilter, D: DefaultFilter, E: DefaultFilter, F: DefaultFilter, G: DefaultFilter, H: DefaultFilter, I: DefaultFilter, J: DefaultFilter, K: DefaultFilter, L: DefaultFilter, M: DefaultFilter, N: DefaultFilter, O: DefaultFilter> DefaultFilter for (A, B, C, D, E, F, G, H, I, J, K, L, M, N, O) {
    type Filter = (A::Filter, B::Filter, C::Filter, D::Filter, E::Filter, F::Filter, G::Filter, H::Filter, I::Filter, J::Filter, K::Filter, L::Filter, M::Filter, N::Filter, O::Filter);
}

impl<'a, A: View<'a> + 'a, B: View<'a> + 'a, C: View<'a> + 'a, D: View<'a> + 'a, E: View<'a> + 'a, F: View<'a> + 'a, G: View<'a> + 'a, H: View<'a> + 'a, I: View<'a> + 'a, J: View<'a> + 'a, K: View<'a> + 'a, L: View<'a> + 'a, M: View<'a> + 'a, N: View<'a> + 'a, O: View<'a> + 'a> View<'a> for (A, B, C, D, E, F, G, H, I, J, K, L, M, N, O) {
    type Element = <Self::Fetch as IntoIndexableIter>::Item;
    type Fetch = MultiFetch<'a, (A::Fetch, B::Fetch, C::Fetch, D::Fetch, E::Fetch, F::Fetch, G::Fetch, H::Fetch, I::Fetch, J::Fetch, K::Fetch, L::Fetch, M::Fetch, N::Fetch, O::Fetch)>;

    fn validate() -> (valid: bool)
        ensures
            exists|reads: Seq<Vec<ComponentTypeId>>, writes: Seq<Vec<ComponentTypeId>>|
                reads.len() == 15 && writes.len() == 15
                && call_ensures(A::reads_types, (), reads[0])
                && call_ensures(A::writes_types, (), writes[0])
                && call_ensures(B::reads_types, (), reads[1])
                && call_ensures(B::writes_types, (), writes[1])
                && call_ensures(C::reads_types, (), reads[2])
                && call_ensures(C::writes_types, (), writes[2])
                && call_ensures(D::reads_types, (), reads[3])
                && call_ensures(D::writes_types, (), writes[3])
                && call_ensures(E::reads_types, (), reads[4])
                && call_ensures(E::writes_types, (), writes[4])
                && call_ensures(F::reads_types, (), reads[5])
                && call_ensures(F::writes_types, (), writes[5])
                && call_ensures(G::reads_types, (), reads[6])
                && call_ensures(G::writes_types, (), writes[6])
                && call_ensures(H::reads_types, (), reads[7])
                && call_ensures(H::writes_types, (), writes[7])
                && call_ensures(I::reads_types, (), reads[8])
                && call_ensures(I::writes_types, (), writes[8])
                && call_ensures(J::reads_types, (), reads[9])
                && call_ensures(J::writes_types, (), writes[9])
                && call_ensures(K::reads_types, (), reads[10])
                && call_ensures(K::writes_types, (), writes[10])
                && call_ensures(L::reads_types, (), reads[11])
                && call_ensures(L::writes_types, (), writes[11])
                && call_ensures(M::reads_types, (), reads[12])
                && call_ensures(M::writes_types, (), writes[12])
                && call_ensures(N::reads_types, (), reads[13])
                && call_ensures(N::writes_types, (), writes[13])
                && call_ensures(O::reads_types, (), reads[14])
                && call_ensures(O::writes_types, (), writes[14])
                && valid == conflict_free(type_lists(reads), type_lists(writes)),
    {
        let reads = vec![(A::reads_types)(), (B::reads_types)(), (C::reads_types)(), (D::reads_types)(), (E::reads_types)(), (F::reads_types)(), (G::reads_types)(), (H::reads_types)(), (I::reads_types)(), (J::reads_types)(), (K::reads_types)(), (L::reads_types)(), (M::reads_types)(), (N::reads_types)(), (O::reads_types)()];
        let writes = vec![(A::writes_types)(), (B::writes_types)(), (C::writes_types)(), (D::writes_types)(), (E::writes_types)(), (F::writes_types)(), (G::writes_types)(), (H::writes_types)(), (I::writes_types)(), (J::writes_types)(), (K::writes_types)(), (L::writes_types)(), (M::writes_types)(), (N::writes_types)(), (O::writes_types)()];
        let valid = accesses_conflict_free(&reads, &writes);
        assert(
            reads@.len() == 15 && writes@.len() == 15
            && call_ensures(A::reads_types, (), reads@[0])
            && call_ensures(A::writes_types, (), writes@[0])
            && call_ensures(B::reads_types, (), reads@[1])
            && call_ensures(B::writes_types, (), writes@[1])
            && call_ensures(C::reads_types, (), reads@[2])
            && call_ensures(C::writes_types, (), writes@[2])
            && call_ensures(D::reads_types, (), reads@[3])
            && call_ensures(D::writes_types, (), writes@[3])
            && call_ensures(E::reads_types, (), reads@[4])
            && call_ensures(E::writes_types, (), writes@[4])
            && call_ensures(F::reads_types, (), reads@[5])
            && call_ensures(F::writes_types, (), writes@[5])
            && call_ensures(G::reads_types, (), reads@[6])
            && call_ensures(G::writes_types, (), writes@[6])
            && call_ensures(H::reads_types, (), reads@[7])
            && call_ensures(H::writes_types, (), writes@[7])
            && call_ensures(I::reads_types, (), reads@[8])
            && call_ensures(I::writes_types, (), writes@[8])
            && call_ensures(J::reads_types, (), reads@[9])
            && call_ensures(J::writes_types, (), writes@[9])
            && call_ensures(K::reads_types, (), reads@[10])
            && call_ensures(K::writes_types, (), writes@[10])
            && call_ensures(L::reads_types, (), reads@[11])
            && call_ensures(L::writes_types, (), writes@[11])
            && call_ensures(M::reads_types, (), reads@[12])
            && call_ensures(M::writes_types, (), writes@[12])
            && call_ensures(N::reads_types, (), reads@[13])
            && call_ensures(N::writes_types, (), writes@[13])
            && call_ensures(O::reads_types, (), reads@[14])
            && call_ensures(O::writes_types, (), writes@[14])
            && valid == conflict_free(type_lists(reads@), type_lists(writes@))
        );
        valid
    }

    fn reads_types() -> (types: Vec<ComponentTypeId>)
        ensures
            exists|lists: Seq<Vec<ComponentTypeId>>|
                lists.len() == 15
                && call_ensures(A::reads_types, (), lists[0])
                && call_ensures(B::reads_types, (), lists[1])
                && call_ensures(C::reads_types, (), lists[2])
                && call_ensures(D::reads_types, (), lists[3])
                && call_ensures(E::reads_types, (), lists[4])
                && call_ensures(F::reads_types, (), lists[5])
                && call_ensures(G::reads_types, (), lists[6])
                && call_ensures(H::reads_types, (), lists[7])
                && call_ensures(I::reads_types, (), lists[8])
                && call_ensures(J::reads_types, (), lists[9])
                && call_ensures(K::reads_types, (), lists[10])
                && call_ensures(L::reads_types, (), lists[11])
                && call_ensures(M::reads_types, (), lists[12])
                && call_ensures(N::reads_types, (), lists[13])
                && call_ensures(O::reads_types, (), lists[14])
                && types@ == type_lists(lists).flatten(),
    {
        let lists = vec![(A::reads_types)(), (B::reads_types)(), (C::reads_types)(), (D::reads_types)(), (E::reads_types)(), (F::reads_types)(), (G::reads_types)(), (H::reads_types)(), (I::reads_types)(), (J::reads_types)(), (K::reads_types)(), (L::reads_types)(), (M::reads_types)(), (N::reads_types)(), (O::reads_types)()];
        let ghost views = lists@;
        let types = concat_types(lists);
        assert(
            views.len() == 15
            && call_ensures(A::reads_types, (), views[0])
            && call_ensures(B::reads_types, (), views[1])
            && call_ensures(C::reads_types, (), views[2])
            && call_ensures(D::reads_types, (), views[3])
            && call_ensures(E::reads_types, (), views[4])
            && call_ensures(F::reads_types, (), views[5])
            && call_ensures(G::reads_types, (), views[6])
            && call_ensures(H::reads_types, (), views[7])
            && call_ensures(I::reads_types, (), views[8])
            && call_ensures(J::reads_types, (), views[9])
            && call_ensures(K::reads_types, (), views[10])
            && call_ensures(L::reads_types, (), views[11])
            && call_ensures(M::reads_types, (), views[12])
            && call_ensures(N::reads_types, (), views[13])
            && call_ensures(O::reads_types, (), views[14])
            && types@ == type_lists(views).flatten()
        );
        types
    }

    fn writes_types() -> (types: Vec<ComponentTypeId>)
        ensures
            exists|lists: Seq<Vec<ComponentTypeId>>|
                lists.len() == 15
                && call_ensures(A::writes_types, (), lists[0])
                && call_ensures(B::writes_types, (), lists[1])
                && call_ensures(C::writes_types, (), lists[2])
                && call_ensures(D::writes_types, (), lists[3])
                && call_ensures(E::writes_types, (), lists[4])
                && call_ensures(F::writes_types, (), lists[5])
                && call_ensures(G::writes_types, (), lists[6])
                && call_ensures(H::writes_types, (), lists[7])
                && call_ensures(I::writes_types, (), lists[8])
                && call_ensures(J::writes_types, (), lists[9])
                && call_ensures(K::writes_types, (), lists[10])
                && call_ensures(L::writes_types, (), lists[11])
                && call_ensures(M::writes_types, (), lists[12])
                && call_ensures(N::writes_types, (), lists[13])
                && call_ensures(O::writes_types, (), lists[14])
                && types@ == type_lists(lists).flatten(),
    {
        let lists = vec![(A::writes_types)(), (B::writes_types)(), (C::writes_types)(), (D::writes_types)(), (E::writes_types)(), (F::writes_types)(), (G::writes_types)(), (H::writes_types)(), (I::writes_types)(), (J::writes_types)(), (K::writes_types)(), (L::writes_types)(), (M::writes_types)(), (N::writes_types)(), (O::writes_types)()];
        let ghost views = lists@;
        let types = concat_types(lists);
        assert(
            views.len() == 15
            && call_ensures(A::writes_types, (), views[0])
            && call_ensures(B::writes_types, (), views[1])
            && call_ensures(C::writes_types, (), views[2])
            && call_ensures(D::writes_types, (), views[3])
            && call_ensures(E::writes_types, (), views[4])
            && call_ensures(F::writes_types, (), views[5])
            && call_ensures(G::writes_types, (), views[6])
            && call_ensures(H::writes_types, (), views[7])
            && call_ensures(I::writes_types, (), views[8])
            && call_ensures(J::writes_types, (), views[9])
            && call_ensures(K::writes_types, (), views[10])
            && call_ensures(L::writes_types, (), views[11])
            && call_ensures(M::writes_types, (), views[12])
            && call_ensures(N::writes_types, (), views[13])
            && call_ensures(O::writes_types, (), views[14])
            && types@ == type_lists(views).flatten()
        );
        types
    }

    fn reads<Comp: Component>() -> bool {
        tuple15_reads::<'a, A, B, C, D, E, F, G, H, I, J, K, L, M, N, O, Comp>()
    }

    fn writes<Comp: Component>() -> bool {
        tuple15_writes::<'a, A, B, C, D, E, F, G, H, I, J, K, L, M, N, O, Comp>()
    }
}

impl<'a, A: Fetch, B: Fetch, C: Fetch, D: Fetch, E: Fetch, F: Fetch, G: Fetch, H: Fetch, I: Fetch, J: Fetch, K: Fetch, L: Fetch, M: Fetch, N: Fetch, O: Fetch> IntoIndexableIter for MultiFetch<'a, (A, B, C, D, E, F, G, H, I, J, K, L, M, N, O)> {
    type Item = (A::Item, B::Item, C::Item, D::Item, E::Item, F::Item, G::Item, H::Item, I::Item, J::Item, K::Item, L::Item, M::Item, N::Item, O::Item);
    type IntoIter = (A::IntoIter, B::IntoIter, C::IntoIter, D::IntoIter, E::IntoIter, F::IntoIter, G::IntoIter, H::IntoIter, I::IntoIter, J::IntoIter, K::IntoIter, L::IntoIter, M::IntoIter, N::IntoIter, O::IntoIter);

    fn into_indexable_iter(self) -> (iter: Self::IntoIter)
        ensures
            call_ensures(A::into_indexable_iter, (self.fetches().0,), iter.0),
            call_ensures(B::into_indexable_iter, (self.fetches().1,), iter.1),
            call_ensures(C::into_indexable_iter, (self.fetches().2,), iter.2),
            call_ensures(D::into_indexable_iter, (self.fetches().3,), iter.3),
            call_ensures(E::into_indexable_iter, (self.fetches().4,), iter.4),
            call_ensures(F::into_indexable_iter, (self.fetches().5,), iter.5),
            call_ensures(G::into_indexable_iter, (self.fetches().6,), iter.6),
            call_ensures(H::into_indexable_iter, (self.fetches().7,), iter.7),
            call_ensures(I::into_indexable_iter, (self.fetches().8,), iter.8),
            call_ensures(J::into_indexable_iter, (self.fetches().9,), iter.9),
            call_ensures(K::into_indexable_iter, (self.fetches().10,), iter.10),
            call_ensures(L::into_indexable_iter, (self.fetches().11,), iter.11),
            call_ensures(M::into_indexable_iter, (self.fetches().12,), iter.12),
            call_ensures(N::into_indexable_iter, (self.fetches().13,), iter.13),
            call_ensures(O::into_indexable_iter, (self.fetches().14,), iter.14),
    {
        let (a, b, c, d, e, f, g, h, i, j, k, l, m, n, o) = self.fetches;
        ((A::into_indexable_iter)(a), (B::into_indexable_iter)(b), (C::into_indexable_iter)(c), (D::into_indexable_iter)(d), (E::into_indexable_iter)(e), (F::into_indexable_iter)(f), (G::into_indexable_iter)(g), (H::into_indexable_iter)(h), (I::into_indexable_iter)(i), (J::into_indexable_iter)(j), (K::into_indexable_iter)(k), (L::into_indexable_iter)(l), (M::into_indexable_iter)(m), (N::into_indexable_iter)(n), (O::into_indexable_iter)(o))
    }
}

impl<'a, A: Fetch, B: Fetch, C: Fetch, D: Fetch, E: Fetch, F: Fetch, G: Fetch, H: Fetch, I: Fetch, J: Fetch, K: Fetch, L: Fetch, M: Fetch, N: Fetch, O: Fetch> Fetch for MultiFetch<'a, (A, B, C, D, E, F, G, H, I, J, K, L, M, N, O)> {
    type Data = (A::Data, B::Data, C::Data, D::Data, E::Data, F::Data, G::Data, H::Data, I::Data, J::Data, K::Data, L::Data, M::Data, N::Data, O::Data);

    fn into_components(self) -> (data: Self::Data)
        ensures
            call_ensures(A::into_components, (self.fetches().0,), data.0),
            call_ensures(B::into_components, (self.fetches().1,), data.1),
            call_ensures(C::into_components, (self.fetches().2,), data.2),
            call_ensures(D::into_components, (self.fetches().3,), data.3),
            call_ensures(E::into_components, (self.fetches().4,), data.4),
            call_ensures(F::into_components, (self.fetches().5,), data.5),
            call_ensures(G::into_components, (self.fetches().6,), data.6),
            call_ensures(H::into_components, (self.fetches().7,), data.7),
            call_ensures(I::into_components, (self.fetches().8,), data.8),
            call_ensures(J::into_components, (self.fetches().9,), data.9),
            call_ensures(K::into_components, (self.fetches().10,), data.10),
            call_ensures(L::into_components, (self.fetches().11,), data.11),
            call_ensures(M::into_components, (self.fetches().12,), data.12),
            call_ensures(N::into_components, (self.fetches().13,), data.13),
            call_ensures(O::into_components, (self.fetches().14,), data.14),
    {
        let (a, b, c, d, e, f, g, h, i, j, k, l, m, n, o) = self.fetches;
        ((A::into_components)(a), (B::into_components)(b), (C::into_components)(c), (D::into_components)(d), (E::into_components)(e), (F::into_components)(f), (G::into_components)(g), (H::into_components)(h), (I::into_components)(i), (J::into_components)(j), (K::into_components)(k), (L::into_components)(l), (M::into_components)(m), (N::into_components)(n), (O::into_components)(o))
    }

    fn find<Comp: 'static>(&self) -> Option<&[Comp]> {
        tuple15_find::<A, B, C, D, E, F, G, H, I, J, K, L, M, N, O, Comp>(&self.fetches)
    }

    fn find_mut<Comp: 'static>(&mut self) -> Option<&mut [Comp]> {
        tuple15_find_mut::<A, B, C, D, E, F, G, H, I, J, K, L, M, N, O, Comp>(&mut self.fetches)
    }

    fn version<Comp: Component>(&self) -> Option<u64> {
        tuple15_version::<A, B, C, D, E, F, G, H, I, J, K, L, M, N, O, Comp>(&self.fetches)
    }

    fn accepted(&mut self)
        ensures
            exists|m: &mut A|
                *m == old(self).fetches().0 && *final(m) == final(self).fetches().0
                && call_ensures(A::accepted, (m,), ()),
            exists|m: &mut B|
                *m == old(self).fetches().1 && *final(m) == final(self).fetches().1
                && call_ensures(B::accepted, (m,), ()),
            exists|m: &mut C|
                *m == old(self).fetches().2 && *final(m) == final(self).fetches().2
                && call_ensures(C::accepted, (m,), ()),
            exists|m: &mut D|
                *m == old(self).fetches().3 && *final(m) == final(self).fetches().3
                && call_ensures(D::accepted, (m,), ()),
            exists|m: &mut E|
                *m == old(self).fetches().4 && *final(m) == final(self).fetches().4
                && call_ensures(E::accepted, (m,), ()),
            exists|m: &mut F|
                *m == old(self).fetches().5 && *final(m) == final(self).fetches().5
                && call_ensures(F::accepted, (m,), ()),
            exists|m: &mut G|
                *m == old(self).fetches().6 && *final(m) == final(self).fetches().6
                && call_ensures(G::accepted, (m,), ()),
            exists|m: &mut H|
                *m == old(self).fetches().7 && *final(m) == final(self).fetches().7
                && call_ensures(H::accepted, (m,), ()),
            exists|m: &mut I|
                *m == old(self).fetches().8 && *final(m) == final(self).fetches().8
                && call_ensures(I::accepted, (m,), ()),
            exists|m: &mut J|
                *m == old(self).fetches().9 && *final(m) == final(self).fetches().9
                && call_ensures(J::accepted, (m,), ()),
            exists|m: &mut K|
                *m == old(self).fetches().10 && *final(m) == final(self).fetches().10
                && call_ensures(K::accepted, (m,), ()),
            exists|m: &mut L|
                *m == old(self).fetches().11 && *final(m) == final(self).fetches().11
                && call_ensures(L::accepted, (m,), ()),
            exists|m: &mut M|
                *m == old(self).fetches().12 && *final(m) == final(self).fetches().12
                && call_ensures(M::accepted, (m,), ()),
            exists|m: &mut N|
                *m == old(self).fetches().13 && *final(m) == final(self).fetches().13
                && call_ensures(N::accepted, (m,), ()),
            exists|m: &mut O|
                *m == old(self).fetches().14 && *final(m) == final(self).fetches().14
                && call_ensures(O::accepted, (m,), ()),
    {
        let (a, b, c, d, e, f, g, h, i, j, k, l, m, n, o) = &mut self.fetches;
        (A::accepted)(a);
        (B::accepted)(b);
        (C::accepted)(c);
        (D::accepted)(d);
        (E::accepted)(e);
        (F::accepted)(f);
        (G::accepted)(g);
        (H::accepted)(h);
        (I::accepted)(i);
        (J::accepted)(j);
        (K::accepted)(k);
        (L::accepted)(l);
        (M::accepted)(m);
        (N::accepted)(n);
        (O::accepted)(o);
    }
}

impl<'a, A: ReadOnlyFetch, B: ReadOnlyFetch, C: ReadOnlyFetch, D: ReadOnlyFetch, E: ReadOnlyFetch, F: ReadOnlyFetch, G: ReadOnlyFetch, H: ReadOnlyFetch, I: ReadOnlyFetch, J: ReadOnlyFetch, K: ReadOnlyFetch, L: ReadOnlyFetch, M: ReadOnlyFetch, N: ReadOnlyFetch, O: ReadOnlyFetch> ReadOnlyFetch for MultiFetch<'a, (A, B, C, D, E, F, G, H, I, J, K, L, M, N, O)> {
    fn get_components(&self) -> (data: Self::Data)
        ensures
            call_ensures(A::get_components, (&self.fetches().0,), data.0),
            call_ensures(B::get_components, (&self.fetches().1,), data.1),
            call_ensures(C::get_components, (&self.fetches().2,), data.2),
            call_ensures(D::get_components, (&self.fetches().3,), data.3),
            call_ensures(E::get_components, (&self.fetches().4,), data.4),
            call_ensures(F::get_components, (&self.fetches().5,), data.5),
            call_ensures(G::get_components, (&self.fetches().6,), data.6),
            call_ensures(H::get_components, (&self.fetches().7,), data.7),
            call_ensures(I::get_components, (&self.fetches().8,), data.8),
            call_ensures(J::get_components, (&self.fetches().9,), data.9),
            call_ensures(K::get_components, (&self.fetches().10,), data.10),
            call_ensures(L::get_components, (&self.fetches().11,), data.11),
            call_ensures(M::get_components, (&self.fetches().12,), data.12),
            call_ensures(N::get_components, (&self.fetches().13,), data.13),
            call_ensures(O::get_components, (&self.fetches().14,), data.14),
    {
        let (a, b, c, d, e, f, g, h, i, j, k, l, m, n, o) = &self.fetches;
        ((A::get_components)(a), (B::get_components)(b), (C::get_components)(c), (D::get_components)(d), (E::get_components)(e), (F::get_components)(f), (G::get_components)(g), (H::get_components)(h), (I::get_components)(i), (J::get_components)(j), (K::get_components)(k), (L::get_components)(l), (M::get_components)(m), (N::get_components)(n), (O::get_components)(o))
    }
}

/// Whether some view of a tuple of 15 reads `Comp`, asking the views in order.
pub fn tuple15_reads<'a, A: View<'a> + 'a, B: View<'a> + 'a, C: View<'a> + 'a, D: View<'a> + 'a, E: View<'a> + 'a, F: View<'a> + 'a, G: View<'a> + 'a, H: View<'a> + 'a, I: View<'a> + 'a, J: View<'a> + 'a, K: View<'a> + 'a, L: View<'a> + 'a, M: View<'a> + 'a, N: View<'a> + 'a, O: View<'a> + 'a, Comp: Component>() -> (found: bool)
    ensures
        (found && call_ensures(A::reads::<Comp>, (), true))
        || (call_ensures(A::reads::<Comp>, (), false) && (
            (found && call_ensures(B::reads::<Comp>, (), true))
            || (call_ensures(B::reads::<Comp>, (), false) && (
                (found && call_ensures(C::reads::<Comp>, (), true))
                || (call_ensures(C::reads::<Comp>, (), false) && (
                    (found && call_ensures(D::reads::<Comp>, (), true))
                    || (call_ensures(D::reads::<Comp>, (), false) && (
                        (found && call_ensures(E::reads::<Comp>, (), true))
                        || (call_ensures(E::reads::<Comp>, (), false) && (
                            (found && call_ensures(F::reads::<Comp>, (), true))
                            || (call_ensures(F::reads::<Comp>, (), false) && (
                                (found && call_ensures(G::reads::<Comp>, (), true))
                                || (call_ensures(G::reads::<Comp>, (), false) && (
                                    (found && call_ensures(H::reads::<Comp>, (), true))
                                    || (call_ensures(H::reads::<Comp>, (), false) && (
                                        (found && call_ensures(I::reads::<Comp>, (), true))
                                        || (call_ensures(I::reads::<Comp>, (), false) && (
                                            (found && call_ensures(J::reads::<Comp>, (), true))
                                            || (call_ensures(J::reads::<Comp>, (), false) && (
                                                (found && call_ensures(K::reads::<Comp>, (), true))
                                                || (call_ensures(K::reads::<Comp>, (), false) && (
                                                    (found && call_ensures(L::reads::<Comp>, (), true))
                                                    || (call_ensures(L::reads::<Comp>, (), false) && (
                                                        (found && call_ensures(M::reads::<Comp>, (), true))
                                                        || (call_ensures(M::reads::<Comp>, (), false) && (
                                                            (found && call_ensures(N::reads::<Comp>, (), true))
                                                            || (call_ensures(N::reads::<Comp>, (), false) && (
                                                                call_ensures(O::reads::<Comp>, (), found))))))))))))))))))))))))))))),
{
    (A::reads::<Comp>)()
        || (B::reads::<Comp>)()
        || (C::reads::<Comp>)()
        || (D::reads::<Comp>)()
        || (E::reads::<Comp>)()
        || (F::reads::<Comp>)()
        || (G::reads::<Comp>)()
        || (H::reads::<Comp>)()
        || (I::reads::<Comp>)()
        || (J::reads::<Comp>)()
        || (K::reads::<Comp>)()
        || (L::reads::<Comp>)()
        || (M::reads::<Comp>)()
        || (N::reads::<Comp>)()
        || (O::reads::<Comp>)()
}

/// Whether some view of a tuple of 15 writes `Comp`, asking the views in order.
pub fn tuple15_writes<'a, A: View<'a> + 'a, B: View<'a> + 'a, C: View<'a> + 'a, D: View<'a> + 'a, E: View<'a> + 'a, F: View<'a> + 'a, G: View<'a> + 'a, H: View<'a> + 'a, I: View<'a> + 'a, J: View<'a> + 'a, K: View<'a> + 'a, L: View<'a> + 'a, M: View<'a> + 'a, N: View<'a> + 'a, O: View<'a> + 'a, Comp: Component>() -> (found: bool)
    ensures
        (found && call_ensures(A::writes::<Comp>, (), true))
        || (call_ensures(A::writes::<Comp>, (), false) && (
            (found && call_ensures(B::writes::<Comp>, (), true))
            || (call_ensures(B::writes::<Comp>, (), false) && (
                (found && call_ensures(C::writes::<Comp>, (), true))
                || (call_ensures(C::writes::<Comp>, (), false) && (
                    (found && call_ensures(D::writes::<Comp>, (), true))
                    || (call_ensures(D::writes::<Comp>, (), false) && (
                        (found && call_ensures(E::writes::<Comp>, (), true))
                        || (call_ensures(E::writes::<Comp>, (), false) && (
                            (found && call_ensures(F::writes::<Comp>, (), true))
                            || (call_ensures(F::writes::<Comp>, (), false) && (
                                (found && call_ensures(G::writes::<Comp>, (), true))
                                || (call_ensures(G::writes::<Comp>, (), false) && (
                                    (found && call_ensures(H::writes::<Comp>, (), true))
                                    || (call_ensures(H::writes::<Comp>, (), false) && (
                                        (found && call_ensures(I::writes::<Comp>, (), true))
                                        || (call_ensures(I::writes::<Comp>, (), false) && (
                                            (found && call_ensures(J::writes::<Comp>, (), true))
                                            || (call_ensures(J::writes::<Comp>, (), false) && (
                                                (found && call_ensures(K::writes::<Comp>, (), true))
                                                || (call_ensures(K::writes::<Comp>, (), false) && (
                                                    (found && call_ensures(L::writes::<Comp>, (), true))
                                                    || (call_ensures(L::writes::<Comp>, (), false) && (
                                                        (found && call_ensures(M::writes::<Comp>, (), true))
                                                        || (call_ensures(M::writes::<Comp>, (), false) && (
                                                            (found && call_ensures(N::writes::<Comp>, (), true))
                                                            || (call_ensures(N::writes::<Comp>, (), false) && (
                                                                call_ensures(O::writes::<Comp>, (), found))))))))))))))))))))))))))))),
{
    (A::writes::<Comp>)()
        || (B::writes::<Comp>)()
        || (C::writes::<Comp>)()
        || (D::writes::<Comp>)()
        || (E::writes::<Comp>)()
        || (F::writes::<Comp>)()
        || (G::writes::<Comp>)()
        || (H::writes::<Comp>)()
        || (I::writes::<Comp>)()
        || (J::writes::<Comp>)()
        || (K::writes::<Comp>)()
        || (L::writes::<Comp>)()
        || (M::writes::<Comp>)()
        || (N::writes::<Comp>)()
        || (O::writes::<Comp>)()
}

/// The slice of the first fetch of a tuple of 15 that holds `Comp`.
pub fn tuple15_find<'f, A: Fetch, B: Fetch, C: Fetch, D: Fetch, E: Fetch, F: Fetch, G: Fetch, H: Fetch, I: Fetch, J: Fetch, K: Fetch, L: Fetch, M: Fetch, N: Fetch, O: Fetch, Comp: 'static>(fetches: &'f (A, B, C, D, E, F, G, H, I, J, K, L, M, N, O)) -> (found: Option<&'f [Comp]>)
    ensures
        (found is Some && call_ensures(A::find::<Comp>, (&fetches.0,), found))
        || (call_ensures(A::find::<Comp>, (&fetches.0,), None) && (
            (found is Some && call_ensures(B::find::<Comp>, (&fetches.1,), found))
            || (call_ensures(B::find::<Comp>, (&fetches.1,), None) && (
                (found is Some && call_ensures(C::find::<Comp>, (&fetches.2,), found))
                || (call_ensures(C::find::<Comp>, (&fetches.2,), None) && (
                    (found is Some && call_ensures(D::find::<Comp>, (&fetches.3,), found))
                    || (call_ensures(D::find::<Comp>, (&fetches.3,), None) && (
                        (found is Some && call_ensures(E::find::<Comp>, (&fetches.4,), found))
                        || (call_ensures(E::find::<Comp>, (&fetches.4,), None) && (
                            (found is Some && call_ensures(F::find::<Comp>, (&fetches.5,), found))
                            || (call_ensures(F::find::<Comp>, (&fetches.5,), None) && (
                                (found is Some && call_ensures(G::find::<Comp>, (&fetches.6,), found))
                                || (call_ensures(G::find::<Comp>, (&fetches.6,), None) && (
                                    (found is Some && call_ensures(H::find::<Comp>, (&fetches.7,), found))
                                    || (call_ensures(H::find::<Comp>, (&fetches.7,), None) && (
                                        (found is Some && call_ensures(I::find::<Comp>, (&fetches.8,), found))
                                        || (call_ensures(I::find::<Comp>, (&fetches.8,), None) && (
                                            (found is Some && call_ensures(J::find::<Comp>, (&fetches.9,), found))
                                            || (call_ensures(J::find::<Comp>, (&fetches.9,), None) && (
                                                (found is Some && call_ensures(K::find::<Comp>, (&fetches.10,), found))
                                                || (call_ensures(K::find::<Comp>, (&fetches.10,), None) && (
                                                    (found is Some && call_ensures(L::find::<Comp>, (&fetches.11,), found))
                                                    || (call_ensures(L::find::<Comp>, (&fetches.11,), None) && (
                                                        (found is Some && call_ensures(M::find::<Comp>, (&fetches.12,), found))
                                                        || (call_ensures(M::find::<Comp>, (&fetches.12,), None) && (
                                                            (found is Some && call_ensures(N::find::<Comp>, (&fetches.13,), found))
                                                            || (call_ensures(N::find::<Comp>, (&fetches.13,), None) && (
                                                                call_ensures(O::find::<Comp>, (&fetches.14,), found))))))))))))))))))))))))))))),
{
    let (a, b, c, d, e, f, g, h, i, j, k, l, m, n, o) = fetches;
    if let Some(slice) = (A::find::<Comp>)(a) {
        return Some(slice);
    }
    if let Some(slice) = (B::find::<Comp>)(b) {
        return Some(slice);
    }
    if let Some(slice) = (C::find::<Comp>)(c) {
        return Some(slice);
    }
    if let Some(slice) = (D::find::<Comp>)(d) {
        return Some(slice);
    }
    if let Some(slice) = (E::find::<Comp>)(e) {
        return Some(slice);
    }
    if let Some(slice) = (F::find::<Comp>)(f) {
        return Some(slice);
    }
    if let Some(slice) = (G::find::<Comp>)(g) {
        return Some(slice);
    }
    if let Some(slice) = (H::find::<Comp>)(h) {
        return Some(slice);
    }
    if let Some(slice) = (I::find::<Comp>)(i) {
        return Some(slice);
    }
    if let Some(slice) = (J::find::<Comp>)(j) {
        return Some(slice);
    }
    if let Some(slice) = (K::find::<Comp>)(k) {
        return Some(slice);
    }
    if let Some(slice) = (L::find::<Comp>)(l) {
        return Some(slice);
    }
    if let Some(slice) = (M::find::<Comp>)(m) {
        return Some(slice);
    }
    if let Some(slice) = (N::find::<Comp>)(n) {
        return Some(slice);
    }
    (O::find::<Comp>)(o)
}

/// The mutable slice of the first fetch of a tuple of 15 that holds `Comp`.
pub fn tuple15_find_mut<'f, A: Fetch, B: Fetch, C: Fetch, D: Fetch, E: Fetch, F: Fetch, G: Fetch, H: Fetch, I: Fetch, J: Fetch, K: Fetch, L: Fetch, M: Fetch, N: Fetch, O: Fetch, Comp: 'static>(fetches: &'f mut (A, B, C, D, E, F, G, H, I, J, K, L, M, N, O)) -> (found: Option<&'f mut [Comp]>)
    ensures
        exists|m: &mut A|
            *m == old(fetches).0
            && *final(m) == final(fetches).0
            && ((found is Some && call_ensures(A::find_mut::<Comp>, (m,), found) && final(fetches).1 == old(fetches).1 && final(fetches).2 == old(fetches).2 && final(fetches).3 == old(fetches).3 && final(fetches).4 == old(fetches).4 && final(fetches).5 == old(fetches).5 && final(fetches).6 == old(fetches).6 && final(fetches).7 == old(fetches).7 && final(fetches).8 == old(fetches).8 && final(fetches).9 == old(fetches).9 && final(fetches).10 == old(fetches).10 && final(fetches).11 == old(fetches).11 && final(fetches).12 == old(fetches).12 && final(fetches).13 == old(fetches).13 && final(fetches).14 == old(fetches).14)
            || (call_ensures(A::find_mut::<Comp>, (m,), None) && (
                exists|m: &mut B|
                    *m == old(fetches).1
                    && *final(m) == final(fetches).1
                    && ((found is Some && call_ensures(B::find_mut::<Comp>, (m,), found) && final(fetches).2 == old(fetches).2 && final(fetches).3 == old(fetches).3 && final(fetches).4 == old(fetches).4 && final(fetches).5 == old(fetches).5 && final(fetches).6 == old(fetches).6 && final(fetches).7 == old(fetches).7 && final(fetches).8 == old(fetches).8 && final(fetches).9 == old(fetches).9 && final(fetches).10 == old(fetches).10 && final(fetches).11 == old(fetches).11 && final(fetches).12 == old(fetches).12 && final(fetches).13 == old(fetches).13 && final(fetches).14 == old(fetches).14)
                    || (call_ensures(B::find_mut::<Comp>, (m,), None) && (
                        exists|m: &mut C|
                            *m == old(fetches).2
                            && *final(m) == final(fetches).2
                            && ((found is Some && call_ensures(C::find_mut::<Comp>, (m,), found) && final(fetches).3 == old(fetches).3 && final(fetches).4 == old(fetches).4 && final(fetches).5 == old(fetches).5 && final(fetches).6 == old(fetches).6 && final(fetches).7 == old(fetches).7 && final(fetches).8 == old(fetches).8 && final(fetches).9 == old(fetches).9 && final(fetches).10 == old(fetches).10 && final(fetches).11 == old(fetches).11 && final(fetches).12 == old(fetches).12 && final(fetches).13 == old(fetches).13 && final(fetches).14 == old(fetches).14)
                            || (call_ensures(C::find_mut::<Comp>, (m,), None) && (
                                exists|m: &mut D|
                                    *m == old(fetches).3
                                    && *final(m) == final(fetches).3
                                    && ((found is Some && call_ensures(D::find_mut::<Comp>, (m,), found) && final(fetches).4 == old(fetches).4 && final(fetches).5 == old(fetches).5 && final(fetches).6 == old(fetches).6 && final(fetches).7 == old(fetches).7 && final(fetches).8 == old(fetches).8 && final(fetches).9 == old(fetches).9 && final(fetches).10 == old(fetches).10 && final(fetches).11 == old(fetches).11 && final(fetches).12 == old(fetches).12 && final(fetches).13 == old(fetches).13 && final(fetches).14 == old(fetches).14)
                                    || (call_ensures(D::find_mut::<Comp>, (m,), None) && (
                                        exists|m: &mut E|
                                            *m == old(fetches).4
                                            && *final(m) == final(fetches).4
                                            && ((found is Some && call_ensures(E::find_mut::<Comp>, (m,), found) && final(fetches).5 == old(fetches).5 && final(fetches).6 == old(fetches).6 && final(fetches).7 == old(fetches).7 && final(fetches).8 == old(fetches).8 && final(fetches).9 == old(fetches).9 && final(fetches).10 == old(fetches).10 && final(fetches).11 == old(fetches).11 && final(fetches).12 == old(fetches).12 && final(fetches).13 == old(fetches).13 && final(fetches).14 == old(fetches).14)
                                            || (call_ensures(E::find_mut::<Comp>, (m,), None) && (
                                                exists|m: &mut F|
                                                    *m == old(fetches).5
                                                    && *final(m) == final(fetches).5
                                                    && ((found is Some && call_ensures(F::find_mut::<Comp>, (m,), found) && final(fetches).6 == old(fetches).6 && final(fetches).7 == old(fetches).7 && final(fetches).8 == old(fetches).8 && final(fetches).9 == old(fetches).9 && final(fetches).10 == old(fetches).10 && final(fetches).11 == old(fetches).11 && final(fetches).12 == old(fetches).12 && final(fetches).13 == old(fetches).13 && final(fetches).14 == old(fetches).14)
                                                    || (call_ensures(F::find_mut::<Comp>, (m,), None) && (
                                                        exists|m: &mut G|
                                                            *m == old(fetches).6
                                                            && *final(m) == final(fetches).6
                                                            && ((found is Some && call_ensures(G::find_mut::<Comp>, (m,), found) && final(fetches).7 == old(fetches).7 && final(fetches).8 == old(fetches).8 && final(fetches).9 == old(fetches).9 && final(fetches).10 == old(fetches).10 && final(fetches).11 == old(fetches).11 && final(fetches).12 == old(fetches).12 && final(fetches).13 == old(fetches).13 && final(fetches).14 == old(fetches).14)
                                                            || (call_ensures(G::find_mut::<Comp>, (m,), None) && (
                                                                exists|m: &mut H|
                                                                    *m == old(fetches).7
                                                                    && *final(m) == final(fetches).7
                                                                    && ((found is Some && call_ensures(H::find_mut::<Comp>, (m,), found) && final(fetches).8 == old(fetches).8 && final(fetches).9 == old(fetches).9 && final(fetches).10 == old(fetches).10 && final(fetches).11 == old(fetches).11 && final(fetches).12 == old(fetches).12 && final(fetches).13 == old(fetches).13 && final(fetches).14 == old(fetches).14)
                                                                    || (call_ensures(H::find_mut::<Comp>, (m,), None) && (
                                                                        exists|m: &mut I|
                                                                            *m == old(fetches).8
                                                                            && *final(m) == final(fetches).8
                                                                            && ((found is Some && call_ensures(I::find_mut::<Comp>, (m,), found) && final(fetches).9 == old(fetches).9 && final(fetches).10 == old(fetches).10 && final(fetches).11 == old(fetches).11 && final(fetches).12 == old(fetches).12 && final(fetches).13 == old(fetches).13 && final(fetches).14 == old(fetches).14)
                                                                            || (call_ensures(I::find_mut::<Comp>, (m,), None) && (
                                                                                exists|m: &mut J|
                                                                                    *m == old(fetches).9
                                                                                    && *final(m) == final(fetches).9
                                                                                    && ((found is Some && call_ensures(J::find_mut::<Comp>, (m,), found) && final(fetches).10 == old(fetches).10 && final(fetches).11 == old(fetches).11 && final(fetches).12 == old(fetches).12 && final(fetches).13 == old(fetches).13 && final(fetches).14 == old(fetches).14)
                                                                                    || (call_ensures(J::find_mut::<Comp>, (m,), None) && (
                                                                                        exists|m: &mut K|
                                                                                            *m == old(fetches).10
                                                                                            && *final(m) == final(fetches).10
                                                                                            && ((found is Some && call_ensures(K::find_mut::<Comp>, (m,), found) && final(fetches).11 == old(fetches).11 && final(fetches).12 == old(fetches).12 && final(fetches).13 == old(fetches).13 && final(fetches).14 == old(fetches).14)
                                                                                            || (call_ensures(K::find_mut::<Comp>, (m,), None) && (
                                                                                                exists|m: &mut L|
                                                                                                    *m == old(fetches).11
                                                                                                    && *final(m) == final(fetches).11
                                                                                                    && ((found is Some && call_ensures(L::find_mut::<Comp>, (m,), found) && final(fetches).12 == old(fetches).12 && final(fetches).13 == old(fetches).13 && final(fetches).14 == old(fetches).14)
                                                                                                    || (call_ensures(L::find_mut::<Comp>, (m,), None) && (
                                                                                                        exists|m: &mut M|
                                                                                                            *m == old(fetches).12
                                                                                                            && *final(m) == final(fetches).12
                                                                                                            && ((found is Some && call_ensures(M::find_mut::<Comp>, (m,), found) && final(fetches).13 == old(fetches).13 && final(fetches).14 == old(fetches).14)
                                                                                                            || (call_ensures(M::find_mut::<Comp>, (m,), None) && (
                                                                                                                exists|m: &mut N|
                                                                                                                    *m == old(fetches).13
                                                                                                                    && *final(m) == final(fetches).13
                                                                                                                    && ((found is Some && call_ensures(N::find_mut::<Comp>, (m,), found) && final(fetches).14 == old(fetches).14)
                                                                                                                    || (call_ensures(N::find_mut::<Comp>, (m,), None) && (
                                                                                                                        exists|m: &mut O|
                                                                                                                            *m == old(fetches).14
                                                                                                                            && *final(m) == final(fetches).14
                                                                                                                            && call_ensures(O::find_mut::<Comp>, (m,), found))))))))))))))))))))))))))))))))))))))))))),
{
    let found = (A::find_mut::<Comp>)(&mut fetches.0);
    if found.is_some() {
        return found;
    }
    let found = (B::find_mut::<Comp>)(&mut fetches.1);
    if found.is_some() {
        return found;
    }
    let found = (C::find_mut::<Comp>)(&mut fetches.2);
    if found.is_some() {
        return found;
    }
    let found = (D::find_mut::<Comp>)(&mut fetches.3);
    if found.is_some() {
        return found;
    }
    let found = (E::find_mut::<Comp>)(&mut fetches.4);
    if found.is_some() {
        return found;
    }
    let found = (F::find_mut::<Comp>)(&mut fetches.5);
    if found.is_some() {
        return found;
    }
    let found = (G::find_mut::<Comp>)(&mut fetches.6);
    if found.is_some() {
        return found;
    }
    let found = (H::find_mut::<Comp>)(&mut fetches.7);
    if found.is_some() {
        return found;
    }
    let found = (I::find_mut::<Comp>)(&mut fetches.8);
    if found.is_some() {
        return found;
    }
    let found = (J::find_mut::<Comp>)(&mut fetches.9);
    if found.is_some() {
        return found;
    }
    let found = (K::find_mut::<Comp>)(&mut fetches.10);
    if found.is_some() {
        return found;
    }
    let found = (L::find_mut::<Comp>)(&mut fetches.11);
    if found.is_some() {
        return found;
    }
    let found = (M::find_mut::<Comp>)(&mut fetches.12);
    if found.is_some() {
        return found;
    }
    let found = (N::find_mut::<Comp>)(&mut fetches.13);
    if found.is_some() {
        return found;
    }
    (O::find_mut::<Comp>)(&mut fetches.14)
}

/// The version of `Comp` in the first fetch of a tuple of 15 that holds it.
pub fn tuple15_version<A: Fetch, B: Fetch, C: Fetch, D: Fetch, E: Fetch, F: Fetch, G: Fetch, H: Fetch, I: Fetch, J: Fetch, K: Fetch, L: Fetch, M: Fetch, N: Fetch, O: Fetch, Comp: Component>(fetches: &(A, B, C, D, E, F, G, H, I, J, K, L, M, N, O)) -> (version: Option<u64>)
    ensures
        (version is Some && call_ensures(A::version::<Comp>, (&fetches.0,), version))
        || (call_ensures(A::version::<Comp>, (&fetches.0,), None) && (
            (version is Some && call_ensures(B::version::<Comp>, (&fetches.1,), version))
            || (call_ensures(B::version::<Comp>, (&fetches.1,), None) && (
                (version is Some && call_ensures(C::version::<Comp>, (&fetches.2,), version))
                || (call_ensures(C::version::<Comp>, (&fetches.2,), None) && (
                    (version is Some && call_ensures(D::version::<Comp>, (&fetches.3,), version))
                    || (call_ensures(D::version::<Comp>, (&fetches.3,), None) && (
                        (version is Some && call_ensures(E::version::<Comp>, (&fetches.4,), version))
                        || (call_ensures(E::version::<Comp>, (&fetches.4,), None) && (
                            (version is Some && call_ensures(F::version::<Comp>, (&fetches.5,), version))
                            || (call_ensures(F::version::<Comp>, (&fetches.5,), None) && (
                                (version is Some && call_ensures(G::version::<Comp>, (&fetches.6,), version))
                                || (call_ensures(G::version::<Comp>, (&fetches.6,), None) && (
                                    (version is Some && call_ensures(H::version::<Comp>, (&fetches.7,), version))
                                    || (call_ensures(H::version::<Comp>, (&fetches.7,), None) && (
                                        (version is Some && call_ensures(I::version::<Comp>, (&fetches.8,), version))
                                        || (call_ensures(I::version::<Comp>, (&fetches.8,), None) && (
                                            (version is Some && call_ensures(J::version::<Comp>, (&fetches.9,), version))
                                            || (call_ensures(J::version::<Comp>, (&fetches.9,), None) && (
                                                (version is Some && call_ensures(K::version::<Comp>, (&fetches.10,), version))
                                                || (call_ensures(K::version::<Comp>, (&fetches.10,), None) && (
                                                    (version is Some && call_ensures(L::version::<Comp>, (&fetches.11,), version))
                                                    || (call_ensures(L::version::<Comp>, (&fetches.11,), None) && (
                                                        (version is Some && call_ensures(M::version::<Comp>, (&fetches.12,), version))
                                                        || (call_ensures(M::version::<Comp>, (&fetches.12,), None) && (
                                                            (version is Some && call_ensures(N::version::<Comp>, (&fetches.13,), version))
                                                            || (call_ensures(N::version::<Comp>, (&fetches.13,), None) && (
                                                                call_ensures(O::version::<Comp>, (&fetches.14,), version))))))))))))))))))))))))))))),
{
    let (a, b, c, d, e, f, g, h, i, j, k, l, m, n, o) = fetches;
    if let Some(version) = (A::version::<Comp>)(a) {
        return Some(version);
    }
    if let Some(version) = (B::version::<Comp>)(b) {
        return Some(version);
    }
    if let Some(version) = (C::version::<Comp>)(c) {
        return Some(version);
    }
    if let Some(version) = (D::version::<Comp>)(d) {
        return Some(version);
    }
    if let Some(version) = (E::version::<Comp>)(e) {
        return Some(version);
    }
    if let Some(version) = (F::version::<Comp>)(f) {
        return Some(version);
    }
    if let Some(version) = (G::version::<Comp>)(g) {
        return Some(version);
    }
    if let Some(version) = (H::version::<Comp>)(h) {
        return Some(version);
    }
    if let Some(version) = (I::version::<Comp>)(i) {
        return Some(version);
    }
    if let Some(version) = (J::version::<Comp>)(j) {
        return Some(version);
    }
    if let Some(version) = (K::version::<Comp>)(k) {
        return Some(version);
    }
    if let Some(version) = (L::version::<Comp>)(l) {
        return Some(version);
    }
    if let Some(version) = (M::version::<Comp>)(m) {
        return Some(version);
    }
    if let Some(version) = (N::version::<Comp>)(n) {
        return Some(version);
    }
    (O::version::<Comp>)(o)
}

// Tuples of 16 views.

impl<A: DefaultFilter, B: DefaultFilter, C: DefaultFilter, D: DefaultFilter, E: DefaultFilter, F: DefaultFilter, G: DefaultFilter, H: DefaultFilter, I: DefaultFilter, J: DefaultFilter, K: DefaultFilter, L: DefaultFilter, M: DefaultFilter, N: DefaultFilter, O: DefaultFilter, P: DefaultFilter> DefaultFilter for (A, B, C, D, E, F, G, H, I, J, K, L, M, N, O, P) {
    type Filter = (A::Filter, B::Filter, C::Filter, D::Filter, E::Filter, F::Filter, G::Filter, H::Filter, I::Filter, J::Filter, K::Filter, L::Filter, M::Filter, N::Filter, O::Filter, P::Filter);
}

impl<'a, A: View<'a> + 'a, B: View<'a> + 'a, C: View<'a> + 'a, D: View<'a> + 'a, E: View<'a> + 'a, F: View<'a> + 'a, G: View<'a> + 'a, H: View<'a> + 'a, I: View<'a> + 'a, J: View<'a> + 'a, K: View<'a> + 'a, L: View<'a> + 'a, M: View<'a> + 'a, N: View<'a> + 'a, O: View<'a> + 'a, P: View<'a> + 'a> View<'a> for (A, B, C, D, E, F, G, H, I, J, K, L, M, N, O, P) {
    type Element = <Self::Fetch as IntoIndexableIter>::Item;
    type Fetch = MultiFetch<'a, (A::Fetch, B::Fetch, C::Fetch, D::Fetch, E::Fetch, F::Fetch, G::Fetch, H::Fetch, I::Fetch, J::Fetch, K::Fetch, L::Fetch, M::Fetch, N::Fetch, O::Fetch, P::Fetch)>;

    fn validate() -> (valid: bool)
        ensures
            exists|reads: Seq<Vec<ComponentTypeId>>, writes: Seq<Vec<ComponentTypeId>>|
                reads.len() == 16 && writes.len() == 16
                && call_ensures(A::reads_types, (), reads[0])
                && call_ensures(A::writes_types, (), writes[0])
                && call_ensures(B::reads_types, (), reads[1])
                && call_ensures(B::writes_types, (), writes[1])
                && call_ensures(C::reads_types, (), reads[2])
                && call_ensures(C::writes_types, (), writes[2])
                && call_ensures(D::reads_types, (), reads[3])
                && call_ensures(D::writes_types, (), writes[3])
                && call_ensures(E::reads_types, (), reads[4])
                && call_ensures(E::writes_types, (), writes[4])
                && call_ensures(F::reads_types, (), reads[5])
                && call_ensures(F::writes_types, (), writes[5])
                && call_ensures(G::reads_types, (), reads[6])
                && call_ensures(G::writes_types, (), writes[6])
                && call_ensures(H::reads_types, (), reads[7])
                && call_ensures(H::writes_types, (), writes[7])
                && call_ensures(I::reads_types, (), reads[8])
                && call_ensures(I::writes_types, (), writes[8])
                && call_ensures(J::reads_types, (), reads[9])
                && call_ensures(J::writes_types, (), writes[9])
                && call_ensures(K::reads_types, (), reads[10])
                && call_ensures(K::writes_types, (), writes[10])
                && call_ensures(L::reads_types, (), reads[11])
                && call_ensures(L::writes_types, (), writes[11])
                && call_ensures(M::reads_types, (), reads[12])
                && call_ensures(M::writes_types, (), writes[12])
                && call_ensures(N::reads_types, (), reads[13])
                && call_ensures(N::writes_types, (), writes[13])
                && call_ensures(O::reads_types, (), reads[14])
                && call_ensures(O::writes_types, (), writes[14])
                && call_ensures(P::reads_types, (), reads[15])
                && call_ensures(P::writes_types, (), writes[15])
                && valid == conflict_free(type_lists(reads), type_lists(writes)),
    {
        let reads = vec![(A::reads_types)(), (B::reads_types)(), (C::reads_types)(), (D::reads_types)(), (E::reads_types)(), (F::reads_types)(), (G::reads_types)(), (H::reads_types)(), (I::reads_types)(), (J::reads_types)(), (K::reads_types)(), (L::reads_types)(), (M::reads_types)(), (N::reads_types)(), (O::reads_types)(), (P::reads_types)()];
        let writes = vec![(A::writes_types)(), (B::writes_types)(), (C::writes_types)(), (D::writes_types)(), (E::writes_types)(), (F::writes_types)(), (G::writes_types)(), (H::writes_types)(), (I::writes_types)(), (J::writes_types)(), (K::writes_types)(), (L::writes_types)(), (M::writes_types)(), (N::writes_types)(), (O::writes_types)(), (P::writes_types)()];
        let valid = accesses_conflict_free(&reads, &writes);
        assert(
            reads@.len() == 16 && writes@.len() == 16
            && call_ensures(A::reads_types, (), reads@[0])
            && call_ensures(A::writes_types, (), writes@[0])
            && call_ensures(B::reads_types, (), reads@[1])
            && call_ensures(B::writes_types, (), writes@[1])
            && call_ensures(C::reads_types, (), reads@[2])
            && call_ensures(C::writes_types, (), writes@[2])
            && call_ensures(D::reads_types, (), reads@[3])
            && call_ensures(D::writes_types, (), writes@[3])
            && call_ensures(E::reads_types, (), reads@[4])
            && call_ensures(E::writes_types, (), writes@[4])
            && call_ensures(F::reads_types, (), reads@[5])
            && call_ensures(F::writes_types, (), writes@[5])
            && call_ensures(G::reads_types, (), reads@[6])
            && call_ensures(G::writes_types, (), writes@[6])
            && call_ensures(H::reads_types, (), reads@[7])
            && call_ensures(H::writes_types, (), writes@[7])
            && call_ensures(I::reads_types, (), reads@[8])
            && call_ensures(I::writes_types, (), writes@[8])
            && call_ensures(J::reads_types, (), reads@[9])
            && call_ensures(J::writes_types, (), writes@[9])
            && call_ensures(K::reads_types, (), reads@[10])
            && call_ensures(K::writes_types, (), writes@[10])
            && call_ensures(L::reads_types, (), reads@[11])
            && call_ensures(L::writes_types, (), writes@[11])
            && call_ensures(M::reads_types, (), reads@[12])
            && call_ensures(M::writes_types, (), writes@[12])
            && call_ensures(N::reads_types, (), reads@[13])
            && call_ensures(N::writes_types, (), writes@[13])
            && call_ensures(O::reads_types, (), reads@[14])
            && call_ensures(O::writes_types, (), writes@[14])
            && call_ensures(P::reads_types, (), reads@[15])
            && call_ensures(P::writes_types, (), writes@[15])
            && valid == conflict_free(type_lists(reads@), type_lists(writes@))
        );
        valid
    }

    fn reads_types() -> (types: Vec<ComponentTypeId>)
        ensures
            exists|lists: Seq<Vec<ComponentTypeId>>|
                lists.len() == 16
                && call_ensures(A::reads_types, (), lists[0])
                && call_ensures(B::reads_types, (), lists[1])
                && call_ensures(C::reads_types, (), lists[2])
                && call_ensures(D::reads_types, (), lists[3])
                && call_ensures(E::reads_types, (), lists[4])
                && call_ensures(F::reads_types, (), lists[5])
                && call_ensures(G::reads_types, (), lists[6])
                && call_ensures(H::reads_types, (), lists[7])
                && call_ensures(I::reads_types, (), lists[8])
                && call_ensures(J::reads_types, (), lists[9])
                && call_ensures(K::reads_types, (), lists[10])
                && call_ensures(L::reads_types, (), lists[11])
                && call_ensures(M::reads_types, (), lists[12])
                && call_ensures(N::reads_types, (), lists[13])
                && call_ensures(O::reads_types, (), lists[14])
                && call_ensures(P::reads_types, (), lists[15])
                && types@ == type_lists(lists).flatten(),
    {
        let lists = vec![(A::reads_types)(), (B::reads_types)(), (C::reads_types)(), (D::reads_types)(), (E::reads_types)(), (F::reads_types)(), (G::reads_types)(), (H::reads_types)(), (I::reads_types)(), (J::reads_types)(), (K::reads_types)(), (L::reads_types)(), (M::reads_types)(), (N::reads_types)(), (O::reads_types)(), (P::reads_types)()];
        let ghost views = lists@;
        let types = concat_types(lists);
        assert(
            views.len() == 16
            && call_ensures(A::reads_types, (), views[0])
            && call_ensures(B::reads_types, (), views[1])
            && call_ensures(C::reads_types, (), views[2])
            && call_ensures(D::reads_types, (), views[3])
            && call_ensures(E::reads_types, (), views[4])
            && call_ensures(F::reads_types, (), views[5])
            && call_ensures(G::reads_types, (), views[6])
            && call_ensures(H::reads_types, (), views[7])
            && call_ensures(I::reads_types, (), views[8])
            && call_ensures(J::reads_types, (), views[9])
            && call_ensures(K::reads_types, (), views[10])
            && call_ensures(L::reads_types, (), views[11])
            && call_ensures(M::reads_types, (), views[12])
            && call_ensures(N::reads_types, (), views[13])
            && call_ensures(O::reads_types, (), views[14])
            && call_ensures(P::reads_types, (), views[15])
            && types@ == type_lists(views).flatten()
        );
        types
    }

    fn writes_types() -> (types: Vec<ComponentTypeId>)
        ensures
            exists|lists: Seq<Vec<ComponentTypeId>>|
                lists.len() == 16
                && call_ensures(A::writes_types, (), lists[0])
                && call_ensures(B::writes_types, (), lists[1])
                && call_ensures(C::writes_types, (), lists[2])
                && call_ensures(D::writes_types, (), lists[3])
                && call_ensures(E::writes_types, (), lists[4])
                && call_ensures(F::writes_types, (), lists[5])
                && call_ensures(G::writes_types, (), lists[6])
                && call_ensures(H::writes_types, (), lists[7])
                && call_ensures(I::writes_types, (), lists[8])
                && call_ensures(J::writes_types, (), lists[9])
                && call_ensures(K::writes_types, (), lists[10])
                && call_ensures(L::writes_types, (), lists[11])
                && call_ensures(M::writes_types, (), lists[12])
                && call_ensures(N::writes_types, (), lists[13])
                && call_ensures(O::writes_types, (), lists[14])
                && call_ensures(P::writes_types, (), lists[15])
                && types@ == type_lists(lists).flatten(),
    {
        let lists = vec![(A::writes_types)(), (B::writes_types)(), (C::writes_types)(), (D::writes_types)(), (E::writes_types)(), (F::writes_types)(), (G::writes_types)(), (H::writes_types)(), (I::writes_types)(), (J::writes_types)(), (K::writes_types)(), (L::writes_types)(), (M::writes_types)(), (N::writes_types)(), (O::writes_types)(), (P::writes_types)()];
        let ghost views = lists@;
        let types = concat_types(lists);
        assert(
            views.len() == 16
            && call_ensures(A::writes_types, (), views[0])
            && call_ensures(B::writes_types, (), views[1])
            && call_ensures(C::writes_types, (), views[2])
            && call_ensures(D::writes_types, (), views[3])
            && call_ensures(E::writes_types, (), views[4])
            && call_ensures(F::writes_types, (), views[5])
            && call_ensures(G::writes_types, (), views[6])
            && call_ensures(H::writes_types, (), views[7])
            && call_ensures(I::writes_types, (), views[8])
            && call_ensures(J::writes_types, (), views[9])
            && call_ensures(K::writes_types, (), views[10])
            && call_ensures(L::writes_types, (), views[11])
            && call_ensures(M::writes_types, (), views[12])
            && call_ensures(N::writes_types, (), views[13])
            && call_ensures(O::writes_types, (), views[14])
            && call_ensures(P::writes_types, (), views[15])
            && types@ == type_lists(views).flatten()
        );
        types
    }

    fn reads<Comp: Component>() -> bool {
        tuple16_reads::<'a, A, B, C, D, E, F, G, H, I, J, K, L, M, N, O, P, Comp>()
    }

    fn writes<Comp: Component>() -> bool {
        tuple16_writes::<'a, A, B, C, D, E, F, G, H, I, J, K, L, M, N, O, P, Comp>()
    }
}

impl<'a, A: Fetch, B: Fetch, C: Fetch, D: Fetch, E: Fetch, F: Fetch, G: Fetch, H: Fetch, I: Fetch, J: Fetch, K: Fetch, L: Fetch, M: Fetch, N: Fetch, O: Fetch, P: Fetch> IntoIndexableIter for MultiFetch<'a, (A, B, C, D, E, F, G, H, I, J, K, L, M, N, O, P)> {
    type Item = (A::Item, B::Item, C::Item, D::Item, E::Item, F::Item, G::Item, H::Item, I::Item, J::Item, K::Item, L::Item, M::Item, N::Item, O::Item, P::Item);
    type IntoIter = (A::IntoIter, B::IntoIter, C::IntoIter, D::IntoIter, E::IntoIter, F::IntoIter, G::IntoIter, H::IntoIter, I::IntoIter, J::IntoIter, K::IntoIter, L::IntoIter, M::IntoIter, N::IntoIter, O::IntoIter, P::IntoIter);

    fn into_indexable_iter(self) -> (iter: Self::IntoIter)
        ensures
            call_ensures(A::into_indexable_iter, (self.fetches().0,), iter.0),
            call_ensures(B::into_indexable_iter, (self.fetches().1,), iter.1),
            call_ensures(C::into_indexable_iter, (self.fetches().2,), iter.2),
            call_ensures(D::into_indexable_iter, (self.fetches().3,), iter.3),
            call_ensures(E::into_indexable_iter, (self.fetches().4,), iter.4),
            call_ensures(F::into_indexable_iter, (self.fetches().5,), iter.5),
            call_ensures(G::into_indexable_iter, (self.fetches().6,), iter.6),
            call_ensures(H::into_indexable_iter, (self.fetches().7,), iter.7),
            call_ensures(I::into_indexable_iter, (self.fetches().8,), iter.8),
            call_ensures(J::into_indexable_iter, (self.fetches().9,), iter.9),
            call_ensures(K::into_indexable_iter, (self.fetches().10,), iter.10),
            call_ensures(L::into_indexable_iter, (self.fetches().11,), iter.11),
            call_ensures(M::into_indexable_iter, (self.fetches().12,), iter.12),
            call_ensures(N::into_indexable_iter, (self.fetches().13,), iter.13),
            call_ensures(O::into_indexable_iter, (self.fetches().14,), iter.14),
            call_ensures(P::into_indexable_iter, (self.fetches().15,), iter.15),
    {
        let (a, b, c, d, e, f, g, h, i, j, k, l, m, n, o, p) = self.fetches;
        ((A::into_indexable_iter)(a), (B::into_indexable_iter)(b), (C::into_indexable_iter)(c), (D::into_indexable_iter)(d), (E::into_indexable_iter)(e), (F::into_indexable_iter)(f), (G::into_indexable_iter)(g), (H::into_indexable_iter)(h), (I::into_indexable_iter)(i), (J::into_indexable_iter)(j), (K::into_indexable_iter)(k), (L::into_indexable_iter)(l), (M::into_indexable_iter)(m), (N::into_indexable_iter)(n), (O::into_indexable_iter)(o), (P::into_indexable_iter)(p))
    }
}

impl<'a, A: Fetch, B: Fetch, C: Fetch, D: Fetch, E: Fetch, F: Fetch, G: Fetch, H: Fetch, I: Fetch, J: Fetch, K: Fetch, L: Fetch, M: Fetch, N: Fetch, O: Fetch, P: Fetch> Fetch for MultiFetch<'a, (A, B, C, D, E, F, G, H, I, J, K, L, M, N, O, P)> {
    type Data = (A::Data, B::Data, C::Data, D::Data, E::Data, F::Data, G::Data, H::Data, I::Data, J::Data, K::Data, L::Data, M::Data, N::Data, O::Data, P::Data);

    fn into_components(self) -> (data: Self::Data)
        ensures
            call_ensures(A::into_components, (self.fetches().0,), data.0),
            call_ensures(B::into_components, (self.fetches().1,), data.1),
            call_ensures(C::into_components, (self.fetches().2,), data.2),
            call_ensures(D::into_components, (self.fetches().3,), data.3),
            call_ensures(E::into_components, (self.fetches().4,), data.4),
            call_ensures(F::into_components, (self.fetches().5,), data.5),
            call_ensures(G::into_components, (self.fetches().6,), data.6),
            call_ensures(H::into_components, (self.fetches().7,), data.7),
            call_ensures(I::into_components, (self.fetches().8,), data.8),
            call_ensures(J::into_components, (self.fetches().9,), data.9),
            call_ensures(K::into_components, (self.fetches().10,), data.10),
            call_ensures(L::into_components, (self.fetches().11,), data.11),
            call_ensures(M::into_components, (self.fetches().12,), data.12),
            call_ensures(N::into_components, (self.fetches().13,), data.13),
            call_ensures(O::into_components, (self.fetches().14,), data.14),
            call_ensures(P::into_components, (self.fetches().15,), data.15),
    {
        let (a, b, c, d, e, f, g, h, i, j, k, l, m, n, o, p) = self.fetches;
        ((A::into_components)(a), (B::into_components)(b), (C::into_components)(c), (D::into_components)(d), (E::into_components)(e), (F::into_components)(f), (G::into_components)(g), (H::into_components)(h), (I::into_components)(i), (J::into_components)(j), (K::into_components)(k), (L::into_components)(l), (M::into_components)(m), (N::into_components)(n), (O::into_components)(o), (P::into_components)(p))
    }

    fn find<Comp: 'static>(&self) -> Option<&[Comp]> {
        tuple16_find::<A, B, C, D, E, F, G, H, I, J, K, L, M, N, O, P, Comp>(&self.fetches)
    }

    fn find_mut<Comp: 'static>(&mut self) -> Option<&mut [Comp]> {
        tuple16_find_mut::<A, B, C, D, E, F, G, H, I, J, K, L, M, N, O, P, Comp>(&mut self.fetches)
    }

    fn version<Comp: Component>(&self) -> Option<u64> {
        tuple16_version::<A, B, C, D, E, F, G, H, I, J, K, L, M, N, O, P, Comp>(&self.fetches)
    }

    fn accepted(&mut self)
        ensures
            exists|m: &mut A|
                *m == old(self).fetches().0 && *final(m) == final(self).fetches().0
                && call_ensures(A::accepted, (m,), ()),
            exists|m: &mut B|
                *m == old(self).fetches().1 && *final(m) == final(self).fetches().1
                && call_ensures(B::accepted, (m,), ()),
            exists|m: &mut C|
                *m == old(self).fetches().2 && *final(m) == final(self).fetches().2
                && call_ensures(C::accepted, (m,), ()),
            exists|m: &mut D|
                *m == old(self).fetches().3 && *final(m) == final(self).fetches().3
                && call_ensures(D::accepted, (m,), ()),
            exists|m: &mut E|
                *m == old(self).fetches().4 && *final(m) == final(self).fetches().4
                && call_ensures(E::accepted, (m,), ()),
            exists|m: &mut F|
                *m == old(self).fetches().5 && *final(m) == final(self).fetches().5
                && call_ensures(F::accepted, (m,), ()),
            exists|m: &mut G|
                *m == old(self).fetches().6 && *final(m) == final(self).fetches().6
                && call_ensures(G::accepted, (m,), ()),
            exists|m: &mut H|
                *m == old(self).fetches().7 && *final(m) == final(self).fetches().7
                && call_ensures(H::accepted, (m,), ()),
            exists|m: &mut I|
                *m == old(self).fetches().8 && *final(m) == final(self).fetches().8
                && call_ensures(I::accepted, (m,), ()),
            exists|m: &mut J|
                *m == old(self).fetches().9 && *final(m) == final(self).fetches().9
                && call_ensures(J::accepted, (m,), ()),
            exists|m: &mut K|
                *m == old(self).fetches().10 && *final(m) == final(self).fetches().10
                && call_ensures(K::accepted, (m,), ()),
            exists|m: &mut L|
                *m == old(self).fetches().11 && *final(m) == final(self).fetches().11
                && call_ensures(L::accepted, (m,), ()),
            exists|m: &mut M|
                *m == old(self).fetches().12 && *final(m) == final(self).fetches().12
                && call_ensures(M::accepted, (m,), ()),
            exists|m: &mut N|
                *m == old(self).fetches().13 && *final(m) == final(self).fetches().13
                && call_ensures(N::accepted, (m,), ()),
            exists|m: &mut O|
                *m == old(self).fetches().14 && *final(m) == final(self).fetches().14
                && call_ensures(O::accepted, (m,), ()),
            exists|m: &mut P|
                *m == old(self).fetches().15 && *final(m) == final(self).fetches().15
                && call_ensures(P::accepted, (m,), ()),
    {
        let (a, b, c, d, e, f, g, h, i, j, k, l, m, n, o, p) = &mut self.fetches;
        (A::accepted)(a);
        (B::accepted)(b);
        (C::accepted)(c);
        (D::accepted)(d);
        (E::accepted)(e);
        (F::accepted)(f);
        (G::accepted)(g);
        (H::accepted)(h);
        (I::accepted)(i);
        (J::accepted)(j);
        (K::accepted)(k);
        (L::accepted)(l);
        (M::accepted)(m);
        (N::accepted)(n);
        (O::accepted)(o);
        (P::accepted)(p);
    }
}

impl<'a, A: ReadOnlyFetch, B: ReadOnlyFetch, C: ReadOnlyFetch, D: ReadOnlyFetch, E: ReadOnlyFetch, F: ReadOnlyFetch, G: ReadOnlyFetch, H: ReadOnlyFetch, I: ReadOnlyFetch, J: ReadOnlyFetch, K: ReadOnlyFetch, L: ReadOnlyFetch, M: ReadOnlyFetch, N: ReadOnlyFetch, O: ReadOnlyFetch, P: ReadOnlyFetch> ReadOnlyFetch for MultiFetch<'a, (A, B, C, D, E, F, G, H, I, J, K, L, M, N, O, P)> {
    fn get_components(&self) -> (data: Self::Data)
        ensures
            call_ensures(A::get_components, (&self.fetches().0,), data.0),
            call_ensures(B::get_components, (&self.fetches().1,), data.1),
            call_ensures(C::get_components, (&self.fetches().2,), data.2),
            call_ensures(D::get_components, (&self.fetches().3,), data.3),
            call_ensures(E::get_components, (&self.fetches().4,), data.4),
            call_ensures(F::get_components, (&self.fetches().5,), data.5),
            call_ensures(G::get_components, (&self.fetches().6,), data.6),
            call_ensures(H::get_components, (&self.fetches().7,), data.7),
            call_ensures(I::get_components, (&self.fetches().8,), data.8),
            call_ensures(J::get_components, (&self.fetches().9,), data.9),
            call_ensures(K::get_components, (&self.fetches().10,), data.10),
            call_ensures(L::get_components, (&self.fetches().11,), data.11),
            call_ensures(M::get_components, (&self.fetches().12,), data.12),
            call_ensures(N::get_components, (&self.fetches().13,), data.13),
            call_ensures(O::get_components, (&self.fetches().14,), data.14),
            call_ensures(P::get_components, (&self.fetches().15,), data.15),
    {
        let (a, b, c, d, e, f, g, h, i, j, k, l, m, n, o, p) = &self.fetches;
        ((A::get_components)(a), (B::get_components)(b), (C::get_components)(c), (D::get_components)(d), (E::get_components)(e), (F::get_components)(f), (G::get_components)(g), (H::get_components)(h), (I::get_components)(i), (J::get_components)(j), (K::get_components)(k), (L::get_components)(l), (M::get_components)(m), (N::get_components)(n), (O::get_components)(o), (P::get_components)(p))
    }
}

/// Whether some view of a tuple of 16 reads `Comp`, asking the views in order.
pub fn tuple16_reads<'a, A: View<'a> + 'a, B: View<'a> + 'a, C: View<'a> + 'a, D: View<'a> + 'a, E: View<'a> + 'a, F: View<'a> + 'a, G: View<'a> + 'a, H: View<'a> + 'a, I: View<'a> + 'a, J: View<'a> + 'a, K: View<'a> + 'a, L: View<'a> + 'a, M: View<'a> + 'a, N: View<'a> + 'a, O: View<'a> + 'a, P: View<'a> + 'a, Comp: Component>() -> (found: bool)
    ensures
        (found && call_ensures(A::reads::<Comp>, (), true))
        || (call_ensures(A::reads::<Comp>, (), false) && (
            (found && call_ensures(B::reads::<Comp>, (), true))
            || (call_ensures(B::reads::<Comp>, (), false) && (
                (found && call_ensures(C::reads::<Comp>, (), true))
                || (call_ensures(C::reads::<Comp>, (), false) && (
                    (found && call_ensures(D::reads::<Comp>, (), true))
                    || (call_ensures(D::reads::<Comp>, (), false) && (
                        (found && call_ensures(E::reads::<Comp>, (), true))
                        || (call_ensures(E::reads::<Comp>, (), false) && (
                            (found && call_ensures(F::reads::<Comp>, (), true))
                            || (call_ensures(F::reads::<Comp>, (), false) && (
                                (found && call_ensures(G::reads::<Comp>, (), true))
                                || (call_ensures(G::reads::<Comp>, (), false) && (
                                    (found && call_ensures(H::reads::<Comp>, (), true))
                                    || (call_ensures(H::reads::<Comp>, (), false) && (
                                        (found && call_ensures(I::reads::<Comp>, (), true))
                                        || (call_ensures(I::reads::<Comp>, (), false) && (
                                            (found && call_ensures(J::reads::<Comp>, (), true))
                                            || (call_ensures(J::reads::<Comp>, (), false) && (
                                                (found && call_ensures(K::reads::<Comp>, (), true))
                                                || (call_ensures(K::reads::<Comp>, (), false) && (
                                                    (found && call_ensures(L::reads::<Comp>, (), true))
                                                    || (call_ensures(L::reads::<Comp>, (), false) && (
                                                        (found && call_ensures(M::reads::<Comp>, (), true))
                                                        || (call_ensures(M::reads::<Comp>, (), false) && (
                                                            (found && call_ensures(N::reads::<Comp>, (), true))
                                                            || (call_ensures(N::reads::<Comp>, (), false) && (
                                                                (found && call_ensures(O::reads::<Comp>, (), true))
                                                                || (call_ensures(O::reads::<Comp>, (), false) && (
                                                                    call_ensures(P::reads::<Comp>, (), found))))))))))))))))))))))))))))))),
{
    (A::reads::<Comp>)()
        || (B::reads::<Comp>)()
        || (C::reads::<Comp>)()
        || (D::reads::<Comp>)()
        || (E::reads::<Comp>)()
        || (F::reads::<Comp>)()
        || (G::reads::<Comp>)()
        || (H::reads::<Comp>)()
        || (I::reads::<Comp>)()
        || (J::reads::<Comp>)()
        || (K::reads::<Comp>)()
        || (L::reads::<Comp>)()
        || (M::reads::<Comp>)()
        || (N::reads::<Comp>)()
        || (O::reads::<Comp>)()
        || (P::reads::<Comp>)()
}

/// Whether some view of a tuple of 16 writes `Comp`, asking the views in order.
pub fn tuple16_writes<'a, A: View<'a> + 'a, B: View<'a> + 'a, C: View<'a> + 'a, D: View<'a> + 'a, E: View<'a> + 'a, F: View<'a> + 'a, G: View<'a> + 'a, H: View<'a> + 'a, I: View<'a> + 'a, J: View<'a> + 'a, K: View<'a> + 'a, L: View<'a> + 'a, M: View<'a> + 'a, N: View<'a> + 'a, O: View<'a> + 'a, P: View<'a> + 'a, Comp: Component>() -> (found: bool)
    ensures
        (found && call_ensures(A::writes::<Comp>, (), true))
        || (call_ensures(A::writes::<Comp>, (), false) && (
            (found && call_ensures(B::writes::<Comp>, (), true))
            || (call_ensures(B::writes::<Comp>, (), false) && (
                (found && call_ensures(C::writes::<Comp>, (), true))
                || (call_ensures(C::writes::<Comp>, (), false) && (
                    (found && call_ensures(D::writes::<Comp>, (), true))
                    || (call_ensures(D::writes::<Comp>, (), false) && (
                        (found && call_ensures(E::writes::<Comp>, (), true))
                        || (call_ensures(E::writes::<Comp>, (), false) && (
                            (found && call_ensures(F::writes::<Comp>, (), true))
                            || (call_ensures(F::writes::<Comp>, (), false) && (
                                (found && call_ensures(G::writes::<Comp>, (), true))
                                || (call_ensures(G::writes::<Comp>, (), false) && (
                                    (found && call_ensures(H::writes::<Comp>, (), true))
                                    || (call_ensures(H::writes::<Comp>, (), false) && (
                                        (found && call_ensures(I::writes::<Comp>, (), true))
                                        || (call_ensures(I::writes::<Comp>, (), false) && (
                                            (found && call_ensures(J::writes::<Comp>, (), true))
                                            || (call_ensures(J::writes::<Comp>, (), false) && (
                                                (found && call_ensures(K::writes::<Comp>, (), true))
                                                || (call_ensures(K::writes::<Comp>, (), false) && (
                                                    (found && call_ensures(L::writes::<Comp>, (), true))
                                                    || (call_ensures(L::writes::<Comp>, (), false) && (
                                                        (found && call_ensures(M::writes::<Comp>, (), true))
                                                        || (call_ensures(M::writes::<Comp>, (), false) && (
                                                            (found && call_ensures(N::writes::<Comp>, (), true))
                                                            || (call_ensures(N::writes::<Comp>, (), false) && (
                                                                (found && call_ensures(O::writes::<Comp>, (), true))
                                                                || (call_ensures(O::writes::<Comp>, (), false) && (
                                                                    call_ensures(P::writes::<Comp>, (), found))))))))))))))))))))))))))))))),
{
    (A::writes::<Comp>)()
        || (B::writes::<Comp>)()
        || (C::writes::<Comp>)()
        || (D::writes::<Comp>)()
        || (E::writes::<Comp>)()
        || (F::writes::<Comp>)()
        || (G::writes::<Comp>)()
        || (H::writes::<Comp>)()
        || (I::writes::<Comp>)()
        || (J::writes::<Comp>)()
        || (K::writes::<Comp>)()
        || (L::writes::<Comp>)()
        || (M::writes::<Comp>)()
        || (N::writes::<Comp>)()
        || (O::writes::<Comp>)()
        || (P::writes::<Comp>)()
}

/// The slice of the first fetch of a tuple of 16 that holds `Comp`.
pub fn tuple16_find<'f, A: Fetch, B: Fetch, C: Fetch, D: Fetch, E: Fetch, F: Fetch, G: Fetch, H: Fetch, I: Fetch, J: Fetch, K: Fetch, L: Fetch, M: Fetch, N: Fetch, O: Fetch, P: Fetch, Comp: 'static>(fetches: &'f (A, B, C, D, E, F, G, H, I, J, K, L, M, N, O, P)) -> (found: Option<&'f [Comp]>)
    ensures
        (found is Some && call_ensures(A::find::<Comp>, (&fetches.0,), found))
        || (call_ensures(A::find::<Comp>, (&fetches.0,), None) && (
            (found is Some && call_ensures(B::find::<Comp>, (&fetches.1,), found))
            || (call_ensures(B::find::<Comp>, (&fetches.1,), None) && (
                (found is Some && call_ensures(C::find::<Comp>, (&fetches.2,), found))
                || (call_ensures(C::find::<Comp>, (&fetches.2,), None) && (
                    (found is Some && call_ensures(D::find::<Comp>, (&fetches.3,), found))
                    || (call_ensures(D::find::<Comp>, (&fetches.3,), None) && (
                        (found is Some && call_ensures(E::find::<Comp>, (&fetches.4,), found))
                        || (call_ensures(E::find::<Comp>, (&fetches.4,), None) && (
                            (found is Some && call_ensures(F::find::<Comp>, (&fetches.5,), found))
                            || (call_ensures(F::find::<Comp>, (&fetches.5,), None) && (
                                (found is Some && call_ensures(G::find::<Comp>, (&fetches.6,), found))
                                || (call_ensures(G::find::<Comp>, (&fetches.6,), None) && (
                                    (found is Some && call_ensures(H::find::<Comp>, (&fetches.7,), found))
                                    || (call_ensures(H::find::<Comp>, (&fetches.7,), None) && (
                                        (found is Some && call_ensures(I::find::<Comp>, (&fetches.8,), found))
                                        || (call_ensures(I::find::<Comp>, (&fetches.8,), None) && (
                                            (found is Some && call_ensures(J::find::<Comp>, (&fetches.9,), found))
                                            || (call_ensures(J::find::<Comp>, (&fetches.9,), None) && (
                                                (found is Some && call_ensures(K::find::<Comp>, (&fetches.10,), found))
                                                || (call_ensures(K::find::<Comp>, (&fetches.10,), None) && (
                                                    (found is Some && call_ensures(L::find::<Comp>, (&fetches.11,), found))
                                                    || (call_ensures(L::find::<Comp>, (&fetches.11,), None) && (
                                                        (found is Some && call_ensures(M::find::<Comp>, (&fetches.12,), found))
                                                        || (call_ensures(M::find::<Comp>, (&fetches.12,), None) && (
                                                            (found is Some && call_ensures(N::find::<Comp>, (&fetches.13,), found))
                                                            || (call_ensures(N::find::<Comp>, (&fetches.13,), None) && (
                                                                (found is Some && call_ensures(O::find::<Comp>, (&fetches.14,), found))
                                                                || (call_ensures(O::find::<Comp>, (&fetches.14,), None) && (
                                                                    call_ensures(P::find::<Comp>, (&fetches.15,), found))))))))))))))))))))))))))))))),
{
    let (a, b, c, d, e, f, g, h, i, j, k, l, m, n, o, p) = fetches;
    if let Some(slice) = (A::find::<Comp>)(a) {
        return Some(slice);
    }
    if let Some(slice) = (B::find::<Comp>)(b) {
        return Some(slice);
    }
    if let Some(slice) = (C::find::<Comp>)(c) {
        return Some(slice);
    }
    if let Some(slice) = (D::find::<Comp>)(d) {
        return Some(slice);
    }
    if let Some(slice) = (E::find::<Comp>)(e) {
        return Some(slice);
    }
    if let Some(slice) = (F::find::<Comp>)(f) {
        return Some(slice);
    }
    if let Some(slice) = (G::find::<Comp>)(g) {
        return Some(slice);
    }
    if let Some(slice) = (H::find::<Comp>)(h) {
        return Some(slice);
    }
    if let Some(slice) = (I::find::<Comp>)(i) {
        return Some(slice);
    }
    if let Some(slice) = (J::find::<Comp>)(j) {
        return Some(slice);
    }
    if let Some(slice) = (K::find::<Comp>)(k) {
        return Some(slice);
    }
    if let Some(slice) = (L::find::<Comp>)(l) {
        return Some(slice);
    }
    if let Some(slice) = (M::find::<Comp>)(m) {
        return Some(slice);
    }
    if let Some(slice) = (N::find::<Comp>)(n) {
        return Some(slice);
    }
    if let Some(slice) = (O::find::<Comp>)(o) {
        return Some(slice);
    }
    (P::find::<Comp>)(p)
}

/// The mutable slice of the first fetch of a tuple of 16 that holds `Comp`.
pub fn tuple16_find_mut<'f, A: Fetch, B: Fetch, C: Fetch, D: Fetch, E: Fetch, F: Fetch, G: Fetch, H: Fetch, I: Fetch, J: Fetch, K: Fetch, L: Fetch, M: Fetch, N: Fetch, O: Fetch, P: Fetch, Comp: 'static>(fetches: &'f mut (A, B, C, D, E, F, G, H, I, J, K, L, M, N, O, P)) -> (found: Option<&'f mut [Comp]>)
    ensures
        exists|m: &mut A|
            *m == old(fetches).0
            && *final(m) == final(fetches).0
            && ((found is Some && call_ensures(A::find_mut::<Comp>, (m,), found) && final(fetches).1 == old(fetches).1 && final(fetches).2 == old(fetches).2 && final(fetches).3 == old(fetches).3 && final(fetches).4 == old(fetches).4 && final(fetches).5 == old(fetches).5 && final(fetches).6 == old(fetches).6 && final(fetches).7 == old(fetches).7 && final(fetches).8 == old(fetches).8 && final(fetches).9 == old(fetches).9 && final(fetches).10 == old(fetches).10 && final(fetches).11 == old(fetches).11 && final(fetches).12 == old(fetches).12 && final(fetches).13 == old(fetches).13 && final(fetches).14 == old(fetches).14 && final(fetches).15 == old(fetches).15)
            || (call_ensures(A::find_mut::<Comp>, (m,), None) && (
                exists|m: &mut B|
                    *m == old(fetches).1
                    && *final(m) == final(fetches).1
                    && ((found is Some && call_ensures(B::find_mut::<Comp>, (m,), found) && final(fetches).2 == old(fetches).2 && final(fetches).3 == old(fetches).3 && final(fetches).4 == old(fetches).4 && final(fetches).5 == old(fetches).5 && final(fetches).6 == old(fetches).6 && final(fetches).7 == old(fetches).7 && final(fetches).8 == old(fetches).8 && final(fetches).9 == old(fetches).9 && final(fetches).10 == old(fetches).10 && final(fetches).11 == old(fetches).11 && final(fetches).12 == old(fetches).12 && final(fetches).13 == old(fetches).13 && final(fetches).14 == old(fetches).14 && final(fetches).15 == old(fetches).15)
                    || (call_ensures(B::find_mut::<Comp>, (m,), None) && (
                        exists|m: &mut C|
                            *m == old(fetches).2
                            && *final(m) == final(fetches).2
                            && ((found is Some && call_ensures(C::find_mut::<Comp>, (m,), found) && final(fetches).3 == old(fetches).3 && final(fetches).4 == old(fetches).4 && final(fetches).5 == old(fetches).5 && final(fetches).6 == old(fetches).6 && final(fetches).7 == old(fetches).7 && final(fetches).8 == old(fetches).8 && final(fetches).9 == old(fetches).9 && final(fetches).10 == old(fetches).10 && final(fetches).11 == old(fetches).11 && final(fetches).12 == old(fetches).12 && final(fetches).13 == old(fetches).13 && final(fetches).14 == old(fetches).14 && final(fetches).15 == old(fetches).15)
                            || (call_ensures(C::find_mut::<Comp>, (m,), None) && (
                                exists|m: &mut D|
                                    *m == old(fetches).3
                                    && *final(m) == final(fetches).3
                                    && ((found is Some && call_ensures(D::find_mut::<Comp>, (m,), found) && final(fetches).4 == old(fetches).4 && final(fetches).5 == old(fetches).5 && final(fetches).6 == old(fetches).6 && final(fetches).7 == old(fetches).7 && final(fetches).8 == old(fetches).8 && final(fetches).9 == old(fetches).9 && final(fetches).10 == old(fetches).10 && final(fetches).11 == old(fetches).11 && final(fetches).12 == old(fetches).12 && final(fetches).13 == old(fetches).13 && final(fetches).14 == old(fetches).14 && final(fetches).15 == old(fetches).15)
                                    || (call_ensures(D::find_mut::<Comp>, (m,), None) && (
                                        exists|m: &mut E|
                                            *m == old(fetches).4
                                            && *final(m) == final(fetches).4
                                            && ((found is Some && call_ensures(E::find_mut::<Comp>, (m,), found) && final(fetches).5 == old(fetches).5 && final(fetches).6 == old(fetches).6 && final(fetches).7 == old(fetches).7 && final(fetches).8 == old(fetches).8 && final(fetches).9 == old(fetches).9 && final(fetches).10 == old(fetches).10 && final(fetches).11 == old(fetches).11 && final(fetches).12 == old(fetches).12 && final(fetches).13 == old(fetches).13 && final(fetches).14 == old(fetches).14 && final(fetches).15 == old(fetches).15)
                                            || (call_ensures(E::find_mut::<Comp>, (m,), None) && (
                                                exists|m: &mut F|
                                                    *m == old(fetches).5
                                                    && *final(m) == final(fetches).5
                                                    && ((found is Some && call_ensures(F::find_mut::<Comp>, (m,), found) && final(fetches).6 == old(fetches).6 && final(fetches).7 == old(fetches).7 && final(fetches).8 == old(fetches).8 && final(fetches).9 == old(fetches).9 && final(fetches).10 == old(fetches).10 && final(fetches).11 == old(fetches).11 && final(fetches).12 == old(fetches).12 && final(fetches).13 == old(fetches).13 && final(fetches).14 == old(fetches).14 && final(fetches).15 == old(fetches).15)
                                                    || (call_ensures(F::find_mut::<Comp>, (m,), None) && (
                                                        exists|m: &mut G|
                                                            *m == old(fetches).6
                                                            && *final(m) == final(fetches).6
                                                            && ((found is Some && call_ensures(G::find_mut::<Comp>, (m,), found) && final(fetches).7 == old(fetches).7 && final(fetches).8 == old(fetches).8 && final(fetches).9 == old(fetches).9 && final(fetches).10 == old(fetches).10 && final(fetches).11 == old(fetches).11 && final(fetches).12 == old(fetches).12 && final(fetches).13 == old(fetches).13 && final(fetches).14 == old(fetches).14 && final(fetches).15 == old(fetches).15)
                                                            || (call_ensures(G::find_mut::<Comp>, (m,), None) && (
                                                                exists|m: &mut H|
                                                                    *m == old(fetches).7
                                                                    && *final(m) == final(fetches).7
                                                                    && ((found is Some && call_ensures(H::find_mut::<Comp>, (m,), found) && final(fetches).8 == old(fetches).8 && final(fetches).9 == old(fetches).9 && final(fetches).10 == old(fetches).10 && final(fetches).11 == old(fetches).11 && final(fetches).12 == old(fetches).12 && final(fetches).13 == old(fetches).13 && final(fetches).14 == old(fetches).14 && final(fetches).15 == old(fetches).15)
                                                                    || (call_ensures(H::find_mut::<Comp>, (m,), None) && (
                                                                        exists|m: &mut I|
                                                                            *m == old(fetches).8
                                                                            && *final(m) == final(fetches).8
                                                                            && ((found is Some && call_ensures(I::find_mut::<Comp>, (m,), found) && final(fetches).9 == old(fetches).9 && final(fetches).10 == old(fetches).10 && final(fetches).11 == old(fetches).11 && final(fetches).12 == old(fetches).12 && final(fetches).13 == old(fetches).13 && final(fetches).14 == old(fetches).14 && final(fetches).15 == old(fetches).15)
                                                                            || (call_ensures(I::find_mut::<Comp>, (m,), None) && (
                                                                                exists|m: &mut J|
                                                                                    *m == old(fetches).9
                                                                                    && *final(m) == final(fetches).9
                                                                                    && ((found is Some && call_ensures(J::find_mut::<Comp>, (m,), found) && final(fetches).10 == old(fetches).10 && final(fetches).11 == old(fetches).11 && final(fetches).12 == old(fetches).12 && final(fetches).13 == old(fetches).13 && final(fetches).14 == old(fetches).14 && final(fetches).15 == old(fetches).15)
                                                                                    || (call_ensures(J::find_mut::<Comp>, (m,), None) && (
                                                                                        exists|m: &mut K|
                                                                                            *m == old(fetches).10
                                                                                            && *final(m) == final(fetches).10
                                                                                            && ((found is Some && call_ensures(K::find_mut::<Comp>, (m,), found) && final(fetches).11 == old(fetches).11 && final(fetches).12 == old(fetches).12 && final(fetches).13 == old(fetches).13 && final(fetches).14 == old(fetches).14 && final(fetches).15 == old(fetches).15)
                                                                                            || (call_ensures(K::find_mut::<Comp>, (m,), None) && (
                                                                                                exists|m: &mut L|
                                                                                                    *m == old(fetches).11
                                                                                                    && *final(m) == final(fetches).11
                                                                                                    && ((found is Some && call_ensures(L::find_mut::<Comp>, (m,), found) && final(fetches).12 == old(fetches).12 && final(fetches).13 == old(fetches).13 && final(fetches).14 == old(fetches).14 && final(fetches).15 == old(fetches).15)
                                                                                                    || (call_ensures(L::find_mut::<Comp>, (m,), None) && (
                                                                                                        exists|m: &mut M|
                                                                                                            *m == old(fetches).12
                                                                                                            && *final(m) == final(fetches).12
                                                                                                            && ((found is Some && call_ensures(M::find_mut::<Comp>, (m,), found) && final(fetches).13 == old(fetches).13 && final(fetches).14 == old(fetches).14 && final(fetches).15 == old(fetches).15)
                                                                                                            || (call_ensures(M::find_mut::<Comp>, (m,), None) && (
                                                                                                                exists|m: &mut N|
                                                                                                                    *m == old(fetches).13
                                                                                                                    && *final(m) == final(fetches).13
                                                                                                                    && ((found is Some && call_ensures(N::find_mut::<Comp>, (m,), found) && final(fetches).14 == old(fetches).14 && final(fetches).15 == old(fetches).15)
                                                                                                                    || (call_ensures(N::find_mut::<Comp>, (m,), None) && (
                                                                                                                        exists|m: &mut O|
                                                                                                                            *m == old(fetches).14
                                                                                                                            && *final(m) == final(fetches).14
                                                                                                                            && ((found is Some && call_ensures(O::find_mut::<Comp>, (m,), found) && final(fetches).15 == old(fetches).15)
                                                                                                                            || (call_ensures(O::find_mut::<Comp>, (m,), None) && (
                                                                                                                                exists|m: &mut P|
                                                                                                                                    *m == old(fetches).15
                                                                                                                                    && *final(m) == final(fetches).15
                                                                                                                                    && call_ensures(P::find_mut::<Comp>, (m,), found)))))))))))))))))))))))))))))))))))))))))))))),
{
    let found = (A::find_mut::<Comp>)(&mut fetches.0);
    if found.is_some() {
        return found;
    }
    let found = (B::find_mut::<Comp>)(&mut fetches.1);
    if found.is_some() {
        return found;
    }
    let found = (C::find_mut::<Comp>)(&mut fetches.2);
    if found.is_some() {
        return found;
    }
    let found = (D::find_mut::<Comp>)(&mut fetches.3);
    if found.is_some() {
        return found;
    }
    let found = (E::find_mut::<Comp>)(&mut fetches.4);
    if found.is_some() {
        return found;
    }
    let found = (F::find_mut::<Comp>)(&mut fetches.5);
    if found.is_some() {
        return found;
    }
    let found = (G::find_mut::<Comp>)(&mut fetches.6);
    if found.is_some() {
        return found;
    }
    let found = (H::find_mut::<Comp>)(&mut fetches.7);
    if found.is_some() {
        return found;
    }
    let found = (I::find_mut::<Comp>)(&mut fetches.8);
    if found.is_some() {
        return found;
    }
    let found = (J::find_mut::<Comp>)(&mut fetches.9);
    if found.is_some() {
        return found;
    }
    let found = (K::find_mut::<Comp>)(&mut fetches.10);
    if found.is_some() {
        return found;
    }
    let found = (L::find_mut::<Comp>)(&mut fetches.11);
    if found.is_some() {
        return found;
    }
    let found = (M::find_mut::<Comp>)(&mut fetches.12);
    if found.is_some() {
        return found;
    }
    let found = (N::find_mut::<Comp>)(&mut fetches.13);
    if found.is_some() {
        return found;
    }
    let found = (O::find_mut::<Comp>)(&mut fetches.14);
    if found.is_some() {
        return found;
    }
    (P::find_mut::<Comp>)(&mut fetches.15)
}

/// The version of `Comp` in the first fetch of a tuple of 16 that holds it.
pub fn tuple16_version<A: Fetch, B: Fetch, C: Fetch, D: Fetch, E: Fetch, F: Fetch, G: Fetch, H: Fetch, I: Fetch, J: Fetch, K: Fetch, L: Fetch, M: Fetch, N: Fetch, O: Fetch, P: Fetch, Comp: Component>(fetches: &(A, B, C, D, E, F, G, H, I, J, K, L, M, N, O, P)) -> (version: Option<u64>)
    ensures
        (version is Some && call_ensures(A::version::<Comp>, (&fetches.0,), version))
        || (call_ensures(A::version::<Comp>, (&fetches.0,), None) && (
            (version is Some && call_ensures(B::version::<Comp>, (&fetches.1,), version))
            || (call_ensures(B::version::<Comp>, (&fetches.1,), None) && (
                (version is Some && call_ensures(C::version::<Comp>, (&fetches.2,), version))
                || (call_ensures(C::version::<Comp>, (&fetches.2,), None) && (
                    (version is Some && call_ensures(D::version::<Comp>, (&fetches.3,), version))
                    || (call_ensures(D::version::<Comp>, (&fetches.3,), None) && (
                        (version is Some && call_ensures(E::version::<Comp>, (&fetches.4,), version))
                        || (call_ensures(E::version::<Comp>, (&fetches.4,), None) && (
                            (version is Some && call_ensures(F::version::<Comp>, (&fetches.5,), version))
                            || (call_ensures(F::version::<Comp>, (&fetches.5,), None) && (
                                (version is Some && call_ensures(G::version::<Comp>, (&fetches.6,), version))
                                || (call_ensures(G::version::<Comp>, (&fetches.6,), None) && (
                                    (version is Some && call_ensures(H::version::<Comp>, (&fetches.7,), version))
                                    || (call_ensures(H::version::<Comp>, (&fetches.7,), None) && (
                                        (version is Some && call_ensures(I::version::<Comp>, (&fetches.8,), version))
                                        || (call_ensures(I::version::<Comp>, (&fetches.8,), None) && (
                                            (version is Some && call_ensures(J::version::<Comp>, (&fetches.9,), version))
                                            || (call_ensures(J::version::<Comp>, (&fetches.9,), None) && (
                                                (version is Some && call_ensures(K::version::<Comp>, (&fetches.10,), version))
                                                || (call_ensures(K::version::<Comp>, (&fetches.10,), None) && (
                                                    (version is Some && call_ensures(L::version::<Comp>, (&fetches.11,), version))
                                                    || (call_ensures(L::version::<Comp>, (&fetches.11,), None) && (
                                                        (version is Some && call_ensures(M::version::<Comp>, (&fetches.12,), version))
                                                        || (call_ensures(M::version::<Comp>, (&fetches.12,), None) && (
                                                            (version is Some && call_ensures(N::version::<Comp>, (&fetches.13,), version))
                                                            || (call_ensures(N::version::<Comp>, (&fetches.13,), None) && (
                                                                (version is Some && call_ensures(O::version::<Comp>, (&fetches.14,), version))
                                                                || (call_ensures(O::version::<Comp>, (&fetches.14,), None) && (
                                                                    call_ensures(P::version::<Comp>, (&fetches.15,), version))))))))))))))))))))))))))))))),
{
    let (a, b, c, d, e, f, g, h, i, j, k, l, m, n, o, p) = fetches;
    if let Some(version) = (A::version::<Comp>)(a) {
        return Some(version);
    }
    if let Some(version) = (B::version::<Comp>)(b) {
        return Some(version);
    }
    if let Some(version) = (C::version::<Comp>)(c) {
        return Some(version);
    }
    if let Some(version) = (D::version::<Comp>)(d) {
        return Some(version);
    }
    if let Some(version) = (E::version::<Comp>)(e) {
        return Some(version);
    }
    if let Some(version) = (F::version::<Comp>)(f) {
        return Some(version);
    }
    if let Some(version) = (G::version::<Comp>)(g) {
        return Some(version);
    }
    if let Some(version) = (H::version::<Comp>)(h) {
        return Some(version);
    }
    if let Some(version) = (I::version::<Comp>)(i) {
        return Some(version);
    }
    if let Some(version) = (J::version::<Comp>)(j) {
        return Some(version);
    }
    if let Some(version) = (K::version::<Comp>)(k) {
        return Some(version);
    }
    if let Some(version) = (L::version::<Comp>)(l) {
        return Some(version);
    }
    if let Some(version) = (M::version::<Comp>)(m) {
        return Some(version);
    }
    if let Some(version) = (N::version::<Comp>)(n) {
        return Some(version);
    }
    if let Some(version) = (O::version::<Comp>)(o) {
        return Some(version);
    }
    (P::version::<Comp>)(p)
}

// Tuples of 17 views.

impl<A: DefaultFilter, B: DefaultFilter, C: DefaultFilter, D: DefaultFilter, E: DefaultFilter, F: DefaultFilter, G: DefaultFilter, H: DefaultFilter, I: DefaultFilter, J: DefaultFilter, K: DefaultFilter, L: DefaultFilter, M: DefaultFilter, N: DefaultFilter, O: DefaultFilter, P: DefaultFilter, Q: DefaultFilter> DefaultFilter for (A, B, C, D, E, F, G, H, I, J, K, L, M, N, O, P, Q) {
    type Filter = (A::Filter, B::Filter, C::Filter, D::Filter, E::Filter, F::Filter, G::Filter, H::Filter, I::Filter, J::Filter, K::Filter, L::Filter, M::Filter, N::Filter, O::Filter, P::Filter, Q::Filter);
}

impl<'a, A: View<'a> + 'a, B: View<'a> + 'a, C: View<'a> + 'a, D: View<'a> + 'a, E: View<'a> + 'a, F: View<'a> + 'a, G: View<'a> + 'a, H: View<'a> + 'a, I: View<'a> + 'a, J: View<'a> + 'a, K: View<'a> + 'a, L: View<'a> + 'a, M: View<'a> + 'a, N: View<'a> + 'a, O: View<'a> + 'a, P: View<'a> + 'a, Q: View<'a> + 'a> View<'a> for (A, B, C, D, E, F, G, H, I, J, K, L, M, N, O, P, Q) {
    type Element = <Self::Fetch as IntoIndexableIter>::Item;
    type Fetch = MultiFetch<'a, (A::Fetch, B::Fetch, C::Fetch, D::Fetch, E::Fetch, F::Fetch, G::Fetch, H::Fetch, I::Fetch, J::Fetch, K::Fetch, L::Fetch, M::Fetch, N::Fetch, O::Fetch, P::Fetch, Q::Fetch)>;

    fn validate() -> (valid: bool)
        ensures
            exists|reads: Seq<Vec<ComponentTypeId>>, writes: Seq<Vec<ComponentTypeId>>|
                reads.len() == 17 && writes.len() == 17
                && call_ensures(A::reads_types, (), reads[0])
                && call_ensures(A::writes_types, (), writes[0])
                && call_ensures(B::reads_types, (), reads[1])
                && call_ensures(B::writes_types, (), writes[1])
                && call_ensures(C::reads_types, (), reads[2])
                && call_ensures(C::writes_types, (), writes[2])
                && call_ensures(D::reads_types, (), reads[3])
                && call_ensures(D::writes_types, (), writes[3])
                && call_ensures(E::reads_types, (), reads[4])
                && call_ensures(E::writes_types, (), writes[4])
                && call_ensures(F::reads_types, (), reads[5])
                && call_ensures(F::writes_types, (), writes[5])
                && call_ensures(G::reads_types, (), reads[6])
                && call_ensures(G::writes_types, (), writes[6])
                && call_ensures(H::reads_types, (), reads[7])
                && call_ensures(H::writes_types, (), writes[7])
                && call_ensures(I::reads_types, (), reads[8])
                && call_ensures(I::writes_types, (), writes[8])
                && call_ensures(J::reads_types, (), reads[9])
                && call_ensures(J::writes_types, (), writes[9])
                && call_ensures(K::reads_types, (), reads[10])
                && call_ensures(K::writes_types, (), writes[10])
                && call_ensures(L::reads_types, (), reads[11])
                && call_ensures(L::writes_types, (), writes[11])
                && call_ensures(M::reads_types, (), reads[12])
                && call_ensures(M::writes_types, (), writes[12])
                && call_ensures(N::reads_types, (), reads[13])
                && call_ensures(N::writes_types, (), writes[13])
                && call_ensures(O::reads_types, (), reads[14])
                && call_ensures(O::writes_types, (), writes[14])
                && call_ensures(P::reads_types, (), reads[15])
                && call_ensures(P::writes_types, (), writes[15])
                && call_ensures(Q::reads_types, (), reads[16])
                && call_ensures(Q::writes_types, (), writes[16])
                && valid == conflict_free(type_lists(reads), type_lists(writes)),
    {
        let reads = vec![(A::reads_types)(), (B::reads_types)(), (C::reads_types)(), (D::reads_types)(), (E::reads_types)(), (F::reads_types)(), (G::reads_types)(), (H::reads_types)(), (I::reads_types)(), (J::reads_types)(), (K::reads_types)(), (L::reads_types)(), (M::reads_types)(), (N::reads_types)(), (O::reads_types)(), (P::reads_types)(), (Q::reads_types)()];
        let writes = vec![(A::writes_types)(), (B::writes_types)(), (C::writes_types)(), (D::writes_types)(), (E::writes_types)(), (F::writes_types)(), (G::writes_types)(), (H::writes_types)(), (I::writes_types)(), (J::writes_types)(), (K::writes_types)(), (L::writes_types)(), (M::writes_types)(), (N::writes_types)(), (O::writes_types)(), (P::writes_types)(), (Q::writes_types)()];
        let valid = accesses_conflict_free(&reads, &writes);
        assert(
            reads@.len() == 17 && writes@.len() == 17
            && call_ensures(A::reads_types, (), reads@[0])
            && call_ensures(A::writes_types, (), writes@[0])
            && call_ensures(B::reads_types, (), reads@[1])
            && call_ensures(B::writes_types, (), writes@[1])
            && call_ensures(C::reads_types, (), reads@[2])
            && call_ensures(C::writes_types, (), writes@[2])
            && call_ensures(D::reads_types, (), reads@[3])
            && call_ensures(D::writes_types, (), writes@[3])
            && call_ensures(E::reads_types, (), reads@[4])
            && call_ensures(E::writes_types, (), writes@[4])
            && call_ensures(F::reads_types, (), reads@[5])
            && call_ensures(F::writes_types, (), writes@[5])
            && call_ensures(G::reads_types, (), reads@[6])
            && call_ensures(G::writes_types, (), writes@[6])
            && call_ensures(H::reads_types, (), reads@[7])
            && call_ensures(H::writes_types, (), writes@[7])
            && call_ensures(I::reads_types, (), reads@[8])
            && call_ensures(I::writes_types, (), writes@[8])
            && call_ensures(J::reads_types, (), reads@[9])
            && call_ensures(J::writes_types, (), writes@[9])
            && call_ensures(K::reads_types, (), reads@[10])
            && call_ensures(K::writes_types, (), writes@[10])
            && call_ensures(L::reads_types, (), reads@[11])
            && call_ensures(L::writes_types, (), writes@[11])
            && call_ensures(M::reads_types, (), reads@[12])
            && call_ensures(M::writes_types, (), writes@[12])
            && call_ensures(N::reads_types, (), reads@[13])
            && call_ensures(N::writes_types, (), writes@[13])
            && call_ensures(O::reads_types, (), reads@[14])
            && call_ensures(O::writes_types, (), writes@[14])
            && call_ensures(P::reads_types, (), reads@[15])
            && call_ensures(P::writes_types, (), writes@[15])
            && call_ensures(Q::reads_types, (), reads@[16])
            && call_ensures(Q::writes_types, (), writes@[16])
            && valid == conflict_free(type_lists(reads@), type_lists(writes@))
        );
        valid
    }

    fn reads_types() -> (types: Vec<ComponentTypeId>)
        ensures
            exists|lists: Seq<Vec<ComponentTypeId>>|
                lists.len() == 17
                && call_ensures(A::reads_types, (), lists[0])
                && call_ensures(B::reads_types, (), lists[1])
                && call_ensures(C::reads_types, (), lists[2])
                && call_ensures(D::reads_types, (), lists[3])
                && call_ensures(E::reads_types, (), lists[4])
                && call_ensures(F::reads_types, (), lists[5])
                && call_ensures(G::reads_types, (), lists[6])
                && call_ensures(H::reads_types, (), lists[7])
                && call_ensures(I::reads_types, (), lists[8])
                && call_ensures(J::reads_types, (), lists[9])
                && call_ensures(K::reads_types, (), lists[10])
                && call_ensures(L::reads_types, (), lists[11])
                && call_ensures(M::reads_types, (), lists[12])
                && call_ensures(N::reads_types, (), lists[13])
                && call_ensures(O::reads_types, (), lists[14])
                && call_ensures(P::reads_types, (), lists[15])
                && call_ensures(Q::reads_types, (), lists[16])
                && types@ == type_lists(lists).flatten(),
    {
        let lists = vec![(A::reads_types)(), (B::reads_types)(), (C::reads_types)(), (D::reads_types)(), (E::reads_types)(), (F::reads_types)(), (G::reads_types)(), (H::reads_types)(), (I::reads_types)(), (J::reads_types)(), (K::reads_types)(), (L::reads_types)(), (M::reads_types)(), (N::reads_types)(), (O::reads_types)(), (P::reads_types)(), (Q::reads_types)()];
        let ghost views = lists@;
        let types = concat_types(lists);
        assert(
            views.len() == 17
            && call_ensures(A::reads_types, (), views[0])
            && call_ensures(B::reads_types, (), views[1])
            && call_ensures(C::reads_types, (), views[2])
            && call_ensures(D::reads_types, (), views[3])
            && call_ensures(E::reads_types, (), views[4])
            && call_ensures(F::reads_types, (), views[5])
            && call_ensures(G::reads_types, (), views[6])
            && call_ensures(H::reads_types, (), views[7])
            && call_ensures(I::reads_types, (), views[8])
            && call_ensures(J::reads_types, (), views[9])
            && call_ensures(K::reads_types, (), views[10])
            && call_ensures(L::reads_types, (), views[11])
            && call_ensures(M::reads_types, (), views[12])
            && call_ensures(N::reads_types, (), views[13])
            && call_ensures(O::reads_types, (), views[14])
            && call_ensures(P::reads_types, (), views[15])
            && call_ensures(Q::reads_types, (), views[16])
            && types@ == type_lists(views).flatten()
        );
        types
    }

    fn writes_types() -> (types: Vec<ComponentTypeId>)
        ensures
            exists|lists: Seq<Vec<ComponentTypeId>>|
                lists.len() == 17
                && call_ensures(A::writes_types, (), lists[0])
                && call_ensures(B::writes_types, (), lists[1])
                && call_ensures(C::writes_types, (), lists[2])
                && call_ensures(D::writes_types, (), lists[3])
                && call_ensures(E::writes_types, (), lists[4])
                && call_ensures(F::writes_types, (), lists[5])
                && call_ensures(G::writes_types, (), lists[6])
                && call_ensures(H::writes_types, (), lists[7])
                && call_ensures(I::writes_types, (), lists[8])
                && call_ensures(J::writes_types, (), lists[9])
                && call_ensures(K::writes_types, (), lists[10])
                && call_ensures(L::writes_types, (), lists[11])
                && call_ensures(M::writes_types, (), lists[12])
                && call_ensures(N::writes_types, (), lists[13])
                && call_ensures(O::writes_types, (), lists[14])
                && call_ensures(P::writes_types, (), lists[15])
                && call_ensures(Q::writes_types, (), lists[16])
                && types@ == type_lists(lists).flatten(),
    {
        let lists = vec![(A::writes_types)(), (B::writes_types)(), (C::writes_types)(), (D::writes_types)(), (E::writes_types)(), (F::writes_types)(), (G::writes_types)(), (H::writes_types)(), (I::writes_types)(), (J::writes_types)(), (K::writes_types)(), (L::writes_types)(), (M::writes_types)(), (N::writes_types)(), (O::writes_types)(), (P::writes_types)(), (Q::writes_types)()];
        let ghost views = lists@;
        let types = concat_types(lists);
        assert(
            views.len() == 17
            && call_ensures(A::writes_types, (), views[0])
            && call_ensures(B::writes_types, (), views[1])
            && call_ensures(C::writes_types, (), views[2])
            && call_ensures(D::writes_types, (), views[3])
            && call_ensures(E::writes_types, (), views[4])
            && call_ensures(F::writes_types, (), views[5])
            && call_ensures(G::writes_types, (), views[6])
            && call_ensures(H::writes_types, (), views[7])
            && call_ensures(I::writes_types, (), views[8])
            && call_ensures(J::writes_types, (), views[9])
            && call_ensures(K::writes_types, (), views[10])
            && call_ensures(L::writes_types, (), views[11])
            && call_ensures(M::writes_types, (), views[12])
            && call_ensures(N::writes_types, (), views[13])
            && call_ensures(O::writes_types, (), views[14])
            && call_ensures(P::writes_types, (), views[15])
            && call_ensures(Q::writes_types, (), views[16])
            && types@ == type_lists(views).flatten()
        );
        types
    }

    fn reads<Comp: Component>() -> bool {
        tuple17_reads::<'a, A, B, C, D, E, F, G, H, I, J, K, L, M, N, O, P, Q, Comp>()
    }

    fn writes<Comp: Component>() -> bool {
        tuple17_writes::<'a, A, B, C, D, E, F, G, H, I, J, K, L, M, N, O, P, Q, Comp>()
    }
}

impl<'a, A: Fetch, B: Fetch, C: Fetch, D: Fetch, E: Fetch, F: Fetch, G: Fetch, H: Fetch, I: Fetch, J: Fetch, K: Fetch, L: Fetch, M: Fetch, N: Fetch, O: Fetch, P: Fetch, Q: Fetch> IntoIndexableIter for MultiFetch<'a, (A, B, C, D, E, F, G, H, I, J, K, L, M, N, O, P, Q)> {
    type Item = (A::Item, B::Item, C::Item, D::Item, E::Item, F::Item, G::Item, H::Item, I::Item, J::Item, K::Item, L::Item, M::Item, N::Item, O::Item, P::Item, Q::Item);
    type IntoIter = (A::IntoIter, B::IntoIter, C::IntoIter, D::IntoIter, E::IntoIter, F::IntoIter, G::IntoIter, H::IntoIter, I::IntoIter, J::IntoIter, K::IntoIter, L::IntoIter, M::IntoIter, N::IntoIter, O::IntoIter, P::IntoIter, Q::IntoIter);

    fn into_indexable_iter(self) -> (iter: Self::IntoIter)
        ensures
            call_ensures(A::into_indexable_iter, (self.fetches().0,), iter.0),
            call_ensures(B::into_indexable_iter, (self.fetches().1,), iter.1),
            call_ensures(C::into_indexable_iter, (self.fetches().2,), iter.2),
            call_ensures(D::into_indexable_iter, (self.fetches().3,), iter.3),
            call_ensures(E::into_indexable_iter, (self.fetches().4,), iter.4),
            call_ensures(F::into_indexable_iter, (self.fetches().5,), iter.5),
            call_ensures(G::into_indexable_iter, (self.fetches().6,), iter.6),
            call_ensures(H::into_indexable_iter, (self.fetches().7,), iter.7),
            call_ensures(I::into_indexable_iter, (self.fetches().8,), iter.8),
            call_ensures(J::into_indexable_iter, (self.fetches().9,), iter.9),
            call_ensures(K::into_indexable_iter, (self.fetches().10,), iter.10),
            call_ensures(L::into_indexable_iter, (self.fetches().11,), iter.11),
            call_ensures(M::into_indexable_iter, (self.fetches().12,), iter.12),
            call_ensures(N::into_indexable_iter, (self.fetches().13,), iter.13),
            call_ensures(O::into_indexable_iter, (self.fetches().14,), iter.14),
            call_ensures(P::into_indexable_iter, (self.fetches().15,), iter.15),
            call_ensures(Q::into_indexable_iter, (self.fetches().16,), iter.16),
    {
        let (a, b, c, d, e, f, g, h, i, j, k, l, m, n, o, p, q) = self.fetches;
        ((A::into_indexable_iter)(a), (B::into_indexable_iter)(b), (C::into_indexable_iter)(c), (D::into_indexable_iter)(d), (E::into_indexable_iter)(e), (F::into_indexable_iter)(f), (G::into_indexable_iter)(g), (H::into_indexable_iter)(h), (I::into_indexable_iter)(i), (J::into_indexable_iter)(j), (K::into_indexable_iter)(k), (L::into_indexable_iter)(l), (M::into_indexable_iter)(m), (N::into_indexable_iter)(n), (O::into_indexable_iter)(o), (P::into_indexable_iter)(p), (Q::into_indexable_iter)(q))
    }
}

impl<'a, A: Fetch, B: Fetch, C: Fetch, D: Fetch, E: Fetch, F: Fetch, G: Fetch, H: Fetch, I: Fetch, J: Fetch, K: Fetch, L: Fetch, M: Fetch, N: Fetch, O: Fetch, P: Fetch, Q: Fetch> Fetch for MultiFetch<'a, (A, B, C, D, E, F, G, H, I, J, K, L, M, N, O, P, Q)> {
    type Data = (A::Data, B::Data, C::Data, D::Data, E::Data, F::Data, G::Data, H::Data, I::Data, J::Data, K::Data, L::Data, M::Data, N::Data, O::Data, P::Data, Q::Data);

    fn into_components(self) -> (data: Self::Data)
        ensures
            call_ensures(A::into_components, (self.fetches().0,), data.0),
            call_ensures(B::into_components, (self.fetches().1,), data.1),
            call_ensures(C::into_components, (self.fetches().2,), data.2),
            call_ensures(D::into_components, (self.fetches().3,), data.3),
            call_ensures(E::into_components, (self.fetches().4,), data.4),
            call_ensures(F::into_components, (self.fetches().5,), data.5),
            call_ensures(G::into_components, (self.fetches().6,), data.6),
            call_ensures(H::into_components, (self.fetches().7,), data.7),
            call_ensures(I::into_components, (self.fetches().8,), data.8),
            call_ensures(J::into_components, (self.fetches().9,), data.9),
            call_ensures(K::into_components, (self.fetches().10,), data.10),
            call_ensures(L::into_components, (self.fetches().11,), data.11),
            call_ensures(M::into_components, (self.fetches().12,), data.12),
            call_ensures(N::into_components, (self.fetches().13,), data.13),
            call_ensures(O::into_components, (self.fetches().14,), data.14),
            call_ensures(P::into_components, (self.fetches().15,), data.15),
            call_ensures(Q::into_components, (self.fetches().16,), data.16),
    {
        let (a, b, c, d, e, f, g, h, i, j, k, l, m, n, o, p, q) = self.fetches;
        ((A::into_components)(a), (B::into_components)(b), (C::into_components)(c), (D::into_components)(d), (E::into_components)(e), (F::into_components)(f), (G::into_components)(g), (H::into_components)(h), (I::into_components)(i), (J::into_components)(j), (K::into_components)(k), (L::into_components)(l), (M::into_components)(m), (N::into_components)(n), (O::into_components)(o), (P::into_components)(p), (Q::into_components)(q))
    }

    fn find<Comp: 'static>(&self) -> Option<&[Comp]> {
        tuple17_find::<A, B, C, D, E, F, G, H, I, J, K, L, M, N, O, P, Q, Comp>(&self.fetches)
    }

    fn find_mut<Comp: 'static>(&mut self) -> Option<&mut [Comp]> {
        tuple17_find_mut::<A, B, C, D, E, F, G, H, I, J, K, L, M, N, O, P, Q, Comp>(&mut self.fetches)
    }

    fn version<Comp: Component>(&self) -> Option<u64> {
        tuple17_version::<A, B, C, D, E, F, G, H, I, J, K, L, M, N, O, P, Q, Comp>(&self.fetches)
    }

    fn accepted(&mut self)
        ensures
            exists|m: &mut A|
                *m == old(self).fetches().0 && *final(m) == final(self).fetches().0
                && call_ensures(A::accepted, (m,), ()),
            exists|m: &mut B|
                *m == old(self).fetches().1 && *final(m) == final(self).fetches().1
                && call_ensures(B::accepted, (m,), ()),
            exists|m: &mut C|
                *m == old(self).fetches().2 && *final(m) == final(self).fetches().2
                && call_ensures(C::accepted, (m,), ()),
            exists|m: &mut D|
                *m == old(self).fetches().3 && *final(m) == final(self).fetches().3
                && call_ensures(D::accepted, (m,), ()),
            exists|m: &mut E|
                *m == old(self).fetches().4 && *final(m) == final(self).fetches().4
                && call_ensures(E::accepted, (m,), ()),
            exists|m: &mut F|
                *m == old(self).fetches().5 && *final(m) == final(self).fetches().5
                && call_ensures(F::accepted, (m,), ()),
            exists|m: &mut G|
                *m == old(self).fetches().6 && *final(m) == final(self).fetches().6
                && call_ensures(G::accepted, (m,), ()),
            exists|m: &mut H|
                *m == old(self).fetches().7 && *final(m) == final(self).fetches().7
                && call_ensures(H::accepted, (m,), ()),
            exists|m: &mut I|
                *m == old(self).fetches().8 && *final(m) == final(self).fetches().8
                && call_ensures(I::accepted, (m,), ()),
            exists|m: &mut J|
                *m == old(self).fetches().9 && *final(m) == final(self).fetches().9
                && call_ensures(J::accepted, (m,), ()),
            exists|m: &mut K|
                *m == old(self).fetches().10 && *final(m) == final(self).fetches().10
                && call_ensures(K::accepted, (m,), ()),
            exists|m: &mut L|
                *m == old(self).fetches().11 && *final(m) == final(self).fetches().11
                && call_ensures(L::accepted, (m,), ()),
            exists|m: &mut M|
                *m == old(self).fetches().12 && *final(m) == final(self).fetches().12
                && call_ensures(M::accepted, (m,), ()),
            exists|m: &mut N|
                *m == old(self).fetches().13 && *final(m) == final(self).fetches().13
                && call_ensures(N::accepted, (m,), ()),
            exists|m: &mut O|
                *m == old(self).fetches().14 && *final(m) == final(self).fetches().14
                && call_ensures(O::accepted, (m,), ()),
            exists|m: &mut P|
                *m == old(self).fetches().15 && *final(m) == final(self).fetches().15
                && call_ensures(P::accepted, (m,), ()),
            exists|m: &mut Q|
                *m == old(self).fetches().16 && *final(m) == final(self).fetches().16
                && call_ensures(Q::accepted, (m,), ()),
    {
        let (a, b, c, d, e, f, g, h, i, j, k, l, m, n, o, p, q) = &mut self.fetches;
        (A::accepted)(a);
        (B::accepted)(b);
        (C::accepted)(c);
        (D::accepted)(d);
        (E::accepted)(e);
        (F::accepted)(f);
        (G::accepted)(g);
        (H::accepted)(h);
        (I::accepted)(i);
        (J::accepted)(j);
        (K::accepted)(k);
        (L::accepted)(l);
        (M::accepted)(m);
        (N::accepted)(n);
        (O::accepted)(o);
        (P::accepted)(p);
        (Q::accepted)(q);
    }
}

impl<'a, A: ReadOnlyFetch, B: ReadOnlyFetch, C: ReadOnlyFetch, D: ReadOnlyFetch, E: ReadOnlyFetch, F: ReadOnlyFetch, G: ReadOnlyFetch, H: ReadOnlyFetch, I: ReadOnlyFetch, J: ReadOnlyFetch, K: ReadOnlyFetch, L: ReadOnlyFetch, M: ReadOnlyFetch, N: ReadOnlyFetch, O: ReadOnlyFetch, P: ReadOnlyFetch, Q: ReadOnlyFetch> ReadOnlyFetch for MultiFetch<'a, (A, B, C, D, E, F, G, H, I, J, K, L, M, N, O, P, Q)> {
    fn get_components(&self) -> (data: Self::Data)
        ensures
            call_ensures(A::get_components, (&self.fetches().0,), data.0),
            call_ensures(B::get_components, (&self.fetches().1,), data.1),
            call_ensures(C::get_components, (&self.fetches().2,), data.2),
            call_ensures(D::get_components, (&self.fetches().3,), data.3),
            call_ensures(E::get_components, (&self.fetches().4,), data.4),
            call_ensures(F::get_components, (&self.fetches().5,), data.5),
            call_ensures(G::get_components, (&self.fetches().6,), data.6),
            call_ensures(H::get_components, (&self.fetches().7,), data.7),
            call_ensures(I::get_components, (&self.fetches().8,), data.8),
            call_ensures(J::get_components, (&self.fetches().9,), data.9),
            call_ensures(K::get_components, (&self.fetches().10,), data.10),
            call_ensures(L::get_components, (&self.fetches().11,), data.11),
            call_ensures(M::get_components, (&self.fetches().12,), data.12),
            call_ensures(N::get_components, (&self.fetches().13,), data.13),
            call_ensures(O::get_components, (&self.fetches().14,), data.14),
            call_ensures(P::get_components, (&self.fetches().15,), data.15),
            call_ensures(Q::get_components, (&self.fetches().16,), data.16),
    {
        let (a, b, c, d, e, f, g, h, i, j, k, l, m, n, o, p, q) = &self.fetches;
        ((A::get_components)(a), (B::get_components)(b), (C::get_components)(c), (D::get_components)(d), (E::get_components)(e), (F::get_components)(f), (G::get_components)(g), (H::get_components)(h), (I::get_components)(i), (J::get_components)(j), (K::get_components)(k), (L::get_components)(l), (M::get_components)(m), (N::get_components)(n), (O::get_components)(o), (P::get_components)(p), (Q::get_components)(q))
    }
}

/// Whether some view of a tuple of 17 reads `Comp`, asking the views in order.
pub fn tuple17_reads<'a, A: View<'a> + 'a, B: View<'a> + 'a, C: View<'a> + 'a, D: View<'a> + 'a, E: View<'a> + 'a, F: View<'a> + 'a, G: View<'a> + 'a, H: View<'a> + 'a, I: View<'a> + 'a, J: View<'a> + 'a, K: View<'a> + 'a, L: View<'a> + 'a, M: View<'a> + 'a, N: View<'a> + 'a, O: View<'a> + 'a, P: View<'a> + 'a, Q: View<'a> + 'a, Comp: Component>() -> (found: bool)
    ensures
        (found && call_ensures(A::reads::<Comp>, (), true))
        || (call_ensures(A::reads::<Comp>, (), false) && (
            (found && call_ensures(B::reads::<Comp>, (), true))
            || (call_ensures(B::reads::<Comp>, (), false) && (
                (found && call_ensures(C::reads::<Comp>, (), true))
                || (call_ensures(C::reads::<Comp>, (), false) && (
                    (found && call_ensures(D::reads::<Comp>, (), true))
                    || (call_ensures(D::reads::<Comp>, (), false) && (
                        (found && call_ensures(E::reads::<Comp>, (), true))
                        || (call_ensures(E::reads::<Comp>, (), false) && (
                            (found && call_ensures(F::reads::<Comp>, (), true))
                            || (call_ensures(F::reads::<Comp>, (), false) && (
                                (found && call_ensures(G::reads::<Comp>, (), true))
                                || (call_ensures(G::reads::<Comp>, (), false) && (
                                    (found && call_ensures(H::reads::<Comp>, (), true))
                                    || (call_ensures(H::reads::<Comp>, (), false) && (
                                        (found && call_ensures(I::reads::<Comp>, (), true))
                                        || (call_ensures(I::reads::<Comp>, (), false) && (
                                            (found && call_ensures(J::reads::<Comp>, (), true))
                                            || (call_ensures(J::reads::<Comp>, (), false) && (
                                                (found && call_ensures(K::reads::<Comp>, (), true))
                                                || (call_ensures(K::reads::<Comp>, (), false) && (
                                                    (found && call_ensures(L::reads::<Comp>, (), true))
                                                    || (call_ensures(L::reads::<Comp>, (), false) && (
                                                        (found && call_ensures(M::reads::<Comp>, (), true))
                                                        || (call_ensures(M::reads::<Comp>, (), false) && (
                                                            (found && call_ensures(N::reads::<Comp>, (), true))
                                                            || (call_ensures(N::reads::<Comp>, (), false) && (
                                                                (found && call_ensures(O::reads::<Comp>, (), true))
                                                                || (call_ensures(O::reads::<Comp>, (), false) && (
                                                                    (found && call_ensures(P::reads::<Comp>, (), true))
                                                                    || (call_ensures(P::reads::<Comp>, (), false) && (
                                                                        call_ensures(Q::reads::<Comp>, (), found))))))))))))))))))))))))))))))))),
{
    (A::reads::<Comp>)()
        || (B::reads::<Comp>)()
        || (C::reads::<Comp>)()
        || (D::reads::<Comp>)()
        || (E::reads::<Comp>)()
        || (F::reads::<Comp>)()
        || (G::reads::<Comp>)()
        || (H::reads::<Comp>)()
        || (I::reads::<Comp>)()
        || (J::reads::<Comp>)()
        || (K::reads::<Comp>)()
        || (L::reads::<Comp>)()
        || (M::reads::<Comp>)()
        || (N::reads::<Comp>)()
        || (O::reads::<Comp>)()
        || (P::reads::<Comp>)()
        || (Q::reads::<Comp>)()
}

/// Whether some view of a tuple of 17 writes `Comp`, asking the views in order.
pub fn tuple17_writes<'a, A: View<'a> + 'a, B: View<'a> + 'a, C: View<'a> + 'a, D: View<'a> + 'a, E: View<'a> + 'a, F: View<'a> + 'a, G: View<'a> + 'a, H: View<'a> + 'a, I: View<'a> + 'a, J: View<'a> + 'a, K: View<'a> + 'a, L: View<'a> + 'a, M: View<'a> + 'a, N: View<'a> + 'a, O: View<'a> + 'a, P: View<'a> + 'a, Q: View<'a> + 'a, Comp: Component>() -> (found: bool)
    ensures
        (found && call_ensures(A::writes::<Comp>, (), true))
        || (call_ensures(A::writes::<Comp>, (), false) && (
            (found && call_ensures(B::writes::<Comp>, (), true))
            || (call_ensures(B::writes::<Comp>, (), false) && (
                (found && call_ensures(C::writes::<Comp>, (), true))
                || (call_ensures(C::writes::<Comp>, (), false) && (
                    (found && call_ensures(D::writes::<Comp>, (), true))
                    || (call_ensures(D::writes::<Comp>, (), false) && (
                        (found && call_ensures(E::writes::<Comp>, (), true))
                        || (call_ensures(E::writes::<Comp>, (), false) && (
                            (found && call_ensures(F::writes::<Comp>, (), true))
                            || (call_ensures(F::writes::<Comp>, (), false) && (
                                (found && call_ensures(G::writes::<Comp>, (), true))
                                || (call_ensures(G::writes::<Comp>, (), false) && (
                                    (found && call_ensures(H::writes::<Comp>, (), true))
                                    || (call_ensures(H::writes::<Comp>, (), false) && (
                                        (found && call_ensures(I::writes::<Comp>, (), true))
                                        || (call_ensures(I::writes::<Comp>, (), false) && (
                                            (found && call_ensures(J::writes::<Comp>, (), true))
                                            || (call_ensures(J::writes::<Comp>, (), false) && (
                                                (found && call_ensures(K::writes::<Comp>, (), true))
                                                || (call_ensures(K::writes::<Comp>, (), false) && (
                                                    (found && call_ensures(L::writes::<Comp>, (), true))
                                                    || (call_ensures(L::writes::<Comp>, (), false) && (
                                                        (found && call_ensures(M::writes::<Comp>, (), true))
                                                        || (call_ensures(M::writes::<Comp>, (), false) && (
                                                            (found && call_ensures(N::writes::<Comp>, (), true))
                                                            || (call_ensures(N::writes::<Comp>, (), false) && (
                                                                (found && call_ensures(O::writes::<Comp>, (), true))
                                                                || (call_ensures(O::writes::<Comp>, (), false) && (
                                                                    (found && call_ensures(P::writes::<Comp>, (), true))
                                                                    || (call_ensures(P::writes::<Comp>, (), false) && (
                                                                        call_ensures(Q::writes::<Comp>, (), found))))))))))))))))))))))))))))))))),
{
    (A::writes::<Comp>)()
        || (B::writes::<Comp>)()
        || (C::writes::<Comp>)()
        || (D::writes::<Comp>)()
        || (E::writes::<Comp>)()
        || (F::writes::<Comp>)()
        || (G::writes::<Comp>)()
        || (H::writes::<Comp>)()
        || (I::writes::<Comp>)()
        || (J::writes::<Comp>)()
        || (K::writes::<Comp>)()
        || (L::writes::<Comp>)()
        || (M::writes::<Comp>)()
        || (N::writes::<Comp>)()
        || (O::writes::<Comp>)()
        || (P::writes::<Comp>)()
        || (Q::writes::<Comp>)()
}

/// The slice of the first fetch of a tuple of 17 that holds `Comp`.
pub fn tuple17_find<'f, A: Fetch, B: Fetch, C: Fetch, D: Fetch, E: Fetch, F: Fetch, G: Fetch, H: Fetch, I: Fetch, J: Fetch, K: Fetch, L: Fetch, M: Fetch, N: Fetch, O: Fetch, P: Fetch, Q: Fetch, Comp: 'static>(fetches: &'f (A, B, C, D, E, F, G, H, I, J, K, L, M, N, O, P, Q)) -> (found: Option<&'f [Comp]>)
    ensures
        (found is Some && call_ensures(A::find::<Comp>, (&fetches.0,), found))
        || (call_ensures(A::find::<Comp>, (&fetches.0,), None) && (
            (found is Some && call_ensures(B::find::<Comp>, (&fetches.1,), found))
            || (call_ensures(B::find::<Comp>, (&fetches.1,), None) && (
                (found is Some && call_ensures(C::find::<Comp>, (&fetches.2,), found))
                || (call_ensures(C::find::<Comp>, (&fetches.2,), None) && (
                    (found is Some && call_ensures(D::find::<Comp>, (&fetches.3,), found))
                    || (call_ensures(D::find::<Comp>, (&fetches.3,), None) && (
                        (found is Some && call_ensures(E::find::<Comp>, (&fetches.4,), found))
                        || (call_ensures(E::find::<Comp>, (&fetches.4,), None) && (
                            (found is Some && call_ensures(F::find::<Comp>, (&fetches.5,), found))
                            || (call_ensures(F::find::<Comp>, (&fetches.5,), None) && (
                                (found is Some && call_ensures(G::find::<Comp>, (&fetches.6,), found))
                                || (call_ensures(G::find::<Comp>, (&fetches.6,), None) && (
                                    (found is Some && call_ensures(H::find::<Comp>, (&fetches.7,), found))
                                    || (call_ensures(H::find::<Comp>, (&fetches.7,), None) && (
                                        (found is Some && call_ensures(I::find::<Comp>, (&fetches.8,), found))
                                        || (call_ensures(I::find::<Comp>, (&fetches.8,), None) && (
                                            (found is Some && call_ensures(J::find::<Comp>, (&fetches.9,), found))
                                            || (call_ensures(J::find::<Comp>, (&fetches.9,), None) && (
                                                (found is Some && call_ensures(K::find::<Comp>, (&fetches.10,), found))
                                                || (call_ensures(K::find::<Comp>, (&fetches.10,), None) && (
                                                    (found is Some && call_ensures(L::find::<Comp>, (&fetches.11,), found))
                                                    || (call_ensures(L::find::<Comp>, (&fetches.11,), None) && (
                                                        (found is Some && call_ensures(M::find::<Comp>, (&fetches.12,), found))
                                                        || (call_ensures(M::find::<Comp>, (&fetches.12,), None) && (
                                                            (found is Some && call_ensures(N::find::<Comp>, (&fetches.13,), found))
                                                            || (call_ensures(N::find::<Comp>, (&fetches.13,), None) && (
                                                                (found is Some && call_ensures(O::find::<Comp>, (&fetches.14,), found))
                                                                || (call_ensures(O::find::<Comp>, (&fetches.14,), None) && (
                                                                    (found is Some && call_ensures(P::find::<Comp>, (&fetches.15,), found))
                                                                    || (call_ensures(P::find::<Comp>, (&fetches.15,), None) && (
                                                                        call_ensures(Q::find::<Comp>, (&fetches.16,), found))))))))))))))))))))))))))))))))),
{
    let (a, b, c, d, e, f, g, h, i, j, k, l, m, n, o, p, q) = fetches;
    if let Some(slice) = (A::find::<Comp>)(a) {
        return Some(slice);
    }
    if let Some(slice) = (B::find::<Comp>)(b) {
        return Some(slice);
    }
    if let Some(slice) = (C::find::<Comp>)(c) {
        return Some(slice);
    }
    if let Some(slice) = (D::find::<Comp>)(d) {
        return Some(slice);
    }
    if let Some(slice) = (E::find::<Comp>)(e) {
        return Some(slice);
    }
    if let Some(slice) = (F::find::<Comp>)(f) {
        return Some(slice);
    }
    if let Some(slice) = (G::find::<Comp>)(g) {
        return Some(slice);
    }
    if let Some(slice) = (H::find::<Comp>)(h) {
        return Some(slice);
    }
    if let Some(slice) = (I::find::<Comp>)(i) {
        return Some(slice);
    }
    if let Some(slice) = (J::find::<Comp>)(j) {
        return Some(slice);
    }
    if let Some(slice) = (K::find::<Comp>)(k) {
        return Some(slice);
    }
    if let Some(slice) = (L::find::<Comp>)(l) {
        return Some(slice);
    }
    if let Some(slice) = (M::find::<Comp>)(m) {
        return Some(slice);
    }
    if let Some(slice) = (N::find::<Comp>)(n) {
        return Some(slice);
    }
    if let Some(slice) = (O::find::<Comp>)(o) {
        return Some(slice);
    }
    if let Some(slice) = (P::find::<Comp>)(p) {
        return Some(slice);
    }
    (Q::find::<Comp>)(q)
}

/// The mutable slice of the first fetch of a tuple of 17 that holds `Comp`.
pub fn tuple17_find_mut<'f, A: Fetch, B: Fetch, C: Fetch, D: Fetch, E: Fetch, F: Fetch, G: Fetch, H: Fetch, I: Fetch, J: Fetch, K: Fetch, L: Fetch, M: Fetch, N: Fetch, O: Fetch, P: Fetch, Q: Fetch, Comp: 'static>(fetches: &'f mut (A, B, C, D, E, F, G, H, I, J, K, L, M, N, O, P, Q)) -> (found: Option<&'f mut [Comp]>)
    ensures
        exists|m: &mut A|
            *m == old(fetches).0
            && *final(m) == final(fetches).0
            && ((found is Some && call_ensures(A::find_mut::<Comp>, (m,), found) && final(fetches).1 == old(fetches).1 && final(fetches).2 == old(fetches).2 && final(fetches).3 == old(fetches).3 && final(fetches).4 == old(fetches).4 && final(fetches).5 == old(fetches).5 && final(fetches).6 == old(fetches).6 && final(fetches).7 == old(fetches).7 && final(fetches).8 == old(fetches).8 && final(fetches).9 == old(fetches).9 && final(fetches).10 == old(fetches).10 && final(fetches).11 == old(fetches).11 && final(fetches).12 == old(fetches).12 && final(fetches).13 == old(fetches).13 && final(fetches).14 == old(fetches).14 && final(fetches).15 == old(fetches).15 && final(fetches).16 == old(fetches).16)
            || (call_ensures(A::find_mut::<Comp>, (m,), None) && (
                exists|m: &mut B|
                    *m == old(fetches).1
                    && *final(m) == final(fetches).1
                    && ((found is Some && call_ensures(B::find_mut::<Comp>, (m,), found) && final(fetches).2 == old(fetches).2 && final(fetches).3 == old(fetches).3 && final(fetches).4 == old(fetches).4 && final(fetches).5 == old(fetches).5 && final(fetches).6 == old(fetches).6 && final(fetches).7 == old(fetches).7 && final(fetches).8 == old(fetches).8 && final(fetches).9 == old(fetches).9 && final(fetches).10 == old(fetches).10 && final(fetches).11 == old(fetches).11 && final(fetches).12 == old(fetches).12 && final(fetches).13 == old(fetches).13 && final(fetches).14 == old(fetches).14 && final(fetches).15 == old(fetches).15 && final(fetches).16 == old(fetches).16)
                    || (call_ensures(B::find_mut::<Comp>, (m,), None) && (
                        exists|m: &mut C|
                            *m == old(fetches).2
                            && *final(m) == final(fetches).2
                            && ((found is Some && call_ensures(C::find_mut::<Comp>, (m,), found) && final(fetches).3 == old(fetches).3 && final(fetches).4 == old(fetches).4 && final(fetches).5 == old(fetches).5 && final(fetches).6 == old(fetches).6 && final(fetches).7 == old(fetches).7 && final(fetches).8 == old(fetches).8 && final(fetches).9 == old(fetches).9 && final(fetches).10 == old(fetches).10 && final(fetches).11 == old(fetches).11 && final(fetches).12 == old(fetches).12 && final(fetches).13 == old(fetches).13 && final(fetches).14 == old(fetches).14 && final(fetches).15 == old(fetches).15 && final(fetches).16 == old(fetches).16)
                            || (call_ensures(C::find_mut::<Comp>, (m,), None) && (
                                exists|m: &mut D|
                                    *m == old(fetches).3
                                    && *final(m) == final(fetches).3
                                    && ((found is Some && call_ensures(D::find_mut::<Comp>, (m,), found) && final(fetches).4 == old(fetches).4 && final(fetches).5 == old(fetches).5 && final(fetches).6 == old(fetches).6 && final(fetches).7 == old(fetches).7 && final(fetches).8 == old(fetches).8 && final(fetches).9 == old(fetches).9 && final(fetches).10 == old(fetches).10 && final(fetches).11 == old(fetches).11 && final(fetches).12 == old(fetches).12 && final(fetches).13 == old(fetches).13 && final(fetches).14 == old(fetches).14 && final(fetches).15 == old(fetches).15 && final(fetches).16 == old(fetches).16)
                                    || (call_ensures(D::find_mut::<Comp>, (m,), None) && (
                                        exists|m: &mut E|
                                            *m == old(fetches).4
                                            && *final(m) == final(fetches).4
                                            && ((found is Some && call_ensures(E::find_mut::<Comp>, (m,), found) && final(fetches).5 == old(fetches).5 && final(fetches).6 == old(fetches).6 && final(fetches).7 == old(fetches).7 && final(fetches).8 == old(fetches).8 && final(fetches).9 == old(fetches).9 && final(fetches).10 == old(fetches).10 && final(fetches).11 == old(fetches).11 && final(fetches).12 == old(fetches).12 && final(fetches).13 == old(fetches).13 && final(fetches).14 == old(fetches).14 && final(fetches).15 == old(fetches).15 && final(fetches).16 == old(fetches).16)
                                            || (call_ensures(E::find_mut::<Comp>, (m,), None) && (
                                                exists|m: &mut F|
                                                    *m == old(fetches).5
                                                    && *final(m) == final(fetches).5
                                                    && ((found is Some && call_ensures(F::find_mut::<Comp>, (m,), found) && final(fetches).6 == old(fetches).6 && final(fetches).7 == old(fetches).7 && final(fetches).8 == old(fetches).8 && final(fetches).9 == old(fetches).9 && final(fetches).10 == old(fetches).10 && final(fetches).11 == old(fetches).11 && final(fetches).12 == old(fetches).12 && final(fetches).13 == old(fetches).13 && final(fetches).14 == old(fetches).14 && final(fetches).15 == old(fetches).15 && final(fetches).16 == old(fetches).16)
                                                    || (call_ensures(F::find_mut::<Comp>, (m,), None) && (
                                                        exists|m: &mut G|
                                                            *m == old(fetches).6
                                                            && *final(m) == final(fetches).6
                                                            && ((found is Some && call_ensures(G::find_mut::<Comp>, (m,), found) && final(fetches).7 == old(fetches).7 && final(fetches).8 == old(fetches).8 && final(fetches).9 == old(fetches).9 && final(fetches).10 == old(fetches).10 && final(fetches).11 == old(fetches).11 && final(fetches).12 == old(fetches).12 && final(fetches).13 == old(fetches).13 && final(fetches).14 == old(fetches).14 && final(fetches).15 == old(fetches).15 && final(fetches).16 == old(fetches).16)
                                                            || (call_ensures(G::find_mut::<Comp>, (m,), None) && (
                                                                exists|m: &mut H|
                                                                    *m == old(fetches).7
                                                                    && *final(m) == final(fetches).7
                                                                    && ((found is Some && call_ensures(H::find_mut::<Comp>, (m,), found) && final(fetches).8 == old(fetches).8 && final(fetches).9 == old(fetches).9 && final(fetches).10 == old(fetches).10 && final(fetches).11 == old(fetches).11 && final(fetches).12 == old(fetches).12 && final(fetches).13 == old(fetches).13 && final(fetches).14 == old(fetches).14 && final(fetches).15 == old(fetches).15 && final(fetches).16 == old(fetches).16)
                                                                    || (call_ensures(H::find_mut::<Comp>, (m,), None) && (
                                                                        exists|m: &mut I|
                                                                            *m == old(fetches).8
                                                                            && *final(m) == final(fetches).8
                                                                            && ((found is Some && call_ensures(I::find_mut::<Comp>, (m,), found) && final(fetches).9 == old(fetches).9 && final(fetches).10 == old(fetches).10 && final(fetches).11 == old(fetches).11 && final(fetches).12 == old(fetches).12 && final(fetches).13 == old(fetches).13 && final(fetches).14 == old(fetches).14 && final(fetches).15 == old(fetches).15 && final(fetches).16 == old(fetches).16)
                                                                            || (call_ensures(I::find_mut::<Comp>, (m,), None) && (
                                                                                exists|m: &mut J|
                                                                                    *m == old(fetches).9
                                                                                    && *final(m) == final(fetches).9
                                                                                    && ((found is Some && call_ensures(J::find_mut::<Comp>, (m,), found) && final(fetches).10 == old(fetches).10 && final(fetches).11 == old(fetches).11 && final(fetches).12 == old(fetches).12 && final(fetches).13 == old(fetches).13 && final(fetches).14 == old(fetches).14 && final(fetches).15 == old(fetches).15 && final(fetches).16 == old(fetches).16)
                                                                                    || (call_ensures(J::find_mut::<Comp>, (m,), None) && (
                                                                                        exists|m: &mut K|
                                                                                            *m == old(fetches).10
                                                                                            && *final(m) == final(fetches).10
                                                                                            && ((found is Some && call_ensures(K::find_mut::<Comp>, (m,), found) && final(fetches).11 == old(fetches).11 && final(fetches).12 == old(fetches).12 && final(fetches).13 == old(fetches).13 && final(fetches).14 == old(fetches).14 && final(fetches).15 == old(fetches).15 && final(fetches).16 == old(fetches).16)
                                                                                            || (call_ensures(K::find_mut::<Comp>, (m,), None) && (
                                                                                                exists|m: &mut L|
                                                                                                    *m == old(fetches).11
                                                                                                    && *final(m) == final(fetches).11
                                                                                                    && ((found is Some && call_ensures(L::find_mut::<Comp>, (m,), found) && final(fetches).12 == old(fetches).12 && final(fetches).13 == old(fetches).13 && final(fetches).14 == old(fetches).14 && final(fetches).15 == old(fetches).15 && final(fetches).16 == old(fetches).16)
                                                                                                    || (call_ensures(L::find_mut::<Comp>, (m,), None) && (
                                                                                                        exists|m: &mut M|
                                                                                                            *m == old(fetches).12
                                                                                                            && *final(m) == final(fetches).12
                                                                                                            && ((found is Some && call_ensures(M::find_mut::<Comp>, (m,), found) && final(fetches).13 == old(fetches).13 && final(fetches).14 == old(fetches).14 && final(fetches).15 == old(fetches).15 && final(fetches).16 == old(fetches).16)
                                                                                                            || (call_ensures(M::find_mut::<Comp>, (m,), None) && (
                                                                                                                exists|m: &mut N|
                                                                                                                    *m == old(fetches).13
                                                                                                                    && *final(m) == final(fetches).13
                                                                                                                    && ((found is Some && call_ensures(N::find_mut::<Comp>, (m,), found) && final(fetches).14 == old(fetches).14 && final(fetches).15 == old(fetches).15 && final(fetches).16 == old(fetches).16)
                                                                                                                    || (call_ensures(N::find_mut::<Comp>, (m,), None) && (
                                                                                                                        exists|m: &mut O|
                                                                                                                            *m == old(fetches).14
                                                                                                                            && *final(m) == final(fetches).14
                                                                                                                            && ((found is Some && call_ensures(O::find_mut::<Comp>, (m,), found) && final(fetches).15 == old(fetches).15 && final(fetches).16 == old(fetches).16)
                                                                                                                            || (call_ensures(O::find_mut::<Comp>, (m,), None) && (
                                                                                                                                exists|m: &mut P|
                                                                                                                                    *m == old(fetches).15
                                                                                                                                    && *final(m) == final(fetches).15
                                                                                                                                    && ((found is Some && call_ensures(P::find_mut::<Comp>, (m,), found) && final(fetches).16 == old(fetches).16)
                                                                                                                                    || (call_ensures(P::find_mut::<Comp>, (m,), None) && (
                                                                                                                                        exists|m: &mut Q|
                                                                                                                                            *m == old(fetches).16
                                                                                                                                            && *final(m) == final(fetches).16
                                                                                                                                            && call_ensures(Q::find_mut::<Comp>, (m,), found))))))))))))))))))))))))))))))))))))))))))))))))),
{
    let found = (A::find_mut::<Comp>)(&mut fetches.0);
    if found.is_some() {
        return found;
    }
    let found = (B::find_mut::<Comp>)(&mut fetches.1);
    if found.is_some() {
        return found;
    }
    let found = (C::find_mut::<Comp>)(&mut fetches.2);
    if found.is_some() {
        return found;
    }
    let found = (D::find_mut::<Comp>)(&mut fetches.3);
    if found.is_some() {
        return found;
    }
    let found = (E::find_mut::<Comp>)(&mut fetches.4);
    if found.is_some() {
        return found;
    }
    let found = (F::find_mut::<Comp>)(&mut fetches.5);
    if found.is_some() {
        return found;
    }
    let found = (G::find_mut::<Comp>)(&mut fetches.6);
    if found.is_some() {
        return found;
    }
    let found = (H::find_mut::<Comp>)(&mut fetches.7);
    if found.is_some() {
        return found;
    }
    let found = (I::find_mut::<Comp>)(&mut fetches.8);
    if found.is_some() {
        return found;
    }
    let found = (J::find_mut::<Comp>)(&mut fetches.9);
    if found.is_some() {
        return found;
    }
    let found = (K::find_mut::<Comp>)(&mut fetches.10);
    if found.is_some() {
        return found;
    }
    let found = (L::find_mut::<Comp>)(&mut fetches.11);
    if found.is_some() {
        return found;
    }
    let found = (M::find_mut::<Comp>)(&mut fetches.12);
    if found.is_some() {
        return found;
    }
    let found = (N::find_mut::<Comp>)(&mut fetches.13);
    if found.is_some() {
        return found;
    }
    let found = (O::find_mut::<Comp>)(&mut fetches.14);
    if found.is_some() {
        return found;
    }
    let found = (P::find_mut::<Comp>)(&mut fetches.15);
    if found.is_some() {
        return found;
    }
    (Q::find_mut::<Comp>)(&mut fetches.16)
}

/// The version of `Comp` in the first fetch of a tuple of 17 that holds it.
pub fn tuple17_version<A: Fetch, B: Fetch, C: Fetch, D: Fetch, E: Fetch, F: Fetch, G: Fetch, H: Fetch, I: Fetch, J: Fetch, K: Fetch, L: Fetch, M: Fetch, N: Fetch, O: Fetch, P: Fetch, Q: Fetch, Comp: Component>(fetches: &(A, B, C, D, E, F, G, H, I, J, K, L, M, N, O, P, Q)) -> (version: Option<u64>)
    ensures
        (version is Some && call_ensures(A::version::<Comp>, (&fetches.0,), version))
        || (call_ensures(A::version::<Comp>, (&fetches.0,), None) && (
            (version is Some && call_ensures(B::version::<Comp>, (&fetches.1,), version))
            || (call_ensures(B::version::<Comp>, (&fetches.1,), None) && (
                (version is Some && call_ensures(C::version::<Comp>, (&fetches.2,), version))
                || (call_ensures(C::version::<Comp>, (&fetches.2,), None) && (
                    (version is Some && call_ensures(D::version::<Comp>, (&fetches.3,), version))
                    || (call_ensures(D::version::<Comp>, (&fetches.3,), None) && (
                        (version is Some && call_ensures(E::version::<Comp>, (&fetches.4,), version))
                        || (call_ensures(E::version::<Comp>, (&fetches.4,), None) && (
                            (version is Some && call_ensures(F::version::<Comp>, (&fetches.5,), version))
                            || (call_ensures(F::version::<Comp>, (&fetches.5,), None) && (
                                (version is Some && call_ensures(G::version::<Comp>, (&fetches.6,), version))
                                || (call_ensures(G::version::<Comp>, (&fetches.6,), None) && (
                                    (version is Some && call_ensures(H::version::<Comp>, (&fetches.7,), version))
                                    || (call_ensures(H::version::<Comp>, (&fetches.7,), None) && (
                                        (version is Some && call_ensures(I::version::<Comp>, (&fetches.8,), version))
                                        || (call_ensures(I::version::<Comp>, (&fetches.8,), None) && (
                                            (version is Some && call_ensures(J::version::<Comp>, (&fetches.9,), version))
                                            || (call_ensures(J::version::<Comp>, (&fetches.9,), None) && (
                                                (version is Some && call_ensures(K::version::<Comp>, (&fetches.10,), version))
                                                || (call_ensures(K::version::<Comp>, (&fetches.10,), None) && (
                                                    (version is Some && call_ensures(L::version::<Comp>, (&fetches.11,), version))
                                                    || (call_ensures(L::version::<Comp>, (&fetches.11,), None) && (
                                                        (version is Some && call_ensures(M::version::<Comp>, (&fetches.12,), version))
                                                        || (call_ensures(M::version::<Comp>, (&fetches.12,), None) && (
                                                            (version is Some && call_ensures(N::version::<Comp>, (&fetches.13,), version))
                                                            || (call_ensures(N::version::<Comp>, (&fetches.13,), None) && (
                                                                (version is Some && call_ensures(O::version::<Comp>, (&fetches.14,), version))
                                                                || (call_ensures(O::version::<Comp>, (&fetches.14,), None) && (
                                                                    (version is Some && call_ensures(P::version::<Comp>, (&fetches.15,), version))
                                                                    || (call_ensures(P::version::<Comp>, (&fetches.15,), None) && (
                                                                        call_ensures(Q::version::<Comp>, (&fetches.16,), version))))))))))))))))))))))))))))))))),
{
    let (a, b, c, d, e, f, g, h, i, j, k, l, m, n, o, p, q) = fetches;
    if let Some(version) = (A::version::<Comp>)(a) {
        return Some(version);
    }
    if let Some(version) = (B::version::<Comp>)(b) {
        return Some(version);
    }
    if let Some(version) = (C::version::<Comp>)(c) {
        return Some(version);
    }
    if let Some(version) = (D::version::<Comp>)(d) {
        return Some(version);
    }
    if let Some(version) = (E::version::<Comp>)(e) {
        return Some(version);
    }
    if let Some(version) = (F::version::<Comp>)(f) {
        return Some(version);
    }
    if let Some(version) = (G::version::<Comp>)(g) {
        return Some(version);
    }
    if let Some(version) = (H::version::<Comp>)(h) {
        return Some(version);
    }
    if let Some(version) = (I::version::<Comp>)(i) {
        return Some(version);
    }
    if let Some(version) = (J::version::<Comp>)(j) {
        return Some(version);
    }
    if let Some(version) = (K::version::<Comp>)(k) {
        return Some(version);
    }
    if let Some(version) = (L::version::<Comp>)(l) {
        return Some(version);
    }
    if let Some(version) = (M::version::<Comp>)(m) {
        return Some(version);
    }
    if let Some(version) = (N::version::<Comp>)(n) {
        return Some(version);
    }
    if let Some(version) = (O::version::<Comp>)(o) {
        return Some(version);
    }
    if let Some(version) = (P::version::<Comp>)(p) {
        return Some(version);
    }
    (Q::version::<Comp>)(q)
}

// Tuples of 18 views.

impl<A: DefaultFilter, B: DefaultFilter, C: DefaultFilter, D: DefaultFilter, E: DefaultFilter, F: DefaultFilter, G: DefaultFilter, H: DefaultFilter, I: DefaultFilter, J: DefaultFilter, K: DefaultFilter, L: DefaultFilter, M: DefaultFilter, N: DefaultFilter, O: DefaultFilter, P: DefaultFilter, Q: DefaultFilter, R: DefaultFilter> DefaultFilter for (A, B, C, D, E, F, G, H, I, J, K, L, M, N, O, P, Q, R) {
    type Filter = (A::Filter, B::Filter, C::Filter, D::Filter, E::Filter, F::Filter, G::Filter, H::Filter, I::Filter, J::Filter, K::Filter, L::Filter, M::Filter, N::Filter, O::Filter, P::Filter, Q::Filter, R::Filter);
}

impl<'a, A: View<'a> + 'a, B: View<'a> + 'a, C: View<'a> + 'a, D: View<'a> + 'a, E: View<'a> + 'a, F: View<'a> + 'a, G: View<'a> + 'a, H: View<'a> + 'a, I: View<'a> + 'a, J: View<'a> + 'a, K: View<'a> + 'a, L: View<'a> + 'a, M: View<'a> + 'a, N: View<'a> + 'a, O: View<'a> + 'a, P: View<'a> + 'a, Q: View<'a> + 'a, R: View<'a> + 'a> View<'a> for (A, B, C, D, E, F, G, H, I, J, K, L, M, N, O, P, Q, R) {
    type Element = <Self::Fetch as IntoIndexableIter>::Item;
    type Fetch = MultiFetch<'a, (A::Fetch, B::Fetch, C::Fetch, D::Fetch, E::Fetch, F::Fetch, G::Fetch, H::Fetch, I::Fetch, J::Fetch, K::Fetch, L::Fetch, M::Fetch, N::Fetch, O::Fetch, P::Fetch, Q::Fetch, R::Fetch)>;

    fn validate() -> (valid: bool)
        ensures
            exists|reads: Seq<Vec<ComponentTypeId>>, writes: Seq<Vec<ComponentTypeId>>|
                reads.len() == 18 && writes.len() == 18
                && call_ensures(A::reads_types, (), reads[0])
                && call_ensures(A::writes_types, (), writes[0])
                && call_ensures(B::reads_types, (), reads[1])
                && call_ensures(B::writes_types, (), writes[1])
                && call_ensures(C::reads_types, (), reads[2])
                && call_ensures(C::writes_types, (), writes[2])
                && call_ensures(D::reads_types, (), reads[3])
                && call_ensures(D::writes_types, (), writes[3])
                && call_ensures(E::reads_types, (), reads[4])
                && call_ensures(E::writes_types, (), writes[4])
                && call_ensures(F::reads_types, (), reads[5])
                && call_ensures(F::writes_types, (), writes[5])
                && call_ensures(G::reads_types, (), reads[6])
                && call_ensures(G::writes_types, (), writes[6])
                && call_ensures(H::reads_types, (), reads[7])
                && call_ensures(H::writes_types, (), writes[7])
                && call_ensures(I::reads_types, (), reads[8])
                && call_ensures(I::writes_types, (), writes[8])
                && call_ensures(J::reads_types, (), reads[9])
                && call_ensures(J::writes_types, (), writes[9])
                && call_ensures(K::reads_types, (), reads[10])
                && call_ensures(K::writes_types, (), writes[10])
                && call_ensures(L::reads_types, (), reads[11])
                && call_ensures(L::writes_types, (), writes[11])
                && call_ensures(M::reads_types, (), reads[12])
                && call_ensures(M::writes_types, (), writes[12])
                && call_ensures(N::reads_types, (), reads[13])
                && call_ensures(N::writes_types, (), writes[13])
                && call_ensures(O::reads_types, (), reads[14])
                && call_ensures(O::writes_types, (), writes[14])
                && call_ensures(P::reads_types, (), reads[15])
                && call_ensures(P::writes_types, (), writes[15])
                && call_ensures(Q::reads_types, (), reads[16])
                && call_ensures(Q::writes_types, (), writes[16])
                && call_ensures(R::reads_types, (), reads[17])
                && call_ensures(R::writes_types, (), writes[17])
                && valid == conflict_free(type_lists(reads), type_lists(writes)),
    {
        let reads = vec![(A::reads_types)(), (B::reads_types)(), (C::reads_types)(), (D::reads_types)(), (E::reads_types)(), (F::reads_types)(), (G::reads_types)(), (H::reads_types)(), (I::reads_types)(), (J::reads_types)(), (K::reads_types)(), (L::reads_types)(), (M::reads_types)(), (N::reads_types)(), (O::reads_types)(), (P::reads_types)(), (Q::reads_types)(), (R::reads_types)()];
        let writes = vec![(A::writes_types)(), (B::writes_types)(), (C::writes_types)(), (D::writes_types)(), (E::writes_types)(), (F::writes_types)(), (G::writes_types)(), (H::writes_types)(), (I::writes_types)(), (J::writes_types)(), (K::writes_types)(), (L::writes_types)(), (M::writes_types)(), (N::writes_types)(), (O::writes_types)(), (P::writes_types)(), (Q::writes_types)(), (R::writes_types)()];
        let valid = accesses_conflict_free(&reads, &writes);
        assert(
            reads@.len() == 18 && writes@.len() == 18
            && call_ensures(A::reads_types, (), reads@[0])
            && call_ensures(A::writes_types, (), writes@[0])
            && call_ensures(B::reads_types, (), reads@[1])
            && call_ensures(B::writes_types, (), writes@[1])
            && call_ensures(C::reads_types, (), reads@[2])
            && call_ensures(C::writes_types, (), writes@[2])
            && call_ensures(D::reads_types, (), reads@[3])
            && call_ensures(D::writes_types, (), writes@[3])
            && call_ensures(E::reads_types, (), reads@[4])
            && call_ensures(E::writes_types, (), writes@[4])
            && call_ensures(F::reads_types, (), reads@[5])
            && call_ensures(F::writes_types, (), writes@[5])
            && call_ensures(G::reads_types, (), reads@[6])
            && call_ensures(G::writes_types, (), writes@[6])
            && call_ensures(H::reads_types, (), reads@[7])
            && call_ensures(H::writes_types, (), writes@[7])
            && call_ensures(I::reads_types, (), reads@[8])
            && call_ensures(I::writes_types, (), writes@[8])
            && call_ensures(J::reads_types, (), reads@[9])
            && call_ensures(J::writes_types, (), writes@[9])
            && call_ensures(K::reads_types, (), reads@[10])
            && call_ensures(K::writes_types, (), writes@[10])
            && call_ensures(L::reads_types, (), reads@[11])
            && call_ensures(L::writes_types, (), writes@[11])
            && call_ensures(M::reads_types, (), reads@[12])
            && call_ensures(M::writes_types, (), writes@[12])
            && call_ensures(N::reads_types, (), reads@[13])
            && call_ensures(N::writes_types, (), writes@[13])
            && call_ensures(O::reads_types, (), reads@[14])
            && call_ensures(O::writes_types, (), writes@[14])
            && call_ensures(P::reads_types, (), reads@[15])
            && call_ensures(P::writes_types, (), writes@[15])
            && call_ensures(Q::reads_types, (), reads@[16])
            && call_ensures(Q::writes_types, (), writes@[16])
            && call_ensures(R::reads_types, (), reads@[17])
            && call_ensures(R::writes_types, (), writes@[17])
            && valid == conflict_free(type_lists(reads@), type_lists(writes@))
        );
        valid
    }

    fn reads_types() -> (types: Vec<ComponentTypeId>)
        ensures
            exists|lists: Seq<Vec<ComponentTypeId>>|
                lists.len() == 18
                && call_ensures(A::reads_types, (), lists[0])
                && call_ensures(B::reads_types, (), lists[1])
                && call_ensures(C::reads_types, (), lists[2])
                && call_ensures(D::reads_types, (), lists[3])
                && call_ensures(E::reads_types, (), lists[4])
                && call_ensures(F::reads_types, (), lists[5])
                && call_ensures(G::reads_types, (), lists[6])
                && call_ensures(H::reads_types, (), lists[7])
                && call_ensures(I::reads_types, (), lists[8])
                && call_ensures(J::reads_types, (), lists[9])
                && call_ensures(K::reads_types, (), lists[10])
                && call_ensures(L::reads_types, (), lists[11])
                && call_ensures(M::reads_types, (), lists[12])
                && call_ensures(N::reads_types, (), lists[13])
                && call_ensures(O::reads_types, (), lists[14])
                && call_ensures(P::reads_types, (), lists[15])
                && call_ensures(Q::reads_types, (), lists[16])
                && call_ensures(R::reads_types, (), lists[17])
                && types@ == type_lists(lists).flatten(),
    {
        let lists = vec![(A::reads_types)(), (B::reads_types)(), (C::reads_types)(), (D::reads_types)(), (E::reads_types)(), (F::reads_types)(), (G::reads_types)(), (H::reads_types)(), (I::reads_types)(), (J::reads_types)(), (K::reads_types)(), (L::reads_types)(), (M::reads_types)(), (N::reads_types)(), (O::reads_types)(), (P::reads_types)(), (Q::reads_types)(), (R::reads_types)()];
        let ghost views = lists@;
        let types = concat_types(lists);
        assert(
            views.len() == 18
            && call_ensures(A::reads_types, (), views[0])
            && call_ensures(B::reads_types, (), views[1])
            && call_ensures(C::reads_types, (), views[2])
            && call_ensures(D::reads_types, (), views[3])
            && call_ensures(E::reads_types, (), views[4])
            && call_ensures(F::reads_types, (), views[5])
            && call_ensures(G::reads_types, (), views[6])
            && call_ensures(H::reads_types, (), views[7])
            && call_ensures(I::reads_types, (), views[8])
            && call_ensures(J::reads_types, (), views[9])
            && call_ensures(K::reads_types, (), views[10])
            && call_ensures(L::reads_types, (), views[11])
            && call_ensures(M::reads_types, (), views[12])
            && call_ensures(N::reads_types, (), views[13])
            && call_ensures(O::reads_types, (), views[14])
            && call_ensures(P::reads_types, (), views[15])
            && call_ensures(Q::reads_types, (), views[16])
            && call_ensures(R::reads_types, (), views[17])
            && types@ == type_lists(views).flatten()
        );
        types
    }

    fn writes_types() -> (types: Vec<ComponentTypeId>)
        ensures
            exists|lists: Seq<Vec<ComponentTypeId>>|
                lists.len() == 18
                && call_ensures(A::writes_types, (), lists[0])
                && call_ensures(B::writes_types, (), lists[1])
                && call_ensures(C::writes_types, (), lists[2])
                && call_ensures(D::writes_types, (), lists[3])
                && call_ensures(E::writes_types, (), lists[4])
                && call_ensures(F::writes_types, (), lists[5])
                && call_ensures(G::writes_types, (), lists[6])
                && call_ensures(H::writes_types, (), lists[7])
                && call_ensures(I::writes_types, (), lists[8])
                && call_ensures(J::writes_types, (), lists[9])
                && call_ensures(K::writes_types, (), lists[10])
                && call_ensures(L::writes_types, (), lists[11])
                && call_ensures(M::writes_types, (), lists[12])
                && call_ensures(N::writes_types, (), lists[13])
                && call_ensures(O::writes_types, (), lists[14])
                && call_ensures(P::writes_types, (), lists[15])
                && call_ensures(Q::writes_types, (), lists[16])
                && call_ensures(R::writes_types, (), lists[17])
                && types@ == type_lists(lists).flatten(),
    {
        let lists = vec![(A::writes_types)(), (B::writes_types)(), (C::writes_types)(), (D::writes_types)(), (E::writes_types)(), (F::writes_types)(), (G::writes_types)(), (H::writes_types)(), (I::writes_types)(), (J::writes_types)(), (K::writes_types)(), (L::writes_types)(), (M::writes_types)(), (N::writes_types)(), (O::writes_types)(), (P::writes_types)(), (Q::writes_types)(), (R::writes_types)()];
        let ghost views = lists@;
        let types = concat_types(lists);
        assert(
            views.len() == 18
            && call_ensures(A::writes_types, (), views[0])
            && call_ensures(B::writes_types, (), views[1])
            && call_ensures(C::writes_types, (), views[2])
            && call_ensures(D::writes_types, (), views[3])
            && call_ensures(E::writes_types, (), views[4])
            && call_ensures(F::writes_types, (), views[5])
            && call_ensures(G::writes_types, (), views[6])
            && call_ensures(H::writes_types, (), views[7])
            && call_ensures(I::writes_types, (), views[8])
            && call_ensures(J::writes_types, (), views[9])
            && call_ensures(K::writes_types, (), views[10])
            && call_ensures(L::writes_types, (), views[11])
            && call_ensures(M::writes_types, (), views[12])
            && call_ensures(N::writes_types, (), views[13])
            && call_ensures(O::writes_types, (), views[14])
            && call_ensures(P::writes_types, (), views[15])
            && call_ensures(Q::writes_types, (), views[16])
            && call_ensures(R::writes_types, (), views[17])
            && types@ == type_lists(views).flatten()
        );
        types
    }

    fn reads<Comp: Component>() -> bool {
        tuple18_reads::<'a, A, B, C, D, E, F, G, H, I, J, K, L, M, N, O, P, Q, R, Comp>()
    }

    fn writes<Comp: Component>() -> bool {
        tuple18_writes::<'a, A, B, C, D, E, F, G, H, I, J, K, L, M, N, O, P, Q, R, Comp>()
    }
}

impl<'a, A: Fetch, B: Fetch, C: Fetch, D: Fetch, E: Fetch, F: Fetch, G: Fetch, H: Fetch, I: Fetch, J: Fetch, K: Fetch, L: Fetch, M: Fetch, N: Fetch, O: Fetch, P: Fetch, Q: Fetch, R: Fetch> IntoIndexableIter for MultiFetch<'a, (A, B, C, D, E, F, G, H, I, J, K, L, M, N, O, P, Q, R)> {
    type Item = (A::Item, B::Item, C::Item, D::Item, E::Item, F::Item, G::Item, H::Item, I::Item, J::Item, K::Item, L::Item, M::Item, N::Item, O::Item, P::Item, Q::Item, R::Item);
    type IntoIter = (A::IntoIter, B::IntoIter, C::IntoIter, D::IntoIter, E::IntoIter, F::IntoIter, G::IntoIter, H::IntoIter, I::IntoIter, J::IntoIter, K::IntoIter, L::IntoIter, M::IntoIter, N::IntoIter, O::IntoIter, P::IntoIter, Q::IntoIter, R::IntoIter);

    fn into_indexable_iter(self) -> (iter: Self::IntoIter)
        ensures
            call_ensures(A::into_indexable_iter, (self.fetches().0,), iter.0),
            call_ensures(B::into_indexable_iter, (self.fetches().1,), iter.1),
            call_ensures(C::into_indexable_iter, (self.fetches().2,), iter.2),
            call_ensures(D::into_indexable_iter, (self.fetches().3,), iter.3),
            call_ensures(E::into_indexable_iter, (self.fetches().4,), iter.4),
            call_ensures(F::into_indexable_iter, (self.fetches().5,), iter.5),
            call_ensures(G::into_indexable_iter, (self.fetches().6,), iter.6),
            call_ensures(H::into_indexable_iter, (self.fetches().7,), iter.7),
            call_ensures(I::into_indexable_iter, (self.fetches().8,), iter.8),
            call_ensures(J::into_indexable_iter, (self.fetches().9,), iter.9),
            call_ensures(K::into_indexable_iter, (self.fetches().10,), iter.10),
            call_ensures(L::into_indexable_iter, (self.fetches().11,), iter.11),
            call_ensures(M::into_indexable_iter, (self.fetches().12,), iter.12),
            call_ensures(N::into_indexable_iter, (self.fetches().13,), iter.13),
            call_ensures(O::into_indexable_iter, (self.fetches().14,), iter.14),
            call_ensures(P::into_indexable_iter, (self.fetches().15,), iter.15),
            call_ensures(Q::into_indexable_iter, (self.fetches().16,), iter.16),
            call_ensures(R::into_indexable_iter, (self.fetches().17,), iter.17),
    {
        let (a, b, c, d, e, f, g, h, i, j, k, l, m, n, o, p, q, r) = self.fetches;
        ((A::into_indexable_iter)(a), (B::into_indexable_iter)(b), (C::into_indexable_iter)(c), (D::into_indexable_iter)(d), (E::into_indexable_iter)(e), (F::into_indexable_iter)(f), (G::into_indexable_iter)(g), (H::into_indexable_iter)(h), (I::into_indexable_iter)(i), (J::into_indexable_iter)(j), (K::into_indexable_iter)(k), (L::into_indexable_iter)(l), (M::into_indexable_iter)(m), (N::into_indexable_iter)(n), (O::into_indexable_iter)(o), (P::into_indexable_iter)(p), (Q::into_indexable_iter)(q), (R::into_indexable_iter)(r))
    }
}

impl<'a, A: Fetch, B: Fetch, C: Fetch, D: Fetch, E: Fetch, F: Fetch, G: Fetch, H: Fetch, I: Fetch, J: Fetch, K: Fetch, L: Fetch, M: Fetch, N: Fetch, O: Fetch, P: Fetch, Q: Fetch, R: Fetch> Fetch for MultiFetch<'a, (A, B, C, D, E, F, G, H, I, J, K, L, M, N, O, P, Q, R)> {
    type Data = (A::Data, B::Data, C::Data, D::Data, E::Data, F::Data, G::Data, H::Data, I::Data, J::Data, K::Data, L::Data, M::Data, N::Data, O::Data, P::Data, Q::Data, R::Data);

    fn into_components(self) -> (data: Self::Data)
        ensures
            call_ensures(A::into_components, (self.fetches().0,), data.0),
            call_ensures(B::into_components, (self.fetches().1,), data.1),
            call_ensures(C::into_components, (self.fetches().2,), data.2),
            call_ensures(D::into_components, (self.fetches().3,), data.3),
            call_ensures(E::into_components, (self.fetches().4,), data.4),
            call_ensures(F::into_components, (self.fetches().5,), data.5),
            call_ensures(G::into_components, (self.fetches().6,), data.6),
            call_ensures(H::into_components, (self.fetches().7,), data.7),
            call_ensures(I::into_components, (self.fetches().8,), data.8),
            call_ensures(J::into_components, (self.fetches().9,), data.9),
            call_ensures(K::into_components, (self.fetches().10,), data.10),
            call_ensures(L::into_components, (self.fetches().11,), data.11),
            call_ensures(M::into_components, (self.fetches().12,), data.12),
            call_ensures(N::into_components, (self.fetches().13,), data.13),
            call_ensures(O::into_components, (self.fetches().14,), data.14),
            call_ensures(P::into_components, (self.fetches().15,), data.15),
            call_ensures(Q::into_components, (self.fetches().16,), data.16),
            call_ensures(R::into_components, (self.fetches().17,), data.17),
    {
        let (a, b, c, d, e, f, g, h, i, j, k, l, m, n, o, p, q, r) = self.fetches;
        ((A::into_components)(a), (B::into_components)(b), (C::into_components)(c), (D::into_components)(d), (E::into_components)(e), (F::into_components)(f), (G::into_components)(g), (H::into_components)(h), (I::into_components)(i), (J::into_components)(j), (K::into_components)(k), (L::into_components)(l), (M::into_components)(m), (N::into_components)(n), (O::into_components)(o), (P::into_components)(p), (Q::into_components)(q), (R::into_components)(r))
    }

    fn find<Comp: 'static>(&self) -> Option<&[Comp]> {
        tuple18_find::<A, B, C, D, E, F, G, H, I, J, K, L, M, N, O, P, Q, R, Comp>(&self.fetches)
    }

    fn find_mut<Comp: 'static>(&mut self) -> Option<&mut [Comp]> {
        tuple18_find_mut::<A, B, C, D, E, F, G, H, I, J, K, L, M, N, O, P, Q, R, Comp>(&mut self.fetches)
    }

    fn version<Comp: Component>(&self) -> Option<u64> {
        tuple18_version::<A, B, C, D, E, F, G, H, I, J, K, L, M, N, O, P, Q, R, Comp>(&self.fetches)
    }

    fn accepted(&mut self)
        ensures
            exists|m: &mut A|
                *m == old(self).fetches().0 && *final(m) == final(self).fetches().0
                && call_ensures(A::accepted, (m,), ()),
            exists|m: &mut B|
                *m == old(self).fetches().1 && *final(m) == final(self).fetches().1
                && call_ensures(B::accepted, (m,), ()),
            exists|m: &mut C|
                *m == old(self).fetches().2 && *final(m) == final(self).fetches().2
                && call_ensures(C::accepted, (m,), ()),
            exists|m: &mut D|
                *m == old(self).fetches().3 && *final(m) == final(self).fetches().3
                && call_ensures(D::accepted, (m,), ()),
            exists|m: &mut E|
                *m == old(self).fetches().4 && *final(m) == final(self).fetches().4
                && call_ensures(E::accepted, (m,), ()),
            exists|m: &mut F|
                *m == old(self).fetches().5 && *final(m) == final(self).fetches().5
                && call_ensures(F::accepted, (m,), ()),
            exists|m: &mut G|
                *m == old(self).fetches().6 && *final(m) == final(self).fetches().6
                && call_ensures(G::accepted, (m,), ()),
            exists|m: &mut H|
                *m == old(self).fetches().7 && *final(m) == final(self).fetches().7
                && call_ensures(H::accepted, (m,), ()),
            exists|m: &mut I|
                *m == old(self).fetches().8 && *final(m) == final(self).fetches().8
                && call_ensures(I::accepted, (m,), ()),
            exists|m: &mut J|
                *m == old(self).fetches().9 && *final(m) == final(self).fetches().9
                && call_ensures(J::accepted, (m,), ()),
            exists|m: &mut K|
                *m == old(self).fetches().10 && *final(m) == final(self).fetches().10
                && call_ensures(K::accepted, (m,), ()),
            exists|m: &mut L|
                *m == old(self).fetches().11 && *final(m) == final(self).fetches().11
                && call_ensures(L::accepted, (m,), ()),
            exists|m: &mut M|
                *m == old(self).fetches().12 && *final(m) == final(self).fetches().12
                && call_ensures(M::accepted, (m,), ()),
            exists|m: &mut N|
                *m == old(self).fetches().13 && *final(m) == final(self).fetches().13
                && call_ensures(N::accepted, (m,), ()),
            exists|m: &mut O|
                *m == old(self).fetches().14 && *final(m) == final(self).fetches().14
                && call_ensures(O::accepted, (m,), ()),
            exists|m: &mut P|
                *m == old(self).fetches().15 && *final(m) == final(self).fetches().15
                && call_ensures(P::accepted, (m,), ()),
            exists|m: &mut Q|
                *m == old(self).fetches().16 && *final(m) == final(self).fetches().16
                && call_ensures(Q::accepted, (m,), ()),
            exists|m: &mut R|
                *m == old(self).fetches().17 && *final(m) == final(self).fetches().17
                && call_ensures(R::accepted, (m,), ()),
    {
        let (a, b, c, d, e, f, g, h, i, j, k, l, m, n, o, p, q, r) = &mut self.fetches;
        (A::accepted)(a);
        (B::accepted)(b);
        (C::accepted)(c);
        (D::accepted)(d);
        (E::accepted)(e);
        (F::accepted)(f);
        (G::accepted)(g);
        (H::accepted)(h);
        (I::accepted)(i);
        (J::accepted)(j);
        (K::accepted)(k);
        (L::accepted)(l);
        (M::accepted)(m);
        (N::accepted)(n);
        (O::accepted)(o);
        (P::accepted)(p);
        (Q::accepted)(q);
        (R::accepted)(r);
    }
}

impl<'a, A: ReadOnlyFetch, B: ReadOnlyFetch, C: ReadOnlyFetch, D: ReadOnlyFetch, E: ReadOnlyFetch, F: ReadOnlyFetch, G: ReadOnlyFetch, H: ReadOnlyFetch, I: ReadOnlyFetch, J: ReadOnlyFetch, K: ReadOnlyFetch, L: ReadOnlyFetch, M: ReadOnlyFetch, N: ReadOnlyFetch, O: ReadOnlyFetch, P: ReadOnlyFetch, Q: ReadOnlyFetch, R: ReadOnlyFetch> ReadOnlyFetch for MultiFetch<'a, (A, B, C, D, E, F, G, H, I, J, K, L, M, N, O, P, Q, R)> {
    fn get_components(&self) -> (data: Self::Data)
        ensures
            call_ensures(A::get_components, (&self.fetches().0,), data.0),
            call_ensures(B::get_components, (&self.fetches().1,), data.1),
            call_ensures(C::get_components, (&self.fetches().2,), data.2),
            call_ensures(D::get_components, (&self.fetches().3,), data.3),
            call_ensures(E::get_components, (&self.fetches().4,), data.4),
            call_ensures(F::get_components, (&self.fetches().5,), data.5),
            call_ensures(G::get_components, (&self.fetches().6,), data.6),
            call_ensures(H::get_components, (&self.fetches().7,), data.7),
            call_ensures(I::get_components, (&self.fetches().8,), data.8),
            call_ensures(J::get_components, (&self.fetches().9,), data.9),
            call_ensures(K::get_components, (&self.fetches().10,), data.10),
            call_ensures(L::get_components, (&self.fetches().11,), data.11),
            call_ensures(M::get_components, (&self.fetches().12,), data.12),
            call_ensures(N::get_components, (&self.fetches().13,), data.13),
            call_ensures(O::get_components, (&self.fetches().14,), data.14),
            call_ensures(P::get_components, (&self.fetches().15,), data.15),
            call_ensures(Q::get_components, (&self.fetches().16,), data.16),
            call_ensures(R::get_components, (&self.fetches().17,), data.17),
    {
        let (a, b, c, d, e, f, g, h, i, j, k, l, m, n, o, p, q, r) = &self.fetches;
        ((A::get_components)(a), (B::get_components)(b), (C::get_components)(c), (D::get_components)(d), (E::get_components)(e), (F::get_components)(f), (G::get_components)(g), (H::get_components)(h), (I::get_components)(i), (J::get_components)(j), (K::get_components)(k), (L::get_components)(l), (M::get_components)(m), (N::get_components)(n), (O::get_components)(o), (P::get_components)(p), (Q::get_components)(q), (R::get_components)(r))
    }
}

/// Whether some view of a tuple of 18 reads `Comp`, asking the views in order.
pub fn tuple18_reads<'a, A: View<'a> + 'a, B: View<'a> + 'a, C: View<'a> + 'a, D: View<'a> + 'a, E: View<'a> + 'a, F: View<'a> + 'a, G: View<'a> + 'a, H: View<'a> + 'a, I: View<'a> + 'a, J: View<'a> + 'a, K: View<'a> + 'a, L: View<'a> + 'a, M: View<'a> + 'a, N: View<'a> + 'a, O: View<'a> + 'a, P: View<'a> + 'a, Q: View<'a> + 'a, R: View<'a> + 'a, Comp: Component>() -> (found: bool)
    ensures
        (found && call_ensures(A::reads::<Comp>, (), true))
        || (call_ensures(A::reads::<Comp>, (), false) && (
            (found && call_ensures(B::reads::<Comp>, (), true))
            || (call_ensures(B::reads::<Comp>, (), false) && (
                (found && call_ensures(C::reads::<Comp>, (), true))
                || (call_ensures(C::reads::<Comp>, (), false) && (
                    (found && call_ensures(D::reads::<Comp>, (), true))
                    || (call_ensures(D::reads::<Comp>, (), false) && (
                        (found && call_ensures(E::reads::<Comp>, (), true))
                        || (call_ensures(E::reads::<Comp>, (), false) && (
                            (found && call_ensures(F::reads::<Comp>, (), true))
                            || (call_ensures(F::reads::<Comp>, (), false) && (
                                (found && call_ensures(G::reads::<Comp>, (), true))
                                || (call_ensures(G::reads::<Comp>, (), false) && (
                                    (found && call_ensures(H::reads::<Comp>, (), true))
                                    || (call_ensures(H::reads::<Comp>, (), false) && (
                                        (found && call_ensures(I::reads::<Comp>, (), true))
                                        || (call_ensures(I::reads::<Comp>, (), false) && (
                                            (found && call_ensures(J::reads::<Comp>, (), true))
                                            || (call_ensures(J::reads::<Comp>, (), false) && (
                                                (found && call_ensures(K::reads::<Comp>, (), true))
                                                || (call_ensures(K::reads::<Comp>, (), false) && (
                                                    (found && call_ensures(L::reads::<Comp>, (), true))
                                                    || (call_ensures(L::reads::<Comp>, (), false) && (
                                                        (found && call_ensures(M::reads::<Comp>, (), true))
                                                        || (call_ensures(M::reads::<Comp>, (), false) && (
                                                            (found && call_ensures(N::reads::<Comp>, (), true))
                                                            || (call_ensures(N::reads::<Comp>, (), false) && (
                                                                (found && call_ensures(O::reads::<Comp>, (), true))
                                                                || (call_ensures(O::reads::<Comp>, (), false) && (
                                                                    (found && call_ensures(P::reads::<Comp>, (), true))
                                                                    || (call_ensures(P::reads::<Comp>, (), false) && (
                                                                        (found && call_ensures(Q::reads::<Comp>, (), true))
                                                                        || (call_ensures(Q::reads::<Comp>, (), false) && (
                                                                            call_ensures(R::reads::<Comp>, (), found))))))))))))))))))))))))))))))))))),
{
    (A::reads::<Comp>)()
        || (B::reads::<Comp>)()
        || (C::reads::<Comp>)()
        || (D::reads::<Comp>)()
        || (E::reads::<Comp>)()
        || (F::reads::<Comp>)()
        || (G::reads::<Comp>)()
        || (H::reads::<Comp>)()
        || (I::reads::<Comp>)()
        || (J::reads::<Comp>)()
        || (K::reads::<Comp>)()
        || (L::reads::<Comp>)()
        || (M::reads::<Comp>)()
        || (N::reads::<Comp>)()
        || (O::reads::<Comp>)()
        || (P::reads::<Comp>)()
        || (Q::reads::<Comp>)()
        || (R::reads::<Comp>)()
}

/// Whether some view of a tuple of 18 writes `Comp`, asking the views in order.
pub fn tuple18_writes<'a, A: View<'a> + 'a, B: View<'a> + 'a, C: View<'a> + 'a, D: View<'a> + 'a, E: View<'a> + 'a, F: View<'a> + 'a, G: View<'a> + 'a, H: View<'a> + 'a, I: View<'a> + 'a, J: View<'a> + 'a, K: View<'a> + 'a, L: View<'a> + 'a, M: View<'a> + 'a, N: View<'a> + 'a, O: View<'a> + 'a, P: View<'a> + 'a, Q: View<'a> + 'a, R: View<'a> + 'a, Comp: Component>() -> (found: bool)
    ensures
        (found && call_ensures(A::writes::<Comp>, (), true))
        || (call_ensures(A::writes::<Comp>, (), false) && (
            (found && call_ensures(B::writes::<Comp>, (), true))
            || (call_ensures(B::writes::<Comp>, (), false) && (
                (found && call_ensures(C::writes::<Comp>, (), true))
                || (call_ensures(C::writes::<Comp>, (), false) && (
                    (found && call_ensures(D::writes::<Comp>, (), true))
                    || (call_ensures(D::writes::<Comp>, (), false) && (
                        (found && call_ensures(E::writes::<Comp>, (), true))
                        || (call_ensures(E::writes::<Comp>, (), false) && (
                            (found && call_ensures(F::writes::<Comp>, (), true))
                            || (call_ensures(F::writes::<Comp>, (), false) && (
                                (found && call_ensures(G::writes::<Comp>, (), true))
                                || (call_ensures(G::writes::<Comp>, (), false) && (
                                    (found && call_ensures(H::writes::<Comp>, (), true))
                                    || (call_ensures(H::writes::<Comp>, (), false) && (
                                        (found && call_ensures(I::writes::<Comp>, (), true))
                                        || (call_ensures(I::writes::<Comp>, (), false) && (
                                            (found && call_ensures(J::writes::<Comp>, (), true))
                                            || (call_ensures(J::writes::<Comp>, (), false) && (
                                                (found && call_ensures(K::writes::<Comp>, (), true))
                                                || (call_ensures(K::writes::<Comp>, (), false) && (
                                                    (found && call_ensures(L::writes::<Comp>, (), true))
                                                    || (call_ensures(L::writes::<Comp>, (), false) && (
                                                        (found && call_ensures(M::writes::<Comp>, (), true))
                                                        || (call_ensures(M::writes::<Comp>, (), false) && (
                                                            (found && call_ensures(N::writes::<Comp>, (), true))
                                                            || (call_ensures(N::writes::<Comp>, (), false) && (
                                                                (found && call_ensures(O::writes::<Comp>, (), true))
                                                                || (call_ensures(O::writes::<Comp>, (), false) && (
                                                                    (found && call_ensures(P::writes::<Comp>, (), true))
                                                                    || (call_ensures(P::writes::<Comp>, (), false) && (
                                                                        (found && call_ensures(Q::writes::<Comp>, (), true))
                                                                        || (call_ensures(Q::writes::<Comp>, (), false) && (
                                                                            call_ensures(R::writes::<Comp>, (), found))))))))))))))))))))))))))))))))))),
{
    (A::writes::<Comp>)()
        || (B::writes::<Comp>)()
        || (C::writes::<Comp>)()
        || (D::writes::<Comp>)()
        || (E::writes::<Comp>)()
        || (F::writes::<Comp>)()
        || (G::writes::<Comp>)()
        || (H::writes::<Comp>)()
        || (I::writes::<Comp>)()
        || (J::writes::<Comp>)()
        || (K::writes::<Comp>)()
        || (L::writes::<Comp>)()
        || (M::writes::<Comp>)()
        || (N::writes::<Comp>)()
        || (O::writes::<Comp>)()
        || (P::writes::<Comp>)()
        || (Q::writes::<Comp>)()
        || (R::writes::<Comp>)()
}

/// The slice of the first fetch of a tuple of 18 that holds `Comp`.
pub fn tuple18_find<'f, A: Fetch, B: Fetch, C: Fetch, D: Fetch, E: Fetch, F: Fetch, G: Fetch, H: Fetch, I: Fetch, J: Fetch, K: Fetch, L: Fetch, M: Fetch, N: Fetch, O: Fetch, P: Fetch, Q: Fetch, R: Fetch, Comp: 'static>(fetches: &'f (A, B, C, D, E, F, G, H, I, J, K, L, M, N, O, P, Q, R)) -> (found: Option<&'f [Comp]>)
    ensures
        (found is Some && call_ensures(A::find::<Comp>, (&fetches.0,), found))
        || (call_ensures(A::find::<Comp>, (&fetches.0,), None) && (
            (found is Some && call_ensures(B::find::<Comp>, (&fetches.1,), found))
            || (call_ensures(B::find::<Comp>, (&fetches.1,), None) && (
                (found is Some && call_ensures(C::find::<Comp>, (&fetches.2,), found))
                || (call_ensures(C::find::<Comp>, (&fetches.2,), None) && (
                    (found is Some && call_ensures(D::find::<Comp>, (&fetches.3,), found))
                    || (call_ensures(D::find::<Comp>, (&fetches.3,), None) && (
                        (found is Some && call_ensures(E::find::<Comp>, (&fetches.4,), found))
                        || (call_ensures(E::find::<Comp>, (&fetches.4,), None) && (
                            (found is Some && call_ensures(F::find::<Comp>, (&fetches.5,), found))
                            || (call_ensures(F::find::<Comp>, (&fetches.5,), None) && (
                                (found is Some && call_ensures(G::find::<Comp>, (&fetches.6,), found))
                                || (call_ensures(G::find::<Comp>, (&fetches.6,), None) && (
                                    (found is Some && call_ensures(H::find::<Comp>, (&fetches.7,), found))
                                    || (call_ensures(H::find::<Comp>, (&fetches.7,), None) && (
                                        (found is Some && call_ensures(I::find::<Comp>, (&fetches.8,), found))
                                        || (call_ensures(I::find::<Comp>, (&fetches.8,), None) && (
                                            (found is Some && call_ensures(J::find::<Comp>, (&fetches.9,), found))
                                            || (call_ensures(J::find::<Comp>, (&fetches.9,), None) && (
                                                (found is Some && call_ensures(K::find::<Comp>, (&fetches.10,), found))
                                                || (call_ensures(K::find::<Comp>, (&fetches.10,), None) && (
                                                    (found is Some && call_ensures(L::find::<Comp>, (&fetches.11,), found))
                                                    || (call_ensures(L::find::<Comp>, (&fetches.11,), None) && (
                                                        (found is Some && call_ensures(M::find::<Comp>, (&fetches.12,), found))
                                                        || (call_ensures(M::find::<Comp>, (&fetches.12,), None) && (
                                                            (found is Some && call_ensures(N::find::<Comp>, (&fetches.13,), found))
                                                            || (call_ensures(N::find::<Comp>, (&fetches.13,), None) && (
                                                                (found is Some && call_ensures(O::find::<Comp>, (&fetches.14,), found))
                                                                || (call_ensures(O::find::<Comp>, (&fetches.14,), None) && (
                                                                    (found is Some && call_ensures(P::find::<Comp>, (&fetches.15,), found))
                                                                    || (call_ensures(P::find::<Comp>, (&fetches.15,), None) && (
                                                                        (found is Some && call_ensures(Q::find::<Comp>, (&fetches.16,), found))
                                                                        || (call_ensures(Q::find::<Comp>, (&fetches.16,), None) && (
                                                                            call_ensures(R::find::<Comp>, (&fetches.17,), found))))))))))))))))))))))))))))))))))),
{
    let (a, b, c, d, e, f, g, h, i, j, k, l, m, n, o, p, q, r) = fetches;
    if let Some(slice) = (A::find::<Comp>)(a) {
        return Some(slice);
    }
    if let Some(slice) = (B::find::<Comp>)(b) {
        return Some(slice);
    }
    if let Some(slice) = (C::find::<Comp>)(c) {
        return Some(slice);
    }
    if let Some(slice) = (D::find::<Comp>)(d) {
        return Some(slice);
    }
    if let Some(slice) = (E::find::<Comp>)(e) {
        return Some(slice);
    }
    if let Some(slice) = (F::find::<Comp>)(f) {
        return Some(slice);
    }
    if let Some(slice) = (G::find::<Comp>)(g) {
        return Some(slice);
    }
    if let Some(slice) = (H::find::<Comp>)(h) {
        return Some(slice);
    }
    if let Some(slice) = (I::find::<Comp>)(i) {
        return Some(slice);
    }
    if let Some(slice) = (J::find::<Comp>)(j) {
        return Some(slice);
    }
    if let Some(slice) = (K::find::<Comp>)(k) {
        return Some(slice);
    }
    if let Some(slice) = (L::find::<Comp>)(l) {
        return Some(slice);
    }
    if let Some(slice) = (M::find::<Comp>)(m) {
        return Some(slice);
    }
    if let Some(slice) = (N::find::<Comp>)(n) {
        return Some(slice);
    }
    if let Some(slice) = (O::find::<Comp>)(o) {
        return Some(slice);
    }
    if let Some(slice) = (P::find::<Comp>)(p) {
        return Some(slice);
    }
    if let Some(slice) = (Q::find::<Comp>)(q) {
        return Some(slice);
    }
    (R::find::<Comp>)(r)
}

/// The mutable slice of the first fetch of a tuple of 18 that holds `Comp`.
pub fn tuple18_find_mut<'f, A: Fetch, B: Fetch, C: Fetch, D: Fetch, E: Fetch, F: Fetch, G: Fetch, H: Fetch, I: Fetch, J: Fetch, K: Fetch, L: Fetch, M: Fetch, N: Fetch, O: Fetch, P: Fetch, Q: Fetch, R: Fetch, Comp: 'static>(fetches: &'f mut (A, B, C, D, E, F, G, H, I, J, K, L, M, N, O, P, Q, R)) -> (found: Option<&'f mut [Comp]>)
    ensures
        exists|m: &mut A|
            *m == old(fetches).0
            && *final(m) == final(fetches).0
            && ((found is Some && call_ensures(A::find_mut::<Comp>, (m,), found) && final(fetches).1 == old(fetches).1 && final(fetches).2 == old(fetches).2 && final(fetches).3 == old(fetches).3 && final(fetches).4 == old(fetches).4 && final(fetches).5 == old(fetches).5 && final(fetches).6 == old(fetches).6 && final(fetches).7 == old(fetches).7 && final(fetches).8 == old(fetches).8 && final(fetches).9 == old(fetches).9 && final(fetches).10 == old(fetches).10 && final(fetches).11 == old(fetches).11 && final(fetches).12 == old(fetches).12 && final(fetches).13 == old(fetches).13 && final(fetches).14 == old(fetches).14 && final(fetches).15 == old(fetches).15 && final(fetches).16 == old(fetches).16 && final(fetches).17 == old(fetches).17)
            || (call_ensures(A::find_mut::<Comp>, (m,), None) && (
                exists|m: &mut B|
                    *m == old(fetches).1
                    && *final(m) == final(fetches).1
                    && ((found is Some && call_ensures(B::find_mut::<Comp>, (m,), found) && final(fetches).2 == old(fetches).2 && final(fetches).3 == old(fetches).3 && final(fetches).4 == old(fetches).4 && final(fetches).5 == old(fetches).5 && final(fetches).6 == old(fetches).6 && final(fetches).7 == old(fetches).7 && final(fetches).8 == old(fetches).8 && final(fetches).9 == old(fetches).9 && final(fetches).10 == old(fetches).10 && final(fetches).11 == old(fetches).11 && final(fetches).12 == old(fetches).12 && final(fetches).13 == old(fetches).13 && final(fetches).14 == old(fetches).14 && final(fetches).15 == old(fetches).15 && final(fetches).16 == old(fetches).16 && final(fetches).17 == old(fetches).17)
                    || (call_ensures(B::find_mut::<Comp>, (m,), None) && (
                        exists|m: &mut C|
                            *m == old(fetches).2
                            && *final(m) == final(fetches).2
                            && ((found is Some && call_ensures(C::find_mut::<Comp>, (m,), found) && final(fetches).3 == old(fetches).3 && final(fetches).4 == old(fetches).4 && final(fetches).5 == old(fetches).5 && final(fetches).6 == old(fetches).6 && final(fetches).7 == old(fetches).7 && final(fetches).8 == old(fetches).8 && final(fetches).9 == old(fetches).9 && final(fetches).10 == old(fetches).10 && final(fetches).11 == old(fetches).11 && final(fetches).12 == old(fetches).12 && final(fetches).13 == old(fetches).13 && final(fetches).14 == old(fetches).14 && final(fetches).15 == old(fetches).15 && final(fetches).16 == old(fetches).16 && final(fetches).17 == old(fetches).17)
                            || (call_ensures(C::find_mut::<Comp>, (m,), None) && (
                                exists|m: &mut D|
                                    *m == old(fetches).3
                                    && *final(m) == final(fetches).3
                                    && ((found is Some && call_ensures(D::find_mut::<Comp>, (m,), found) && final(fetches).4 == old(fetches).4 && final(fetches).5 == old(fetches).5 && final(fetches).6 == old(fetches).6 && final(fetches).7 == old(fetches).7 && final(fetches).8 == old(fetches).8 && final(fetches).9 == old(fetches).9 && final(fetches).10 == old(fetches).10 && final(fetches).11 == old(fetches).11 && final(fetches).12 == old(fetches).12 && final(fetches).13 == old(fetches).13 && final(fetches).14 == old(fetches).14 && final(fetches).15 == old(fetches).15 && final(fetches).16 == old(fetches).16 && final(fetches).17 == old(fetches).17)
                                    || (call_ensures(D::find_mut::<Comp>, (m,), None) && (
                                        exists|m: &mut E|
                                            *m == old(fetches).4
                                            && *final(m) == final(fetches).4
                                            && ((found is Some && call_ensures(E::find_mut::<Comp>, (m,), found) && final(fetches).5 == old(fetches).5 && final(fetches).6 == old(fetches).6 && final(fetches).7 == old(fetches).7 && final(fetches).8 == old(fetches).8 && final(fetches).9 == old(fetches).9 && final(fetches).10 == old(fetches).10 && final(fetches).11 == old(fetches).11 && final(fetches).12 == old(fetches).12 && final(fetches).13 == old(fetches).13 && final(fetches).14 == old(fetches).14 && final(fetches).15 == old(fetches).15 && final(fetches).16 == old(fetches).16 && final(fetches).17 == old(fetches).17)
                                            || (call_ensures(E::find_mut::<Comp>, (m,), None) && (
                                                exists|m: &mut F|
                                                    *m == old(fetches).5
                                                    && *final(m) == final(fetches).5
                                                    && ((found is Some && call_ensures(F::find_mut::<Comp>, (m,), found) && final(fetches).6 == old(fetches).6 && final(fetches).7 == old(fetches).7 && final(fetches).8 == old(fetches).8 && final(fetches).9 == old(fetches).9 && final(fetches).10 == old(fetches).10 && final(fetches).11 == old(fetches).11 && final(fetches).12 == old(fetches).12 && final(fetches).13 == old(fetches).13 && final(fetches).14 == old(fetches).14 && final(fetches).15 == old(fetches).15 && final(fetches).16 == old(fetches).16 && final(fetches).17 == old(fetches).17)
                                                    || (call_ensures(F::find_mut::<Comp>, (m,), None) && (
                                                        exists|m: &mut G|
                                                            *m == old(fetches).6
                                                            && *final(m) == final(fetches).6
                                                            && ((found is Some && call_ensures(G::find_mut::<Comp>, (m,), found) && final(fetches).7 == old(fetches).7 && final(fetches).8 == old(fetches).8 && final(fetches).9 == old(fetches).9 && final(fetches).10 == old(fetches).10 && final(fetches).11 == old(fetches).11 && final(fetches).12 == old(fetches).12 && final(fetches).13 == old(fetches).13 && final(fetches).14 == old(fetches).14 && final(fetches).15 == old(fetches).15 && final(fetches).16 == old(fetches).16 && final(fetches).17 == old(fetches).17)
                                                            || (call_ensures(G::find_mut::<Comp>, (m,), None) && (
                                                                exists|m: &mut H|
                                                                    *m == old(fetches).7
                                                                    && *final(m) == final(fetches).7
                                                                    && ((found is Some && call_ensures(H::find_mut::<Comp>, (m,), found) && final(fetches).8 == old(fetches).8 && final(fetches).9 == old(fetches).9 && final(fetches).10 == old(fetches).10 && final(fetches).11 == old(fetches).11 && final(fetches).12 == old(fetches).12 && final(fetches).13 == old(fetches).13 && final(fetches).14 == old(fetches).14 && final(fetches).15 == old(fetches).15 && final(fetches).16 == old(fetches).16 && final(fetches).17 == old(fetches).17)
                                                                    || (call_ensures(H::find_mut::<Comp>, (m,), None) && (
                                                                        exists|m: &mut I|
                                                                            *m == old(fetches).8
                                                                            && *final(m) == final(fetches).8
                                                                            && ((found is Some && call_ensures(I::find_mut::<Comp>, (m,), found) && final(fetches).9 == old(fetches).9 && final(fetches).10 == old(fetches).10 && final(fetches).11 == old(fetches).11 && final(fetches).12 == old(fetches).12 && final(fetches).13 == old(fetches).13 && final(fetches).14 == old(fetches).14 && final(fetches).15 == old(fetches).15 && final(fetches).16 == old(fetches).16 && final(fetches).17 == old(fetches).17)
                                                                            || (call_ensures(I::find_mut::<Comp>, (m,), None) && (
                                                                                exists|m: &mut J|
                                                                                    *m == old(fetches).9
                                                                                    && *final(m) == final(fetches).9
                                                                                    && ((found is Some && call_ensures(J::find_mut::<Comp>, (m,), found) && final(fetches).10 == old(fetches).10 && final(fetches).11 == old(fetches).11 && final(fetches).12 == old(fetches).12 && final(fetches).13 == old(fetches).13 && final(fetches).14 == old(fetches).14 && final(fetches).15 == old(fetches).15 && final(fetches).16 == old(fetches).16 && final(fetches).17 == old(fetches).17)
                                                                                    || (call_ensures(J::find_mut::<Comp>, (m,), None) && (
                                                                                        exists|m: &mut K|
                                                                                            *m == old(fetches).10
                                                                                            && *final(m) == final(fetches).10
                                                                                            && ((found is Some && call_ensures(K::find_mut::<Comp>, (m,), found) && final(fetches).11 == old(fetches).11 && final(fetches).12 == old(fetches).12 && final(fetches).13 == old(fetches).13 && final(fetches).14 == old(fetches).14 && final(fetches).15 == old(fetches).15 && final(fetches).16 == old(fetches).16 && final(fetches).17 == old(fetches).17)
                                                                                            || (call_ensures(K::find_mut::<Comp>, (m,), None) && (
                                                                                                exists|m: &mut L|
                                                                                                    *m == old(fetches).11
                                                                                                    && *final(m) == final(fetches).11
                                                                                                    && ((found is Some && call_ensures(L::find_mut::<Comp>, (m,), found) && final(fetches).12 == old(fetches).12 && final(fetches).13 == old(fetches).13 && final(fetches).14 == old(fetches).14 && final(fetches).15 == old(fetches).15 && final(fetches).16 == old(fetches).16 && final(fetches).17 == old(fetches).17)
                                                                                                    || (call_ensures(L::find_mut::<Comp>, (m,), None) && (
                                                                                                        exists|m: &mut M|
                                                                                                            *m == old(fetches).12
                                                                                                            && *final(m) == final(fetches).12
                                                                                                            && ((found is Some && call_ensures(M::find_mut::<Comp>, (m,), found) && final(fetches).13 == old(fetches).13 && final(fetches).14 == old(fetches).14 && final(fetches).15 == old(fetches).15 && final(fetches).16 == old(fetches).16 && final(fetches).17 == old(fetches).17)
                                                                                                            || (call_ensures(M::find_mut::<Comp>, (m,), None) && (
                                                                                                                exists|m: &mut N|
                                                                                                                    *m == old(fetches).13
                                                                                                                    && *final(m) == final(fetches).13
                                                                                                                    && ((found is Some && call_ensures(N::find_mut::<Comp>, (m,), found) && final(fetches).14 == old(fetches).14 && final(fetches).15 == old(fetches).15 && final(fetches).16 == old(fetches).16 && final(fetches).17 == old(fetches).17)
                                                                                                                    || (call_ensures(N::find_mut::<Comp>, (m,), None) && (
                                                                                                                        exists|m: &mut O|
                                                                                                                            *m == old(fetches).14
                                                                                                                            && *final(m) == final(fetches).14
                                                                                                                            && ((found is Some && call_ensures(O::find_mut::<Comp>, (m,), found) && final(fetches).15 == old(fetches).15 && final(fetches).16 == old(fetches).16 && final(fetches).17 == old(fetches).17)
                                                                                                                            || (call_ensures(O::find_mut::<Comp>, (m,), None) && (
                                                                                                                                exists|m: &mut P|
                                                                                                                                    *m == old(fetches).15
                                                                                                                                    && *final(m) == final(fetches).15
                                                                                                                                    && ((found is Some && call_ensures(P::find_mut::<Comp>, (m,), found) && final(fetches).16 == old(fetches).16 && final(fetches).17 == old(fetches).17)
                                                                                                                                    || (call_ensures(P::find_mut::<Comp>, (m,), None) && (
                                                                                                                                        exists|m: &mut Q|
                                                                                                                                            *m == old(fetches).16
                                                                                                                                            && *final(m) == final(fetches).16
                                                                                                                                            && ((found is Some && call_ensures(Q::find_mut::<Comp>, (m,), found) && final(fetches).17 == old(fetches).17)
                                                                                                                                            || (call_ensures(Q::find_mut::<Comp>, (m,), None) && (
                                                                                                                                                exists|m: &mut R|
                                                                                                                                                    *m == old(fetches).17
                                                                                                                                                    && *final(m) == final(fetches).17
                                                                                                                                                    && call_ensures(R::find_mut::<Comp>, (m,), found)))))))))))))))))))))))))))))))))))))))))))))))))))),
{
    let found = (A::find_mut::<Comp>)(&mut fetches.0);
    if found.is_some() {
        return found;
    }
    let found = (B::find_mut::<Comp>)(&mut fetches.1);
    if found.is_some() {
        return found;
    }
    let found = (C::find_mut::<Comp>)(&mut fetches.2);
    if found.is_some() {
        return found;
    }
    let found = (D::find_mut::<Comp>)(&mut fetches.3);
    if found.is_some() {
        return found;
    }
    let found = (E::find_mut::<Comp>)(&mut fetches.4);
    if found.is_some() {
        return found;
    }
    let found = (F::find_mut::<Comp>)(&mut fetches.5);
    if found.is_some() {
        return found;
    }
    let found = (G::find_mut::<Comp>)(&mut fetches.6);
    if found.is_some() {
        return found;
    }
    let found = (H::find_mut::<Comp>)(&mut fetches.7);
    if found.is_some() {
        return found;
    }
    let found = (I::find_mut::<Comp>)(&mut fetches.8);
    if found.is_some() {
        return found;
    }
    let found = (J::find_mut::<Comp>)(&mut fetches.9);
    if found.is_some() {
        return found;
    }
    let found = (K::find_mut::<Comp>)(&mut fetches.10);
    if found.is_some() {
        return found;
    }
    let found = (L::find_mut::<Comp>)(&mut fetches.11);
    if found.is_some() {
        return found;
    }
    let found = (M::find_mut::<Comp>)(&mut fetches.12);
    if found.is_some() {
        return found;
    }
    let found = (N::find_mut::<Comp>)(&mut fetches.13);
    if found.is_some() {
        return found;
    }
    let found = (O::find_mut::<Comp>)(&mut fetches.14);
    if found.is_some() {
        return found;
    }
    let found = (P::find_mut::<Comp>)(&mut fetches.15);
    if found.is_some() {
        return found;
    }
    let found = (Q::find_mut::<Comp>)(&mut fetches.16);
    if found.is_some() {
        return found;
    }
    (R::find_mut::<Comp>)(&mut fetches.17)
}

/// The version of `Comp` in the first fetch of a tuple of 18 that holds it.
pub fn tuple18_version<A: Fetch, B: Fetch, C: Fetch, D: Fetch, E: Fetch, F: Fetch, G: Fetch, H: Fetch, I: Fetch, J: Fetch, K: Fetch, L: Fetch, M: Fetch, N: Fetch, O: Fetch, P: Fetch, Q: Fetch, R: Fetch, Comp: Component>(fetches: &(A, B, C, D, E, F, G, H, I, J, K, L, M, N, O, P, Q, R)) -> (version: Option<u64>)
    ensures
        (version is Some && call_ensures(A::version::<Comp>, (&fetches.0,), version))
        || (call_ensures(A::version::<Comp>, (&fetches.0,), None) && (
            (version is Some && call_ensures(B::version::<Comp>, (&fetches.1,), version))
            || (call_ensures(B::version::<Comp>, (&fetches.1,), None) && (
                (version is Some && call_ensures(C::version::<Comp>, (&fetches.2,), version))
                || (call_ensures(C::version::<Comp>, (&fetches.2,), None) && (
                    (version is Some && call_ensures(D::version::<Comp>, (&fetches.3,), version))
                    || (call_ensures(D::version::<Comp>, (&fetches.3,), None) && (
                        (version is Some && call_ensures(E::version::<Comp>, (&fetches.4,), version))
                        || (call_ensures(E::version::<Comp>, (&fetches.4,), None) && (
                            (version is Some && call_ensures(F::version::<Comp>, (&fetches.5,), version))
                            || (call_ensures(F::version::<Comp>, (&fetches.5,), None) && (
                                (version is Some && call_ensures(G::version::<Comp>, (&fetches.6,), version))
                                || (call_ensures(G::version::<Comp>, (&fetches.6,), None) && (
                                    (version is Some && call_ensures(H::version::<Comp>, (&fetches.7,), version))
                                    || (call_ensures(H::version::<Comp>, (&fetches.7,), None) && (
                                        (version is Some && call_ensures(I::version::<Comp>, (&fetches.8,), version))
                                        || (call_ensures(I::version::<Comp>, (&fetches.8,), None) && (
                                            (version is Some && call_ensures(J::version::<Comp>, (&fetches.9,), version))
                                            || (call_ensures(J::version::<Comp>, (&fetches.9,), None) && (
                                                (version is Some && call_ensures(K::version::<Comp>, (&fetches.10,), version))
                                                || (call_ensures(K::version::<Comp>, (&fetches.10,), None) && (
                                                    (version is Some && call_ensures(L::version::<Comp>, (&fetches.11,), version))
                                                    || (call_ensures(L::version::<Comp>, (&fetches.11,), None) && (
                                                        (version is Some && call_ensures(M::version::<Comp>, (&fetches.12,), version))
                                                        || (call_ensures(M::version::<Comp>, (&fetches.12,), None) && (
                                                            (version is Some && call_ensures(N::version::<Comp>, (&fetches.13,), version))
                                                            || (call_ensures(N::version::<Comp>, (&fetches.13,), None) && (
                                                                (version is Some && call_ensures(O::version::<Comp>, (&fetches.14,), version))
                                                                || (call_ensures(O::version::<Comp>, (&fetches.14,), None) && (
                                                                    (version is Some && call_ensures(P::version::<Comp>, (&fetches.15,), version))
                                                                    || (call_ensures(P::version::<Comp>, (&fetches.15,), None) && (
                                                                        (version is Some && call_ensures(Q::version::<Comp>, (&fetches.16,), version))
                                                                        || (call_ensures(Q::version::<Comp>, (&fetches.16,), None) && (
                                                                            call_ensures(R::version::<Comp>, (&fetches.17,), version))))))))))))))))))))))))))))))))))),
{
    let (a, b, c, d, e, f, g, h, i, j, k, l, m, n, o, p, q, r) = fetches;
    if let Some(version) = (A::version::<Comp>)(a) {
        return Some(version);
    }
    if let Some(version) = (B::version::<Comp>)(b) {
        return Some(version);
    }
    if let Some(version) = (C::version::<Comp>)(c) {
        return Some(version);
    }
    if let Some(version) = (D::version::<Comp>)(d) {
        return Some(version);
    }
    if let Some(version) = (E::version::<Comp>)(e) {
        return Some(version);
    }
    if let Some(version) = (F::version::<Comp>)(f) {
        return Some(version);
    }
    if let Some(version) = (G::version::<Comp>)(g) {
        return Some(version);
    }
    if let Some(version) = (H::version::<Comp>)(h) {
        return Some(version);
    }
    if let Some(version) = (I::version::<Comp>)(i) {
        return Some(version);
    }
    if let Some(version) = (J::version::<Comp>)(j) {
        return Some(version);
    }
    if let Some(version) = (K::version::<Comp>)(k) {
        return Some(version);
    }
    if let Some(version) = (L::version::<Comp>)(l) {
        return Some(version);
    }
    if let Some(version) = (M::version::<Comp>)(m) {
        return Some(version);
    }
    if let Some(version) = (N::version::<Comp>)(n) {
        return Some(version);
    }
    if let Some(version) = (O::version::<Comp>)(o) {
        return Some(version);
    }
    if let Some(version) = (P::version::<Comp>)(p) {
        return Some(version);
    }
    if let Some(version) = (Q::version::<Comp>)(q) {
        return Some(version);
    }
    (R::version::<Comp>)(r)
}

// Tuples of 19 views.

impl<A: DefaultFilter, B: DefaultFilter, C: DefaultFilter, D: DefaultFilter, E: DefaultFilter, F: DefaultFilter, G: DefaultFilter, H: DefaultFilter, I: DefaultFilter, J: DefaultFilter, K: DefaultFilter, L: DefaultFilter, M: DefaultFilter, N: DefaultFilter, O: DefaultFilter, P: DefaultFilter, Q: DefaultFilter, R: DefaultFilter, S: DefaultFilter> DefaultFilter for (A, B, C, D, E, F, G, H, I, J, K, L, M, N, O, P, Q, R, S) {
    type Filter = (A::Filter, B::Filter, C::Filter, D::Filter, E::Filter, F::Filter, G::Filter, H::Filter, I::Filter, J::Filter, K::Filter, L::Filter, M::Filter, N::Filter, O::Filter, P::Filter, Q::Filter, R::Filter, S::Filter);
}

impl<'a, A: View<'a> + 'a, B: View<'a> + 'a, C: View<'a> + 'a, D: View<'a> + 'a, E: View<'a> + 'a, F: View<'a> + 'a, G: View<'a> + 'a, H: View<'a> + 'a, I: View<'a> + 'a, J: View<'a> + 'a, K: View<'a> + 'a, L: View<'a> + 'a, M: View<'a> + 'a, N: View<'a> + 'a, O: View<'a> + 'a, P: View<'a> + 'a, Q: View<'a> + 'a, R: View<'a> + 'a, S: View<'a> + 'a> View<'a> for (A, B, C, D, E, F, G, H, I, J, K, L, M, N, O, P, Q, R, S) {
    type Element = <Self::Fetch as IntoIndexableIter>::Item;
    type Fetch = MultiFetch<'a, (A::Fetch, B::Fetch, C::Fetch, D::Fetch, E::Fetch, F::Fetch, G::Fetch, H::Fetch, I::Fetch, J::Fetch, K::Fetch, L::Fetch, M::Fetch, N::Fetch, O::Fetch, P::Fetch, Q::Fetch, R::Fetch, S::Fetch)>;

    fn validate() -> (valid: bool)
        ensures
            exists|reads: Seq<Vec<ComponentTypeId>>, writes: Seq<Vec<ComponentTypeId>>|
                reads.len() == 19 && writes.len() == 19
                && call_ensures(A::reads_types, (), reads[0])
                && call_ensures(A::writes_types, (), writes[0])
                && call_ensures(B::reads_types, (), reads[1])
                && call_ensures(B::writes_types, (), writes[1])
                && call_ensures(C::reads_types, (), reads[2])
                && call_ensures(C::writes_types, (), writes[2])
                && call_ensures(D::reads_types, (), reads[3])
                && call_ensures(D::writes_types, (), writes[3])
                && call_ensures(E::reads_types, (), reads[4])
                && call_ensures(E::writes_types, (), writes[4])
                && call_ensures(F::reads_types, (), reads[5])
                && call_ensures(F::writes_types, (), writes[5])
                && call_ensures(G::reads_types, (), reads[6])
                && call_ensures(G::writes_types, (), writes[6])
                && call_ensures(H::reads_types, (), reads[7])
                && call_ensures(H::writes_types, (), writes[7])
                && call_ensures(I::reads_types, (), reads[8])
                && call_ensures(I::writes_types, (), writes[8])
                && call_ensures(J::reads_types, (), reads[9])
                && call_ensures(J::writes_types, (), writes[9])
                && call_ensures(K::reads_types, (), reads[10])
                && call_ensures(K::writes_types, (), writes[10])
                && call_ensures(L::reads_types, (), reads[11])
                && call_ensures(L::writes_types, (), writes[11])
                && call_ensures(M::reads_types, (), reads[12])
                && call_ensures(M::writes_types, (), writes[12])
                && call_ensures(N::reads_types, (), reads[13])
                && call_ensures(N::writes_types, (), writes[13])
                && call_ensures(O::reads_types, (), reads[14])
                && call_ensures(O::writes_types, (), writes[14])
                && call_ensures(P::reads_types, (), reads[15])
                && call_ensures(P::writes_types, (), writes[15])
                && call_ensures(Q::reads_types, (), reads[16])
                && call_ensures(Q::writes_types, (), writes[16])
                && call_ensures(R::reads_types, (), reads[17])
                && call_ensures(R::writes_types, (), writes[17])
                && call_ensures(S::reads_types, (), reads[18])
                && call_ensures(S::writes_types, (), writes[18])
                && valid == conflict_free(type_lists(reads), type_lists(writes)),
    {
        let reads = vec![(A::reads_types)(), (B::reads_types)(), (C::reads_types)(), (D::reads_types)(), (E::reads_types)(), (F::reads_types)(), (G::reads_types)(), (H::reads_types)(), (I::reads_types)(), (J::reads_types)(), (K::reads_types)(), (L::reads_types)(), (M::reads_types)(), (N::reads_types)(), (O::reads_types)(), (P::reads_types)(), (Q::reads_types)(), (R::reads_types)(), (S::reads_types)()];
        let writes = vec![(A::writes_types)(), (B::writes_types)(), (C::writes_types)(), (D::writes_types)(), (E::writes_types)(), (F::writes_types)(), (G::writes_types)(), (H::writes_types)(), (I::writes_types)(), (J::writes_types)(), (K::writes_types)(), (L::writes_types)(), (M::writes_types)(), (N::writes_types)(), (O::writes_types)(), (P::writes_types)(), (Q::writes_types)(), (R::writes_types)(), (S::writes_types)()];
        let valid = accesses_conflict_free(&reads, &writes);
        assert(
            reads@.len() == 19 && writes@.len() == 19
            && call_ensures(A::reads_types, (), reads@[0])
            && call_ensures(A::writes_types, (), writes@[0])
            && call_ensures(B::reads_types, (), reads@[1])
            && call_ensures(B::writes_types, (), writes@[1])
            && call_ensures(C::reads_types, (), reads@[2])
            && call_ensures(C::writes_types, (), writes@[2])
            && call_ensures(D::reads_types, (), reads@[3])
            && call_ensures(D::writes_types, (), writes@[3])
            && call_ensures(E::reads_types, (), reads@[4])
            && call_ensures(E::writes_types, (), writes@[4])
            && call_ensures(F::reads_types, (), reads@[5])
            && call_ensures(F::writes_types, (), writes@[5])
            && call_ensures(G::reads_types, (), reads@[6])
            && call_ensures(G::writes_types, (), writes@[6])
            && call_ensures(H::reads_types, (), reads@[7])
            && call_ensures(H::writes_types, (), writes@[7])
            && call_ensures(I::reads_types, (), reads@[8])
            && call_ensures(I::writes_types, (), writes@[8])
            && call_ensures(J::reads_types, (), reads@[9])
            && call_ensures(J::writes_types, (), writes@[9])
            && call_ensures(K::reads_types, (), reads@[10])
            && call_ensures(K::writes_types, (), writes@[10])
            && call_ensures(L::reads_types, (), reads@[11])
            && call_ensures(L::writes_types, (), writes@[11])
            && call_ensures(M::reads_types, (), reads@[12])
            && call_ensures(M::writes_types, (), writes@[12])
            && call_ensures(N::reads_types, (), reads@[13])
            && call_ensures(N::writes_types, (), writes@[13])
            && call_ensures(O::reads_types, (), reads@[14])
            && call_ensures(O::writes_types, (), writes@[14])
            && call_ensures(P::reads_types, (), reads@[15])
            && call_ensures(P::writes_types, (), writes@[15])
            && call_ensures(Q::reads_types, (), reads@[16])
            && call_ensures(Q::writes_types, (), writes@[16])
            && call_ensures(R::reads_types, (), reads@[17])
            && call_ensures(R::writes_types, (), writes@[17])
            && call_ensures(S::reads_types, (), reads@[18])
            && call_ensures(S::writes_types, (), writes@[18])
            && valid == conflict_free(type_lists(reads@), type_lists(writes@))
        );
        valid
    }

    fn reads_types() -> (types: Vec<ComponentTypeId>)
        ensures
            exists|lists: Seq<Vec<ComponentTypeId>>|
                lists.len() == 19
                && call_ensures(A::reads_types, (), lists[0])
                && call_ensures(B::reads_types, (), lists[1])
                && call_ensures(C::reads_types, (), lists[2])
                && call_ensures(D::reads_types, (), lists[3])
                && call_ensures(E::reads_types, (), lists[4])
                && call_ensures(F::reads_types, (), lists[5])
                && call_ensures(G::reads_types, (), lists[6])
                && call_ensures(H::reads_types, (), lists[7])
                && call_ensures(I::reads_types, (), lists[8])
                && call_ensures(J::reads_types, (), lists[9])
                && call_ensures(K::reads_types, (), lists[10])
                && call_ensures(L::reads_types, (), lists[11])
                && call_ensures(M::reads_types, (), lists[12])
                && call_ensures(N::reads_types, (), lists[13])
                && call_ensures(O::reads_types, (), lists[14])
                && call_ensures(P::reads_types, (), lists[15])
                && call_ensures(Q::reads_types, (), lists[16])
                && call_ensures(R::reads_types, (), lists[17])
                && call_ensures(S::reads_types, (), lists[18])
                && types@ == type_lists(lists).flatten(),
    {
        let lists = vec![(A::reads_types)(), (B::reads_types)(), (C::reads_types)(), (D::reads_types)(), (E::reads_types)(), (F::reads_types)(), (G::reads_types)(), (H::reads_types)(), (I::reads_types)(), (J::reads_types)(), (K::reads_types)(), (L::reads_types)(), (M::reads_types)(), (N::reads_types)(), (O::reads_types)(), (P::reads_types)(), (Q::reads_types)(), (R::reads_types)(), (S::reads_types)()];
        let ghost views = lists@;
        let types = concat_types(lists);
        assert(
            views.len() == 19
            && call_ensures(A::reads_types, (), views[0])
            && call_ensures(B::reads_types, (), views[1])
            && call_ensures(C::reads_types, (), views[2])
            && call_ensures(D::reads_types, (), views[3])
            && call_ensures(E::reads_types, (), views[4])
            && call_ensures(F::reads_types, (), views[5])
            && call_ensures(G::reads_types, (), views[6])
            && call_ensures(H::reads_types, (), views[7])
            && call_ensures(I::reads_types, (), views[8])
            && call_ensures(J::reads_types, (), views[9])
            && call_ensures(K::reads_types, (), views[10])
            && call_ensures(L::reads_types, (), views[11])
            && call_ensures(M::reads_types, (), views[12])
            && call_ensures(N::reads_types, (), views[13])
            && call_ensures(O::reads_types, (), views[14])
            && call_ensures(P::reads_types, (), views[15])
            && call_ensures(Q::reads_types, (), views[16])
            && call_ensures(R::reads_types, (), views[17])
            && call_ensures(S::reads_types, (), views[18])
            && types@ == type_lists(views).flatten()
        );
        types
    }

    fn writes_types() -> (types: Vec<ComponentTypeId>)
        ensures
            exists|lists: Seq<Vec<ComponentTypeId>>|
                lists.len() == 19
                && call_ensures(A::writes_types, (), lists[0])
                && call_ensures(B::writes_types, (), lists[1])
                && call_ensures(C::writes_types, (), lists[2])
                && call_ensures(D::writes_types, (), lists[3])
                && call_ensures(E::writes_types, (), lists[4])
                && call_ensures(F::writes_types, (), lists[5])
                && call_ensures(G::writes_types, (), lists[6])
                && call_ensures(H::writes_types, (), lists[7])
                && call_ensures(I::writes_types, (), lists[8])
                && call_ensures(J::writes_types, (), lists[9])
                && call_ensures(K::writes_types, (), lists[10])
                && call_ensures(L::writes_types, (), lists[11])
                && call_ensures(M::writes_types, (), lists[12])
                && call_ensures(N::writes_types, (), lists[13])
                && call_ensures(O::writes_types, (), lists[14])
                && call_ensures(P::writes_types, (), lists[15])
                && call_ensures(Q::writes_types, (), lists[16])
                && call_ensures(R::writes_types, (), lists[17])
                && call_ensures(S::writes_types, (), lists[18])
                && types@ == type_lists(lists).flatten(),
    {
        let lists = vec![(A::writes_types)(), (B::writes_types)(), (C::writes_types)(), (D::writes_types)(), (E::writes_types)(), (F::writes_types)(), (G::writes_types)(), (H::writes_types)(), (I::writes_types)(), (J::writes_types)(), (K::writes_types)(), (L::writes_types)(), (M::writes_types)(), (N::writes_types)(), (O::writes_types)(), (P::writes_types)(), (Q::writes_types)(), (R::writes_types)(), (S::writes_types)()];
        let ghost views = lists@;
        let types = concat_types(lists);
        assert(
            views.len() == 19
            && call_ensures(A::writes_types, (), views[0])
            && call_ensures(B::writes_types, (), views[1])
            && call_ensures(C::writes_types, (), views[2])
            && call_ensures(D::writes_types, (), views[3])
            && call_ensures(E::writes_types, (), views[4])
            && call_ensures(F::writes_types, (), views[5])
            && call_ensures(G::writes_types, (), views[6])
            && call_ensures(H::writes_types, (), views[7])
            && call_ensures(I::writes_types, (), views[8])
            && call_ensures(J::writes_types, (), views[9])
            && call_ensures(K::writes_types, (), views[10])
            && call_ensures(L::writes_types, (), views[11])
            && call_ensures(M::writes_types, (), views[12])
            && call_ensures(N::writes_types, (), views[13])
            && call_ensures(O::writes_types, (), views[14])
            && call_ensures(P::writes_types, (), views[15])
            && call_ensures(Q::writes_types, (), views[16])
            && call_ensures(R::writes_types, (), views[17])
            && call_ensures(S::writes_types, (), views[18])
            && types@ == type_lists(views).flatten()
        );
        types
    }

    fn reads<Comp: Component>() -> bool {
        tuple19_reads::<'a, A, B, C, D, E, F, G, H, I, J, K, L, M, N, O, P, Q, R, S, Comp>()
    }

    fn writes<Comp: Component>() -> bool {
        tuple19_writes::<'a, A, B, C, D, E, F, G, H, I, J, K, L, M, N, O, P, Q, R, S, Comp>()
    }
}

impl<'a, A: Fetch, B: Fetch, C: Fetch, D: Fetch, E: Fetch, F: Fetch, G: Fetch, H: Fetch, I: Fetch, J: Fetch, K: Fetch, L: Fetch, M: Fetch, N: Fetch, O: Fetch, P: Fetch, Q: Fetch, R: Fetch, S: Fetch> IntoIndexableIter for MultiFetch<'a, (A, B, C, D, E, F, G, H, I, J, K, L, M, N, O, P, Q, R, S)> {
    type Item = (A::Item, B::Item, C::Item, D::Item, E::Item, F::Item, G::Item, H::Item, I::Item, J::Item, K::Item, L::Item, M::Item, N::Item, O::Item, P::Item, Q::Item, R::Item, S::Item);
    type IntoIter = (A::IntoIter, B::IntoIter, C::IntoIter, D::IntoIter, E::IntoIter, F::IntoIter, G::IntoIter, H::IntoIter, I::IntoIter, J::IntoIter, K::IntoIter, L::IntoIter, M::IntoIter, N::IntoIter, O::IntoIter, P::IntoIter, Q::IntoIter, R::IntoIter, S::IntoIter);

    fn into_indexable_iter(self) -> (iter: Self::IntoIter)
        ensures
            call_ensures(A::into_indexable_iter, (self.fetches().0,), iter.0),
            call_ensures(B::into_indexable_iter, (self.fetches().1,), iter.1),
            call_ensures(C::into_indexable_iter, (self.fetches().2,), iter.2),
            call_ensures(D::into_indexable_iter, (self.fetches().3,), iter.3),
            call_ensures(E::into_indexable_iter, (self.fetches().4,), iter.4),
            call_ensures(F::into_indexable_iter, (self.fetches().5,), iter.5),
            call_ensures(G::into_indexable_iter, (self.fetches().6,), iter.6),
            call_ensures(H::into_indexable_iter, (self.fetches().7,), iter.7),
            call_ensures(I::into_indexable_iter, (self.fetches().8,), iter.8),
            call_ensures(J::into_indexable_iter, (self.fetches().9,), iter.9),
            call_ensures(K::into_indexable_iter, (self.fetches().10,), iter.10),
            call_ensures(L::into_indexable_iter, (self.fetches().11,), iter.11),
            call_ensures(M::into_indexable_iter, (self.fetches().12,), iter.12),
            call_ensures(N::into_indexable_iter, (self.fetches().13,), iter.13),
            call_ensures(O::into_indexable_iter, (self.fetches().14,), iter.14),
            call_ensures(P::into_indexable_iter, (self.fetches().15,), iter.15),
            call_ensures(Q::into_indexable_iter, (self.fetches().16,), iter.16),
            call_ensures(R::into_indexable_iter, (self.fetches().17,), iter.17),
            call_ensures(S::into_indexable_iter, (self.fetches().18,), iter.18),
    {
        let (a, b, c, d, e, f, g, h, i, j, k, l, m, n, o, p, q, r, s) = self.fetches;
        ((A::into_indexable_iter)(a), (B::into_indexable_iter)(b), (C::into_indexable_iter)(c), (D::into_indexable_iter)(d), (E::into_indexable_iter)(e), (F::into_indexable_iter)(f), (G::into_indexable_iter)(g), (H::into_indexable_iter)(h), (I::into_indexable_iter)(i), (J::into_indexable_iter)(j), (K::into_indexable_iter)(k), (L::into_indexable_iter)(l), (M::into_indexable_iter)(m), (N::into_indexable_iter)(n), (O::into_indexable_iter)(o), (P::into_indexable_iter)(p), (Q::into_indexable_iter)(q), (R::into_indexable_iter)(r), (S::into_indexable_iter)(s))
    }
}

impl<'a, A: Fetch, B: Fetch, C: Fetch, D: Fetch, E: Fetch, F: Fetch, G: Fetch, H: Fetch, I: Fetch, J: Fetch, K: Fetch, L: Fetch, M: Fetch, N: Fetch, O: Fetch, P: Fetch, Q: Fetch, R: Fetch, S: Fetch> Fetch for MultiFetch<'a, (A, B, C, D, E, F, G, H, I, J, K, L, M, N, O, P, Q, R, S)> {
    type Data = (A::Data, B::Data, C::Data, D::Data, E::Data, F::Data, G::Data, H::Data, I::Data, J::Data, K::Data, L::Data, M::Data, N::Data, O::Data, P::Data, Q::Data, R::Data, S::Data);

    fn into_components(self) -> (data: Self::Data)
        ensures
            call_ensures(A::into_components, (self.fetches().0,), data.0),
            call_ensures(B::into_components, (self.fetches().1,), data.1),
            call_ensures(C::into_components, (self.fetches().2,), data.2),
            call_ensures(D::into_components, (self.fetches().3,), data.3),
            call_ensures(E::into_components, (self.fetches().4,), data.4),
            call_ensures(F::into_components, (self.fetches().5,), data.5),
            call_ensures(G::into_components, (self.fetches().6,), data.6),
            call_ensures(H::into_components, (self.fetches().7,), data.7),
            call_ensures(I::into_components, (self.fetches().8,), data.8),
            call_ensures(J::into_components, (self.fetches().9,), data.9),
            call_ensures(K::into_components, (self.fetches().10,), data.10),
            call_ensures(L::into_components, (self.fetches().11,), data.11),
            call_ensures(M::into_components, (self.fetches().12,), data.12),
            call_ensures(N::into_components, (self.fetches().13,), data.13),
            call_ensures(O::into_components, (self.fetches().14,), data.14),
            call_ensures(P::into_components, (self.fetches().15,), data.15),
            call_ensures(Q::into_components, (self.fetches().16,), data.16),
            call_ensures(R::into_components, (self.fetches().17,), data.17),
            call_ensures(S::into_components, (self.fetches().18,), data.18),
    {
        let (a, b, c, d, e, f, g, h, i, j, k, l, m, n, o, p, q, r, s) = self.fetches;
        ((A::into_components)(a), (B::into_components)(b), (C::into_components)(c), (D::into_components)(d), (E::into_components)(e), (F::into_components)(f), (G::into_components)(g), (H::into_components)(h), (I::into_components)(i), (J::into_components)(j), (K::into_components)(k), (L::into_components)(l), (M::into_components)(m), (N::into_components)(n), (O::into_components)(o), (P::into_components)(p), (Q::into_components)(q), (R::into_components)(r), (S::into_components)(s))
    }

    fn find<Comp: 'static>(&self) -> Option<&[Comp]> {
        tuple19_find::<A, B, C, D, E, F, G, H, I, J, K, L, M, N, O, P, Q, R, S, Comp>(&self.fetches)
    }

    fn find_mut<Comp: 'static>(&mut self) -> Option<&mut [Comp]> {
        tuple19_find_mut::<A, B, C, D, E, F, G, H, I, J, K, L, M, N, O, P, Q, R, S, Comp>(&mut self.fetches)
    }

    fn version<Comp: Component>(&self) -> Option<u64> {
        tuple19_version::<A, B, C, D, E, F, G, H, I, J, K, L, M, N, O, P, Q, R, S, Comp>(&self.fetches)
    }

    fn accepted(&mut self)
        ensures
            exists|m: &mut A|
                *m == old(self).fetches().0 && *final(m) == final(self).fetches().0
                && call_ensures(A::accepted, (m,), ()),
            exists|m: &mut B|
                *m == old(self).fetches().1 && *final(m) == final(self).fetches().1
                && call_ensures(B::accepted, (m,), ()),
            exists|m: &mut C|
                *m == old(self).fetches().2 && *final(m) == final(self).fetches().2
                && call_ensures(C::accepted, (m,), ()),
            exists|m: &mut D|
                *m == old(self).fetches().3 && *final(m) == final(self).fetches().3
                && call_ensures(D::accepted, (m,), ()),
            exists|m: &mut E|
                *m == old(self).fetches().4 && *final(m) == final(self).fetches().4
                && call_ensures(E::accepted, (m,), ()),
            exists|m: &mut F|
                *m == old(self).fetches().5 && *final(m) == final(self).fetches().5
                && call_ensures(F::accepted, (m,), ()),
            exists|m: &mut G|
                *m == old(self).fetches().6 && *final(m) == final(self).fetches().6
                && call_ensures(G::accepted, (m,), ()),
            exists|m: &mut H|
                *m == old(self).fetches().7 && *final(m) == final(self).fetches().7
                && call_ensures(H::accepted, (m,), ()),
            exists|m: &mut I|
                *m == old(self).fetches().8 && *final(m) == final(self).fetches().8
                && call_ensures(I::accepted, (m,), ()),
            exists|m: &mut J|
                *m == old(self).fetches().9 && *final(m) == final(self).fetches().9
                && call_ensures(J::accepted, (m,), ()),
            exists|m: &mut K|
                *m == old(self).fetches().10 && *final(m) == final(self).fetches().10
                && call_ensures(K::accepted, (m,), ()),
            exists|m: &mut L|
                *m == old(self).fetches().11 && *final(m) == final(self).fetches().11
                && call_ensures(L::accepted, (m,), ()),
            exists|m: &mut M|
                *m == old(self).fetches().12 && *final(m) == final(self).fetches().12
                && call_ensures(M::accepted, (m,), ()),
            exists|m: &mut N|
                *m == old(self).fetches().13 && *final(m) == final(self).fetches().13
                && call_ensures(N::accepted, (m,), ()),
            exists|m: &mut O|
                *m == old(self).fetches().14 && *final(m) == final(self).fetches().14
                && call_ensures(O::accepted, (m,), ()),
            exists|m: &mut P|
                *m == old(self).fetches().15 && *final(m) == final(self).fetches().15
                && call_ensures(P::accepted, (m,), ()),
            exists|m: &mut Q|
                *m == old(self).fetches().16 && *final(m) == final(self).fetches().16
                && call_ensures(Q::accepted, (m,), ()),
            exists|m: &mut R|
                *m == old(self).fetches().17 && *final(m) == final(self).fetches().17
                && call_ensures(R::accepted, (m,), ()),
            exists|m: &mut S|
                *m == old(self).fetches().18 && *final(m) == final(self).fetches().18
                && call_ensures(S::accepted, (m,), ()),
    {
        let (a, b, c, d, e, f, g, h, i, j, k, l, m, n, o, p, q, r, s) = &mut self.fetches;
        (A::accepted)(a);
        (B::accepted)(b);
        (C::accepted)(c);
        (D::accepted)(d);
        (E::accepted)(e);
        (F::accepted)(f);
        (G::accepted)(g);
        (H::accepted)(h);
        (I::accepted)(i);
        (J::accepted)(j);
        (K::accepted)(k);
        (L::accepted)(l);
        (M::accepted)(m);
        (N::accepted)(n);
        (O::accepted)(o);
        (P::accepted)(p);
        (Q::accepted)(q);
        (R::accepted)(r);
        (S::accepted)(s);
    }
}

impl<'a, A: ReadOnlyFetch, B: ReadOnlyFetch, C: ReadOnlyFetch, D: ReadOnlyFetch, E: ReadOnlyFetch, F: ReadOnlyFetch, G: ReadOnlyFetch, H: ReadOnlyFetch, I: ReadOnlyFetch, J: ReadOnlyFetch, K: ReadOnlyFetch, L: ReadOnlyFetch, M: ReadOnlyFetch, N: ReadOnlyFetch, O: ReadOnlyFetch, P: ReadOnlyFetch, Q: ReadOnlyFetch, R: ReadOnlyFetch, S: ReadOnlyFetch> ReadOnlyFetch for MultiFetch<'a, (A, B, C, D, E, F, G, H, I, J, K, L, M, N, O, P, Q, R, S)> {
    fn get_components(&self) -> (data: Self::Data)
        ensures
            call_ensures(A::get_components, (&self.fetches().0,), data.0),
            call_ensures(B::get_components, (&self.fetches().1,), data.1),
            call_ensures(C::get_components, (&self.fetches().2,), data.2),
            call_ensures(D::get_components, (&self.fetches().3,), data.3),
            call_ensures(E::get_components, (&self.fetches().4,), data.4),
            call_ensures(F::get_components, (&self.fetches().5,), data.5),
            call_ensures(G::get_components, (&self.fetches().6,), data.6),
            call_ensures(H::get_components, (&self.fetches().7,), data.7),
            call_ensures(I::get_components, (&self.fetches().8,), data.8),
            call_ensures(J::get_components, (&self.fetches().9,), data.9),
            call_ensures(K::get_components, (&self.fetches().10,), data.10),
            call_ensures(L::get_components, (&self.fetches().11,), data.11),
            call_ensures(M::get_components, (&self.fetches().12,), data.12),
            call_ensures(N::get_components, (&self.fetches().13,), data.13),
            call_ensures(O::get_components, (&self.fetches().14,), data.14),
            call_ensures(P::get_components, (&self.fetches().15,), data.15),
            call_ensures(Q::get_components, (&self.fetches().16,), data.16),
            call_ensures(R::get_components, (&self.fetches().17,), data.17),
            call_ensures(S::get_components, (&self.fetches().18,), data.18),
    {
        let (a, b, c, d, e, f, g, h, i, j, k, l, m, n, o, p, q, r, s) = &self.fetches;
        ((A::get_components)(a), (B::get_components)(b), (C::get_components)(c), (D::get_components)(d), (E::get_components)(e), (F::get_components)(f), (G::get_components)(g), (H::get_components)(h), (I::get_components)(i), (J::get_components)(j), (K::get_components)(k), (L::get_components)(l), (M::get_components)(m), (N::get_components)(n), (O::get_components)(o), (P::get_components)(p), (Q::get_components)(q), (R::get_components)(r), (S::get_components)(s))
    }
}

/// Whether some view of a tuple of 19 reads `Comp`, asking the views in order.
pub fn tuple19_reads<'a, A: View<'a> + 'a, B: View<'a> + 'a, C: View<'a> + 'a, D: View<'a> + 'a, E: View<'a> + 'a, F: View<'a> + 'a, G: View<'a> + 'a, H: View<'a> + 'a, I: View<'a> + 'a, J: View<'a> + 'a, K: View<'a> + 'a, L: View<'a> + 'a, M: View<'a> + 'a, N: View<'a> + 'a, O: View<'a> + 'a, P: View<'a> + 'a, Q: View<'a> + 'a, R: View<'a> + 'a, S: View<'a> + 'a, Comp: Component>() -> (found: bool)
    ensures
        (found && call_ensures(A::reads::<Comp>, (), true))
        || (call_ensures(A::reads::<Comp>, (), false) && (
            (found && call_ensures(B::reads::<Comp>, (), true))
            || (call_ensures(B::reads::<Comp>, (), false) && (
                (found && call_ensures(C::reads::<Comp>, (), true))
                || (call_ensures(C::reads::<Comp>, (), false) && (
                    (found && call_ensures(D::reads::<Comp>, (), true))
                    || (call_ensures(D::reads::<Comp>, (), false) && (
                        (found && call_ensures(E::reads::<Comp>, (), true))
                        || (call_ensures(E::reads::<Comp>, (), false) && (
                            (found && call_ensures(F::reads::<Comp>, (), true))
                            || (call_ensures(F::reads::<Comp>, (), false) && (
                                (found && call_ensures(G::reads::<Comp>, (), true))
                                || (call_ensures(G::reads::<Comp>, (), false) && (
                                    (found && call_ensures(H::reads::<Comp>, (), true))
                                    || (call_ensures(H::reads::<Comp>, (), false) && (
                                        (found && call_ensures(I::reads::<Comp>, (), true))
                                        || (call_ensures(I::reads::<Comp>, (), false) && (
                                            (found && call_ensures(J::reads::<Comp>, (), true))
                                            || (call_ensures(J::reads::<Comp>, (), false) && (
                                                (found && call_ensures(K::reads::<Comp>, (), true))
                                                || (call_ensures(K::reads::<Comp>, (), false) && (
                                                    (found && call_ensures(L::reads::<Comp>, (), true))
                                                    || (call_ensures(L::reads::<Comp>, (), false) && (
                                                        (found && call_ensures(M::reads::<Comp>, (), true))
                                                        || (call_ensures(M::reads::<Comp>, (), false) && (
                                                            (found && call_ensures(N::reads::<Comp>, (), true))
                                                            || (call_ensures(N::reads::<Comp>, (), false) && (
                                                                (found && call_ensures(O::reads::<Comp>, (), true))
                                                                || (call_ensures(O::reads::<Comp>, (), false) && (
                                                                    (found && call_ensures(P::reads::<Comp>, (), true))
                                                                    || (call_ensures(P::reads::<Comp>, (), false) && (
                                                                        (found && call_ensures(Q::reads::<Comp>, (), true))
                                                                        || (call_ensures(Q::reads::<Comp>, (), false) && (
                                                                            (found && call_ensures(R::reads::<Comp>, (), true))
                                                                            || (call_ensures(R::reads::<Comp>, (), false) && (
                                                                                call_ensures(S::reads::<Comp>, (), found))))))))))))))))))))))))))))))))))))),
{
    (A::reads::<Comp>)()
        || (B::reads::<Comp>)()
        || (C::reads::<Comp>)()
        || (D::reads::<Comp>)()
        || (E::reads::<Comp>)()
        || (F::reads::<Comp>)()
        || (G::reads::<Comp>)()
        || (H::reads::<Comp>)()
        || (I::reads::<Comp>)()
        || (J::reads::<Comp>)()
        || (K::reads::<Comp>)()
        || (L::reads::<Comp>)()
        || (M::reads::<Comp>)()
        || (N::reads::<Comp>)()
        || (O::reads::<Comp>)()
        || (P::reads::<Comp>)()
        || (Q::reads::<Comp>)()
        || (R::reads::<Comp>)()
        || (S::reads::<Comp>)()
}

/// Whether some view of a tuple of 19 writes `Comp`, asking the views in order.
pub fn tuple19_writes<'a, A: View<'a> + 'a, B: View<'a> + 'a, C: View<'a> + 'a, D: View<'a> + 'a, E: View<'a> + 'a, F: View<'a> + 'a, G: View<'a> + 'a, H: View<'a> + 'a, I: View<'a> + 'a, J: View<'a> + 'a, K: View<'a> + 'a, L: View<'a> + 'a, M: View<'a> + 'a, N: View<'a> + 'a, O: View<'a> + 'a, P: View<'a> + 'a, Q: View<'a> + 'a, R: View<'a> + 'a, S: View<'a> + 'a, Comp: Component>() -> (found: bool)
    ensures
        (found && call_ensures(A::writes::<Comp>, (), true))
        || (call_ensures(A::writes::<Comp>, (), false) && (
            (found && call_ensures(B::writes::<Comp>, (), true))
            || (call_ensures(B::writes::<Comp>, (), false) && (
                (found && call_ensures(C::writes::<Comp>, (), true))
                || (call_ensures(C::writes::<Comp>, (), false) && (
                    (found && call_ensures(D::writes::<Comp>, (), true))
                    || (call_ensures(D::writes::<Comp>, (), false) && (
                        (found && call_ensures(E::writes::<Comp>, (), true))
                        || (call_ensures(E::writes::<Comp>, (), false) && (
                            (found && call_ensures(F::writes::<Comp>, (), true))
                            || (call_ensures(F::writes::<Comp>, (), false) && (
                                (found && call_ensures(G::writes::<Comp>, (), true))
                                || (call_ensures(G::writes::<Comp>, (), false) && (
                                    (found && call_ensures(H::writes::<Comp>, (), true))
                                    || (call_ensures(H::writes::<Comp>, (), false) && (
                                        (found && call_ensures(I::writes::<Comp>, (), true))
                                        || (call_ensures(I::writes::<Comp>, (), false) && (
                                            (found && call_ensures(J::writes::<Comp>, (), true))
                                            || (call_ensures(J::writes::<Comp>, (), false) && (
                                                (found && call_ensures(K::writes::<Comp>, (), true))
                                                || (call_ensures(K::writes::<Comp>, (), false) && (
                                                    (found && call_ensures(L::writes::<Comp>, (), true))
                                                    || (call_ensures(L::writes::<Comp>, (), false) && (
                                                        (found && call_ensures(M::writes::<Comp>, (), true))
                                                        || (call_ensures(M::writes::<Comp>, (), false) && (
                                                            (found && call_ensures(N::writes::<Comp>, (), true))
                                                            || (call_ensures(N::writes::<Comp>, (), false) && (
                                                                (found && call_ensures(O::writes::<Comp>, (), true))
                                                                || (call_ensures(O::writes::<Comp>, (), false) && (
                                                                    (found && call_ensures(P::writes::<Comp>, (), true))
                                                                    || (call_ensures(P::writes::<Comp>, (), false) && (
                                                                        (found && call_ensures(Q::writes::<Comp>, (), true))
                                                                        || (call_ensures(Q::writes::<Comp>, (), false) && (
                                                                            (found && call_ensures(R::writes::<Comp>, (), true))
                                                                            || (call_ensures(R::writes::<Comp>, (), false) && (
                                                                                call_ensures(S::writes::<Comp>, (), found))))))))))))))))))))))))))))))))))))),
{
    (A::writes::<Comp>)()
        || (B::writes::<Comp>)()
        || (C::writes::<Comp>)()
        || (D::writes::<Comp>)()
        || (E::writes::<Comp>)()
        || (F::writes::<Comp>)()
        || (G::writes::<Comp>)()
        || (H::writes::<Comp>)()
        || (I::writes::<Comp>)()
        || (J::writes::<Comp>)()
        || (K::writes::<Comp>)()
        || (L::writes::<Comp>)()
        || (M::writes::<Comp>)()
        || (N::writes::<Comp>)()
        || (O::writes::<Comp>)()
        || (P::writes::<Comp>)()
        || (Q::writes::<Comp>)()
        || (R::writes::<Comp>)()
        || (S::writes::<Comp>)()
}

/// The slice of the first fetch of a tuple of 19 that holds `Comp`.
pub fn tuple19_find<'f, A: Fetch, B: Fetch, C: Fetch, D: Fetch, E: Fetch, F: Fetch, G: Fetch, H: Fetch, I: Fetch, J: Fetch, K: Fetch, L: Fetch, M: Fetch, N: Fetch, O: Fetch, P: Fetch, Q: Fetch, R: Fetch, S: Fetch, Comp: 'static>(fetches: &'f (A, B, C, D, E, F, G, H, I, J, K, L, M, N, O, P, Q, R, S)) -> (found: Option<&'f [Comp]>)
    ensures
        (found is Some && call_ensures(A::find::<Comp>, (&fetches.0,), found))
        || (call_ensures(A::find::<Comp>, (&fetches.0,), None) && (
            (found is Some && call_ensures(B::find::<Comp>, (&fetches.1,), found))
            || (call_ensures(B::find::<Comp>, (&fetches.1,), None) && (
                (found is Some && call_ensures(C::find::<Comp>, (&fetches.2,), found))
                || (call_ensures(C::find::<Comp>, (&fetches.2,), None) && (
                    (found is Some && call_ensures(D::find::<Comp>, (&fetches.3,), found))
                    || (call_ensures(D::find::<Comp>, (&fetches.3,), None) && (
                        (found is Some && call_ensures(E::find::<Comp>, (&fetches.4,), found))
                        || (call_ensures(E::find::<Comp>, (&fetches.4,), None) && (
                            (found is Some && call_ensures(F::find::<Comp>, (&fetches.5,), found))
                            || (call_ensures(F::find::<Comp>, (&fetches.5,), None) && (
                                (found is Some && call_ensures(G::find::<Comp>, (&fetches.6,), found))
                                || (call_ensures(G::find::<Comp>, (&fetches.6,), None) && (
                                    (found is Some && call_ensures(H::find::<Comp>, (&fetches.7,), found))
                                    || (call_ensures(H::find::<Comp>, (&fetches.7,), None) && (
                                        (found is Some && call_ensures(I::find::<Comp>, (&fetches.8,), found))
                                        || (call_ensures(I::find::<Comp>, (&fetches.8,), None) && (
                                            (found is Some && call_ensures(J::find::<Comp>, (&fetches.9,), found))
                                            || (call_ensures(J::find::<Comp>, (&fetches.9,), None) && (
                                                (found is Some && call_ensures(K::find::<Comp>, (&fetches.10,), found))
                                                || (call_ensures(K::find::<Comp>, (&fetches.10,), None) && (
                                                    (found is Some && call_ensures(L::find::<Comp>, (&fetches.11,), found))
                                                    || (call_ensures(L::find::<Comp>, (&fetches.11,), None) && (
                                                        (found is Some && call_ensures(M::find::<Comp>, (&fetches.12,), found))
                                                        || (call_ensures(M::find::<Comp>, (&fetches.12,), None) && (
                                                            (found is Some && call_ensures(N::find::<Comp>, (&fetches.13,), found))
                                                            || (call_ensures(N::find::<Comp>, (&fetches.13,), None) && (
                                                                (found is Some && call_ensures(O::find::<Comp>, (&fetches.14,), found))
                                                                || (call_ensures(O::find::<Comp>, (&fetches.14,), None) && (
                                                                    (found is Some && call_ensures(P::find::<Comp>, (&fetches.15,), found))
                                                                    || (call_ensures(P::find::<Comp>, (&fetches.15,), None) && (
                                                                        (found is Some && call_ensures(Q::find::<Comp>, (&fetches.16,), found))
                                                                        || (call_ensures(Q::find::<Comp>, (&fetches.16,), None) && (
                                                                            (found is Some && call_ensures(R::find::<Comp>, (&fetches.17,), found))
                                                                            || (call_ensures(R::find::<Comp>, (&fetches.17,), None) && (
                                                                                call_ensures(S::find::<Comp>, (&fetches.18,), found))))))))))))))))))))))))))))))))))))),
{
    let (a, b, c, d, e, f, g, h, i, j, k, l, m, n, o, p, q, r, s) = fetches;
    if let Some(slice) = (A::find::<Comp>)(a) {
        return Some(slice);
    }
    if let Some(slice) = (B::find::<Comp>)(b) {
        return Some(slice);
    }
    if let Some(slice) = (C::find::<Comp>)(c) {
        return Some(slice);
    }
    if let Some(slice) = (D::find::<Comp>)(d) {
        return Some(slice);
    }
    if let Some(slice) = (E::find::<Comp>)(e) {
        return Some(slice);
    }
    if let Some(slice) = (F::find::<Comp>)(f) {
        return Some(slice);
    }
    if let Some(slice) = (G::find::<Comp>)(g) {
        return Some(slice);
    }
    if let Some(slice) = (H::find::<Comp>)(h) {
        return Some(slice);
    }
    if let Some(slice) = (I::find::<Comp>)(i) {
        return Some(slice);
    }
    if let Some(slice) = (J::find::<Comp>)(j) {
        return Some(slice);
    }
    if let Some(slice) = (K::find::<Comp>)(k) {
        return Some(slice);
    }
    if let Some(slice) = (L::find::<Comp>)(l) {
        return Some(slice);
    }
    if let Some(slice) = (M::find::<Comp>)(m) {
        return Some(slice);
    }
    if let Some(slice) = (N::find::<Comp>)(n) {
        return Some(slice);
    }
    if let Some(slice) = (O::find::<Comp>)(o) {
        return Some(slice);
    }
    if let Some(slice) = (P::find::<Comp>)(p) {
        return Some(slice);
    }
    if let Some(slice) = (Q::find::<Comp>)(q) {
        return Some(slice);
    }
    if let Some(slice) = (R::find::<Comp>)(r) {
        return Some(slice);
    }
    (S::find::<Comp>)(s)
}

/// The mutable slice of the first fetch of a tuple of 19 that holds `Comp`.
pub fn tuple19_find_mut<'f, A: Fetch, B: Fetch, C: Fetch, D: Fetch, E: Fetch, F: Fetch, G: Fetch, H: Fetch, I: Fetch, J: Fetch, K: Fetch, L: Fetch, M: Fetch, N: Fetch, O: Fetch, P: Fetch, Q: Fetch, R: Fetch, S: Fetch, Comp: 'static>(fetches: &'f mut (A, B, C, D, E, F, G, H, I, J, K, L, M, N, O, P, Q, R, S)) -> (found: Option<&'f mut [Comp]>)
    ensures
        exists|m: &mut A|
            *m == old(fetches).0
            && *final(m) == final(fetches).0
            && ((found is Some && call_ensures(A::find_mut::<Comp>, (m,), found) && final(fetches).1 == old(fetches).1 && final(fetches).2 == old(fetches).2 && final(fetches).3 == old(fetches).3 && final(fetches).4 == old(fetches).4 && final(fetches).5 == old(fetches).5 && final(fetches).6 == old(fetches).6 && final(fetches).7 == old(fetches).7 && final(fetches).8 == old(fetches).8 && final(fetches).9 == old(fetches).9 && final(fetches).10 == old(fetches).10 && final(fetches).11 == old(fetches).11 && final(fetches).12 == old(fetches).12 && final(fetches).13 == old(fetches).13 && final(fetches).14 == old(fetches).14 && final(fetches).15 == old(fetches).15 && final(fetches).16 == old(fetches).16 && final(fetches).17 == old(fetches).17 && final(fetches).18 == old(fetches).18)
            || (call_ensures(A::find_mut::<Comp>, (m,), None) && (
                exists|m: &mut B|
                    *m == old(fetches).1
                    && *final(m) == final(fetches).1
                    && ((found is Some && call_ensures(B::find_mut::<Comp>, (m,), found) && final(fetches).2 == old(fetches).2 && final(fetches).3 == old(fetches).3 && final(fetches).4 == old(fetches).4 && final(fetches).5 == old(fetches).5 && final(fetches).6 == old(fetches).6 && final(fetches).7 == old(fetches).7 && final(fetches).8 == old(fetches).8 && final(fetches).9 == old(fetches).9 && final(fetches).10 == old(fetches).10 && final(fetches).11 == old(fetches).11 && final(fetches).12 == old(fetches).12 && final(fetches).13 == old(fetches).13 && final(fetches).14 == old(fetches).14 && final(fetches).15 == old(fetches).15 && final(fetches).16 == old(fetches).16 && final(fetches).17 == old(fetches).17 && final(fetches).18 == old(fetches).18)
                    || (call_ensures(B::find_mut::<Comp>, (m,), None) && (
                        exists|m: &mut C|
                            *m == old(fetches).2
                            && *final(m) == final(fetches).2
                            && ((found is Some && call_ensures(C::find_mut::<Comp>, (m,), found) && final(fetches).3 == old(fetches).3 && final(fetches).4 == old(fetches).4 && final(fetches).5 == old(fetches).5 && final(fetches).6 == old(fetches).6 && final(fetches).7 == old(fetches).7 && final(fetches).8 == old(fetches).8 && final(fetches).9 == old(fetches).9 && final(fetches).10 == old(fetches).10 && final(fetches).11 == old(fetches).11 && final(fetches).12 == old(fetches).12 && final(fetches).13 == old(fetches).13 && final(fetches).14 == old(fetches).14 && final(fetches).15 == old(fetches).15 && final(fetches).16 == old(fetches).16 && final(fetches).17 == old(fetches).17 && final(fetches).18 == old(fetches).18)
                            || (call_ensures(C::find_mut::<Comp>, (m,), None) && (
                                exists|m: &mut D|
                                    *m == old(fetches).3
                                    && *final(m) == final(fetches).3
                                    && ((found is Some && call_ensures(D::find_mut::<Comp>, (m,), found) && final(fetches).4 == old(fetches).4 && final(fetches).5 == old(fetches).5 && final(fetches).6 == old(fetches).6 && final(fetches).7 == old(fetches).7 && final(fetches).8 == old(fetches).8 && final(fetches).9 == old(fetches).9 && final(fetches).10 == old(fetches).10 && final(fetches).11 == old(fetches).11 && final(fetches).12 == old(fetches).12 && final(fetches).13 == old(fetches).13 && final(fetches).14 == old(fetches).14 && final(fetches).15 == old(fetches).15 && final(fetches).16 == old(fetches).16 && final(fetches).17 == old(fetches).17 && final(fetches).18 == old(fetches).18)
                                    || (call_ensures(D::find_mut::<Comp>, (m,), None) && (
                                        exists|m: &mut E|
                                            *m == old(fetches).4
                                            && *final(m) == final(fetches).4
                                            && ((found is Some && call_ensures(E::find_mut::<Comp>, (m,), found) && final(fetches).5 == old(fetches).5 && final(fetches).6 == old(fetches).6 && final(fetches).7 == old(fetches).7 && final(fetches).8 == old(fetches).8 && final(fetches).9 == old(fetches).9 && final(fetches).10 == old(fetches).10 && final(fetches).11 == old(fetches).11 && final(fetches).12 == old(fetches).12 && final(fetches).13 == old(fetches).13 && final(fetches).14 == old(fetches).14 && final(fetches).15 == old(fetches).15 && final(fetches).16 == old(fetches).16 && final(fetches).17 == old(fetches).17 && final(fetches).18 == old(fetches).18)
                                            || (call_ensures(E::find_mut::<Comp>, (m,), None) && (
                                                exists|m: &mut F|
                                                    *m == old(fetches).5
                                                    && *final(m) == final(fetches).5
                                                    && ((found is Some && call_ensures(F::find_mut::<Comp>, (m,), found) && final(fetches).6 == old(fetches).6 && final(fetches).7 == old(fetches).7 && final(fetches).8 == old(fetches).8 && final(fetches).9 == old(fetches).9 && final(fetches).10 == old(fetches).10 && final(fetches).11 == old(fetches).11 && final(fetches).12 == old(fetches).12 && final(fetches).13 == old(fetches).13 && final(fetches).14 == old(fetches).14 && final(fetches).15 == old(fetches).15 && final(fetches).16 == old(fetches).16 && final(fetches).17 == old(fetches).17 && final(fetches).18 == old(fetches).18)
                                                    || (call_ensures(F::find_mut::<Comp>, (m,), None) && (
                                                        exists|m: &mut G|
                                                            *m == old(fetches).6
                                                            && *final(m) == final(fetches).6
                                                            && ((found is Some && call_ensures(G::find_mut::<Comp>, (m,), found) && final(fetches).7 == old(fetches).7 && final(fetches).8 == old(fetches).8 && final(fetches).9 == old(fetches).9 && final(fetches).10 == old(fetches).10 && final(fetches).11 == old(fetches).11 && final(fetches).12 == old(fetches).12 && final(fetches).13 == old(fetches).13 && final(fetches).14 == old(fetches).14 && final(fetches).15 == old(fetches).15 && final(fetches).16 == old(fetches).16 && final(fetches).17 == old(fetches).17 && final(fetches).18 == old(fetches).18)
                                                            || (call_ensures(G::find_mut::<Comp>, (m,), None) && (
                                                                exists|m: &mut H|
                                                                    *m == old(fetches).7
                                                                    && *final(m) == final(fetches).7
                                                                    && ((found is Some && call_ensures(H::find_mut::<Comp>, (m,), found) && final(fetches).8 == old(fetches).8 && final(fetches).9 == old(fetches).9 && final(fetches).10 == old(fetches).10 && final(fetches).11 == old(fetches).11 && final(fetches).12 == old(fetches).12 && final(fetches).13 == old(fetches).13 && final(fetches).14 == old(fetches).14 && final(fetches).15 == old(fetches).15 && final(fetches).16 == old(fetches).16 && final(fetches).17 == old(fetches).17 && final(fetches).18 == old(fetches).18)
                                                                    || (call_ensures(H::find_mut::<Comp>, (m,), None) && (
                                                                        exists|m: &mut I|
                                                                            *m == old(fetches).8
                                                                            && *final(m) == final(fetches).8
                                                                            && ((found is Some && call_ensures(I::find_mut::<Comp>, (m,), found) && final(fetches).9 == old(fetches).9 && final(fetches).10 == old(fetches).10 && final(fetches).11 == old(fetches).11 && final(fetches).12 == old(fetches).12 && final(fetches).13 == old(fetches).13 && final(fetches).14 == old(fetches).14 && final(fetches).15 == old(fetches).15 && final(fetches).16 == old(fetches).16 && final(fetches).17 == old(fetches).17 && final(fetches).18 == old(fetches).18)
                                                                            || (call_ensures(I::find_mut::<Comp>, (m,), None) && (
                                                                                exists|m: &mut J|
                                                                                    *m == old(fetches).9
                                                                                    && *final(m) == final(fetches).9
                                                                                    && ((found is Some && call_ensures(J::find_mut::<Comp>, (m,), found) && final(fetches).10 == old(fetches).10 && final(fetches).11 == old(fetches).11 && final(fetches).12 == old(fetches).12 && final(fetches).13 == old(fetches).13 && final(fetches).14 == old(fetches).14 && final(fetches).15 == old(fetches).15 && final(fetches).16 == old(fetches).16 && final(fetches).17 == old(fetches).17 && final(fetches).18 == old(fetches).18)
                                                                                    || (call_ensures(J::find_mut::<Comp>, (m,), None) && (
                                                                                        exists|m: &mut K|
                                                                                            *m == old(fetches).10
                                                                                            && *final(m) == final(fetches).10
                                                                                            && ((found is Some && call_ensures(K::find_mut::<Comp>, (m,), found) && final(fetches).11 == old(fetches).11 && final(fetches).12 == old(fetches).12 && final(fetches).13 == old(fetches).13 && final(fetches).14 == old(fetches).14 && final(fetches).15 == old(fetches).15 && final(fetches).16 == old(fetches).16 && final(fetches).17 == old(fetches).17 && final(fetches).18 == old(fetches).18)
                                                                                            || (call_ensures(K::find_mut::<Comp>, (m,), None) && (
                                                                                                exists|m: &mut L|
                                                                                                    *m == old(fetches).11
                                                                                                    && *final(m) == final(fetches).11
                                                                                                    && ((found is Some && call_ensures(L::find_mut::<Comp>, (m,), found) && final(fetches).12 == old(fetches).12 && final(fetches).13 == old(fetches).13 && final(fetches).14 == old(fetches).14 && final(fetches).15 == old(fetches).15 && final(fetches).16 == old(fetches).16 && final(fetches).17 == old(fetches).17 && final(fetches).18 == old(fetches).18)
                                                                                                    || (call_ensures(L::find_mut::<Comp>, (m,), None) && (
                                                                                                        exists|m: &mut M|
                                                                                                            *m == old(fetches).12
                                                                                                            && *final(m) == final(fetches).12
                                                                                                            && ((found is Some && call_ensures(M::find_mut::<Comp>, (m,), found) && final(fetches).13 == old(fetches).13 && final(fetches).14 == old(fetches).14 && final(fetches).15 == old(fetches).15 && final(fetches).16 == old(fetches).16 && final(fetches).17 == old(fetches).17 && final(fetches).18 == old(fetches).18)
                                                                                                            || (call_ensures(M::find_mut::<Comp>, (m,), None) && (
                                                                                                                exists|m: &mut N|
                                                                                                                    *m == old(fetches).13
                                                                                                                    && *final(m) == final(fetches).13
                                                                                                                    && ((found is Some && call_ensures(N::find_mut::<Comp>, (m,), found) && final(fetches).14 == old(fetches).14 && final(fetches).15 == old(fetches).15 && final(fetches).16 == old(fetches).16 && final(fetches).17 == old(fetches).17 && final(fetches).18 == old(fetches).18)
                                                                                                                    || (call_ensures(N::find_mut::<Comp>, (m,), None) && (
                                                                                                                        exists|m: &mut O|
                                                                                                                            *m == old(fetches).14
                                                                                                                            && *final(m) == final(fetches).14
                                                                                                                            && ((found is Some && call_ensures(O::find_mut::<Comp>, (m,), found) && final(fetches).15 == old(fetches).15 && final(fetches).16 == old(fetches).16 && final(fetches).17 == old(fetches).17 && final(fetches).18 == old(fetches).18)
                                                                                                                            || (call_ensures(O::find_mut::<Comp>, (m,), None) && (
                                                                                                                                exists|m: &mut P|
                                                                                                                                    *m == old(fetches).15
                                                                                                                                    && *final(m) == final(fetches).15
                                                                                                                                    && ((found is Some && call_ensures(P::find_mut::<Comp>, (m,), found) && final(fetches).16 == old(fetches).16 && final(fetches).17 == old(fetches).17 && final(fetches).18 == old(fetches).18)
                                                                                                                                    || (call_ensures(P::find_mut::<Comp>, (m,), None) && (
                                                                                                                                        exists|m: &mut Q|
                                                                                                                                            *m == old(fetches).16
                                                                                                                                            && *final(m) == final(fetches).16
                                                                                                                                            && ((found is Some && call_ensures(Q::find_mut::<Comp>, (m,), found) && final(fetches).17 == old(fetches).17 && final(fetches).18 == old(fetches).18)
                                                                                                                                            || (call_ensures(Q::find_mut::<Comp>, (m,), None) && (
                                                                                                                                                exists|m: &mut R|
                                                                                                                                                    *m == old(fetches).17
                                                                                                                                                    && *final(m) == final(fetches).17
                                                                                                                                                    && ((found is Some && call_ensures(R::find_mut::<Comp>, (m,), found) && final(fetches).18 == old(fetches).18)
                                                                                                                                                    || (call_ensures(R::find_mut::<Comp>, (m,), None) && (
                                                                                                                                                        exists|m: &mut S|
                                                                                                                                                            *m == old(fetches).18
                                                                                                                                                            && *final(m) == final(fetches).18
                                                                                                                                                            && call_ensures(S::find_mut::<Comp>, (m,), found))))))))))))))))))))))))))))))))))))))))))))))))))))))),
{
    let found = (A::find_mut::<Comp>)(&mut fetches.0);
    if found.is_some() {
        return found;
    }
    let found = (B::find_mut::<Comp>)(&mut fetches.1);
    if found.is_some() {
        return found;
    }
    let found = (C::find_mut::<Comp>)(&mut fetches.2);
    if found.is_some() {
        return found;
    }
    let found = (D::find_mut::<Comp>)(&mut fetches.3);
    if found.is_some() {
        return found;
    }
    let found = (E::find_mut::<Comp>)(&mut fetches.4);
    if found.is_some() {
        return found;
    }
    let found = (F::find_mut::<Comp>)(&mut fetches.5);
    if found.is_some() {
        return found;
    }
    let found = (G::find_mut::<Comp>)(&mut fetches.6);
    if found.is_some() {
        return found;
    }
    let found = (H::find_mut::<Comp>)(&mut fetches.7);
    if found.is_some() {
        return found;
    }
    let found = (I::find_mut::<Comp>)(&mut fetches.8);
    if found.is_some() {
        return found;
    }
    let found = (J::find_mut::<Comp>)(&mut fetches.9);
    if found.is_some() {
        return found;
    }
    let found = (K::find_mut::<Comp>)(&mut fetches.10);
    if found.is_some() {
        return found;
    }
    let found = (L::find_mut::<Comp>)(&mut fetches.11);
    if found.is_some() {
        return found;
    }
    let found = (M::find_mut::<Comp>)(&mut fetches.12);
    if found.is_some() {
        return found;
    }
    let found = (N::find_mut::<Comp>)(&mut fetches.13);
    if found.is_some() {
        return found;
    }
    let found = (O::find_mut::<Comp>)(&mut fetches.14);
    if found.is_some() {
        return found;
    }
    let found = (P::find_mut::<Comp>)(&mut fetches.15);
    if found.is_some() {
        return found;
    }
    let found = (Q::find_mut::<Comp>)(&mut fetches.16);
    if found.is_some() {
        return found;
    }
    let found = (R::find_mut::<Comp>)(&mut fetches.17);
    if found.is_some() {
        return found;
    }
    (S::find_mut::<Comp>)(&mut fetches.18)
}

/// The version of `Comp` in the first fetch of a tuple of 19 that holds it.
pub fn tuple19_version<A: Fetch, B: Fetch, C: Fetch, D: Fetch, E: Fetch, F: Fetch, G: Fetch, H: Fetch, I: Fetch, J: Fetch, K: Fetch, L: Fetch, M: Fetch, N: Fetch, O: Fetch, P: Fetch, Q: Fetch, R: Fetch, S: Fetch, Comp: Component>(fetches: &(A, B, C, D, E, F, G, H, I, J, K, L, M, N, O, P, Q, R, S)) -> (version: Option<u64>)
    ensures
        (version is Some && call_ensures(A::version::<Comp>, (&fetches.0,), version))
        || (call_ensures(A::version::<Comp>, (&fetches.0,), None) && (
            (version is Some && call_ensures(B::version::<Comp>, (&fetches.1,), version))
            || (call_ensures(B::version::<Comp>, (&fetches.1,), None) && (
                (version is Some && call_ensures(C::version::<Comp>, (&fetches.2,), version))
                || (call_ensures(C::version::<Comp>, (&fetches.2,), None) && (
                    (version is Some && call_ensures(D::version::<Comp>, (&fetches.3,), version))
                    || (call_ensures(D::version::<Comp>, (&fetches.3,), None) && (
                        (version is Some && call_ensures(E::version::<Comp>, (&fetches.4,), version))
                        || (call_ensures(E::version::<Comp>, (&fetches.4,), None) && (
                            (version is Some && call_ensures(F::version::<Comp>, (&fetches.5,), version))
                            || (call_ensures(F::version::<Comp>, (&fetches.5,), None) && (
                                (version is Some && call_ensures(G::version::<Comp>, (&fetches.6,), version))
                                || (call_ensures(G::version::<Comp>, (&fetches.6,), None) && (
                                    (version is Some && call_ensures(H::version::<Comp>, (&fetches.7,), version))
                                    || (call_ensures(H::version::<Comp>, (&fetches.7,), None) && (
                                        (version is Some && call_ensures(I::version::<Comp>, (&fetches.8,), version))
                                        || (call_ensures(I::version::<Comp>, (&fetches.8,), None) && (
                                            (version is Some && call_ensures(J::version::<Comp>, (&fetches.9,), version))
                                            || (call_ensures(J::version::<Comp>, (&fetches.9,), None) && (
                                                (version is Some && call_ensures(K::version::<Comp>, (&fetches.10,), version))
                                                || (call_ensures(K::version::<Comp>, (&fetches.10,), None) && (
                                                    (version is Some && call_ensures(L::version::<Comp>, (&fetches.11,), version))
                                                    || (call_ensures(L::version::<Comp>, (&fetches.11,), None) && (
                                                        (version is Some && call_ensures(M::version::<Comp>, (&fetches.12,), version))
                                                        || (call_ensures(M::version::<Comp>, (&fetches.12,), None) && (
                                                            (version is Some && call_ensures(N::version::<Comp>, (&fetches.13,), version))
                                                            || (call_ensures(N::version::<Comp>, (&fetches.13,), None) && (
                                                                (version is Some && call_ensures(O::version::<Comp>, (&fetches.14,), version))
                                                                || (call_ensures(O::version::<Comp>, (&fetches.14,), None) && (
                                                                    (version is Some && call_ensures(P::version::<Comp>, (&fetches.15,), version))
                                                                    || (call_ensures(P::version::<Comp>, (&fetches.15,), None) && (
                                                                        (version is Some && call_ensures(Q::version::<Comp>, (&fetches.16,), version))
                                                                        || (call_ensures(Q::version::<Comp>, (&fetches.16,), None) && (
                                                                            (version is Some && call_ensures(R::version::<Comp>, (&fetches.17,), version))
                                                                            || (call_ensures(R::version::<Comp>, (&fetches.17,), None) && (
                                                                                call_ensures(S::version::<Comp>, (&fetches.18,), version))))))))))))))))))))))))))))))))))))),
{
    let (a, b, c, d, e, f, g, h, i, j, k, l, m, n, o, p, q, r, s) = fetches;
    if let Some(version) = (A::version::<Comp>)(a) {
        return Some(version);
    }
    if let Some(version) = (B::version::<Comp>)(b) {
        return Some(version);
    }
    if let Some(version) = (C::version::<Comp>)(c) {
        return Some(version);
    }
    if let Some(version) = (D::version::<Comp>)(d) {
        return Some(version);
    }
    if let Some(version) = (E::version::<Comp>)(e) {
        return Some(version);
    }
    if let Some(version) = (F::version::<Comp>)(f) {
        return Some(version);
    }
    if let Some(version) = (G::version::<Comp>)(g) {
        return Some(version);
    }
    if let Some(version) = (H::version::<Comp>)(h) {
        return Some(version);
    }
    if let Some(version) = (I::version::<Comp>)(i) {
        return Some(version);
    }
    if let Some(version) = (J::version::<Comp>)(j) {
        return Some(version);
    }
    if let Some(version) = (K::version::<Comp>)(k) {
        return Some(version);
    }
    if let Some(version) = (L::version::<Comp>)(l) {
        return Some(version);
    }
    if let Some(version) = (M::version::<Comp>)(m) {
        return Some(version);
    }
    if let Some(version) = (N::version::<Comp>)(n) {
        return Some(version);
    }
    if let Some(version) = (O::version::<Comp>)(o) {
        return Some(version);
    }
    if let Some(version) = (P::version::<Comp>)(p) {
        return Some(version);
    }
    if let Some(version) = (Q::version::<Comp>)(q) {
        return Some(version);
    }
    if let Some(version) = (R::version::<Comp>)(r) {
        return Some(version);
    }
    (S::version::<Comp>)(s)
}

// Tuples of 20 views.

impl<A: DefaultFilter, B: DefaultFilter, C: DefaultFilter, D: DefaultFilter, E: DefaultFilter, F: DefaultFilter, G: DefaultFilter, H: DefaultFilter, I: DefaultFilter, J: DefaultFilter, K: DefaultFilter, L: DefaultFilter, M: DefaultFilter, N: DefaultFilter, O: DefaultFilter, P: DefaultFilter, Q: DefaultFilter, R: DefaultFilter, S: DefaultFilter, T: DefaultFilter> DefaultFilter for (A, B, C, D, E, F, G, H, I, J, K, L, M, N, O, P, Q, R, S, T) {
    type Filter = (A::Filter, B::Filter, C::Filter, D::Filter, E::Filter, F::Filter, G::Filter, H::Filter, I::Filter, J::Filter, K::Filter, L::Filter, M::Filter, N::Filter, O::Filter, P::Filter, Q::Filter, R::Filter, S::Filter, T::Filter);
}

impl<'a, A: View<'a> + 'a, B: View<'a> + 'a, C: View<'a> + 'a, D: View<'a> + 'a, E: View<'a> + 'a, F: View<'a> + 'a, G: View<'a> + 'a, H: View<'a> + 'a, I: View<'a> + 'a, J: View<'a> + 'a, K: View<'a> + 'a, L: View<'a> + 'a, M: View<'a> + 'a, N: View<'a> + 'a, O: View<'a> + 'a, P: View<'a> + 'a, Q: View<'a> + 'a, R: View<'a> + 'a, S: View<'a> + 'a, T: View<'a> + 'a> View<'a> for (A, B, C, D, E, F, G, H, I, J, K, L, M, N, O, P, Q, R, S, T) {
    type Element = <Self::Fetch as IntoIndexableIter>::Item;
    type Fetch = MultiFetch<'a, (A::Fetch, B::Fetch, C::Fetch, D::Fetch, E::Fetch, F::Fetch, G::Fetch, H::Fetch, I::Fetch, J::Fetch, K::Fetch, L::Fetch, M::Fetch, N::Fetch, O::Fetch, P::Fetch, Q::Fetch, R::Fetch, S::Fetch, T::Fetch)>;

    fn validate() -> (valid: bool)
        ensures
            exists|reads: Seq<Vec<ComponentTypeId>>, writes: Seq<Vec<ComponentTypeId>>|
                reads.len() == 20 && writes.len() == 20
                && call_ensures(A::reads_types, (), reads[0])
                && call_ensures(A::writes_types, (), writes[0])
                && call_ensures(B::reads_types, (), reads[1])
                && call_ensures(B::writes_types, (), writes[1])
                && call_ensures(C::reads_types, (), reads[2])
                && call_ensures(C::writes_types, (), writes[2])
                && call_ensures(D::reads_types, (), reads[3])
                && call_ensures(D::writes_types, (), writes[3])
                && call_ensures(E::reads_types, (), reads[4])
                && call_ensures(E::writes_types, (), writes[4])
                && call_ensures(F::reads_types, (), reads[5])
                && call_ensures(F::writes_types, (), writes[5])
                && call_ensures(G::reads_types, (), reads[6])
                && call_ensures(G::writes_types, (), writes[6])
                && call_ensures(H::reads_types, (), reads[7])
                && call_ensures(H::writes_types, (), writes[7])
                && call_ensures(I::reads_types, (), reads[8])
                && call_ensures(I::writes_types, (), writes[8])
                && call_ensures(J::reads_types, (), reads[9])
                && call_ensures(J::writes_types, (), writes[9])
                && call_ensures(K::reads_types, (), reads[10])
                && call_ensures(K::writes_types, (), writes[10])
                && call_ensures(L::reads_types, (), reads[11])
                && call_ensures(L::writes_types, (), writes[11])
                && call_ensures(M::reads_types, (), reads[12])
                && call_ensures(M::writes_types, (), writes[12])
                && call_ensures(N::reads_types, (), reads[13])
                && call_ensures(N::writes_types, (), writes[13])
                && call_ensures(O::reads_types, (), reads[14])
                && call_ensures(O::writes_types, (), writes[14])
                && call_ensures(P::reads_types, (), reads[15])
                && call_ensures(P::writes_types, (), writes[15])
                && call_ensures(Q::reads_types, (), reads[16])
                && call_ensures(Q::writes_types, (), writes[16])
                && call_ensures(R::reads_types, (), reads[17])
                && call_ensures(R::writes_types, (), writes[17])
                && call_ensures(S::reads_types, (), reads[18])
                && call_ensures(S::writes_types, (), writes[18])
                && call_ensures(T::reads_types, (), reads[19])
                && call_ensures(T::writes_types, (), writes[19])
                && valid == conflict_free(type_lists(reads), type_lists(writes)),
    {
        let reads = vec![(A::reads_types)(), (B::reads_types)(), (C::reads_types)(), (D::reads_types)(), (E::reads_types)(), (F::reads_types)(), (G::reads_types)(), (H::reads_types)(), (I::reads_types)(), (J::reads_types)(), (K::reads_types)(), (L::reads_types)(), (M::reads_types)(), (N::reads_types)(), (O::reads_types)(), (P::reads_types)(), (Q::reads_types)(), (R::reads_types)(), (S::reads_types)(), (T::reads_types)()];
        let writes = vec![(A::writes_types)(), (B::writes_types)(), (C::writes_types)(), (D::writes_types)(), (E::writes_types)(), (F::writes_types)(), (G::writes_types)(), (H::writes_types)(), (I::writes_types)(), (J::writes_types)(), (K::writes_types)(), (L::writes_types)(), (M::writes_types)(), (N::writes_types)(), (O::writes_types)(), (P::writes_types)(), (Q::writes_types)(), (R::writes_types)(), (S::writes_types)(), (T::writes_types)()];
        let valid = accesses_conflict_free(&reads, &writes);
        assert(
            reads@.len() == 20 && writes@.len() == 20
            && call_ensures(A::reads_types, (), reads@[0])
            && call_ensures(A::writes_types, (), writes@[0])
            && call_ensures(B::reads_types, (), reads@[1])
            && call_ensures(B::writes_types, (), writes@[1])
            && call_ensures(C::reads_types, (), reads@[2])
            && call_ensures(C::writes_types, (), writes@[2])
            && call_ensures(D::reads_types, (), reads@[3])
            && call_ensures(D::writes_types, (), writes@[3])
            && call_ensures(E::reads_types, (), reads@[4])
            && call_ensures(E::writes_types, (), writes@[4])
            && call_ensures(F::reads_types, (), reads@[5])
            && call_ensures(F::writes_types, (), writes@[5])
            && call_ensures(G::reads_types, (), reads@[6])
            && call_ensures(G::writes_types, (), writes@[6])
            && call_ensures(H::reads_types, (), reads@[7])
            && call_ensures(H::writes_types, (), writes@[7])
            && call_ensures(I::reads_types, (), reads@[8])
            && call_ensures(I::writes_types, (), writes@[8])
            && call_ensures(J::reads_types, (), reads@[9])
            && call_ensures(J::writes_types, (), writes@[9])
            && call_ensures(K::reads_types, (), reads@[10])
            && call_ensures(K::writes_types, (), writes@[10])
            && call_ensures(L::reads_types, (), reads@[11])
            && call_ensures(L::writes_types, (), writes@[11])
            && call_ensures(M::reads_types, (), reads@[12])
            && call_ensures(M::writes_types, (), writes@[12])
            && call_ensures(N::reads_types, (), reads@[13])
            && call_ensures(N::writes_types, (), writes@[13])
            && call_ensures(O::reads_types, (), reads@[14])
            && call_ensures(O::writes_types, (), writes@[14])
            && call_ensures(P::reads_types, (), reads@[15])
            && call_ensures(P::writes_types, (), writes@[15])
            && call_ensures(Q::reads_types, (), reads@[16])
            && call_ensures(Q::writes_types, (), writes@[16])
            && call_ensures(R::reads_types, (), reads@[17])
            && call_ensures(R::writes_types, (), writes@[17])
            && call_ensures(S::reads_types, (), reads@[18])
            && call_ensures(S::writes_types, (), writes@[18])
            && call_ensures(T::reads_types, (), reads@[19])
            && call_ensures(T::writes_types, (), writes@[19])
            && valid == conflict_free(type_lists(reads@), type_lists(writes@))
        );
        valid
    }

    fn reads_types() -> (types: Vec<ComponentTypeId>)
        ensures
            exists|lists: Seq<Vec<ComponentTypeId>>|
                lists.len() == 20
                && call_ensures(A::reads_types, (), lists[0])
                && call_ensures(B::reads_types, (), lists[1])
                && call_ensures(C::reads_types, (), lists[2])
                && call_ensures(D::reads_types, (), lists[3])
                && call_ensures(E::reads_types, (), lists[4])
                && call_ensures(F::reads_types, (), lists[5])
                && call_ensures(G::reads_types, (), lists[6])
                && call_ensures(H::reads_types, (), lists[7])
                && call_ensures(I::reads_types, (), lists[8])
                && call_ensures(J::reads_types, (), lists[9])
                && call_ensures(K::reads_types, (), lists[10])
                && call_ensures(L::reads_types, (), lists[11])
                && call_ensures(M::reads_types, (), lists[12])
                && call_ensures(N::reads_types, (), lists[13])
                && call_ensures(O::reads_types, (), lists[14])
                && call_ensures(P::reads_types, (), lists[15])
                && call_ensures(Q::reads_types, (), lists[16])
                && call_ensures(R::reads_types, (), lists[17])
                && call_ensures(S::reads_types, (), lists[18])
                && call_ensures(T::reads_types, (), lists[19])
                && types@ == type_lists(lists).flatten(),
    {
        let lists = vec![(A::reads_types)(), (B::reads_types)(), (C::reads_types)(), (D::reads_types)(), (E::reads_types)(), (F::reads_types)(), (G::reads_types)(), (H::reads_types)(), (I::reads_types)(), (J::reads_types)(), (K::reads_types)(), (L::reads_types)(), (M::reads_types)(), (N::reads_types)(), (O::reads_types)(), (P::reads_types)(), (Q::reads_types)(), (R::reads_types)(), (S::reads_types)(), (T::reads_types)()];
        let ghost views = lists@;
        let types = concat_types(lists);
        assert(
            views.len() == 20
            && call_ensures(A::reads_types, (), views[0])
            && call_ensures(B::reads_types, (), views[1])
            && call_ensures(C::reads_types, (), views[2])
            && call_ensures(D::reads_types, (), views[3])
            && call_ensures(E::reads_types, (), views[4])
            && call_ensures(F::reads_types, (), views[5])
            && call_ensures(G::reads_types, (), views[6])
            && call_ensures(H::reads_types, (), views[7])
            && call_ensures(I::reads_types, (), views[8])
            && call_ensures(J::reads_types, (), views[9])
            && call_ensures(K::reads_types, (), views[10])
            && call_ensures(L::reads_types, (), views[11])
            && call_ensures(M::reads_types, (), views[12])
            && call_ensures(N::reads_types, (), views[13])
            && call_ensures(O::reads_types, (), views[14])
            && call_ensures(P::reads_types, (), views[15])
            && call_ensures(Q::reads_types, (), views[16])
            && call_ensures(R::reads_types, (), views[17])
            && call_ensures(S::reads_types, (), views[18])
            && call_ensures(T::reads_types, (), views[19])
            && types@ == type_lists(views).flatten()
        );
        types
    }

    fn writes_types() -> (types: Vec<ComponentTypeId>)
        ensures
            exists|lists: Seq<Vec<ComponentTypeId>>|
                lists.len() == 20
                && call_ensures(A::writes_types, (), lists[0])
                && call_ensures(B::writes_types, (), lists[1])
                && call_ensures(C::writes_types, (), lists[2])
                && call_ensures(D::writes_types, (), lists[3])
                && call_ensures(E::writes_types, (), lists[4])
                && call_ensures(F::writes_types, (), lists[5])
                && call_ensures(G::writes_types, (), lists[6])
                && call_ensures(H::writes_types, (), lists[7])
                && call_ensures(I::writes_types, (), lists[8])
                && call_ensures(J::writes_types, (), lists[9])
                && call_ensures(K::writes_types, (), lists[10])
                && call_ensures(L::writes_types, (), lists[11])
                && call_ensures(M::writes_types, (), lists[12])
                && call_ensures(N::writes_types, (), lists[13])
                && call_ensures(O::writes_types, (), lists[14])
                && call_ensures(P::writes_types, (), lists[15])
                && call_ensures(Q::writes_types, (), lists[16])
                && call_ensures(R::writes_types, (), lists[17])
                && call_ensures(S::writes_types, (), lists[18])
                && call_ensures(T::writes_types, (), lists[19])
                && types@ == type_lists(lists).flatten(),
    {
        let lists = vec![(A::writes_types)(), (B::writes_types)(), (C::writes_types)(), (D::writes_types)(), (E::writes_types)(), (F::writes_types)(), (G::writes_types)(), (H::writes_types)(), (I::writes_types)(), (J::writes_types)(), (K::writes_types)(), (L::writes_types)(), (M::writes_types)(), (N::writes_types)(), (O::writes_types)(), (P::writes_types)(), (Q::writes_types)(), (R::writes_types)(), (S::writes_types)(), (T::writes_types)()];
        let ghost views = lists@;
        let types = concat_types(lists);
        assert(
            views.len() == 20
            && call_ensures(A::writes_types, (), views[0])
            && call_ensures(B::writes_types, (), views[1])
            && call_ensures(C::writes_types, (), views[2])
            && call_ensures(D::writes_types, (), views[3])
            && call_ensures(E::writes_types, (), views[4])
            && call_ensures(F::writes_types, (), views[5])
            && call_ensures(G::writes_types, (), views[6])
            && call_ensures(H::writes_types, (), views[7])
            && call_ensures(I::writes_types, (), views[8])
            && call_ensures(J::writes_types, (), views[9])
            && call_ensures(K::writes_types, (), views[10])
            && call_ensures(L::writes_types, (), views[11])
            && call_ensures(M::writes_types, (), views[12])
            && call_ensures(N::writes_types, (), views[13])
            && call_ensures(O::writes_types, (), views[14])
            && call_ensures(P::writes_types, (), views[15])
            && call_ensures(Q::writes_types, (), views[16])
            && call_ensures(R::writes_types, (), views[17])
            && call_ensures(S::writes_types, (), views[18])
            && call_ensures(T::writes_types, (), views[19])
            && types@ == type_lists(views).flatten()
        );
        types
    }

    fn reads<Comp: Component>() -> bool {
        tuple20_reads::<'a, A, B, C, D, E, F, G, H, I, J, K, L, M, N, O, P, Q, R, S, T, Comp>()
    }

    fn writes<Comp: Component>() -> bool {
        tuple20_writes::<'a, A, B, C, D, E, F, G, H, I, J, K, L, M, N, O, P, Q, R, S, T, Comp>()
    }
}

impl<'a, A: Fetch, B: Fetch, C: Fetch, D: Fetch, E: Fetch, F: Fetch, G: Fetch, H: Fetch, I: Fetch, J: Fetch, K: Fetch, L: Fetch, M: Fetch, N: Fetch, O: Fetch, P: Fetch, Q: Fetch, R: Fetch, S: Fetch, T: Fetch> IntoIndexableIter for MultiFetch<'a, (A, B, C, D, E, F, G, H, I, J, K, L, M, N, O, P, Q, R, S, T)> {
    type Item = (A::Item, B::Item, C::Item, D::Item, E::Item, F::Item, G::Item, H::Item, I::Item, J::Item, K::Item, L::Item, M::Item, N::Item, O::Item, P::Item, Q::Item, R::Item, S::Item, T::Item);
    type IntoIter = (A::IntoIter, B::IntoIter, C::IntoIter, D::IntoIter, E::IntoIter, F::IntoIter, G::IntoIter, H::IntoIter, I::IntoIter, J::IntoIter, K::IntoIter, L::IntoIter, M::IntoIter, N::IntoIter, O::IntoIter, P::IntoIter, Q::IntoIter, R::IntoIter, S::IntoIter, T::IntoIter);

    fn into_indexable_iter(self) -> (iter: Self::IntoIter)
        ensures
            call_ensures(A::into_indexable_iter, (self.fetches().0,), iter.0),
            call_ensures(B::into_indexable_iter, (self.fetches().1,), iter.1),
            call_ensures(C::into_indexable_iter, (self.fetches().2,), iter.2),
            call_ensures(D::into_indexable_iter, (self.fetches().3,), iter.3),
            call_ensures(E::into_indexable_iter, (self.fetches().4,), iter.4),
            call_ensures(F::into_indexable_iter, (self.fetches().5,), iter.5),
            call_ensures(G::into_indexable_iter, (self.fetches().6,), iter.6),
            call_ensures(H::into_indexable_iter, (self.fetches().7,), iter.7),
            call_ensures(I::into_indexable_iter, (self.fetches().8,), iter.8),
            call_ensures(J::into_indexable_iter, (self.fetches().9,), iter.9),
            call_ensures(K::into_indexable_iter, (self.fetches().10,), iter.10),
            call_ensures(L::into_indexable_iter, (self.fetches().11,), iter.11),
            call_ensures(M::into_indexable_iter, (self.fetches().12,), iter.12),
            call_ensures(N::into_indexable_iter, (self.fetches().13,), iter.13),
            call_ensures(O::into_indexable_iter, (self.fetches().14,), iter.14),
            call_ensures(P::into_indexable_iter, (self.fetches().15,), iter.15),
            call_ensures(Q::into_indexable_iter, (self.fetches().16,), iter.16),
            call_ensures(R::into_indexable_iter, (self.fetches().17,), iter.17),
            call_ensures(S::into_indexable_iter, (self.fetches().18,), iter.18),
            call_ensures(T::into_indexable_iter, (self.fetches().19,), iter.19),
    {
        let (a, b, c, d, e, f, g, h, i, j, k, l, m, n, o, p, q, r, s, t) = self.fetches;
        ((A::into_indexable_iter)(a), (B::into_indexable_iter)(b), (C::into_indexable_iter)(c), (D::into_indexable_iter)(d), (E::into_indexable_iter)(e), (F::into_indexable_iter)(f), (G::into_indexable_iter)(g), (H::into_indexable_iter)(h), (I::into_indexable_iter)(i), (J::into_indexable_iter)(j), (K::into_indexable_iter)(k), (L::into_indexable_iter)(l), (M::into_indexable_iter)(m), (N::into_indexable_iter)(n), (O::into_indexable_iter)(o), (P::into_indexable_iter)(p), (Q::into_indexable_iter)(q), (R::into_indexable_iter)(r), (S::into_indexable_iter)(s), (T::into_indexable_iter)(t))
    }
}

impl<'a, A: Fetch, B: Fetch, C: Fetch, D: Fetch, E: Fetch, F: Fetch, G: Fetch, H: Fetch, I: Fetch, J: Fetch, K: Fetch, L: Fetch, M: Fetch, N: Fetch, O: Fetch, P: Fetch, Q: Fetch, R: Fetch, S: Fetch, T: Fetch> Fetch for MultiFetch<'a, (A, B, C, D, E, F, G, H, I, J, K, L, M, N, O, P, Q, R, S, T)> {
    type Data = (A::Data, B::Data, C::Data, D::Data, E::Data, F::Data, G::Data, H::Data, I::Data, J::Data, K::Data, L::Data, M::Data, N::Data, O::Data, P::Data, Q::Data, R::Data, S::Data, T::Data);

    fn into_components(self) -> (data: Self::Data)
        ensures
            call_ensures(A::into_components, (self.fetches().0,), data.0),
            call_ensures(B::into_components, (self.fetches().1,), data.1),
            call_ensures(C::into_components, (self.fetches().2,), data.2),
            call_ensures(D::into_components, (self.fetches().3,), data.3),
            call_ensures(E::into_components, (self.fetches().4,), data.4),
            call_ensures(F::into_components, (self.fetches().5,), data.5),
            call_ensures(G::into_components, (self.fetches().6,), data.6),
            call_ensures(H::into_components, (self.fetches().7,), data.7),
            call_ensures(I::into_components, (self.fetches().8,), data.8),
            call_ensures(J::into_components, (self.fetches().9,), data.9),
            call_ensures(K::into_components, (self.fetches().10,), data.10),
            call_ensures(L::into_components, (self.fetches().11,), data.11),
            call_ensures(M::into_components, (self.fetches().12,), data.12),
            call_ensures(N::into_components, (self.fetches().13,), data.13),
            call_ensures(O::into_components, (self.fetches().14,), data.14),
            call_ensures(P::into_components, (self.fetches().15,), data.15),
            call_ensures(Q::into_components, (self.fetches().16,), data.16),
            call_ensures(R::into_components, (self.fetches().17,), data.17),
            call_ensures(S::into_components, (self.fetches().18,), data.18),
            call_ensures(T::into_components, (self.fetches().19,), data.19),
    {
        let (a, b, c, d, e, f, g, h, i, j, k, l, m, n, o, p, q, r, s, t) = self.fetches;
        ((A::into_components)(a), (B::into_components)(b), (C::into_components)(c), (D::into_components)(d), (E::into_components)(e), (F::into_components)(f), (G::into_components)(g), (H::into_components)(h), (I::into_components)(i), (J::into_components)(j), (K::into_components)(k), (L::into_components)(l), (M::into_components)(m), (N::into_components)(n), (O::into_components)(o), (P::into_components)(p), (Q::into_components)(q), (R::into_components)(r), (S::into_components)(s), (T::into_components)(t))
    }

    fn find<Comp: 'static>(&self) -> Option<&[Comp]> {
        tuple20_find::<A, B, C, D, E, F, G, H, I, J, K, L, M, N, O, P, Q, R, S, T, Comp>(&self.fetches)
    }

    fn find_mut<Comp: 'static>(&mut self) -> Option<&mut [Comp]> {
        tuple20_find_mut::<A, B, C, D, E, F, G, H, I, J, K, L, M, N, O, P, Q, R, S, T, Comp>(&mut self.fetches)
    }

    fn version<Comp: Component>(&self) -> Option<u64> {
        tuple20_version::<A, B, C, D, E, F, G, H, I, J, K, L, M, N, O, P, Q, R, S, T, Comp>(&self.fetches)
    }

    fn accepted(&mut self)
        ensures
            exists|m: &mut A|
                *m == old(self).fetches().0 && *final(m) == final(self).fetches().0
                && call_ensures(A::accepted, (m,), ()),
            exists|m: &mut B|
                *m == old(self).fetches().1 && *final(m) == final(self).fetches().1
                && call_ensures(B::accepted, (m,), ()),
            exists|m: &mut C|
                *m == old(self).fetches().2 && *final(m) == final(self).fetches().2
                && call_ensures(C::accepted, (m,), ()),
            exists|m: &mut D|
                *m == old(self).fetches().3 && *final(m) == final(self).fetches().3
                && call_ensures(D::accepted, (m,), ()),
            exists|m: &mut E|
                *m == old(self).fetches().4 && *final(m) == final(self).fetches().4
                && call_ensures(E::accepted, (m,), ()),
            exists|m: &mut F|
                *m == old(self).fetches().5 && *final(m) == final(self).fetches().5
                && call_ensures(F::accepted, (m,), ()),
            exists|m: &mut G|
                *m == old(self).fetches().6 && *final(m) == final(self).fetches().6
                && call_ensures(G::accepted, (m,), ()),
            exists|m: &mut H|
                *m == old(self).fetches().7 && *final(m) == final(self).fetches().7
                && call_ensures(H::accepted, (m,), ()),
            exists|m: &mut I|
                *m == old(self).fetches().8 && *final(m) == final(self).fetches().8
                && call_ensures(I::accepted, (m,), ()),
            exists|m: &mut J|
                *m == old(self).fetches().9 && *final(m) == final(self).fetches().9
                && call_ensures(J::accepted, (m,), ()),
            exists|m: &mut K|
                *m == old(self).fetches().10 && *final(m) == final(self).fetches().10
                && call_ensures(K::accepted, (m,), ()),
            exists|m: &mut L|
                *m == old(self).fetches().11 && *final(m) == final(self).fetches().11
                && call_ensures(L::accepted, (m,), ()),
            exists|m: &mut M|
                *m == old(self).fetches().12 && *final(m) == final(self).fetches().12
                && call_ensures(M::accepted, (m,), ()),
            exists|m: &mut N|
                *m == old(self).fetches().13 && *final(m) == final(self).fetches().13
                && call_ensures(N::accepted, (m,), ()),
            exists|m: &mut O|
                *m == old(self).fetches().14 && *final(m) == final(self).fetches().14
                && call_ensures(O::accepted, (m,), ()),
            exists|m: &mut P|
                *m == old(self).fetches().15 && *final(m) == final(self).fetches().15
                && call_ensures(P::accepted, (m,), ()),
            exists|m: &mut Q|
                *m == old(self).fetches().16 && *final(m) == final(self).fetches().16
                && call_ensures(Q::accepted, (m,), ()),
            exists|m: &mut R|
                *m == old(self).fetches().17 && *final(m) == final(self).fetches().17
                && call_ensures(R::accepted, (m,), ()),
            exists|m: &mut S|
                *m == old(self).fetches().18 && *final(m) == final(self).fetches().18
                && call_ensures(S::accepted, (m,), ()),
            exists|m: &mut T|
                *m == old(self).fetches().19 && *final(m) == final(self).fetches().19
                && call_ensures(T::accepted, (m,), ()),
    {
        let (a, b, c, d, e, f, g, h, i, j, k, l, m, n, o, p, q, r, s, t) = &mut self.fetches;
        (A::accepted)(a);
        (B::accepted)(b);
        (C::accepted)(c);
        (D::accepted)(d);
        (E::accepted)(e);
        (F::accepted)(f);
        (G::accepted)(g);
        (H::accepted)(h);
        (I::accepted)(i);
        (J::accepted)(j);
        (K::accepted)(k);
        (L::accepted)(l);
        (M::accepted)(m);
        (N::accepted)(n);
        (O::accepted)(o);
        (P::accepted)(p);
        (Q::accepted)(q);
        (R::accepted)(r);
        (S::accepted)(s);
        (T::accepted)(t);
    }
}

impl<'a, A: ReadOnlyFetch, B: ReadOnlyFetch, C: ReadOnlyFetch, D: ReadOnlyFetch, E: ReadOnlyFetch, F: ReadOnlyFetch, G: ReadOnlyFetch, H: ReadOnlyFetch, I: ReadOnlyFetch, J: ReadOnlyFetch, K: ReadOnlyFetch, L: ReadOnlyFetch, M: ReadOnlyFetch, N: ReadOnlyFetch, O: ReadOnlyFetch, P: ReadOnlyFetch, Q: ReadOnlyFetch, R: ReadOnlyFetch, S: ReadOnlyFetch, T: ReadOnlyFetch> ReadOnlyFetch for MultiFetch<'a, (A, B, C, D, E, F, G, H, I, J, K, L, M, N, O, P, Q, R, S, T)> {
    fn get_components(&self) -> (data: Self::Data)
        ensures
            call_ensures(A::get_components, (&self.fetches().0,), data.0),
            call_ensures(B::get_components, (&self.fetches().1,), data.1),
            call_ensures(C::get_components, (&self.fetches().2,), data.2),
            call_ensures(D::get_components, (&self.fetches().3,), data.3),
            call_ensures(E::get_components, (&self.fetches().4,), data.4),
            call_ensures(F::get_components, (&self.fetches().5,), data.5),
            call_ensures(G::get_components, (&self.fetches().6,), data.6),
            call_ensures(H::get_components, (&self.fetches().7,), data.7),
            call_ensures(I::get_components, (&self.fetches().8,), data.8),
            call_ensures(J::get_components, (&self.fetches().9,), data.9),
            call_ensures(K::get_components, (&self.fetches().10,), data.10),
            call_ensures(L::get_components, (&self.fetches().11,), data.11),
            call_ensures(M::get_components, (&self.fetches().12,), data.12),
            call_ensures(N::get_components, (&self.fetches().13,), data.13),
            call_ensures(O::get_components, (&self.fetches().14,), data.14),
            call_ensures(P::get_components, (&self.fetches().15,), data.15),
            call_ensures(Q::get_components, (&self.fetches().16,), data.16),
            call_ensures(R::get_components, (&self.fetches().17,), data.17),
            call_ensures(S::get_components, (&self.fetches().18,), data.18),
            call_ensures(T::get_components, (&self.fetches().19,), data.19),
    {
        let (a, b, c, d, e, f, g, h, i, j, k, l, m, n, o, p, q, r, s, t) = &self.fetches;
        ((A::get_components)(a), (B::get_components)(b), (C::get_components)(c), (D::get_components)(d), (E::get_components)(e), (F::get_components)(f), (G::get_components)(g), (H::get_components)(h), (I::get_components)(i), (J::get_components)(j), (K::get_components)(k), (L::get_components)(l), (M::get_components)(m), (N::get_components)(n), (O::get_components)(o), (P::get_components)(p), (Q::get_components)(q), (R::get_components)(r), (S::get_components)(s), (T::get_components)(t))
    }
}

/// Whether some view of a tuple of 20 reads `Comp`, asking the views in order.
pub fn tuple20_reads<'a, A: View<'a> + 'a, B: View<'a> + 'a, C: View<'a> + 'a, D: View<'a> + 'a, E: View<'a> + 'a, F: View<'a> + 'a, G: View<'a> + 'a, H: View<'a> + 'a, I: View<'a> + 'a, J: View<'a> + 'a, K: View<'a> + 'a, L: View<'a> + 'a, M: View<'a> + 'a, N: View<'a> + 'a, O: View<'a> + 'a, P: View<'a> + 'a, Q: View<'a> + 'a, R: View<'a> + 'a, S: View<'a> + 'a, T: View<'a> + 'a, Comp: Component>() -> (found: bool)
    ensures
        (found && call_ensures(A::reads::<Comp>, (), true))
        || (call_ensures(A::reads::<Comp>, (), false) && (
            (found && call_ensures(B::reads::<Comp>, (), true))
            || (call_ensures(B::reads::<Comp>, (), false) && (
                (found && call_ensures(C::reads::<Comp>, (), true))
                || (call_ensures(C::reads::<Comp>, (), false) && (
                    (found && call_ensures(D::reads::<Comp>, (), true))
                    || (call_ensures(D::reads::<Comp>, (), false) && (
                        (found && call_ensures(E::reads::<Comp>, (), true))
                        || (call_ensures(E::reads::<Comp>, (), false) && (
                            (found && call_ensures(F::reads::<Comp>, (), true))
                            || (call_ensures(F::reads::<Comp>, (), false) && (
                                (found && call_ensures(G::reads::<Comp>, (), true))
                                || (call_ensures(G::reads::<Comp>, (), false) && (
                                    (found && call_ensures(H::reads::<Comp>, (), true))
                                    || (call_ensures(H::reads::<Comp>, (), false) && (
                                        (found && call_ensures(I::reads::<Comp>, (), true))
                                        || (call_ensures(I::reads::<Comp>, (), false) && (
                                            (found && call_ensures(J::reads::<Comp>, (), true))
                                            || (call_ensures(J::reads::<Comp>, (), false) && (
                                                (found && call_ensures(K::reads::<Comp>, (), true))
                                                || (call_ensures(K::reads::<Comp>, (), false) && (
                                                    (found && call_ensures(L::reads::<Comp>, (), true))
                                                    || (call_ensures(L::reads::<Comp>, (), false) && (
                                                        (found && call_ensures(M::reads::<Comp>, (), true))
                                                        || (call_ensures(M::reads::<Comp>, (), false) && (
                                                            (found && call_ensures(N::reads::<Comp>, (), true))
                                                            || (call_ensures(N::reads::<Comp>, (), false) && (
                                                                (found && call_ensures(O::reads::<Comp>, (), true))
                                                                || (call_ensures(O::reads::<Comp>, (), false) && (
                                                                    (found && call_ensures(P::reads::<Comp>, (), true))
                                                                    || (call_ensures(P::reads::<Comp>, (), false) && (
                                                                        (found && call_ensures(Q::reads::<Comp>, (), true))
                                                                        || (call_ensures(Q::reads::<Comp>, (), false) && (
                                                                            (found && call_ensures(R::reads::<Comp>, (), true))
                                                                            || (call_ensures(R::reads::<Comp>, (), false) && (
                                                                                (found && call_ensures(S::reads::<Comp>, (), true))
                                                                                || (call_ensures(S::reads::<Comp>, (), false) && (
                                                                                    call_ensures(T::reads::<Comp>, (), found))))))))))))))))))))))))))))))))))))))),
{
    (A::reads::<Comp>)()
        || (B::reads::<Comp>)()
        || (C::reads::<Comp>)()
        || (D::reads::<Comp>)()
        || (E::reads::<Comp>)()
        || (F::reads::<Comp>)()
        || (G::reads::<Comp>)()
        || (H::reads::<Comp>)()
        || (I::reads::<Comp>)()
        || (J::reads::<Comp>)()
        || (K::reads::<Comp>)()
        || (L::reads::<Comp>)()
        || (M::reads::<Comp>)()
        || (N::reads::<Comp>)()
        || (O::reads::<Comp>)()
        || (P::reads::<Comp>)()
        || (Q::reads::<Comp>)()
        || (R::reads::<Comp>)()
        || (S::reads::<Comp>)()
        || (T::reads::<Comp>)()
}

/// Whether some view of a tuple of 20 writes `Comp`, asking the views in order.
pub fn tuple20_writes<'a, A: View<'a> + 'a, B: View<'a> + 'a, C: View<'a> + 'a, D: View<'a> + 'a, E: View<'a> + 'a, F: View<'a> + 'a, G: View<'a> + 'a, H: View<'a> + 'a, I: View<'a> + 'a, J: View<'a> + 'a, K: View<'a> + 'a, L: View<'a> + 'a, M: View<'a> + 'a, N: View<'a> + 'a, O: View<'a> + 'a, P: View<'a> + 'a, Q: View<'a> + 'a, R: View<'a> + 'a, S: View<'a> + 'a, T: View<'a> + 'a, Comp: Component>() -> (found: bool)
    ensures
        (found && call_ensures(A::writes::<Comp>, (), true))
        || (call_ensures(A::writes::<Comp>, (), false) && (
            (found && call_ensures(B::writes::<Comp>, (), true))
            || (call_ensures(B::writes::<Comp>, (), false) && (
                (found && call_ensures(C::writes::<Comp>, (), true))
                || (call_ensures(C::writes::<Comp>, (), false) && (
                    (found && call_ensures(D::writes::<Comp>, (), true))
                    || (call_ensures(D::writes::<Comp>, (), false) && (
                        (found && call_ensures(E::writes::<Comp>, (), true))
                        || (call_ensures(E::writes::<Comp>, (), false) && (
                            (found && call_ensures(F::writes::<Comp>, (), true))
                            || (call_ensures(F::writes::<Comp>, (), false) && (
                                (found && call_ensures(G::writes::<Comp>, (), true))
                                || (call_ensures(G::writes::<Comp>, (), false) && (
                                    (found && call_ensures(H::writes::<Comp>, (), true))
                                    || (call_ensures(H::writes::<Comp>, (), false) && (
                                        (found && call_ensures(I::writes::<Comp>, (), true))
                                        || (call_ensures(I::writes::<Comp>, (), false) && (
                                            (found && call_ensures(J::writes::<Comp>, (), true))
                                            || (call_ensures(J::writes::<Comp>, (), false) && (
                                                (found && call_ensures(K::writes::<Comp>, (), true))
                                                || (call_ensures(K::writes::<Comp>, (), false) && (
                                                    (found && call_ensures(L::writes::<Comp>, (), true))
                                                    || (call_ensures(L::writes::<Comp>, (), false) && (
                                                        (found && call_ensures(M::writes::<Comp>, (), true))
                                                        || (call_ensures(M::writes::<Comp>, (), false) && (
                                                            (found && call_ensures(N::writes::<Comp>, (), true))
                                                            || (call_ensures(N::writes::<Comp>, (), false) && (
                                                                (found && call_ensures(O::writes::<Comp>, (), true))
                                                                || (call_ensures(O::writes::<Comp>, (), false) && (
                                                                    (found && call_ensures(P::writes::<Comp>, (), true))
                                                                    || (call_ensures(P::writes::<Comp>, (), false) && (
                                                                        (found && call_ensures(Q::writes::<Comp>, (), true))
                                                                        || (call_ensures(Q::writes::<Comp>, (), false) && (
                                                                            (found && call_ensures(R::writes::<Comp>, (), true))
                                                                            || (call_ensures(R::writes::<Comp>, (), false) && (
                                                                                (found && call_ensures(S::writes::<Comp>, (), true))
                                                                                || (call_ensures(S::writes::<Comp>, (), false) && (
                                                                                    call_ensures(T::writes::<Comp>, (), found))))))))))))))))))))))))))))))))))))))),
{
    (A::writes::<Comp>)()
        || (B::writes::<Comp>)()
        || (C::writes::<Comp>)()
        || (D::writes::<Comp>)()
        || (E::writes::<Comp>)()
        || (F::writes::<Comp>)()
        || (G::writes::<Comp>)()
        || (H::writes::<Comp>)()
        || (I::writes::<Comp>)()
        || (J::writes::<Comp>)()
        || (K::writes::<Comp>)()
        || (L::writes::<Comp>)()
        || (M::writes::<Comp>)()
        || (N::writes::<Comp>)()
        || (O::writes::<Comp>)()
        || (P::writes::<Comp>)()
        || (Q::writes::<Comp>)()
        || (R::writes::<Comp>)()
        || (S::writes::<Comp>)()
        || (T::writes::<Comp>)()
}

/// The slice of the first fetch of a tuple of 20 that holds `Comp`.
pub fn tuple20_find<'f, A: Fetch, B: Fetch, C: Fetch, D: Fetch, E: Fetch, F: Fetch, G: Fetch, H: Fetch, I: Fetch, J: Fetch, K: Fetch, L: Fetch, M: Fetch, N: Fetch, O: Fetch, P: Fetch, Q: Fetch, R: Fetch, S: Fetch, T: Fetch, Comp: 'static>(fetches: &'f (A, B, C, D, E, F, G, H, I, J, K, L, M, N, O, P, Q, R, S, T)) -> (found: Option<&'f [Comp]>)
    ensures
        (found is Some && call_ensures(A::find::<Comp>, (&fetches.0,), found))
        || (call_ensures(A::find::<Comp>, (&fetches.0,), None) && (
            (found is Some && call_ensures(B::find::<Comp>, (&fetches.1,), found))
            || (call_ensures(B::find::<Comp>, (&fetches.1,), None) && (
                (found is Some && call_ensures(C::find::<Comp>, (&fetches.2,), found))
                || (call_ensures(C::find::<Comp>, (&fetches.2,), None) && (
                    (found is Some && call_ensures(D::find::<Comp>, (&fetches.3,), found))
                    || (call_ensures(D::find::<Comp>, (&fetches.3,), None) && (
                        (found is Some && call_ensures(E::find::<Comp>, (&fetches.4,), found))
                        || (call_ensures(E::find::<Comp>, (&fetches.4,), None) && (
                            (found is Some && call_ensures(F::find::<Comp>, (&fetches.5,), found))
                            || (call_ensures(F::find::<Comp>, (&fetches.5,), None) && (
                                (found is Some && call_ensures(G::find::<Comp>, (&fetches.6,), found))
                                || (call_ensures(G::find::<Comp>, (&fetches.6,), None) && (
                                    (found is Some && call_ensures(H::find::<Comp>, (&fetches.7,), found))
                                    || (call_ensures(H::find::<Comp>, (&fetches.7,), None) && (
                                        (found is Some && call_ensures(I::find::<Comp>, (&fetches.8,), found))
                                        || (call_ensures(I::find::<Comp>, (&fetches.8,), None) && (
                                            (found is Some && call_ensures(J::find::<Comp>, (&fetches.9,), found))
                                            || (call_ensures(J::find::<Comp>, (&fetches.9,), None) && (
                                                (found is Some && call_ensures(K::find::<Comp>, (&fetches.10,), found))
                                                || (call_ensures(K::find::<Comp>, (&fetches.10,), None) && (
                                                    (found is Some && call_ensures(L::find::<Comp>, (&fetches.11,), found))
                                                    || (call_ensures(L::find::<Comp>, (&fetches.11,), None) && (
                                                        (found is Some && call_ensures(M::find::<Comp>, (&fetches.12,), found))
                                                        || (call_ensures(M::find::<Comp>, (&fetches.12,), None) && (
                                                            (found is Some && call_ensures(N::find::<Comp>, (&fetches.13,), found))
                                                            || (call_ensures(N::find::<Comp>, (&fetches.13,), None) && (
                                                                (found is Some && call_ensures(O::find::<Comp>, (&fetches.14,), found))
                                                                || (call_ensures(O::find::<Comp>, (&fetches.14,), None) && (
                                                                    (found is Some && call_ensures(P::find::<Comp>, (&fetches.15,), found))
                                                                    || (call_ensures(P::find::<Comp>, (&fetches.15,), None) && (
                                                                        (found is Some && call_ensures(Q::find::<Comp>, (&fetches.16,), found))
                                                                        || (call_ensures(Q::find::<Comp>, (&fetches.16,), None) && (
                                                                            (found is Some && call_ensures(R::find::<Comp>, (&fetches.17,), found))
                                                                            || (call_ensures(R::find::<Comp>, (&fetches.17,), None) && (
                                                                                (found is Some && call_ensures(S::find::<Comp>, (&fetches.18,), found))
                                                                                || (call_ensures(S::find::<Comp>, (&fetches.18,), None) && (
                                                                                    call_ensures(T::find::<Comp>, (&fetches.19,), found))))))))))))))))))))))))))))))))))))))),
{
    let (a, b, c, d, e, f, g, h, i, j, k, l, m, n, o, p, q, r, s, t) = fetches;
    if let Some(slice) = (A::find::<Comp>)(a) {
        return Some(slice);
    }
    if let Some(slice) = (B::find::<Comp>)(b) {
        return Some(slice);
    }
    if let Some(slice) = (C::find::<Comp>)(c) {
        return Some(slice);
    }
    if let Some(slice) = (D::find::<Comp>)(d) {
        return Some(slice);
    }
    if let Some(slice) = (E::find::<Comp>)(e) {
        return Some(slice);
    }
    if let Some(slice) = (F::find::<Comp>)(f) {
        return Some(slice);
    }
    if let Some(slice) = (G::find::<Comp>)(g) {
        return Some(slice);
    }
    if let Some(slice) = (H::find::<Comp>)(h) {
        return Some(slice);
    }
    if let Some(slice) = (I::find::<Comp>)(i) {
        return Some(slice);
    }
    if let Some(slice) = (J::find::<Comp>)(j) {
        return Some(slice);
    }
    if let Some(slice) = (K::find::<Comp>)(k) {
        return Some(slice);
    }
    if let Some(slice) = (L::find::<Comp>)(l) {
        return Some(slice);
    }
    if let Some(slice) = (M::find::<Comp>)(m) {
        return Some(slice);
    }
    if let Some(slice) = (N::find::<Comp>)(n) {
        return Some(slice);
    }
    if let Some(slice) = (O::find::<Comp>)(o) {
        return Some(slice);
    }
    if let Some(slice) = (P::find::<Comp>)(p) {
        return Some(slice);
    }
    if let Some(slice) = (Q::find::<Comp>)(q) {
        return Some(slice);
    }
    if let Some(slice) = (R::find::<Comp>)(r) {
        return Some(slice);
    }
    if let Some(slice) = (S::find::<Comp>)(s) {
        return Some(slice);
    }
    (T::find::<Comp>)(t)
}

/// The mutable slice of the first fetch of a tuple of 20 that holds `Comp`.
pub fn tuple20_find_mut<'f, A: Fetch, B: Fetch, C: Fetch, D: Fetch, E: Fetch, F: Fetch, G: Fetch, H: Fetch, I: Fetch, J: Fetch, K: Fetch, L: Fetch, M: Fetch, N: Fetch, O: Fetch, P: Fetch, Q: Fetch, R: Fetch, S: Fetch, T: Fetch, Comp: 'static>(fetches: &'f mut (A, B, C, D, E, F, G, H, I, J, K, L, M, N, O, P, Q, R, S, T)) -> (found: Option<&'f mut [Comp]>)
    ensures
        exists|m: &mut A|
            *m == old(fetches).0
            && *final(m) == final(fetches).0
            && ((found is Some && call_ensures(A::find_mut::<Comp>, (m,), found) && final(fetches).1 == old(fetches).1 && final(fetches).2 == old(fetches).2 && final(fetches).3 == old(fetches).3 && final(fetches).4 == old(fetches).4 && final(fetches).5 == old(fetches).5 && final(fetches).6 == old(fetches).6 && final(fetches).7 == old(fetches).7 && final(fetches).8 == old(fetches).8 && final(fetches).9 == old(fetches).9 && final(fetches).10 == old(fetches).10 && final(fetches).11 == old(fetches).11 && final(fetches).12 == old(fetches).12 && final(fetches).13 == old(fetches).13 && final(fetches).14 == old(fetches).14 && final(fetches).15 == old(fetches).15 && final(fetches).16 == old(fetches).16 && final(fetches).17 == old(fetches).17 && final(fetches).18 == old(fetches).18 && final(fetches).19 == old(fetches).19)
            || (call_ensures(A::find_mut::<Comp>, (m,), None) && (
                exists|m: &mut B|
                    *m == old(fetches).1
                    && *final(m) == final(fetches).1
                    && ((found is Some && call_ensures(B::find_mut::<Comp>, (m,), found) && final(fetches).2 == old(fetches).2 && final(fetches).3 == old(fetches).3 && final(fetches).4 == old(fetches).4 && final(fetches).5 == old(fetches).5 && final(fetches).6 == old(fetches).6 && final(fetches).7 == old(fetches).7 && final(fetches).8 == old(fetches).8 && final(fetches).9 == old(fetches).9 && final(fetches).10 == old(fetches).10 && final(fetches).11 == old(fetches).11 && final(fetches).12 == old(fetches).12 && final(fetches).13 == old(fetches).13 && final(fetches).14 == old(fetches).14 && final(fetches).15 == old(fetches).15 && final(fetches).16 == old(fetches).16 && final(fetches).17 == old(fetches).17 && final(fetches).18 == old(fetches).18 && final(fetches).19 == old(fetches).19)
                    || (call_ensures(B::find_mut::<Comp>, (m,), None) && (
                        exists|m: &mut C|
                            *m == old(fetches).2
                            && *final(m) == final(fetches).2
                            && ((found is Some && call_ensures(C::find_mut::<Comp>, (m,), found) && final(fetches).3 == old(fetches).3 && final(fetches).4 == old(fetches).4 && final(fetches).5 == old(fetches).5 && final(fetches).6 == old(fetches).6 && final(fetches).7 == old(fetches).7 && final(fetches).8 == old(fetches).8 && final(fetches).9 == old(fetches).9 && final(fetches).10 == old(fetches).10 && final(fetches).11 == old(fetches).11 && final(fetches).12 == old(fetches).12 && final(fetches).13 == old(fetches).13 && final(fetches).14 == old(fetches).14 && final(fetches).15 == old(fetches).15 && final(fetches).16 == old(fetches).16 && final(fetches).17 == old(fetches).17 && final(fetches).18 == old(fetches).18 && final(fetches).19 == old(fetches).19)
                            || (call_ensures(C::find_mut::<Comp>, (m,), None) && (
                                exists|m: &mut D|
                                    *m == old(fetches).3
                                    && *final(m) == final(fetches).3
                                    && ((found is Some && call_ensures(D::find_mut::<Comp>, (m,), found) && final(fetches).4 == old(fetches).4 && final(fetches).5 == old(fetches).5 && final(fetches).6 == old(fetches).6 && final(fetches).7 == old(fetches).7 && final(fetches).8 == old(fetches).8 && final(fetches).9 == old(fetches).9 && final(fetches).10 == old(fetches).10 && final(fetches).11 == old(fetches).11 && final(fetches).12 == old(fetches).12 && final(fetches).13 == old(fetches).13 && final(fetches).14 == old(fetches).14 && final(fetches).15 == old(fetches).15 && final(fetches).16 == old(fetches).16 && final(fetches).17 == old(fetches).17 && final(fetches).18 == old(fetches).18 && final(fetches).19 == old(fetches).19)
                                    || (call_ensures(D::find_mut::<Comp>, (m,), None) && (
                                        exists|m: &mut E|
                                            *m == old(fetches).4
                                            && *final(m) == final(fetches).4
                                            && ((found is Some && call_ensures(E::find_mut::<Comp>, (m,), found) && final(fetches).5 == old(fetches).5 && final(fetches).6 == old(fetches).6 && final(fetches).7 == old(fetches).7 && final(fetches).8 == old(fetches).8 && final(fetches).9 == old(fetches).9 && final(fetches).10 == old(fetches).10 && final(fetches).11 == old(fetches).11 && final(fetches).12 == old(fetches).12 && final(fetches).13 == old(fetches).13 && final(fetches).14 == old(fetches).14 && final(fetches).15 == old(fetches).15 && final(fetches).16 == old(fetches).16 && final(fetches).17 == old(fetches).17 && final(fetches).18 == old(fetches).18 && final(fetches).19 == old(fetches).19)
                                            || (call_ensures(E::find_mut::<Comp>, (m,), None) && (
                                                exists|m: &mut F|
                                                    *m == old(fetches).5
                                                    && *final(m) == final(fetches).5
                                                    && ((found is Some && call_ensures(F::find_mut::<Comp>, (m,), found) && final(fetches).6 == old(fetches).6 && final(fetches).7 == old(fetches).7 && final(fetches).8 == old(fetches).8 && final(fetches).9 == old(fetches).9 && final(fetches).10 == old(fetches).10 && final(fetches).11 == old(fetches).11 && final(fetches).12 == old(fetches).12 && final(fetches).13 == old(fetches).13 && final(fetches).14 == old(fetches).14 && final(fetches).15 == old(fetches).15 && final(fetches).16 == old(fetches).16 && final(fetches).17 == old(fetches).17 && final(fetches).18 == old(fetches).18 && final(fetches).19 == old(fetches).19)
                                                    || (call_ensures(F::find_mut::<Comp>, (m,), None) && (
                                                        exists|m: &mut G|
                                                            *m == old(fetches).6
                                                            && *final(m) == final(fetches).6
                                                            && ((found is Some && call_ensures(G::find_mut::<Comp>, (m,), found) && final(fetches).7 == old(fetches).7 && final(fetches).8 == old(fetches).8 && final(fetches).9 == old(fetches).9 && final(fetches).10 == old(fetches).10 && final(fetches).11 == old(fetches).11 && final(fetches).12 == old(fetches).12 && final(fetches).13 == old(fetches).13 && final(fetches).14 == old(fetches).14 && final(fetches).15 == old(fetches).15 && final(fetches).16 == old(fetches).16 && final(fetches).17 == old(fetches).17 && final(fetches).18 == old(fetches).18 && final(fetches).19 == old(fetches).19)
                                                            || (call_ensures(G::find_mut::<Comp>, (m,), None) && (
                                                                exists|m: &mut H|
                                                                    *m == old(fetches).7
                                                                    && *final(m) == final(fetches).7
                                                                    && ((found is Some && call_ensures(H::find_mut::<Comp>, (m,), found) && final(fetches).8 == old(fetches).8 && final(fetches).9 == old(fetches).9 && final(fetches).10 == old(fetches).10 && final(fetches).11 == old(fetches).11 && final(fetches).12 == old(fetches).12 && final(fetches).13 == old(fetches).13 && final(fetches).14 == old(fetches).14 && final(fetches).15 == old(fetches).15 && final(fetches).16 == old(fetches).16 && final(fetches).17 == old(fetches).17 && final(fetches).18 == old(fetches).18 && final(fetches).19 == old(fetches).19)
                                                                    || (call_ensures(H::find_mut::<Comp>, (m,), None) && (
                                                                        exists|m: &mut I|
                                                                            *m == old(fetches).8
                                                                            && *final(m) == final(fetches).8
                                                                            && ((found is Some && call_ensures(I::find_mut::<Comp>, (m,), found) && final(fetches).9 == old(fetches).9 && final(fetches).10 == old(fetches).10 && final(fetches).11 == old(fetches).11 && final(fetches).12 == old(fetches).12 && final(fetches).13 == old(fetches).13 && final(fetches).14 == old(fetches).14 && final(fetches).15 == old(fetches).15 && final(fetches).16 == old(fetches).16 && final(fetches).17 == old(fetches).17 && final(fetches).18 == old(fetches).18 && final(fetches).19 == old(fetches).19)
                                                                            || (call_ensures(I::find_mut::<Comp>, (m,), None) && (
                                                                                exists|m: &mut J|
                                                                                    *m == old(fetches).9
                                                                                    && *final(m) == final(fetches).9
                                                                                    && ((found is Some && call_ensures(J::find_mut::<Comp>, (m,), found) && final(fetches).10 == old(fetches).10 && final(fetches).11 == old(fetches).11 && final(fetches).12 == old(fetches).12 && final(fetches).13 == old(fetches).13 && final(fetches).14 == old(fetches).14 && final(fetches).15 == old(fetches).15 && final(fetches).16 == old(fetches).16 && final(fetches).17 == old(fetches).17 && final(fetches).18 == old(fetches).18 && final(fetches).19 == old(fetches).19)
                                                                                    || (call_ensures(J::find_mut::<Comp>, (m,), None) && (
                                                                                        exists|m: &mut K|
                                                                                            *m == old(fetches).10
                                                                                            && *final(m) == final(fetches).10
                                                                                            && ((found is Some && call_ensures(K::find_mut::<Comp>, (m,), found) && final(fetches).11 == old(fetches).11 && final(fetches).12 == old(fetches).12 && final(fetches).13 == old(fetches).13 && final(fetches).14 == old(fetches).14 && final(fetches).15 == old(fetches).15 && final(fetches).16 == old(fetches).16 && final(fetches).17 == old(fetches).17 && final(fetches).18 == old(fetches).18 && final(fetches).19 == old(fetches).19)
                                                                                            || (call_ensures(K::find_mut::<Comp>, (m,), None) && (
                                                                                                exists|m: &mut L|
                                                                                                    *m == old(fetches).11
                                                                                                    && *final(m) == final(fetches).11
                                                                                                    && ((found is Some && call_ensures(L::find_mut::<Comp>, (m,), found) && final(fetches).12 == old(fetches).12 && final(fetches).13 == old(fetches).13 && final(fetches).14 == old(fetches).14 && final(fetches).15 == old(fetches).15 && final(fetches).16 == old(fetches).16 && final(fetches).17 == old(fetches).17 && final(fetches).18 == old(fetches).18 && final(fetches).19 == old(fetches).19)
                                                                                                    || (call_ensures(L::find_mut::<Comp>, (m,), None) && (
                                                                                                        exists|m: &mut M|
                                                                                                            *m == old(fetches).12
                                                                                                            && *final(m) == final(fetches).12
                                                                                                            && ((found is Some && call_ensures(M::find_mut::<Comp>, (m,), found) && final(fetches).13 == old(fetches).13 && final(fetches).14 == old(fetches).14 && final(fetches).15 == old(fetches).15 && final(fetches).16 == old(fetches).16 && final(fetches).17 == old(fetches).17 && final(fetches).18 == old(fetches).18 && final(fetches).19 == old(fetches).19)
                                                                                                            || (call_ensures(M::find_mut::<Comp>, (m,), None) && (
                                                                                                                exists|m: &mut N|
                                                                                                                    *m == old(fetches).13
                                                                                                                    && *final(m) == final(fetches).13
                                                                                                                    && ((found is Some && call_ensures(N::find_mut::<Comp>, (m,), found) && final(fetches).14 == old(fetches).14 && final(fetches).15 == old(fetches).15 && final(fetches).16 == old(fetches).16 && final(fetches).17 == old(fetches).17 && final(fetches).18 == old(fetches).18 && final(fetches).19 == old(fetches).19)
                                                                                                                    || (call_ensures(N::find_mut::<Comp>, (m,), None) && (
                                                                                                                        exists|m: &mut O|
                                                                                                                            *m == old(fetches).14
                                                                                                                            && *final(m) == final(fetches).14
                                                                                                                            && ((found is Some && call_ensures(O::find_mut::<Comp>, (m,), found) && final(fetches).15 == old(fetches).15 && final(fetches).16 == old(fetches).16 && final(fetches).17 == old(fetches).17 && final(fetches).18 == old(fetches).18 && final(fetches).19 == old(fetches).19)
                                                                                                                            || (call_ensures(O::find_mut::<Comp>, (m,), None) && (
                                                                                                                                exists|m: &mut P|
                                                                                                                                    *m == old(fetches).15
                                                                                                                                    && *final(m) == final(fetches).15
                                                                                                                                    && ((found is Some && call_ensures(P::find_mut::<Comp>, (m,), found) && final(fetches).16 == old(fetches).16 && final(fetches).17 == old(fetches).17 && final(fetches).18 == old(fetches).18 && final(fetches).19 == old(fetches).19)
                                                                                                                                    || (call_ensures(P::find_mut::<Comp>, (m,), None) && (
                                                                                                                                        exists|m: &mut Q|
                                                                                                                                            *m == old(fetches).16
                                                                                                                                            && *final(m) == final(fetches).16
                                                                                                                                            && ((found is Some && call_ensures(Q::find_mut::<Comp>, (m,), found) && final(fetches).17 == old(fetches).17 && final(fetches).18 == old(fetches).18 && final(fetches).19 == old(fetches).19)
                                                                                                                                            || (call_ensures(Q::find_mut::<Comp>, (m,), None) && (
                                                                                                                                                exists|m: &mut R|
                                                                                                                                                    *m == old(fetches).17
                                                                                                                                                    && *final(m) == final(fetches).17
                                                                                                                                                    && ((found is Some && call_ensures(R::find_mut::<Comp>, (m,), found) && final(fetches).18 == old(fetches).18 && final(fetches).19 == old(fetches).19)
                                                                                                                                                    || (call_ensures(R::find_mut::<Comp>, (m,), None) && (
                                                                                                                                                        exists|m: &mut S|
                                                                                                                                                            *m == old(fetches).18
                                                                                                                                                            && *final(m) == final(fetches).18
                                                                                                                                                            && ((found is Some && call_ensures(S::find_mut::<Comp>, (m,), found) && final(fetches).19 == old(fetches).19)
                                                                                                                                                            || (call_ensures(S::find_mut::<Comp>, (m,), None) && (
                                                                                                                                                                exists|m: &mut T|
                                                                                                                                                                    *m == old(fetches).19
                                                                                                                                                                    && *final(m) == final(fetches).19
                                                                                                                                                                    && call_ensures(T::find_mut::<Comp>, (m,), found)))))))))))))))))))))))))))))))))))))))))))))))))))))))))),
{
    let found = (A::find_mut::<Comp>)(&mut fetches.0);
    if found.is_some() {
        return found;
    }
    let found = (B::find_mut::<Comp>)(&mut fetches.1);
    if found.is_some() {
        return found;
    }
    let found = (C::find_mut::<Comp>)(&mut fetches.2);
    if found.is_some() {
        return found;
    }
    let found = (D::find_mut::<Comp>)(&mut fetches.3);
    if found.is_some() {
        return found;
    }
    let found = (E::find_mut::<Comp>)(&mut fetches.4);
    if found.is_some() {
        return found;
    }
    let found = (F::find_mut::<Comp>)(&mut fetches.5);
    if found.is_some() {
        return found;
    }
    let found = (G::find_mut::<Comp>)(&mut fetches.6);
    if found.is_some() {
        return found;
    }
    let found = (H::find_mut::<Comp>)(&mut fetches.7);
    if found.is_some() {
        return found;
    }
    let found = (I::find_mut::<Comp>)(&mut fetches.8);
    if found.is_some() {
        return found;
    }
    let found = (J::find_mut::<Comp>)(&mut fetches.9);
    if found.is_some() {
        return found;
    }
    let found = (K::find_mut::<Comp>)(&mut fetches.10);
    if found.is_some() {
        return found;
    }
    let found = (L::find_mut::<Comp>)(&mut fetches.11);
    if found.is_some() {
        return found;
    }
    let found = (M::find_mut::<Comp>)(&mut fetches.12);
    if found.is_some() {
        return found;
    }
    let found = (N::find_mut::<Comp>)(&mut fetches.13);
    if found.is_some() {
        return found;
    }
    let found = (O::find_mut::<Comp>)(&mut fetches.14);
    if found.is_some() {
        return found;
    }
    let found = (P::find_mut::<Comp>)(&mut fetches.15);
    if found.is_some() {
        return found;
    }
    let found = (Q::find_mut::<Comp>)(&mut fetches.16);
    if found.is_some() {
        return found;
    }
    let found = (R::find_mut::<Comp>)(&mut fetches.17);
    if found.is_some() {
        return found;
    }
    let found = (S::find_mut::<Comp>)(&mut fetches.18);
    if found.is_some() {
        return found;
    }
    (T::find_mut::<Comp>)(&mut fetches.19)
}

/// The version of `Comp` in the first fetch of a tuple of 20 that holds it.
pub fn tuple20_version<A: Fetch, B: Fetch, C: Fetch, D: Fetch, E: Fetch, F: Fetch, G: Fetch, H: Fetch, I: Fetch, J: Fetch, K: Fetch, L: Fetch, M: Fetch, N: Fetch, O: Fetch, P: Fetch, Q: Fetch, R: Fetch, S: Fetch, T: Fetch, Comp: Component>(fetches: &(A, B, C, D, E, F, G, H, I, J, K, L, M, N, O, P, Q, R, S, T)) -> (version: Option<u64>)
    ensures
        (version is Some && call_ensures(A::version::<Comp>, (&fetches.0,), version))
        || (call_ensures(A::version::<Comp>, (&fetches.0,), None) && (
            (version is Some && call_ensures(B::version::<Comp>, (&fetches.1,), version))
            || (call_ensures(B::version::<Comp>, (&fetches.1,), None) && (
                (version is Some && call_ensures(C::version::<Comp>, (&fetches.2,), version))
                || (call_ensures(C::version::<Comp>, (&fetches.2,), None) && (
                    (version is Some && call_ensures(D::version::<Comp>, (&fetches.3,), version))
                    || (call_ensures(D::version::<Comp>, (&fetches.3,), None) && (
                        (version is Some && call_ensures(E::version::<Comp>, (&fetches.4,), version))
                        || (call_ensures(E::version::<Comp>, (&fetches.4,), None) && (
                            (version is Some && call_ensures(F::version::<Comp>, (&fetches.5,), version))
                            || (call_ensures(F::version::<Comp>, (&fetches.5,), None) && (
                                (version is Some && call_ensures(G::version::<Comp>, (&fetches.6,), version))
                                || (call_ensures(G::version::<Comp>, (&fetches.6,), None) && (
                                    (version is Some && call_ensures(H::version::<Comp>, (&fetches.7,), version))
                                    || (call_ensures(H::version::<Comp>, (&fetches.7,), None) && (
                                        (version is Some && call_ensures(I::version::<Comp>, (&fetches.8,), version))
                                        || (call_ensures(I::version::<Comp>, (&fetches.8,), None) && (
                                            (version is Some && call_ensures(J::version::<Comp>, (&fetches.9,), version))
                                            || (call_ensures(J::version::<Comp>, (&fetches.9,), None) && (
                                                (version is Some && call_ensures(K::version::<Comp>, (&fetches.10,), version))
                                                || (call_ensures(K::version::<Comp>, (&fetches.10,), None) && (
                                                    (version is Some && call_ensures(L::version::<Comp>, (&fetches.11,), version))
                                                    || (call_ensures(L::version::<Comp>, (&fetches.11,), None) && (
                                                        (version is Some && call_ensures(M::version::<Comp>, (&fetches.12,), version))
                                                        || (call_ensures(M::version::<Comp>, (&fetches.12,), None) && (
                                                            (version is Some && call_ensures(N::version::<Comp>, (&fetches.13,), version))
                                                            || (call_ensures(N::version::<Comp>, (&fetches.13,), None) && (
                                                                (version is Some && call_ensures(O::version::<Comp>, (&fetches.14,), version))
                                                                || (call_ensures(O::version::<Comp>, (&fetches.14,), None) && (
                                                                    (version is Some && call_ensures(P::version::<Comp>, (&fetches.15,), version))
                                                                    || (call_ensures(P::version::<Comp>, (&fetches.15,), None) && (
                                                                        (version is Some && call_ensures(Q::version::<Comp>, (&fetches.16,), version))
                                                                        || (call_ensures(Q::version::<Comp>, (&fetches.16,), None) && (
                                                                            (version is Some && call_ensures(R::version::<Comp>, (&fetches.17,), version))
                                                                            || (call_ensures(R::version::<Comp>, (&fetches.17,), None) && (
                                                                                (version is Some && call_ensures(S::version::<Comp>, (&fetches.18,), version))
                                                                                || (call_ensures(S::version::<Comp>, (&fetches.18,), None) && (
                                                                                    call_ensures(T::version::<Comp>, (&fetches.19,), version))))))))))))))))))))))))))))))))))))))),
{
    let (a, b, c, d, e, f, g, h, i, j, k, l, m, n, o, p, q, r, s, t) = fetches;
    if let Some(version) = (A::version::<Comp>)(a) {
        return Some(version);
    }
    if let Some(version) = (B::version::<Comp>)(b) {
        return Some(version);
    }
    if let Some(version) = (C::version::<Comp>)(c) {
        return Some(version);
    }
    if let Some(version) = (D::version::<Comp>)(d) {
        return Some(version);
    }
    if let Some(version) = (E::version::<Comp>)(e) {
        return Some(version);
    }
    if let Some(version) = (F::version::<Comp>)(f) {
        return Some(version);
    }
    if let Some(version) = (G::version::<Comp>)(g) {
        return Some(version);
    }
    if let Some(version) = (H::version::<Comp>)(h) {
        return Some(version);
    }
    if let Some(version) = (I::version::<Comp>)(i) {
        return Some(version);
    }
    if let Some(version) = (J::version::<Comp>)(j) {
        return Some(version);
    }
    if let Some(version) = (K::version::<Comp>)(k) {
        return Some(version);
    }
    if let Some(version) = (L::version::<Comp>)(l) {
        return Some(version);
    }
    if let Some(version) = (M::version::<Comp>)(m) {
        return Some(version);
    }
    if let Some(version) = (N::version::<Comp>)(n) {
        return Some(version);
    }
    if let Some(version) = (O::version::<Comp>)(o) {
        return Some(version);
    }
    if let Some(version) = (P::version::<Comp>)(p) {
        return Some(version);
    }
    if let Some(version) = (Q::version::<Comp>)(q) {
        return Some(version);
    }
    if let Some(version) = (R::version::<Comp>)(r) {
        return Some(version);
    }
    if let Some(version) = (S::version::<Comp>)(s) {
        return Some(version);
    }
    (T::version::<Comp>)(t)
}

// Tuples of 21 views.

impl<A: DefaultFilter, B: DefaultFilter, C: DefaultFilter, D: DefaultFilter, E: DefaultFilter, F: DefaultFilter, G: DefaultFilter, H: DefaultFilter, I: DefaultFilter, J: DefaultFilter, K: DefaultFilter, L: DefaultFilter, M: DefaultFilter, N: DefaultFilter, O: DefaultFilter, P: DefaultFilter, Q: DefaultFilter, R: DefaultFilter, S: DefaultFilter, T: DefaultFilter, U: DefaultFilter> DefaultFilter for (A, B, C, D, E, F, G, H, I, J, K, L, M, N, O, P, Q, R, S, T, U) {
    type Filter = (A::Filter, B::Filter, C::Filter, D::Filter, E::Filter, F::Filter, G::Filter, H::Filter, I::Filter, J::Filter, K::Filter, L::Filter, M::Filter, N::Filter, O::Filter, P::Filter, Q::Filter, R::Filter, S::Filter, T::Filter, U::Filter);
}

impl<'a, A: View<'a> + 'a, B: View<'a> + 'a, C: View<'a> + 'a, D: View<'a> + 'a, E: View<'a> + 'a, F: View<'a> + 'a, G: View<'a> + 'a, H: View<'a> + 'a, I: View<'a> + 'a, J: View<'a> + 'a, K: View<'a> + 'a, L: View<'a> + 'a, M: View<'a> + 'a, N: View<'a> + 'a, O: View<'a> + 'a, P: View<'a> + 'a, Q: View<'a> + 'a, R: View<'a> + 'a, S: View<'a> + 'a, T: View<'a> + 'a, U: View<'a> + 'a> View<'a> for (A, B, C, D, E, F, G, H, I, J, K, L, M, N, O, P, Q, R, S, T, U) {
    type Element = <Self::Fetch as IntoIndexableIter>::Item;
    type Fetch = MultiFetch<'a, (A::Fetch, B::Fetch, C::Fetch, D::Fetch, E::Fetch, F::Fetch, G::Fetch, H::Fetch, I::Fetch, J::Fetch, K::Fetch, L::Fetch, M::Fetch, N::Fetch, O::Fetch, P::Fetch, Q::Fetch, R::Fetch, S::Fetch, T::Fetch, U::Fetch)>;

    fn validate() -> (valid: bool)
        ensures
            exists|reads: Seq<Vec<ComponentTypeId>>, writes: Seq<Vec<ComponentTypeId>>|
                reads.len() == 21 && writes.len() == 21
                && call_ensures(A::reads_types, (), reads[0])
                && call_ensures(A::writes_types, (), writes[0])
                && call_ensures(B::reads_types, (), reads[1])
                && call_ensures(B::writes_types, (), writes[1])
                && call_ensures(C::reads_types, (), reads[2])
                && call_ensures(C::writes_types, (), writes[2])
                && call_ensures(D::reads_types, (), reads[3])
                && call_ensures(D::writes_types, (), writes[3])
                && call_ensures(E::reads_types, (), reads[4])
                && call_ensures(E::writes_types, (), writes[4])
                && call_ensures(F::reads_types, (), reads[5])
                && call_ensures(F::writes_types, (), writes[5])
                && call_ensures(G::reads_types, (), reads[6])
                && call_ensures(G::writes_types, (), writes[6])
                && call_ensures(H::reads_types, (), reads[7])
                && call_ensures(H::writes_types, (), writes[7])
                && call_ensures(I::reads_types, (), reads[8])
                && call_ensures(I::writes_types, (), writes[8])
                && call_ensures(J::reads_types, (), reads[9])
                && call_ensures(J::writes_types, (), writes[9])
                && call_ensures(K::reads_types, (), reads[10])
                && call_ensures(K::writes_types, (), writes[10])
                && call_ensures(L::reads_types, (), reads[11])
                && call_ensures(L::writes_types, (), writes[11])
                && call_ensures(M::reads_types, (), reads[12])
                && call_ensures(M::writes_types, (), writes[12])
                && call_ensures(N::reads_types, (), reads[13])
                && call_ensures(N::writes_types, (), writes[13])
                && call_ensures(O::reads_types, (), reads[14])
                && call_ensures(O::writes_types, (), writes[14])
                && call_ensures(P::reads_types, (), reads[15])
                && call_ensures(P::writes_types, (), writes[15])
                && call_ensures(Q::reads_types, (), reads[16])
                && call_ensures(Q::writes_types, (), writes[16])
                && call_ensures(R::reads_types, (), reads[17])
                && call_ensures(R::writes_types, (), writes[17])
                && call_ensures(S::reads_types, (), reads[18])
                && call_ensures(S::writes_types, (), writes[18])
                && call_ensures(T::reads_types, (), reads[19])
                && call_ensures(T::writes_types, (), writes[19])
                && call_ensures(U::reads_types, (), reads[20])
                && call_ensures(U::writes_types, (), writes[20])
                && valid == conflict_free(type_lists(reads), type_lists(writes)),
    {
        let reads = vec![(A::reads_types)(), (B::reads_types)(), (C::reads_types)(), (D::reads_types)(), (E::reads_types)(), (F::reads_types)(), (G::reads_types)(), (H::reads_types)(), (I::reads_types)(), (J::reads_types)(), (K::reads_types)(), (L::reads_types)(), (M::reads_types)(), (N::reads_types)(), (O::reads_types)(), (P::reads_types)(), (Q::reads_types)(), (R::reads_types)(), (S::reads_types)(), (T::reads_types)(), (U::reads_types)()];
        let writes = vec![(A::writes_types)(), (B::writes_types)(), (C::writes_types)(), (D::writes_types)(), (E::writes_types)(), (F::writes_types)(), (G::writes_types)(), (H::writes_types)(), (I::writes_types)(), (J::writes_types)(), (K::writes_types)(), (L::writes_types)(), (M::writes_types)(), (N::writes_types)(), (O::writes_types)(), (P::writes_types)(), (Q::writes_types)(), (R::writes_types)(), (S::writes_types)(), (T::writes_types)(), (U::writes_types)()];
        let valid = accesses_conflict_free(&reads, &writes);
        assert(
            reads@.len() == 21 && writes@.len() == 21
            && call_ensures(A::reads_types, (), reads@[0])
            && call_ensures(A::writes_types, (), writes@[0])
            && call_ensures(B::reads_types, (), reads@[1])
            && call_ensures(B::writes_types, (), writes@[1])
            && call_ensures(C::reads_types, (), reads@[2])
            && call_ensures(C::writes_types, (), writes@[2])
            && call_ensures(D::reads_types, (), reads@[3])
            && call_ensures(D::writes_types, (), writes@[3])
            && call_ensures(E::reads_types, (), reads@[4])
            && call_ensures(E::writes_types, (), writes@[4])
            && call_ensures(F::reads_types, (), reads@[5])
            && call_ensures(F::writes_types, (), writes@[5])
            && call_ensures(G::reads_types, (), reads@[6])
            && call_ensures(G::writes_types, (), writes@[6])
            && call_ensures(H::reads_types, (), reads@[7])
            && call_ensures(H::writes_types, (), writes@[7])
            && call_ensures(I::reads_types, (), reads@[8])
            && call_ensures(I::writes_types, (), writes@[8])
            && call_ensures(J::reads_types, (), reads@[9])
            && call_ensures(J::writes_types, (), writes@[9])
            && call_ensures(K::reads_types, (), reads@[10])
            && call_ensures(K::writes_types, (), writes@[10])
            && call_ensures(L::reads_types, (), reads@[11])
            && call_ensures(L::writes_types, (), writes@[11])
            && call_ensures(M::reads_types, (), reads@[12])
            && call_ensures(M::writes_types, (), writes@[12])
            && call_ensures(N::reads_types, (), reads@[13])
            && call_ensures(N::writes_types, (), writes@[13])
            && call_ensures(O::reads_types, (), reads@[14])
            && call_ensures(O::writes_types, (), writes@[14])
            && call_ensures(P::reads_types, (), reads@[15])
            && call_ensures(P::writes_types, (), writes@[15])
            && call_ensures(Q::reads_types, (), reads@[16])
            && call_ensures(Q::writes_types, (), writes@[16])
            && call_ensures(R::reads_types, (), reads@[17])
            && call_ensures(R::writes_types, (), writes@[17])
            && call_ensures(S::reads_types, (), reads@[18])
            && call_ensures(S::writes_types, (), writes@[18])
            && call_ensures(T::reads_types, (), reads@[19])
            && call_ensures(T::writes_types, (), writes@[19])
            && call_ensures(U::reads_types, (), reads@[20])
            && call_ensures(U::writes_types, (), writes@[20])
            && valid == conflict_free(type_lists(reads@), type_lists(writes@))
        );
        valid
    }

    fn reads_types() -> (types: Vec<ComponentTypeId>)
        ensures
            exists|lists: Seq<Vec<ComponentTypeId>>|
                lists.len() == 21
                && call_ensures(A::reads_types, (), lists[0])
                && call_ensures(B::reads_types, (), lists[1])
                && call_ensures(C::reads_types, (), lists[2])
                && call_ensures(D::reads_types, (), lists[3])
                && call_ensures(E::reads_types, (), lists[4])
                && call_ensures(F::reads_types, (), lists[5])
                && call_ensures(G::reads_types, (), lists[6])
                && call_ensures(H::reads_types, (), lists[7])
                && call_ensures(I::reads_types, (), lists[8])
                && call_ensures(J::reads_types, (), lists[9])
                && call_ensures(K::reads_types, (), lists[10])
                && call_ensures(L::reads_types, (), lists[11])
                && call_ensures(M::reads_types, (), lists[12])
                && call_ensures(N::reads_types, (), lists[13])
                && call_ensures(O::reads_types, (), lists[14])
                && call_ensures(P::reads_types, (), lists[15])
                && call_ensures(Q::reads_types, (), lists[16])
                && call_ensures(R::reads_types, (), lists[17])
                && call_ensures(S::reads_types, (), lists[18])
                && call_ensures(T::reads_types, (), lists[19])
                && call_ensures(U::reads_types, (), lists[20])
                && types@ == type_lists(lists).flatten(),
    {
        let lists = vec![(A::reads_types)(), (B::reads_types)(), (C::reads_types)(), (D::reads_types)(), (E::reads_types)(), (F::reads_types)(), (G::reads_types)(), (H::reads_types)(), (I::reads_types)(), (J::reads_types)(), (K::reads_types)(), (L::reads_types)(), (M::reads_types)(), (N::reads_types)(), (O::reads_types)(), (P::reads_types)(), (Q::reads_types)(), (R::reads_types)(), (S::reads_types)(), (T::reads_types)(), (U::reads_types)()];
        let ghost views = lists@;
        let types = concat_types(lists);
        assert(
            views.len() == 21
            && call_ensures(A::reads_types, (), views[0])
            && call_ensures(B::reads_types, (), views[1])
            && call_ensures(C::reads_types, (), views[2])
            && call_ensures(D::reads_types, (), views[3])
            && call_ensures(E::reads_types, (), views[4])
            && call_ensures(F::reads_types, (), views[5])
            && call_ensures(G::reads_types, (), views[6])
            && call_ensures(H::reads_types, (), views[7])
            && call_ensures(I::reads_types, (), views[8])
            && call_ensures(J::reads_types, (), views[9])
            && call_ensures(K::reads_types, (), views[10])
            && call_ensures(L::reads_types, (), views[11])
            && call_ensures(M::reads_types, (), views[12])
            && call_ensures(N::reads_types, (), views[13])
            && call_ensures(O::reads_types, (), views[14])
            && call_ensures(P::reads_types, (), views[15])
            && call_ensures(Q::reads_types, (), views[16])
            && call_ensures(R::reads_types, (), views[17])
            && call_ensures(S::reads_types, (), views[18])
            && call_ensures(T::reads_types, (), views[19])
            && call_ensures(U::reads_types, (), views[20])
            && types@ == type_lists(views).flatten()
        );
        types
    }

    fn writes_types() -> (types: Vec<ComponentTypeId>)
        ensures
            exists|lists: Seq<Vec<ComponentTypeId>>|
                lists.len() == 21
                && call_ensures(A::writes_types, (), lists[0])
                && call_ensures(B::writes_types, (), lists[1])
                && call_ensures(C::writes_types, (), lists[2])
                && call_ensures(D::writes_types, (), lists[3])
                && call_ensures(E::writes_types, (), lists[4])
                && call_ensures(F::writes_types, (), lists[5])
                && call_ensures(G::writes_types, (), lists[6])
                && call_ensures(H::writes_types, (), lists[7])
                && call_ensures(I::writes_types, (), lists[8])
                && call_ensures(J::writes_types, (), lists[9])
                && call_ensures(K::writes_types, (), lists[10])
                && call_ensures(L::writes_types, (), lists[11])
                && call_ensures(M::writes_types, (), lists[12])
                && call_ensures(N::writes_types, (), lists[13])
                && call_ensures(O::writes_types, (), lists[14])
                && call_ensures(P::writes_types, (), lists[15])
                && call_ensures(Q::writes_types, (), lists[16])
                && call_ensures(R::writes_types, (), lists[17])
                && call_ensures(S::writes_types, (), lists[18])
                && call_ensures(T::writes_types, (), lists[19])
                && call_ensures(U::writes_types, (), lists[20])
                && types@ == type_lists(lists).flatten(),
    {
        let lists = vec![(A::writes_types)(), (B::writes_types)(), (C::writes_types)(), (D::writes_types)(), (E::writes_types)(), (F::writes_types)(), (G::writes_types)(), (H::writes_types)(), (I::writes_types)(), (J::writes_types)(), (K::writes_types)(), (L::writes_types)(), (M::writes_types)(), (N::writes_types)(), (O::writes_types)(), (P::writes_types)(), (Q::writes_types)(), (R::writes_types)(), (S::writes_types)(), (T::writes_types)(), (U::writes_types)()];
        let ghost views = lists@;
        let types = concat_types(lists);
        assert(
            views.len() == 21
            && call_ensures(A::writes_types, (), views[0])
            && call_ensures(B::writes_types, (), views[1])
            && call_ensures(C::writes_types, (), views[2])
            && call_ensures(D::writes_types, (), views[3])
            && call_ensures(E::writes_types, (), views[4])
            && call_ensures(F::writes_types, (), views[5])
            && call_ensures(G::writes_types, (), views[6])
            && call_ensures(H::writes_types, (), views[7])
            && call_ensures(I::writes_types, (), views[8])
            && call_ensures(J::writes_types, (), views[9])
            && call_ensures(K::writes_types, (), views[10])
            && call_ensures(L::writes_types, (), views[11])
            && call_ensures(M::writes_types, (), views[12])
            && call_ensures(N::writes_types, (), views[13])
            && call_ensures(O::writes_types, (), views[14])
            && call_ensures(P::writes_types, (), views[15])
            && call_ensures(Q::writes_types, (), views[16])
            && call_ensures(R::writes_types, (), views[17])
            && call_ensures(S::writes_types, (), views[18])
            && call_ensures(T::writes_types, (), views[19])
            && call_ensures(U::writes_types, (), views[20])
            && types@ == type_lists(views).flatten()
        );
        types
    }

    fn reads<Comp: Component>() -> bool {
        tuple21_reads::<'a, A, B, C, D, E, F, G, H, I, J, K, L, M, N, O, P, Q, R, S, T, U, Comp>()
    }

    fn writes<Comp: Component>() -> bool {
        tuple21_writes::<'a, A, B, C, D, E, F, G, H, I, J, K, L, M, N, O, P, Q, R, S, T, U, Comp>()
    }
}

impl<'a, A: Fetch, B: Fetch, C: Fetch, D: Fetch, E: Fetch, F: Fetch, G: Fetch, H: Fetch, I: Fetch, J: Fetch, K: Fetch, L: Fetch, M: Fetch, N: Fetch, O: Fetch, P: Fetch, Q: Fetch, R: Fetch, S: Fetch, T: Fetch, U: Fetch> IntoIndexableIter for MultiFetch<'a, (A, B, C, D, E, F, G, H, I, J, K, L, M, N, O, P, Q, R, S, T, U)> {
    type Item = (A::Item, B::Item, C::Item, D::Item, E::Item, F::Item, G::Item, H::Item, I::Item, J::Item, K::Item, L::Item, M::Item, N::Item, O::Item, P::Item, Q::Item, R::Item, S::Item, T::Item, U::Item);
    type IntoIter = (A::IntoIter, B::IntoIter, C::IntoIter, D::IntoIter, E::IntoIter, F::IntoIter, G::IntoIter, H::IntoIter, I::IntoIter, J::IntoIter, K::IntoIter, L::IntoIter, M::IntoIter, N::IntoIter, O::IntoIter, P::IntoIter, Q::IntoIter, R::IntoIter, S::IntoIter, T::IntoIter, U::IntoIter);

    fn into_indexable_iter(self) -> (iter: Self::IntoIter)
        ensures
            call_ensures(A::into_indexable_iter, (self.fetches().0,), iter.0),
            call_ensures(B::into_indexable_iter, (self.fetches().1,), iter.1),
            call_ensures(C::into_indexable_iter, (self.fetches().2,), iter.2),
            call_ensures(D::into_indexable_iter, (self.fetches().3,), iter.3),
            call_ensures(E::into_indexable_iter, (self.fetches().4,), iter.4),
            call_ensures(F::into_indexable_iter, (self.fetches().5,), iter.5),
            call_ensures(G::into_indexable_iter, (self.fetches().6,), iter.6),
            call_ensures(H::into_indexable_iter, (self.fetches().7,), iter.7),
            call_ensures(I::into_indexable_iter, (self.fetches().8,), iter.8),
            call_ensures(J::into_indexable_iter, (self.fetches().9,), iter.9),
            call_ensures(K::into_indexable_iter, (self.fetches().10,), iter.10),
            call_ensures(L::into_indexable_iter, (self.fetches().11,), iter.11),
            call_ensures(M::into_indexable_iter, (self.fetches().12,), iter.12),
            call_ensures(N::into_indexable_iter, (self.fetches().13,), iter.13),
            call_ensures(O::into_indexable_iter, (self.fetches().14,), iter.14),
            call_ensures(P::into_indexable_iter, (self.fetches().15,), iter.15),
            call_ensures(Q::into_indexable_iter, (self.fetches().16,), iter.16),
            call_ensures(R::into_indexable_iter, (self.fetches().17,), iter.17),
            call_ensures(S::into_indexable_iter, (self.fetches().18,), iter.18),
            call_ensures(T::into_indexable_iter, (self.fetches().19,), iter.19),
            call_ensures(U::into_indexable_iter, (self.fetches().20,), iter.20),
    {
        let (a, b, c, d, e, f, g, h, i, j, k, l, m, n, o, p, q, r, s, t, u) = self.fetches;
        ((A::into_indexable_iter)(a), (B::into_indexable_iter)(b), (C::into_indexable_iter)(c), (D::into_indexable_iter)(d), (E::into_indexable_iter)(e), (F::into_indexable_iter)(f), (G::into_indexable_iter)(g), (H::into_indexable_iter)(h), (I::into_indexable_iter)(i), (J::into_indexable_iter)(j), (K::into_indexable_iter)(k), (L::into_indexable_iter)(l), (M::into_indexable_iter)(m), (N::into_indexable_iter)(n), (O::into_indexable_iter)(o), (P::into_indexable_iter)(p), (Q::into_indexable_iter)(q), (R::into_indexable_iter)(r), (S::into_indexable_iter)(s), (T::into_indexable_iter)(t), (U::into_indexable_iter)(u))
    }
}

impl<'a, A: Fetch, B: Fetch, C: Fetch, D: Fetch, E: Fetch, F: Fetch, G: Fetch, H: Fetch, I: Fetch, J: Fetch, K: Fetch, L: Fetch, M: Fetch, N: Fetch, O: Fetch, P: Fetch, Q: Fetch, R: Fetch, S: Fetch, T: Fetch, U: Fetch> Fetch for MultiFetch<'a, (A, B, C, D, E, F, G, H, I, J, K, L, M, N, O, P, Q, R, S, T, U)> {
    type Data = (A::Data, B::Data, C::Data, D::Data, E::Data, F::Data, G::Data, H::Data, I::Data, J::Data, K::Data, L::Data, M::Data, N::Data, O::Data, P::Data, Q::Data, R::Data, S::Data, T::Data, U::Data);

    fn into_components(self) -> (data: Self::Data)
        ensures
            call_ensures(A::into_components, (self.fetches().0,), data.0),
            call_ensures(B::into_components, (self.fetches().1,), data.1),
            call_ensures(C::into_components, (self.fetches().2,), data.2),
            call_ensures(D::into_components, (self.fetches().3,), data.3),
            call_ensures(E::into_components, (self.fetches().4,), data.4),
            call_ensures(F::into_components, (self.fetches().5,), data.5),
            call_ensures(G::into_components, (self.fetches().6,), data.6),
            call_ensures(H::into_components, (self.fetches().7,), data.7),
            call_ensures(I::into_components, (self.fetches().8,), data.8),
            call_ensures(J::into_components, (self.fetches().9,), data.9),
            call_ensures(K::into_components, (self.fetches().10,), data.10),
            call_ensures(L::into_components, (self.fetches().11,), data.11),
            call_ensures(M::into_components, (self.fetches().12,), data.12),
            call_ensures(N::into_components, (self.fetches().13,), data.13),
            call_ensures(O::into_components, (self.fetches().14,), data.14),
            call_ensures(P::into_components, (self.fetches().15,), data.15),
            call_ensures(Q::into_components, (self.fetches().16,), data.16),
            call_ensures(R::into_components, (self.fetches().17,), data.17),
            call_ensures(S::into_components, (self.fetches().18,), data.18),
            call_ensures(T::into_components, (self.fetches().19,), data.19),
            call_ensures(U::into_components, (self.fetches().20,), data.20),
    {
        let (a, b, c, d, e, f, g, h, i, j, k, l, m, n, o, p, q, r, s, t, u) = self.fetches;
        ((A::into_components)(a), (B::into_components)(b), (C::into_components)(c), (D::into_components)(d), (E::into_components)(e), (F::into_components)(f), (G::into_components)(g), (H::into_components)(h), (I::into_components)(i), (J::into_components)(j), (K::into_components)(k), (L::into_components)(l), (M::into_components)(m), (N::into_components)(n), (O::into_components)(o), (P::into_components)(p), (Q::into_components)(q), (R::into_components)(r), (S::into_components)(s), (T::into_components)(t), (U::into_components)(u))
    }

    fn find<Comp: 'static>(&self) -> Option<&[Comp]> {
        tuple21_find::<A, B, C, D, E, F, G, H, I, J, K, L, M, N, O, P, Q, R, S, T, U, Comp>(&self.fetches)
    }

    fn find_mut<Comp: 'static>(&mut self) -> Option<&mut [Comp]> {
        tuple21_find_mut::<A, B, C, D, E, F, G, H, I, J, K, L, M, N, O, P, Q, R, S, T, U, Comp>(&mut self.fetches)
    }

    fn version<Comp: Component>(&self) -> Option<u64> {
        tuple21_version::<A, B, C, D, E, F, G, H, I, J, K, L, M, N, O, P, Q, R, S, T, U, Comp>(&self.fetches)
    }

    fn accepted(&mut self)
        ensures
            exists|m: &mut A|
                *m == old(self).fetches().0 && *final(m) == final(self).fetches().0
                && call_ensures(A::accepted, (m,), ()),
            exists|m: &mut B|
                *m == old(self).fetches().1 && *final(m) == final(self).fetches().1
                && call_ensures(B::accepted, (m,), ()),
            exists|m: &mut C|
                *m == old(self).fetches().2 && *final(m) == final(self).fetches().2
                && call_ensures(C::accepted, (m,), ()),
            exists|m: &mut D|
                *m == old(self).fetches().3 && *final(m) == final(self).fetches().3
                && call_ensures(D::accepted, (m,), ()),
            exists|m: &mut E|
                *m == old(self).fetches().4 && *final(m) == final(self).fetches().4
                && call_ensures(E::accepted, (m,), ()),
            exists|m: &mut F|
                *m == old(self).fetches().5 && *final(m) == final(self).fetches().5
                && call_ensures(F::accepted, (m,), ()),
            exists|m: &mut G|
                *m == old(self).fetches().6 && *final(m) == final(self).fetches().6
                && call_ensures(G::accepted, (m,), ()),
            exists|m: &mut H|
                *m == old(self).fetches().7 && *final(m) == final(self).fetches().7
                && call_ensures(H::accepted, (m,), ()),
            exists|m: &mut I|
                *m == old(self).fetches().8 && *final(m) == final(self).fetches().8
                && call_ensures(I::accepted, (m,), ()),
            exists|m: &mut J|
                *m == old(self).fetches().9 && *final(m) == final(self).fetches().9
                && call_ensures(J::accepted, (m,), ()),
            exists|m: &mut K|
                *m == old(self).fetches().10 && *final(m) == final(self).fetches().10
                && call_ensures(K::accepted, (m,), ()),
            exists|m: &mut L|
                *m == old(self).fetches().11 && *final(m) == final(self).fetches().11
                && call_ensures(L::accepted, (m,), ()),
            exists|m: &mut M|
                *m == old(self).fetches().12 && *final(m) == final(self).fetches().12
                && call_ensures(M::accepted, (m,), ()),
            exists|m: &mut N|
                *m == old(self).fetches().13 && *final(m) == final(self).fetches().13
                && call_ensures(N::accepted, (m,), ()),
            exists|m: &mut O|
                *m == old(self).fetches().14 && *final(m) == final(self).fetches().14
                && call_ensures(O::accepted, (m,), ()),
            exists|m: &mut P|
                *m == old(self).fetches().15 && *final(m) == final(self).fetches().15
                && call_ensures(P::accepted, (m,), ()),
            exists|m: &mut Q|
                *m == old(self).fetches().16 && *final(m) == final(self).fetches().16
                && call_ensures(Q::accepted, (m,), ()),
            exists|m: &mut R|
                *m == old(self).fetches().17 && *final(m) == final(self).fetches().17
                && call_ensures(R::accepted, (m,), ()),
            exists|m: &mut S|
                *m == old(self).fetches().18 && *final(m) == final(self).fetches().18
                && call_ensures(S::accepted, (m,), ()),
            exists|m: &mut T|
                *m == old(self).fetches().19 && *final(m) == final(self).fetches().19
                && call_ensures(T::accepted, (m,), ()),
            exists|m: &mut U|
                *m == old(self).fetches().20 && *final(m) == final(self).fetches().20
                && call_ensures(U::accepted, (m,), ()),
    {
        let (a, b, c, d, e, f, g, h, i, j, k, l, m, n, o, p, q, r, s, t, u) = &mut self.fetches;
        (A::accepted)(a);
        (B::accepted)(b);
        (C::accepted)(c);
        (D::accepted)(d);
        (E::accepted)(e);
        (F::accepted)(f);
        (G::accepted)(g);
        (H::accepted)(h);
        (I::accepted)(i);
        (J::accepted)(j);
        (K::accepted)(k);
        (L::accepted)(l);
        (M::accepted)(m);
        (N::accepted)(n);
        (O::accepted)(o);
        (P::accepted)(p);
        (Q::accepted)(q);
        (R::accepted)(r);
        (S::accepted)(s);
        (T::accepted)(t);
        (U::accepted)(u);
    }
}

impl<'a, A: ReadOnlyFetch, B: ReadOnlyFetch, C: ReadOnlyFetch, D: ReadOnlyFetch, E: ReadOnlyFetch, F: ReadOnlyFetch, G: ReadOnlyFetch, H: ReadOnlyFetch, I: ReadOnlyFetch, J: ReadOnlyFetch, K: ReadOnlyFetch, L: ReadOnlyFetch, M: ReadOnlyFetch, N: ReadOnlyFetch, O: ReadOnlyFetch, P: ReadOnlyFetch, Q: ReadOnlyFetch, R: ReadOnlyFetch, S: ReadOnlyFetch, T: ReadOnlyFetch, U: ReadOnlyFetch> ReadOnlyFetch for MultiFetch<'a, (A, B, C, D, E, F, G, H, I, J, K, L, M, N, O, P, Q, R, S, T, U)> {
    fn get_components(&self) -> (data: Self::Data)
        ensures
            call_ensures(A::get_components, (&self.fetches().0,), data.0),
            call_ensures(B::get_components, (&self.fetches().1,), data.1),
            call_ensures(C::get_components, (&self.fetches().2,), data.2),
            call_ensures(D::get_components, (&self.fetches().3,), data.3),
            call_ensures(E::get_components, (&self.fetches().4,), data.4),
            call_ensures(F::get_components, (&self.fetches().5,), data.5),
            call_ensures(G::get_components, (&self.fetches().6,), data.6),
            call_ensures(H::get_components, (&self.fetches().7,), data.7),
            call_ensures(I::get_components, (&self.fetches().8,), data.8),
            call_ensures(J::get_components, (&self.fetches().9,), data.9),
            call_ensures(K::get_components, (&self.fetches().10,), data.10),
            call_ensures(L::get_components, (&self.fetches().11,), data.11),
            call_ensures(M::get_components, (&self.fetches().12,), data.12),
            call_ensures(N::get_components, (&self.fetches().13,), data.13),
            call_ensures(O::get_components, (&self.fetches().14,), data.14),
            call_ensures(P::get_components, (&self.fetches().15,), data.15),
            call_ensures(Q::get_components, (&self.fetches().16,), data.16),
            call_ensures(R::get_components, (&self.fetches().17,), data.17),
            call_ensures(S::get_components, (&self.fetches().18,), data.18),
            call_ensures(T::get_components, (&self.fetches().19,), data.19),
            call_ensures(U::get_components, (&self.fetches().20,), data.20),
    {
        let (a, b, c, d, e, f, g, h, i, j, k, l, m, n, o, p, q, r, s, t, u) = &self.fetches;
        ((A::get_components)(a), (B::get_components)(b), (C::get_components)(c), (D::get_components)(d), (E::get_components)(e), (F::get_components)(f), (G::get_components)(g), (H::get_components)(h), (I::get_components)(i), (J::get_components)(j), (K::get_components)(k), (L::get_components)(l), (M::get_components)(m), (N::get_components)(n), (O::get_components)(o), (P::get_components)(p), (Q::get_components)(q), (R::get_components)(r), (S::get_components)(s), (T::get_components)(t), (U::get_components)(u))
    }
}

/// Whether some view of a tuple of 21 reads `Comp`, asking the views in order.
pub fn tuple21_reads<'a, A: View<'a> + 'a, B: View<'a> + 'a, C: View<'a> + 'a, D: View<'a> + 'a, E: View<'a> + 'a, F: View<'a> + 'a, G: View<'a> + 'a, H: View<'a> + 'a, I: View<'a> + 'a, J: View<'a> + 'a, K: View<'a> + 'a, L: View<'a> + 'a, M: View<'a> + 'a, N: View<'a> + 'a, O: View<'a> + 'a, P: View<'a> + 'a, Q: View<'a> + 'a, R: View<'a> + 'a, S: View<'a> + 'a, T: View<'a> + 'a, U: View<'a> + 'a, Comp: Component>() -> (found: bool)
    ensures
        (found && call_ensures(A::reads::<Comp>, (), true))
        || (call_ensures(A::reads::<Comp>, (), false) && (
            (found && call_ensures(B::reads::<Comp>, (), true))
            || (call_ensures(B::reads::<Comp>, (), false) && (
                (found && call_ensures(C::reads::<Comp>, (), true))
                || (call_ensures(C::reads::<Comp>, (), false) && (
                    (found && call_ensures(D::reads::<Comp>, (), true))
                    || (call_ensures(D::reads::<Comp>, (), false) && (
                        (found && call_ensures(E::reads::<Comp>, (), true))
                        || (call_ensures(E::reads::<Comp>, (), false) && (
                            (found && call_ensures(F::reads::<Comp>, (), true))
                            || (call_ensures(F::reads::<Comp>, (), false) && (
                                (found && call_ensures(G::reads::<Comp>, (), true))
                                || (call_ensures(G::reads::<Comp>, (), false) && (
                                    (found && call_ensures(H::reads::<Comp>, (), true))
                                    || (call_ensures(H::reads::<Comp>, (), false) && (
                                        (found && call_ensures(I::reads::<Comp>, (), true))
                                        || (call_ensures(I::reads::<Comp>, (), false) && (
                                            (found && call_ensures(J::reads::<Comp>, (), true))
                                            || (call_ensures(J::reads::<Comp>, (), false) && (
                                                (found && call_ensures(K::reads::<Comp>, (), true))
                                                || (call_ensures(K::reads::<Comp>, (), false) && (
                                                    (found && call_ensures(L::reads::<Comp>, (), true))
                                                    || (call_ensures(L::reads::<Comp>, (), false) && (
                                                        (found && call_ensures(M::reads::<Comp>, (), true))
                                                        || (call_ensures(M::reads::<Comp>, (), false) && (
                                                            (found && call_ensures(N::reads::<Comp>, (), true))
                                                            || (call_ensures(N::reads::<Comp>, (), false) && (
                                                                (found && call_ensures(O::reads::<Comp>, (), true))
                                                                || (call_ensures(O::reads::<Comp>, (), false) && (
                                                                    (found && call_ensures(P::reads::<Comp>, (), true))
                                                                    || (call_ensures(P::reads::<Comp>, (), false) && (
                                                                        (found && call_ensures(Q::reads::<Comp>, (), true))
                                                                        || (call_ensures(Q::reads::<Comp>, (), false) && (
                                                                            (found && call_ensures(R::reads::<Comp>, (), true))
                                                                            || (call_ensures(R::reads::<Comp>, (), false) && (
                                                                                (found && call_ensures(S::reads::<Comp>, (), true))
                                                                                || (call_ensures(S::reads::<Comp>, (), false) && (
                                                                                    (found && call_ensures(T::reads::<Comp>, (), true))
                                                                                    || (call_ensures(T::reads::<Comp>, (), false) && (
                                                                                        call_ensures(U::reads::<Comp>, (), found))))))))))))))))))))))))))))))))))))))))),
{
    (A::reads::<Comp>)()
        || (B::reads::<Comp>)()
        || (C::reads::<Comp>)()
        || (D::reads::<Comp>)()
        || (E::reads::<Comp>)()
        || (F::reads::<Comp>)()
        || (G::reads::<Comp>)()
        || (H::reads::<Comp>)()
        || (I::reads::<Comp>)()
        || (J::reads::<Comp>)()
        || (K::reads::<Comp>)()
        || (L::reads::<Comp>)()
        || (M::reads::<Comp>)()
        || (N::reads::<Comp>)()
        || (O::reads::<Comp>)()
        || (P::reads::<Comp>)()
        || (Q::reads::<Comp>)()
        || (R::reads::<Comp>)()
        || (S::reads::<Comp>)()
        || (T::reads::<Comp>)()
        || (U::reads::<Comp>)()
}

/// Whether some view of a tuple of 21 writes `Comp`, asking the views in order.
pub fn tuple21_writes<'a, A: View<'a> + 'a, B: View<'a> + 'a, C: View<'a> + 'a, D: View<'a> + 'a, E: View<'a> + 'a, F: View<'a> + 'a, G: View<'a> + 'a, H: View<'a> + 'a, I: View<'a> + 'a, J: View<'a> + 'a, K: View<'a> + 'a, L: View<'a> + 'a, M: View<'a> + 'a, N: View<'a> + 'a, O: View<'a> + 'a, P: View<'a> + 'a, Q: View<'a> + 'a, R: View<'a> + 'a, S: View<'a> + 'a, T: View<'a> + 'a, U: View<'a> + 'a, Comp: Component>() -> (found: bool)
    ensures
        (found && call_ensures(A::writes::<Comp>, (), true))
        || (call_ensures(A::writes::<Comp>, (), false) && (
            (found && call_ensures(B::writes::<Comp>, (), true))
            || (call_ensures(B::writes::<Comp>, (), false) && (
                (found && call_ensures(C::writes::<Comp>, (), true))
                || (call_ensures(C::writes::<Comp>, (), false) && (
                    (found && call_ensures(D::writes::<Comp>, (), true))
                    || (call_ensures(D::writes::<Comp>, (), false) && (
                        (found && call_ensures(E::writes::<Comp>, (), true))
                        || (call_ensures(E::writes::<Comp>, (), false) && (
                            (found && call_ensures(F::writes::<Comp>, (), true))
                            || (call_ensures(F::writes::<Comp>, (), false) && (
                                (found && call_ensures(G::writes::<Comp>, (), true))
                                || (call_ensures(G::writes::<Comp>, (), false) && (
                                    (found && call_ensures(H::writes::<Comp>, (), true))
                                    || (call_ensures(H::writes::<Comp>, (), false) && (
                                        (found && call_ensures(I::writes::<Comp>, (), true))
                                        || (call_ensures(I::writes::<Comp>, (), false) && (
                                            (found && call_ensures(J::writes::<Comp>, (), true))
                                            || (call_ensures(J::writes::<Comp>, (), false) && (
                                                (found && call_ensures(K::writes::<Comp>, (), true))
                                                || (call_ensures(K::writes::<Comp>, (), false) && (
                                                    (found && call_ensures(L::writes::<Comp>, (), true))
                                                    || (call_ensures(L::writes::<Comp>, (), false) && (
                                                        (found && call_ensures(M::writes::<Comp>, (), true))
                                                        || (call_ensures(M::writes::<Comp>, (), false) && (
                                                            (found && call_ensures(N::writes::<Comp>, (), true))
                                                            || (call_ensures(N::writes::<Comp>, (), false) && (
                                                                (found && call_ensures(O::writes::<Comp>, (), true))
                                                                || (call_ensures(O::writes::<Comp>, (), false) && (
                                                                    (found && call_ensures(P::writes::<Comp>, (), true))
                                                                    || (call_ensures(P::writes::<Comp>, (), false) && (
                                                                        (found && call_ensures(Q::writes::<Comp>, (), true))
                                                                        || (call_ensures(Q::writes::<Comp>, (), false) && (
                                                                            (found && call_ensures(R::writes::<Comp>, (), true))
                                                                            || (call_ensures(R::writes::<Comp>, (), false) && (
                                                                                (found && call_ensures(S::writes::<Comp>, (), true))
                                                                                || (call_ensures(S::writes::<Comp>, (), false) && (
                                                                                    (found && call_ensures(T::writes::<Comp>, (), true))
                                                                                    || (call_ensures(T::writes::<Comp>, (), false) && (
                                                                                        call_ensures(U::writes::<Comp>, (), found))))))))))))))))))))))))))))))))))))))))),
{
    (A::writes::<Comp>)()
        || (B::writes::<Comp>)()
        || (C::writes::<Comp>)()
        || (D::writes::<Comp>)()
        || (E::writes::<Comp>)()
        || (F::writes::<Comp>)()
        || (G::writes::<Comp>)()
        || (H::writes::<Comp>)()
        || (I::writes::<Comp>)()
        || (J::writes::<Comp>)()
        || (K::writes::<Comp>)()
        || (L::writes::<Comp>)()
        || (M::writes::<Comp>)()
        || (N::writes::<Comp>)()
        || (O::writes::<Comp>)()
        || (P::writes::<Comp>)()
        || (Q::writes::<Comp>)()
        || (R::writes::<Comp>)()
        || (S::writes::<Comp>)()
        || (T::writes::<Comp>)()
        || (U::writes::<Comp>)()
}

/// The slice of the first fetch of a tuple of 21 that holds `Comp`.
pub fn tuple21_find<'f, A: Fetch, B: Fetch, C: Fetch, D: Fetch, E: Fetch, F: Fetch, G: Fetch, H: Fetch, I: Fetch, J: Fetch, K: Fetch, L: Fetch, M: Fetch, N: Fetch, O: Fetch, P: Fetch, Q: Fetch, R: Fetch, S: Fetch, T: Fetch, U: Fetch, Comp: 'static>(fetches: &'f (A, B, C, D, E, F, G, H, I, J, K, L, M, N, O, P, Q, R, S, T, U)) -> (found: Option<&'f [Comp]>)
    ensures
        (found is Some && call_ensures(A::find::<Comp>, (&fetches.0,), found))
        || (call_ensures(A::find::<Comp>, (&fetches.0,), None) && (
            (found is Some && call_ensures(B::find::<Comp>, (&fetches.1,), found))
            || (call_ensures(B::find::<Comp>, (&fetches.1,), None) && (
                (found is Some && call_ensures(C::find::<Comp>, (&fetches.2,), found))
                || (call_ensures(C::find::<Comp>, (&fetches.2,), None) && (
                    (found is Some && call_ensures(D::find::<Comp>, (&fetches.3,), found))
                    || (call_ensures(D::find::<Comp>, (&fetches.3,), None) && (
                        (found is Some && call_ensures(E::find::<Comp>, (&fetches.4,), found))
                        || (call_ensures(E::find::<Comp>, (&fetches.4,), None) && (
                            (found is Some && call_ensures(F::find::<Comp>, (&fetches.5,), found))
                            || (call_ensures(F::find::<Comp>, (&fetches.5,), None) && (
                                (found is Some && call_ensures(G::find::<Comp>, (&fetches.6,), found))
                                || (call_ensures(G::find::<Comp>, (&fetches.6,), None) && (
                                    (found is Some && call_ensures(H::find::<Comp>, (&fetches.7,), found))
                                    || (call_ensures(H::find::<Comp>, (&fetches.7,), None) && (
                                        (found is Some && call_ensures(I::find::<Comp>, (&fetches.8,), found))
                                        || (call_ensures(I::find::<Comp>, (&fetches.8,), None) && (
                                            (found is Some && call_ensures(J::find::<Comp>, (&fetches.9,), found))
                                            || (call_ensures(J::find::<Comp>, (&fetches.9,), None) && (
                                                (found is Some && call_ensures(K::find::<Comp>, (&fetches.10,), found))
                                                || (call_ensures(K::find::<Comp>, (&fetches.10,), None) && (
                                                    (found is Some && call_ensures(L::find::<Comp>, (&fetches.11,), found))
                                                    || (call_ensures(L::find::<Comp>, (&fetches.11,), None) && (
                                                        (found is Some && call_ensures(M::find::<Comp>, (&fetches.12,), found))
                                                        || (call_ensures(M::find::<Comp>, (&fetches.12,), None) && (
                                                            (found is Some && call_ensures(N::find::<Comp>, (&fetches.13,), found))
                                                            || (call_ensures(N::find::<Comp>, (&fetches.13,), None) && (
                                                                (found is Some && call_ensures(O::find::<Comp>, (&fetches.14,), found))
                                                                || (call_ensures(O::find::<Comp>, (&fetches.14,), None) && (
                                                                    (found is Some && call_ensures(P::find::<Comp>, (&fetches.15,), found))
                                                                    || (call_ensures(P::find::<Comp>, (&fetches.15,), None) && (
                                                                        (found is Some && call_ensures(Q::find::<Comp>, (&fetches.16,), found))
                                                                        || (call_ensures(Q::find::<Comp>, (&fetches.16,), None) && (
                                                                            (found is Some && call_ensures(R::find::<Comp>, (&fetches.17,), found))
                                                                            || (call_ensures(R::find::<Comp>, (&fetches.17,), None) && (
                                                                                (found is Some && call_ensures(S::find::<Comp>, (&fetches.18,), found))
                                                                                || (call_ensures(S::find::<Comp>, (&fetches.18,), None) && (
                                                                                    (found is Some && call_ensures(T::find::<Comp>, (&fetches.19,), found))
                                                                                    || (call_ensures(T::find::<Comp>, (&fetches.19,), None) && (
                                                                                        call_ensures(U::find::<Comp>, (&fetches.20,), found))))))))))))))))))))))))))))))))))))))))),
{
    let (a, b, c, d, e, f, g, h, i, j, k, l, m, n, o, p, q, r, s, t, u) = fetches;
    if let Some(slice) = (A::find::<Comp>)(a) {
        return Some(slice);
    }
    if let Some(slice) = (B::find::<Comp>)(b) {
        return Some(slice);
    }
    if let Some(slice) = (C::find::<Comp>)(c) {
        return Some(slice);
    }
    if let Some(slice) = (D::find::<Comp>)(d) {
        return Some(slice);
    }
    if let Some(slice) = (E::find::<Comp>)(e) {
        return Some(slice);
    }
    if let Some(slice) = (F::find::<Comp>)(f) {
        return Some(slice);
    }
    if let Some(slice) = (G::find::<Comp>)(g) {
        return Some(slice);
    }
    if let Some(slice) = (H::find::<Comp>)(h) {
        return Some(slice);
    }
    if let Some(slice) = (I::find::<Comp>)(i) {
        return Some(slice);
    }
    if let Some(slice) = (J::find::<Comp>)(j) {
        return Some(slice);
    }
    if let Some(slice) = (K::find::<Comp>)(k) {
        return Some(slice);
    }
    if let Some(slice) = (L::find::<Comp>)(l) {
        return Some(slice);
    }
    if let Some(slice) = (M::find::<Comp>)(m) {
        return Some(slice);
    }
    if let Some(slice) = (N::find::<Comp>)(n) {
        return Some(slice);
    }
    if let Some(slice) = (O::find::<Comp>)(o) {
        return Some(slice);
    }
    if let Some(slice) = (P::find::<Comp>)(p) {
        return Some(slice);
    }
    if let Some(slice) = (Q::find::<Comp>)(q) {
        return Some(slice);
    }
    if let Some(slice) = (R::find::<Comp>)(r) {
        return Some(slice);
    }
    if let Some(slice) = (S::find::<Comp>)(s) {
        return Some(slice);
    }
    if let Some(slice) = (T::find::<Comp>)(t) {
        return Some(slice);
    }
    (U::find::<Comp>)(u)
}

/// The mutable slice of the first fetch of a tuple of 21 that holds `Comp`.
pub fn tuple21_find_mut<'f, A: Fetch, B: Fetch, C: Fetch, D: Fetch, E: Fetch, F: Fetch, G: Fetch, H: Fetch, I: Fetch, J: Fetch, K: Fetch, L: Fetch, M: Fetch, N: Fetch, O: Fetch, P: Fetch, Q: Fetch, R: Fetch, S: Fetch, T: Fetch, U: Fetch, Comp: 'static>(fetches: &'f mut (A, B, C, D, E, F, G, H, I, J, K, L, M, N, O, P, Q, R, S, T, U)) -> (found: Option<&'f mut [Comp]>)
    ensures
        exists|m: &mut A|
            *m == old(fetches).0
            && *final(m) == final(fetches).0
            && ((found is Some && call_ensures(A::find_mut::<Comp>, (m,), found) && final(fetches).1 == old(fetches).1 && final(fetches).2 == old(fetches).2 && final(fetches).3 == old(fetches).3 && final(fetches).4 == old(fetches).4 && final(fetches).5 == old(fetches).5 && final(fetches).6 == old(fetches).6 && final(fetches).7 == old(fetches).7 && final(fetches).8 == old(fetches).8 && final(fetches).9 == old(fetches).9 && final(fetches).10 == old(fetches).10 && final(fetches).11 == old(fetches).11 && final(fetches).12 == old(fetches).12 && final(fetches).13 == old(fetches).13 && final(fetches).14 == old(fetches).14 && final(fetches).15 == old(fetches).15 && final(fetches).16 == old(fetches).16 && final(fetches).17 == old(fetches).17 && final(fetches).18 == old(fetches).18 && final(fetches).19 == old(fetches).19 && final(fetches).20 == old(fetches).20)
            || (call_ensures(A::find_mut::<Comp>, (m,), None) && (
                exists|m: &mut B|
                    *m == old(fetches).1
                    && *final(m) == final(fetches).1
                    && ((found is Some && call_ensures(B::find_mut::<Comp>, (m,), found) && final(fetches).2 == old(fetches).2 && final(fetches).3 == old(fetches).3 && final(fetches).4 == old(fetches).4 && final(fetches).5 == old(fetches).5 && final(fetches).6 == old(fetches).6 && final(fetches).7 == old(fetches).7 && final(fetches).8 == old(fetches).8 && final(fetches).9 == old(fetches).9 && final(fetches).10 == old(fetches).10 && final(fetches).11 == old(fetches).11 && final(fetches).12 == old(fetches).12 && final(fetches).13 == old(fetches).13 && final(fetches).14 == old(fetches).14 && final(fetches).15 == old(fetches).15 && final(fetches).16 == old(fetches).16 && final(fetches).17 == old(fetches).17 && final(fetches).18 == old(fetches).18 && final(fetches).19 == old(fetches).19 && final(fetches).20 == old(fetches).20)
                    || (call_ensures(B::find_mut::<Comp>, (m,), None) && (
                        exists|m: &mut C|
                            *m == old(fetches).2
                            && *final(m) == final(fetches).2
                            && ((found is Some && call_ensures(C::find_mut::<Comp>, (m,), found) && final(fetches).3 == old(fetches).3 && final(fetches).4 == old(fetches).4 && final(fetches).5 == old(fetches).5 && final(fetches).6 == old(fetches).6 && final(fetches).7 == old(fetches).7 && final(fetches).8 == old(fetches).8 && final(fetches).9 == old(fetches).9 && final(fetches).10 == old(fetches).10 && final(fetches).11 == old(fetches).11 && final(fetches).12 == old(fetches).12 && final(fetches).13 == old(fetches).13 && final(fetches).14 == old(fetches).14 && final(fetches).15 == old(fetches).15 && final(fetches).16 == old(fetches).16 && final(fetches).17 == old(fetches).17 && final(fetches).18 == old(fetches).18 && final(fetches).19 == old(fetches).19 && final(fetches).20 == old(fetches).20)
                            || (call_ensures(C::find_mut::<Comp>, (m,), None) && (
                                exists|m: &mut D|
                                    *m == old(fetches).3
                                    && *final(m) == final(fetches).3
                                    && ((found is Some && call_ensures(D::find_mut::<Comp>, (m,), found) && final(fetches).4 == old(fetches).4 && final(fetches).5 == old(fetches).5 && final(fetches).6 == old(fetches).6 && final(fetches).7 == old(fetches).7 && final(fetches).8 == old(fetches).8 && final(fetches).9 == old(fetches).9 && final(fetches).10 == old(fetches).10 && final(fetches).11 == old(fetches).11 && final(fetches).12 == old(fetches).12 && final(fetches).13 == old(fetches).13 && final(fetches).14 == old(fetches).14 && final(fetches).15 == old(fetches).15 && final(fetches).16 == old(fetches).16 && final(fetches).17 == old(fetches).17 && final(fetches).18 == old(fetches).18 && final(fetches).19 == old(fetches).19 && final(fetches).20 == old(fetches).20)
                                    || (call_ensures(D::find_mut::<Comp>, (m,), None) && (
                                        exists|m: &mut E|
                                            *m == old(fetches).4
                                            && *final(m) == final(fetches).4
                                            && ((found is Some && call_ensures(E::find_mut::<Comp>, (m,), found) && final(fetches).5 == old(fetches).5 && final(fetches).6 == old(fetches).6 && final(fetches).7 == old(fetches).7 && final(fetches).8 == old(fetches).8 && final(fetches).9 == old(fetches).9 && final(fetches).10 == old(fetches).10 && final(fetches).11 == old(fetches).11 && final(fetches).12 == old(fetches).12 && final(fetches).13 == old(fetches).13 && final(fetches).14 == old(fetches).14 && final(fetches).15 == old(fetches).15 && final(fetches).16 == old(fetches).16 && final(fetches).17 == old(fetches).17 && final(fetches).18 == old(fetches).18 && final(fetches).19 == old(fetches).19 && final(fetches).20 == old(fetches).20)
                                            || (call_ensures(E::find_mut::<Comp>, (m,), None) && (
                                                exists|m: &mut F|
                                                    *m == old(fetches).5
                                                    && *final(m) == final(fetches).5
                                                    && ((found is Some && call_ensures(F::find_mut::<Comp>, (m,), found) && final(fetches).6 == old(fetches).6 && final(fetches).7 == old(fetches).7 && final(fetches).8 == old(fetches).8 && final(fetches).9 == old(fetches).9 && final(fetches).10 == old(fetches).10 && final(fetches).11 == old(fetches).11 && final(fetches).12 == old(fetches).12 && final(fetches).13 == old(fetches).13 && final(fetches).14 == old(fetches).14 && final(fetches).15 == old(fetches).15 && final(fetches).16 == old(fetches).16 && final(fetches).17 == old(fetches).17 && final(fetches).18 == old(fetches).18 && final(fetches).19 == old(fetches).19 && final(fetches).20 == old(fetches).20)
                                                    || (call_ensures(F::find_mut::<Comp>, (m,), None) && (
                                                        exists|m: &mut G|
                                                            *m == old(fetches).6
                                                            && *final(m) == final(fetches).6
                                                            && ((found is Some && call_ensures(G::find_mut::<Comp>, (m,), found) && final(fetches).7 == old(fetches).7 && final(fetches).8 == old(fetches).8 && final(fetches).9 == old(fetches).9 && final(fetches).10 == old(fetches).10 && final(fetches).11 == old(fetches).11 && final(fetches).12 == old(fetches).12 && final(fetches).13 == old(fetches).13 && final(fetches).14 == old(fetches).14 && final(fetches).15 == old(fetches).15 && final(fetches).16 == old(fetches).16 && final(fetches).17 == old(fetches).17 && final(fetches).18 == old(fetches).18 && final(fetches).19 == old(fetches).19 && final(fetches).20 == old(fetches).20)
                                                            || (call_ensures(G::find_mut::<Comp>, (m,), None) && (
                                                                exists|m: &mut H|
                                                                    *m == old(fetches).7
                                                                    && *final(m) == final(fetches).7
                                                                    && ((found is Some && call_ensures(H::find_mut::<Comp>, (m,), found) && final(fetches).8 == old(fetches).8 && final(fetches).9 == old(fetches).9 && final(fetches).10 == old(fetches).10 && final(fetches).11 == old(fetches).11 && final(fetches).12 == old(fetches).12 && final(fetches).13 == old(fetches).13 && final(fetches).14 == old(fetches).14 && final(fetches).15 == old(fetches).15 && final(fetches).16 == old(fetches).16 && final(fetches).17 == old(fetches).17 && final(fetches).18 == old(fetches).18 && final(fetches).19 == old(fetches).19 && final(fetches).20 == old(fetches).20)
                                                                    || (call_ensures(H::find_mut::<Comp>, (m,), None) && (
                                                                        exists|m: &mut I|
                                                                            *m == old(fetches).8
                                                                            && *final(m) == final(fetches).8
                                                                            && ((found is Some && call_ensures(I::find_mut::<Comp>, (m,), found) && final(fetches).9 == old(fetches).9 && final(fetches).10 == old(fetches).10 && final(fetches).11 == old(fetches).11 && final(fetches).12 == old(fetches).12 && final(fetches).13 == old(fetches).13 && final(fetches).14 == old(fetches).14 && final(fetches).15 == old(fetches).15 && final(fetches).16 == old(fetches).16 && final(fetches).17 == old(fetches).17 && final(fetches).18 == old(fetches).18 && final(fetches).19 == old(fetches).19 && final(fetches).20 == old(fetches).20)
                                                                            || (call_ensures(I::find_mut::<Comp>, (m,), None) && (
                                                                                exists|m: &mut J|
                                                                                    *m == old(fetches).9
                                                                                    && *final(m) == final(fetches).9
                                                                                    && ((found is Some && call_ensures(J::find_mut::<Comp>, (m,), found) && final(fetches).10 == old(fetches).10 && final(fetches).11 == old(fetches).11 && final(fetches).12 == old(fetches).12 && final(fetches).13 == old(fetches).13 && final(fetches).14 == old(fetches).14 && final(fetches).15 == old(fetches).15 && final(fetches).16 == old(fetches).16 && final(fetches).17 == old(fetches).17 && final(fetches).18 == old(fetches).18 && final(fetches).19 == old(fetches).19 && final(fetches).20 == old(fetches).20)
                                                                                    || (call_ensures(J::find_mut::<Comp>, (m,), None) && (
                                                                                        exists|m: &mut K|
                                                                                            *m == old(fetches).10
                                                                                            && *final(m) == final(fetches).10
                                                                                            && ((found is Some && call_ensures(K::find_mut::<Comp>, (m,), found) && final(fetches).11 == old(fetches).11 && final(fetches).12 == old(fetches).12 && final(fetches).13 == old(fetches).13 && final(fetches).14 == old(fetches).14 && final(fetches).15 == old(fetches).15 && final(fetches).16 == old(fetches).16 && final(fetches).17 == old(fetches).17 && final(fetches).18 == old(fetches).18 && final(fetches).19 == old(fetches).19 && final(fetches).20 == old(fetches).20)
                                                                                            || (call_ensures(K::find_mut::<Comp>, (m,), None) && (
                                                                                                exists|m: &mut L|
                                                                                                    *m == old(fetches).11
                                                                                                    && *final(m) == final(fetches).11
                                                                                                    && ((found is Some && call_ensures(L::find_mut::<Comp>, (m,), found) && final(fetches).12 == old(fetches).12 && final(fetches).13 == old(fetches).13 && final(fetches).14 == old(fetches).14 && final(fetches).15 == old(fetches).15 && final(fetches).16 == old(fetches).16 && final(fetches).17 == old(fetches).17 && final(fetches).18 == old(fetches).18 && final(fetches).19 == old(fetches).19 && final(fetches).20 == old(fetches).20)
                                                                                                    || (call_ensures(L::find_mut::<Comp>, (m,), None) && (
                                                                                                        exists|m: &mut M|
                                                                                                            *m == old(fetches).12
                                                                                                            && *final(m) == final(fetches).12
                                                                                                            && ((found is Some && call_ensures(M::find_mut::<Comp>, (m,), found) && final(fetches).13 == old(fetches).13 && final(fetches).14 == old(fetches).14 && final(fetches).15 == old(fetches).15 && final(fetches).16 == old(fetches).16 && final(fetches).17 == old(fetches).17 && final(fetches).18 == old(fetches).18 && final(fetches).19 == old(fetches).19 && final(fetches).20 == old(fetches).20)
                                                                                                            || (call_ensures(M::find_mut::<Comp>, (m,), None) && (
                                                                                                                exists|m: &mut N|
                                                                                                                    *m == old(fetches).13
                                                                                                                    && *final(m) == final(fetches).13
                                                                                                                    && ((found is Some && call_ensures(N::find_mut::<Comp>, (m,), found) && final(fetches).14 == old(fetches).14 && final(fetches).15 == old(fetches).15 && final(fetches).16 == old(fetches).16 && final(fetches).17 == old(fetches).17 && final(fetches).18 == old(fetches).18 && final(fetches).19 == old(fetches).19 && final(fetches).20 == old(fetches).20)
                                                                                                                    || (call_ensures(N::find_mut::<Comp>, (m,), None) && (
                                                                                                                        exists|m: &mut O|
                                                                                                                            *m == old(fetches).14
                                                                                                                            && *final(m) == final(fetches).14
                                                                                                                            && ((found is Some && call_ensures(O::find_mut::<Comp>, (m,), found) && final(fetches).15 == old(fetches).15 && final(fetches).16 == old(fetches).16 && final(fetches).17 == old(fetches).17 && final(fetches).18 == old(fetches).18 && final(fetches).19 == old(fetches).19 && final(fetches).20 == old(fetches).20)
                                                                                                                            || (call_ensures(O::find_mut::<Comp>, (m,), None) && (
                                                                                                                                exists|m: &mut P|
                                                                                                                                    *m == old(fetches).15
                                                                                                                                    && *final(m) == final(fetches).15
                                                                                                                                    && ((found is Some && call_ensures(P::find_mut::<Comp>, (m,), found) && final(fetches).16 == old(fetches).16 && final(fetches).17 == old(fetches).17 && final(fetches).18 == old(fetches).18 && final(fetches).19 == old(fetches).19 && final(fetches).20 == old(fetches).20)
                                                                                                                                    || (call_ensures(P::find_mut::<Comp>, (m,), None) && (
                                                                                                                                        exists|m: &mut Q|
                                                                                                                                            *m == old(fetches).16
                                                                                                                                            && *final(m) == final(fetches).16
                                                                                                                                            && ((found is Some && call_ensures(Q::find_mut::<Comp>, (m,), found) && final(fetches).17 == old(fetches).17 && final(fetches).18 == old(fetches).18 && final(fetches).19 == old(fetches).19 && final(fetches).20 == old(fetches).20)
                                                                                                                                            || (call_ensures(Q::find_mut::<Comp>, (m,), None) && (
                                                                                                                                                exists|m: &mut R|
                                                                                                                                                    *m == old(fetches).17
                                                                                                                                                    && *final(m) == final(fetches).17
                                                                                                                                                    && ((found is Some && call_ensures(R::find_mut::<Comp>, (m,), found) && final(fetches).18 == old(fetches).18 && final(fetches).19 == old(fetches).19 && final(fetches).20 == old(fetches).20)
                                                                                                                                                    || (call_ensures(R::find_mut::<Comp>, (m,), None) && (
                                                                                                                                                        exists|m: &mut S|
                                                                                                                                                            *m == old(fetches).18
                                                                                                                                                            && *final(m) == final(fetches).18
                                                                                                                                                            && ((found is Some && call_ensures(S::find_mut::<Comp>, (m,), found) && final(fetches).19 == old(fetches).19 && final(fetches).20 == old(fetches).20)
                                                                                                                                                            || (call_ensures(S::find_mut::<Comp>, (m,), None) && (
                                                                                                                                                                exists|m: &mut T|
                                                                                                                                                                    *m == old(fetches).19
                                                                                                                                                                    && *final(m) == final(fetches).19
                                                                                                                                                                    && ((found is Some && call_ensures(T::find_mut::<Comp>, (m,), found) && final(fetches).20 == old(fetches).20)
                                                                                                                                                                    || (call_ensures(T::find_mut::<Comp>, (m,), None) && (
                                                                                                                                                                        exists|m: &mut U|
                                                                                                                                                                            *m == old(fetches).20
                                                                                                                                                                            && *final(m) == final(fetches).20
                                                                                                                                                                            && call_ensures(U::find_mut::<Comp>, (m,), found))))))))))))))))))))))))))))))))))))))))))))))))))))))))))))),
{
    let found = (A::find_mut::<Comp>)(&mut fetches.0);
    if found.is_some() {
        return found;
    }
    let found = (B::find_mut::<Comp>)(&mut fetches.1);
    if found.is_some() {
        return found;
    }
    let found = (C::find_mut::<Comp>)(&mut fetches.2);
    if found.is_some() {
        return found;
    }
    let found = (D::find_mut::<Comp>)(&mut fetches.3);
    if found.is_some() {
        return found;
    }
    let found = (E::find_mut::<Comp>)(&mut fetches.4);
    if found.is_some() {
        return found;
    }
    let found = (F::find_mut::<Comp>)(&mut fetches.5);
    if found.is_some() {
        return found;
    }
    let found = (G::find_mut::<Comp>)(&mut fetches.6);
    if found.is_some() {
        return found;
    }
    let found = (H::find_mut::<Comp>)(&mut fetches.7);
    if found.is_some() {
        return found;
    }
    let found = (I::find_mut::<Comp>)(&mut fetches.8);
    if found.is_some() {
        return found;
    }
    let found = (J::find_mut::<Comp>)(&mut fetches.9);
    if found.is_some() {
        return found;
    }
    let found = (K::find_mut::<Comp>)(&mut fetches.10);
    if found.is_some() {
        return found;
    }
    let found = (L::find_mut::<Comp>)(&mut fetches.11);
    if found.is_some() {
        return found;
    }
    let found = (M::find_mut::<Comp>)(&mut fetches.12);
    if found.is_some() {
        return found;
    }
    let found = (N::find_mut::<Comp>)(&mut fetches.13);
    if found.is_some() {
        return found;
    }
    let found = (O::find_mut::<Comp>)(&mut fetches.14);
    if found.is_some() {
        return found;
    }
    let found = (P::find_mut::<Comp>)(&mut fetches.15);
    if found.is_some() {
        return found;
    }
    let found = (Q::find_mut::<Comp>)(&mut fetches.16);
    if found.is_some() {
        return found;
    }
    let found = (R::find_mut::<Comp>)(&mut fetches.17);
    if found.is_some() {
        return found;
    }
    let found = (S::find_mut::<Comp>)(&mut fetches.18);
    if found.is_some() {
        return found;
    }
    let found = (T::find_mut::<Comp>)(&mut fetches.19);
    if found.is_some() {
        return found;
    }
    (U::find_mut::<Comp>)(&mut fetches.20)
}

/// The version of `Comp` in the first fetch of a tuple of 21 that holds it.
pub fn tuple21_version<A: Fetch, B: Fetch, C: Fetch, D: Fetch, E: Fetch, F: Fetch, G: Fetch, H: Fetch, I: Fetch, J: Fetch, K: Fetch, L: Fetch, M: Fetch, N: Fetch, O: Fetch, P: Fetch, Q: Fetch, R: Fetch, S: Fetch, T: Fetch, U: Fetch, Comp: Component>(fetches: &(A, B, C, D, E, F, G, H, I, J, K, L, M, N, O, P, Q, R, S, T, U)) -> (version: Option<u64>)
    ensures
        (version is Some && call_ensures(A::version::<Comp>, (&fetches.0,), version))
        || (call_ensures(A::version::<Comp>, (&fetches.0,), None) && (
            (version is Some && call_ensures(B::version::<Comp>, (&fetches.1,), version))
            || (call_ensures(B::version::<Comp>, (&fetches.1,), None) && (
                (version is Some && call_ensures(C::version::<Comp>, (&fetches.2,), version))
                || (call_ensures(C::version::<Comp>, (&fetches.2,), None) && (
                    (version is Some && call_ensures(D::version::<Comp>, (&fetches.3,), version))
                    || (call_ensures(D::version::<Comp>, (&fetches.3,), None) && (
                        (version is Some && call_ensures(E::version::<Comp>, (&fetches.4,), version))
                        || (call_ensures(E::version::<Comp>, (&fetches.4,), None) && (
                            (version is Some && call_ensures(F::version::<Comp>, (&fetches.5,), version))
                            || (call_ensures(F::version::<Comp>, (&fetches.5,), None) && (
                                (version is Some && call_ensures(G::version::<Comp>, (&fetches.6,), version))
                                || (call_ensures(G::version::<Comp>, (&fetches.6,), None) && (
                                    (version is Some && call_ensures(H::version::<Comp>, (&fetches.7,), version))
                                    || (call_ensures(H::version::<Comp>, (&fetches.7,), None) && (
                                        (version is Some && call_ensures(I::version::<Comp>, (&fetches.8,), version))
                                        || (call_ensures(I::version::<Comp>, (&fetches.8,), None) && (
                                            (version is Some && call_ensures(J::version::<Comp>, (&fetches.9,), version))
                                            || (call_ensures(J::version::<Comp>, (&fetches.9,), None) && (
                                                (version is Some && call_ensures(K::version::<Comp>, (&fetches.10,), version))
                                                || (call_ensures(K::version::<Comp>, (&fetches.10,), None) && (
                                                    (version is Some && call_ensures(L::version::<Comp>, (&fetches.11,), version))
                                                    || (call_ensures(L::version::<Comp>, (&fetches.11,), None) && (
                                                        (version is Some && call_ensures(M::version::<Comp>, (&fetches.12,), version))
                                                        || (call_ensures(M::version::<Comp>, (&fetches.12,), None) && (
                                                            (version is Some && call_ensures(N::version::<Comp>, (&fetches.13,), version))
                                                            || (call_ensures(N::version::<Comp>, (&fetches.13,), None) && (
                                                                (version is Some && call_ensures(O::version::<Comp>, (&fetches.14,), version))
                                                                || (call_ensures(O::version::<Comp>, (&fetches.14,), None) && (
                                                                    (version is Some && call_ensures(P::version::<Comp>, (&fetches.15,), version))
                                                                    || (call_ensures(P::version::<Comp>, (&fetches.15,), None) && (
                                                                        (version is Some && call_ensures(Q::version::<Comp>, (&fetches.16,), version))
                                                                        || (call_ensures(Q::version::<Comp>, (&fetches.16,), None) && (
                                                                            (version is Some && call_ensures(R::version::<Comp>, (&fetches.17,), version))
                                                                            || (call_ensures(R::version::<Comp>, (&fetches.17,), None) && (
                                                                                (version is Some && call_ensures(S::version::<Comp>, (&fetches.18,), version))
                                                                                || (call_ensures(S::version::<Comp>, (&fetches.18,), None) && (
                                                                                    (version is Some && call_ensures(T::version::<Comp>, (&fetches.19,), version))
                                                                                    || (call_ensures(T::version::<Comp>, (&fetches.19,), None) && (
                                                                                        call_ensures(U::version::<Comp>, (&fetches.20,), version))))))))))))))))))))))))))))))))))))))))),
{
    let (a, b, c, d, e, f, g, h, i, j, k, l, m, n, o, p, q, r, s, t, u) = fetches;
    if let Some(version) = (A::version::<Comp>)(a) {
        return Some(version);
    }
    if let Some(version) = (B::version::<Comp>)(b) {
        return Some(version);
    }
    if let Some(version) = (C::version::<Comp>)(c) {
        return Some(version);
    }
    if let Some(version) = (D::version::<Comp>)(d) {
        return Some(version);
    }
    if let Some(version) = (E::version::<Comp>)(e) {
        return Some(version);
    }
    if let Some(version) = (F::version::<Comp>)(f) {
        return Some(version);
    }
    if let Some(version) = (G::version::<Comp>)(g) {
        return Some(version);
    }
    if let Some(version) = (H::version::<Comp>)(h) {
        return Some(version);
    }
    if let Some(version) = (I::version::<Comp>)(i) {
        return Some(version);
    }
    if let Some(version) = (J::version::<Comp>)(j) {
        return Some(version);
    }
    if let Some(version) = (K::version::<Comp>)(k) {
        return Some(version);
    }
    if let Some(version) = (L::version::<Comp>)(l) {
        return Some(version);
    }
    if let Some(version) = (M::version::<Comp>)(m) {
        return Some(version);
    }
    if let Some(version) = (N::version::<Comp>)(n) {
        return Some(version);
    }
    if let Some(version) = (O::version::<Comp>)(o) {
        return Some(version);
    }
    if let Some(version) = (P::version::<Comp>)(p) {
        return Some(version);
    }
    if let Some(version) = (Q::version::<Comp>)(q) {
        return Some(version);
    }
    if let Some(version) = (R::version::<Comp>)(r) {
        return Some(version);
    }
    if let Some(version) = (S::version::<Comp>)(s) {
        return Some(version);
    }
    if let Some(version) = (T::version::<Comp>)(t) {
        return Some(version);
    }
    (U::version::<Comp>)(u)
}

// Tuples of 22 views.

impl<A: DefaultFilter, B: DefaultFilter, C: DefaultFilter, D: DefaultFilter, E: DefaultFilter, F: DefaultFilter, G: DefaultFilter, H: DefaultFilter, I: DefaultFilter, J: DefaultFilter, K: DefaultFilter, L: DefaultFilter, M: DefaultFilter, N: DefaultFilter, O: DefaultFilter, P: DefaultFilter, Q: DefaultFilter, R: DefaultFilter, S: DefaultFilter, T: DefaultFilter, U: DefaultFilter, V: DefaultFilter> DefaultFilter for (A, B, C, D, E, F, G, H, I, J, K, L, M, N, O, P, Q, R, S, T, U, V) {
    type Filter = (A::Filter, B::Filter, C::Filter, D::Filter, E::Filter, F::Filter, G::Filter, H::Filter, I::Filter, J::Filter, K::Filter, L::Filter, M::Filter, N::Filter, O::Filter, P::Filter, Q::Filter, R::Filter, S::Filter, T::Filter, U::Filter, V::Filter);
}

impl<'a, A: View<'a> + 'a, B: View<'a> + 'a, C: View<'a> + 'a, D: View<'a> + 'a, E: View<'a> + 'a, F: View<'a> + 'a, G: View<'a> + 'a, H: View<'a> + 'a, I: View<'a> + 'a, J: View<'a> + 'a, K: View<'a> + 'a, L: View<'a> + 'a, M: View<'a> + 'a, N: View<'a> + 'a, O: View<'a> + 'a, P: View<'a> + 'a, Q: View<'a> + 'a, R: View<'a> + 'a, S: View<'a> + 'a, T: View<'a> + 'a, U: View<'a> + 'a, V: View<'a> + 'a> View<'a> for (A, B, C, D, E, F, G, H, I, J, K, L, M, N, O, P, Q, R, S, T, U, V) {
    type Element = <Self::Fetch as IntoIndexableIter>::Item;
    type Fetch = MultiFetch<'a, (A::Fetch, B::Fetch, C::Fetch, D::Fetch, E::Fetch, F::Fetch, G::Fetch, H::Fetch, I::Fetch, J::Fetch, K::Fetch, L::Fetch, M::Fetch, N::Fetch, O::Fetch, P::Fetch, Q::Fetch, R::Fetch, S::Fetch, T::Fetch, U::Fetch, V::Fetch)>;

    fn validate() -> (valid: bool)
        ensures
            exists|reads: Seq<Vec<ComponentTypeId>>, writes: Seq<Vec<ComponentTypeId>>|
                reads.len() == 22 && writes.len() == 22
                && call_ensures(A::reads_types, (), reads[0])
                && call_ensures(A::writes_types, (), writes[0])
                && call_ensures(B::reads_types, (), reads[1])
                && call_ensures(B::writes_types, (), writes[1])
                && call_ensures(C::reads_types, (), reads[2])
                && call_ensures(C::writes_types, (), writes[2])
                && call_ensures(D::reads_types, (), reads[3])
                && call_ensures(D::writes_types, (), writes[3])
                && call_ensures(E::reads_types, (), reads[4])
                && call_ensures(E::writes_types, (), writes[4])
                && call_ensures(F::reads_types, (), reads[5])
                && call_ensures(F::writes_types, (), writes[5])
                && call_ensures(G::reads_types, (), reads[6])
                && call_ensures(G::writes_types, (), writes[6])
                && call_ensures(H::reads_types, (), reads[7])
                && call_ensures(H::writes_types, (), writes[7])
                && call_ensures(I::reads_types, (), reads[8])
                && call_ensures(I::writes_types, (), writes[8])
                && call_ensures(J::reads_types, (), reads[9])
                && call_ensures(J::writes_types, (), writes[9])
                && call_ensures(K::reads_types, (), reads[10])
                && call_ensures(K::writes_types, (), writes[10])
                && call_ensures(L::reads_types, (), reads[11])
                && call_ensures(L::writes_types, (), writes[11])
                && call_ensures(M::reads_types, (), reads[12])
                && call_ensures(M::writes_types, (), writes[12])
                && call_ensures(N::reads_types, (), reads[13])
                && call_ensures(N::writes_types, (), writes[13])
                && call_ensures(O::reads_types, (), reads[14])
                && call_ensures(O::writes_types, (), writes[14])
                && call_ensures(P::reads_types, (), reads[15])
                && call_ensures(P::writes_types, (), writes[15])
                && call_ensures(Q::reads_types, (), reads[16])
                && call_ensures(Q::writes_types, (), writes[16])
                && call_ensures(R::reads_types, (), reads[17])
                && call_ensures(R::writes_types, (), writes[17])
                && call_ensures(S::reads_types, (), reads[18])
                && call_ensures(S::writes_types, (), writes[18])
                && call_ensures(T::reads_types, (), reads[19])
                && call_ensures(T::writes_types, (), writes[19])
                && call_ensures(U::reads_types, (), reads[20])
                && call_ensures(U::writes_types, (), writes[20])
                && call_ensures(V::reads_types, (), reads[21])
                && call_ensures(V::writes_types, (), writes[21])
                && valid == conflict_free(type_lists(reads), type_lists(writes)),
    {
        let reads = vec![(A::reads_types)(), (B::reads_types)(), (C::reads_types)(), (D::reads_types)(), (E::reads_types)(), (F::reads_types)(), (G::reads_types)(), (H::reads_types)(), (I::reads_types)(), (J::reads_types)(), (K::reads_types)(), (L::reads_types)(), (M::reads_types)(), (N::reads_types)(), (O::reads_types)(), (P::reads_types)(), (Q::reads_types)(), (R::reads_types)(), (S::reads_types)(), (T::reads_types)(), (U::reads_types)(), (V::reads_types)()];
        let writes = vec![(A::writes_types)(), (B::writes_types)(), (C::writes_types)(), (D::writes_types)(), (E::writes_types)(), (F::writes_types)(), (G::writes_types)(), (H::writes_types)(), (I::writes_types)(), (J::writes_types)(), (K::writes_types)(), (L::writes_types)(), (M::writes_types)(), (N::writes_types)(), (O::writes_types)(), (P::writes_types)(), (Q::writes_types)(), (R::writes_types)(), (S::writes_types)(), (T::writes_types)(), (U::writes_types)(), (V::writes_types)()];
        let valid = accesses_conflict_free(&reads, &writes);
        assert(
            reads@.len() == 22 && writes@.len() == 22
            && call_ensures(A::reads_types, (), reads@[0])
            && call_ensures(A::writes_types, (), writes@[0])
            && call_ensures(B::reads_types, (), reads@[1])
            && call_ensures(B::writes_types, (), writes@[1])
            && call_ensures(C::reads_types, (), reads@[2])
            && call_ensures(C::writes_types, (), writes@[2])
            && call_ensures(D::reads_types, (), reads@[3])
            && call_ensures(D::writes_types, (), writes@[3])
            && call_ensures(E::reads_types, (), reads@[4])
            && call_ensures(E::writes_types, (), writes@[4])
            && call_ensures(F::reads_types, (), reads@[5])
            && call_ensures(F::writes_types, (), writes@[5])
            && call_ensures(G::reads_types, (), reads@[6])
            && call_ensures(G::writes_types, (), writes@[6])
            && call_ensures(H::reads_types, (), reads@[7])
            && call_ensures(H::writes_types, (), writes@[7])
            && call_ensures(I::reads_types, (), reads@[8])
            && call_ensures(I::writes_types, (), writes@[8])
            && call_ensures(J::reads_types, (), reads@[9])
            && call_ensures(J::writes_types, (), writes@[9])
            && call_ensures(K::reads_types, (), reads@[10])
            && call_ensures(K::writes_types, (), writes@[10])
            && call_ensures(L::reads_types, (), reads@[11])
            && call_ensures(L::writes_types, (), writes@[11])
            && call_ensures(M::reads_types, (), reads@[12])
            && call_ensures(M::writes_types, (), writes@[12])
            && call_ensures(N::reads_types, (), reads@[13])
            && call_ensures(N::writes_types, (), writes@[13])
            && call_ensures(O::reads_types, (), reads@[14])
            && call_ensures(O::writes_types, (), writes@[14])
            && call_ensures(P::reads_types, (), reads@[15])
            && call_ensures(P::writes_types, (), writes@[15])
            && call_ensures(Q::reads_types, (), reads@[16])
            && call_ensures(Q::writes_types, (), writes@[16])
            && call_ensures(R::reads_types, (), reads@[17])
            && call_ensures(R::writes_types, (), writes@[17])
            && call_ensures(S::reads_types, (), reads@[18])
            && call_ensures(S::writes_types, (), writes@[18])
            && call_ensures(T::reads_types, (), reads@[19])
            && call_ensures(T::writes_types, (), writes@[19])
            && call_ensures(U::reads_types, (), reads@[20])
            && call_ensures(U::writes_types, (), writes@[20])
            && call_ensures(V::reads_types, (), reads@[21])
            && call_ensures(V::writes_types, (), writes@[21])
            && valid == conflict_free(type_lists(reads@), type_lists(writes@))
        );
        valid
    }

    fn reads_types() -> (types: Vec<ComponentTypeId>)
        ensures
            exists|lists: Seq<Vec<ComponentTypeId>>|
                lists.len() == 22
                && call_ensures(A::reads_types, (), lists[0])
                && call_ensures(B::reads_types, (), lists[1])
                && call_ensures(C::reads_types, (), lists[2])
                && call_ensures(D::reads_types, (), lists[3])
                && call_ensures(E::reads_types, (), lists[4])
                && call_ensures(F::reads_types, (), lists[5])
                && call_ensures(G::reads_types, (), lists[6])
                && call_ensures(H::reads_types, (), lists[7])
                && call_ensures(I::reads_types, (), lists[8])
                && call_ensures(J::reads_types, (), lists[9])
                && call_ensures(K::reads_types, (), lists[10])
                && call_ensures(L::reads_types, (), lists[11])
                && call_ensures(M::reads_types, (), lists[12])
                && call_ensures(N::reads_types, (), lists[13])
                && call_ensures(O::reads_types, (), lists[14])
                && call_ensures(P::reads_types, (), lists[15])
                && call_ensures(Q::reads_types, (), lists[16])
                && call_ensures(R::reads_types, (), lists[17])
                && call_ensures(S::reads_types, (), lists[18])
                && call_ensures(T::reads_types, (), lists[19])
                && call_ensures(U::reads_types, (), lists[20])
                && call_ensures(V::reads_types, (), lists[21])
                && types@ == type_lists(lists).flatten(),
    {
        let lists = vec![(A::reads_types)(), (B::reads_types)(), (C::reads_types)(), (D::reads_types)(), (E::reads_types)(), (F::reads_types)(), (G::reads_types)(), (H::reads_types)(), (I::reads_types)(), (J::reads_types)(), (K::reads_types)(), (L::reads_types)(), (M::reads_types)(), (N::reads_types)(), (O::reads_types)(), (P::reads_types)(), (Q::reads_types)(), (R::reads_types)(), (S::reads_types)(), (T::reads_types)(), (U::reads_types)(), (V::reads_types)()];
        let ghost views = lists@;
        let types = concat_types(lists);
        assert(
            views.len() == 22
            && call_ensures(A::reads_types, (), views[0])
            && call_ensures(B::reads_types, (), views[1])
            && call_ensures(C::reads_types, (), views[2])
            && call_ensures(D::reads_types, (), views[3])
            && call_ensures(E::reads_types, (), views[4])
            && call_ensures(F::reads_types, (), views[5])
            && call_ensures(G::reads_types, (), views[6])
            && call_ensures(H::reads_types, (), views[7])
            && call_ensures(I::reads_types, (), views[8])
            && call_ensures(J::reads_types, (), views[9])
            && call_ensures(K::reads_types, (), views[10])
            && call_ensures(L::reads_types, (), views[11])
            && call_ensures(M::reads_types, (), views[12])
            && call_ensures(N::reads_types, (), views[13])
            && call_ensures(O::reads_types, (), views[14])
            && call_ensures(P::reads_types, (), views[15])
            && call_ensures(Q::reads_types, (), views[16])
            && call_ensures(R::reads_types, (), views[17])
            && call_ensures(S::reads_types, (), views[18])
            && call_ensures(T::reads_types, (), views[19])
            && call_ensures(U::reads_types, (), views[20])
            && call_ensures(V::reads_types, (), views[21])
            && types@ == type_lists(views).flatten()
        );
        types
    }

    fn writes_types() -> (types: Vec<ComponentTypeId>)
        ensures
            exists|lists: Seq<Vec<ComponentTypeId>>|
                lists.len() == 22
                && call_ensures(A::writes_types, (), lists[0])
                && call_ensures(B::writes_types, (), lists[1])
                && call_ensures(C::writes_types, (), lists[2])
                && call_ensures(D::writes_types, (), lists[3])
                && call_ensures(E::writes_types, (), lists[4])
                && call_ensures(F::writes_types, (), lists[5])
                && call_ensures(G::writes_types, (), lists[6])
                && call_ensures(H::writes_types, (), lists[7])
                && call_ensures(I::writes_types, (), lists[8])
                && call_ensures(J::writes_types, (), lists[9])
                && call_ensures(K::writes_types, (), lists[10])
                && call_ensures(L::writes_types, (), lists[11])
                && call_ensures(M::writes_types, (), lists[12])
                && call_ensures(N::writes_types, (), lists[13])
                && call_ensures(O::writes_types, (), lists[14])
                && call_ensures(P::writes_types, (), lists[15])
                && call_ensures(Q::writes_types, (), lists[16])
                && call_ensures(R::writes_types, (), lists[17])
                && call_ensures(S::writes_types, (), lists[18])
                && call_ensures(T::writes_types, (), lists[19])
                && call_ensures(U::writes_types, (), lists[20])
                && call_ensures(V::writes_types, (), lists[21])
                && types@ == type_lists(lists).flatten(),
    {
        let lists = vec![(A::writes_types)(), (B::writes_types)(), (C::writes_types)(), (D::writes_types)(), (E::writes_types)(), (F::writes_types)(), (G::writes_types)(), (H::writes_types)(), (I::writes_types)(), (J::writes_types)(), (K::writes_types)(), (L::writes_types)(), (M::writes_types)(), (N::writes_types)(), (O::writes_types)(), (P::writes_types)(), (Q::writes_types)(), (R::writes_types)(), (S::writes_types)(), (T::writes_types)(), (U::writes_types)(), (V::writes_types)()];
        let ghost views = lists@;
        let types = concat_types(lists);
        assert(
            views.len() == 22
            && call_ensures(A::writes_types, (), views[0])
            && call_ensures(B::writes_types, (), views[1])
            && call_ensures(C::writes_types, (), views[2])
            && call_ensures(D::writes_types, (), views[3])
            && call_ensures(E::writes_types, (), views[4])
            && call_ensures(F::writes_types, (), views[5])
            && call_ensures(G::writes_types, (), views[6])
            && call_ensures(H::writes_types, (), views[7])
            && call_ensures(I::writes_types, (), views[8])
            && call_ensures(J::writes_types, (), views[9])
            && call_ensures(K::writes_types, (), views[10])
            && call_ensures(L::writes_types, (), views[11])
            && call_ensures(M::writes_types, (), views[12])
            && call_ensures(N::writes_types, (), views[13])
            && call_ensures(O::writes_types, (), views[14])
            && call_ensures(P::writes_types, (), views[15])
            && call_ensures(Q::writes_types, (), views[16])
            && call_ensures(R::writes_types, (), views[17])
            && call_ensures(S::writes_types, (), views[18])
            && call_ensures(T::writes_types, (), views[19])
            && call_ensures(U::writes_types, (), views[20])
            && call_ensures(V::writes_types, (), views[21])
            && types@ == type_lists(views).flatten()
        );
        types
    }

    fn reads<Comp: Component>() -> bool {
        tuple22_reads::<'a, A, B, C, D, E, F, G, H, I, J, K, L, M, N, O, P, Q, R, S, T, U, V, Comp>()
    }

    fn writes<Comp: Component>() -> bool {
        tuple22_writes::<'a, A, B, C, D, E, F, G, H, I, J, K, L, M, N, O, P, Q, R, S, T, U, V, Comp>()
    }
}

impl<'a, A: Fetch, B: Fetch, C: Fetch, D: Fetch, E: Fetch, F: Fetch, G: Fetch, H: Fetch, I: Fetch, J: Fetch, K: Fetch, L: Fetch, M: Fetch, N: Fetch, O: Fetch, P: Fetch, Q: Fetch, R: Fetch, S: Fetch, T: Fetch, U: Fetch, V: Fetch> IntoIndexableIter for MultiFetch<'a, (A, B, C, D, E, F, G, H, I, J, K, L, M, N, O, P, Q, R, S, T, U, V)> {
    type Item = (A::Item, B::Item, C::Item, D::Item, E::Item, F::Item, G::Item, H::Item, I::Item, J::Item, K::Item, L::Item, M::Item, N::Item, O::Item, P::Item, Q::Item, R::Item, S::Item, T::Item, U::Item, V::Item);
    type IntoIter = (A::IntoIter, B::IntoIter, C::IntoIter, D::IntoIter, E::IntoIter, F::IntoIter, G::IntoIter, H::IntoIter, I::IntoIter, J::IntoIter, K::IntoIter, L::IntoIter, M::IntoIter, N::IntoIter, O::IntoIter, P::IntoIter, Q::IntoIter, R::IntoIter, S::IntoIter, T::IntoIter, U::IntoIter, V::IntoIter);

    fn into_indexable_iter(self) -> (iter: Self::IntoIter)
        ensures
            call_ensures(A::into_indexable_iter, (self.fetches().0,), iter.0),
            call_ensures(B::into_indexable_iter, (self.fetches().1,), iter.1),
            call_ensures(C::into_indexable_iter, (self.fetches().2,), iter.2),
            call_ensures(D::into_indexable_iter, (self.fetches().3,), iter.3),
            call_ensures(E::into_indexable_iter, (self.fetches().4,), iter.4),
            call_ensures(F::into_indexable_iter, (self.fetches().5,), iter.5),
            call_ensures(G::into_indexable_iter, (self.fetches().6,), iter.6),
            call_ensures(H::into_indexable_iter, (self.fetches().7,), iter.7),
            call_ensures(I::into_indexable_iter, (self.fetches().8,), iter.8),
            call_ensures(J::into_indexable_iter, (self.fetches().9,), iter.9),
            call_ensures(K::into_indexable_iter, (self.fetches().10,), iter.10),
            call_ensures(L::into_indexable_iter, (self.fetches().11,), iter.11),
            call_ensures(M::into_indexable_iter, (self.fetches().12,), iter.12),
            call_ensures(N::into_indexable_iter, (self.fetches().13,), iter.13),
            call_ensures(O::into_indexable_iter, (self.fetches().14,), iter.14),
            call_ensures(P::into_indexable_iter, (self.fetches().15,), iter.15),
            call_ensures(Q::into_indexable_iter, (self.fetches().16,), iter.16),
            call_ensures(R::into_indexable_iter, (self.fetches().17,), iter.17),
            call_ensures(S::into_indexable_iter, (self.fetches().18,), iter.18),
            call_ensures(T::into_indexable_iter, (self.fetches().19,), iter.19),
            call_ensures(U::into_indexable_iter, (self.fetches().20,), iter.20),
            call_ensures(V::into_indexable_iter, (self.fetches().21,), iter.21),
    {
        let (a, b, c, d, e, f, g, h, i, j, k, l, m, n, o, p, q, r, s, t, u, v) = self.fetches;
        ((A::into_indexable_iter)(a), (B::into_indexable_iter)(b), (C::into_indexable_iter)(c), (D::into_indexable_iter)(d), (E::into_indexable_iter)(e), (F::into_indexable_iter)(f), (G::into_indexable_iter)(g), (H::into_indexable_iter)(h), (I::into_indexable_iter)(i), (J::into_indexable_iter)(j), (K::into_indexable_iter)(k), (L::into_indexable_iter)(l), (M::into_indexable_iter)(m), (N::into_indexable_iter)(n), (O::into_indexable_iter)(o), (P::into_indexable_iter)(p), (Q::into_indexable_iter)(q), (R::into_indexable_iter)(r), (S::into_indexable_iter)(s), (T::into_indexable_iter)(t), (U::into_indexable_iter)(u), (V::into_indexable_iter)(v))
    }
}

impl<'a, A: Fetch, B: Fetch, C: Fetch, D: Fetch, E: Fetch, F: Fetch, G: Fetch, H: Fetch, I: Fetch, J: Fetch, K: Fetch, L: Fetch, M: Fetch, N: Fetch, O: Fetch, P: Fetch, Q: Fetch, R: Fetch, S: Fetch, T: Fetch, U: Fetch, V: Fetch> Fetch for MultiFetch<'a, (A, B, C, D, E, F, G, H, I, J, K, L, M, N, O, P, Q, R, S, T, U, V)> {
    type Data = (A::Data, B::Data, C::Data, D::Data, E::Data, F::Data, G::Data, H::Data, I::Data, J::Data, K::Data, L::Data, M::Data, N::Data, O::Data, P::Data, Q::Data, R::Data, S::Data, T::Data, U::Data, V::Data);

    fn into_components(self) -> (data: Self::Data)
        ensures
            call_ensures(A::into_components, (self.fetches().0,), data.0),
            call_ensures(B::into_components, (self.fetches().1,), data.1),
            call_ensures(C::into_components, (self.fetches().2,), data.2),
            call_ensures(D::into_components, (self.fetches().3,), data.3),
            call_ensures(E::into_components, (self.fetches().4,), data.4),
            call_ensures(F::into_components, (self.fetches().5,), data.5),
            call_ensures(G::into_components, (self.fetches().6,), data.6),
            call_ensures(H::into_components, (self.fetches().7,), data.7),
            call_ensures(I::into_components, (self.fetches().8,), data.8),
            call_ensures(J::into_components, (self.fetches().9,), data.9),
            call_ensures(K::into_components, (self.fetches().10,), data.10),
            call_ensures(L::into_components, (self.fetches().11,), data.11),
            call_ensures(M::into_components, (self.fetches().12,), data.12),
            call_ensures(N::into_components, (self.fetches().13,), data.13),
            call_ensures(O::into_components, (self.fetches().14,), data.14),
            call_ensures(P::into_components, (self.fetches().15,), data.15),
            call_ensures(Q::into_components, (self.fetches().16,), data.16),
            call_ensures(R::into_components, (self.fetches().17,), data.17),
            call_ensures(S::into_components, (self.fetches().18,), data.18),
            call_ensures(T::into_components, (self.fetches().19,), data.19),
            call_ensures(U::into_components, (self.fetches().20,), data.20),
            call_ensures(V::into_components, (self.fetches().21,), data.21),
    {
        let (a, b, c, d, e, f, g, h, i, j, k, l, m, n, o, p, q, r, s, t, u, v) = self.fetches;
        ((A::into_components)(a), (B::into_components)(b), (C::into_components)(c), (D::into_components)(d), (E::into_components)(e), (F::into_components)(f), (G::into_components)(g), (H::into_components)(h), (I::into_components)(i), (J::into_components)(j), (K::into_components)(k), (L::into_components)(l), (M::into_components)(m), (N::into_components)(n), (O::into_components)(o), (P::into_components)(p), (Q::into_components)(q), (R::into_components)(r), (S::into_components)(s), (T::into_components)(t), (U::into_components)(u), (V::into_components)(v))
    }

    fn find<Comp: 'static>(&self) -> Option<&[Comp]> {
        tuple22_find::<A, B, C, D, E, F, G, H, I, J, K, L, M, N, O, P, Q, R, S, T, U, V, Comp>(&self.fetches)
    }

    fn find_mut<Comp: 'static>(&mut self) -> Option<&mut [Comp]> {
        tuple22_find_mut::<A, B, C, D, E, F, G, H, I, J, K, L, M, N, O, P, Q, R, S, T, U, V, Comp>(&mut self.fetches)
    }

    fn version<Comp: Component>(&self) -> Option<u64> {
        tuple22_version::<A, B, C, D, E, F, G, H, I, J, K, L, M, N, O, P, Q, R, S, T, U, V, Comp>(&self.fetches)
    }

    fn accepted(&mut self)
        ensures
            exists|m: &mut A|
                *m == old(self).fetches().0 && *final(m) == final(self).fetches().0
                && call_ensures(A::accepted, (m,), ()),
            exists|m: &mut B|
                *m == old(self).fetches().1 && *final(m) == final(self).fetches().1
                && call_ensures(B::accepted, (m,), ()),
            exists|m: &mut C|
                *m == old(self).fetches().2 && *final(m) == final(self).fetches().2
                && call_ensures(C::accepted, (m,), ()),
            exists|m: &mut D|
                *m == old(self).fetches().3 && *final(m) == final(self).fetches().3
                && call_ensures(D::accepted, (m,), ()),
            exists|m: &mut E|
                *m == old(self).fetches().4 && *final(m) == final(self).fetches().4
                && call_ensures(E::accepted, (m,), ()),
            exists|m: &mut F|
                *m == old(self).fetches().5 && *final(m) == final(self).fetches().5
                && call_ensures(F::accepted, (m,), ()),
            exists|m: &mut G|
                *m == old(self).fetches().6 && *final(m) == final(self).fetches().6
                && call_ensures(G::accepted, (m,), ()),
            exists|m: &mut H|
                *m == old(self).fetches().7 && *final(m) == final(self).fetches().7
                && call_ensures(H::accepted, (m,), ()),
            exists|m: &mut I|
                *m == old(self).fetches().8 && *final(m) == final(self).fetches().8
                && call_ensures(I::accepted, (m,), ()),
            exists|m: &mut J|
                *m == old(self).fetches().9 && *final(m) == final(self).fetches().9
                && call_ensures(J::accepted, (m,), ()),
            exists|m: &mut K|
                *m == old(self).fetches().10 && *final(m) == final(self).fetches().10
                && call_ensures(K::accepted, (m,), ()),
            exists|m: &mut L|
                *m == old(self).fetches().11 && *final(m) == final(self).fetches().11
                && call_ensures(L::accepted, (m,), ()),
            exists|m: &mut M|
                *m == old(self).fetches().12 && *final(m) == final(self).fetches().12
                && call_ensures(M::accepted, (m,), ()),
            exists|m: &mut N|
                *m == old(self).fetches().13 && *final(m) == final(self).fetches().13
                && call_ensures(N::accepted, (m,), ()),
            exists|m: &mut O|
                *m == old(self).fetches().14 && *final(m) == final(self).fetches().14
                && call_ensures(O::accepted, (m,), ()),
            exists|m: &mut P|
                *m == old(self).fetches().15 && *final(m) == final(self).fetches().15
                && call_ensures(P::accepted, (m,), ()),
            exists|m: &mut Q|
                *m == old(self).fetches().16 && *final(m) == final(self).fetches().16
                && call_ensures(Q::accepted, (m,), ()),
            exists|m: &mut R|
                *m == old(self).fetches().17 && *final(m) == final(self).fetches().17
                && call_ensures(R::accepted, (m,), ()),
            exists|m: &mut S|
                *m == old(self).fetches().18 && *final(m) == final(self).fetches().18
                && call_ensures(S::accepted, (m,), ()),
            exists|m: &mut T|
                *m == old(self).fetches().19 && *final(m) == final(self).fetches().19
                && call_ensures(T::accepted, (m,), ()),
            exists|m: &mut U|
                *m == old(self).fetches().20 && *final(m) == final(self).fetches().20
                && call_ensures(U::accepted, (m,), ()),
            exists|m: &mut V|
                *m == old(self).fetches().21 && *final(m) == final(self).fetches().21
                && call_ensures(V::accepted, (m,), ()),
    {
        let (a, b, c, d, e, f, g, h, i, j, k, l, m, n, o, p, q, r, s, t, u, v) = &mut self.fetches;
        (A::accepted)(a);
        (B::accepted)(b);
        (C::accepted)(c);
        (D::accepted)(d);
        (E::accepted)(e);
        (F::accepted)(f);
        (G::accepted)(g);
        (H::accepted)(h);
        (I::accepted)(i);
        (J::accepted)(j);
        (K::accepted)(k);
        (L::accepted)(l);
        (M::accepted)(m);
        (N::accepted)(n);
        (O::accepted)(o);
        (P::accepted)(p);
        (Q::accepted)(q);
        (R::accepted)(r);
        (S::accepted)(s);
        (T::accepted)(t);
        (U::accepted)(u);
        (V::accepted)(v);
    }
}

impl<'a, A: ReadOnlyFetch, B: ReadOnlyFetch, C: ReadOnlyFetch, D: ReadOnlyFetch, E: ReadOnlyFetch, F: ReadOnlyFetch, G: ReadOnlyFetch, H: ReadOnlyFetch, I: ReadOnlyFetch, J: ReadOnlyFetch, K: ReadOnlyFetch, L: ReadOnlyFetch, M: ReadOnlyFetch, N: ReadOnlyFetch, O: ReadOnlyFetch, P: ReadOnlyFetch, Q: ReadOnlyFetch, R: ReadOnlyFetch, S: ReadOnlyFetch, T: ReadOnlyFetch, U: ReadOnlyFetch, V: ReadOnlyFetch> ReadOnlyFetch for MultiFetch<'a, (A, B, C, D, E, F, G, H, I, J, K, L, M, N, O, P, Q, R, S, T, U, V)> {
    fn get_components(&self) -> (data: Self::Data)
        ensures
            call_ensures(A::get_components, (&self.fetches().0,), data.0),
            call_ensures(B::get_components, (&self.fetches().1,), data.1),
            call_ensures(C::get_components, (&self.fetches().2,), data.2),
            call_ensures(D::get_components, (&self.fetches().3,), data.3),
            call_ensures(E::get_components, (&self.fetches().4,), data.4),
            call_ensures(F::get_components, (&self.fetches().5,), data.5),
            call_ensures(G::get_components, (&self.fetches().6,), data.6),
            call_ensures(H::get_components, (&self.fetches().7,), data.7),
            call_ensures(I::get_components, (&self.fetches().8,), data.8),
            call_ensures(J::get_components, (&self.fetches().9,), data.9),
            call_ensures(K::get_components, (&self.fetches().10,), data.10),
            call_ensures(L::get_components, (&self.fetches().11,), data.11),
            call_ensures(M::get_components, (&self.fetches().12,), data.12),
            call_ensures(N::get_components, (&self.fetches().13,), data.13),
            call_ensures(O::get_components, (&self.fetches().14,), data.14),
            call_ensures(P::get_components, (&self.fetches().15,), data.15),
            call_ensures(Q::get_components, (&self.fetches().16,), data.16),
            call_ensures(R::get_components, (&self.fetches().17,), data.17),
            call_ensures(S::get_components, (&self.fetches().18,), data.18),
            call_ensures(T::get_components, (&self.fetches().19,), data.19),
            call_ensures(U::get_components, (&self.fetches().20,), data.20),
            call_ensures(V::get_components, (&self.fetches().21,), data.21),
    {
        let (a, b, c, d, e, f, g, h, i, j, k, l, m, n, o, p, q, r, s, t, u, v) = &self.fetches;
        ((A::get_components)(a), (B::get_components)(b), (C::get_components)(c), (D::get_components)(d), (E::get_components)(e), (F::get_components)(f), (G::get_components)(g), (H::get_components)(h), (I::get_components)(i), (J::get_components)(j), (K::get_components)(k), (L::get_components)(l), (M::get_components)(m), (N::get_components)(n), (O::get_components)(o), (P::get_components)(p), (Q::get_components)(q), (R::get_components)(r), (S::get_components)(s), (T::get_components)(t), (U::get_components)(u), (V::get_components)(v))
    }
}

/// Whether some view of a tuple of 22 reads `Comp`, asking the views in order.
pub fn tuple22_reads<'a, A: View<'a> + 'a, B: View<'a> + 'a, C: View<'a> + 'a, D: View<'a> + 'a, E: View<'a> + 'a, F: View<'a> + 'a, G: View<'a> + 'a, H: View<'a> + 'a, I: View<'a> + 'a, J: View<'a> + 'a, K: View<'a> + 'a, L: View<'a> + 'a, M: View<'a> + 'a, N: View<'a> + 'a, O: View<'a> + 'a, P: View<'a> + 'a, Q: View<'a> + 'a, R: View<'a> + 'a, S: View<'a> + 'a, T: View<'a> + 'a, U: View<'a> + 'a, V: View<'a> + 'a, Comp: Component>() -> (found: bool)
    ensures
        (found && call_ensures(A::reads::<Comp>, (), true))
        || (call_ensures(A::reads::<Comp>, (), false) && (
            (found && call_ensures(B::reads::<Comp>, (), true))
            || (call_ensures(B::reads::<Comp>, (), false) && (
                (found && call_ensures(C::reads::<Comp>, (), true))
                || (call_ensures(C::reads::<Comp>, (), false) && (
                    (found && call_ensures(D::reads::<Comp>, (), true))
                    || (call_ensures(D::reads::<Comp>, (), false) && (
                        (found && call_ensures(E::reads::<Comp>, (), true))
                        || (call_ensures(E::reads::<Comp>, (), false) && (
                            (found && call_ensures(F::reads::<Comp>, (), true))
                            || (call_ensures(F::reads::<Comp>, (), false) && (
                                (found && call_ensures(G::reads::<Comp>, (), true))
                                || (call_ensures(G::reads::<Comp>, (), false) && (
                                    (found && call_ensures(H::reads::<Comp>, (), true))
                                    || (call_ensures(H::reads::<Comp>, (), false) && (
                                        (found && call_ensures(I::reads::<Comp>, (), true))
                                        || (call_ensures(I::reads::<Comp>, (), false) && (
                                            (found && call_ensures(J::reads::<Comp>, (), true))
                                            || (call_ensures(J::reads::<Comp>, (), false) && (
                                                (found && call_ensures(K::reads::<Comp>, (), true))
                                                || (call_ensures(K::reads::<Comp>, (), false) && (
                                                    (found && call_ensures(L::reads::<Comp>, (), true))
                                                    || (call_ensures(L::reads::<Comp>, (), false) && (
                                                        (found && call_ensures(M::reads::<Comp>, (), true))
                                                        || (call_ensures(M::reads::<Comp>, (), false) && (
                                                            (found && call_ensures(N::reads::<Comp>, (), true))
                                                            || (call_ensures(N::reads::<Comp>, (), false) && (
                                                                (found && call_ensures(O::reads::<Comp>, (), true))
                                                                || (call_ensures(O::reads::<Comp>, (), false) && (
                                                                    (found && call_ensures(P::reads::<Comp>, (), true))
                                                                    || (call_ensures(P::reads::<Comp>, (), false) && (
                                                                        (found && call_ensures(Q::reads::<Comp>, (), true))
                                                                        || (call_ensures(Q::reads::<Comp>, (), false) && (
                                                                            (found && call_ensures(R::reads::<Comp>, (), true))
                                                                            || (call_ensures(R::reads::<Comp>, (), false) && (
                                                                                (found && call_ensures(S::reads::<Comp>, (), true))
                                                                                || (call_ensures(S::reads::<Comp>, (), false) && (
                                                                                    (found && call_ensures(T::reads::<Comp>, (), true))
                                                                                    || (call_ensures(T::reads::<Comp>, (), false) && (
                                                                                        (found && call_ensures(U::reads::<Comp>, (), true))
                                                                                        || (call_ensures(U::reads::<Comp>, (), false) && (
                                                                                            call_ensures(V::reads::<Comp>, (), found))))))))))))))))))))))))))))))))))))))))))),
{
    (A::reads::<Comp>)()
        || (B::reads::<Comp>)()
        || (C::reads::<Comp>)()
        || (D::reads::<Comp>)()
        || (E::reads::<Comp>)()
        || (F::reads::<Comp>)()
        || (G::reads::<Comp>)()
        || (H::reads::<Comp>)()
        || (I::reads::<Comp>)()
        || (J::reads::<Comp>)()
        || (K::reads::<Comp>)()
        || (L::reads::<Comp>)()
        || (M::reads::<Comp>)()
        || (N::reads::<Comp>)()
        || (O::reads::<Comp>)()
        || (P::reads::<Comp>)()
        || (Q::reads::<Comp>)()
        || (R::reads::<Comp>)()
        || (S::reads::<Comp>)()
        || (T::reads::<Comp>)()
        || (U::reads::<Comp>)()
        || (V::reads::<Comp>)()
}

/// Whether some view of a tuple of 22 writes `Comp`, asking the views in order.
pub fn tuple22_writes<'a, A: View<'a> + 'a, B: View<'a> + 'a, C: View<'a> + 'a, D: View<'a> + 'a, E: View<'a> + 'a, F: View<'a> + 'a, G: View<'a> + 'a, H: View<'a> + 'a, I: View<'a> + 'a, J: View<'a> + 'a, K: View<'a> + 'a, L: View<'a> + 'a, M: View<'a> + 'a, N: View<'a> + 'a, O: View<'a> + 'a, P: View<'a> + 'a, Q: View<'a> + 'a, R: View<'a> + 'a, S: View<'a> + 'a, T: View<'a> + 'a, U: View<'a> + 'a, V: View<'a> + 'a, Comp: Component>() -> (found: bool)
    ensures
        (found && call_ensures(A::writes::<Comp>, (), true))
        || (call_ensures(A::writes::<Comp>, (), false) && (
            (found && call_ensures(B::writes::<Comp>, (), true))
            || (call_ensures(B::writes::<Comp>, (), false) && (
                (found && call_ensures(C::writes::<Comp>, (), true))
                || (call_ensures(C::writes::<Comp>, (), false) && (
                    (found && call_ensures(D::writes::<Comp>, (), true))
                    || (call_ensures(D::writes::<Comp>, (), false) && (
                        (found && call_ensures(E::writes::<Comp>, (), true))
                        || (call_ensures(E::writes::<Comp>, (), false) && (
                            (found && call_ensures(F::writes::<Comp>, (), true))
                            || (call_ensures(F::writes::<Comp>, (), false) && (
                                (found && call_ensures(G::writes::<Comp>, (), true))
                                || (call_ensures(G::writes::<Comp>, (), false) && (
                                    (found && call_ensures(H::writes::<Comp>, (), true))
                                    || (call_ensures(H::writes::<Comp>, (), false) && (
                                        (found && call_ensures(I::writes::<Comp>, (), true))
                                        || (call_ensures(I::writes::<Comp>, (), false) && (
                                            (found && call_ensures(J::writes::<Comp>, (), true))
                                            || (call_ensures(J::writes::<Comp>, (), false) && (
                                                (found && call_ensures(K::writes::<Comp>, (), true))
                                                || (call_ensures(K::writes::<Comp>, (), false) && (
                                                    (found && call_ensures(L::writes::<Comp>, (), true))
                                                    || (call_ensures(L::writes::<Comp>, (), false) && (
                                                        (found && call_ensures(M::writes::<Comp>, (), true))
                                                        || (call_ensures(M::writes::<Comp>, (), false) && (
                                                            (found && call_ensures(N::writes::<Comp>, (), true))
                                                            || (call_ensures(N::writes::<Comp>, (), false) && (
                                                                (found && call_ensures(O::writes::<Comp>, (), true))
                                                                || (call_ensures(O::writes::<Comp>, (), false) && (
                                                                    (found && call_ensures(P::writes::<Comp>, (), true))
                                                                    || (call_ensures(P::writes::<Comp>, (), false) && (
                                                                        (found && call_ensures(Q::writes::<Comp>, (), true))
                                                                        || (call_ensures(Q::writes::<Comp>, (), false) && (
                                                                            (found && call_ensures(R::writes::<Comp>, (), true))
                                                                            || (call_ensures(R::writes::<Comp>, (), false) && (
                                                                                (found && call_ensures(S::writes::<Comp>, (), true))
                                                                                || (call_ensures(S::writes::<Comp>, (), false) && (
                                                                                    (found && call_ensures(T::writes::<Comp>, (), true))
                                                                                    || (call_ensures(T::writes::<Comp>, (), false) && (
                                                                                        (found && call_ensures(U::writes::<Comp>, (), true))
                                                                                        || (call_ensures(U::writes::<Comp>, (), false) && (
                                                                                            call_ensures(V::writes::<Comp>, (), found))))))))))))))))))))))))))))))))))))))))))),
{
    (A::writes::<Comp>)()
        || (B::writes::<Comp>)()
        || (C::writes::<Comp>)()
        || (D::writes::<Comp>)()
        || (E::writes::<Comp>)()
        || (F::writes::<Comp>)()
        || (G::writes::<Comp>)()
        || (H::writes::<Comp>)()
        || (I::writes::<Comp>)()
        || (J::writes::<Comp>)()
        || (K::writes::<Comp>)()
        || (L::writes::<Comp>)()
        || (M::writes::<Comp>)()
        || (N::writes::<Comp>)()
        || (O::writes::<Comp>)()
        || (P::writes::<Comp>)()
        || (Q::writes::<Comp>)()
        || (R::writes::<Comp>)()
        || (S::writes::<Comp>)()
        || (T::writes::<Comp>)()
        || (U::writes::<Comp>)()
        || (V::writes::<Comp>)()
}

/// The slice of the first fetch of a tuple of 22 that holds `Comp`.
pub fn tuple22_find<'f, A: Fetch, B: Fetch, C: Fetch, D: Fetch, E: Fetch, F: Fetch, G: Fetch, H: Fetch, I: Fetch, J: Fetch, K: Fetch, L: Fetch, M: Fetch, N: Fetch, O: Fetch, P: Fetch, Q: Fetch, R: Fetch, S: Fetch, T: Fetch, U: Fetch, V: Fetch, Comp: 'static>(fetches: &'f (A, B, C, D, E, F, G, H, I, J, K, L, M, N, O, P, Q, R, S, T, U, V)) -> (found: Option<&'f [Comp]>)
    ensures
        (found is Some && call_ensures(A::find::<Comp>, (&fetches.0,), found))
        || (call_ensures(A::find::<Comp>, (&fetches.0,), None) && (
            (found is Some && call_ensures(B::find::<Comp>, (&fetches.1,), found))
            || (call_ensures(B::find::<Comp>, (&fetches.1,), None) && (
                (found is Some && call_ensures(C::find::<Comp>, (&fetches.2,), found))
                || (call_ensures(C::find::<Comp>, (&fetches.2,), None) && (
                    (found is Some && call_ensures(D::find::<Comp>, (&fetches.3,), found))
                    || (call_ensures(D::find::<Comp>, (&fetches.3,), None) && (
                        (found is Some && call_ensures(E::find::<Comp>, (&fetches.4,), found))
                        || (call_ensures(E::find::<Comp>, (&fetches.4,), None) && (
                            (found is Some && call_ensures(F::find::<Comp>, (&fetches.5,), found))
                            || (call_ensures(F::find::<Comp>, (&fetches.5,), None) && (
                                (found is Some && call_ensures(G::find::<Comp>, (&fetches.6,), found))
                                || (call_ensures(G::find::<Comp>, (&fetches.6,), None) && (
                                    (found is Some && call_ensures(H::find::<Comp>, (&fetches.7,), found))
                                    || (call_ensures(H::find::<Comp>, (&fetches.7,), None) && (
                                        (found is Some && call_ensures(I::find::<Comp>, (&fetches.8,), found))
                                        || (call_ensures(I::find::<Comp>, (&fetches.8,), None) && (
                                            (found is Some && call_ensures(J::find::<Comp>, (&fetches.9,), found))
                                            || (call_ensures(J::find::<Comp>, (&fetches.9,), None) && (
                                                (found is Some && call_ensures(K::find::<Comp>, (&fetches.10,), found))
                                                || (call_ensures(K::find::<Comp>, (&fetches.10,), None) && (
                                                    (found is Some && call_ensures(L::find::<Comp>, (&fetches.11,), found))
                                                    || (call_ensures(L::find::<Comp>, (&fetches.11,), None) && (
                                                        (found is Some && call_ensures(M::find::<Comp>, (&fetches.12,), found))
                                                        || (call_ensures(M::find::<Comp>, (&fetches.12,), None) && (
                                                            (found is Some && call_ensures(N::find::<Comp>, (&fetches.13,), found))
                                                            || (call_ensures(N::find::<Comp>, (&fetches.13,), None) && (
                                                                (found is Some && call_ensures(O::find::<Comp>, (&fetches.14,), found))
                                                                || (call_ensures(O::find::<Comp>, (&fetches.14,), None) && (
                                                                    (found is Some && call_ensures(P::find::<Comp>, (&fetches.15,), found))
                                                                    || (call_ensures(P::find::<Comp>, (&fetches.15,), None) && (
                                                                        (found is Some && call_ensures(Q::find::<Comp>, (&fetches.16,), found))
                                                                        || (call_ensures(Q::find::<Comp>, (&fetches.16,), None) && (
                                                                            (found is Some && call_ensures(R::find::<Comp>, (&fetches.17,), found))
                                                                            || (call_ensures(R::find::<Comp>, (&fetches.17,), None) && (
                                                                                (found is Some && call_ensures(S::find::<Comp>, (&fetches.18,), found))
                                                                                || (call_ensures(S::find::<Comp>, (&fetches.18,), None) && (
                                                                                    (found is Some && call_ensures(T::find::<Comp>, (&fetches.19,), found))
                                                                                    || (call_ensures(T::find::<Comp>, (&fetches.19,), None) && (
                                                                                        (found is Some && call_ensures(U::find::<Comp>, (&fetches.20,), found))
                                                                                        || (call_ensures(U::find::<Comp>, (&fetches.20,), None) && (
                                                                                            call_ensures(V::find::<Comp>, (&fetches.21,), found))))))))))))))))))))))))))))))))))))))))))),
{
    let (a, b, c, d, e, f, g, h, i, j, k, l, m, n, o, p, q, r, s, t, u, v) = fetches;
    if let Some(slice) = (A::find::<Comp>)(a) {
        return Some(slice);
    }
    if let Some(slice) = (B::find::<Comp>)(b) {
        return Some(slice);
    }
    if let Some(slice) = (C::find::<Comp>)(c) {
        return Some(slice);
    }
    if let Some(slice) = (D::find::<Comp>)(d) {
        return Some(slice);
    }
    if let Some(slice) = (E::find::<Comp>)(e) {
        return Some(slice);
    }
    if let Some(slice) = (F::find::<Comp>)(f) {
        return Some(slice);
    }
    if let Some(slice) = (G::find::<Comp>)(g) {
        return Some(slice);
    }
    if let Some(slice) = (H::find::<Comp>)(h) {
        return Some(slice);
    }
    if let Some(slice) = (I::find::<Comp>)(i) {
        return Some(slice);
    }
    if let Some(slice) = (J::find::<Comp>)(j) {
        return Some(slice);
    }
    if let Some(slice) = (K::find::<Comp>)(k) {
        return Some(slice);
    }
    if let Some(slice) = (L::find::<Comp>)(l) {
        return Some(slice);
    }
    if let Some(slice) = (M::find::<Comp>)(m) {
        return Some(slice);
    }
    if let Some(slice) = (N::find::<Comp>)(n) {
        return Some(slice);
    }
    if let Some(slice) = (O::find::<Comp>)(o) {
        return Some(slice);
    }
    if let Some(slice) = (P::find::<Comp>)(p) {
        return Some(slice);
    }
    if let Some(slice) = (Q::find::<Comp>)(q) {
        return Some(slice);
    }
    if let Some(slice) = (R::find::<Comp>)(r) {
        return Some(slice);
    }
    if let Some(slice) = (S::find::<Comp>)(s) {
        return Some(slice);
    }
    if let Some(slice) = (T::find::<Comp>)(t) {
        return Some(slice);
    }
    if let Some(slice) = (U::find::<Comp>)(u) {
        return Some(slice);
    }
    (V::find::<Comp>)(v)
}

/// The mutable slice of the first fetch of a tuple of 22 that holds `Comp`.
pub fn tuple22_find_mut<'f, A: Fetch, B: Fetch, C: Fetch, D: Fetch, E: Fetch, F: Fetch, G: Fetch, H: Fetch, I: Fetch, J: Fetch, K: Fetch, L: Fetch, M: Fetch, N: Fetch, O: Fetch, P: Fetch, Q: Fetch, R: Fetch, S: Fetch, T: Fetch, U: Fetch, V: Fetch, Comp: 'static>(fetches: &'f mut (A, B, C, D, E, F, G, H, I, J, K, L, M, N, O, P, Q, R, S, T, U, V)) -> (found: Option<&'f mut [Comp]>)
    ensures
        exists|m: &mut A|
            *m == old(fetches).0
            && *final(m) == final(fetches).0
            && ((found is Some && call_ensures(A::find_mut::<Comp>, (m,), found) && final(fetches).1 == old(fetches).1 && final(fetches).2 == old(fetches).2 && final(fetches).3 == old(fetches).3 && final(fetches).4 == old(fetches).4 && final(fetches).5 == old(fetches).5 && final(fetches).6 == old(fetches).6 && final(fetches).7 == old(fetches).7 && final(fetches).8 == old(fetches).8 && final(fetches).9 == old(fetches).9 && final(fetches).10 == old(fetches).10 && final(fetches).11 == old(fetches).11 && final(fetches).12 == old(fetches).12 && final(fetches).13 == old(fetches).13 && final(fetches).14 == old(fetches).14 && final(fetches).15 == old(fetches).15 && final(fetches).16 == old(fetches).16 && final(fetches).17 == old(fetches).17 && final(fetches).18 == old(fetches).18 && final(fetches).19 == old(fetches).19 && final(fetches).20 == old(fetches).20 && final(fetches).21 == old(fetches).21)
            || (call_ensures(A::find_mut::<Comp>, (m,), None) && (
                exists|m: &mut B|
                    *m == old(fetches).1
                    && *final(m) == final(fetches).1
                    && ((found is Some && call_ensures(B::find_mut::<Comp>, (m,), found) && final(fetches).2 == old(fetches).2 && final(fetches).3 == old(fetches).3 && final(fetches).4 == old(fetches).4 && final(fetches).5 == old(fetches).5 && final(fetches).6 == old(fetches).6 && final(fetches).7 == old(fetches).7 && final(fetches).8 == old(fetches).8 && final(fetches).9 == old(fetches).9 && final(fetches).10 == old(fetches).10 && final(fetches).11 == old(fetches).11 && final(fetches).12 == old(fetches).12 && final(fetches).13 == old(fetches).13 && final(fetches).14 == old(fetches).14 && final(fetches).15 == old(fetches).15 && final(fetches).16 == old(fetches).16 && final(fetches).17 == old(fetches).17 && final(fetches).18 == old(fetches).18 && final(fetches).19 == old(fetches).19 && final(fetches).20 == old(fetches).20 && final(fetches).21 == old(fetches).21)
                    || (call_ensures(B::find_mut::<Comp>, (m,), None) && (
                        exists|m: &mut C|
                            *m == old(fetches).2
                            && *final(m) == final(fetches).2
                            && ((found is Some && call_ensures(C::find_mut::<Comp>, (m,), found) && final(fetches).3 == old(fetches).3 && final(fetches).4 == old(fetches).4 && final(fetches).5 == old(fetches).5 && final(fetches).6 == old(fetches).6 && final(fetches).7 == old(fetches).7 && final(fetches).8 == old(fetches).8 && final(fetches).9 == old(fetches).9 && final(fetches).10 == old(fetches).10 && final(fetches).11 == old(fetches).11 && final(fetches).12 == old(fetches).12 && final(fetches).13 == old(fetches).13 && final(fetches).14 == old(fetches).14 && final(fetches).15 == old(fetches).15 && final(fetches).16 == old(fetches).16 && final(fetches).17 == old(fetches).17 && final(fetches).18 == old(fetches).18 && final(fetches).19 == old(fetches).19 && final(fetches).20 == old(fetches).20 && final(fetches).21 == old(fetches).21)
                            || (call_ensures(C::find_mut::<Comp>, (m,), None) && (
                                exists|m: &mut D|
                                    *m == old(fetches).3
                                    && *final(m) == final(fetches).3
                                    && ((found is Some && call_ensures(D::find_mut::<Comp>, (m,), found) && final(fetches).4 == old(fetches).4 && final(fetches).5 == old(fetches).5 && final(fetches).6 == old(fetches).6 && final(fetches).7 == old(fetches).7 && final(fetches).8 == old(fetches).8 && final(fetches).9 == old(fetches).9 && final(fetches).10 == old(fetches).10 && final(fetches).11 == old(fetches).11 && final(fetches).12 == old(fetches).12 && final(fetches).13 == old(fetches).13 && final(fetches).14 == old(fetches).14 && final(fetches).15 == old(fetches).15 && final(fetches).16 == old(fetches).16 && final(fetches).17 == old(fetches).17 && final(fetches).18 == old(fetches).18 && final(fetches).19 == old(fetches).19 && final(fetches).20 == old(fetches).20 && final(fetches).21 == old(fetches).21)
                                    || (call_ensures(D::find_mut::<Comp>, (m,), None) && (
                                        exists|m: &mut E|
                                            *m == old(fetches).4
                                            && *final(m) == final(fetches).4
                                            && ((found is Some && call_ensures(E::find_mut::<Comp>, (m,), found) && final(fetches).5 == old(fetches).5 && final(fetches).6 == old(fetches).6 && final(fetches).7 == old(fetches).7 && final(fetches).8 == old(fetches).8 && final(fetches).9 == old(fetches).9 && final(fetches).10 == old(fetches).10 && final(fetches).11 == old(fetches).11 && final(fetches).12 == old(fetches).12 && final(fetches).13 == old(fetches).13 && final(fetches).14 == old(fetches).14 && final(fetches).15 == old(fetches).15 && final(fetches).16 == old(fetches).16 && final(fetches).17 == old(fetches).17 && final(fetches).18 == old(fetches).18 && final(fetches).19 == old(fetches).19 && final(fetches).20 == old(fetches).20 && final(fetches).21 == old(fetches).21)
                                            || (call_ensures(E::find_mut::<Comp>, (m,), None) && (
                                                exists|m: &mut F|
                                                    *m == old(fetches).5
                                                    && *final(m) == final(fetches).5
                                                    && ((found is Some && call_ensures(F::find_mut::<Comp>, (m,), found) && final(fetches).6 == old(fetches).6 && final(fetches).7 == old(fetches).7 && final(fetches).8 == old(fetches).8 && final(fetches).9 == old(fetches).9 && final(fetches).10 == old(fetches).10 && final(fetches).11 == old(fetches).11 && final(fetches).12 == old(fetches).12 && final(fetches).13 == old(fetches).13 && final(fetches).14 == old(fetches).14 && final(fetches).15 == old(fetches).15 && final(fetches).16 == old(fetches).16 && final(fetches).17 == old(fetches).17 && final(fetches).18 == old(fetches).18 && final(fetches).19 == old(fetches).19 && final(fetches).20 == old(fetches).20 && final(fetches).21 == old(fetches).21)
                                                    || (call_ensures(F::find_mut::<Comp>, (m,), None) && (
                                                        exists|m: &mut G|
                                                            *m == old(fetches).6
                                                            && *final(m) == final(fetches).6
                                                            && ((found is Some && call_ensures(G::find_mut::<Comp>, (m,), found) && final(fetches).7 == old(fetches).7 && final(fetches).8 == old(fetches).8 && final(fetches).9 == old(fetches).9 && final(fetches).10 == old(fetches).10 && final(fetches).11 == old(fetches).11 && final(fetches).12 == old(fetches).12 && final(fetches).13 == old(fetches).13 && final(fetches).14 == old(fetches).14 && final(fetches).15 == old(fetches).15 && final(fetches).16 == old(fetches).16 && final(fetches).17 == old(fetches).17 && final(fetches).18 == old(fetches).18 && final(fetches).19 == old(fetches).19 && final(fetches).20 == old(fetches).20 && final(fetches).21 == old(fetches).21)
                                                            || (call_ensures(G::find_mut::<Comp>, (m,), None) && (
                                                                exists|m: &mut H|
                                                                    *m == old(fetches).7
                                                                    && *final(m) == final(fetches).7
                                                                    && ((found is Some && call_ensures(H::find_mut::<Comp>, (m,), found) && final(fetches).8 == old(fetches).8 && final(fetches).9 == old(fetches).9 && final(fetches).10 == old(fetches).10 && final(fetches).11 == old(fetches).11 && final(fetches).12 == old(fetches).12 && final(fetches).13 == old(fetches).13 && final(fetches).14 == old(fetches).14 && final(fetches).15 == old(fetches).15 && final(fetches).16 == old(fetches).16 && final(fetches).17 == old(fetches).17 && final(fetches).18 == old(fetches).18 && final(fetches).19 == old(fetches).19 && final(fetches).20 == old(fetches).20 && final(fetches).21 == old(fetches).21)
                                                                    || (call_ensures(H::find_mut::<Comp>, (m,), None) && (
                                                                        exists|m: &mut I|
                                                                            *m == old(fetches).8
                                                                            && *final(m) == final(fetches).8
                                                                            && ((found is Some && call_ensures(I::find_mut::<Comp>, (m,), found) && final(fetches).9 == old(fetches).9 && final(fetches).10 == old(fetches).10 && final(fetches).11 == old(fetches).11 && final(fetches).12 == old(fetches).12 && final(fetches).13 == old(fetches).13 && final(fetches).14 == old(fetches).14 && final(fetches).15 == old(fetches).15 && final(fetches).16 == old(fetches).16 && final(fetches).17 == old(fetches).17 && final(fetches).18 == old(fetches).18 && final(fetches).19 == old(fetches).19 && final(fetches).20 == old(fetches).20 && final(fetches).21 == old(fetches).21)
                                                                            || (call_ensures(I::find_mut::<Comp>, (m,), None) && (
                                                                                exists|m: &mut J|
                                                                                    *m == old(fetches).9
                                                                                    && *final(m) == final(fetches).9
                                                                                    && ((found is Some && call_ensures(J::find_mut::<Comp>, (m,), found) && final(fetches).10 == old(fetches).10 && final(fetches).11 == old(fetches).11 && final(fetches).12 == old(fetches).12 && final(fetches).13 == old(fetches).13 && final(fetches).14 == old(fetches).14 && final(fetches).15 == old(fetches).15 && final(fetches).16 == old(fetches).16 && final(fetches).17 == old(fetches).17 && final(fetches).18 == old(fetches).18 && final(fetches).19 == old(fetches).19 && final(fetches).20 == old(fetches).20 && final(fetches).21 == old(fetches).21)
                                                                                    || (call_ensures(J::find_mut::<Comp>, (m,), None) && (
                                                                                        exists|m: &mut K|
                                                                                            *m == old(fetches).10
                                                                                            && *final(m) == final(fetches).10
                                                                                            && ((found is Some && call_ensures(K::find_mut::<Comp>, (m,), found) && final(fetches).11 == old(fetches).11 && final(fetches).12 == old(fetches).12 && final(fetches).13 == old(fetches).13 && final(fetches).14 == old(fetches).14 && final(fetches).15 == old(fetches).15 && final(fetches).16 == old(fetches).16 && final(fetches).17 == old(fetches).17 && final(fetches).18 == old(fetches).18 && final(fetches).19 == old(fetches).19 && final(fetches).20 == old(fetches).20 && final(fetches).21 == old(fetches).21)
                                                                                            || (call_ensures(K::find_mut::<Comp>, (m,), None) && (
                                                                                                exists|m: &mut L|
                                                                                                    *m == old(fetches).11
                                                                                                    && *final(m) == final(fetches).11
                                                                                                    && ((found is Some && call_ensures(L::find_mut::<Comp>, (m,), found) && final(fetches).12 == old(fetches).12 && final(fetches).13 == old(fetches).13 && final(fetches).14 == old(fetches).14 && final(fetches).15 == old(fetches).15 && final(fetches).16 == old(fetches).16 && final(fetches).17 == old(fetches).17 && final(fetches).18 == old(fetches).18 && final(fetches).19 == old(fetches).19 && final(fetches).20 == old(fetches).20 && final(fetches).21 == old(fetches).21)
                                                                                                    || (call_ensures(L::find_mut::<Comp>, (m,), None) && (
                                                                                                        exists|m: &mut M|
                                                                                                            *m == old(fetches).12
                                                                                                            && *final(m) == final(fetches).12
                                                                                                            && ((found is Some && call_ensures(M::find_mut::<Comp>, (m,), found) && final(fetches).13 == old(fetches).13 && final(fetches).14 == old(fetches).14 && final(fetches).15 == old(fetches).15 && final(fetches).16 == old(fetches).16 && final(fetches).17 == old(fetches).17 && final(fetches).18 == old(fetches).18 && final(fetches).19 == old(fetches).19 && final(fetches).20 == old(fetches).20 && final(fetches).21 == old(fetches).21)
                                                                                                            || (call_ensures(M::find_mut::<Comp>, (m,), None) && (
                                                                                                                exists|m: &mut N|
                                                                                                                    *m == old(fetches).13
                                                                                                                    && *final(m) == final(fetches).13
                                                                                                                    && ((found is Some && call_ensures(N::find_mut::<Comp>, (m,), found) && final(fetches).14 == old(fetches).14 && final(fetches).15 == old(fetches).15 && final(fetches).16 == old(fetches).16 && final(fetches).17 == old(fetches).17 && final(fetches).18 == old(fetches).18 && final(fetches).19 == old(fetches).19 && final(fetches).20 == old(fetches).20 && final(fetches).21 == old(fetches).21)
                                                                                                                    || (call_ensures(N::find_mut::<Comp>, (m,), None) && (
                                                                                                                        exists|m: &mut O|
                                                                                                                            *m == old(fetches).14
                                                                                                                            && *final(m) == final(fetches).14
                                                                                                                            && ((found is Some && call_ensures(O::find_mut::<Comp>, (m,), found) && final(fetches).15 == old(fetches).15 && final(fetches).16 == old(fetches).16 && final(fetches).17 == old(fetches).17 && final(fetches).18 == old(fetches).18 && final(fetches).19 == old(fetches).19 && final(fetches).20 == old(fetches).20 && final(fetches).21 == old(fetches).21)
                                                                                                                            || (call_ensures(O::find_mut::<Comp>, (m,), None) && (
                                                                                                                                exists|m: &mut P|
                                                                                                                                    *m == old(fetches).15
                                                                                                                                    && *final(m) == final(fetches).15
                                                                                                                                    && ((found is Some && call_ensures(P::find_mut::<Comp>, (m,), found) && final(fetches).16 == old(fetches).16 && final(fetches).17 == old(fetches).17 && final(fetches).18 == old(fetches).18 && final(fetches).19 == old(fetches).19 && final(fetches).20 == old(fetches).20 && final(fetches).21 == old(fetches).21)
                                                                                                                                    || (call_ensures(P::find_mut::<Comp>, (m,), None) && (
                                                                                                                                        exists|m: &mut Q|
                                                                                                                                            *m == old(fetches).16
                                                                                                                                            && *final(m) == final(fetches).16
                                                                                                                                            && ((found is Some && call_ensures(Q::find_mut::<Comp>, (m,), found) && final(fetches).17 == old(fetches).17 && final(fetches).18 == old(fetches).18 && final(fetches).19 == old(fetches).19 && final(fetches).20 == old(fetches).20 && final(fetches).21 == old(fetches).21)
                                                                                                                                            || (call_ensures(Q::find_mut::<Comp>, (m,), None) && (
                                                                                                                                                exists|m: &mut R|
                                                                                                                                                    *m == old(fetches).17
                                                                                                                                                    && *final(m) == final(fetches).17
                                                                                                                                                    && ((found is Some && call_ensures(R::find_mut::<Comp>, (m,), found) && final(fetches).18 == old(fetches).18 && final(fetches).19 == old(fetches).19 && final(fetches).20 == old(fetches).20 && final(fetches).21 == old(fetches).21)
                                                                                                                                                    || (call_ensures(R::find_mut::<Comp>, (m,), None) && (
                                                                                                                                                        exists|m: &mut S|
                                                                                                                                                            *m == old(fetches).18
                                                                                                                                                            && *final(m) == final(fetches).18
                                                                                                                                                            && ((found is Some && call_ensures(S::find_mut::<Comp>, (m,), found) && final(fetches).19 == old(fetches).19 && final(fetches).20 == old(fetches).20 && final(fetches).21 == old(fetches).21)
                                                                                                                                                            || (call_ensures(S::find_mut::<Comp>, (m,), None) && (
                                                                                                                                                                exists|m: &mut T|
                                                                                                                                                                    *m == old(fetches).19
                                                                                                                                                                    && *final(m) == final(fetches).19
                                                                                                                                                                    && ((found is Some && call_ensures(T::find_mut::<Comp>, (m,), found) && final(fetches).20 == old(fetches).20 && final(fetches).21 == old(fetches).21)
                                                                                                                                                                    || (call_ensures(T::find_mut::<Comp>, (m,), None) && (
                                                                                                                                                                        exists|m: &mut U|
                                                                                                                                                                            *m == old(fetches).20
                                                                                                                                                                            && *final(m) == final(fetches).20
                                                                                                                                                                            && ((found is Some && call_ensures(U::find_mut::<Comp>, (m,), found) && final(fetches).21 == old(fetches).21)
                                                                                                                                                                            || (call_ensures(U::find_mut::<Comp>, (m,), None) && (
                                                                                                                                                                                exists|m: &mut V|
                                                                                                                                                                                    *m == old(fetches).21
                                                                                                                                                                                    && *final(m) == final(fetches).21
                                                                                                                                                                                    && call_ensures(V::find_mut::<Comp>, (m,), found)))))))))))))))))))))))))))))))))))))))))))))))))))))))))))))))),
{
    let found = (A::find_mut::<Comp>)(&mut fetches.0);
    if found.is_some() {
        return found;
    }
    let found = (B::find_mut::<Comp>)(&mut fetches.1);
    if found.is_some() {
        return found;
    }
    let found = (C::find_mut::<Comp>)(&mut fetches.2);
    if found.is_some() {
        return found;
    }
    let found = (D::find_mut::<Comp>)(&mut fetches.3);
    if found.is_some() {
        return found;
    }
    let found = (E::find_mut::<Comp>)(&mut fetches.4);
    if found.is_some() {
        return found;
    }
    let found = (F::find_mut::<Comp>)(&mut fetches.5);
    if found.is_some() {
        return found;
    }
    let found = (G::find_mut::<Comp>)(&mut fetches.6);
    if found.is_some() {
        return found;
    }
    let found = (H::find_mut::<Comp>)(&mut fetches.7);
    if found.is_some() {
        return found;
    }
    let found = (I::find_mut::<Comp>)(&mut fetches.8);
    if found.is_some() {
        return found;
    }
    let found = (J::find_mut::<Comp>)(&mut fetches.9);
    if found.is_some() {
        return found;
    }
    let found = (K::find_mut::<Comp>)(&mut fetches.10);
    if found.is_some() {
        return found;
    }
    let found = (L::find_mut::<Comp>)(&mut fetches.11);
    if found.is_some() {
        return found;
    }
    let found = (M::find_mut::<Comp>)(&mut fetches.12);
    if found.is_some() {
        return found;
    }
    let found = (N::find_mut::<Comp>)(&mut fetches.13);
    if found.is_some() {
        return found;
    }
    let found = (O::find_mut::<Comp>)(&mut fetches.14);
    if found.is_some() {
        return found;
    }
    let found = (P::find_mut::<Comp>)(&mut fetches.15);
    if found.is_some() {
        return found;
    }
    let found = (Q::find_mut::<Comp>)(&mut fetches.16);
    if found.is_some() {
        return found;
    }
    let found = (R::find_mut::<Comp>)(&mut fetches.17);
    if found.is_some() {
        return found;
    }
    let found = (S::find_mut::<Comp>)(&mut fetches.18);
    if found.is_some() {
        return found;
    }
    let found = (T::find_mut::<Comp>)(&mut fetches.19);
    if found.is_some() {
        return found;
    }
    let found = (U::find_mut::<Comp>)(&mut fetches.20);
    if found.is_some() {
        return found;
    }
    (V::find_mut::<Comp>)(&mut fetches.21)
}

/// The version of `Comp` in the first fetch of a tuple of 22 that holds it.
pub fn tuple22_version<A: Fetch, B: Fetch, C: Fetch, D: Fetch, E: Fetch, F: Fetch, G: Fetch, H: Fetch, I: Fetch, J: Fetch, K: Fetch, L: Fetch, M: Fetch, N: Fetch, O: Fetch, P: Fetch, Q: Fetch, R: Fetch, S: Fetch, T: Fetch, U: Fetch, V: Fetch, Comp: Component>(fetches: &(A, B, C, D, E, F, G, H, I, J, K, L, M, N, O, P, Q, R, S, T, U, V)) -> (version: Option<u64>)
    ensures
        (version is Some && call_ensures(A::version::<Comp>, (&fetches.0,), version))
        || (call_ensures(A::version::<Comp>, (&fetches.0,), None) && (
            (version is Some && call_ensures(B::version::<Comp>, (&fetches.1,), version))
            || (call_ensures(B::version::<Comp>, (&fetches.1,), None) && (
                (version is Some && call_ensures(C::version::<Comp>, (&fetches.2,), version))
                || (call_ensures(C::version::<Comp>, (&fetches.2,), None) && (
                    (version is Some && call_ensures(D::version::<Comp>, (&fetches.3,), version))
                    || (call_ensures(D::version::<Comp>, (&fetches.3,), None) && (
                        (version is Some && call_ensures(E::version::<Comp>, (&fetches.4,), version))
                        || (call_ensures(E::version::<Comp>, (&fetches.4,), None) && (
                            (version is Some && call_ensures(F::version::<Comp>, (&fetches.5,), version))
                            || (call_ensures(F::version::<Comp>, (&fetches.5,), None) && (
                                (version is Some && call_ensures(G::version::<Comp>, (&fetches.6,), version))
                                || (call_ensures(G::version::<Comp>, (&fetches.6,), None) && (
                                    (version is Some && call_ensures(H::version::<Comp>, (&fetches.7,), version))
                                    || (call_ensures(H::version::<Comp>, (&fetches.7,), None) && (
                                        (version is Some && call_ensures(I::version::<Comp>, (&fetches.8,), version))
                                        || (call_ensures(I::version::<Comp>, (&fetches.8,), None) && (
                                            (version is Some && call_ensures(J::version::<Comp>, (&fetches.9,), version))
                                            || (call_ensures(J::version::<Comp>, (&fetches.9,), None) && (
                                                (version is Some && call_ensures(K::version::<Comp>, (&fetches.10,), version))
                                                || (call_ensures(K::version::<Comp>, (&fetches.10,), None) && (
                                                    (version is Some && call_ensures(L::version::<Comp>, (&fetches.11,), version))
                                                    || (call_ensures(L::version::<Comp>, (&fetches.11,), None) && (
                                                        (version is Some && call_ensures(M::version::<Comp>, (&fetches.12,), version))
                                                        || (call_ensures(M::version::<Comp>, (&fetches.12,), None) && (
                                                            (version is Some && call_ensures(N::version::<Comp>, (&fetches.13,), version))
                                                            || (call_ensures(N::version::<Comp>, (&fetches.13,), None) && (
                                                                (version is Some && call_ensures(O::version::<Comp>, (&fetches.14,), version))
                                                                || (call_ensures(O::version::<Comp>, (&fetches.14,), None) && (
                                                                    (version is Some && call_ensures(P::version::<Comp>, (&fetches.15,), version))
                                                                    || (call_ensures(P::version::<Comp>, (&fetches.15,), None) && (
                                                                        (version is Some && call_ensures(Q::version::<Comp>, (&fetches.16,), version))
                                                                        || (call_ensures(Q::version::<Comp>, (&fetches.16,), None) && (
                                                                            (version is Some && call_ensures(R::version::<Comp>, (&fetches.17,), version))
                                                                            || (call_ensures(R::version::<Comp>, (&fetches.17,), None) && (
                                                                                (version is Some && call_ensures(S::version::<Comp>, (&fetches.18,), version))
                                                                                || (call_ensures(S::version::<Comp>, (&fetches.18,), None) && (
                                                                                    (version is Some && call_ensures(T::version::<Comp>, (&fetches.19,), version))
                                                                                    || (call_ensures(T::version::<Comp>, (&fetches.19,), None) && (
                                                                                        (version is Some && call_ensures(U::version::<Comp>, (&fetches.20,), version))
                                                                                        || (call_ensures(U::version::<Comp>, (&fetches.20,), None) && (
                                                                                            call_ensures(V::version::<Comp>, (&fetches.21,), version))))))))))))))))))))))))))))))))))))))))))),
{
    let (a, b, c, d, e, f, g, h, i, j, k, l, m, n, o, p, q, r, s, t, u, v) = fetches;
    if let Some(version) = (A::version::<Comp>)(a) {
        return Some(version);
    }
    if let Some(version) = (B::version::<Comp>)(b) {
        return Some(version);
    }
    if let Some(version) = (C::version::<Comp>)(c) {
        return Some(version);
    }
    if let Some(version) = (D::version::<Comp>)(d) {
        return Some(version);
    }
    if let Some(version) = (E::version::<Comp>)(e) {
        return Some(version);
    }
    if let Some(version) = (F::version::<Comp>)(f) {
        return Some(version);
    }
    if let Some(version) = (G::version::<Comp>)(g) {
        return Some(version);
    }
    if let Some(version) = (H::version::<Comp>)(h) {
        return Some(version);
    }
    if let Some(version) = (I::version::<Comp>)(i) {
        return Some(version);
    }
    if let Some(version) = (J::version::<Comp>)(j) {
        return Some(version);
    }
    if let Some(version) = (K::version::<Comp>)(k) {
        return Some(version);
    }
    if let Some(version) = (L::version::<Comp>)(l) {
        return Some(version);
    }
    if let Some(version) = (M::version::<Comp>)(m) {
        return Some(version);
    }
    if let Some(version) = (N::version::<Comp>)(n) {
        return Some(version);
    }
    if let Some(version) = (O::version::<Comp>)(o) {
        return Some(version);
    }
    if let Some(version) = (P::version::<Comp>)(p) {
        return Some(version);
    }
    if let Some(version) = (Q::version::<Comp>)(q) {
        return Some(version);
    }
    if let Some(version) = (R::version::<Comp>)(r) {
        return Some(version);
    }
    if let Some(version) = (S::version::<Comp>)(s) {
        return Some(version);
    }
    if let Some(version) = (T::version::<Comp>)(t) {
        return Some(version);
    }
    if let Some(version) = (U::version::<Comp>)(u) {
        return Some(version);
    }
    (V::version::<Comp>)(v)
}

// Tuples of 23 views.

impl<A: DefaultFilter, B: DefaultFilter, C: DefaultFilter, D: DefaultFilter, E: DefaultFilter, F: DefaultFilter, G: DefaultFilter, H: DefaultFilter, I: DefaultFilter, J: DefaultFilter, K: DefaultFilter, L: DefaultFilter, M: DefaultFilter, N: DefaultFilter, O: DefaultFilter, P: DefaultFilter, Q: DefaultFilter, R: DefaultFilter, S: DefaultFilter, T: DefaultFilter, U: DefaultFilter, V: DefaultFilter, W: DefaultFilter> DefaultFilter for (A, B, C, D, E, F, G, H, I, J, K, L, M, N, O, P, Q, R, S, T, U, V, W) {
    type Filter = (A::Filter, B::Filter, C::Filter, D::Filter, E::Filter, F::Filter, G::Filter, H::Filter, I::Filter, J::Filter, K::Filter, L::Filter, M::Filter, N::Filter, O::Filter, P::Filter, Q::Filter, R::Filter, S::Filter, T::Filter, U::Filter, V::Filter, W::Filter);
}

impl<'a, A: View<'a> + 'a, B: View<'a> + 'a, C: View<'a> + 'a, D: View<'a> + 'a, E: View<'a> + 'a, F: View<'a> + 'a, G: View<'a> + 'a, H: View<'a> + 'a, I: View<'a> + 'a, J: View<'a> + 'a, K: View<'a> + 'a, L: View<'a> + 'a, M: View<'a> + 'a, N: View<'a> + 'a, O: View<'a> + 'a, P: View<'a> + 'a, Q: View<'a> + 'a, R: View<'a> + 'a, S: View<'a> + 'a, T: View<'a> + 'a, U: View<'a> + 'a, V: View<'a> + 'a, W: View<'a> + 'a> View<'a> for (A, B, C, D, E, F, G, H, I, J, K, L, M, N, O, P, Q, R, S, T, U, V, W) {
    type Element = <Self::Fetch as IntoIndexableIter>::Item;
    type Fetch = MultiFetch<'a, (A::Fetch, B::Fetch, C::Fetch, D::Fetch, E::Fetch, F::Fetch, G::Fetch, H::Fetch, I::Fetch, J::Fetch, K::Fetch, L::Fetch, M::Fetch, N::Fetch, O::Fetch, P::Fetch, Q::Fetch, R::Fetch, S::Fetch, T::Fetch, U::Fetch, V::Fetch, W::Fetch)>;

    fn validate() -> (valid: bool)
        ensures
            exists|reads: Seq<Vec<ComponentTypeId>>, writes: Seq<Vec<ComponentTypeId>>|
                reads.len() == 23 && writes.len() == 23
                && call_ensures(A::reads_types, (), reads[0])
                && call_ensures(A::writes_types, (), writes[0])
                && call_ensures(B::reads_types, (), reads[1])
                && call_ensures(B::writes_types, (), writes[1])
                && call_ensures(C::reads_types, (), reads[2])
                && call_ensures(C::writes_types, (), writes[2])
                && call_ensures(D::reads_types, (), reads[3])
                && call_ensures(D::writes_types, (), writes[3])
                && call_ensures(E::reads_types, (), reads[4])
                && call_ensures(E::writes_types, (), writes[4])
                && call_ensures(F::reads_types, (), reads[5])
                && call_ensures(F::writes_types, (), writes[5])
                && call_ensures(G::reads_types, (), reads[6])
                && call_ensures(G::writes_types, (), writes[6])
                && call_ensures(H::reads_types, (), reads[7])
                && call_ensures(H::writes_types, (), writes[7])
                && call_ensures(I::reads_types, (), reads[8])
                && call_ensures(I::writes_types, (), writes[8])
                && call_ensures(J::reads_types, (), reads[9])
                && call_ensures(J::writes_types, (), writes[9])
                && call_ensures(K::reads_types, (), reads[10])
                && call_ensures(K::writes_types, (), writes[10])
                && call_ensures(L::reads_types, (), reads[11])
                && call_ensures(L::writes_types, (), writes[11])
                && call_ensures(M::reads_types, (), reads[12])
                && call_ensures(M::writes_types, (), writes[12])
                && call_ensures(N::reads_types, (), reads[13])
                && call_ensures(N::writes_types, (), writes[13])
                && call_ensures(O::reads_types, (), reads[14])
                && call_ensures(O::writes_types, (), writes[14])
                && call_ensures(P::reads_types, (), reads[15])
                && call_ensures(P::writes_types, (), writes[15])
                && call_ensures(Q::reads_types, (), reads[16])
                && call_ensures(Q::writes_types, (), writes[16])
                && call_ensures(R::reads_types, (), reads[17])
                && call_ensures(R::writes_types, (), writes[17])
                && call_ensures(S::reads_types, (), reads[18])
                && call_ensures(S::writes_types, (), writes[18])
                && call_ensures(T::reads_types, (), reads[19])
                && call_ensures(T::writes_types, (), writes[19])
                && call_ensures(U::reads_types, (), reads[20])
                && call_ensures(U::writes_types, (), writes[20])
                && call_ensures(V::reads_types, (), reads[21])
                && call_ensures(V::writes_types, (), writes[21])
                && call_ensures(W::reads_types, (), reads[22])
                && call_ensures(W::writes_types, (), writes[22])
                && valid == conflict_free(type_lists(reads), type_lists(writes)),
    {
        let reads = vec![(A::reads_types)(), (B::reads_types)(), (C::reads_types)(), (D::reads_types)(), (E::reads_types)(), (F::reads_types)(), (G::reads_types)(), (H::reads_types)(), (I::reads_types)(), (J::reads_types)(), (K::reads_types)(), (L::reads_types)(), (M::reads_types)(), (N::reads_types)(), (O::reads_types)(), (P::reads_types)(), (Q::reads_types)(), (R::reads_types)(), (S::reads_types)(), (T::reads_types)(), (U::reads_types)(), (V::reads_types)(), (W::reads_types)()];
        let writes = vec![(A::writes_types)(), (B::writes_types)(), (C::writes_types)(), (D::writes_types)(), (E::writes_types)(), (F::writes_types)(), (G::writes_types)(), (H::writes_types)(), (I::writes_types)(), (J::writes_types)(), (K::writes_types)(), (L::writes_types)(), (M::writes_types)(), (N::writes_types)(), (O::writes_types)(), (P::writes_types)(), (Q::writes_types)(), (R::writes_types)(), (S::writes_types)(), (T::writes_types)(), (U::writes_types)(), (V::writes_types)(), (W::writes_types)()];
        let valid = accesses_conflict_free(&reads, &writes);
        assert(
            reads@.len() == 23 && writes@.len() == 23
            && call_ensures(A::reads_types, (), reads@[0])
            && call_ensures(A::writes_types, (), writes@[0])
            && call_ensures(B::reads_types, (), reads@[1])
            && call_ensures(B::writes_types, (), writes@[1])
            && call_ensures(C::reads_types, (), reads@[2])
            && call_ensures(C::writes_types, (), writes@[2])
            && call_ensures(D::reads_types, (), reads@[3])
            && call_ensures(D::writes_types, (), writes@[3])
            && call_ensures(E::reads_types, (), reads@[4])
            && call_ensures(E::writes_types, (), writes@[4])
            && call_ensures(F::reads_types, (), reads@[5])
            && call_ensures(F::writes_types, (), writes@[5])
            && call_ensures(G::reads_types, (), reads@[6])
            && call_ensures(G::writes_types, (), writes@[6])
            && call_ensures(H::reads_types, (), reads@[7])
            && call_ensures(H::writes_types, (), writes@[7])
            && call_ensures(I::reads_types, (), reads@[8])
            && call_ensures(I::writes_types, (), writes@[8])
            && call_ensures(J::reads_types, (), reads@[9])
            && call_ensures(J::writes_types, (), writes@[9])
            && call_ensures(K::reads_types, (), reads@[10])
            && call_ensures(K::writes_types, (), writes@[10])
            && call_ensures(L::reads_types, (), reads@[11])
            && call_ensures(L::writes_types, (), writes@[11])
            && call_ensures(M::reads_types, (), reads@[12])
            && call_ensures(M::writes_types, (), writes@[12])
            && call_ensures(N::reads_types, (), reads@[13])
            && call_ensures(N::writes_types, (), writes@[13])
            && call_ensures(O::reads_types, (), reads@[14])
            && call_ensures(O::writes_types, (), writes@[14])
            && call_ensures(P::reads_types, (), reads@[15])
            && call_ensures(P::writes_types, (), writes@[15])
            && call_ensures(Q::reads_types, (), reads@[16])
            && call_ensures(Q::writes_types, (), writes@[16])
            && call_ensures(R::reads_types, (), reads@[17])
            && call_ensures(R::writes_types, (), writes@[17])
            && call_ensures(S::reads_types, (), reads@[18])
            && call_ensures(S::writes_types, (), writes@[18])
            && call_ensures(T::reads_types, (), reads@[19])
            && call_ensures(T::writes_types, (), writes@[19])
            && call_ensures(U::reads_types, (), reads@[20])
            && call_ensures(U::writes_types, (), writes@[20])
            && call_ensures(V::reads_types, (), reads@[21])
            && call_ensures(V::writes_types, (), writes@[21])
            && call_ensures(W::reads_types, (), reads@[22])
            && call_ensures(W::writes_types, (), writes@[22])
            && valid == conflict_free(type_lists(reads@), type_lists(writes@))
        );
        valid
    }

    fn reads_types() -> (types: Vec<ComponentTypeId>)
        ensures
            exists|lists: Seq<Vec<ComponentTypeId>>|
                lists.len() == 23
                && call_ensures(A::reads_types, (), lists[0])
                && call_ensures(B::reads_types, (), lists[1])
                && call_ensures(C::reads_types, (), lists[2])
                && call_ensures(D::reads_types, (), lists[3])
                && call_ensures(E::reads_types, (), lists[4])
                && call_ensures(F::reads_types, (), lists[5])
                && call_ensures(G::reads_types, (), lists[6])
                && call_ensures(H::reads_types, (), lists[7])
                && call_ensures(I::reads_types, (), lists[8])
                && call_ensures(J::reads_types, (), lists[9])
                && call_ensures(K::reads_types, (), lists[10])
                && call_ensures(L::reads_types, (), lists[11])
                && call_ensures(M::reads_types, (), lists[12])
                && call_ensures(N::reads_types, (), lists[13])
                && call_ensures(O::reads_types, (), lists[14])
                && call_ensures(P::reads_types, (), lists[15])
                && call_ensures(Q::reads_types, (), lists[16])
                && call_ensures(R::reads_types, (), lists[17])
                && call_ensures(S::reads_types, (), lists[18])
                && call_ensures(T::reads_types, (), lists[19])
                && call_ensures(U::reads_types, (), lists[20])
                && call_ensures(V::reads_types, (), lists[21])
                && call_ensures(W::reads_types, (), lists[22])
                && types@ == type_lists(lists).flatten(),
    {
        let lists = vec![(A::reads_types)(), (B::reads_types)(), (C::reads_types)(), (D::reads_types)(), (E::reads_types)(), (F::reads_types)(), (G::reads_types)(), (H::reads_types)(), (I::reads_types)(), (J::reads_types)(), (K::reads_types)(), (L::reads_types)(), (M::reads_types)(), (N::reads_types)(), (O::reads_types)(), (P::reads_types)(), (Q::reads_types)(), (R::reads_types)(), (S::reads_types)(), (T::reads_types)(), (U::reads_types)(), (V::reads_types)(), (W::reads_types)()];
        let ghost views = lists@;
        let types = concat_types(lists);
        assert(
            views.len() == 23
            && call_ensures(A::reads_types, (), views[0])
            && call_ensures(B::reads_types, (), views[1])
            && call_ensures(C::reads_types, (), views[2])
            && call_ensures(D::reads_types, (), views[3])
            && call_ensures(E::reads_types, (), views[4])
            && call_ensures(F::reads_types, (), views[5])
            && call_ensures(G::reads_types, (), views[6])
            && call_ensures(H::reads_types, (), views[7])
            && call_ensures(I::reads_types, (), views[8])
            && call_ensures(J::reads_types, (), views[9])
            && call_ensures(K::reads_types, (), views[10])
            && call_ensures(L::reads_types, (), views[11])
            && call_ensures(M::reads_types, (), views[12])
            && call_ensures(N::reads_types, (), views[13])
            && call_ensures(O::reads_types, (), views[14])
            && call_ensures(P::reads_types, (), views[15])
            && call_ensures(Q::reads_types, (), views[16])
            && call_ensures(R::reads_types, (), views[17])
            && call_ensures(S::reads_types, (), views[18])
            && call_ensures(T::reads_types, (), views[19])
            && call_ensures(U::reads_types, (), views[20])
            && call_ensures(V::reads_types, (), views[21])
            && call_ensures(W::reads_types, (), views[22])
            && types@ == type_lists(views).flatten()
        );
        types
    }

    fn writes_types() -> (types: Vec<ComponentTypeId>)
        ensures
            exists|lists: Seq<Vec<ComponentTypeId>>|
                lists.len() == 23
                && call_ensures(A::writes_types, (), lists[0])
                && call_ensures(B::writes_types, (), lists[1])
                && call_ensures(C::writes_types, (), lists[2])
                && call_ensures(D::writes_types, (), lists[3])
                && call_ensures(E::writes_types, (), lists[4])
                && call_ensures(F::writes_types, (), lists[5])
                && call_ensures(G::writes_types, (), lists[6])
                && call_ensures(H::writes_types, (), lists[7])
                && call_ensures(I::writes_types, (), lists[8])
                && call_ensures(J::writes_types, (), lists[9])
                && call_ensures(K::writes_types, (), lists[10])
                && call_ensures(L::writes_types, (), lists[11])
                && call_ensures(M::writes_types, (), lists[12])
                && call_ensures(N::writes_types, (), lists[13])
                && call_ensures(O::writes_types, (), lists[14])
                && call_ensures(P::writes_types, (), lists[15])
                && call_ensures(Q::writes_types, (), lists[16])
                && call_ensures(R::writes_types, (), lists[17])
                && call_ensures(S::writes_types, (), lists[18])
                && call_ensures(T::writes_types, (), lists[19])
                && call_ensures(U::writes_types, (), lists[20])
                && call_ensures(V::writes_types, (), lists[21])
                && call_ensures(W::writes_types, (), lists[22])
                && types@ == type_lists(lists).flatten(),
    {
        let lists = vec![(A::writes_types)(), (B::writes_types)(), (C::writes_types)(), (D::writes_types)(), (E::writes_types)(), (F::writes_types)(), (G::writes_types)(), (H::writes_types)(), (I::writes_types)(), (J::writes_types)(), (K::writes_types)(), (L::writes_types)(), (M::writes_types)(), (N::writes_types)(), (O::writes_types)(), (P::writes_types)(), (Q::writes_types)(), (R::writes_types)(), (S::writes_types)(), (T::writes_types)(), (U::writes_types)(), (V::writes_types)(), (W::writes_types)()];
        let ghost views = lists@;
        let types = concat_types(lists);
        assert(
            views.len() == 23
            && call_ensures(A::writes_types, (), views[0])
            && call_ensures(B::writes_types, (), views[1])
            && call_ensures(C::writes_types, (), views[2])
            && call_ensures(D::writes_types, (), views[3])
            && call_ensures(E::writes_types, (), views[4])
            && call_ensures(F::writes_types, (), views[5])
            && call_ensures(G::writes_types, (), views[6])
            && call_ensures(H::writes_types, (), views[7])
            && call_ensures(I::writes_types, (), views[8])
            && call_ensures(J::writes_types, (), views[9])
            && call_ensures(K::writes_types, (), views[10])
            && call_ensures(L::writes_types, (), views[11])
            && call_ensures(M::writes_types, (), views[12])
            && call_ensures(N::writes_types, (), views[13])
            && call_ensures(O::writes_types, (), views[14])
            && call_ensures(P::writes_types, (), views[15])
            && call_ensures(Q::writes_types, (), views[16])
            && call_ensures(R::writes_types, (), views[17])
            && call_ensures(S::writes_types, (), views[18])
            && call_ensures(T::writes_types, (), views[19])
            && call_ensures(U::writes_types, (), views[20])
            && call_ensures(V::writes_types, (), views[21])
            && call_ensures(W::writes_types, (), views[22])
            && types@ == type_lists(views).flatten()
        );
        types
    }

    fn reads<Comp: Component>() -> bool {
        tuple23_reads::<'a, A, B, C, D, E, F, G, H, I, J, K, L, M, N, O, P, Q, R, S, T, U, V, W, Comp>()
    }

    fn writes<Comp: Component>() -> bool {
        tuple23_writes::<'a, A, B, C, D, E, F, G, H, I, J, K, L, M, N, O, P, Q, R, S, T, U, V, W, Comp>()
    }
}

impl<'a, A: Fetch, B: Fetch, C: Fetch, D: Fetch, E: Fetch, F: Fetch, G: Fetch, H: Fetch, I: Fetch, J: Fetch, K: Fetch, L: Fetch, M: Fetch, N: Fetch, O: Fetch, P: Fetch, Q: Fetch, R: Fetch, S: Fetch, T: Fetch, U: Fetch, V: Fetch, W: Fetch> IntoIndexableIter for MultiFetch<'a, (A, B, C, D, E, F, G, H, I, J, K, L, M, N, O, P, Q, R, S, T, U, V, W)> {
    type Item = (A::Item, B::Item, C::Item, D::Item, E::Item, F::Item, G::Item, H::Item, I::Item, J::Item, K::Item, L::Item, M::Item, N::Item, O::Item, P::Item, Q::Item, R::Item, S::Item, T::Item, U::Item, V::Item, W::Item);
    type IntoIter = (A::IntoIter, B::IntoIter, C::IntoIter, D::IntoIter, E::IntoIter, F::IntoIter, G::IntoIter, H::IntoIter, I::IntoIter, J::IntoIter, K::IntoIter, L::IntoIter, M::IntoIter, N::IntoIter, O::IntoIter, P::IntoIter, Q::IntoIter, R::IntoIter, S::IntoIter, T::IntoIter, U::IntoIter, V::IntoIter, W::IntoIter);

    fn into_indexable_iter(self) -> (iter: Self::IntoIter)
        ensures
            call_ensures(A::into_indexable_iter, (self.fetches().0,), iter.0),
            call_ensures(B::into_indexable_iter, (self.fetches().1,), iter.1),
            call_ensures(C::into_indexable_iter, (self.fetches().2,), iter.2),
            call_ensures(D::into_indexable_iter, (self.fetches().3,), iter.3),
            call_ensures(E::into_indexable_iter, (self.fetches().4,), iter.4),
            call_ensures(F::into_indexable_iter, (self.fetches().5,), iter.5),
            call_ensures(G::into_indexable_iter, (self.fetches().6,), iter.6),
            call_ensures(H::into_indexable_iter, (self.fetches().7,), iter.7),
            call_ensures(I::into_indexable_iter, (self.fetches().8,), iter.8),
            call_ensures(J::into_indexable_iter, (self.fetches().9,), iter.9),
            call_ensures(K::into_indexable_iter, (self.fetches().10,), iter.10),
            call_ensures(L::into_indexable_iter, (self.fetches().11,), iter.11),
            call_ensures(M::into_indexable_iter, (self.fetches().12,), iter.12),
            call_ensures(N::into_indexable_iter, (self.fetches().13,), iter.13),
            call_ensures(O::into_indexable_iter, (self.fetches().14,), iter.14),
            call_ensures(P::into_indexable_iter, (self.fetches().15,), iter.15),
            call_ensures(Q::into_indexable_iter, (self.fetches().16,), iter.16),
            call_ensures(R::into_indexable_iter, (self.fetches().17,), iter.17),
            call_ensures(S::into_indexable_iter, (self.fetches().18,), iter.18),
            call_ensures(T::into_indexable_iter, (self.fetches().19,), iter.19),
            call_ensures(U::into_indexable_iter, (self.fetches().20,), iter.20),
            call_ensures(V::into_indexable_iter, (self.fetches().21,), iter.21),
            call_ensures(W::into_indexable_iter, (self.fetches().22,), iter.22),
    {
        let (a, b, c, d, e, f, g, h, i, j, k, l, m, n, o, p, q, r, s, t, u, v, w) = self.fetches;
        ((A::into_indexable_iter)(a), (B::into_indexable_iter)(b), (C::into_indexable_iter)(c), (D::into_indexable_iter)(d), (E::into_indexable_iter)(e), (F::into_indexable_iter)(f), (G::into_indexable_iter)(g), (H::into_indexable_iter)(h), (I::into_indexable_iter)(i), (J::into_indexable_iter)(j), (K::into_indexable_iter)(k), (L::into_indexable_iter)(l), (M::into_indexable_iter)(m), (N::into_indexable_iter)(n), (O::into_indexable_iter)(o), (P::into_indexable_iter)(p), (Q::into_indexable_iter)(q), (R::into_indexable_iter)(r), (S::into_indexable_iter)(s), (T::into_indexable_iter)(t), (U::into_indexable_iter)(u), (V::into_indexable_iter)(v), (W::into_indexable_iter)(w))
    }
}

impl<'a, A: Fetch, B: Fetch, C: Fetch, D: Fetch, E: Fetch, F: Fetch, G: Fetch, H: Fetch, I: Fetch, J: Fetch, K: Fetch, L: Fetch, M: Fetch, N: Fetch, O: Fetch, P: Fetch, Q: Fetch, R: Fetch, S: Fetch, T: Fetch, U: Fetch, V: Fetch, W: Fetch> Fetch for MultiFetch<'a, (A, B, C, D, E, F, G, H, I, J, K, L, M, N, O, P, Q, R, S, T, U, V, W)> {
    type Data = (A::Data, B::Data, C::Data, D::Data, E::Data, F::Data, G::Data, H::Data, I::Data, J::Data, K::Data, L::Data, M::Data, N::Data, O::Data, P::Data, Q::Data, R::Data, S::Data, T::Data, U::Data, V::Data, W::Data);

    fn into_components(self) -> (data: Self::Data)
        ensures
            call_ensures(A::into_components, (self.fetches().0,), data.0),
            call_ensures(B::into_components, (self.fetches().1,), data.1),
            call_ensures(C::into_components, (self.fetches().2,), data.2),
            call_ensures(D::into_components, (self.fetches().3,), data.3),
            call_ensures(E::into_components, (self.fetches().4,), data.4),
            call_ensures(F::into_components, (self.fetches().5,), data.5),
            call_ensures(G::into_components, (self.fetches().6,), data.6),
            call_ensures(H::into_components, (self.fetches().7,), data.7),
            call_ensures(I::into_components, (self.fetches().8,), data.8),
            call_ensures(J::into_components, (self.fetches().9,), data.9),
            call_ensures(K::into_components, (self.fetches().10,), data.10),
            call_ensures(L::into_components, (self.fetches().11,), data.11),
            call_ensures(M::into_components, (self.fetches().12,), data.12),
            call_ensures(N::into_components, (self.fetches().13,), data.13),
            call_ensures(O::into_components, (self.fetches().14,), data.14),
            call_ensures(P::into_components, (self.fetches().15,), data.15),
            call_ensures(Q::into_components, (self.fetches().16,), data.16),
            call_ensures(R::into_components, (self.fetches().17,), data.17),
            call_ensures(S::into_components, (self.fetches().18,), data.18),
            call_ensures(T::into_components, (self.fetches().19,), data.19),
            call_ensures(U::into_components, (self.fetches().20,), data.20),
            call_ensures(V::into_components, (self.fetches().21,), data.21),
            call_ensures(W::into_components, (self.fetches().22,), data.22),
    {
        let (a, b, c, d, e, f, g, h, i, j, k, l, m, n, o, p, q, r, s, t, u, v, w) = self.fetches;
        ((A::into_components)(a), (B::into_components)(b), (C::into_components)(c), (D::into_components)(d), (E::into_components)(e), (F::into_components)(f), (G::into_components)(g), (H::into_components)(h), (I::into_components)(i), (J::into_components)(j), (K::into_components)(k), (L::into_components)(l), (M::into_components)(m), (N::into_components)(n), (O::into_components)(o), (P::into_components)(p), (Q::into_components)(q), (R::into_components)(r), (S::into_components)(s), (T::into_components)(t), (U::into_components)(u), (V::into_components)(v), (W::into_components)(w))
    }

    fn find<Comp: 'static>(&self) -> Option<&[Comp]> {
        tuple23_find::<A, B, C, D, E, F, G, H, I, J, K, L, M, N, O, P, Q, R, S, T, U, V, W, Comp>(&self.fetches)
    }

    fn find_mut<Comp: 'static>(&mut self) -> Option<&mut [Comp]> {
        tuple23_find_mut::<A, B, C, D, E, F, G, H, I, J, K, L, M, N, O, P, Q, R, S, T, U, V, W, Comp>(&mut self.fetches)
    }

    fn version<Comp: Component>(&self) -> Option<u64> {
        tuple23_version::<A, B, C, D, E, F, G, H, I, J, K, L, M, N, O, P, Q, R, S, T, U, V, W, Comp>(&self.fetches)
    }

    fn accepted(&mut self)
        ensures
            exists|m: &mut A|
                *m == old(self).fetches().0 && *final(m) == final(self).fetches().0
                && call_ensures(A::accepted, (m,), ()),
            exists|m: &mut B|
                *m == old(self).fetches().1 && *final(m) == final(self).fetches().1
                && call_ensures(B::accepted, (m,), ()),
            exists|m: &mut C|
                *m == old(self).fetches().2 && *final(m) == final(self).fetches().2
                && call_ensures(C::accepted, (m,), ()),
            exists|m: &mut D|
                *m == old(self).fetches().3 && *final(m) == final(self).fetches().3
                && call_ensures(D::accepted, (m,), ()),
            exists|m: &mut E|
                *m == old(self).fetches().4 && *final(m) == final(self).fetches().4
                && call_ensures(E::accepted, (m,), ()),
            exists|m: &mut F|
                *m == old(self).fetches().5 && *final(m) == final(self).fetches().5
                && call_ensures(F::accepted, (m,), ()),
            exists|m: &mut G|
                *m == old(self).fetches().6 && *final(m) == final(self).fetches().6
                && call_ensures(G::accepted, (m,), ()),
            exists|m: &mut H|
                *m == old(self).fetches().7 && *final(m) == final(self).fetches().7
                && call_ensures(H::accepted, (m,), ()),
            exists|m: &mut I|
                *m == old(self).fetches().8 && *final(m) == final(self).fetches().8
                && call_ensures(I::accepted, (m,), ()),
            exists|m: &mut J|
                *m == old(self).fetches().9 && *final(m) == final(self).fetches().9
                && call_ensures(J::accepted, (m,), ()),
            exists|m: &mut K|
                *m == old(self).fetches().10 && *final(m) == final(self).fetches().10
                && call_ensures(K::accepted, (m,), ()),
            exists|m: &mut L|
                *m == old(self).fetches().11 && *final(m) == final(self).fetches().11
                && call_ensures(L::accepted, (m,), ()),
            exists|m: &mut M|
                *m == old(self).fetches().12 && *final(m) == final(self).fetches().12
                && call_ensures(M::accepted, (m,), ()),
            exists|m: &mut N|
                *m == old(self).fetches().13 && *final(m) == final(self).fetches().13
                && call_ensures(N::accepted, (m,), ()),
            exists|m: &mut O|
                *m == old(self).fetches().14 && *final(m) == final(self).fetches().14
                && call_ensures(O::accepted, (m,), ()),
            exists|m: &mut P|
                *m == old(self).fetches().15 && *final(m) == final(self).fetches().15
                && call_ensures(P::accepted, (m,), ()),
            exists|m: &mut Q|
                *m == old(self).fetches().16 && *final(m) == final(self).fetches().16
                && call_ensures(Q::accepted, (m,), ()),
            exists|m: &mut R|
                *m == old(self).fetches().17 && *final(m) == final(self).fetches().17
                && call_ensures(R::accepted, (m,), ()),
            exists|m: &mut S|
                *m == old(self).fetches().18 && *final(m) == final(self).fetches().18
                && call_ensures(S::accepted, (m,), ()),
            exists|m: &mut T|
                *m == old(self).fetches().19 && *final(m) == final(self).fetches().19
                && call_ensures(T::accepted, (m,), ()),
            exists|m: &mut U|
                *m == old(self).fetches().20 && *final(m) == final(self).fetches().20
                && call_ensures(U::accepted, (m,), ()),
            exists|m: &mut V|
                *m == old(self).fetches().21 && *final(m) == final(self).fetches().21
                && call_ensures(V::accepted, (m,), ()),
            exists|m: &mut W|
                *m == old(self).fetches().22 && *final(m) == final(self).fetches().22
                && call_ensures(W::accepted, (m,), ()),
    {
        let (a, b, c, d, e, f, g, h, i, j, k, l, m, n, o, p, q, r, s, t, u, v, w) = &mut self.fetches;
        (A::accepted)(a);
        (B::accepted)(b);
        (C::accepted)(c);
        (D::accepted)(d);
        (E::accepted)(e);
        (F::accepted)(f);
        (G::accepted)(g);
        (H::accepted)(h);
        (I::accepted)(i);
        (J::accepted)(j);
        (K::accepted)(k);
        (L::accepted)(l);
        (M::accepted)(m);
        (N::accepted)(n);
        (O::accepted)(o);
        (P::accepted)(p);
        (Q::accepted)(q);
        (R::accepted)(r);
        (S::accepted)(s);
        (T::accepted)(t);
        (U::accepted)(u);
        (V::accepted)(v);
        (W::accepted)(w);
    }
}

impl<'a, A: ReadOnlyFetch, B: ReadOnlyFetch, C: ReadOnlyFetch, D: ReadOnlyFetch, E: ReadOnlyFetch, F: ReadOnlyFetch, G: ReadOnlyFetch, H: ReadOnlyFetch, I: ReadOnlyFetch, J: ReadOnlyFetch, K: ReadOnlyFetch, L: ReadOnlyFetch, M: ReadOnlyFetch, N: ReadOnlyFetch, O: ReadOnlyFetch, P: ReadOnlyFetch, Q: ReadOnlyFetch, R: ReadOnlyFetch, S: ReadOnlyFetch, T: ReadOnlyFetch, U: ReadOnlyFetch, V: ReadOnlyFetch, W: ReadOnlyFetch> ReadOnlyFetch for MultiFetch<'a, (A, B, C, D, E, F, G, H, I, J, K, L, M, N, O, P, Q, R, S, T, U, V, W)> {
    fn get_components(&self) -> (data: Self::Data)
        ensures
            call_ensures(A::get_components, (&self.fetches().0,), data.0),
            call_ensures(B::get_components, (&self.fetches().1,), data.1),
            call_ensures(C::get_components, (&self.fetches().2,), data.2),
            call_ensures(D::get_components, (&self.fetches().3,), data.3),
            call_ensures(E::get_components, (&self.fetches().4,), data.4),
            call_ensures(F::get_components, (&self.fetches().5,), data.5),
            call_ensures(G::get_components, (&self.fetches().6,), data.6),
            call_ensures(H::get_components, (&self.fetches().7,), data.7),
            call_ensures(I::get_components, (&self.fetches().8,), data.8),
            call_ensures(J::get_components, (&self.fetches().9,), data.9),
            call_ensures(K::get_components, (&self.fetches().10,), data.10),
            call_ensures(L::get_components, (&self.fetches().11,), data.11),
            call_ensures(M::get_components, (&self.fetches().12,), data.12),
            call_ensures(N::get_components, (&self.fetches().13,), data.13),
            call_ensures(O::get_components, (&self.fetches().14,), data.14),
            call_ensures(P::get_components, (&self.fetches().15,), data.15),
            call_ensures(Q::get_components, (&self.fetches().16,), data.16),
            call_ensures(R::get_components, (&self.fetches().17,), data.17),
            call_ensures(S::get_components, (&self.fetches().18,), data.18),
            call_ensures(T::get_components, (&self.fetches().19,), data.19),
            call_ensures(U::get_components, (&self.fetches().20,), data.20),
            call_ensures(V::get_components, (&self.fetches().21,), data.21),
            call_ensures(W::get_components, (&self.fetches().22,), data.22),
    {
        let (a, b, c, d, e, f, g, h, i, j, k, l, m, n, o, p, q, r, s, t, u, v, w) = &self.fetches;
        ((A::get_components)(a), (B::get_components)(b), (C::get_components)(c), (D::get_components)(d), (E::get_components)(e), (F::get_components)(f), (G::get_components)(g), (H::get_components)(h), (I::get_components)(i), (J::get_components)(j), (K::get_components)(k), (L::get_components)(l), (M::get_components)(m), (N::get_components)(n), (O::get_components)(o), (P::get_components)(p), (Q::get_components)(q), (R::get_components)(r), (S::get_components)(s), (T::get_components)(t), (U::get_components)(u), (V::get_components)(v), (W::get_components)(w))
    }
}

/// Whether some view of a tuple of 23 reads `Comp`, asking the views in order.
pub fn tuple23_reads<'a, A: View<'a> + 'a, B: View<'a> + 'a, C: View<'a> + 'a, D: View<'a> + 'a, E: View<'a> + 'a, F: View<'a> + 'a, G: View<'a> + 'a, H: View<'a> + 'a, I: View<'a> + 'a, J: View<'a> + 'a, K: View<'a> + 'a, L: View<'a> + 'a, M: View<'a> + 'a, N: View<'a> + 'a, O: View<'a> + 'a, P: View<'a> + 'a, Q: View<'a> + 'a, R: View<'a> + 'a, S: View<'a> + 'a, T: View<'a> + 'a, U: View<'a> + 'a, V: View<'a> + 'a, W: View<'a> + 'a, Comp: Component>() -> (found: bool)
    ensures
        (found && call_ensures(A::reads::<Comp>, (), true))
        || (call_ensures(A::reads::<Comp>, (), false) && (
            (found && call_ensures(B::reads::<Comp>, (), true))
            || (call_ensures(B::reads::<Comp>, (), false) && (
                (found && call_ensures(C::reads::<Comp>, (), true))
                || (call_ensures(C::reads::<Comp>, (), false) && (
                    (found && call_ensures(D::reads::<Comp>, (), true))
                    || (call_ensures(D::reads::<Comp>, (), false) && (
                        (found && call_ensures(E::reads::<Comp>, (), true))
                        || (call_ensures(E::reads::<Comp>, (), false) && (
                            (found && call_ensures(F::reads::<Comp>, (), true))
                            || (call_ensures(F::reads::<Comp>, (), false) && (
                                (found && call_ensures(G::reads::<Comp>, (), true))
                                || (call_ensures(G::reads::<Comp>, (), false) && (
                                    (found && call_ensures(H::reads::<Comp>, (), true))
                                    || (call_ensures(H::reads::<Comp>, (), false) && (
                                        (found && call_ensures(I::reads::<Comp>, (), true))
                                        || (call_ensures(I::reads::<Comp>, (), false) && (
                                            (found && call_ensures(J::reads::<Comp>, (), true))
                                            || (call_ensures(J::reads::<Comp>, (), false) && (
                                                (found && call_ensures(K::reads::<Comp>, (), true))
                                                || (call_ensures(K::reads::<Comp>, (), false) && (
                                                    (found && call_ensures(L::reads::<Comp>, (), true))
                                                    || (call_ensures(L::reads::<Comp>, (), false) && (
                                                        (found && call_ensures(M::reads::<Comp>, (), true))
                                                        || (call_ensures(M::reads::<Comp>, (), false) && (
                                                            (found && call_ensures(N::reads::<Comp>, (), true))
                                                            || (call_ensures(N::reads::<Comp>, (), false) && (
                                                                (found && call_ensures(O::reads::<Comp>, (), true))
                                                                || (call_ensures(O::reads::<Comp>, (), false) && (
                                                                    (found && call_ensures(P::reads::<Comp>, (), true))
                                                                    || (call_ensures(P::reads::<Comp>, (), false) && (
                                                                        (found && call_ensures(Q::reads::<Comp>, (), true))
                                                                        || (call_ensures(Q::reads::<Comp>, (), false) && (
                                                                            (found && call_ensures(R::reads::<Comp>, (), true))
                                                                            || (call_ensures(R::reads::<Comp>, (), false) && (
                                                                                (found && call_ensures(S::reads::<Comp>, (), true))
                                                                                || (call_ensures(S::reads::<Comp>, (), false) && (
                                                                                    (found && call_ensures(T::reads::<Comp>, (), true))
                                                                                    || (call_ensures(T::reads::<Comp>, (), false) && (
                                                                                        (found && call_ensures(U::reads::<Comp>, (), true))
                                                                                        || (call_ensures(U::reads::<Comp>, (), false) && (
                                                                                            (found && call_ensures(V::reads::<Comp>, (), true))
                                                                                            || (call_ensures(V::reads::<Comp>, (), false) && (
                                                                                                call_ensures(W::reads::<Comp>, (), found))))))))))))))))))))))))))))))))))))))))))))),
{
    (A::reads::<Comp>)()
        || (B::reads::<Comp>)()
        || (C::reads::<Comp>)()
        || (D::reads::<Comp>)()
        || (E::reads::<Comp>)()
        || (F::reads::<Comp>)()
        || (G::reads::<Comp>)()
        || (H::reads::<Comp>)()
        || (I::reads::<Comp>)()
        || (J::reads::<Comp>)()
        || (K::reads::<Comp>)()
        || (L::reads::<Comp>)()
        || (M::reads::<Comp>)()
        || (N::reads::<Comp>)()
        || (O::reads::<Comp>)()
        || (P::reads::<Comp>)()
        || (Q::reads::<Comp>)()
        || (R::reads::<Comp>)()
        || (S::reads::<Comp>)()
        || (T::reads::<Comp>)()
        || (U::reads::<Comp>)()
        || (V::reads::<Comp>)()
        || (W::reads::<Comp>)()
}

/// Whether some view of a tuple of 23 writes `Comp`, asking the views in order.
pub fn tuple23_writes<'a, A: View<'a> + 'a, B: View<'a> + 'a, C: View<'a> + 'a, D: View<'a> + 'a, E: View<'a> + 'a, F: View<'a> + 'a, G: View<'a> + 'a, H: View<'a> + 'a, I: View<'a> + 'a, J: View<'a> + 'a, K: View<'a> + 'a, L: View<'a> + 'a, M: View<'a> + 'a, N: View<'a> + 'a, O: View<'a> + 'a, P: View<'a> + 'a, Q: View<'a> + 'a, R: View<'a> + 'a, S: View<'a> + 'a, T: View<'a> + 'a, U: View<'a> + 'a, V: View<'a> + 'a, W: View<'a> + 'a, Comp: Component>() -> (found: bool)
    ensures
        (found && call_ensures(A::writes::<Comp>, (), true))
        || (call_ensures(A::writes::<Comp>, (), false) && (
            (found && call_ensures(B::writes::<Comp>, (), true))
            || (call_ensures(B::writes::<Comp>, (), false) && (
                (found && call_ensures(C::writes::<Comp>, (), true))
                || (call_ensures(C::writes::<Comp>, (), false) && (
                    (found && call_ensures(D::writes::<Comp>, (), true))
                    || (call_ensures(D::writes::<Comp>, (), false) && (
                        (found && call_ensures(E::writes::<Comp>, (), true))
                        || (call_ensures(E::writes::<Comp>, (), false) && (
                            (found && call_ensures(F::writes::<Comp>, (), true))
                            || (call_ensures(F::writes::<Comp>, (), false) && (
                                (found && call_ensures(G::writes::<Comp>, (), true))
                                || (call_ensures(G::writes::<Comp>, (), false) && (
                                    (found && call_ensures(H::writes::<Comp>, (), true))
                                    || (call_ensures(H::writes::<Comp>, (), false) && (
                                        (found && call_ensures(I::writes::<Comp>, (), true))
                                        || (call_ensures(I::writes::<Comp>, (), false) && (
                                            (found && call_ensures(J::writes::<Comp>, (), true))
                                            || (call_ensures(J::writes::<Comp>, (), false) && (
                                                (found && call_ensures(K::writes::<Comp>, (), true))
                                                || (call_ensures(K::writes::<Comp>, (), false) && (
                                                    (found && call_ensures(L::writes::<Comp>, (), true))
                                                    || (call_ensures(L::writes::<Comp>, (), false) && (
                                                        (found && call_ensures(M::writes::<Comp>, (), true))
                                                        || (call_ensures(M::writes::<Comp>, (), false) && (
                                                            (found && call_ensures(N::writes::<Comp>, (), true))
                                                            || (call_ensures(N::writes::<Comp>, (), false) && (
                                                                (found && call_ensures(O::writes::<Comp>, (), true))
                                                                || (call_ensures(O::writes::<Comp>, (), false) && (
                                                                    (found && call_ensures(P::writes::<Comp>, (), true))
                                                                    || (call_ensures(P::writes::<Comp>, (), false) && (
                                                                        (found && call_ensures(Q::writes::<Comp>, (), true))
                                                                        || (call_ensures(Q::writes::<Comp>, (), false) && (
                                                                            (found && call_ensures(R::writes::<Comp>, (), true))
                                                                            || (call_ensures(R::writes::<Comp>, (), false) && (
                                                                                (found && call_ensures(S::writes::<Comp>, (), true))
                                                                                || (call_ensures(S::writes::<Comp>, (), false) && (
                                                                                    (found && call_ensures(T::writes::<Comp>, (), true))
                                                                                    || (call_ensures(T::writes::<Comp>, (), false) && (
                                                                                        (found && call_ensures(U::writes::<Comp>, (), true))
                                                                                        || (call_ensures(U::writes::<Comp>, (), false) && (
                                                                                            (found && call_ensures(V::writes::<Comp>, (), true))
                                                                                            || (call_ensures(V::writes::<Comp>, (), false) && (
                                                                                                call_ensures(W::writes::<Comp>, (), found))))))))))))))))))))))))))))))))))))))))))))),
{
    (A::writes::<Comp>)()
        || (B::writes::<Comp>)()
        || (C::writes::<Comp>)()
        || (D::writes::<Comp>)()
        || (E::writes::<Comp>)()
        || (F::writes::<Comp>)()
        || (G::writes::<Comp>)()
        || (H::writes::<Comp>)()
        || (I::writes::<Comp>)()
        || (J::writes::<Comp>)()
        || (K::writes::<Comp>)()
        || (L::writes::<Comp>)()
        || (M::writes::<Comp>)()
        || (N::writes::<Comp>)()
        || (O::writes::<Comp>)()
        || (P::writes::<Comp>)()
        || (Q::writes::<Comp>)()
        || (R::writes::<Comp>)()
        || (S::writes::<Comp>)()
        || (T::writes::<Comp>)()
        || (U::writes::<Comp>)()
        || (V::writes::<Comp>)()
        || (W::writes::<Comp>)()
}

/// The slice of the first fetch of a tuple of 23 that holds `Comp`.
pub fn tuple23_find<'f, A: Fetch, B: Fetch, C: Fetch, D: Fetch, E: Fetch, F: Fetch, G: Fetch, H: Fetch, I: Fetch, J: Fetch, K: Fetch, L: Fetch, M: Fetch, N: Fetch, O: Fetch, P: Fetch, Q: Fetch, R: Fetch, S: Fetch, T: Fetch, U: Fetch, V: Fetch, W: Fetch, Comp: 'static>(fetches: &'f (A, B, C, D, E, F, G, H, I, J, K, L, M, N, O, P, Q, R, S, T, U, V, W)) -> (found: Option<&'f [Comp]>)
    ensures
        (found is Some && call_ensures(A::find::<Comp>, (&fetches.0,), found))
        || (call_ensures(A::find::<Comp>, (&fetches.0,), None) && (
            (found is Some && call_ensures(B::find::<Comp>, (&fetches.1,), found))
            || (call_ensures(B::find::<Comp>, (&fetches.1,), None) && (
                (found is Some && call_ensures(C::find::<Comp>, (&fetches.2,), found))
                || (call_ensures(C::find::<Comp>, (&fetches.2,), None) && (
                    (found is Some && call_ensures(D::find::<Comp>, (&fetches.3,), found))
                    || (call_ensures(D::find::<Comp>, (&fetches.3,), None) && (
                        (found is Some && call_ensures(E::find::<Comp>, (&fetches.4,), found))
                        || (call_ensures(E::find::<Comp>, (&fetches.4,), None) && (
                            (found is Some && call_ensures(F::find::<Comp>, (&fetches.5,), found))
                            || (call_ensures(F::find::<Comp>, (&fetches.5,), None) && (
                                (found is Some && call_ensures(G::find::<Comp>, (&fetches.6,), found))
                                || (call_ensures(G::find::<Comp>, (&fetches.6,), None) && (
                                    (found is Some && call_ensures(H::find::<Comp>, (&fetches.7,), found))
                                    || (call_ensures(H::find::<Comp>, (&fetches.7,), None) && (
                                        (found is Some && call_ensures(I::find::<Comp>, (&fetches.8,), found))
                                        || (call_ensures(I::find::<Comp>, (&fetches.8,), None) && (
                                            (found is Some && call_ensures(J::find::<Comp>, (&fetches.9,), found))
                                            || (call_ensures(J::find::<Comp>, (&fetches.9,), None) && (
                                                (found is Some && call_ensures(K::find::<Comp>, (&fetches.10,), found))
                                                || (call_ensures(K::find::<Comp>, (&fetches.10,), None) && (
                                                    (found is Some && call_ensures(L::find::<Comp>, (&fetches.11,), found))
                                                    || (call_ensures(L::find::<Comp>, (&fetches.11,), None) && (
                                                        (found is Some && call_ensures(M::find::<Comp>, (&fetches.12,), found))
                                                        || (call_ensures(M::find::<Comp>, (&fetches.12,), None) && (
                                                            (found is Some && call_ensures(N::find::<Comp>, (&fetches.13,), found))
                                                            || (call_ensures(N::find::<Comp>, (&fetches.13,), None) && (
                                                                (found is Some && call_ensures(O::find::<Comp>, (&fetches.14,), found))
                                                                || (call_ensures(O::find::<Comp>, (&fetches.14,), None) && (
                                                                    (found is Some && call_ensures(P::find::<Comp>, (&fetches.15,), found))
                                                                    || (call_ensures(P::find::<Comp>, (&fetches.15,), None) && (
                                                                        (found is Some && call_ensures(Q::find::<Comp>, (&fetches.16,), found))
                                                                        || (call_ensures(Q::find::<Comp>, (&fetches.16,), None) && (
                                                                            (found is Some && call_ensures(R::find::<Comp>, (&fetches.17,), found))
                                                                            || (call_ensures(R::find::<Comp>, (&fetches.17,), None) && (
                                                                                (found is Some && call_ensures(S::find::<Comp>, (&fetches.18,), found))
                                                                                || (call_ensures(S::find::<Comp>, (&fetches.18,), None) && (
                                                                                    (found is Some && call_ensures(T::find::<Comp>, (&fetches.19,), found))
                                                                                    || (call_ensures(T::find::<Comp>, (&fetches.19,), None) && (
                                                                                        (found is Some && call_ensures(U::find::<Comp>, (&fetches.20,), found))
                                                                                        || (call_ensures(U::find::<Comp>, (&fetches.20,), None) && (
                                                                                            (found is Some && call_ensures(V::find::<Comp>, (&fetches.21,), found))
                                                                                            || (call_ensures(V::find::<Comp>, (&fetches.21,), None) && (
                                                                                                call_ensures(W::find::<Comp>, (&fetches.22,), found))))))))))))))))))))))))))))))))))))))))))))),
{
    let (a, b, c, d, e, f, g, h, i, j, k, l, m, n, o, p, q, r, s, t, u, v, w) = fetches;
    if let Some(slice) = (A::find::<Comp>)(a) {
        return Some(slice);
    }
    if let Some(slice) = (B::find::<Comp>)(b) {
        return Some(slice);
    }
    if let Some(slice) = (C::find::<Comp>)(c) {
        return Some(slice);
    }
    if let Some(slice) = (D::find::<Comp>)(d) {
        return Some(slice);
    }
    if let Some(slice) = (E::find::<Comp>)(e) {
        return Some(slice);
    }
    if let Some(slice) = (F::find::<Comp>)(f) {
        return Some(slice);
    }
    if let Some(slice) = (G::find::<Comp>)(g) {
        return Some(slice);
    }
    if let Some(slice) = (H::find::<Comp>)(h) {
        return Some(slice);
    }
    if let Some(slice) = (I::find::<Comp>)(i) {
        return Some(slice);
    }
    if let Some(slice) = (J::find::<Comp>)(j) {
        return Some(slice);
    }
    if let Some(slice) = (K::find::<Comp>)(k) {
        return Some(slice);
    }
    if let Some(slice) = (L::find::<Comp>)(l) {
        return Some(slice);
    }
    if let Some(slice) = (M::find::<Comp>)(m) {
        return Some(slice);
    }
    if let Some(slice) = (N::find::<Comp>)(n) {
        return Some(slice);
    }
    if let Some(slice) = (O::find::<Comp>)(o) {
        return Some(slice);
    }
    if let Some(slice) = (P::find::<Comp>)(p) {
        return Some(slice);
    }
    if let Some(slice) = (Q::find::<Comp>)(q) {
        return Some(slice);
    }
    if let Some(slice) = (R::find::<Comp>)(r) {
        return Some(slice);
    }
    if let Some(slice) = (S::find::<Comp>)(s) {
        return Some(slice);
    }
    if let Some(slice) = (T::find::<Comp>)(t) {
        return Some(slice);
    }
    if let Some(slice) = (U::find::<Comp>)(u) {
        return Some(slice);
    }
    if let Some(slice) = (V::find::<Comp>)(v) {
        return Some(slice);
    }
    (W::find::<Comp>)(w)
}

/// The mutable slice of the first fetch of a tuple of 23 that holds `Comp`.
pub fn tuple23_find_mut<'f, A: Fetch, B: Fetch, C: Fetch, D: Fetch, E: Fetch, F: Fetch, G: Fetch, H: Fetch, I: Fetch, J: Fetch, K: Fetch, L: Fetch, M: Fetch, N: Fetch, O: Fetch, P: Fetch, Q: Fetch, R: Fetch, S: Fetch, T: Fetch, U: Fetch, V: Fetch, W: Fetch, Comp: 'static>(fetches: &'f mut (A, B, C, D, E, F, G, H, I, J, K, L, M, N, O, P, Q, R, S, T, U, V, W)) -> (found: Option<&'f mut [Comp]>)
    ensures
        exists|m: &mut A|
            *m == old(fetches).0
            && *final(m) == final(fetches).0
            && ((found is Some && call_ensures(A::find_mut::<Comp>, (m,), found) && final(fetches).1 == old(fetches).1 && final(fetches).2 == old(fetches).2 && final(fetches).3 == old(fetches).3 && final(fetches).4 == old(fetches).4 && final(fetches).5 == old(fetches).5 && final(fetches).6 == old(fetches).6 && final(fetches).7 == old(fetches).7 && final(fetches).8 == old(fetches).8 && final(fetches).9 == old(fetches).9 && final(fetches).10 == old(fetches).10 && final(fetches).11 == old(fetches).11 && final(fetches).12 == old(fetches).12 && final(fetches).13 == old(fetches).13 && final(fetches).14 == old(fetches).14 && final(fetches).15 == old(fetches).15 && final(fetches).16 == old(fetches).16 && final(fetches).17 == old(fetches).17 && final(fetches).18 == old(fetches).18 && final(fetches).19 == old(fetches).19 && final(fetches).20 == old(fetches).20 && final(fetches).21 == old(fetches).21 && final(fetches).22 == old(fetches).22)
            || (call_ensures(A::find_mut::<Comp>, (m,), None) && (
                exists|m: &mut B|
                    *m == old(fetches).1
                    && *final(m) == final(fetches).1
                    && ((found is Some && call_ensures(B::find_mut::<Comp>, (m,), found) && final(fetches).2 == old(fetches).2 && final(fetches).3 == old(fetches).3 && final(fetches).4 == old(fetches).4 && final(fetches).5 == old(fetches).5 && final(fetches).6 == old(fetches).6 && final(fetches).7 == old(fetches).7 && final(fetches).8 == old(fetches).8 && final(fetches).9 == old(fetches).9 && final(fetches).10 == old(fetches).10 && final(fetches).11 == old(fetches).11 && final(fetches).12 == old(fetches).12 && final(fetches).13 == old(fetches).13 && final(fetches).14 == old(fetches).14 && final(fetches).15 == old(fetches).15 && final(fetches).16 == old(fetches).16 && final(fetches).17 == old(fetches).17 && final(fetches).18 == old(fetches).18 && final(fetches).19 == old(fetches).19 && final(fetches).20 == old(fetches).20 && final(fetches).21 == old(fetches).21 && final(fetches).22 == old(fetches).22)
                    || (call_ensures(B::find_mut::<Comp>, (m,), None) && (
                        exists|m: &mut C|
                            *m == old(fetches).2
                            && *final(m) == final(fetches).2
                            && ((found is Some && call_ensures(C::find_mut::<Comp>, (m,), found) && final(fetches).3 == old(fetches).3 && final(fetches).4 == old(fetches).4 && final(fetches).5 == old(fetches).5 && final(fetches).6 == old(fetches).6 && final(fetches).7 == old(fetches).7 && final(fetches).8 == old(fetches).8 && final(fetches).9 == old(fetches).9 && final(fetches).10 == old(fetches).10 && final(fetches).11 == old(fetches).11 && final(fetches).12 == old(fetches).12 && final(fetches).13 == old(fetches).13 && final(fetches).14 == old(fetches).14 && final(fetches).15 == old(fetches).15 && final(fetches).16 == old(fetches).16 && final(fetches).17 == old(fetches).17 && final(fetches).18 == old(fetches).18 && final(fetches).19 == old(fetches).19 && final(fetches).20 == old(fetches).20 && final(fetches).21 == old(fetches).21 && final(fetches).22 == old(fetches).22)
                            || (call_ensures(C::find_mut::<Comp>, (m,), None) && (
                                exists|m: &mut D|
                                    *m == old(fetches).3
                                    && *final(m) == final(fetches).3
                                    && ((found is Some && call_ensures(D::find_mut::<Comp>, (m,), found) && final(fetches).4 == old(fetches).4 && final(fetches).5 == old(fetches).5 && final(fetches).6 == old(fetches).6 && final(fetches).7 == old(fetches).7 && final(fetches).8 == old(fetches).8 && final(fetches).9 == old(fetches).9 && final(fetches).10 == old(fetches).10 && final(fetches).11 == old(fetches).11 && final(fetches).12 == old(fetches).12 && final(fetches).13 == old(fetches).13 && final(fetches).14 == old(fetches).14 && final(fetches).15 == old(fetches).15 && final(fetches).16 == old(fetches).16 && final(fetches).17 == old(fetches).17 && final(fetches).18 == old(fetches).18 && final(fetches).19 == old(fetches).19 && final(fetches).20 == old(fetches).20 && final(fetches).21 == old(fetches).21 && final(fetches).22 == old(fetches).22)
                                    || (call_ensures(D::find_mut::<Comp>, (m,), None) && (
                                        exists|m: &mut E|
                                            *m == old(fetches).4
                                            && *final(m) == final(fetches).4
                                            && ((found is Some && call_ensures(E::find_mut::<Comp>, (m,), found) && final(fetches).5 == old(fetches).5 && final(fetches).6 == old(fetches).6 && final(fetches).7 == old(fetches).7 && final(fetches).8 == old(fetches).8 && final(fetches).9 == old(fetches).9 && final(fetches).10 == old(fetches).10 && final(fetches).11 == old(fetches).11 && final(fetches).12 == old(fetches).12 && final(fetches).13 == old(fetches).13 && final(fetches).14 == old(fetches).14 && final(fetches).15 == old(fetches).15 && final(fetches).16 == old(fetches).16 && final(fetches).17 == old(fetches).17 && final(fetches).18 == old(fetches).18 && final(fetches).19 == old(fetches).19 && final(fetches).20 == old(fetches).20 && final(fetches).21 == old(fetches).21 && final(fetches).22 == old(fetches).22)
                                            || (call_ensures(E::find_mut::<Comp>, (m,), None) && (
                                                exists|m: &mut F|
                                                    *m == old(fetches).5
                                                    && *final(m) == final(fetches).5
                                                    && ((found is Some && call_ensures(F::find_mut::<Comp>, (m,), found) && final(fetches).6 == old(fetches).6 && final(fetches).7 == old(fetches).7 && final(fetches).8 == old(fetches).8 && final(fetches).9 == old(fetches).9 && final(fetches).10 == old(fetches).10 && final(fetches).11 == old(fetches).11 && final(fetches).12 == old(fetches).12 && final(fetches).13 == old(fetches).13 && final(fetches).14 == old(fetches).14 && final(fetches).15 == old(fetches).15 && final(fetches).16 == old(fetches).16 && final(fetches).17 == old(fetches).17 && final(fetches).18 == old(fetches).18 && final(fetches).19 == old(fetches).19 && final(fetches).20 == old(fetches).20 && final(fetches).21 == old(fetches).21 && final(fetches).22 == old(fetches).22)
                                                    || (call_ensures(F::find_mut::<Comp>, (m,), None) && (
                                                        exists|m: &mut G|
                                                            *m == old(fetches).6
                                                            && *final(m) == final(fetches).6
                                                            && ((found is Some && call_ensures(G::find_mut::<Comp>, (m,), found) && final(fetches).7 == old(fetches).7 && final(fetches).8 == old(fetches).8 && final(fetches).9 == old(fetches).9 && final(fetches).10 == old(fetches).10 && final(fetches).11 == old(fetches).11 && final(fetches).12 == old(fetches).12 && final(fetches).13 == old(fetches).13 && final(fetches).14 == old(fetches).14 && final(fetches).15 == old(fetches).15 && final(fetches).16 == old(fetches).16 && final(fetches).17 == old(fetches).17 && final(fetches).18 == old(fetches).18 && final(fetches).19 == old(fetches).19 && final(fetches).20 == old(fetches).20 && final(fetches).21 == old(fetches).21 && final(fetches).22 == old(fetches).22)
                                                            || (call_ensures(G::find_mut::<Comp>, (m,), None) && (
                                                                exists|m: &mut H|
                                                                    *m == old(fetches).7
                                                                    && *final(m) == final(fetches).7
                                                                    && ((found is Some && call_ensures(H::find_mut::<Comp>, (m,), found) && final(fetches).8 == old(fetches).8 && final(fetches).9 == old(fetches).9 && final(fetches).10 == old(fetches).10 && final(fetches).11 == old(fetches).11 && final(fetches).12 == old(fetches).12 && final(fetches).13 == old(fetches).13 && final(fetches).14 == old(fetches).14 && final(fetches).15 == old(fetches).15 && final(fetches).16 == old(fetches).16 && final(fetches).17 == old(fetches).17 && final(fetches).18 == old(fetches).18 && final(fetches).19 == old(fetches).19 && final(fetches).20 == old(fetches).20 && final(fetches).21 == old(fetches).21 && final(fetches).22 == old(fetches).22)
                                                                    || (call_ensures(H::find_mut::<Comp>, (m,), None) && (
                                                                        exists|m: &mut I|
                                                                            *m == old(fetches).8
                                                                            && *final(m) == final(fetches).8
                                                                            && ((found is Some && call_ensures(I::find_mut::<Comp>, (m,), found) && final(fetches).9 == old(fetches).9 && final(fetches).10 == old(fetches).10 && final(fetches).11 == old(fetches).11 && final(fetches).12 == old(fetches).12 && final(fetches).13 == old(fetches).13 && final(fetches).14 == old(fetches).14 && final(fetches).15 == old(fetches).15 && final(fetches).16 == old(fetches).16 && final(fetches).17 == old(fetches).17 && final(fetches).18 == old(fetches).18 && final(fetches).19 == old(fetches).19 && final(fetches).20 == old(fetches).20 && final(fetches).21 == old(fetches).21 && final(fetches).22 == old(fetches).22)
                                                                            || (call_ensures(I::find_mut::<Comp>, (m,), None) && (
                                                                                exists|m: &mut J|
                                                                                    *m == old(fetches).9
                                                                                    && *final(m) == final(fetches).9
                                                                                    && ((found is Some && call_ensures(J::find_mut::<Comp>, (m,), found) && final(fetches).10 == old(fetches).10 && final(fetches).11 == old(fetches).11 && final(fetches).12 == old(fetches).12 && final(fetches).13 == old(fetches).13 && final(fetches).14 == old(fetches).14 && final(fetches).15 == old(fetches).15 && final(fetches).16 == old(fetches).16 && final(fetches).17 == old(fetches).17 && final(fetches).18 == old(fetches).18 && final(fetches).19 == old(fetches).19 && final(fetches).20 == old(fetches).20 && final(fetches).21 == old(fetches).21 && final(fetches).22 == old(fetches).22)
                                                                                    || (call_ensures(J::find_mut::<Comp>, (m,), None) && (
                                                                                        exists|m: &mut K|
                                                                                            *m == old(fetches).10
                                                                                            && *final(m) == final(fetches).10
                                                                                            && ((found is Some && call_ensures(K::find_mut::<Comp>, (m,), found) && final(fetches).11 == old(fetches).11 && final(fetches).12 == old(fetches).12 && final(fetches).13 == old(fetches).13 && final(fetches).14 == old(fetches).14 && final(fetches).15 == old(fetches).15 && final(fetches).16 == old(fetches).16 && final(fetches).17 == old(fetches).17 && final(fetches).18 == old(fetches).18 && final(fetches).19 == old(fetches).19 && final(fetches).20 == old(fetches).20 && final(fetches).21 == old(fetches).21 && final(fetches).22 == old(fetches).22)
                                                                                            || (call_ensures(K::find_mut::<Comp>, (m,), None) && (
                                                                                                exists|m: &mut L|
                                                                                                    *m == old(fetches).11
                                                                                                    && *final(m) == final(fetches).11
                                                                                                    && ((found is Some && call_ensures(L::find_mut::<Comp>, (m,), found) && final(fetches).12 == old(fetches).12 && final(fetches).13 == old(fetches).13 && final(fetches).14 == old(fetches).14 && final(fetches).15 == old(fetches).15 && final(fetches).16 == old(fetches).16 && final(fetches).17 == old(fetches).17 && final(fetches).18 == old(fetches).18 && final(fetches).19 == old(fetches).19 && final(fetches).20 == old(fetches).20 && final(fetches).21 == old(fetches).21 && final(fetches).22 == old(fetches).22)
                                                                                                    || (call_ensures(L::find_mut::<Comp>, (m,), None) && (
                                                                                                        exists|m: &mut M|
                                                                                                            *m == old(fetches).12
                                                                                                            && *final(m) == final(fetches).12
                                                                                                            && ((found is Some && call_ensures(M::find_mut::<Comp>, (m,), found) && final(fetches).13 == old(fetches).13 && final(fetches).14 == old(fetches).14 && final(fetches).15 == old(fetches).15 && final(fetches).16 == old(fetches).16 && final(fetches).17 == old(fetches).17 && final(fetches).18 == old(fetches).18 && final(fetches).19 == old(fetches).19 && final(fetches).20 == old(fetches).20 && final(fetches).21 == old(fetches).21 && final(fetches).22 == old(fetches).22)
                                                                                                            || (call_ensures(M::find_mut::<Comp>, (m,), None) && (
                                                                                                                exists|m: &mut N|
                                                                                                                    *m == old(fetches).13
                                                                                                                    && *final(m) == final(fetches).13
                                                                                                                    && ((found is Some && call_ensures(N::find_mut::<Comp>, (m,), found) && final(fetches).14 == old(fetches).14 && final(fetches).15 == old(fetches).15 && final(fetches).16 == old(fetches).16 && final(fetches).17 == old(fetches).17 && final(fetches).18 == old(fetches).18 && final(fetches).19 == old(fetches).19 && final(fetches).20 == old(fetches).20 && final(fetches).21 == old(fetches).21 && final(fetches).22 == old(fetches).22)
                                                                                                                    || (call_ensures(N::find_mut::<Comp>, (m,), None) && (
                                                                                                                        exists|m: &mut O|
                                                                                                                            *m == old(fetches).14
                                                                                                                            && *final(m) == final(fetches).14
                                                                                                                            && ((found is Some && call_ensures(O::find_mut::<Comp>, (m,), found) && final(fetches).15 == old(fetches).15 && final(fetches).16 == old(fetches).16 && final(fetches).17 == old(fetches).17 && final(fetches).18 == old(fetches).18 && final(fetches).19 == old(fetches).19 && final(fetches).20 == old(fetches).20 && final(fetches).21 == old(fetches).21 && final(fetches).22 == old(fetches).22)
                                                                                                                            || (call_ensures(O::find_mut::<Comp>, (m,), None) && (
                                                                                                                                exists|m: &mut P|
                                                                                                                                    *m == old(fetches).15
                                                                                                                                    && *final(m) == final(fetches).15
                                                                                                                                    && ((found is Some && call_ensures(P::find_mut::<Comp>, (m,), found) && final(fetches).16 == old(fetches).16 && final(fetches).17 == old(fetches).17 && final(fetches).18 == old(fetches).18 && final(fetches).19 == old(fetches).19 && final(fetches).20 == old(fetches).20 && final(fetches).21 == old(fetches).21 && final(fetches).22 == old(fetches).22)
                                                                                                                                    || (call_ensures(P::find_mut::<Comp>, (m,), None) && (
                                                                                                                                        exists|m: &mut Q|
                                                                                                                                            *m == old(fetches).16
                                                                                                                                            && *final(m) == final(fetches).16
                                                                                                                                            && ((found is Some && call_ensures(Q::find_mut::<Comp>, (m,), found) && final(fetches).17 == old(fetches).17 && final(fetches).18 == old(fetches).18 && final(fetches).19 == old(fetches).19 && final(fetches).20 == old(fetches).20 && final(fetches).21 == old(fetches).21 && final(fetches).22 == old(fetches).22)
                                                                                                                                            || (call_ensures(Q::find_mut::<Comp>, (m,), None) && (
                                                                                                                                                exists|m: &mut R|
                                                                                                                                                    *m == old(fetches).17
                                                                                                                                                    && *final(m) == final(fetches).17
                                                                                                                                                    && ((found is Some && call_ensures(R::find_mut::<Comp>, (m,), found) && final(fetches).18 == old(fetches).18 && final(fetches).19 == old(fetches).19 && final(fetches).20 == old(fetches).20 && final(fetches).21 == old(fetches).21 && final(fetches).22 == old(fetches).22)
                                                                                                                                                    || (call_ensures(R::find_mut::<Comp>, (m,), None) && (
                                                                                                                                                        exists|m: &mut S|
                                                                                                                                                            *m == old(fetches).18
                                                                                                                                                            && *final(m) == final(fetches).18
                                                                                                                                                            && ((found is Some && call_ensures(S::find_mut::<Comp>, (m,), found) && final(fetches).19 == old(fetches).19 && final(fetches).20 == old(fetches).20 && final(fetches).21 == old(fetches).21 && final(fetches).22 == old(fetches).22)
                                                                                                                                                            || (call_ensures(S::find_mut::<Comp>, (m,), None) && (
                                                                                                                                                                exists|m: &mut T|
                                                                                                                                                                    *m == old(fetches).19
                                                                                                                                                                    && *final(m) == final(fetches).19
                                                                                                                                                                    && ((found is Some && call_ensures(T::find_mut::<Comp>, (m,), found) && final(fetches).20 == old(fetches).20 && final(fetches).21 == old(fetches).21 && final(fetches).22 == old(fetches).22)
                                                                                                                                                                    || (call_ensures(T::find_mut::<Comp>, (m,), None) && (
                                                                                                                                                                        exists|m: &mut U|
                                                                                                                                                                            *m == old(fetches).20
                                                                                                                                                                            && *final(m) == final(fetches).20
                                                                                                                                                                            && ((found is Some && call_ensures(U::find_mut::<Comp>, (m,), found) && final(fetches).21 == old(fetches).21 && final(fetches).22 == old(fetches).22)
                                                                                                                                                                            || (call_ensures(U::find_mut::<Comp>, (m,), None) && (
                                                                                                                                                                                exists|m: &mut V|
                                                                                                                                                                                    *m == old(fetches).21
                                                                                                                                                                                    && *final(m) == final(fetches).21
                                                                                                                                                                                    && ((found is Some && call_ensures(V::find_mut::<Comp>, (m,), found) && final(fetches).22 == old(fetches).22)
                                                                                                                                                                                    || (call_ensures(V::find_mut::<Comp>, (m,), None) && (
                                                                                                                                                                                        exists|m: &mut W|
                                                                                                                                                                                            *m == old(fetches).22
                                                                                                                                                                                            && *final(m) == final(fetches).22
                                                                                                                                                                                            && call_ensures(W::find_mut::<Comp>, (m,), found))))))))))))))))))))))))))))))))))))))))))))))))))))))))))))))))))),
{
    let found = (A::find_mut::<Comp>)(&mut fetches.0);
    if found.is_some() {
        return found;
    }
    let found = (B::find_mut::<Comp>)(&mut fetches.1);
    if found.is_some() {
        return found;
    }
    let found = (C::find_mut::<Comp>)(&mut fetches.2);
    if found.is_some() {
        return found;
    }
    let found = (D::find_mut::<Comp>)(&mut fetches.3);
    if found.is_some() {
        return found;
    }
    let found = (E::find_mut::<Comp>)(&mut fetches.4);
    if found.is_some() {
        return found;
    }
    let found = (F::find_mut::<Comp>)(&mut fetches.5);
    if found.is_some() {
        return found;
    }
    let found = (G::find_mut::<Comp>)(&mut fetches.6);
    if found.is_some() {
        return found;
    }
    let found = (H::find_mut::<Comp>)(&mut fetches.7);
    if found.is_some() {
        return found;
    }
    let found = (I::find_mut::<Comp>)(&mut fetches.8);
    if found.is_some() {
        return found;
    }
    let found = (J::find_mut::<Comp>)(&mut fetches.9);
    if found.is_some() {
        return found;
    }
    let found = (K::find_mut::<Comp>)(&mut fetches.10);
    if found.is_some() {
        return found;
    }
    let found = (L::find_mut::<Comp>)(&mut fetches.11);
    if found.is_some() {
        return found;
    }
    let found = (M::find_mut::<Comp>)(&mut fetches.12);
    if found.is_some() {
        return found;
    }
    let found = (N::find_mut::<Comp>)(&mut fetches.13);
    if found.is_some() {
        return found;
    }
    let found = (O::find_mut::<Comp>)(&mut fetches.14);
    if found.is_some() {
        return found;
    }
    let found = (P::find_mut::<Comp>)(&mut fetches.15);
    if found.is_some() {
        return found;
    }
    let found = (Q::find_mut::<Comp>)(&mut fetches.16);
    if found.is_some() {
        return found;
    }
    let found = (R::find_mut::<Comp>)(&mut fetches.17);
    if found.is_some() {
        return found;
    }
    let found = (S::find_mut::<Comp>)(&mut fetches.18);
    if found.is_some() {
        return found;
    }
    let found = (T::find_mut::<Comp>)(&mut fetches.19);
    if found.is_some() {
        return found;
    }
    let found = (U::find_mut::<Comp>)(&mut fetches.20);
    if found.is_some() {
        return found;
    }
    let found = (V::find_mut::<Comp>)(&mut fetches.21);
    if found.is_some() {
        return found;
    }
    (W::find_mut::<Comp>)(&mut fetches.22)
}

/// The version of `Comp` in the first fetch of a tuple of 23 that holds it.
pub fn tuple23_version<A: Fetch, B: Fetch, C: Fetch, D: Fetch, E: Fetch, F: Fetch, G: Fetch, H: Fetch, I: Fetch, J: Fetch, K: Fetch, L: Fetch, M: Fetch, N: Fetch, O: Fetch, P: Fetch, Q: Fetch, R: Fetch, S: Fetch, T: Fetch, U: Fetch, V: Fetch, W: Fetch, Comp: Component>(fetches: &(A, B, C, D, E, F, G, H, I, J, K, L, M, N, O, P, Q, R, S, T, U, V, W)) -> (version: Option<u64>)
    ensures
        (version is Some && call_ensures(A::version::<Comp>, (&fetches.0,), version))
        || (call_ensures(A::version::<Comp>, (&fetches.0,), None) && (
            (version is Some && call_ensures(B::version::<Comp>, (&fetches.1,), version))
            || (call_ensures(B::version::<Comp>, (&fetches.1,), None) && (
                (version is Some && call_ensures(C::version::<Comp>, (&fetches.2,), version))
                || (call_ensures(C::version::<Comp>, (&fetches.2,), None) && (
                    (version is Some && call_ensures(D::version::<Comp>, (&fetches.3,), version))
                    || (call_ensures(D::version::<Comp>, (&fetches.3,), None) && (
                        (version is Some && call_ensures(E::version::<Comp>, (&fetches.4,), version))
                        || (call_ensures(E::version::<Comp>, (&fetches.4,), None) && (
                            (version is Some && call_ensures(F::version::<Comp>, (&fetches.5,), version))
                            || (call_ensures(F::version::<Comp>, (&fetches.5,), None) && (
                                (version is Some && call_ensures(G::version::<Comp>, (&fetches.6,), version))
                                || (call_ensures(G::version::<Comp>, (&fetches.6,), None) && (
                                    (version is Some && call_ensures(H::version::<Comp>, (&fetches.7,), version))
                                    || (call_ensures(H::version::<Comp>, (&fetches.7,), None) && (
                                        (version is Some && call_ensures(I::version::<Comp>, (&fetches.8,), version))
                                        || (call_ensures(I::version::<Comp>, (&fetches.8,), None) && (
                                            (version is Some && call_ensures(J::version::<Comp>, (&fetches.9,), version))
                                            || (call_ensures(J::version::<Comp>, (&fetches.9,), None) && (
                                                (version is Some && call_ensures(K::version::<Comp>, (&fetches.10,), version))
                                                || (call_ensures(K::version::<Comp>, (&fetches.10,), None) && (
                                                    (version is Some && call_ensures(L::version::<Comp>, (&fetches.11,), version))
                                                    || (call_ensures(L::version::<Comp>, (&fetches.11,), None) && (
                                                        (version is Some && call_ensures(M::version::<Comp>, (&fetches.12,), version))
                                                        || (call_ensures(M::version::<Comp>, (&fetches.12,), None) && (
                                                            (version is Some && call_ensures(N::version::<Comp>, (&fetches.13,), version))
                                                            || (call_ensures(N::version::<Comp>, (&fetches.13,), None) && (
                                                                (version is Some && call_ensures(O::version::<Comp>, (&fetches.14,), version))
                                                                || (call_ensures(O::version::<Comp>, (&fetches.14,), None) && (
                                                                    (version is Some && call_ensures(P::version::<Comp>, (&fetches.15,), version))
                                                                    || (call_ensures(P::version::<Comp>, (&fetches.15,), None) && (
                                                                        (version is Some && call_ensures(Q::version::<Comp>, (&fetches.16,), version))
                                                                        || (call_ensures(Q::version::<Comp>, (&fetches.16,), None) && (
                                                                            (version is Some && call_ensures(R::version::<Comp>, (&fetches.17,), version))
                                                                            || (call_ensures(R::version::<Comp>, (&fetches.17,), None) && (
                                                                                (version is Some && call_ensures(S::version::<Comp>, (&fetches.18,), version))
                                                                                || (call_ensures(S::version::<Comp>, (&fetches.18,), None) && (
                                                                                    (version is Some && call_ensures(T::version::<Comp>, (&fetches.19,), version))
                                                                                    || (call_ensures(T::version::<Comp>, (&fetches.19,), None) && (
                                                                                        (version is Some && call_ensures(U::version::<Comp>, (&fetches.20,), version))
                                                                                        || (call_ensures(U::version::<Comp>, (&fetches.20,), None) && (
                                                                                            (version is Some && call_ensures(V::version::<Comp>, (&fetches.21,), version))
                                                                                            || (call_ensures(V::version::<Comp>, (&fetches.21,), None) && (
                                                                                                call_ensures(W::version::<Comp>, (&fetches.22,), version))))))))))))))))))))))))))))))))))))))))))))),
{
    let (a, b, c, d, e, f, g, h, i, j, k, l, m, n, o, p, q, r, s, t, u, v, w) = fetches;
    if let Some(version) = (A::version::<Comp>)(a) {
        return Some(version);
    }
    if let Some(version) = (B::version::<Comp>)(b) {
        return Some(version);
    }
    if let Some(version) = (C::version::<Comp>)(c) {
        return Some(version);
    }
    if let Some(version) = (D::version::<Comp>)(d) {
        return Some(version);
    }
    if let Some(version) = (E::version::<Comp>)(e) {
        return Some(version);
    }
    if let Some(version) = (F::version::<Comp>)(f) {
        return Some(version);
    }
    if let Some(version) = (G::version::<Comp>)(g) {
        return Some(version);
    }
    if let Some(version) = (H::version::<Comp>)(h) {
        return Some(version);
    }
    if let Some(version) = (I::version::<Comp>)(i) {
        return Some(version);
    }
    if let Some(version) = (J::version::<Comp>)(j) {
        return Some(version);
    }
    if let Some(version) = (K::version::<Comp>)(k) {
        return Some(version);
    }
    if let Some(version) = (L::version::<Comp>)(l) {
        return Some(version);
    }
    if let Some(version) = (M::version::<Comp>)(m) {
        return Some(version);
    }
    if let Some(version) = (N::version::<Comp>)(n) {
        return Some(version);
    }
    if let Some(version) = (O::version::<Comp>)(o) {
        return Some(version);
    }
    if let Some(version) = (P::version::<Comp>)(p) {
        return Some(version);
    }
    if let Some(version) = (Q::version::<Comp>)(q) {
        return Some(version);
    }
    if let Some(version) = (R::version::<Comp>)(r) {
        return Some(version);
    }
    if let Some(version) = (S::version::<Comp>)(s) {
        return Some(version);
    }
    if let Some(version) = (T::version::<Comp>)(t) {
        return Some(version);
    }
    if let Some(version) = (U::version::<Comp>)(u) {
        return Some(version);
    }
    if let Some(version) = (V::version::<Comp>)(v) {
        return Some(version);
    }
    (W::version::<Comp>)(w)
}

// Tuples of 24 views.

impl<A: DefaultFilter, B: DefaultFilter, C: DefaultFilter, D: DefaultFilter, E: DefaultFilter, F: DefaultFilter, G: DefaultFilter, H: DefaultFilter, I: DefaultFilter, J: DefaultFilter, K: DefaultFilter, L: DefaultFilter, M: DefaultFilter, N: DefaultFilter, O: DefaultFilter, P: DefaultFilter, Q: DefaultFilter, R: DefaultFilter, S: DefaultFilter, T: DefaultFilter, U: DefaultFilter, V: DefaultFilter, W: DefaultFilter, X: DefaultFilter> DefaultFilter for (A, B, C, D, E, F, G, H, I, J, K, L, M, N, O, P, Q, R, S, T, U, V, W, X) {
    type Filter = (A::Filter, B::Filter, C::Filter, D::Filter, E::Filter, F::Filter, G::Filter, H::Filter, I::Filter, J::Filter, K::Filter, L::Filter, M::Filter, N::Filter, O::Filter, P::Filter, Q::Filter, R::Filter, S::Filter, T::Filter, U::Filter, V::Filter, W::Filter, X::Filter);
}

impl<'a, A: View<'a> + 'a, B: View<'a> + 'a, C: View<'a> + 'a, D: View<'a> + 'a, E: View<'a> + 'a, F: View<'a> + 'a, G: View<'a> + 'a, H: View<'a> + 'a, I: View<'a> + 'a, J: View<'a> + 'a, K: View<'a> + 'a, L: View<'a> + 'a, M: View<'a> + 'a, N: View<'a> + 'a, O: View<'a> + 'a, P: View<'a> + 'a, Q: View<'a> + 'a, R: View<'a> + 'a, S: View<'a> + 'a, T: View<'a> + 'a, U: View<'a> + 'a, V: View<'a> + 'a, W: View<'a> + 'a, X: View<'a> + 'a> View<'a> for (A, B, C, D, E, F, G, H, I, J, K, L, M, N, O, P, Q, R, S, T, U, V, W, X) {
    type Element = <Self::Fetch as IntoIndexableIter>::Item;
    type Fetch = MultiFetch<'a, (A::Fetch, B::Fetch, C::Fetch, D::Fetch, E::Fetch, F::Fetch, G::Fetch, H::Fetch, I::Fetch, J::Fetch, K::Fetch, L::Fetch, M::Fetch, N::Fetch, O::Fetch, P::Fetch, Q::Fetch, R::Fetch, S::Fetch, T::Fetch, U::Fetch, V::Fetch, W::Fetch, X::Fetch)>;

    fn validate() -> (valid: bool)
        ensures
            exists|reads: Seq<Vec<ComponentTypeId>>, writes: Seq<Vec<ComponentTypeId>>|
                reads.len() == 24 && writes.len() == 24
                && call_ensures(A::reads_types, (), reads[0])
                && call_ensures(A::writes_types, (), writes[0])
                && call_ensures(B::reads_types, (), reads[1])
                && call_ensures(B::writes_types, (), writes[1])
                && call_ensures(C::reads_types, (), reads[2])
                && call_ensures(C::writes_types, (), writes[2])
                && call_ensures(D::reads_types, (), reads[3])
                && call_ensures(D::writes_types, (), writes[3])
                && call_ensures(E::reads_types, (), reads[4])
                && call_ensures(E::writes_types, (), writes[4])
                && call_ensures(F::reads_types, (), reads[5])
                && call_ensures(F::writes_types, (), writes[5])
                && call_ensures(G::reads_types, (), reads[6])
                && call_ensures(G::writes_types, (), writes[6])
                && call_ensures(H::reads_types, (), reads[7])
                && call_ensures(H::writes_types, (), writes[7])
                && call_ensures(I::reads_types, (), reads[8])
                && call_ensures(I::writes_types, (), writes[8])
                && call_ensures(J::reads_types, (), reads[9])
                && call_ensures(J::writes_types, (), writes[9])
                && call_ensures(K::reads_types, (), reads[10])
                && call_ensures(K::writes_types, (), writes[10])
                && call_ensures(L::reads_types, (), reads[11])
                && call_ensures(L::writes_types, (), writes[11])
                && call_ensures(M::reads_types, (), reads[12])
                && call_ensures(M::writes_types, (), writes[12])
                && call_ensures(N::reads_types, (), reads[13])
                && call_ensures(N::writes_types, (), writes[13])
                && call_ensures(O::reads_types, (), reads[14])
                && call_ensures(O::writes_types, (), writes[14])
                && call_ensures(P::reads_types, (), reads[15])
                && call_ensures(P::writes_types, (), writes[15])
                && call_ensures(Q::reads_types, (), reads[16])
                && call_ensures(Q::writes_types, (), writes[16])
                && call_ensures(R::reads_types, (), reads[17])
                && call_ensures(R::writes_types, (), writes[17])
                && call_ensures(S::reads_types, (), reads[18])
                && call_ensures(S::writes_types, (), writes[18])
                && call_ensures(T::reads_types, (), reads[19])
                && call_ensures(T::writes_types, (), writes[19])
                && call_ensures(U::reads_types, (), reads[20])
                && call_ensures(U::writes_types, (), writes[20])
                && call_ensures(V::reads_types, (), reads[21])
                && call_ensures(V::writes_types, (), writes[21])
                && call_ensures(W::reads_types, (), reads[22])
                && call_ensures(W::writes_types, (), writes[22])
                && call_ensures(X::reads_types, (), reads[23])
                && call_ensures(X::writes_types, (), writes[23])
                && valid == conflict_free(type_lists(reads), type_lists(writes)),
    {
        let reads = vec![(A::reads_types)(), (B::reads_types)(), (C::reads_types)(), (D::reads_types)(), (E::reads_types)(), (F::reads_types)(), (G::reads_types)(), (H::reads_types)(), (I::reads_types)(), (J::reads_types)(), (K::reads_types)(), (L::reads_types)(), (M::reads_types)(), (N::reads_types)(), (O::reads_types)(), (P::reads_types)(), (Q::reads_types)(), (R::reads_types)(), (S::reads_types)(), (T::reads_types)(), (U::reads_types)(), (V::reads_types)(), (W::reads_types)(), (X::reads_types)()];
        let writes = vec![(A::writes_types)(), (B::writes_types)(), (C::writes_types)(), (D::writes_types)(), (E::writes_types)(), (F::writes_types)(), (G::writes_types)(), (H::writes_types)(), (I::writes_types)(), (J::writes_types)(), (K::writes_types)(), (L::writes_types)(), (M::writes_types)(), (N::writes_types)(), (O::writes_types)(), (P::writes_types)(), (Q::writes_types)(), (R::writes_types)(), (S::writes_types)(), (T::writes_types)(), (U::writes_types)(), (V::writes_types)(), (W::writes_types)(), (X::writes_types)()];
        let valid = accesses_conflict_free(&reads, &writes);
        assert(
            reads@.len() == 24 && writes@.len() == 24
            && call_ensures(A::reads_types, (), reads@[0])
            && call_ensures(A::writes_types, (), writes@[0])
            && call_ensures(B::reads_types, (), reads@[1])
            && call_ensures(B::writes_types, (), writes@[1])
            && call_ensures(C::reads_types, (), reads@[2])
            && call_ensures(C::writes_types, (), writes@[2])
            && call_ensures(D::reads_types, (), reads@[3])
            && call_ensures(D::writes_types, (), writes@[3])
            && call_ensures(E::reads_types, (), reads@[4])
            && call_ensures(E::writes_types, (), writes@[4])
            && call_ensures(F::reads_types, (), reads@[5])
            && call_ensures(F::writes_types, (), writes@[5])
            && call_ensures(G::reads_types, (), reads@[6])
            && call_ensures(G::writes_types, (), writes@[6])
            && call_ensures(H::reads_types, (), reads@[7])
            && call_ensures(H::writes_types, (), writes@[7])
            && call_ensures(I::reads_types, (), reads@[8])
            && call_ensures(I::writes_types, (), writes@[8])
            && call_ensures(J::reads_types, (), reads@[9])
            && call_ensures(J::writes_types, (), writes@[9])
            && call_ensures(K::reads_types, (), reads@[10])
            && call_ensures(K::writes_types, (), writes@[10])
            && call_ensures(L::reads_types, (), reads@[11])
            && call_ensures(L::writes_types, (), writes@[11])
            && call_ensures(M::reads_types, (), reads@[12])
            && call_ensures(M::writes_types, (), writes@[12])
            && call_ensures(N::reads_types, (), reads@[13])
            && call_ensures(N::writes_types, (), writes@[13])
            && call_ensures(O::reads_types, (), reads@[14])
            && call_ensures(O::writes_types, (), writes@[14])
            && call_ensures(P::reads_types, (), reads@[15])
            && call_ensures(P::writes_types, (), writes@[15])
            && call_ensures(Q::reads_types, (), reads@[16])
            && call_ensures(Q::writes_types, (), writes@[16])
            && call_ensures(R::reads_types, (), reads@[17])
            && call_ensures(R::writes_types, (), writes@[17])
            && call_ensures(S::reads_types, (), reads@[18])
            && call_ensures(S::writes_types, (), writes@[18])
            && call_ensures(T::reads_types, (), reads@[19])
            && call_ensures(T::writes_types, (), writes@[19])
            && call_ensures(U::reads_types, (), reads@[20])
            && call_ensures(U::writes_types, (), writes@[20])
            && call_ensures(V::reads_types, (), reads@[21])
            && call_ensures(V::writes_types, (), writes@[21])
            && call_ensures(W::reads_types, (), reads@[22])
            && call_ensures(W::writes_types, (), writes@[22])
            && call_ensures(X::reads_types, (), reads@[23])
            && call_ensures(X::writes_types, (), writes@[23])
            && valid == conflict_free(type_lists(reads@), type_lists(writes@))
        );
        valid
    }

    fn reads_types() -> (types: Vec<ComponentTypeId>)
        ensures
            exists|lists: Seq<Vec<ComponentTypeId>>|
                lists.len() == 24
                && call_ensures(A::reads_types, (), lists[0])
                && call_ensures(B::reads_types, (), lists[1])
                && call_ensures(C::reads_types, (), lists[2])
                && call_ensures(D::reads_types, (), lists[3])
                && call_ensures(E::reads_types, (), lists[4])
                && call_ensures(F::reads_types, (), lists[5])
                && call_ensures(G::reads_types, (), lists[6])
                && call_ensures(H::reads_types, (), lists[7])
                && call_ensures(I::reads_types, (), lists[8])
                && call_ensures(J::reads_types, (), lists[9])
                && call_ensures(K::reads_types, (), lists[10])
                && call_ensures(L::reads_types, (), lists[11])
                && call_ensures(M::reads_types, (), lists[12])
                && call_ensures(N::reads_types, (), lists[13])
                && call_ensures(O::reads_types, (), lists[14])
                && call_ensures(P::reads_types, (), lists[15])
                && call_ensures(Q::reads_types, (), lists[16])
                && call_ensures(R::reads_types, (), lists[17])
                && call_ensures(S::reads_types, (), lists[18])
                && call_ensures(T::reads_types, (), lists[19])
                && call_ensures(U::reads_types, (), lists[20])
                && call_ensures(V::reads_types, (), lists[21])
                && call_ensures(W::reads_types, (), lists[22])
                && call_ensures(X::reads_types, (), lists[23])
                && types@ == type_lists(lists).flatten(),
    {
        let lists = vec![(A::reads_types)(), (B::reads_types)(), (C::reads_types)(), (D::reads_types)(), (E::reads_types)(), (F::reads_types)(), (G::reads_types)(), (H::reads_types)(), (I::reads_types)(), (J::reads_types)(), (K::reads_types)(), (L::reads_types)(), (M::reads_types)(), (N::reads_types)(), (O::reads_types)(), (P::reads_types)(), (Q::reads_types)(), (R::reads_types)(), (S::reads_types)(), (T::reads_types)(), (U::reads_types)(), (V::reads_types)(), (W::reads_types)(), (X::reads_types)()];
        let ghost views = lists@;
        let types = concat_types(lists);
        assert(
            views.len() == 24
            && call_ensures(A::reads_types, (), views[0])
            && call_ensures(B::reads_types, (), views[1])
            && call_ensures(C::reads_types, (), views[2])
            && call_ensures(D::reads_types, (), views[3])
            && call_ensures(E::reads_types, (), views[4])
            && call_ensures(F::reads_types, (), views[5])
            && call_ensures(G::reads_types, (), views[6])
            && call_ensures(H::reads_types, (), views[7])
            && call_ensures(I::reads_types, (), views[8])
            && call_ensures(J::reads_types, (), views[9])
            && call_ensures(K::reads_types, (), views[10])
            && call_ensures(L::reads_types, (), views[11])
            && call_ensures(M::reads_types, (), views[12])
            && call_ensures(N::reads_types, (), views[13])
            && call_ensures(O::reads_types, (), views[14])
            && call_ensures(P::reads_types, (), views[15])
            && call_ensures(Q::reads_types, (), views[16])
            && call_ensures(R::reads_types, (), views[17])
            && call_ensures(S::reads_types, (), views[18])
            && call_ensures(T::reads_types, (), views[19])
            && call_ensures(U::reads_types, (), views[20])
            && call_ensures(V::reads_types, (), views[21])
            && call_ensures(W::reads_types, (), views[22])
            && call_ensures(X::reads_types, (), views[23])
            && types@ == type_lists(views).flatten()
        );
        types
    }

    fn writes_types() -> (types: Vec<ComponentTypeId>)
        ensures
            exists|lists: Seq<Vec<ComponentTypeId>>|
                lists.len() == 24
                && call_ensures(A::writes_types, (), lists[0])
                && call_ensures(B::writes_types, (), lists[1])
                && call_ensures(C::writes_types, (), lists[2])
                && call_ensures(D::writes_types, (), lists[3])
                && call_ensures(E::writes_types, (), lists[4])
                && call_ensures(F::writes_types, (), lists[5])
                && call_ensures(G::writes_types, (), lists[6])
                && call_ensures(H::writes_types, (), lists[7])
                && call_ensures(I::writes_types, (), lists[8])
                && call_ensures(J::writes_types, (), lists[9])
                && call_ensures(K::writes_types, (), lists[10])
                && call_ensures(L::writes_types, (), lists[11])
                && call_ensures(M::writes_types, (), lists[12])
                && call_ensures(N::writes_types, (), lists[13])
                && call_ensures(O::writes_types, (), lists[14])
                && call_ensures(P::writes_types, (), lists[15])
                && call_ensures(Q::writes_types, (), lists[16])
                && call_ensures(R::writes_types, (), lists[17])
                && call_ensures(S::writes_types, (), lists[18])
                && call_ensures(T::writes_types, (), lists[19])
                && call_ensures(U::writes_types, (), lists[20])
                && call_ensures(V::writes_types, (), lists[21])
                && call_ensures(W::writes_types, (), lists[22])
                && call_ensures(X::writes_types, (), lists[23])
                && types@ == type_lists(lists).flatten(),
    {
        let lists = vec![(A::writes_types)(), (B::writes_types)(), (C::writes_types)(), (D::writes_types)(), (E::writes_types)(), (F::writes_types)(), (G::writes_types)(), (H::writes_types)(), (I::writes_types)(), (J::writes_types)(), (K::writes_types)(), (L::writes_types)(), (M::writes_types)(), (N::writes_types)(), (O::writes_types)(), (P::writes_types)(), (Q::writes_types)(), (R::writes_types)(), (S::writes_types)(), (T::writes_types)(), (U::writes_types)(), (V::writes_types)(), (W::writes_types)(), (X::writes_types)()];
        let ghost views = lists@;
        let types = concat_types(lists);
        assert(
            views.len() == 24
            && call_ensures(A::writes_types, (), views[0])
            && call_ensures(B::writes_types, (), views[1])
            && call_ensures(C::writes_types, (), views[2])
            && call_ensures(D::writes_types, (), views[3])
            && call_ensures(E::writes_types, (), views[4])
            && call_ensures(F::writes_types, (), views[5])
            && call_ensures(G::writes_types, (), views[6])
            && call_ensures(H::writes_types, (), views[7])
            && call_ensures(I::writes_types, (), views[8])
            && call_ensures(J::writes_types, (), views[9])
            && call_ensures(K::writes_types, (), views[10])
            && call_ensures(L::writes_types, (), views[11])
            && call_ensures(M::writes_types, (), views[12])
            && call_ensures(N::writes_types, (), views[13])
            && call_ensures(O::writes_types, (), views[14])
            && call_ensures(P::writes_types, (), views[15])
            && call_ensures(Q::writes_types, (), views[16])
            && call_ensures(R::writes_types, (), views[17])
            && call_ensures(S::writes_types, (), views[18])
            && call_ensures(T::writes_types, (), views[19])
            && call_ensures(U::writes_types, (), views[20])
            && call_ensures(V::writes_types, (), views[21])
            && call_ensures(W::writes_types, (), views[22])
            && call_ensures(X::writes_types, (), views[23])
            && types@ == type_lists(views).flatten()
        );
        types
    }

    fn reads<Comp: Component>() -> bool {
        tuple24_reads::<'a, A, B, C, D, E, F, G, H, I, J, K, L, M, N, O, P, Q, R, S, T, U, V, W, X, Comp>()
    }

    fn writes<Comp: Component>() -> bool {
        tuple24_writes::<'a, A, B, C, D, E, F, G, H, I, J, K, L, M, N, O, P, Q, R, S, T, U, V, W, X, Comp>()
    }
}

impl<'a, A: Fetch, B: Fetch, C: Fetch, D: Fetch, E: Fetch, F: Fetch, G: Fetch, H: Fetch, I: Fetch, J: Fetch, K: Fetch, L: Fetch, M: Fetch, N: Fetch, O: Fetch, P: Fetch, Q: Fetch, R: Fetch, S: Fetch, T: Fetch, U: Fetch, V: Fetch, W: Fetch, X: Fetch> IntoIndexableIter for MultiFetch<'a, (A, B, C, D, E, F, G, H, I, J, K, L, M, N, O, P, Q, R, S, T, U, V, W, X)> {
    type Item = (A::Item, B::Item, C::Item, D::Item, E::Item, F::Item, G::Item, H::Item, I::Item, J::Item, K::Item, L::Item, M::Item, N::Item, O::Item, P::Item, Q::Item, R::Item, S::Item, T::Item, U::Item, V::Item, W::Item, X::Item);
    type IntoIter = (A::IntoIter, B::IntoIter, C::IntoIter, D::IntoIter, E::IntoIter, F::IntoIter, G::IntoIter, H::IntoIter, I::IntoIter, J::IntoIter, K::IntoIter, L::IntoIter, M::IntoIter, N::IntoIter, O::IntoIter, P::IntoIter, Q::IntoIter, R::IntoIter, S::IntoIter, T::IntoIter, U::IntoIter, V::IntoIter, W::IntoIter, X::IntoIter);

    fn into_indexable_iter(self) -> (iter: Self::IntoIter)
        ensures
            call_ensures(A::into_indexable_iter, (self.fetches().0,), iter.0),
            call_ensures(B::into_indexable_iter, (self.fetches().1,), iter.1),
            call_ensures(C::into_indexable_iter, (self.fetches().2,), iter.2),
            call_ensures(D::into_indexable_iter, (self.fetches().3,), iter.3),
            call_ensures(E::into_indexable_iter, (self.fetches().4,), iter.4),
            call_ensures(F::into_indexable_iter, (self.fetches().5,), iter.5),
            call_ensures(G::into_indexable_iter, (self.fetches().6,), iter.6),
            call_ensures(H::into_indexable_iter, (self.fetches().7,), iter.7),
            call_ensures(I::into_indexable_iter, (self.fetches().8,), iter.8),
            call_ensures(J::into_indexable_iter, (self.fetches().9,), iter.9),
            call_ensures(K::into_indexable_iter, (self.fetches().10,), iter.10),
            call_ensures(L::into_indexable_iter, (self.fetches().11,), iter.11),
            call_ensures(M::into_indexable_iter, (self.fetches().12,), iter.12),
            call_ensures(N::into_indexable_iter, (self.fetches().13,), iter.13),
            call_ensures(O::into_indexable_iter, (self.fetches().14,), iter.14),
            call_ensures(P::into_indexable_iter, (self.fetches().15,), iter.15),
            call_ensures(Q::into_indexable_iter, (self.fetches().16,), iter.16),
            call_ensures(R::into_indexable_iter, (self.fetches().17,), iter.17),
            call_ensures(S::into_indexable_iter, (self.fetches().18,), iter.18),
            call_ensures(T::into_indexable_iter, (self.fetches().19,), iter.19),
            call_ensures(U::into_indexable_iter, (self.fetches().20,), iter.20),
            call_ensures(V::into_indexable_iter, (self.fetches().21,), iter.21),
            call_ensures(W::into_indexable_iter, (self.fetches().22,), iter.22),
            call_ensures(X::into_indexable_iter, (self.fetches().23,), iter.23),
    {
        let (a, b, c, d, e, f, g, h, i, j, k, l, m, n, o, p, q, r, s, t, u, v, w, x) = self.fetches;
        ((A::into_indexable_iter)(a), (B::into_indexable_iter)(b), (C::into_indexable_iter)(c), (D::into_indexable_iter)(d), (E::into_indexable_iter)(e), (F::into_indexable_iter)(f), (G::into_indexable_iter)(g), (H::into_indexable_iter)(h), (I::into_indexable_iter)(i), (J::into_indexable_iter)(j), (K::into_indexable_iter)(k), (L::into_indexable_iter)(l), (M::into_indexable_iter)(m), (N::into_indexable_iter)(n), (O::into_indexable_iter)(o), (P::into_indexable_iter)(p), (Q::into_indexable_iter)(q), (R::into_indexable_iter)(r), (S::into_indexable_iter)(s), (T::into_indexable_iter)(t), (U::into_indexable_iter)(u), (V::into_indexable_iter)(v), (W::into_indexable_iter)(w), (X::into_indexable_iter)(x))
    }
}

impl<'a, A: Fetch, B: Fetch, C: Fetch, D: Fetch, E: Fetch, F: Fetch, G: Fetch, H: Fetch, I: Fetch, J: Fetch, K: Fetch, L: Fetch, M: Fetch, N: Fetch, O: Fetch, P: Fetch, Q: Fetch, R: Fetch, S: Fetch, T: Fetch, U: Fetch, V: Fetch, W: Fetch, X: Fetch> Fetch for MultiFetch<'a, (A, B, C, D, E, F, G, H, I, J, K, L, M, N, O, P, Q, R, S, T, U, V, W, X)> {
    type Data = (A::Data, B::Data, C::Data, D::Data, E::Data, F::Data, G::Data, H::Data, I::Data, J::Data, K::Data, L::Data, M::Data, N::Data, O::Data, P::Data, Q::Data, R::Data, S::Data, T::Data, U::Data, V::Data, W::Data, X::Data);

    fn into_components(self) -> (data: Self::Data)
        ensures
            call_ensures(A::into_components, (self.fetches().0,), data.0),
            call_ensures(B::into_components, (self.fetches().1,), data.1),
            call_ensures(C::into_components, (self.fetches().2,), data.2),
            call_ensures(D::into_components, (self.fetches().3,), data.3),
            call_ensures(E::into_components, (self.fetches().4,), data.4),
            call_ensures(F::into_components, (self.fetches().5,), data.5),
            call_ensures(G::into_components, (self.fetches().6,), data.6),
            call_ensures(H::into_components, (self.fetches().7,), data.7),
            call_ensures(I::into_components, (self.fetches().8,), data.8),
            call_ensures(J::into_components, (self.fetches().9,), data.9),
            call_ensures(K::into_components, (self.fetches().10,), data.10),
            call_ensures(L::into_components, (self.fetches().11,), data.11),
            call_ensures(M::into_components, (self.fetches().12,), data.12),
            call_ensures(N::into_components, (self.fetches().13,), data.13),
            call_ensures(O::into_components, (self.fetches().14,), data.14),
            call_ensures(P::into_components, (self.fetches().15,), data.15),
            call_ensures(Q::into_components, (self.fetches().16,), data.16),
            call_ensures(R::into_components, (self.fetches().17,), data.17),
            call_ensures(S::into_components, (self.fetches().18,), data.18),
            call_ensures(T::into_components, (self.fetches().19,), data.19),
            call_ensures(U::into_components, (self.fetches().20,), data.20),
            call_ensures(V::into_components, (self.fetches().21,), data.21),
            call_ensures(W::into_components, (self.fetches().22,), data.22),
            call_ensures(X::into_components, (self.fetches().23,), data.23),
    {
        let (a, b, c, d, e, f, g, h, i, j, k, l, m, n, o, p, q, r, s, t, u, v, w, x) = self.fetches;
        ((A::into_components)(a), (B::into_components)(b), (C::into_components)(c), (D::into_components)(d), (E::into_components)(e), (F::into_components)(f), (G::into_components)(g), (H::into_components)(h), (I::into_components)(i), (J::into_components)(j), (K::into_components)(k), (L::into_components)(l), (M::into_components)(m), (N::into_components)(n), (O::into_components)(o), (P::into_components)(p), (Q::into_components)(q), (R::into_components)(r), (S::into_components)(s), (T::into_components)(t), (U::into_components)(u), (V::into_components)(v), (W::into_components)(w), (X::into_components)(x))
    }

    fn find<Comp: 'static>(&self) -> Option<&[Comp]> {
        tuple24_find::<A, B, C, D, E, F, G, H, I, J, K, L, M, N, O, P, Q, R, S, T, U, V, W, X, Comp>(&self.fetches)
    }

    fn find_mut<Comp: 'static>(&mut self) -> Option<&mut [Comp]> {
        tuple24_find_mut::<A, B, C, D, E, F, G, H, I, J, K, L, M, N, O, P, Q, R, S, T, U, V, W, X, Comp>(&mut self.fetches)
    }

    fn version<Comp: Component>(&self) -> Option<u64> {
        tuple24_version::<A, B, C, D, E, F, G, H, I, J, K, L, M, N, O, P, Q, R, S, T, U, V, W, X, Comp>(&self.fetches)
    }

    fn accepted(&mut self)
        ensures
            exists|m: &mut A|
                *m == old(self).fetches().0 && *final(m) == final(self).fetches().0
                && call_ensures(A::accepted, (m,), ()),
            exists|m: &mut B|
                *m == old(self).fetches().1 && *final(m) == final(self).fetches().1
                && call_ensures(B::accepted, (m,), ()),
            exists|m: &mut C|
                *m == old(self).fetches().2 && *final(m) == final(self).fetches().2
                && call_ensures(C::accepted, (m,), ()),
            exists|m: &mut D|
                *m == old(self).fetches().3 && *final(m) == final(self).fetches().3
                && call_ensures(D::accepted, (m,), ()),
            exists|m: &mut E|
                *m == old(self).fetches().4 && *final(m) == final(self).fetches().4
                && call_ensures(E::accepted, (m,), ()),
            exists|m: &mut F|
                *m == old(self).fetches().5 && *final(m) == final(self).fetches().5
                && call_ensures(F::accepted, (m,), ()),
            exists|m: &mut G|
                *m == old(self).fetches().6 && *final(m) == final(self).fetches().6
                && call_ensures(G::accepted, (m,), ()),
            exists|m: &mut H|
                *m == old(self).fetches().7 && *final(m) == final(self).fetches().7
                && call_ensures(H::accepted, (m,), ()),
            exists|m: &mut I|
                *m == old(self).fetches().8 && *final(m) == final(self).fetches().8
                && call_ensures(I::accepted, (m,), ()),
            exists|m: &mut J|
                *m == old(self).fetches().9 && *final(m) == final(self).fetches().9
                && call_ensures(J::accepted, (m,), ()),
            exists|m: &mut K|
                *m == old(self).fetches().10 && *final(m) == final(self).fetches().10
                && call_ensures(K::accepted, (m,), ()),
            exists|m: &mut L|
                *m == old(self).fetches().11 && *final(m) == final(self).fetches().11
                && call_ensures(L::accepted, (m,), ()),
            exists|m: &mut M|
                *m == old(self).fetches().12 && *final(m) == final(self).fetches().12
                && call_ensures(M::accepted, (m,), ()),
            exists|m: &mut N|
                *m == old(self).fetches().13 && *final(m) == final(self).fetches().13
                && call_ensures(N::accepted, (m,), ()),
            exists|m: &mut O|
                *m == old(self).fetches().14 && *final(m) == final(self).fetches().14
                && call_ensures(O::accepted, (m,), ()),
            exists|m: &mut P|
                *m == old(self).fetches().15 && *final(m) == final(self).fetches().15
                && call_ensures(P::accepted, (m,), ()),
            exists|m: &mut Q|
                *m == old(self).fetches().16 && *final(m) == final(self).fetches().16
                && call_ensures(Q::accepted, (m,), ()),
            exists|m: &mut R|
                *m == old(self).fetches().17 && *final(m) == final(self).fetches().17
                && call_ensures(R::accepted, (m,), ()),
            exists|m: &mut S|
                *m == old(self).fetches().18 && *final(m) == final(self).fetches().18
                && call_ensures(S::accepted, (m,), ()),
            exists|m: &mut T|
                *m == old(self).fetches().19 && *final(m) == final(self).fetches().19
                && call_ensures(T::accepted, (m,), ()),
            exists|m: &mut U|
                *m == old(self).fetches().20 && *final(m) == final(self).fetches().20
                && call_ensures(U::accepted, (m,), ()),
            exists|m: &mut V|
                *m == old(self).fetches().21 && *final(m) == final(self).fetches().21
                && call_ensures(V::accepted, (m,), ()),
            exists|m: &mut W|
                *m == old(self).fetches().22 && *final(m) == final(self).fetches().22
                && call_ensures(W::accepted, (m,), ()),
            exists|m: &mut X|
                *m == old(self).fetches().23 && *final(m) == final(self).fetches().23
                && call_ensures(X::accepted, (m,), ()),
    {
        let (a, b, c, d, e, f, g, h, i, j, k, l, m, n, o, p, q, r, s, t, u, v, w, x) = &mut self.fetches;
        (A::accepted)(a);
        (B::accepted)(b);
        (C::accepted)(c);
        (D::accepted)(d);
        (E::accepted)(e);
        (F::accepted)(f);
        (G::accepted)(g);
        (H::accepted)(h);
        (I::accepted)(i);
        (J::accepted)(j);
        (K::accepted)(k);
        (L::accepted)(l);
        (M::accepted)(m);
        (N::accepted)(n);
        (O::accepted)(o);
        (P::accepted)(p);
        (Q::accepted)(q);
        (R::accepted)(r);
        (S::accepted)(s);
        (T::accepted)(t);
        (U::accepted)(u);
        (V::accepted)(v);
        (W::accepted)(w);
        (X::accepted)(x);
    }
}

impl<'a, A: ReadOnlyFetch, B: ReadOnlyFetch, C: ReadOnlyFetch, D: ReadOnlyFetch, E: ReadOnlyFetch, F: ReadOnlyFetch, G: ReadOnlyFetch, H: ReadOnlyFetch, I: ReadOnlyFetch, J: ReadOnlyFetch, K: ReadOnlyFetch, L: ReadOnlyFetch, M: ReadOnlyFetch, N: ReadOnlyFetch, O: ReadOnlyFetch, P: ReadOnlyFetch, Q: ReadOnlyFetch, R: ReadOnlyFetch, S: ReadOnlyFetch, T: ReadOnlyFetch, U: ReadOnlyFetch, V: ReadOnlyFetch, W: ReadOnlyFetch, X: ReadOnlyFetch> ReadOnlyFetch for MultiFetch<'a, (A, B, C, D, E, F, G, H, I, J, K, L, M, N, O, P, Q, R, S, T, U, V, W, X)> {
    fn get_components(&self) -> (data: Self::Data)
        ensures
            call_ensures(A::get_components, (&self.fetches().0,), data.0),
            call_ensures(B::get_components, (&self.fetches().1,), data.1),
            call_ensures(C::get_components, (&self.fetches().2,), data.2),
            call_ensures(D::get_components, (&self.fetches().3,), data.3),
            call_ensures(E::get_components, (&self.fetches().4,), data.4),
            call_ensures(F::get_components, (&self.fetches().5,), data.5),
            call_ensures(G::get_components, (&self.fetches().6,), data.6),
            call_ensures(H::get_components, (&self.fetches().7,), data.7),
            call_ensures(I::get_components, (&self.fetches().8,), data.8),
            call_ensures(J::get_components, (&self.fetches().9,), data.9),
            call_ensures(K::get_components, (&self.fetches().10,), data.10),
            call_ensures(L::get_components, (&self.fetches().11,), data.11),
            call_ensures(M::get_components, (&self.fetches().12,), data.12),
            call_ensures(N::get_components, (&self.fetches().13,), data.13),
            call_ensures(O::get_components, (&self.fetches().14,), data.14),
            call_ensures(P::get_components, (&self.fetches().15,), data.15),
            call_ensures(Q::get_components, (&self.fetches().16,), data.16),
            call_ensures(R::get_components, (&self.fetches().17,), data.17),
            call_ensures(S::get_components, (&self.fetches().18,), data.18),
            call_ensures(T::get_components, (&self.fetches().19,), data.19),
            call_ensures(U::get_components, (&self.fetches().20,), data.20),
            call_ensures(V::get_components, (&self.fetches().21,), data.21),
            call_ensures(W::get_components, (&self.fetches().22,), data.22),
            call_ensures(X::get_components, (&self.fetches().23,), data.23),
    {
        let (a, b, c, d, e, f, g, h, i, j, k, l, m, n, o, p, q, r, s, t, u, v, w, x) = &self.fetches;
        ((A::get_components)(a), (B::get_components)(b), (C::get_components)(c), (D::get_components)(d), (E::get_components)(e), (F::get_components)(f), (G::get_components)(g), (H::get_components)(h), (I::get_components)(i), (J::get_components)(j), (K::get_components)(k), (L::get_components)(l), (M::get_components)(m), (N::get_components)(n), (O::get_components)(o), (P::get_components)(p), (Q::get_components)(q), (R::get_components)(r), (S::get_components)(s), (T::get_components)(t), (U::get_components)(u), (V::get_components)(v), (W::get_components)(w), (X::get_components)(x))
    }
}

/// Whether some view of a tuple of 24 reads `Comp`, asking the views in order.
pub fn tuple24_reads<'a, A: View<'a> + 'a, B: View<'a> + 'a, C: View<'a> + 'a, D: View<'a> + 'a, E: View<'a> + 'a, F: View<'a> + 'a, G: View<'a> + 'a, H: View<'a> + 'a, I: View<'a> + 'a, J: View<'a> + 'a, K: View<'a> + 'a, L: View<'a> + 'a, M: View<'a> + 'a, N: View<'a> + 'a, O: View<'a> + 'a, P: View<'a> + 'a, Q: View<'a> + 'a, R: View<'a> + 'a, S: View<'a> + 'a, T: View<'a> + 'a, U: View<'a> + 'a, V: View<'a> + 'a, W: View<'a> + 'a, X: View<'a> + 'a, Comp: Component>() -> (found: bool)
    ensures
        (found && call_ensures(A::reads::<Comp>, (), true))
        || (call_ensures(A::reads::<Comp>, (), false) && (
            (found && call_ensures(B::reads::<Comp>, (), true))
            || (call_ensures(B::reads::<Comp>, (), false) && (
                (found && call_ensures(C::reads::<Comp>, (), true))
                || (call_ensures(C::reads::<Comp>, (), false) && (
                    (found && call_ensures(D::reads::<Comp>, (), true))
                    || (call_ensures(D::reads::<Comp>, (), false) && (
                        (found && call_ensures(E::reads::<Comp>, (), true))
                        || (call_ensures(E::reads::<Comp>, (), false) && (
                            (found && call_ensures(F::reads::<Comp>, (), true))
                            || (call_ensures(F::reads::<Comp>, (), false) && (
                                (found && call_ensures(G::reads::<Comp>, (), true))
                                || (call_ensures(G::reads::<Comp>, (), false) && (
                                    (found && call_ensures(H::reads::<Comp>, (), true))
                                    || (call_ensures(H::reads::<Comp>, (), false) && (
                                        (found && call_ensures(I::reads::<Comp>, (), true))
                                        || (call_ensures(I::reads::<Comp>, (), false) && (
                                            (found && call_ensures(J::reads::<Comp>, (), true))
                                            || (call_ensures(J::reads::<Comp>, (), false) && (
                                                (found && call_ensures(K::reads::<Comp>, (), true))
                                                || (call_ensures(K::reads::<Comp>, (), false) && (
                                                    (found && call_ensures(L::reads::<Comp>, (), true))
                                                    || (call_ensures(L::reads::<Comp>, (), false) && (
                                                        (found && call_ensures(M::reads::<Comp>, (), true))
                                                        || (call_ensures(M::reads::<Comp>, (), false) && (
                                                            (found && call_ensures(N::reads::<Comp>, (), true))
                                                            || (call_ensures(N::reads::<Comp>, (), false) && (
                                                                (found && call_ensures(O::reads::<Comp>, (), true))
                                                                || (call_ensures(O::reads::<Comp>, (), false) && (
                                                                    (found && call_ensures(P::reads::<Comp>, (), true))
                                                                    || (call_ensures(P::reads::<Comp>, (), false) && (
                                                                        (found && call_ensures(Q::reads::<Comp>, (), true))
                                                                        || (call_ensures(Q::reads::<Comp>, (), false) && (
                                                                            (found && call_ensures(R::reads::<Comp>, (), true))
                                                                            || (call_ensures(R::reads::<Comp>, (), false) && (
                                                                                (found && call_ensures(S::reads::<Comp>, (), true))
                                                                                || (call_ensures(S::reads::<Comp>, (), false) && (
                                                                                    (found && call_ensures(T::reads::<Comp>, (), true))
                                                                                    || (call_ensures(T::reads::<Comp>, (), false) && (
                                                                                        (found && call_ensures(U::reads::<Comp>, (), true))
                                                                                        || (call_ensures(U::reads::<Comp>, (), false) && (
                                                                                            (found && call_ensures(V::reads::<Comp>, (), true))
                                                                                            || (call_ensures(V::reads::<Comp>, (), false) && (
                                                                                                (found && call_ensures(W::reads::<Comp>, (), true))
                                                                                                || (call_ensures(W::reads::<Comp>, (), false) && (
                                                                                                    call_ensures(X::reads::<Comp>, (), found))))))))))))))))))))))))))))))))))))))))))))))),
{
    (A::reads::<Comp>)()
        || (B::reads::<Comp>)()
        || (C::reads::<Comp>)()
        || (D::reads::<Comp>)()
        || (E::reads::<Comp>)()
        || (F::reads::<Comp>)()
        || (G::reads::<Comp>)()
        || (H::reads::<Comp>)()
        || (I::reads::<Comp>)()
        || (J::reads::<Comp>)()
        || (K::reads::<Comp>)()
        || (L::reads::<Comp>)()
        || (M::reads::<Comp>)()
        || (N::reads::<Comp>)()
        || (O::reads::<Comp>)()
        || (P::reads::<Comp>)()
        || (Q::reads::<Comp>)()
        || (R::reads::<Comp>)()
        || (S::reads::<Comp>)()
        || (T::reads::<Comp>)()
        || (U::reads::<Comp>)()
        || (V::reads::<Comp>)()
        || (W::reads::<Comp>)()
        || (X::reads::<Comp>)()
}

/// Whether some view of a tuple of 24 writes `Comp`, asking the views in order.
pub fn tuple24_writes<'a, A: View<'a> + 'a, B: View<'a> + 'a, C: View<'a> + 'a, D: View<'a> + 'a, E: View<'a> + 'a, F: View<'a> + 'a, G: View<'a> + 'a, H: View<'a> + 'a, I: View<'a> + 'a, J: View<'a> + 'a, K: View<'a> + 'a, L: View<'a> + 'a, M: View<'a> + 'a, N: View<'a> + 'a, O: View<'a> + 'a, P: View<'a> + 'a, Q: View<'a> + 'a, R: View<'a> + 'a, S: View<'a> + 'a, T: View<'a> + 'a, U: View<'a> + 'a, V: View<'a> + 'a, W: View<'a> + 'a, X: View<'a> + 'a, Comp: Component>() -> (found: bool)
    ensures
        (found && call_ensures(A::writes::<Comp>, (), true))
        || (call_ensures(A::writes::<Comp>, (), false) && (
            (found && call_ensures(B::writes::<Comp>, (), true))
            || (call_ensures(B::writes::<Comp>, (), false) && (
                (found && call_ensures(C::writes::<Comp>, (), true))
                || (call_ensures(C::writes::<Comp>, (), false) && (
                    (found && call_ensures(D::writes::<Comp>, (), true))
                    || (call_ensures(D::writes::<Comp>, (), false) && (
                        (found && call_ensures(E::writes::<Comp>, (), true))
                        || (call_ensures(E::writes::<Comp>, (), false) && (
                            (found && call_ensures(F::writes::<Comp>, (), true))
                            || (call_ensures(F::writes::<Comp>, (), false) && (
                                (found && call_ensures(G::writes::<Comp>, (), true))
                                || (call_ensures(G::writes::<Comp>, (), false) && (
                                    (found && call_ensures(H::writes::<Comp>, (), true))
                                    || (call_ensures(H::writes::<Comp>, (), false) && (
                                        (found && call_ensures(I::writes::<Comp>, (), true))
                                        || (call_ensures(I::writes::<Comp>, (), false) && (
                                            (found && call_ensures(J::writes::<Comp>, (), true))
                                            || (call_ensures(J::writes::<Comp>, (), false) && (
                                                (found && call_ensures(K::writes::<Comp>, (), true))
                                                || (call_ensures(K::writes::<Comp>, (), false) && (
                                                    (found && call_ensures(L::writes::<Comp>, (), true))
                                                    || (call_ensures(L::writes::<Comp>, (), false) && (
                                                        (found && call_ensures(M::writes::<Comp>, (), true))
                                                        || (call_ensures(M::writes::<Comp>, (), false) && (
                                                            (found && call_ensures(N::writes::<Comp>, (), true))
                                                            || (call_ensures(N::writes::<Comp>, (), false) && (
                                                                (found && call_ensures(O::writes::<Comp>, (), true))
                                                                || (call_ensures(O::writes::<Comp>, (), false) && (
                                                                    (found && call_ensures(P::writes::<Comp>, (), true))
                                                                    || (call_ensures(P::writes::<Comp>, (), false) && (
                                                                        (found && call_ensures(Q::writes::<Comp>, (), true))
                                                                        || (call_ensures(Q::writes::<Comp>, (), false) && (
                                                                            (found && call_ensures(R::writes::<Comp>, (), true))
                                                                            || (call_ensures(R::writes::<Comp>, (), false) && (
                                                                                (found && call_ensures(S::writes::<Comp>, (), true))
                                                                                || (call_ensures(S::writes::<Comp>, (), false) && (
                                                                                    (found && call_ensures(T::writes::<Comp>, (), true))
                                                                                    || (call_ensures(T::writes::<Comp>, (), false) && (
                                                                                        (found && call_ensures(U::writes::<Comp>, (), true))
                                                                                        || (call_ensures(U::writes::<Comp>, (), false) && (
                                                                                            (found && call_ensures(V::writes::<Comp>, (), true))
                                                                                            || (call_ensures(V::writes::<Comp>, (), false) && (
                                                                                                (found && call_ensures(W::writes::<Comp>, (), true))
                                                                                                || (call_ensures(W::writes::<Comp>, (), false) && (
                                                                                                    call_ensures(X::writes::<Comp>, (), found))))))))))))))))))))))))))))))))))))))))))))))),
{
    (A::writes::<Comp>)()
        || (B::writes::<Comp>)()
        || (C::writes::<Comp>)()
        || (D::writes::<Comp>)()
        || (E::writes::<Comp>)()
        || (F::writes::<Comp>)()
        || (G::writes::<Comp>)()
        || (H::writes::<Comp>)()
        || (I::writes::<Comp>)()
        || (J::writes::<Comp>)()
        || (K::writes::<Comp>)()
        || (L::writes::<Comp>)()
        || (M::writes::<Comp>)()
        || (N::writes::<Comp>)()
        || (O::writes::<Comp>)()
        || (P::writes::<Comp>)()
        || (Q::writes::<Comp>)()
        || (R::writes::<Comp>)()
        || (S::writes::<Comp>)()
        || (T::writes::<Comp>)()
        || (U::writes::<Comp>)()
        || (V::writes::<Comp>)()
        || (W::writes::<Comp>)()
        || (X::writes::<Comp>)()
}

/// The slice of the first fetch of a tuple of 24 that holds `Comp`.
pub fn tuple24_find<'f, A: Fetch, B: Fetch, C: Fetch, D: Fetch, E: Fetch, F: Fetch, G: Fetch, H: Fetch, I: Fetch, J: Fetch, K: Fetch, L: Fetch, M: Fetch, N: Fetch, O: Fetch, P: Fetch, Q: Fetch, R: Fetch, S: Fetch, T: Fetch, U: Fetch, V: Fetch, W: Fetch, X: Fetch, Comp: 'static>(fetches: &'f (A, B, C, D, E, F, G, H, I, J, K, L, M, N, O, P, Q, R, S, T, U, V, W, X)) -> (found: Option<&'f [Comp]>)
    ensures
        (found is Some && call_ensures(A::find::<Comp>, (&fetches.0,), found))
        || (call_ensures(A::find::<Comp>, (&fetches.0,), None) && (
            (found is Some && call_ensures(B::find::<Comp>, (&fetches.1,), found))
            || (call_ensures(B::find::<Comp>, (&fetches.1,), None) && (
                (found is Some && call_ensures(C::find::<Comp>, (&fetches.2,), found))
                || (call_ensures(C::find::<Comp>, (&fetches.2,), None) && (
                    (found is Some && call_ensures(D::find::<Comp>, (&fetches.3,), found))
                    || (call_ensures(D::find::<Comp>, (&fetches.3,), None) && (
                        (found is Some && call_ensures(E::find::<Comp>, (&fetches.4,), found))
                        || (call_ensures(E::find::<Comp>, (&fetches.4,), None) && (
                            (found is Some && call_ensures(F::find::<Comp>, (&fetches.5,), found))
                            || (call_ensures(F::find::<Comp>, (&fetches.5,), None) && (
                                (found is Some && call_ensures(G::find::<Comp>, (&fetches.6,), found))
                                || (call_ensures(G::find::<Comp>, (&fetches.6,), None) && (
                                    (found is Some && call_ensures(H::find::<Comp>, (&fetches.7,), found))
                                    || (call_ensures(H::find::<Comp>, (&fetches.7,), None) && (
                                        (found is Some && call_ensures(I::find::<Comp>, (&fetches.8,), found))
                                        || (call_ensures(I::find::<Comp>, (&fetches.8,), None) && (
                                            (found is Some && call_ensures(J::find::<Comp>, (&fetches.9,), found))
                                            || (call_ensures(J::find::<Comp>, (&fetches.9,), None) && (
                                                (found is Some && call_ensures(K::find::<Comp>, (&fetches.10,), found))
                                                || (call_ensures(K::find::<Comp>, (&fetches.10,), None) && (
                                                    (found is Some && call_ensures(L::find::<Comp>, (&fetches.11,), found))
                                                    || (call_ensures(L::find::<Comp>, (&fetches.11,), None) && (
                                                        (found is Some && call_ensures(M::find::<Comp>, (&fetches.12,), found))
                                                        || (call_ensures(M::find::<Comp>, (&fetches.12,), None) && (
                                                            (found is Some && call_ensures(N::find::<Comp>, (&fetches.13,), found))
                                                            || (call_ensures(N::find::<Comp>, (&fetches.13,), None) && (
                                                                (found is Some && call_ensures(O::find::<Comp>, (&fetches.14,), found))
                                                                || (call_ensures(O::find::<Comp>, (&fetches.14,), None) && (
                                                                    (found is Some && call_ensures(P::find::<Comp>, (&fetches.15,), found))
                                                                    || (call_ensures(P::find::<Comp>, (&fetches.15,), None) && (
                                                                        (found is Some && call_ensures(Q::find::<Comp>, (&fetches.16,), found))
                                                                        || (call_ensures(Q::find::<Comp>, (&fetches.16,), None) && (
                                                                            (found is Some && call_ensures(R::find::<Comp>, (&fetches.17,), found))
                                                                            || (call_ensures(R::find::<Comp>, (&fetches.17,), None) && (
                                                                                (found is Some && call_ensures(S::find::<Comp>, (&fetches.18,), found))
                                                                                || (call_ensures(S::find::<Comp>, (&fetches.18,), None) && (
                                                                                    (found is Some && call_ensures(T::find::<Comp>, (&fetches.19,), found))
                                                                                    || (call_ensures(T::find::<Comp>, (&fetches.19,), None) && (
                                                                                        (found is Some && call_ensures(U::find::<Comp>, (&fetches.20,), found))
                                                                                        || (call_ensures(U::find::<Comp>, (&fetches.20,), None) && (
                                                                                            (found is Some && call_ensures(V::find::<Comp>, (&fetches.21,), found))
                                                                                            || (call_ensures(V::find::<Comp>, (&fetches.21,), None) && (
                                                                                                (found is Some && call_ensures(W::find::<Comp>, (&fetches.22,), found))
                                                                                                || (call_ensures(W::find::<Comp>, (&fetches.22,), None) && (
                                                                                                    call_ensures(X::find::<Comp>, (&fetches.23,), found))))))))))))))))))))))))))))))))))))))))))))))),
{
    let (a, b, c, d, e, f, g, h, i, j, k, l, m, n, o, p, q, r, s, t, u, v, w, x) = fetches;
    if let Some(slice) = (A::find::<Comp>)(a) {
        return Some(slice);
    }
    if let Some(slice) = (B::find::<Comp>)(b) {
        return Some(slice);
    }
    if let Some(slice) = (C::find::<Comp>)(c) {
        return Some(slice);
    }
    if let Some(slice) = (D::find::<Comp>)(d) {
        return Some(slice);
    }
    if let Some(slice) = (E::find::<Comp>)(e) {
        return Some(slice);
    }
    if let Some(slice) = (F::find::<Comp>)(f) {
        return Some(slice);
    }
    if let Some(slice) = (G::find::<Comp>)(g) {
        return Some(slice);
    }
    if let Some(slice) = (H::find::<Comp>)(h) {
        return Some(slice);
    }
    if let Some(slice) = (I::find::<Comp>)(i) {
        return Some(slice);
    }
    if let Some(slice) = (J::find::<Comp>)(j) {
        return Some(slice);
    }
    if let Some(slice) = (K::find::<Comp>)(k) {
        return Some(slice);
    }
    if let Some(slice) = (L::find::<Comp>)(l) {
        return Some(slice);
    }
    if let Some(slice) = (M::find::<Comp>)(m) {
        return Some(slice);
    }
    if let Some(slice) = (N::find::<Comp>)(n) {
        return Some(slice);
    }
    if let Some(slice) = (O::find::<Comp>)(o) {
        return Some(slice);
    }
    if let Some(slice) = (P::find::<Comp>)(p) {
        return Some(slice);
    }
    if let Some(slice) = (Q::find::<Comp>)(q) {
        return Some(slice);
    }
    if let Some(slice) = (R::find::<Comp>)(r) {
        return Some(slice);
    }
    if let Some(slice) = (S::find::<Comp>)(s) {
        return Some(slice);
    }
    if let Some(slice) = (T::find::<Comp>)(t) {
        return Some(slice);
    }
    if let Some(slice) = (U::find::<Comp>)(u) {
        return Some(slice);
    }
    if let Some(slice) = (V::find::<Comp>)(v) {
        return Some(slice);
    }
    if let Some(slice) = (W::find::<Comp>)(w) {
        return Some(slice);
    }
    (X::find::<Comp>)(x)
}

/// The mutable slice of the first fetch of a tuple of 24 that holds `Comp`.
pub fn tuple24_find_mut<'f, A: Fetch, B: Fetch, C: Fetch, D: Fetch, E: Fetch, F: Fetch, G: Fetch, H: Fetch, I: Fetch, J: Fetch, K: Fetch, L: Fetch, M: Fetch, N: Fetch, O: Fetch, P: Fetch, Q: Fetch, R: Fetch, S: Fetch, T: Fetch, U: Fetch, V: Fetch, W: Fetch, X: Fetch, Comp: 'static>(fetches: &'f mut (A, B, C, D, E, F, G, H, I, J, K, L, M, N, O, P, Q, R, S, T, U, V, W, X)) -> (found: Option<&'f mut [Comp]>)
    ensures
        exists|m: &mut A|
            *m == old(fetches).0
            && *final(m) == final(fetches).0
            && ((found is Some && call_ensures(A::find_mut::<Comp>, (m,), found) && final(fetches).1 == old(fetches).1 && final(fetches).2 == old(fetches).2 && final(fetches).3 == old(fetches).3 && final(fetches).4 == old(fetches).4 && final(fetches).5 == old(fetches).5 && final(fetches).6 == old(fetches).6 && final(fetches).7 == old(fetches).7 && final(fetches).8 == old(fetches).8 && final(fetches).9 == old(fetches).9 && final(fetches).10 == old(fetches).10 && final(fetches).11 == old(fetches).11 && final(fetches).12 == old(fetches).12 && final(fetches).13 == old(fetches).13 && final(fetches).14 == old(fetches).14 && final(fetches).15 == old(fetches).15 && final(fetches).16 == old(fetches).16 && final(fetches).17 == old(fetches).17 && final(fetches).18 == old(fetches).18 && final(fetches).19 == old(fetches).19 && final(fetches).20 == old(fetches).20 && final(fetches).21 == old(fetches).21 && final(fetches).22 == old(fetches).22 && final(fetches).23 == old(fetches).23)
            || (call_ensures(A::find_mut::<Comp>, (m,), None) && (
                exists|m: &mut B|
                    *m == old(fetches).1
                    && *final(m) == final(fetches).1
                    && ((found is Some && call_ensures(B::find_mut::<Comp>, (m,), found) && final(fetches).2 == old(fetches).2 && final(fetches).3 == old(fetches).3 && final(fetches).4 == old(fetches).4 && final(fetches).5 == old(fetches).5 && final(fetches).6 == old(fetches).6 && final(fetches).7 == old(fetches).7 && final(fetches).8 == old(fetches).8 && final(fetches).9 == old(fetches).9 && final(fetches).10 == old(fetches).10 && final(fetches).11 == old(fetches).11 && final(fetches).12 == old(fetches).12 && final(fetches).13 == old(fetches).13 && final(fetches).14 == old(fetches).14 && final(fetches).15 == old(fetches).15 && final(fetches).16 == old(fetches).16 && final(fetches).17 == old(fetches).17 && final(fetches).18 == old(fetches).18 && final(fetches).19 == old(fetches).19 && final(fetches).20 == old(fetches).20 && final(fetches).21 == old(fetches).21 && final(fetches).22 == old(fetches).22 && final(fetches).23 == old(fetches).23)
                    || (call_ensures(B::find_mut::<Comp>, (m,), None) && (
                        exists|m: &mut C|
                            *m == old(fetches).2
                            && *final(m) == final(fetches).2
                            && ((found is Some && call_ensures(C::find_mut::<Comp>, (m,), found) && final(fetches).3 == old(fetches).3 && final(fetches).4 == old(fetches).4 && final(fetches).5 == old(fetches).5 && final(fetches).6 == old(fetches).6 && final(fetches).7 == old(fetches).7 && final(fetches).8 == old(fetches).8 && final(fetches).9 == old(fetches).9 && final(fetches).10 == old(fetches).10 && final(fetches).11 == old(fetches).11 && final(fetches).12 == old(fetches).12 && final(fetches).13 == old(fetches).13 && final(fetches).14 == old(fetches).14 && final(fetches).15 == old(fetches).15 && final(fetches).16 == old(fetches).16 && final(fetches).17 == old(fetches).17 && final(fetches).18 == old(fetches).18 && final(fetches).19 == old(fetches).19 && final(fetches).20 == old(fetches).20 && final(fetches).21 == old(fetches).21 && final(fetches).22 == old(fetches).22 && final(fetches).23 == old(fetches).23)
                            || (call_ensures(C::find_mut::<Comp>, (m,), None) && (
                                exists|m: &mut D|
                                    *m == old(fetches).3
                                    && *final(m) == final(fetches).3
                                    && ((found is Some && call_ensures(D::find_mut::<Comp>, (m,), found) && final(fetches).4 == old(fetches).4 && final(fetches).5 == old(fetches).5 && final(fetches).6 == old(fetches).6 && final(fetches).7 == old(fetches).7 && final(fetches).8 == old(fetches).8 && final(fetches).9 == old(fetches).9 && final(fetches).10 == old(fetches).10 && final(fetches).11 == old(fetches).11 && final(fetches).12 == old(fetches).12 && final(fetches).13 == old(fetches).13 && final(fetches).14 == old(fetches).14 && final(fetches).15 == old(fetches).15 && final(fetches).16 == old(fetches).16 && final(fetches).17 == old(fetches).17 && final(fetches).18 == old(fetches).18 && final(fetches).19 == old(fetches).19 && final(fetches).20 == old(fetches).20 && final(fetches).21 == old(fetches).21 && final(fetches).22 == old(fetches).22 && final(fetches).23 == old(fetches).23)
                                    || (call_ensures(D::find_mut::<Comp>, (m,), None) && (
                                        exists|m: &mut E|
                                            *m == old(fetches).4
                                            && *final(m) == final(fetches).4
                                            && ((found is Some && call_ensures(E::find_mut::<Comp>, (m,), found) && final(fetches).5 == old(fetches).5 && final(fetches).6 == old(fetches).6 && final(fetches).7 == old(fetches).7 && final(fetches).8 == old(fetches).8 && final(fetches).9 == old(fetches).9 && final(fetches).10 == old(fetches).10 && final(fetches).11 == old(fetches).11 && final(fetches).12 == old(fetches).12 && final(fetches).13 == old(fetches).13 && final(fetches).14 == old(fetches).14 && final(fetches).15 == old(fetches).15 && final(fetches).16 == old(fetches).16 && final(fetches).17 == old(fetches).17 && final(fetches).18 == old(fetches).18 && final(fetches).19 == old(fetches).19 && final(fetches).20 == old(fetches).20 && final(fetches).21 == old(fetches).21 && final(fetches).22 == old(fetches).22 && final(fetches).23 == old(fetches).23)
                                            || (call_ensures(E::find_mut::<Comp>, (m,), None) && (
                                                exists|m: &mut F|
                                                    *m == old(fetches).5
                                                    && *final(m) == final(fetches).5
                                                    && ((found is Some && call_ensures(F::find_mut::<Comp>, (m,), found) && final(fetches).6 == old(fetches).6 && final(fetches).7 == old(fetches).7 && final(fetches).8 == old(fetches).8 && final(fetches).9 == old(fetches).9 && final(fetches).10 == old(fetches).10 && final(fetches).11 == old(fetches).11 && final(fetches).12 == old(fetches).12 && final(fetches).13 == old(fetches).13 && final(fetches).14 == old(fetches).14 && final(fetches).15 == old(fetches).15 && final(fetches).16 == old(fetches).16 && final(fetches).17 == old(fetches).17 && final(fetches).18 == old(fetches).18 && final(fetches).19 == old(fetches).19 && final(fetches).20 == old(fetches).20 && final(fetches).21 == old(fetches).21 && final(fetches).22 == old(fetches).22 && final(fetches).23 == old(fetches).23)
                                                    || (call_ensures(F::find_mut::<Comp>, (m,), None) && (
                                                        exists|m: &mut G|
                                                            *m == old(fetches).6
                                                            && *final(m) == final(fetches).6
                                                            && ((found is Some && call_ensures(G::find_mut::<Comp>, (m,), found) && final(fetches).7 == old(fetches).7 && final(fetches).8 == old(fetches).8 && final(fetches).9 == old(fetches).9 && final(fetches).10 == old(fetches).10 && final(fetches).11 == old(fetches).11 && final(fetches).12 == old(fetches).12 && final(fetches).13 == old(fetches).13 && final(fetches).14 == old(fetches).14 && final(fetches).15 == old(fetches).15 && final(fetches).16 == old(fetches).16 && final(fetches).17 == old(fetches).17 && final(fetches).18 == old(fetches).18 && final(fetches).19 == old(fetches).19 && final(fetches).20 == old(fetches).20 && final(fetches).21 == old(fetches).21 && final(fetches).22 == old(fetches).22 && final(fetches).23 == old(fetches).23)
                                                            || (call_ensures(G::find_mut::<Comp>, (m,), None) && (
                                                                exists|m: &mut H|
                                                                    *m == old(fetches).7
                                                                    && *final(m) == final(fetches).7
                                                                    && ((found is Some && call_ensures(H::find_mut::<Comp>, (m,), found) && final(fetches).8 == old(fetches).8 && final(fetches).9 == old(fetches).9 && final(fetches).10 == old(fetches).10 && final(fetches).11 == old(fetches).11 && final(fetches).12 == old(fetches).12 && final(fetches).13 == old(fetches).13 && final(fetches).14 == old(fetches).14 && final(fetches).15 == old(fetches).15 && final(fetches).16 == old(fetches).16 && final(fetches).17 == old(fetches).17 && final(fetches).18 == old(fetches).18 && final(fetches).19 == old(fetches).19 && final(fetches).20 == old(fetches).20 && final(fetches).21 == old(fetches).21 && final(fetches).22 == old(fetches).22 && final(fetches).23 == old(fetches).23)
                                                                    || (call_ensures(H::find_mut::<Comp>, (m,), None) && (
                                                                        exists|m: &mut I|
                                                                            *m == old(fetches).8
                                                                            && *final(m) == final(fetches).8
                                                                            && ((found is Some && call_ensures(I::find_mut::<Comp>, (m,), found) && final(fetches).9 == old(fetches).9 && final(fetches).10 == old(fetches).10 && final(fetches).11 == old(fetches).11 && final(fetches).12 == old(fetches).12 && final(fetches).13 == old(fetches).13 && final(fetches).14 == old(fetches).14 && final(fetches).15 == old(fetches).15 && final(fetches).16 == old(fetches).16 && final(fetches).17 == old(fetches).17 && final(fetches).18 == old(fetches).18 && final(fetches).19 == old(fetches).19 && final(fetches).20 == old(fetches).20 && final(fetches).21 == old(fetches).21 && final(fetches).22 == old(fetches).22 && final(fetches).23 == old(fetches).23)
                                                                            || (call_ensures(I::find_mut::<Comp>, (m,), None) && (
                                                                                exists|m: &mut J|
                                                                                    *m == old(fetches).9
                                                                                    && *final(m) == final(fetches).9
                                                                                    && ((found is Some && call_ensures(J::find_mut::<Comp>, (m,), found) && final(fetches).10 == old(fetches).10 && final(fetches).11 == old(fetches).11 && final(fetches).12 == old(fetches).12 && final(fetches).13 == old(fetches).13 && final(fetches).14 == old(fetches).14 && final(fetches).15 == old(fetches).15 && final(fetches).16 == old(fetches).16 && final(fetches).17 == old(fetches).17 && final(fetches).18 == old(fetches).18 && final(fetches).19 == old(fetches).19 && final(fetches).20 == old(fetches).20 && final(fetches).21 == old(fetches).21 && final(fetches).22 == old(fetches).22 && final(fetches).23 == old(fetches).23)
                                                                                    || (call_ensures(J::find_mut::<Comp>, (m,), None) && (
                                                                                        exists|m: &mut K|
                                                                                            *m == old(fetches).10
                                                                                            && *final(m) == final(fetches).10
                                                                                            && ((found is Some && call_ensures(K::find_mut::<Comp>, (m,), found) && final(fetches).11 == old(fetches).11 && final(fetches).12 == old(fetches).12 && final(fetches).13 == old(fetches).13 && final(fetches).14 == old(fetches).14 && final(fetches).15 == old(fetches).15 && final(fetches).16 == old(fetches).16 && final(fetches).17 == old(fetches).17 && final(fetches).18 == old(fetches).18 && final(fetches).19 == old(fetches).19 && final(fetches).20 == old(fetches).20 && final(fetches).21 == old(fetches).21 && final(fetches).22 == old(fetches).22 && final(fetches).23 == old(fetches).23)
                                                                                            || (call_ensures(K::find_mut::<Comp>, (m,), None) && (
                                                                                                exists|m: &mut L|
                                                                                                    *m == old(fetches).11
                                                                                                    && *final(m) == final(fetches).11
                                                                                                    && ((found is Some && call_ensures(L::find_mut::<Comp>, (m,), found) && final(fetches).12 == old(fetches).12 && final(fetches).13 == old(fetches).13 && final(fetches).14 == old(fetches).14 && final(fetches).15 == old(fetches).15 && final(fetches).16 == old(fetches).16 && final(fetches).17 == old(fetches).17 && final(fetches).18 == old(fetches).18 && final(fetches).19 == old(fetches).19 && final(fetches).20 == old(fetches).20 && final(fetches).21 == old(fetches).21 && final(fetches).22 == old(fetches).22 && final(fetches).23 == old(fetches).23)
                                                                                                    || (call_ensures(L::find_mut::<Comp>, (m,), None) && (
                                                                                                        exists|m: &mut M|
                                                                                                            *m == old(fetches).12
                                                                                                            && *final(m) == final(fetches).12
                                                                                                            && ((found is Some && call_ensures(M::find_mut::<Comp>, (m,), found) && final(fetches).13 == old(fetches).13 && final(fetches).14 == old(fetches).14 && final(fetches).15 == old(fetches).15 && final(fetches).16 == old(fetches).16 && final(fetches).17 == old(fetches).17 && final(fetches).18 == old(fetches).18 && final(fetches).19 == old(fetches).19 && final(fetches).20 == old(fetches).20 && final(fetches).21 == old(fetches).21 && final(fetches).22 == old(fetches).22 && final(fetches).23 == old(fetches).23)
                                                                                                            || (call_ensures(M::find_mut::<Comp>, (m,), None) && (
                                                                                                                exists|m: &mut N|
                                                                                                                    *m == old(fetches).13
                                                                                                                    && *final(m) == final(fetches).13
                                                                                                                    && ((found is Some && call_ensures(N::find_mut::<Comp>, (m,), found) && final(fetches).14 == old(fetches).14 && final(fetches).15 == old(fetches).15 && final(fetches).16 == old(fetches).16 && final(fetches).17 == old(fetches).17 && final(fetches).18 == old(fetches).18 && final(fetches).19 == old(fetches).19 && final(fetches).20 == old(fetches).20 && final(fetches).21 == old(fetches).21 && final(fetches).22 == old(fetches).22 && final(fetches).23 == old(fetches).23)
                                                                                                                    || (call_ensures(N::find_mut::<Comp>, (m,), None) && (
                                                                                                                        exists|m: &mut O|
                                                                                                                            *m == old(fetches).14
                                                                                                                            && *final(m) == final(fetches).14
                                                                                                                            && ((found is Some && call_ensures(O::find_mut::<Comp>, (m,), found) && final(fetches).15 == old(fetches).15 && final(fetches).16 == old(fetches).16 && final(fetches).17 == old(fetches).17 && final(fetches).18 == old(fetches).18 && final(fetches).19 == old(fetches).19 && final(fetches).20 == old(fetches).20 && final(fetches).21 == old(fetches).21 && final(fetches).22 == old(fetches).22 && final(fetches).23 == old(fetches).23)
                                                                                                                            || (call_ensures(O::find_mut::<Comp>, (m,), None) && (
                                                                                                                                exists|m: &mut P|
                                                                                                                                    *m == old(fetches).15
                                                                                                                                    && *final(m) == final(fetches).15
                                                                                                                                    && ((found is Some && call_ensures(P::find_mut::<Comp>, (m,), found) && final(fetches).16 == old(fetches).16 && final(fetches).17 == old(fetches).17 && final(fetches).18 == old(fetches).18 && final(fetches).19 == old(fetches).19 && final(fetches).20 == old(fetches).20 && final(fetches).21 == old(fetches).21 && final(fetches).22 == old(fetches).22 && final(fetches).23 == old(fetches).23)
                                                                                                                                    || (call_ensures(P::find_mut::<Comp>, (m,), None) && (
                                                                                                                                        exists|m: &mut Q|
                                                                                                                                            *m == old(fetches).16
                                                                                                                                            && *final(m) == final(fetches).16
                                                                                                                                            && ((found is Some && call_ensures(Q::find_mut::<Comp>, (m,), found) && final(fetches).17 == old(fetches).17 && final(fetches).18 == old(fetches).18 && final(fetches).19 == old(fetches).19 && final(fetches).20 == old(fetches).20 && final(fetches).21 == old(fetches).21 && final(fetches).22 == old(fetches).22 && final(fetches).23 == old(fetches).23)
                                                                                                                                            || (call_ensures(Q::find_mut::<Comp>, (m,), None) && (
                                                                                                                                                exists|m: &mut R|
                                                                                                                                                    *m == old(fetches).17
                                                                                                                                                    && *final(m) == final(fetches).17
                                                                                                                                                    && ((found is Some && call_ensures(R::find_mut::<Comp>, (m,), found) && final(fetches).18 == old(fetches).18 && final(fetches).19 == old(fetches).19 && final(fetches).20 == old(fetches).20 && final(fetches).21 == old(fetches).21 && final(fetches).22 == old(fetches).22 && final(fetches).23 == old(fetches).23)
                                                                                                                                                    || (call_ensures(R::find_mut::<Comp>, (m,), None) && (
                                                                                                                                                        exists|m: &mut S|
                                                                                                                                                            *m == old(fetches).18
                                                                                                                                                            && *final(m) == final(fetches).18
                                                                                                                                                            && ((found is Some && call_ensures(S::find_mut::<Comp>, (m,), found) && final(fetches).19 == old(fetches).19 && final(fetches).20 == old(fetches).20 && final(fetches).21 == old(fetches).21 && final(fetches).22 == old(fetches).22 && final(fetches).23 == old(fetches).23)
                                                                                                                                                            || (call_ensures(S::find_mut::<Comp>, (m,), None) && (
                                                                                                                                                                exists|m: &mut T|
                                                                                                                                                                    *m == old(fetches).19
                                                                                                                                                                    && *final(m) == final(fetches).19
                                                                                                                                                                    && ((found is Some && call_ensures(T::find_mut::<Comp>, (m,), found) && final(fetches).20 == old(fetches).20 && final(fetches).21 == old(fetches).21 && final(fetches).22 == old(fetches).22 && final(fetches).23 == old(fetches).23)
                                                                                                                                                                    || (call_ensures(T::find_mut::<Comp>, (m,), None) && (
                                                                                                                                                                        exists|m: &mut U|
                                                                                                                                                                            *m == old(fetches).20
                                                                                                                                                                            && *final(m) == final(fetches).20
                                                                                                                                                                            && ((found is Some && call_ensures(U::find_mut::<Comp>, (m,), found) && final(fetches).21 == old(fetches).21 && final(fetches).22 == old(fetches).22 && final(fetches).23 == old(fetches).23)
                                                                                                                                                                            || (call_ensures(U::find_mut::<Comp>, (m,), None) && (
                                                                                                                                                                                exists|m: &mut V|
                                                                                                                                                                                    *m == old(fetches).21
                                                                                                                                                                                    && *final(m) == final(fetches).21
                                                                                                                                                                                    && ((found is Some && call_ensures(V::find_mut::<Comp>, (m,), found) && final(fetches).22 == old(fetches).22 && final(fetches).23 == old(fetches).23)
                                                                                                                                                                                    || (call_ensures(V::find_mut::<Comp>, (m,), None) && (
                                                                                                                                                                                        exists|m: &mut W|
                                                                                                                                                                                            *m == old(fetches).22
                                                                                                                                                                                            && *final(m) == final(fetches).22
                                                                                                                                                                                            && ((found is Some && call_ensures(W::find_mut::<Comp>, (m,), found) && final(fetches).23 == old(fetches).23)
                                                                                                                                                                                            || (call_ensures(W::find_mut::<Comp>, (m,), None) && (
                                                                                                                                                                                                exists|m: &mut X|
                                                                                                                                                                                                    *m == old(fetches).23
                                                                                                                                                                                                    && *final(m) == final(fetches).23
                                                                                                                                                                                                    && call_ensures(X::find_mut::<Comp>, (m,), found)))))))))))))))))))))))))))))))))))))))))))))))))))))))))))))))))))))),
{
    let found = (A::find_mut::<Comp>)(&mut fetches.0);
    if found.is_some() {
        return found;
    }
    let found = (B::find_mut::<Comp>)(&mut fetches.1);
    if found.is_some() {
        return found;
    }
    let found = (C::find_mut::<Comp>)(&mut fetches.2);
    if found.is_some() {
        return found;
    }
    let found = (D::find_mut::<Comp>)(&mut fetches.3);
    if found.is_some() {
        return found;
    }
    let found = (E::find_mut::<Comp>)(&mut fetches.4);
    if found.is_some() {
        return found;
    }
    let found = (F::find_mut::<Comp>)(&mut fetches.5);
    if found.is_some() {
        return found;
    }
    let found = (G::find_mut::<Comp>)(&mut fetches.6);
    if found.is_some() {
        return found;
    }
    let found = (H::find_mut::<Comp>)(&mut fetches.7);
    if found.is_some() {
        return found;
    }
    let found = (I::find_mut::<Comp>)(&mut fetches.8);
    if found.is_some() {
        return found;
    }
    let found = (J::find_mut::<Comp>)(&mut fetches.9);
    if found.is_some() {
        return found;
    }
    let found = (K::find_mut::<Comp>)(&mut fetches.10);
    if found.is_some() {
        return found;
    }
    let found = (L::find_mut::<Comp>)(&mut fetches.11);
    if found.is_some() {
        return found;
    }
    let found = (M::find_mut::<Comp>)(&mut fetches.12);
    if found.is_some() {
        return found;
    }
    let found = (N::find_mut::<Comp>)(&mut fetches.13);
    if found.is_some() {
        return found;
    }
    let found = (O::find_mut::<Comp>)(&mut fetches.14);
    if found.is_some() {
        return found;
    }
    let found = (P::find_mut::<Comp>)(&mut fetches.15);
    if found.is_some() {
        return found;
    }
    let found = (Q::find_mut::<Comp>)(&mut fetches.16);
    if found.is_some() {
        return found;
    }
    let found = (R::find_mut::<Comp>)(&mut fetches.17);
    if found.is_some() {
        return found;
    }
    let found = (S::find_mut::<Comp>)(&mut fetches.18);
    if found.is_some() {
        return found;
    }
    let found = (T::find_mut::<Comp>)(&mut fetches.19);
    if found.is_some() {
        return found;
    }
    let found = (U::find_mut::<Comp>)(&mut fetches.20);
    if found.is_some() {
        return found;
    }
    let found = (V::find_mut::<Comp>)(&mut fetches.21);
    if found.is_some() {
        return found;
    }
    let found = (W::find_mut::<Comp>)(&mut fetches.22);
    if found.is_some() {
        return found;
    }
    (X::find_mut::<Comp>)(&mut fetches.23)
}

/// The version of `Comp` in the first fetch of a tuple of 24 that holds it.
pub fn tuple24_version<A: Fetch, B: Fetch, C: Fetch, D: Fetch, E: Fetch, F: Fetch, G: Fetch, H: Fetch, I: Fetch, J: Fetch, K: Fetch, L: Fetch, M: Fetch, N: Fetch, O: Fetch, P: Fetch, Q: Fetch, R: Fetch, S: Fetch, T: Fetch, U: Fetch, V: Fetch, W: Fetch, X: Fetch, Comp: Component>(fetches: &(A, B, C, D, E, F, G, H, I, J, K, L, M, N, O, P, Q, R, S, T, U, V, W, X)) -> (version: Option<u64>)
    ensures
        (version is Some && call_ensures(A::version::<Comp>, (&fetches.0,), version))
        || (call_ensures(A::version::<Comp>, (&fetches.0,), None) && (
            (version is Some && call_ensures(B::version::<Comp>, (&fetches.1,), version))
            || (call_ensures(B::version::<Comp>, (&fetches.1,), None) && (
                (version is Some && call_ensures(C::version::<Comp>, (&fetches.2,), version))
                || (call_ensures(C::version::<Comp>, (&fetches.2,), None) && (
                    (version is Some && call_ensures(D::version::<Comp>, (&fetches.3,), version))
                    || (call_ensures(D::version::<Comp>, (&fetches.3,), None) && (
                        (version is Some && call_ensures(E::version::<Comp>, (&fetches.4,), version))
                        || (call_ensures(E::version::<Comp>, (&fetches.4,), None) && (
                            (version is Some && call_ensures(F::version::<Comp>, (&fetches.5,), version))
                            || (call_ensures(F::version::<Comp>, (&fetches.5,), None) && (
                                (version is Some && call_ensures(G::version::<Comp>, (&fetches.6,), version))
                                || (call_ensures(G::version::<Comp>, (&fetches.6,), None) && (
                                    (version is Some && call_ensures(H::version::<Comp>, (&fetches.7,), version))
                                    || (call_ensures(H::version::<Comp>, (&fetches.7,), None) && (
                                        (version is Some && call_ensures(I::version::<Comp>, (&fetches.8,), version))
                                        || (call_ensures(I::version::<Comp>, (&fetches.8,), None) && (
                                            (version is Some && call_ensures(J::version::<Comp>, (&fetches.9,), version))
                                            || (call_ensures(J::version::<Comp>, (&fetches.9,), None) && (
                                                (version is Some && call_ensures(K::version::<Comp>, (&fetches.10,), version))
                                                || (call_ensures(K::version::<Comp>, (&fetches.10,), None) && (
                                                    (version is Some && call_ensures(L::version::<Comp>, (&fetches.11,), version))
                                                    || (call_ensures(L::version::<Comp>, (&fetches.11,), None) && (
                                                        (version is Some && call_ensures(M::version::<Comp>, (&fetches.12,), version))
                                                        || (call_ensures(M::version::<Comp>, (&fetches.12,), None) && (
                                                            (version is Some && call_ensures(N::version::<Comp>, (&fetches.13,), version))
                                                            || (call_ensures(N::version::<Comp>, (&fetches.13,), None) && (
                                                                (version is Some && call_ensures(O::version::<Comp>, (&fetches.14,), version))
                                                                || (call_ensures(O::version::<Comp>, (&fetches.14,), None) && (
                                                                    (version is Some && call_ensures(P::version::<Comp>, (&fetches.15,), version))
                                                                    || (call_ensures(P::version::<Comp>, (&fetches.15,), None) && (
                                                                        (version is Some && call_ensures(Q::version::<Comp>, (&fetches.16,), version))
                                                                        || (call_ensures(Q::version::<Comp>, (&fetches.16,), None) && (
                                                                            (version is Some && call_ensures(R::version::<Comp>, (&fetches.17,), version))
                                                                            || (call_ensures(R::version::<Comp>, (&fetches.17,), None) && (
                                                                                (version is Some && call_ensures(S::version::<Comp>, (&fetches.18,), version))
                                                                                || (call_ensures(S::version::<Comp>, (&fetches.18,), None) && (
                                                                                    (version is Some && call_ensures(T::version::<Comp>, (&fetches.19,), version))
                                                                                    || (call_ensures(T::version::<Comp>, (&fetches.19,), None) && (
                                                                                        (version is Some && call_ensures(U::version::<Comp>, (&fetches.20,), version))
                                                                                        || (call_ensures(U::version::<Comp>, (&fetches.20,), None) && (
                                                                                            (version is Some && call_ensures(V::version::<Comp>, (&fetches.21,), version))
                                                                                            || (call_ensures(V::version::<Comp>, (&fetches.21,), None) && (
                                                                                                (version is Some && call_ensures(W::version::<Comp>, (&fetches.22,), version))
                                                                                                || (call_ensures(W::version::<Comp>, (&fetches.22,), None) && (
                                                                                                    call_ensures(X::version::<Comp>, (&fetches.23,), version))))))))))))))))))))))))))))))))))))))))))))))),
{
    let (a, b, c, d, e, f, g, h, i, j, k, l, m, n, o, p, q, r, s, t, u, v, w, x) = fetches;
    if let Some(version) = (A::version::<Comp>)(a) {
        return Some(version);
    }
    if let Some(version) = (B::version::<Comp>)(b) {
        return Some(version);
    }
    if let Some(version) = (C::version::<Comp>)(c) {
        return Some(version);
    }
    if let Some(version) = (D::version::<Comp>)(d) {
        return Some(version);
    }
    if let Some(version) = (E::version::<Comp>)(e) {
        return Some(version);
    }
    if let Some(version) = (F::version::<Comp>)(f) {
        return Some(version);
    }
    if let Some(version) = (G::version::<Comp>)(g) {
        return Some(version);
    }
    if let Some(version) = (H::version::<Comp>)(h) {
        return Some(version);
    }
    if let Some(version) = (I::version::<Comp>)(i) {
        return Some(version);
    }
    if let Some(version) = (J::version::<Comp>)(j) {
        return Some(version);
    }
    if let Some(version) = (K::version::<Comp>)(k) {
        return Some(version);
    }
    if let Some(version) = (L::version::<Comp>)(l) {
        return Some(version);
    }
    if let Some(version) = (M::version::<Comp>)(m) {
        return Some(version);
    }
    if let Some(version) = (N::version::<Comp>)(n) {
        return Some(version);
    }
    if let Some(version) = (O::version::<Comp>)(o) {
        return Some(version);
    }
    if let Some(version) = (P::version::<Comp>)(p) {
        return Some(version);
    }
    if let Some(version) = (Q::version::<Comp>)(q) {
        return Some(version);
    }
    if let Some(version) = (R::version::<Comp>)(r) {
        return Some(version);
    }
    if let Some(version) = (S::version::<Comp>)(s) {
        return Some(version);
    }
    if let Some(version) = (T::version::<Comp>)(t) {
        return Some(version);
    }
    if let Some(version) = (U::version::<Comp>)(u) {
        return Some(version);
    }
    if let Some(version) = (V::version::<Comp>)(v) {
        return Some(version);
    }
    if let Some(version) = (W::version::<Comp>)(w) {
        return Some(version);
    }
    (X::version::<Comp>)(x)
}

// Tuples of 25 views.

impl<A: DefaultFilter, B: DefaultFilter, C: DefaultFilter, D: DefaultFilter, E: DefaultFilter, F: DefaultFilter, G: DefaultFilter, H: DefaultFilter, I: DefaultFilter, J: DefaultFilter, K: DefaultFilter, L: DefaultFilter, M: DefaultFilter, N: DefaultFilter, O: DefaultFilter, P: DefaultFilter, Q: DefaultFilter, R: DefaultFilter, S: DefaultFilter, T: DefaultFilter, U: DefaultFilter, V: DefaultFilter, W: DefaultFilter, X: DefaultFilter, Y: DefaultFilter> DefaultFilter for (A, B, C, D, E, F, G, H, I, J, K, L, M, N, O, P, Q, R, S, T, U, V, W, X, Y) {
    type Filter = (A::Filter, B::Filter, C::Filter, D::Filter, E::Filter, F::Filter, G::Filter, H::Filter, I::Filter, J::Filter, K::Filter, L::Filter, M::Filter, N::Filter, O::Filter, P::Filter, Q::Filter, R::Filter, S::Filter, T::Filter, U::Filter, V::Filter, W::Filter, X::Filter, Y::Filter);
}

impl<'a, A: View<'a> + 'a, B: View<'a> + 'a, C: View<'a> + 'a, D: View<'a> + 'a, E: View<'a> + 'a, F: View<'a> + 'a, G: View<'a> + 'a, H: View<'a> + 'a, I: View<'a> + 'a, J: View<'a> + 'a, K: View<'a> + 'a, L: View<'a> + 'a, M: View<'a> + 'a, N: View<'a> + 'a, O: View<'a> + 'a, P: View<'a> + 'a, Q: View<'a> + 'a, R: View<'a> + 'a, S: View<'a> + 'a, T: View<'a> + 'a, U: View<'a> + 'a, V: View<'a> + 'a, W: View<'a> + 'a, X: View<'a> + 'a, Y: View<'a> + 'a> View<'a> for (A, B, C, D, E, F, G, H, I, J, K, L, M, N, O, P, Q, R, S, T, U, V, W, X, Y) {
    type Element = <Self::Fetch as IntoIndexableIter>::Item;
    type Fetch = MultiFetch<'a, (A::Fetch, B::Fetch, C::Fetch, D::Fetch, E::Fetch, F::Fetch, G::Fetch, H::Fetch, I::Fetch, J::Fetch, K::Fetch, L::Fetch, M::Fetch, N::Fetch, O::Fetch, P::Fetch, Q::Fetch, R::Fetch, S::Fetch, T::Fetch, U::Fetch, V::Fetch, W::Fetch, X::Fetch, Y::Fetch)>;

    fn validate() -> (valid: bool)
        ensures
            exists|reads: Seq<Vec<ComponentTypeId>>, writes: Seq<Vec<ComponentTypeId>>|
                reads.len() == 25 && writes.len() == 25
                && call_ensures(A::reads_types, (), reads[0])
                && call_ensures(A::writes_types, (), writes[0])
                && call_ensures(B::reads_types, (), reads[1])
                && call_ensures(B::writes_types, (), writes[1])
                && call_ensures(C::reads_types, (), reads[2])
                && call_ensures(C::writes_types, (), writes[2])
                && call_ensures(D::reads_types, (), reads[3])
                && call_ensures(D::writes_types, (), writes[3])
                && call_ensures(E::reads_types, (), reads[4])
                && call_ensures(E::writes_types, (), writes[4])
                && call_ensures(F::reads_types, (), reads[5])
                && call_ensures(F::writes_types, (), writes[5])
                && call_ensures(G::reads_types, (), reads[6])
                && call_ensures(G::writes_types, (), writes[6])
                && call_ensures(H::reads_types, (), reads[7])
                && call_ensures(H::writes_types, (), writes[7])
                && call_ensures(I::reads_types, (), reads[8])
                && call_ensures(I::writes_types, (), writes[8])
                && call_ensures(J::reads_types, (), reads[9])
                && call_ensures(J::writes_types, (), writes[9])
                && call_ensures(K::reads_types, (), reads[10])
                && call_ensures(K::writes_types, (), writes[10])
                && call_ensures(L::reads_types, (), reads[11])
                && call_ensures(L::writes_types, (), writes[11])
                && call_ensures(M::reads_types, (), reads[12])
                && call_ensures(M::writes_types, (), writes[12])
                && call_ensures(N::reads_types, (), reads[13])
                && call_ensures(N::writes_types, (), writes[13])
                && call_ensures(O::reads_types, (), reads[14])
                && call_ensures(O::writes_types, (), writes[14])
                && call_ensures(P::reads_types, (), reads[15])
                && call_ensures(P::writes_types, (), writes[15])
                && call_ensures(Q::reads_types, (), reads[16])
                && call_ensures(Q::writes_types, (), writes[16])
                && call_ensures(R::reads_types, (), reads[17])
                && call_ensures(R::writes_types, (), writes[17])
                && call_ensures(S::reads_types, (), reads[18])
                && call_ensures(S::writes_types, (), writes[18])
                && call_ensures(T::reads_types, (), reads[19])
                && call_ensures(T::writes_types, (), writes[19])
                && call_ensures(U::reads_types, (), reads[20])
                && call_ensures(U::writes_types, (), writes[20])
                && call_ensures(V::reads_types, (), reads[21])
                && call_ensures(V::writes_types, (), writes[21])
                && call_ensures(W::reads_types, (), reads[22])
                && call_ensures(W::writes_types, (), writes[22])
                && call_ensures(X::reads_types, (), reads[23])
                && call_ensures(X::writes_types, (), writes[23])
                && call_ensures(Y::reads_types, (), reads[24])
                && call_ensures(Y::writes_types, (), writes[24])
                && valid == conflict_free(type_lists(reads), type_lists(writes)),
    {
        let reads = vec![(A::reads_types)(), (B::reads_types)(), (C::reads_types)(), (D::reads_types)(), (E::reads_types)(), (F::reads_types)(), (G::reads_types)(), (H::reads_types)(), (I::reads_types)(), (J::reads_types)(), (K::reads_types)(), (L::reads_types)(), (M::reads_types)(), (N::reads_types)(), (O::reads_types)(), (P::reads_types)(), (Q::reads_types)(), (R::reads_types)(), (S::reads_types)(), (T::reads_types)(), (U::reads_types)(), (V::reads_types)(), (W::reads_types)(), (X::reads_types)(), (Y::reads_types)()];
        let writes = vec![(A::writes_types)(), (B::writes_types)(), (C::writes_types)(), (D::writes_types)(), (E::writes_types)(), (F::writes_types)(), (G::writes_types)(), (H::writes_types)(), (I::writes_types)(), (J::writes_types)(), (K::writes_types)(), (L::writes_types)(), (M::writes_types)(), (N::writes_types)(), (O::writes_types)(), (P::writes_types)(), (Q::writes_types)(), (R::writes_types)(), (S::writes_types)(), (T::writes_types)(), (U::writes_types)(), (V::writes_types)(), (W::writes_types)(), (X::writes_types)(), (Y::writes_types)()];
        let valid = accesses_conflict_free(&reads, &writes);
        assert(
            reads@.len() == 25 && writes@.len() == 25
            && call_ensures(A::reads_types, (), reads@[0])
            && call_ensures(A::writes_types, (), writes@[0])
            && call_ensures(B::reads_types, (), reads@[1])
            && call_ensures(B::writes_types, (), writes@[1])
            && call_ensures(C::reads_types, (), reads@[2])
            && call_ensures(C::writes_types, (), writes@[2])
            && call_ensures(D::reads_types, (), reads@[3])
            && call_ensures(D::writes_types, (), writes@[3])
            && call_ensures(E::reads_types, (), reads@[4])
            && call_ensures(E::writes_types, (), writes@[4])
            && call_ensures(F::reads_types, (), reads@[5])
            && call_ensures(F::writes_types, (), writes@[5])
            && call_ensures(G::reads_types, (), reads@[6])
            && call_ensures(G::writes_types, (), writes@[6])
            && call_ensures(H::reads_types, (), reads@[7])
            && call_ensures(H::writes_types, (), writes@[7])
            && call_ensures(I::reads_types, (), reads@[8])
            && call_ensures(I::writes_types, (), writes@[8])
            && call_ensures(J::reads_types, (), reads@[9])
            && call_ensures(J::writes_types, (), writes@[9])
            && call_ensures(K::reads_types, (), reads@[10])
            && call_ensures(K::writes_types, (), writes@[10])
            && call_ensures(L::reads_types, (), reads@[11])
            && call_ensures(L::writes_types, (), writes@[11])
            && call_ensures(M::reads_types, (), reads@[12])
            && call_ensures(M::writes_types, (), writes@[12])
            && call_ensures(N::reads_types, (), reads@[13])
            && call_ensures(N::writes_types, (), writes@[13])
            && call_ensures(O::reads_types, (), reads@[14])
            && call_ensures(O::writes_types, (), writes@[14])
            && call_ensures(P::reads_types, (), reads@[15])
            && call_ensures(P::writes_types, (), writes@[15])
            && call_ensures(Q::reads_types, (), reads@[16])
            && call_ensures(Q::writes_types, (), writes@[16])
            && call_ensures(R::reads_types, (), reads@[17])
            && call_ensures(R::writes_types, (), writes@[17])
            && call_ensures(S::reads_types, (), reads@[18])
            && call_ensures(S::writes_types, (), writes@[18])
            && call_ensures(T::reads_types, (), reads@[19])
            && call_ensures(T::writes_types, (), writes@[19])
            && call_ensures(U::reads_types, (), reads@[20])
            && call_ensures(U::writes_types, (), writes@[20])
            && call_ensures(V::reads_types, (), reads@[21])
            && call_ensures(V::writes_types, (), writes@[21])
            && call_ensures(W::reads_types, (), reads@[22])
            && call_ensures(W::writes_types, (), writes@[22])
            && call_ensures(X::reads_types, (), reads@[23])
            && call_ensures(X::writes_types, (), writes@[23])
            && call_ensures(Y::reads_types, (), reads@[24])
            && call_ensures(Y::writes_types, (), writes@[24])
            && valid == conflict_free(type_lists(reads@), type_lists(writes@))
        );
        valid
    }

    fn reads_types() -> (types: Vec<ComponentTypeId>)
        ensures
            exists|lists: Seq<Vec<ComponentTypeId>>|
                lists.len() == 25
                && call_ensures(A::reads_types, (), lists[0])
                && call_ensures(B::reads_types, (), lists[1])
                && call_ensures(C::reads_types, (), lists[2])
                && call_ensures(D::reads_types, (), lists[3])
                && call_ensures(E::reads_types, (), lists[4])
                && call_ensures(F::reads_types, (), lists[5])
                && call_ensures(G::reads_types, (), lists[6])
                && call_ensures(H::reads_types, (), lists[7])
                && call_ensures(I::reads_types, (), lists[8])
                && call_ensures(J::reads_types, (), lists[9])
                && call_ensures(K::reads_types, (), lists[10])
                && call_ensures(L::reads_types, (), lists[11])
                && call_ensures(M::reads_types, (), lists[12])
                && call_ensures(N::reads_types, (), lists[13])
                && call_ensures(O::reads_types, (), lists[14])
                && call_ensures(P::reads_types, (), lists[15])
                && call_ensures(Q::reads_types, (), lists[16])
                && call_ensures(R::reads_types, (), lists[17])
                && call_ensures(S::reads_types, (), lists[18])
                && call_ensures(T::reads_types, (), lists[19])
                && call_ensures(U::reads_types, (), lists[20])
                && call_ensures(V::reads_types, (), lists[21])
                && call_ensures(W::reads_types, (), lists[22])
                && call_ensures(X::reads_types, (), lists[23])
                && call_ensures(Y::reads_types, (), lists[24])
                && types@ == type_lists(lists).flatten(),
    {
        let lists = vec![(A::reads_types)(), (B::reads_types)(), (C::reads_types)(), (D::reads_types)(), (E::reads_types)(), (F::reads_types)(), (G::reads_types)(), (H::reads_types)(), (I::reads_types)(), (J::reads_types)(), (K::reads_types)(), (L::reads_types)(), (M::reads_types)(), (N::reads_types)(), (O::reads_types)(), (P::reads_types)(), (Q::reads_types)(), (R::reads_types)(), (S::reads_types)(), (T::reads_types)(), (U::reads_types)(), (V::reads_types)(), (W::reads_types)(), (X::reads_types)(), (Y::reads_types)()];
        let ghost views = lists@;
        let types = concat_types(lists);
        assert(
            views.len() == 25
            && call_ensures(A::reads_types, (), views[0])
            && call_ensures(B::reads_types, (), views[1])
            && call_ensures(C::reads_types, (), views[2])
            && call_ensures(D::reads_types, (), views[3])
            && call_ensures(E::reads_types, (), views[4])
            && call_ensures(F::reads_types, (), views[5])
            && call_ensures(G::reads_types, (), views[6])
            && call_ensures(H::reads_types, (), views[7])
            && call_ensures(I::reads_types, (), views[8])
            && call_ensures(J::reads_types, (), views[9])
            && call_ensures(K::reads_types, (), views[10])
            && call_ensures(L::reads_types, (), views[11])
            && call_ensures(M::reads_types, (), views[12])
            && call_ensures(N::reads_types, (), views[13])
            && call_ensures(O::reads_types, (), views[14])
            && call_ensures(P::reads_types, (), views[15])
            && call_ensures(Q::reads_types, (), views[16])
            && call_ensures(R::reads_types, (), views[17])
            && call_ensures(S::reads_types, (), views[18])
            && call_ensures(T::reads_types, (), views[19])
            && call_ensures(U::reads_types, (), views[20])
            && call_ensures(V::reads_types, (), views[21])
            && call_ensures(W::reads_types, (), views[22])
            && call_ensures(X::reads_types, (), views[23])
            && call_ensures(Y::reads_types, (), views[24])
            && types@ == type_lists(views).flatten()
        );
        types
    }

    fn writes_types() -> (types: Vec<ComponentTypeId>)
        ensures
            exists|lists: Seq<Vec<ComponentTypeId>>|
                lists.len() == 25
                && call_ensures(A::writes_types, (), lists[0])
                && call_ensures(B::writes_types, (), lists[1])
                && call_ensures(C::writes_types, (), lists[2])
                && call_ensures(D::writes_types, (), lists[3])
                && call_ensures(E::writes_types, (), lists[4])
                && call_ensures(F::writes_types, (), lists[5])
                && call_ensures(G::writes_types, (), lists[6])
                && call_ensures(H::writes_types, (), lists[7])
                && call_ensures(I::writes_types, (), lists[8])
                && call_ensures(J::writes_types, (), lists[9])
                && call_ensures(K::writes_types, (), lists[10])
                && call_ensures(L::writes_types, (), lists[11])
                && call_ensures(M::writes_types, (), lists[12])
                && call_ensures(N::writes_types, (), lists[13])
                && call_ensures(O::writes_types, (), lists[14])
                && call_ensures(P::writes_types, (), lists[15])
                && call_ensures(Q::writes_types, (), lists[16])
                && call_ensures(R::writes_types, (), lists[17])
                && call_ensures(S::writes_types, (), lists[18])
                && call_ensures(T::writes_types, (), lists[19])
                && call_ensures(U::writes_types, (), lists[20])
                && call_ensures(V::writes_types, (), lists[21])
                && call_ensures(W::writes_types, (), lists[22])
                && call_ensures(X::writes_types, (), lists[23])
                && call_ensures(Y::writes_types, (), lists[24])
                && types@ == type_lists(lists).flatten(),
    {
        let lists = vec![(A::writes_types)(), (B::writes_types)(), (C::writes_types)(), (D::writes_types)(), (E::writes_types)(), (F::writes_types)(), (G::writes_types)(), (H::writes_types)(), (I::writes_types)(), (J::writes_types)(), (K::writes_types)(), (L::writes_types)(), (M::writes_types)(), (N::writes_types)(), (O::writes_types)(), (P::writes_types)(), (Q::writes_types)(), (R::writes_types)(), (S::writes_types)(), (T::writes_types)(), (U::writes_types)(), (V::writes_types)(), (W::writes_types)(), (X::writes_types)(), (Y::writes_types)()];
        let ghost views = lists@;
        let types = concat_types(lists);
        assert(
            views.len() == 25
            && call_ensures(A::writes_types, (), views[0])
            && call_ensures(B::writes_types, (), views[1])
            && call_ensures(C::writes_types, (), views[2])
            && call_ensures(D::writes_types, (), views[3])
            && call_ensures(E::writes_types, (), views[4])
            && call_ensures(F::writes_types, (), views[5])
            && call_ensures(G::writes_types, (), views[6])
            && call_ensures(H::writes_types, (), views[7])
            && call_ensures(I::writes_types, (), views[8])
            && call_ensures(J::writes_types, (), views[9])
            && call_ensures(K::writes_types, (), views[10])
            && call_ensures(L::writes_types, (), views[11])
            && call_ensures(M::writes_types, (), views[12])
            && call_ensures(N::writes_types, (), views[13])
            && call_ensures(O::writes_types, (), views[14])
            && call_ensures(P::writes_types, (), views[15])
            && call_ensures(Q::writes_types, (), views[16])
            && call_ensures(R::writes_types, (), views[17])
            && call_ensures(S::writes_types, (), views[18])
            && call_ensures(T::writes_types, (), views[19])
            && call_ensures(U::writes_types, (), views[20])
            && call_ensures(V::writes_types, (), views[21])
            && call_ensures(W::writes_types, (), views[22])
            && call_ensures(X::writes_types, (), views[23])
            && call_ensures(Y::writes_types, (), views[24])
            && types@ == type_lists(views).flatten()
        );
        types
    }

    fn reads<Comp: Component>() -> bool {
        tuple25_reads::<'a, A, B, C, D, E, F, G, H, I, J, K, L, M, N, O, P, Q, R, S, T, U, V, W, X, Y, Comp>()
    }

    fn writes<Comp: Component>() -> bool {
        tuple25_writes::<'a, A, B, C, D, E, F, G, H, I, J, K, L, M, N, O, P, Q, R, S, T, U, V, W, X, Y, Comp>()
    }
}

impl<'a, A: Fetch, B: Fetch, C: Fetch, D: Fetch, E: Fetch, F: Fetch, G: Fetch, H: Fetch, I: Fetch, J: Fetch, K: Fetch, L: Fetch, M: Fetch, N: Fetch, O: Fetch, P: Fetch, Q: Fetch, R: Fetch, S: Fetch, T: Fetch, U: Fetch, V: Fetch, W: Fetch, X: Fetch, Y: Fetch> IntoIndexableIter for MultiFetch<'a, (A, B, C, D, E, F, G, H, I, J, K, L, M, N, O, P, Q, R, S, T, U, V, W, X, Y)> {
    type Item = (A::Item, B::Item, C::Item, D::Item, E::Item, F::Item, G::Item, H::Item, I::Item, J::Item, K::Item, L::Item, M::Item, N::Item, O::Item, P::Item, Q::Item, R::Item, S::Item, T::Item, U::Item, V::Item, W::Item, X::Item, Y::Item);
    type IntoIter = (A::IntoIter, B::IntoIter, C::IntoIter, D::IntoIter, E::IntoIter, F::IntoIter, G::IntoIter, H::IntoIter, I::IntoIter, J::IntoIter, K::IntoIter, L::IntoIter, M::IntoIter, N::IntoIter, O::IntoIter, P::IntoIter, Q::IntoIter, R::IntoIter, S::IntoIter, T::IntoIter, U::IntoIter, V::IntoIter, W::IntoIter, X::IntoIter, Y::IntoIter);

    fn into_indexable_iter(self) -> (iter: Self::IntoIter)
        ensures
            call_ensures(A::into_indexable_iter, (self.fetches().0,), iter.0),
            call_ensures(B::into_indexable_iter, (self.fetches().1,), iter.1),
            call_ensures(C::into_indexable_iter, (self.fetches().2,), iter.2),
            call_ensures(D::into_indexable_iter, (self.fetches().3,), iter.3),
            call_ensures(E::into_indexable_iter, (self.fetches().4,), iter.4),
            call_ensures(F::into_indexable_iter, (self.fetches().5,), iter.5),
            call_ensures(G::into_indexable_iter, (self.fetches().6,), iter.6),
            call_ensures(H::into_indexable_iter, (self.fetches().7,), iter.7),
            call_ensures(I::into_indexable_iter, (self.fetches().8,), iter.8),
            call_ensures(J::into_indexable_iter, (self.fetches().9,), iter.9),
            call_ensures(K::into_indexable_iter, (self.fetches().10,), iter.10),
            call_ensures(L::into_indexable_iter, (self.fetches().11,), iter.11),
            call_ensures(M::into_indexable_iter, (self.fetches().12,), iter.12),
            call_ensures(N::into_indexable_iter, (self.fetches().13,), iter.13),
            call_ensures(O::into_indexable_iter, (self.fetches().14,), iter.14),
            call_ensures(P::into_indexable_iter, (self.fetches().15,), iter.15),
            call_ensures(Q::into_indexable_iter, (self.fetches().16,), iter.16),
            call_ensures(R::into_indexable_iter, (self.fetches().17,), iter.17),
            call_ensures(S::into_indexable_iter, (self.fetches().18,), iter.18),
            call_ensures(T::into_indexable_iter, (self.fetches().19,), iter.19),
            call_ensures(U::into_indexable_iter, (self.fetches().20,), iter.20),
            call_ensures(V::into_indexable_iter, (self.fetches().21,), iter.21),
            call_ensures(W::into_indexable_iter, (self.fetches().22,), iter.22),
            call_ensures(X::into_indexable_iter, (self.fetches().23,), iter.23),
            call_ensures(Y::into_indexable_iter, (self.fetches().24,), iter.24),
    {
        let (a, b, c, d, e, f, g, h, i, j, k, l, m, n, o, p, q, r, s, t, u, v, w, x, y) = self.fetches;
        ((A::into_indexable_iter)(a), (B::into_indexable_iter)(b), (C::into_indexable_iter)(c), (D::into_indexable_iter)(d), (E::into_indexable_iter)(e), (F::into_indexable_iter)(f), (G::into_indexable_iter)(g), (H::into_indexable_iter)(h), (I::into_indexable_iter)(i), (J::into_indexable_iter)(j), (K::into_indexable_iter)(k), (L::into_indexable_iter)(l), (M::into_indexable_iter)(m), (N::into_indexable_iter)(n), (O::into_indexable_iter)(o), (P::into_indexable_iter)(p), (Q::into_indexable_iter)(q), (R::into_indexable_iter)(r), (S::into_indexable_iter)(s), (T::into_indexable_iter)(t), (U::into_indexable_iter)(u), (V::into_indexable_iter)(v), (W::into_indexable_iter)(w), (X::into_indexable_iter)(x), (Y::into_indexable_iter)(y))
    }
}

impl<'a, A: Fetch, B: Fetch, C: Fetch, D: Fetch, E: Fetch, F: Fetch, G: Fetch, H: Fetch, I: Fetch, J: Fetch, K: Fetch, L: Fetch, M: Fetch, N: Fetch, O: Fetch, P: Fetch, Q: Fetch, R: Fetch, S: Fetch, T: Fetch, U: Fetch, V: Fetch, W: Fetch, X: Fetch, Y: Fetch> Fetch for MultiFetch<'a, (A, B, C, D, E, F, G, H, I, J, K, L, M, N, O, P, Q, R, S, T, U, V, W, X, Y)> {
    type Data = (A::Data, B::Data, C::Data, D::Data, E::Data, F::Data, G::Data, H::Data, I::Data, J::Data, K::Data, L::Data, M::Data, N::Data, O::Data, P::Data, Q::Data, R::Data, S::Data, T::Data, U::Data, V::Data, W::Data, X::Data, Y::Data);

    fn into_components(self) -> (data: Self::Data)
        ensures
            call_ensures(A::into_components, (self.fetches().0,), data.0),
            call_ensures(B::into_components, (self.fetches().1,), data.1),
            call_ensures(C::into_components, (self.fetches().2,), data.2),
            call_ensures(D::into_components, (self.fetches().3,), data.3),
            call_ensures(E::into_components, (self.fetches().4,), data.4),
            call_ensures(F::into_components, (self.fetches().5,), data.5),
            call_ensures(G::into_components, (self.fetches().6,), data.6),
            call_ensures(H::into_components, (self.fetches().7,), data.7),
            call_ensures(I::into_components, (self.fetches().8,), data.8),
            call_ensures(J::into_components, (self.fetches().9,), data.9),
            call_ensures(K::into_components, (self.fetches().10,), data.10),
            call_ensures(L::into_components, (self.fetches().11,), data.11),
            call_ensures(M::into_components, (self.fetches().12,), data.12),
            call_ensures(N::into_components, (self.fetches().13,), data.13),
            call_ensures(O::into_components, (self.fetches().14,), data.14),
            call_ensures(P::into_components, (self.fetches().15,), data.15),
            call_ensures(Q::into_components, (self.fetches().16,), data.16),
            call_ensures(R::into_components, (self.fetches().17,), data.17),
            call_ensures(S::into_components, (self.fetches().18,), data.18),
            call_ensures(T::into_components, (self.fetches().19,), data.19),
            call_ensures(U::into_components, (self.fetches().20,), data.20),
            call_ensures(V::into_components, (self.fetches().21,), data.21),
            call_ensures(W::into_components, (self.fetches().22,), data.22),
            call_ensures(X::into_components, (self.fetches().23,), data.23),
            call_ensures(Y::into_components, (self.fetches().24,), data.24),
    {
        let (a, b, c, d, e, f, g, h, i, j, k, l, m, n, o, p, q, r, s, t, u, v, w, x, y) = self.fetches;
        ((A::into_components)(a), (B::into_components)(b), (C::into_components)(c), (D::into_components)(d), (E::into_components)(e), (F::into_components)(f), (G::into_components)(g), (H::into_components)(h), (I::into_components)(i), (J::into_components)(j), (K::into_components)(k), (L::into_components)(l), (M::into_components)(m), (N::into_components)(n), (O::into_components)(o), (P::into_components)(p), (Q::into_components)(q), (R::into_components)(r), (S::into_components)(s), (T::into_components)(t), (U::into_components)(u), (V::into_components)(v), (W::into_components)(w), (X::into_components)(x), (Y::into_components)(y))
    }

    fn find<Comp: 'static>(&self) -> Option<&[Comp]> {
        tuple25_find::<A, B, C, D, E, F, G, H, I, J, K, L, M, N, O, P, Q, R, S, T, U, V, W, X, Y, Comp>(&self.fetches)
    }

    fn find_mut<Comp: 'static>(&mut self) -> Option<&mut [Comp]> {
        tuple25_find_mut::<A, B, C, D, E, F, G, H, I, J, K, L, M, N, O, P, Q, R, S, T, U, V, W, X, Y, Comp>(&mut self.fetches)
    }

    fn version<Comp: Component>(&self) -> Option<u64> {
        tuple25_version::<A, B, C, D, E, F, G, H, I, J, K, L, M, N, O, P, Q, R, S, T, U, V, W, X, Y, Comp>(&self.fetches)
    }

    fn accepted(&mut self)
        ensures
            exists|m: &mut A|
                *m == old(self).fetches().0 && *final(m) == final(self).fetches().0
                && call_ensures(A::accepted, (m,), ()),
            exists|m: &mut B|
                *m == old(self).fetches().1 && *final(m) == final(self).fetches().1
                && call_ensures(B::accepted, (m,), ()),
            exists|m: &mut C|
                *m == old(self).fetches().2 && *final(m) == final(self).fetches().2
                && call_ensures(C::accepted, (m,), ()),
            exists|m: &mut D|
                *m == old(self).fetches().3 && *final(m) == final(self).fetches().3
                && call_ensures(D::accepted, (m,), ()),
            exists|m: &mut E|
                *m == old(self).fetches().4 && *final(m) == final(self).fetches().4
                && call_ensures(E::accepted, (m,), ()),
            exists|m: &mut F|
                *m == old(self).fetches().5 && *final(m) == final(self).fetches().5
                && call_ensures(F::accepted, (m,), ()),
            exists|m: &mut G|
                *m == old(self).fetches().6 && *final(m) == final(self).fetches().6
                && call_ensures(G::accepted, (m,), ()),
            exists|m: &mut H|
                *m == old(self).fetches().7 && *final(m) == final(self).fetches().7
                && call_ensures(H::accepted, (m,), ()),
            exists|m: &mut I|
                *m == old(self).fetches().8 && *final(m) == final(self).fetches().8
                && call_ensures(I::accepted, (m,), ()),
            exists|m: &mut J|
                *m == old(self).fetches().9 && *final(m) == final(self).fetches().9
                && call_ensures(J::accepted, (m,), ()),
            exists|m: &mut K|
                *m == old(self).fetches().10 && *final(m) == final(self).fetches().10
                && call_ensures(K::accepted, (m,), ()),
            exists|m: &mut L|
                *m == old(self).fetches().11 && *final(m) == final(self).fetches().11
                && call_ensures(L::accepted, (m,), ()),
            exists|m: &mut M|
                *m == old(self).fetches().12 && *final(m) == final(self).fetches().12
                && call_ensures(M::accepted, (m,), ()),
            exists|m: &mut N|
                *m == old(self).fetches().13 && *final(m) == final(self).fetches().13
                && call_ensures(N::accepted, (m,), ()),
            exists|m: &mut O|
                *m == old(self).fetches().14 && *final(m) == final(self).fetches().14
                && call_ensures(O::accepted, (m,), ()),
            exists|m: &mut P|
                *m == old(self).fetches().15 && *final(m) == final(self).fetches().15
                && call_ensures(P::accepted, (m,), ()),
            exists|m: &mut Q|
                *m == old(self).fetches().16 && *final(m) == final(self).fetches().16
                && call_ensures(Q::accepted, (m,), ()),
            exists|m: &mut R|
                *m == old(self).fetches().17 && *final(m) == final(self).fetches().17
                && call_ensures(R::accepted, (m,), ()),
            exists|m: &mut S|
                *m == old(self).fetches().18 && *final(m) == final(self).fetches().18
                && call_ensures(S::accepted, (m,), ()),
            exists|m: &mut T|
                *m == old(self).fetches().19 && *final(m) == final(self).fetches().19
                && call_ensures(T::accepted, (m,), ()),
            exists|m: &mut U|
                *m == old(self).fetches().20 && *final(m) == final(self).fetches().20
                && call_ensures(U::accepted, (m,), ()),
            exists|m: &mut V|
                *m == old(self).fetches().21 && *final(m) == final(self).fetches().21
                && call_ensures(V::accepted, (m,), ()),
            exists|m: &mut W|
                *m == old(self).fetches().22 && *final(m) == final(self).fetches().22
                && call_ensures(W::accepted, (m,), ()),
            exists|m: &mut X|
                *m == old(self).fetches().23 && *final(m) == final(self).fetches().23
                && call_ensures(X::accepted, (m,), ()),
            exists|m: &mut Y|
                *m == old(self).fetches().24 && *final(m) == final(self).fetches().24
                && call_ensures(Y::accepted, (m,), ()),
    {
        let (a, b, c, d, e, f, g, h, i, j, k, l, m, n, o, p, q, r, s, t, u, v, w, x, y) = &mut self.fetches;
        (A::accepted)(a);
        (B::accepted)(b);
        (C::accepted)(c);
        (D::accepted)(d);
        (E::accepted)(e);
        (F::accepted)(f);
        (G::accepted)(g);
        (H::accepted)(h);
        (I::accepted)(i);
        (J::accepted)(j);
        (K::accepted)(k);
        (L::accepted)(l);
        (M::accepted)(m);
        (N::accepted)(n);
        (O::accepted)(o);
        (P::accepted)(p);
        (Q::accepted)(q);
        (R::accepted)(r);
        (S::accepted)(s);
        (T::accepted)(t);
        (U::accepted)(u);
        (V::accepted)(v);
        (W::accepted)(w);
        (X::accepted)(x);
        (Y::accepted)(y);
    }
}

impl<'a, A: ReadOnlyFetch, B: ReadOnlyFetch, C: ReadOnlyFetch, D: ReadOnlyFetch, E: ReadOnlyFetch, F: ReadOnlyFetch, G: ReadOnlyFetch, H: ReadOnlyFetch, I: ReadOnlyFetch, J: ReadOnlyFetch, K: ReadOnlyFetch, L: ReadOnlyFetch, M: ReadOnlyFetch, N: ReadOnlyFetch, O: ReadOnlyFetch, P: ReadOnlyFetch, Q: ReadOnlyFetch, R: ReadOnlyFetch, S: ReadOnlyFetch, T: ReadOnlyFetch, U: ReadOnlyFetch, V: ReadOnlyFetch, W: ReadOnlyFetch, X: ReadOnlyFetch, Y: ReadOnlyFetch> ReadOnlyFetch for MultiFetch<'a, (A, B, C, D, E, F, G, H, I, J, K, L, M, N, O, P, Q, R, S, T, U, V, W, X, Y)> {
    fn get_components(&self) -> (data: Self::Data)
        ensures
            call_ensures(A::get_components, (&self.fetches().0,), data.0),
            call_ensures(B::get_components, (&self.fetches().1,), data.1),
            call_ensures(C::get_components, (&self.fetches().2,), data.2),
            call_ensures(D::get_components, (&self.fetches().3,), data.3),
            call_ensures(E::get_components, (&self.fetches().4,), data.4),
            call_ensures(F::get_components, (&self.fetches().5,), data.5),
            call_ensures(G::get_components, (&self.fetches().6,), data.6),
            call_ensures(H::get_components, (&self.fetches().7,), data.7),
            call_ensures(I::get_components, (&self.fetches().8,), data.8),
            call_ensures(J::get_components, (&self.fetches().9,), data.9),
            call_ensures(K::get_components, (&self.fetches().10,), data.10),
            call_ensures(L::get_components, (&self.fetches().11,), data.11),
            call_ensures(M::get_components, (&self.fetches().12,), data.12),
            call_ensures(N::get_components, (&self.fetches().13,), data.13),
            call_ensures(O::get_components, (&self.fetches().14,), data.14),
            call_ensures(P::get_components, (&self.fetches().15,), data.15),
            call_ensures(Q::get_components, (&self.fetches().16,), data.16),
            call_ensures(R::get_components, (&self.fetches().17,), data.17),
            call_ensures(S::get_components, (&self.fetches().18,), data.18),
            call_ensures(T::get_components, (&self.fetches().19,), data.19),
            call_ensures(U::get_components, (&self.fetches().20,), data.20),
            call_ensures(V::get_components, (&self.fetches().21,), data.21),
            call_ensures(W::get_components, (&self.fetches().22,), data.22),
            call_ensures(X::get_components, (&self.fetches().23,), data.23),
            call_ensures(Y::get_components, (&self.fetches().24,), data.24),
    {
        let (a, b, c, d, e, f, g, h, i, j, k, l, m, n, o, p, q, r, s, t, u, v, w, x, y) = &self.fetches;
        ((A::get_components)(a), (B::get_components)(b), (C::get_components)(c), (D::get_components)(d), (E::get_components)(e), (F::get_components)(f), (G::get_components)(g), (H::get_components)(h), (I::get_components)(i), (J::get_components)(j), (K::get_components)(k), (L::get_components)(l), (M::get_components)(m), (N::get_components)(n), (O::get_components)(o), (P::get_components)(p), (Q::get_components)(q), (R::get_components)(r), (S::get_components)(s), (T::get_components)(t), (U::get_components)(u), (V::get_components)(v), (W::get_components)(w), (X::get_components)(x), (Y::get_components)(y))
    }
}

/// Whether some view of a tuple of 25 reads `Comp`, asking the views in order.
pub fn tuple25_reads<'a, A: View<'a> + 'a, B: View<'a> + 'a, C: View<'a> + 'a, D: View<'a> + 'a, E: View<'a> + 'a, F: View<'a> + 'a, G: View<'a> + 'a, H: View<'a> + 'a, I: View<'a> + 'a, J: View<'a> + 'a, K: View<'a> + 'a, L: View<'a> + 'a, M: View<'a> + 'a, N: View<'a> + 'a, O: View<'a> + 'a, P: View<'a> + 'a, Q: View<'a> + 'a, R: View<'a> + 'a, S: View<'a> + 'a, T: View<'a> + 'a, U: View<'a> + 'a, V: View<'a> + 'a, W: View<'a> + 'a, X: View<'a> + 'a, Y: View<'a> + 'a, Comp: Component>() -> (found: bool)
    ensures
        (found && call_ensures(A::reads::<Comp>, (), true))
        || (call_ensures(A::reads::<Comp>, (), false) && (
            (found && call_ensures(B::reads::<Comp>, (), true))
            || (call_ensures(B::reads::<Comp>, (), false) && (
                (found && call_ensures(C::reads::<Comp>, (), true))
                || (call_ensures(C::reads::<Comp>, (), false) && (
                    (found && call_ensures(D::reads::<Comp>, (), true))
                    || (call_ensures(D::reads::<Comp>, (), false) && (
                        (found && call_ensures(E::reads::<Comp>, (), true))
                        || (call_ensures(E::reads::<Comp>, (), false) && (
                            (found && call_ensures(F::reads::<Comp>, (), true))
                            || (call_ensures(F::reads::<Comp>, (), false) && (
                                (found && call_ensures(G::reads::<Comp>, (), true))
                                || (call_ensures(G::reads::<Comp>, (), false) && (
                                    (found && call_ensures(H::reads::<Comp>, (), true))
                                    || (call_ensures(H::reads::<Comp>, (), false) && (
                                        (found && call_ensures(I::reads::<Comp>, (), true))
                                        || (call_ensures(I::reads::<Comp>, (), false) && (
                                            (found && call_ensures(J::reads::<Comp>, (), true))
                                            || (call_ensures(J::reads::<Comp>, (), false) && (
                                                (found && call_ensures(K::reads::<Comp>, (), true))
                                                || (call_ensures(K::reads::<Comp>, (), false) && (
                                                    (found && call_ensures(L::reads::<Comp>, (), true))
                                                    || (call_ensures(L::reads::<Comp>, (), false) && (
                                                        (found && call_ensures(M::reads::<Comp>, (), true))
                                                        || (call_ensures(M::reads::<Comp>, (), false) && (
                                                            (found && call_ensures(N::reads::<Comp>, (), true))
                                                            || (call_ensures(N::reads::<Comp>, (), false) && (
                                                                (found && call_ensures(O::reads::<Comp>, (), true))
                                                                || (call_ensures(O::reads::<Comp>, (), false) && (
                                                                    (found && call_ensures(P::reads::<Comp>, (), true))
                                                                    || (call_ensures(P::reads::<Comp>, (), false) && (
                                                                        (found && call_ensures(Q::reads::<Comp>, (), true))
                                                                        || (call_ensures(Q::reads::<Comp>, (), false) && (
                                                                            (found && call_ensures(R::reads::<Comp>, (), true))
                                                                            || (call_ensures(R::reads::<Comp>, (), false) && (
                                                                                (found && call_ensures(S::reads::<Comp>, (), true))
                                                                                || (call_ensures(S::reads::<Comp>, (), false) && (
                                                                                    (found && call_ensures(T::reads::<Comp>, (), true))
                                                                                    || (call_ensures(T::reads::<Comp>, (), false) && (
                                                                                        (found && call_ensures(U::reads::<Comp>, (), true))
                                                                                        || (call_ensures(U::reads::<Comp>, (), false) && (
                                                                                            (found && call_ensures(V::reads::<Comp>, (), true))
                                                                                            || (call_ensures(V::reads::<Comp>, (), false) && (
                                                                                                (found && call_ensures(W::reads::<Comp>, (), true))
                                                                                                || (call_ensures(W::reads::<Comp>, (), false) && (
                                                                                                    (found && call_ensures(X::reads::<Comp>, (), true))
                                                                                                    || (call_ensures(X::reads::<Comp>, (), false) && (
                                                                                                        call_ensures(Y::reads::<Comp>, (), found))))))))))))))))))))))))))))))))))))))))))))))))),
{
    (A::reads::<Comp>)()
        || (B::reads::<Comp>)()
        || (C::reads::<Comp>)()
        || (D::reads::<Comp>)()
        || (E::reads::<Comp>)()
        || (F::reads::<Comp>)()
        || (G::reads::<Comp>)()
        || (H::reads::<Comp>)()
        || (I::reads::<Comp>)()
        || (J::reads::<Comp>)()
        || (K::reads::<Comp>)()
        || (L::reads::<Comp>)()
        || (M::reads::<Comp>)()
        || (N::reads::<Comp>)()
        || (O::reads::<Comp>)()
        || (P::reads::<Comp>)()
        || (Q::reads::<Comp>)()
        || (R::reads::<Comp>)()
        || (S::reads::<Comp>)()
        || (T::reads::<Comp>)()
        || (U::reads::<Comp>)()
        || (V::reads::<Comp>)()
        || (W::reads::<Comp>)()
        || (X::reads::<Comp>)()
        || (Y::reads::<Comp>)()
}

/// Whether some view of a tuple of 25 writes `Comp`, asking the views in order.
pub fn tuple25_writes<'a, A: View<'a> + 'a, B: View<'a> + 'a, C: View<'a> + 'a, D: View<'a> + 'a, E: View<'a> + 'a, F: View<'a> + 'a, G: View<'a> + 'a, H: View<'a> + 'a, I: View<'a> + 'a, J: View<'a> + 'a, K: View<'a> + 'a, L: View<'a> + 'a, M: View<'a> + 'a, N: View<'a> + 'a, O: View<'a> + 'a, P: View<'a> + 'a, Q: View<'a> + 'a, R: View<'a> + 'a, S: View<'a> + 'a, T: View<'a> + 'a, U: View<'a> + 'a, V: View<'a> + 'a, W: View<'a> + 'a, X: View<'a> + 'a, Y: View<'a> + 'a, Comp: Component>() -> (found: bool)
    ensures
        (found && call_ensures(A::writes::<Comp>, (), true))
        || (call_ensures(A::writes::<Comp>, (), false) && (
            (found && call_ensures(B::writes::<Comp>, (), true))
            || (call_ensures(B::writes::<Comp>, (), false) && (
                (found && call_ensures(C::writes::<Comp>, (), true))
                || (call_ensures(C::writes::<Comp>, (), false) && (
                    (found && call_ensures(D::writes::<Comp>, (), true))
                    || (call_ensures(D::writes::<Comp>, (), false) && (
                        (found && call_ensures(E::writes::<Comp>, (), true))
                        || (call_ensures(E::writes::<Comp>, (), false) && (
                            (found && call_ensures(F::writes::<Comp>, (), true))
                            || (call_ensures(F::writes::<Comp>, (), false) && (
                                (found && call_ensures(G::writes::<Comp>, (), true))
                                || (call_ensures(G::writes::<Comp>, (), false) && (
                                    (found && call_ensures(H::writes::<Comp>, (), true))
                                    || (call_ensures(H::writes::<Comp>, (), false) && (
                                        (found && call_ensures(I::writes::<Comp>, (), true))
                                        || (call_ensures(I::writes::<Comp>, (), false) && (
                                            (found && call_ensures(J::writes::<Comp>, (), true))
                                            || (call_ensures(J::writes::<Comp>, (), false) && (
                                                (found && call_ensures(K::writes::<Comp>, (), true))
                                                || (call_ensures(K::writes::<Comp>, (), false) && (
                                                    (found && call_ensures(L::writes::<Comp>, (), true))
                                                    || (call_ensures(L::writes::<Comp>, (), false) && (
                                                        (found && call_ensures(M::writes::<Comp>, (), true))
                                                        || (call_ensures(M::writes::<Comp>, (), false) && (
                                                            (found && call_ensures(N::writes::<Comp>, (), true))
                                                            || (call_ensures(N::writes::<Comp>, (), false) && (
                                                                (found && call_ensures(O::writes::<Comp>, (), true))
                                                                || (call_ensures(O::writes::<Comp>, (), false) && (
                                                                    (found && call_ensures(P::writes::<Comp>, (), true))
                                                                    || (call_ensures(P::writes::<Comp>, (), false) && (
                                                                        (found && call_ensures(Q::writes::<Comp>, (), true))
                                                                        || (call_ensures(Q::writes::<Comp>, (), false) && (
                                                                            (found && call_ensures(R::writes::<Comp>, (), true))
                                                                            || (call_ensures(R::writes::<Comp>, (), false) && (
                                                                                (found && call_ensures(S::writes::<Comp>, (), true))
                                                                                || (call_ensures(S::writes::<Comp>, (), false) && (
                                                                                    (found && call_ensures(T::writes::<Comp>, (), true))
                                                                                    || (call_ensures(T::writes::<Comp>, (), false) && (
                                                                                        (found && call_ensures(U::writes::<Comp>, (), true))
                                                                                        || (call_ensures(U::writes::<Comp>, (), false) && (
                                                                                            (found && call_ensures(V::writes::<Comp>, (), true))
                                                                                            || (call_ensures(V::writes::<Comp>, (), false) && (
                                                                                                (found && call_ensures(W::writes::<Comp>, (), true))
                                                                                                || (call_ensures(W::writes::<Comp>, (), false) && (
                                                                                                    (found && call_ensures(X::writes::<Comp>, (), true))
                                                                                                    || (call_ensures(X::writes::<Comp>, (), false) && (
                                                                                                        call_ensures(Y::writes::<Comp>, (), found))))))))))))))))))))))))))))))))))))))))))))))))),
{
    (A::writes::<Comp>)()
        || (B::writes::<Comp>)()
        || (C::writes::<Comp>)()
        || (D::writes::<Comp>)()
        || (E::writes::<Comp>)()
        || (F::writes::<Comp>)()
        || (G::writes::<Comp>)()
        || (H::writes::<Comp>)()
        || (I::writes::<Comp>)()
        || (J::writes::<Comp>)()
        || (K::writes::<Comp>)()
        || (L::writes::<Comp>)()
        || (M::writes::<Comp>)()
        || (N::writes::<Comp>)()
        || (O::writes::<Comp>)()
        || (P::writes::<Comp>)()
        || (Q::writes::<Comp>)()
        || (R::writes::<Comp>)()
        || (S::writes::<Comp>)()
        || (T::writes::<Comp>)()
        || (U::writes::<Comp>)()
        || (V::writes::<Comp>)()
        || (W::writes::<Comp>)()
        || (X::writes::<Comp>)()
        || (Y::writes::<Comp>)()
}

/// The slice of the first fetch of a tuple of 25 that holds `Comp`.
pub fn tuple25_find<'f, A: Fetch, B: Fetch, C: Fetch, D: Fetch, E: Fetch, F: Fetch, G: Fetch, H: Fetch, I: Fetch, J: Fetch, K: Fetch, L: Fetch, M: Fetch, N: Fetch, O: Fetch, P: Fetch, Q: Fetch, R: Fetch, S: Fetch, T: Fetch, U: Fetch, V: Fetch, W: Fetch, X: Fetch, Y: Fetch, Comp: 'static>(fetches: &'f (A, B, C, D, E, F, G, H, I, J, K, L, M, N, O, P, Q, R, S, T, U, V, W, X, Y)) -> (found: Option<&'f [Comp]>)
    ensures
        (found is Some && call_ensures(A::find::<Comp>, (&fetches.0,), found))
        || (call_ensures(A::find::<Comp>, (&fetches.0,), None) && (
            (found is Some && call_ensures(B::find::<Comp>, (&fetches.1,), found))
            || (call_ensures(B::find::<Comp>, (&fetches.1,), None) && (
                (found is Some && call_ensures(C::find::<Comp>, (&fetches.2,), found))
                || (call_ensures(C::find::<Comp>, (&fetches.2,), None) && (
                    (found is Some && call_ensures(D::find::<Comp>, (&fetches.3,), found))
                    || (call_ensures(D::find::<Comp>, (&fetches.3,), None) && (
                        (found is Some && call_ensures(E::find::<Comp>, (&fetches.4,), found))
                        || (call_ensures(E::find::<Comp>, (&fetches.4,), None) && (
                            (found is Some && call_ensures(F::find::<Comp>, (&fetches.5,), found))
                            || (call_ensures(F::find::<Comp>, (&fetches.5,), None) && (
                                (found is Some && call_ensures(G::find::<Comp>, (&fetches.6,), found))
                                || (call_ensures(G::find::<Comp>, (&fetches.6,), None) && (
                                    (found is Some && call_ensures(H::find::<Comp>, (&fetches.7,), found))
                                    || (call_ensures(H::find::<Comp>, (&fetches.7,), None) && (
                                        (found is Some && call_ensures(I::find::<Comp>, (&fetches.8,), found))
                                        || (call_ensures(I::find::<Comp>, (&fetches.8,), None) && (
                                            (found is Some && call_ensures(J::find::<Comp>, (&fetches.9,), found))
                                            || (call_ensures(J::find::<Comp>, (&fetches.9,), None) && (
                                                (found is Some && call_ensures(K::find::<Comp>, (&fetches.10,), found))
                                                || (call_ensures(K::find::<Comp>, (&fetches.10,), None) && (
                                                    (found is Some && call_ensures(L::find::<Comp>, (&fetches.11,), found))
                                                    || (call_ensures(L::find::<Comp>, (&fetches.11,), None) && (
                                                        (found is Some && call_ensures(M::find::<Comp>, (&fetches.12,), found))
                                                        || (call_ensures(M::find::<Comp>, (&fetches.12,), None) && (
                                                            (found is Some && call_ensures(N::find::<Comp>, (&fetches.13,), found))
                                                            || (call_ensures(N::find::<Comp>, (&fetches.13,), None) && (
                                                                (found is Some && call_ensures(O::find::<Comp>, (&fetches.14,), found))
                                                                || (call_ensures(O::find::<Comp>, (&fetches.14,), None) && (
                                                                    (found is Some && call_ensures(P::find::<Comp>, (&fetches.15,), found))
                                                                    || (call_ensures(P::find::<Comp>, (&fetches.15,), None) && (
                                                                        (found is Some && call_ensures(Q::find::<Comp>, (&fetches.16,), found))
                                                                        || (call_ensures(Q::find::<Comp>, (&fetches.16,), None) && (
                                                                            (found is Some && call_ensures(R::find::<Comp>, (&fetches.17,), found))
                                                                            || (call_ensures(R::find::<Comp>, (&fetches.17,), None) && (
                                                                                (found is Some && call_ensures(S::find::<Comp>, (&fetches.18,), found))
                                                                                || (call_ensures(S::find::<Comp>, (&fetches.18,), None) && (
                                                                                    (found is Some && call_ensures(T::find::<Comp>, (&fetches.19,), found))
                                                                                    || (call_ensures(T::find::<Comp>, (&fetches.19,), None) && (
                                                                                        (found is Some && call_ensures(U::find::<Comp>, (&fetches.20,), found))
                                                                                        || (call_ensures(U::find::<Comp>, (&fetches.20,), None) && (
                                                                                            (found is Some && call_ensures(V::find::<Comp>, (&fetches.21,), found))
                                                                                            || (call_ensures(V::find::<Comp>, (&fetches.21,), None) && (
                                                                                                (found is Some && call_ensures(W::find::<Comp>, (&fetches.22,), found))
                                                                                                || (call_ensures(W::find::<Comp>, (&fetches.22,), None) && (
                                                                                                    (found is Some && call_ensures(X::find::<Comp>, (&fetches.23,), found))
                                                                                                    || (call_ensures(X::find::<Comp>, (&fetches.23,), None) && (
                                                                                                        call_ensures(Y::find::<Comp>, (&fetches.24,), found))))))))))))))))))))))))))))))))))))))))))))))))),
{
    let (a, b, c, d, e, f, g, h, i, j, k, l, m, n, o, p, q, r, s, t, u, v, w, x, y) = fetches;
    if let Some(slice) = (A::find::<Comp>)(a) {
        return Some(slice);
    }
    if let Some(slice) = (B::find::<Comp>)(b) {
        return Some(slice);
    }
    if let Some(slice) = (C::find::<Comp>)(c) {
        return Some(slice);
    }
    if let Some(slice) = (D::find::<Comp>)(d) {
        return Some(slice);
    }
    if let Some(slice) = (E::find::<Comp>)(e) {
        return Some(slice);
    }
    if let Some(slice) = (F::find::<Comp>)(f) {
        return Some(slice);
    }
    if let Some(slice) = (G::find::<Comp>)(g) {
        return Some(slice);
    }
    if let Some(slice) = (H::find::<Comp>)(h) {
        return Some(slice);
    }
    if let Some(slice) = (I::find::<Comp>)(i) {
        return Some(slice);
    }
    if let Some(slice) = (J::find::<Comp>)(j) {
        return Some(slice);
    }
    if let Some(slice) = (K::find::<Comp>)(k) {
        return Some(slice);
    }
    if let Some(slice) = (L::find::<Comp>)(l) {
        return Some(slice);
    }
    if let Some(slice) = (M::find::<Comp>)(m) {
        return Some(slice);
    }
    if let Some(slice) = (N::find::<Comp>)(n) {
        return Some(slice);
    }
    if let Some(slice) = (O::find::<Comp>)(o) {
        return Some(slice);
    }
    if let Some(slice) = (P::find::<Comp>)(p) {
        return Some(slice);
    }
    if let Some(slice) = (Q::find::<Comp>)(q) {
        return Some(slice);
    }
    if let Some(slice) = (R::find::<Comp>)(r) {
        return Some(slice);
    }
    if let Some(slice) = (S::find::<Comp>)(s) {
        return Some(slice);
    }
    if let Some(slice) = (T::find::<Comp>)(t) {
        return Some(slice);
    }
    if let Some(slice) = (U::find::<Comp>)(u) {
        return Some(slice);
    }
    if let Some(slice) = (V::find::<Comp>)(v) {
        return Some(slice);
    }
    if let Some(slice) = (W::find::<Comp>)(w) {
        return Some(slice);
    }
    if let Some(slice) = (X::find::<Comp>)(x) {
        return Some(slice);
    }
    (Y::find::<Comp>)(y)
}

/// The mutable slice of the first fetch of a tuple of 25 that holds `Comp`.
pub fn tuple25_find_mut<'f, A: Fetch, B: Fetch, C: Fetch, D: Fetch, E: Fetch, F: Fetch, G: Fetch, H: Fetch, I: Fetch, J: Fetch, K: Fetch, L: Fetch, M: Fetch, N: Fetch, O: Fetch, P: Fetch, Q: Fetch, R: Fetch, S: Fetch, T: Fetch, U: Fetch, V: Fetch, W: Fetch, X: Fetch, Y: Fetch, Comp: 'static>(fetches: &'f mut (A, B, C, D, E, F, G, H, I, J, K, L, M, N, O, P, Q, R, S, T, U, V, W, X, Y)) -> (found: Option<&'f mut [Comp]>)
    ensures
        exists|m: &mut A|
            *m == old(fetches).0
            && *final(m) == final(fetches).0
            && ((found is Some && call_ensures(A::find_mut::<Comp>, (m,), found) && final(fetches).1 == old(fetches).1 && final(fetches).2 == old(fetches).2 && final(fetches).3 == old(fetches).3 && final(fetches).4 == old(fetches).4 && final(fetches).5 == old(fetches).5 && final(fetches).6 == old(fetches).6 && final(fetches).7 == old(fetches).7 && final(fetches).8 == old(fetches).8 && final(fetches).9 == old(fetches).9 && final(fetches).10 == old(fetches).10 && final(fetches).11 == old(fetches).11 && final(fetches).12 == old(fetches).12 && final(fetches).13 == old(fetches).13 && final(fetches).14 == old(fetches).14 && final(fetches).15 == old(fetches).15 && final(fetches).16 == old(fetches).16 && final(fetches).17 == old(fetches).17 && final(fetches).18 == old(fetches).18 && final(fetches).19 == old(fetches).19 && final(fetches).20 == old(fetches).20 && final(fetches).21 == old(fetches).21 && final(fetches).22 == old(fetches).22 && final(fetches).23 == old(fetches).23 && final(fetches).24 == old(fetches).24)
            || (call_ensures(A::find_mut::<Comp>, (m,), None) && (
                exists|m: &mut B|
                    *m == old(fetches).1
                    && *final(m) == final(fetches).1
                    && ((found is Some && call_ensures(B::find_mut::<Comp>, (m,), found) && final(fetches).2 == old(fetches).2 && final(fetches).3 == old(fetches).3 && final(fetches).4 == old(fetches).4 && final(fetches).5 == old(fetches).5 && final(fetches).6 == old(fetches).6 && final(fetches).7 == old(fetches).7 && final(fetches).8 == old(fetches).8 && final(fetches).9 == old(fetches).9 && final(fetches).10 == old(fetches).10 && final(fetches).11 == old(fetches).11 && final(fetches).12 == old(fetches).12 && final(fetches).13 == old(fetches).13 && final(fetches).14 == old(fetches).14 && final(fetches).15 == old(fetches).15 && final(fetches).16 == old(fetches).16 && final(fetches).17 == old(fetches).17 && final(fetches).18 == old(fetches).18 && final(fetches).19 == old(fetches).19 && final(fetches).20 == old(fetches).20 && final(fetches).21 == old(fetches).21 && final(fetches).22 == old(fetches).22 && final(fetches).23 == old(fetches).23 && final(fetches).24 == old(fetches).24)
                    || (call_ensures(B::find_mut::<Comp>, (m,), None) && (
                        exists|m: &mut C|
                            *m == old(fetches).2
                            && *final(m) == final(fetches).2
                            && ((found is Some && call_ensures(C::find_mut::<Comp>, (m,), found) && final(fetches).3 == old(fetches).3 && final(fetches).4 == old(fetches).4 && final(fetches).5 == old(fetches).5 && final(fetches).6 == old(fetches).6 && final(fetches).7 == old(fetches).7 && final(fetches).8 == old(fetches).8 && final(fetches).9 == old(fetches).9 && final(fetches).10 == old(fetches).10 && final(fetches).11 == old(fetches).11 && final(fetches).12 == old(fetches).12 && final(fetches).13 == old(fetches).13 && final(fetches).14 == old(fetches).14 && final(fetches).15 == old(fetches).15 && final(fetches).16 == old(fetches).16 && final(fetches).17 == old(fetches).17 && final(fetches).18 == old(fetches).18 && final(fetches).19 == old(fetches).19 && final(fetches).20 == old(fetches).20 && final(fetches).21 == old(fetches).21 && final(fetches).22 == old(fetches).22 && final(fetches).23 == old(fetches).23 && final(fetches).24 == old(fetches).24)
                            || (call_ensures(C::find_mut::<Comp>, (m,), None) && (
                                exists|m: &mut D|
                                    *m == old(fetches).3
                                    && *final(m) == final(fetches).3
                                    && ((found is Some && call_ensures(D::find_mut::<Comp>, (m,), found) && final(fetches).4 == old(fetches).4 && final(fetches).5 == old(fetches).5 && final(fetches).6 == old(fetches).6 && final(fetches).7 == old(fetches).7 && final(fetches).8 == old(fetches).8 && final(fetches).9 == old(fetches).9 && final(fetches).10 == old(fetches).10 && final(fetches).11 == old(fetches).11 && final(fetches).12 == old(fetches).12 && final(fetches).13 == old(fetches).13 && final(fetches).14 == old(fetches).14 && final(fetches).15 == old(fetches).15 && final(fetches).16 == old(fetches).16 && final(fetches).17 == old(fetches).17 && final(fetches).18 == old(fetches).18 && final(fetches).19 == old(fetches).19 && final(fetches).20 == old(fetches).20 && final(fetches).21 == old(fetches).21 && final(fetches).22 == old(fetches).22 && final(fetches).23 == old(fetches).23 && final(fetches).24 == old(fetches).24)
                                    || (call_ensures(D::find_mut::<Comp>, (m,), None) && (
                                        exists|m: &mut E|
                                            *m == old(fetches).4
                                            && *final(m) == final(fetches).4
                                            && ((found is Some && call_ensures(E::find_mut::<Comp>, (m,), found) && final(fetches).5 == old(fetches).5 && final(fetches).6 == old(fetches).6 && final(fetches).7 == old(fetches).7 && final(fetches).8 == old(fetches).8 && final(fetches).9 == old(fetches).9 && final(fetches).10 == old(fetches).10 && final(fetches).11 == old(fetches).11 && final(fetches).12 == old(fetches).12 && final(fetches).13 == old(fetches).13 && final(fetches).14 == old(fetches).14 && final(fetches).15 == old(fetches).15 && final(fetches).16 == old(fetches).16 && final(fetches).17 == old(fetches).17 && final(fetches).18 == old(fetches).18 && final(fetches).19 == old(fetches).19 && final(fetches).20 == old(fetches).20 && final(fetches).21 == old(fetches).21 && final(fetches).22 == old(fetches).22 && final(fetches).23 == old(fetches).23 && final(fetches).24 == old(fetches).24)
                                            || (call_ensures(E::find_mut::<Comp>, (m,), None) && (
                                                exists|m: &mut F|
                                                    *m == old(fetches).5
                                                    && *final(m) == final(fetches).5
                                                    && ((found is Some && call_ensures(F::find_mut::<Comp>, (m,), found) && final(fetches).6 == old(fetches).6 && final(fetches).7 == old(fetches).7 && final(fetches).8 == old(fetches).8 && final(fetches).9 == old(fetches).9 && final(fetches).10 == old(fetches).10 && final(fetches).11 == old(fetches).11 && final(fetches).12 == old(fetches).12 && final(fetches).13 == old(fetches).13 && final(fetches).14 == old(fetches).14 && final(fetches).15 == old(fetches).15 && final(fetches).16 == old(fetches).16 && final(fetches).17 == old(fetches).17 && final(fetches).18 == old(fetches).18 && final(fetches).19 == old(fetches).19 && final(fetches).20 == old(fetches).20 && final(fetches).21 == old(fetches).21 && final(fetches).22 == old(fetches).22 && final(fetches).23 == old(fetches).23 && final(fetches).24 == old(fetches).24)
                                                    || (call_ensures(F::find_mut::<Comp>, (m,), None) && (
                                                        exists|m: &mut G|
                                                            *m == old(fetches).6
                                                            && *final(m) == final(fetches).6
                                                            && ((found is Some && call_ensures(G::find_mut::<Comp>, (m,), found) && final(fetches).7 == old(fetches).7 && final(fetches).8 == old(fetches).8 && final(fetches).9 == old(fetches).9 && final(fetches).10 == old(fetches).10 && final(fetches).11 == old(fetches).11 && final(fetches).12 == old(fetches).12 && final(fetches).13 == old(fetches).13 && final(fetches).14 == old(fetches).14 && final(fetches).15 == old(fetches).15 && final(fetches).16 == old(fetches).16 && final(fetches).17 == old(fetches).17 && final(fetches).18 == old(fetches).18 && final(fetches).19 == old(fetches).19 && final(fetches).20 == old(fetches).20 && final(fetches).21 == old(fetches).21 && final(fetches).22 == old(fetches).22 && final(fetches).23 == old(fetches).23 && final(fetches).24 == old(fetches).24)
                                                            || (call_ensures(G::find_mut::<Comp>, (m,), None) && (
                                                                exists|m: &mut H|
                                                                    *m == old(fetches).7
                                                                    && *final(m) == final(fetches).7
                                                                    && ((found is Some && call_ensures(H::find_mut::<Comp>, (m,), found) && final(fetches).8 == old(fetches).8 && final(fetches).9 == old(fetches).9 && final(fetches).10 == old(fetches).10 && final(fetches).11 == old(fetches).11 && final(fetches).12 == old(fetches).12 && final(fetches).13 == old(fetches).13 && final(fetches).14 == old(fetches).14 && final(fetches).15 == old(fetches).15 && final(fetches).16 == old(fetches).16 && final(fetches).17 == old(fetches).17 && final(fetches).18 == old(fetches).18 && final(fetches).19 == old(fetches).19 && final(fetches).20 == old(fetches).20 && final(fetches).21 == old(fetches).21 && final(fetches).22 == old(fetches).22 && final(fetches).23 == old(fetches).23 && final(fetches).24 == old(fetches).24)
                                                                    || (call_ensures(H::find_mut::<Comp>, (m,), None) && (
                                                                        exists|m: &mut I|
                                                                            *m == old(fetches).8
                                                                            && *final(m) == final(fetches).8
                                                                            && ((found is Some && call_ensures(I::find_mut::<Comp>, (m,), found) && final(fetches).9 == old(fetches).9 && final(fetches).10 == old(fetches).10 && final(fetches).11 == old(fetches).11 && final(fetches).12 == old(fetches).12 && final(fetches).13 == old(fetches).13 && final(fetches).14 == old(fetches).14 && final(fetches).15 == old(fetches).15 && final(fetches).16 == old(fetches).16 && final(fetches).17 == old(fetches).17 && final(fetches).18 == old(fetches).18 && final(fetches).19 == old(fetches).19 && final(fetches).20 == old(fetches).20 && final(fetches).21 == old(fetches).21 && final(fetches).22 == old(fetches).22 && final(fetches).23 == old(fetches).23 && final(fetches).24 == old(fetches).24)
                                                                            || (call_ensures(I::find_mut::<Comp>, (m,), None) && (
                                                                                exists|m: &mut J|
                                                                                    *m == old(fetches).9
                                                                                    && *final(m) == final(fetches).9
                                                                                    && ((found is Some && call_ensures(J::find_mut::<Comp>, (m,), found) && final(fetches).10 == old(fetches).10 && final(fetches).11 == old(fetches).11 && final(fetches).12 == old(fetches).12 && final(fetches).13 == old(fetches).13 && final(fetches).14 == old(fetches).14 && final(fetches).15 == old(fetches).15 && final(fetches).16 == old(fetches).16 && final(fetches).17 == old(fetches).17 && final(fetches).18 == old(fetches).18 && final(fetches).19 == old(fetches).19 && final(fetches).20 == old(fetches).20 && final(fetches).21 == old(fetches).21 && final(fetches).22 == old(fetches).22 && final(fetches).23 == old(fetches).23 && final(fetches).24 == old(fetches).24)
                                                                                    || (call_ensures(J::find_mut::<Comp>, (m,), None) && (
                                                                                        exists|m: &mut K|
                                                                                            *m == old(fetches).10
                                                                                            && *final(m) == final(fetches).10
                                                                                            && ((found is Some && call_ensures(K::find_mut::<Comp>, (m,), found) && final(fetches).11 == old(fetches).11 && final(fetches).12 == old(fetches).12 && final(fetches).13 == old(fetches).13 && final(fetches).14 == old(fetches).14 && final(fetches).15 == old(fetches).15 && final(fetches).16 == old(fetches).16 && final(fetches).17 == old(fetches).17 && final(fetches).18 == old(fetches).18 && final(fetches).19 == old(fetches).19 && final(fetches).20 == old(fetches).20 && final(fetches).21 == old(fetches).21 && final(fetches).22 == old(fetches).22 && final(fetches).23 == old(fetches).23 && final(fetches).24 == old(fetches).24)
                                                                                            || (call_ensures(K::find_mut::<Comp>, (m,), None) && (
                                                                                                exists|m: &mut L|
                                                                                                    *m == old(fetches).11
                                                                                                    && *final(m) == final(fetches).11
                                                                                                    && ((found is Some && call_ensures(L::find_mut::<Comp>, (m,), found) && final(fetches).12 == old(fetches).12 && final(fetches).13 == old(fetches).13 && final(fetches).14 == old(fetches).14 && final(fetches).15 == old(fetches).15 && final(fetches).16 == old(fetches).16 && final(fetches).17 == old(fetches).17 && final(fetches).18 == old(fetches).18 && final(fetches).19 == old(fetches).19 && final(fetches).20 == old(fetches).20 && final(fetches).21 == old(fetches).21 && final(fetches).22 == old(fetches).22 && final(fetches).23 == old(fetches).23 && final(fetches).24 == old(fetches).24)
                                                                                                    || (call_ensures(L::find_mut::<Comp>, (m,), None) && (
                                                                                                        exists|m: &mut M|
                                                                                                            *m == old(fetches).12
                                                                                                            && *final(m) == final(fetches).12
                                                                                                            && ((found is Some && call_ensures(M::find_mut::<Comp>, (m,), found) && final(fetches).13 == old(fetches).13 && final(fetches).14 == old(fetches).14 && final(fetches).15 == old(fetches).15 && final(fetches).16 == old(fetches).16 && final(fetches).17 == old(fetches).17 && final(fetches).18 == old(fetches).18 && final(fetches).19 == old(fetches).19 && final(fetches).20 == old(fetches).20 && final(fetches).21 == old(fetches).21 && final(fetches).22 == old(fetches).22 && final(fetches).23 == old(fetches).23 && final(fetches).24 == old(fetches).24)
                                                                                                            || (call_ensures(M::find_mut::<Comp>, (m,), None) && (
                                                                                                                exists|m: &mut N|
                                                                                                                    *m == old(fetches).13
                                                                                                                    && *final(m) == final(fetches).13
                                                                                                                    && ((found is Some && call_ensures(N::find_mut::<Comp>, (m,), found) && final(fetches).14 == old(fetches).14 && final(fetches).15 == old(fetches).15 && final(fetches).16 == old(fetches).16 && final(fetches).17 == old(fetches).17 && final(fetches).18 == old(fetches).18 && final(fetches).19 == old(fetches).19 && final(fetches).20 == old(fetches).20 && final(fetches).21 == old(fetches).21 && final(fetches).22 == old(fetches).22 && final(fetches).23 == old(fetches).23 && final(fetches).24 == old(fetches).24)
                                                                                                                    || (call_ensures(N::find_mut::<Comp>, (m,), None) && (
                                                                                                                        exists|m: &mut O|
                                                                                                                            *m == old(fetches).14
                                                                                                                            && *final(m) == final(fetches).14
                                                                                                                            && ((found is Some && call_ensures(O::find_mut::<Comp>, (m,), found) && final(fetches).15 == old(fetches).15 && final(fetches).16 == old(fetches).16 && final(fetches).17 == old(fetches).17 && final(fetches).18 == old(fetches).18 && final(fetches).19 == old(fetches).19 && final(fetches).20 == old(fetches).20 && final(fetches).21 == old(fetches).21 && final(fetches).22 == old(fetches).22 && final(fetches).23 == old(fetches).23 && final(fetches).24 == old(fetches).24)
                                                                                                                            || (call_ensures(O::find_mut::<Comp>, (m,), None) && (
                                                                                                                                exists|m: &mut P|
                                                                                                                                    *m == old(fetches).15
                                                                                                                                    && *final(m) == final(fetches).15
                                                                                                                                    && ((found is Some && call_ensures(P::find_mut::<Comp>, (m,), found) && final(fetches).16 == old(fetches).16 && final(fetches).17 == old(fetches).17 && final(fetches).18 == old(fetches).18 && final(fetches).19 == old(fetches).19 && final(fetches).20 == old(fetches).20 && final(fetches).21 == old(fetches).21 && final(fetches).22 == old(fetches).22 && final(fetches).23 == old(fetches).23 && final(fetches).24 == old(fetches).24)
                                                                                                                                    || (call_ensures(P::find_mut::<Comp>, (m,), None) && (
                                                                                                                                        exists|m: &mut Q|
                                                                                                                                            *m == old(fetches).16
                                                                                                                                            && *final(m) == final(fetches).16
                                                                                                                                            && ((found is Some && call_ensures(Q::find_mut::<Comp>, (m,), found) && final(fetches).17 == old(fetches).17 && final(fetches).18 == old(fetches).18 && final(fetches).19 == old(fetches).19 && final(fetches).20 == old(fetches).20 && final(fetches).21 == old(fetches).21 && final(fetches).22 == old(fetches).22 && final(fetches).23 == old(fetches).23 && final(fetches).24 == old(fetches).24)
                                                                                                                                            || (call_ensures(Q::find_mut::<Comp>, (m,), None) && (
                                                                                                                                                exists|m: &mut R|
                                                                                                                                                    *m == old(fetches).17
                                                                                                                                                    && *final(m) == final(fetches).17
                                                                                                                                                    && ((found is Some && call_ensures(R::find_mut::<Comp>, (m,), found) && final(fetches).18 == old(fetches).18 && final(fetches).19 == old(fetches).19 && final(fetches).20 == old(fetches).20 && final(fetches).21 == old(fetches).21 && final(fetches).22 == old(fetches).22 && final(fetches).23 == old(fetches).23 && final(fetches).24 == old(fetches).24)
                                                                                                                                                    || (call_ensures(R::find_mut::<Comp>, (m,), None) && (
                                                                                                                                                        exists|m: &mut S|
                                                                                                                                                            *m == old(fetches).18
                                                                                                                                                            && *final(m) == final(fetches).18
                                                                                                                                                            && ((found is Some && call_ensures(S::find_mut::<Comp>, (m,), found) && final(fetches).19 == old(fetches).19 && final(fetches).20 == old(fetches).20 && final(fetches).21 == old(fetches).21 && final(fetches).22 == old(fetches).22 && final(fetches).23 == old(fetches).23 && final(fetches).24 == old(fetches).24)
                                                                                                                                                            || (call_ensures(S::find_mut::<Comp>, (m,), None) && (
                                                                                                                                                                exists|m: &mut T|
                                                                                                                                                                    *m == old(fetches).19
                                                                                                                                                                    && *final(m) == final(fetches).19
                                                                                                                                                                    && ((found is Some && call_ensures(T::find_mut::<Comp>, (m,), found) && final(fetches).20 == old(fetches).20 && final(fetches).21 == old(fetches).21 && final(fetches).22 == old(fetches).22 && final(fetches).23 == old(fetches).23 && final(fetches).24 == old(fetches).24)
                                                                                                                                                                    || (call_ensures(T::find_mut::<Comp>, (m,), None) && (
                                                                                                                                                                        exists|m: &mut U|
                                                                                                                                                                            *m == old(fetches).20
                                                                                                                                                                            && *final(m) == final(fetches).20
                                                                                                                                                                            && ((found is Some && call_ensures(U::find_mut::<Comp>, (m,), found) && final(fetches).21 == old(fetches).21 && final(fetches).22 == old(fetches).22 && final(fetches).23 == old(fetches).23 && final(fetches).24 == old(fetches).24)
                                                                                                                                                                            || (call_ensures(U::find_mut::<Comp>, (m,), None) && (
                                                                                                                                                                                exists|m: &mut V|
                                                                                                                                                                                    *m == old(fetches).21
                                                                                                                                                                                    && *final(m) == final(fetches).21
                                                                                                                                                                                    && ((found is Some && call_ensures(V::find_mut::<Comp>, (m,), found) && final(fetches).22 == old(fetches).22 && final(fetches).23 == old(fetches).23 && final(fetches).24 == old(fetches).24)
                                                                                                                                                                                    || (call_ensures(V::find_mut::<Comp>, (m,), None) && (
                                                                                                                                                                                        exists|m: &mut W|
                                                                                                                                                                                            *m == old(fetches).22
                                                                                                                                                                                            && *final(m) == final(fetches).22
                                                                                                                                                                                            && ((found is Some && call_ensures(W::find_mut::<Comp>, (m,), found) && final(fetches).23 == old(fetches).23 && final(fetches).24 == old(fetches).24)
                                                                                                                                                                                            || (call_ensures(W::find_mut::<Comp>, (m,), None) && (
                                                                                                                                                                                                exists|m: &mut X|
                                                                                                                                                                                                    *m == old(fetches).23
                                                                                                                                                                                                    && *final(m) == final(fetches).23
                                                                                                                                                                                                    && ((found is Some && call_ensures(X::find_mut::<Comp>, (m,), found) && final(fetches).24 == old(fetches).24)
                                                                                                                                                                                                    || (call_ensures(X::find_mut::<Comp>, (m,), None) && (
                                                                                                                                                                                                        exists|m: &mut Y|
                                                                                                                                                                                                            *m == old(fetches).24
                                                                                                                                                                                                            && *final(m) == final(fetches).24
                                                                                                                                                                                                            && call_ensures(Y::find_mut::<Comp>, (m,), found))))))))))))))))))))))))))))))))))))))))))))))))))))))))))))))))))))))))),
{
    let found = (A::find_mut::<Comp>)(&mut fetches.0);
    if found.is_some() {
        return found;
    }
    let found = (B::find_mut::<Comp>)(&mut fetches.1);
    if found.is_some() {
        return found;
    }
    let found = (C::find_mut::<Comp>)(&mut fetches.2);
    if found.is_some() {
        return found;
    }
    let found = (D::find_mut::<Comp>)(&mut fetches.3);
    if found.is_some() {
        return found;
    }
    let found = (E::find_mut::<Comp>)(&mut fetches.4);
    if found.is_some() {
        return found;
    }
    let found = (F::find_mut::<Comp>)(&mut fetches.5);
    if found.is_some() {
        return found;
    }
    let found = (G::find_mut::<Comp>)(&mut fetches.6);
    if found.is_some() {
        return found;
    }
    let found = (H::find_mut::<Comp>)(&mut fetches.7);
    if found.is_some() {
        return found;
    }
    let found = (I::find_mut::<Comp>)(&mut fetches.8);
    if found.is_some() {
        return found;
    }
    let found = (J::find_mut::<Comp>)(&mut fetches.9);
    if found.is_some() {
        return found;
    }
    let found = (K::find_mut::<Comp>)(&mut fetches.10);
    if found.is_some() {
        return found;
    }
    let found = (L::find_mut::<Comp>)(&mut fetches.11);
    if found.is_some() {
        return found;
    }
    let found = (M::find_mut::<Comp>)(&mut fetches.12);
    if found.is_some() {
        return found;
    }
    let found = (N::find_mut::<Comp>)(&mut fetches.13);
    if found.is_some() {
        return found;
    }
    let found = (O::find_mut::<Comp>)(&mut fetches.14);
    if found.is_some() {
        return found;
    }
    let found = (P::find_mut::<Comp>)(&mut fetches.15);
    if found.is_some() {
        return found;
    }
    let found = (Q::find_mut::<Comp>)(&mut fetches.16);
    if found.is_some() {
        return found;
    }
    let found = (R::find_mut::<Comp>)(&mut fetches.17);
    if found.is_some() {
        return found;
    }
    let found = (S::find_mut::<Comp>)(&mut fetches.18);
    if found.is_some() {
        return found;
    }
    let found = (T::find_mut::<Comp>)(&mut fetches.19);
    if found.is_some() {
        return found;
    }
    let found = (U::find_mut::<Comp>)(&mut fetches.20);
    if found.is_some() {
        return found;
    }
    let found = (V::find_mut::<Comp>)(&mut fetches.21);
    if found.is_some() {
        return found;
    }
    let found = (W::find_mut::<Comp>)(&mut fetches.22);
    if found.is_some() {
        return found;
    }
    let found = (X::find_mut::<Comp>)(&mut fetches.23);
    if found.is_some() {
        return found;
    }
    (Y::find_mut::<Comp>)(&mut fetches.24)
}

/// The version of `Comp` in the first fetch of a tuple of 25 that holds it.
pub fn tuple25_version<A: Fetch, B: Fetch, C: Fetch, D: Fetch, E: Fetch, F: Fetch, G: Fetch, H: Fetch, I: Fetch, J: Fetch, K: Fetch, L: Fetch, M: Fetch, N: Fetch, O: Fetch, P: Fetch, Q: Fetch, R: Fetch, S: Fetch, T: Fetch, U: Fetch, V: Fetch, W: Fetch, X: Fetch, Y: Fetch, Comp: Component>(fetches: &(A, B, C, D, E, F, G, H, I, J, K, L, M, N, O, P, Q, R, S, T, U, V, W, X, Y)) -> (version: Option<u64>)
    ensures
        (version is Some && call_ensures(A::version::<Comp>, (&fetches.0,), version))
        || (call_ensures(A::version::<Comp>, (&fetches.0,), None) && (
            (version is Some && call_ensures(B::version::<Comp>, (&fetches.1,), version))
            || (call_ensures(B::version::<Comp>, (&fetches.1,), None) && (
                (version is Some && call_ensures(C::version::<Comp>, (&fetches.2,), version))
                || (call_ensures(C::version::<Comp>, (&fetches.2,), None) && (
                    (version is Some && call_ensures(D::version::<Comp>, (&fetches.3,), version))
                    || (call_ensures(D::version::<Comp>, (&fetches.3,), None) && (
                        (version is Some && call_ensures(E::version::<Comp>, (&fetches.4,), version))
                        || (call_ensures(E::version::<Comp>, (&fetches.4,), None) && (
                            (version is Some && call_ensures(F::version::<Comp>, (&fetches.5,), version))
                            || (call_ensures(F::version::<Comp>, (&fetches.5,), None) && (
                                (version is Some && call_ensures(G::version::<Comp>, (&fetches.6,), version))
                                || (call_ensures(G::version::<Comp>, (&fetches.6,), None) && (
                                    (version is Some && call_ensures(H::version::<Comp>, (&fetches.7,), version))
                                    || (call_ensures(H::version::<Comp>, (&fetches.7,), None) && (
                                        (version is Some && call_ensures(I::version::<Comp>, (&fetches.8,), version))
                                        || (call_ensures(I::version::<Comp>, (&fetches.8,), None) && (
                                            (version is Some && call_ensures(J::version::<Comp>, (&fetches.9,), version))
                                            || (call_ensures(J::version::<Comp>, (&fetches.9,), None) && (
                                                (version is Some && call_ensures(K::version::<Comp>, (&fetches.10,), version))
                                                || (call_ensures(K::version::<Comp>, (&fetches.10,), None) && (
                                                    (version is Some && call_ensures(L::version::<Comp>, (&fetches.11,), version))
                                                    || (call_ensures(L::version::<Comp>, (&fetches.11,), None) && (
                                                        (version is Some && call_ensures(M::version::<Comp>, (&fetches.12,), version))
                                                        || (call_ensures(M::version::<Comp>, (&fetches.12,), None) && (
                                                            (version is Some && call_ensures(N::version::<Comp>, (&fetches.13,), version))
                                                            || (call_ensures(N::version::<Comp>, (&fetches.13,), None) && (
                                                                (version is Some && call_ensures(O::version::<Comp>, (&fetches.14,), version))
                                                                || (call_ensures(O::version::<Comp>, (&fetches.14,), None) && (
                                                                    (version is Some && call_ensures(P::version::<Comp>, (&fetches.15,), version))
                                                                    || (call_ensures(P::version::<Comp>, (&fetches.15,), None) && (
                                                                        (version is Some && call_ensures(Q::version::<Comp>, (&fetches.16,), version))
                                                                        || (call_ensures(Q::version::<Comp>, (&fetches.16,), None) && (
                                                                            (version is Some && call_ensures(R::version::<Comp>, (&fetches.17,), version))
                                                                            || (call_ensures(R::version::<Comp>, (&fetches.17,), None) && (
                                                                                (version is Some && call_ensures(S::version::<Comp>, (&fetches.18,), version))
                                                                                || (call_ensures(S::version::<Comp>, (&fetches.18,), None) && (
                                                                                    (version is Some && call_ensures(T::version::<Comp>, (&fetches.19,), version))
                                                                                    || (call_ensures(T::version::<Comp>, (&fetches.19,), None) && (
                                                                                        (version is Some && call_ensures(U::version::<Comp>, (&fetches.20,), version))
                                                                                        || (call_ensures(U::version::<Comp>, (&fetches.20,), None) && (
                                                                                            (version is Some && call_ensures(V::version::<Comp>, (&fetches.21,), version))
                                                                                            || (call_ensures(V::version::<Comp>, (&fetches.21,), None) && (
                                                                                                (version is Some && call_ensures(W::version::<Comp>, (&fetches.22,), version))
                                                                                                || (call_ensures(W::version::<Comp>, (&fetches.22,), None) && (
                                                                                                    (version is Some && call_ensures(X::version::<Comp>, (&fetches.23,), version))
                                                                                                    || (call_ensures(X::version::<Comp>, (&fetches.23,), None) && (
                                                                                                        call_ensures(Y::version::<Comp>, (&fetches.24,), version))))))))))))))))))))))))))))))))))))))))))))))))),
{
    let (a, b, c, d, e, f, g, h, i, j, k, l, m, n, o, p, q, r, s, t, u, v, w, x, y) = fetches;
    if let Some(version) = (A::version::<Comp>)(a) {
        return Some(version);
    }
    if let Some(version) = (B::version::<Comp>)(b) {
        return Some(version);
    }
    if let Some(version) = (C::version::<Comp>)(c) {
        return Some(version);
    }
    if let Some(version) = (D::version::<Comp>)(d) {
        return Some(version);
    }
    if let Some(version) = (E::version::<Comp>)(e) {
        return Some(version);
    }
    if let Some(version) = (F::version::<Comp>)(f) {
        return Some(version);
    }
    if let Some(version) = (G::version::<Comp>)(g) {
        return Some(version);
    }
    if let Some(version) = (H::version::<Comp>)(h) {
        return Some(version);
    }
    if let Some(version) = (I::version::<Comp>)(i) {
        return Some(version);
    }
    if let Some(version) = (J::version::<Comp>)(j) {
        return Some(version);
    }
    if let Some(version) = (K::version::<Comp>)(k) {
        return Some(version);
    }
    if let Some(version) = (L::version::<Comp>)(l) {
        return Some(version);
    }
    if let Some(version) = (M::version::<Comp>)(m) {
        return Some(version);
    }
    if let Some(version) = (N::version::<Comp>)(n) {
        return Some(version);
    }
    if let Some(version) = (O::version::<Comp>)(o) {
        return Some(version);
    }
    if let Some(version) = (P::version::<Comp>)(p) {
        return Some(version);
    }
    if let Some(version) = (Q::version::<Comp>)(q) {
        return Some(version);
    }
    if let Some(version) = (R::version::<Comp>)(r) {
        return Some(version);
    }
    if let Some(version) = (S::version::<Comp>)(s) {
        return Some(version);
    }
    if let Some(version) = (T::version::<Comp>)(t) {
        return Some(version);
    }
    if let Some(version) = (U::version::<Comp>)(u) {
        return Some(version);
    }
    if let Some(version) = (V::version::<Comp>)(v) {
        return Some(version);
    }
    if let Some(version) = (W::version::<Comp>)(w) {
        return Some(version);
    }
    if let Some(version) = (X::version::<Comp>)(x) {
        return Some(version);
    }
    (Y::version::<Comp>)(y)
}

// Tuples of 26 views.

impl<A: DefaultFilter, B: DefaultFilter, C: DefaultFilter, D: DefaultFilter, E: DefaultFilter, F: DefaultFilter, G: DefaultFilter, H: DefaultFilter, I: DefaultFilter, J: DefaultFilter, K: DefaultFilter, L: DefaultFilter, M: DefaultFilter, N: DefaultFilter, O: DefaultFilter, P: DefaultFilter, Q: DefaultFilter, R: DefaultFilter, S: DefaultFilter, T: DefaultFilter, U: DefaultFilter, V: DefaultFilter, W: DefaultFilter, X: DefaultFilter, Y: DefaultFilter, Z: DefaultFilter> DefaultFilter for (A, B, C, D, E, F, G, H, I, J, K, L, M, N, O, P, Q, R, S, T, U, V, W, X, Y, Z) {
    type Filter = (A::Filter, B::Filter, C::Filter, D::Filter, E::Filter, F::Filter, G::Filter, H::Filter, I::Filter, J::Filter, K::Filter, L::Filter, M::Filter, N::Filter, O::Filter, P::Filter, Q::Filter, R::Filter, S::Filter, T::Filter, U::Filter, V::Filter, W::Filter, X::Filter, Y::Filter, Z::Filter);
}

impl<'a, A: View<'a> + 'a, B: View<'a> + 'a, C: View<'a> + 'a, D: View<'a> + 'a, E: View<'a> + 'a, F: View<'a> + 'a, G: View<'a> + 'a, H: View<'a> + 'a, I: View<'a> + 'a, J: View<'a> + 'a, K: View<'a> + 'a, L: View<'a> + 'a, M: View<'a> + 'a, N: View<'a> + 'a, O: View<'a> + 'a, P: View<'a> + 'a, Q: View<'a> + 'a, R: View<'a> + 'a, S: View<'a> + 'a, T: View<'a> + 'a, U: View<'a> + 'a, V: View<'a> + 'a, W: View<'a> + 'a, X: View<'a> + 'a, Y: View<'a> + 'a, Z: View<'a> + 'a> View<'a> for (A, B, C, D, E, F, G, H, I, J, K, L, M, N, O, P, Q, R, S, T, U, V, W, X, Y, Z) {
    type Element = <Self::Fetch as IntoIndexableIter>::Item;
    type Fetch = MultiFetch<'a, (A::Fetch, B::Fetch, C::Fetch, D::Fetch, E::Fetch, F::Fetch, G::Fetch, H::Fetch, I::Fetch, J::Fetch, K::Fetch, L::Fetch, M::Fetch, N::Fetch, O::Fetch, P::Fetch, Q::Fetch, R::Fetch, S::Fetch, T::Fetch, U::Fetch, V::Fetch, W::Fetch, X::Fetch, Y::Fetch, Z::Fetch)>;

    fn validate() -> (valid: bool)
        ensures
            exists|reads: Seq<Vec<ComponentTypeId>>, writes: Seq<Vec<ComponentTypeId>>|
                reads.len() == 26 && writes.len() == 26
                && call_ensures(A::reads_types, (), reads[0])
                && call_ensures(A::writes_types, (), writes[0])
                && call_ensures(B::reads_types, (), reads[1])
                && call_ensures(B::writes_types, (), writes[1])
                && call_ensures(C::reads_types, (), reads[2])
                && call_ensures(C::writes_types, (), writes[2])
                && call_ensures(D::reads_types, (), reads[3])
                && call_ensures(D::writes_types, (), writes[3])
                && call_ensures(E::reads_types, (), reads[4])
                && call_ensures(E::writes_types, (), writes[4])
                && call_ensures(F::reads_types, (), reads[5])
                && call_ensures(F::writes_types, (), writes[5])
                && call_ensures(G::reads_types, (), reads[6])
                && call_ensures(G::writes_types, (), writes[6])
                && call_ensures(H::reads_types, (), reads[7])
                && call_ensures(H::writes_types, (), writes[7])
                && call_ensures(I::reads_types, (), reads[8])
                && call_ensures(I::writes_types, (), writes[8])
                && call_ensures(J::reads_types, (), reads[9])
                && call_ensures(J::writes_types, (), writes[9])
                && call_ensures(K::reads_types, (), reads[10])
                && call_ensures(K::writes_types, (), writes[10])
                && call_ensures(L::reads_types, (), reads[11])
                && call_ensures(L::writes_types, (), writes[11])
                && call_ensures(M::reads_types, (), reads[12])
                && call_ensures(M::writes_types, (), writes[12])
                && call_ensures(N::reads_types, (), reads[13])
                && call_ensures(N::writes_types, (), writes[13])
                && call_ensures(O::reads_types, (), reads[14])
                && call_ensures(O::writes_types, (), writes[14])
                && call_ensures(P::reads_types, (), reads[15])
                && call_ensures(P::writes_types, (), writes[15])
                && call_ensures(Q::reads_types, (), reads[16])
                && call_ensures(Q::writes_types, (), writes[16])
                && call_ensures(R::reads_types, (), reads[17])
                && call_ensures(R::writes_types, (), writes[17])
                && call_ensures(S::reads_types, (), reads[18])
                && call_ensures(S::writes_types, (), writes[18])
                && call_ensures(T::reads_types, (), reads[19])
                && call_ensures(T::writes_types, (), writes[19])
                && call_ensures(U::reads_types, (), reads[20])
                && call_ensures(U::writes_types, (), writes[20])
                && call_ensures(V::reads_types, (), reads[21])
                && call_ensures(V::writes_types, (), writes[21])
                && call_ensures(W::reads_types, (), reads[22])
                && call_ensures(W::writes_types, (), writes[22])
                && call_ensures(X::reads_types, (), reads[23])
                && call_ensures(X::writes_types, (), writes[23])
                && call_ensures(Y::reads_types, (), reads[24])
                && call_ensures(Y::writes_types, (), writes[24])
                && call_ensures(Z::reads_types, (), reads[25])
                && call_ensures(Z::writes_types, (), writes[25])
                && valid == conflict_free(type_lists(reads), type_lists(writes)),
    {
        let reads = vec![(A::reads_types)(), (B::reads_types)(), (C::reads_types)(), (D::reads_types)(), (E::reads_types)(), (F::reads_types)(), (G::reads_types)(), (H::reads_types)(), (I::reads_types)(), (J::reads_types)(), (K::reads_types)(), (L::reads_types)(), (M::reads_types)(), (N::reads_types)(), (O::reads_types)(), (P::reads_types)(), (Q::reads_types)(), (R::reads_types)(), (S::reads_types)(), (T::reads_types)(), (U::reads_types)(), (V::reads_types)(), (W::reads_types)(), (X::reads_types)(), (Y::reads_types)(), (Z::reads_types)()];
        let writes = vec![(A::writes_types)(), (B::writes_types)(), (C::writes_types)(), (D::writes_types)(), (E::writes_types)(), (F::writes_types)(), (G::writes_types)(), (H::writes_types)(), (I::writes_types)(), (J::writes_types)(), (K::writes_types)(), (L::writes_types)(), (M::writes_types)(), (N::writes_types)(), (O::writes_types)(), (P::writes_types)(), (Q::writes_types)(), (R::writes_types)(), (S::writes_types)(), (T::writes_types)(), (U::writes_types)(), (V::writes_types)(), (W::writes_types)(), (X::writes_types)(), (Y::writes_types)(), (Z::writes_types)()];
        let valid = accesses_conflict_free(&reads, &writes);
        assert(
            reads@.len() == 26 && writes@.len() == 26
            && call_ensures(A::reads_types, (), reads@[0])
            && call_ensures(A::writes_types, (), writes@[0])
            && call_ensures(B::reads_types, (), reads@[1])
            && call_ensures(B::writes_types, (), writes@[1])
            && call_ensures(C::reads_types, (), reads@[2])
            && call_ensures(C::writes_types, (), writes@[2])
            && call_ensures(D::reads_types, (), reads@[3])
            && call_ensures(D::writes_types, (), writes@[3])
            && call_ensures(E::reads_types, (), reads@[4])
            && call_ensures(E::writes_types, (), writes@[4])
            && call_ensures(F::reads_types, (), reads@[5])
            && call_ensures(F::writes_types, (), writes@[5])
            && call_ensures(G::reads_types, (), reads@[6])
            && call_ensures(G::writes_types, (), writes@[6])
            && call_ensures(H::reads_types, (), reads@[7])
            && call_ensures(H::writes_types, (), writes@[7])
            && call_ensures(I::reads_types, (), reads@[8])
            && call_ensures(I::writes_types, (), writes@[8])
            && call_ensures(J::reads_types, (), reads@[9])
            && call_ensures(J::writes_types, (), writes@[9])
            && call_ensures(K::reads_types, (), reads@[10])
            && call_ensures(K::writes_types, (), writes@[10])
            && call_ensures(L::reads_types, (), reads@[11])
            && call_ensures(L::writes_types, (), writes@[11])
            && call_ensures(M::reads_types, (), reads@[12])
            && call_ensures(M::writes_types, (), writes@[12])
            && call_ensures(N::reads_types, (), reads@[13])
            && call_ensures(N::writes_types, (), writes@[13])
            && call_ensures(O::reads_types, (), reads@[14])
            && call_ensures(O::writes_types, (), writes@[14])
            && call_ensures(P::reads_types, (), reads@[15])
            && call_ensures(P::writes_types, (), writes@[15])
            && call_ensures(Q::reads_types, (), reads@[16])
            && call_ensures(Q::writes_types, (), writes@[16])
            && call_ensures(R::reads_types, (), reads@[17])
            && call_ensures(R::writes_types, (), writes@[17])
            && call_ensures(S::reads_types, (), reads@[18])
            && call_ensures(S::writes_types, (), writes@[18])
            && call_ensures(T::reads_types, (), reads@[19])
            && call_ensures(T::writes_types, (), writes@[19])
            && call_ensures(U::reads_types, (), reads@[20])
            && call_ensures(U::writes_types, (), writes@[20])
            && call_ensures(V::reads_types, (), reads@[21])
            && call_ensures(V::writes_types, (), writes@[21])
            && call_ensures(W::reads_types, (), reads@[22])
            && call_ensures(W::writes_types, (), writes@[22])
            && call_ensures(X::reads_types, (), reads@[23])
            && call_ensures(X::writes_types, (), writes@[23])
            && call_ensures(Y::reads_types, (), reads@[24])
            && call_ensures(Y::writes_types, (), writes@[24])
            && call_ensures(Z::reads_types, (), reads@[25])
            && call_ensures(Z::writes_types, (), writes@[25])
            && valid == conflict_free(type_lists(reads@), type_lists(writes@))
        );
        valid
    }

    fn reads_types() -> (types: Vec<ComponentTypeId>)
        ensures
            exists|lists: Seq<Vec<ComponentTypeId>>|
                lists.len() == 26
                && call_ensures(A::reads_types, (), lists[0])
                && call_ensures(B::reads_types, (), lists[1])
                && call_ensures(C::reads_types, (), lists[2])
                && call_ensures(D::reads_types, (), lists[3])
                && call_ensures(E::reads_types, (), lists[4])
                && call_ensures(F::reads_types, (), lists[5])
                && call_ensures(G::reads_types, (), lists[6])
                && call_ensures(H::reads_types, (), lists[7])
                && call_ensures(I::reads_types, (), lists[8])
                && call_ensures(J::reads_types, (), lists[9])
                && call_ensures(K::reads_types, (), lists[10])
                && call_ensures(L::reads_types, (), lists[11])
                && call_ensures(M::reads_types, (), lists[12])
                && call_ensures(N::reads_types, (), lists[13])
                && call_ensures(O::reads_types, (), lists[14])
                && call_ensures(P::reads_types, (), lists[15])
                && call_ensures(Q::reads_types, (), lists[16])
                && call_ensures(R::reads_types, (), lists[17])
                && call_ensures(S::reads_types, (), lists[18])
                && call_ensures(T::reads_types, (), lists[19])
                && call_ensures(U::reads_types, (), lists[20])
                && call_ensures(V::reads_types, (), lists[21])
                && call_ensures(W::reads_types, (), lists[22])
                && call_ensures(X::reads_types, (), lists[23])
                && call_ensures(Y::reads_types, (), lists[24])
                && call_ensures(Z::reads_types, (), lists[25])
                && types@ == type_lists(lists).flatten(),
    {
        let lists = vec![(A::reads_types)(), (B::reads_types)(), (C::reads_types)(), (D::reads_types)(), (E::reads_types)(), (F::reads_types)(), (G::reads_types)(), (H::reads_types)(), (I::reads_types)(), (J::reads_types)(), (K::reads_types)(), (L::reads_types)(), (M::reads_types)(), (N::reads_types)(), (O::reads_types)(), (P::reads_types)(), (Q::reads_types)(), (R::reads_types)(), (S::reads_types)(), (T::reads_types)(), (U::reads_types)(), (V::reads_types)(), (W::reads_types)(), (X::reads_types)(), (Y::reads_types)(), (Z::reads_types)()];
        let ghost views = lists@;
        let types = concat_types(lists);
        assert(
            views.len() == 26
            && call_ensures(A::reads_types, (), views[0])
            && call_ensures(B::reads_types, (), views[1])
            && call_ensures(C::reads_types, (), views[2])
            && call_ensures(D::reads_types, (), views[3])
            && call_ensures(E::reads_types, (), views[4])
            && call_ensures(F::reads_types, (), views[5])
            && call_ensures(G::reads_types, (), views[6])
            && call_ensures(H::reads_types, (), views[7])
            && call_ensures(I::reads_types, (), views[8])
            && call_ensures(J::reads_types, (), views[9])
            && call_ensures(K::reads_types, (), views[10])
            && call_ensures(L::reads_types, (), views[11])
            && call_ensures(M::reads_types, (), views[12])
            && call_ensures(N::reads_types, (), views[13])
            && call_ensures(O::reads_types, (), views[14])
            && call_ensures(P::reads_types, (), views[15])
            && call_ensures(Q::reads_types, (), views[16])
            && call_ensures(R::reads_types, (), views[17])
            && call_ensures(S::reads_types, (), views[18])
            && call_ensures(T::reads_types, (), views[19])
            && call_ensures(U::reads_types, (), views[20])
            && call_ensures(V::reads_types, (), views[21])
            && call_ensures(W::reads_types, (), views[22])
            && call_ensures(X::reads_types, (), views[23])
            && call_ensures(Y::reads_types, (), views[24])
            && call_ensures(Z::reads_types, (), views[25])
            && types@ == type_lists(views).flatten()
        );
        types
    }

    fn writes_types() -> (types: Vec<ComponentTypeId>)
        ensures
            exists|lists: Seq<Vec<ComponentTypeId>>|
                lists.len() == 26
                && call_ensures(A::writes_types, (), lists[0])
                && call_ensures(B::writes_types, (), lists[1])
                && call_ensures(C::writes_types, (), lists[2])
                && call_ensures(D::writes_types, (), lists[3])
                && call_ensures(E::writes_types, (), lists[4])
                && call_ensures(F::writes_types, (), lists[5])
                && call_ensures(G::writes_types, (), lists[6])
                && call_ensures(H::writes_types, (), lists[7])
                && call_ensures(I::writes_types, (), lists[8])
                && call_ensures(J::writes_types, (), lists[9])
                && call_ensures(K::writes_types, (), lists[10])
                && call_ensures(L::writes_types, (), lists[11])
                && call_ensures(M::writes_types, (), lists[12])
                && call_ensures(N::writes_types, (), lists[13])
                && call_ensures(O::writes_types, (), lists[14])
                && call_ensures(P::writes_types, (), lists[15])
                && call_ensures(Q::writes_types, (), lists[16])
                && call_ensures(R::writes_types, (), lists[17])
                && call_ensures(S::writes_types, (), lists[18])
                && call_ensures(T::writes_types, (), lists[19])
                && call_ensures(U::writes_types, (), lists[20])
                && call_ensures(V::writes_types, (), lists[21])
                && call_ensures(W::writes_types, (), lists[22])
                && call_ensures(X::writes_types, (), lists[23])
                && call_ensures(Y::writes_types, (), lists[24])
                && call_ensures(Z::writes_types, (), lists[25])
                && types@ == type_lists(lists).flatten(),
    {
        let lists = vec![(A::writes_types)(), (B::writes_types)(), (C::writes_types)(), (D::writes_types)(), (E::writes_types)(), (F::writes_types)(), (G::writes_types)(), (H::writes_types)(), (I::writes_types)(), (J::writes_types)(), (K::writes_types)(), (L::writes_types)(), (M::writes_types)(), (N::writes_types)(), (O::writes_types)(), (P::writes_types)(), (Q::writes_types)(), (R::writes_types)(), (S::writes_types)(), (T::writes_types)(), (U::writes_types)(), (V::writes_types)(), (W::writes_types)(), (X::writes_types)(), (Y::writes_types)(), (Z::writes_types)()];
        let ghost views = lists@;
        let types = concat_types(lists);
        assert(
            views.len() == 26
            && call_ensures(A::writes_types, (), views[0])
            && call_ensures(B::writes_types, (), views[1])
            && call_ensures(C::writes_types, (), views[2])
            && call_ensures(D::writes_types, (), views[3])
            && call_ensures(E::writes_types, (), views[4])
            && call_ensures(F::writes_types, (), views[5])
            && call_ensures(G::writes_types, (), views[6])
            && call_ensures(H::writes_types, (), views[7])
            && call_ensures(I::writes_types, (), views[8])
            && call_ensures(J::writes_types, (), views[9])
            && call_ensures(K::writes_types, (), views[10])
            && call_ensures(L::writes_types, (), views[11])
            && call_ensures(M::writes_types, (), views[12])
            && call_ensures(N::writes_types, (), views[13])
            && call_ensures(O::writes_types, (), views[14])
            && call_ensures(P::writes_types, (), views[15])
            && call_ensures(Q::writes_types, (), views[16])
            && call_ensures(R::writes_types, (), views[17])
            && call_ensures(S::writes_types, (), views[18])
            && call_ensures(T::writes_types, (), views[19])
            && call_ensures(U::writes_types, (), views[20])
            && call_ensures(V::writes_types, (), views[21])
            && call_ensures(W::writes_types, (), views[22])
            && call_ensures(X::writes_types, (), views[23])
            && call_ensures(Y::writes_types, (), views[24])
            && call_ensures(Z::writes_types, (), views[25])
            && types@ == type_lists(views).flatten()
        );
        types
    }

    fn reads<Comp: Component>() -> bool {
        tuple26_reads::<'a, A, B, C, D, E, F, G, H, I, J, K, L, M, N, O, P, Q, R, S, T, U, V, W, X, Y, Z, Comp>()
    }

    fn writes<Comp: Component>() -> bool {
        tuple26_writes::<'a, A, B, C, D, E, F, G, H, I, J, K, L, M, N, O, P, Q, R, S, T, U, V, W, X, Y, Z, Comp>()
    }
}

impl<'a, A: Fetch, B: Fetch, C: Fetch, D: Fetch, E: Fetch, F: Fetch, G: Fetch, H: Fetch, I: Fetch, J: Fetch, K: Fetch, L: Fetch, M: Fetch, N: Fetch, O: Fetch, P: Fetch, Q: Fetch, R: Fetch, S: Fetch, T: Fetch, U: Fetch, V: Fetch, W: Fetch, X: Fetch, Y: Fetch, Z: Fetch> IntoIndexableIter for MultiFetch<'a, (A, B, C, D, E, F, G, H, I, J, K, L, M, N, O, P, Q, R, S, T, U, V, W, X, Y, Z)> {
    type Item = (A::Item, B::Item, C::Item, D::Item, E::Item, F::Item, G::Item, H::Item, I::Item, J::Item, K::Item, L::Item, M::Item, N::Item, O::Item, P::Item, Q::Item, R::Item, S::Item, T::Item, U::Item, V::Item, W::Item, X::Item, Y::Item, Z::Item);
    type IntoIter = (A::IntoIter, B::IntoIter, C::IntoIter, D::IntoIter, E::IntoIter, F::IntoIter, G::IntoIter, H::IntoIter, I::IntoIter, J::IntoIter, K::IntoIter, L::IntoIter, M::IntoIter, N::IntoIter, O::IntoIter, P::IntoIter, Q::IntoIter, R::IntoIter, S::IntoIter, T::IntoIter, U::IntoIter, V::IntoIter, W::IntoIter, X::IntoIter, Y::IntoIter, Z::IntoIter);

    fn into_indexable_iter(self) -> (iter: Self::IntoIter)
        ensures
            call_ensures(A::into_indexable_iter, (self.fetches().0,), iter.0),
            call_ensures(B::into_indexable_iter, (self.fetches().1,), iter.1),
            call_ensures(C::into_indexable_iter, (self.fetches().2,), iter.2),
            call_ensures(D::into_indexable_iter, (self.fetches().3,), iter.3),
            call_ensures(E::into_indexable_iter, (self.fetches().4,), iter.4),
            call_ensures(F::into_indexable_iter, (self.fetches().5,), iter.5),
            call_ensures(G::into_indexable_iter, (self.fetches().6,), iter.6),
            call_ensures(H::into_indexable_iter, (self.fetches().7,), iter.7),
            call_ensures(I::into_indexable_iter, (self.fetches().8,), iter.8),
            call_ensures(J::into_indexable_iter, (self.fetches().9,), iter.9),
            call_ensures(K::into_indexable_iter, (self.fetches().10,), iter.10),
            call_ensures(L::into_indexable_iter, (self.fetches().11,), iter.11),
            call_ensures(M::into_indexable_iter, (self.fetches().12,), iter.12),
            call_ensures(N::into_indexable_iter, (self.fetches().13,), iter.13),
            call_ensures(O::into_indexable_iter, (self.fetches().14,), iter.14),
            call_ensures(P::into_indexable_iter, (self.fetches().15,), iter.15),
            call_ensures(Q::into_indexable_iter, (self.fetches().16,), iter.16),
            call_ensures(R::into_indexable_iter, (self.fetches().17,), iter.17),
            call_ensures(S::into_indexable_iter, (self.fetches().18,), iter.18),
            call_ensures(T::into_indexable_iter, (self.fetches().19,), iter.19),
            call_ensures(U::into_indexable_iter, (self.fetches().20,), iter.20),
            call_ensures(V::into_indexable_iter, (self.fetches().21,), iter.21),
            call_ensures(W::into_indexable_iter, (self.fetches().22,), iter.22),
            call_ensures(X::into_indexable_iter, (self.fetches().23,), iter.23),
            call_ensures(Y::into_indexable_iter, (self.fetches().24,), iter.24),
            call_ensures(Z::into_indexable_iter, (self.fetches().25,), iter.25),
    {
        let (a, b, c, d, e, f, g, h, i, j, k, l, m, n, o, p, q, r, s, t, u, v, w, x, y, z) = self.fetches;
        ((A::into_indexable_iter)(a), (B::into_indexable_iter)(b), (C::into_indexable_iter)(c), (D::into_indexable_iter)(d), (E::into_indexable_iter)(e), (F::into_indexable_iter)(f), (G::into_indexable_iter)(g), (H::into_indexable_iter)(h), (I::into_indexable_iter)(i), (J::into_indexable_iter)(j), (K::into_indexable_iter)(k), (L::into_indexable_iter)(l), (M::into_indexable_iter)(m), (N::into_indexable_iter)(n), (O::into_indexable_iter)(o), (P::into_indexable_iter)(p), (Q::into_indexable_iter)(q), (R::into_indexable_iter)(r), (S::into_indexable_iter)(s), (T::into_indexable_iter)(t), (U::into_indexable_iter)(u), (V::into_indexable_iter)(v), (W::into_indexable_iter)(w), (X::into_indexable_iter)(x), (Y::into_indexable_iter)(y), (Z::into_indexable_iter)(z))
    }
}

impl<'a, A: Fetch, B: Fetch, C: Fetch, D: Fetch, E: Fetch, F: Fetch, G: Fetch, H: Fetch, I: Fetch, J: Fetch, K: Fetch, L: Fetch, M: Fetch, N: Fetch, O: Fetch, P: Fetch, Q: Fetch, R: Fetch, S: Fetch, T: Fetch, U: Fetch, V: Fetch, W: Fetch, X: Fetch, Y: Fetch, Z: Fetch> Fetch for MultiFetch<'a, (A, B, C, D, E, F, G, H, I, J, K, L, M, N, O, P, Q, R, S, T, U, V, W, X, Y, Z)> {
    type Data = (A::Data, B::Data, C::Data, D::Data, E::Data, F::Data, G::Data, H::Data, I::Data, J::Data, K::Data, L::Data, M::Data, N::Data, O::Data, P::Data, Q::Data, R::Data, S::Data, T::Data, U::Data, V::Data, W::Data, X::Data, Y::Data, Z::Data);

    fn into_components(self) -> (data: Self::Data)
        ensures
            call_ensures(A::into_components, (self.fetches().0,), data.0),
            call_ensures(B::into_components, (self.fetches().1,), data.1),
            call_ensures(C::into_components, (self.fetches().2,), data.2),
            call_ensures(D::into_components, (self.fetches().3,), data.3),
            call_ensures(E::into_components, (self.fetches().4,), data.4),
            call_ensures(F::into_components, (self.fetches().5,), data.5),
            call_ensures(G::into_components, (self.fetches().6,), data.6),
            call_ensures(H::into_components, (self.fetches().7,), data.7),
            call_ensures(I::into_components, (self.fetches().8,), data.8),
            call_ensures(J::into_components, (self.fetches().9,), data.9),
            call_ensures(K::into_components, (self.fetches().10,), data.10),
            call_ensures(L::into_components, (self.fetches().11,), data.11),
            call_ensures(M::into_components, (self.fetches().12,), data.12),
            call_ensures(N::into_components, (self.fetches().13,), data.13),
            call_ensures(O::into_components, (self.fetches().14,), data.14),
            call_ensures(P::into_components, (self.fetches().15,), data.15),
            call_ensures(Q::into_components, (self.fetches().16,), data.16),
            call_ensures(R::into_components, (self.fetches().17,), data.17),
            call_ensures(S::into_components, (self.fetches().18,), data.18),
            call_ensures(T::into_components, (self.fetches().19,), data.19),
            call_ensures(U::into_components, (self.fetches().20,), data.20),
            call_ensures(V::into_components, (self.fetches().21,), data.21),
            call_ensures(W::into_components, (self.fetches().22,), data.22),
            call_ensures(X::into_components, (self.fetches().23,), data.23),
            call_ensures(Y::into_components, (self.fetches().24,), data.24),
            call_ensures(Z::into_components, (self.fetches().25,), data.25),
    {
        let (a, b, c, d, e, f, g, h, i, j, k, l, m, n, o, p, q, r, s, t, u, v, w, x, y, z) = self.fetches;
        ((A::into_components)(a), (B::into_components)(b), (C::into_components)(c), (D::into_components)(d), (E::into_components)(e), (F::into_components)(f), (G::into_components)(g), (H::into_components)(h), (I::into_components)(i), (J::into_components)(j), (K::into_components)(k), (L::into_components)(l), (M::into_components)(m), (N::into_components)(n), (O::into_components)(o), (P::into_components)(p), (Q::into_components)(q), (R::into_components)(r), (S::into_components)(s), (T::into_components)(t), (U::into_components)(u), (V::into_components)(v), (W::into_components)(w), (X::into_components)(x), (Y::into_components)(y), (Z::into_components)(z))
    }

    fn find<Comp: 'static>(&self) -> Option<&[Comp]> {
        tuple26_find::<A, B, C, D, E, F, G, H, I, J, K, L, M, N, O, P, Q, R, S, T, U, V, W, X, Y, Z, Comp>(&self.fetches)
    }

    fn find_mut<Comp: 'static>(&mut self) -> Option<&mut [Comp]> {
        tuple26_find_mut::<A, B, C, D, E, F, G, H, I, J, K, L, M, N, O, P, Q, R, S, T, U, V, W, X, Y, Z, Comp>(&mut self.fetches)
    }

    fn version<Comp: Component>(&self) -> Option<u64> {
        tuple26_version::<A, B, C, D, E, F, G, H, I, J, K, L, M, N, O, P, Q, R, S, T, U, V, W, X, Y, Z, Comp>(&self.fetches)
    }

    fn accepted(&mut self)
        ensures
            exists|m: &mut A|
                *m == old(self).fetches().0 && *final(m) == final(self).fetches().0
                && call_ensures(A::accepted, (m,), ()),
            exists|m: &mut B|
                *m == old(self).fetches().1 && *final(m) == final(self).fetches().1
                && call_ensures(B::accepted, (m,), ()),
            exists|m: &mut C|
                *m == old(self).fetches().2 && *final(m) == final(self).fetches().2
                && call_ensures(C::accepted, (m,), ()),
            exists|m: &mut D|
                *m == old(self).fetches().3 && *final(m) == final(self).fetches().3
                && call_ensures(D::accepted, (m,), ()),
            exists|m: &mut E|
                *m == old(self).fetches().4 && *final(m) == final(self).fetches().4
                && call_ensures(E::accepted, (m,), ()),
            exists|m: &mut F|
                *m == old(self).fetches().5 && *final(m) == final(self).fetches().5
                && call_ensures(F::accepted, (m,), ()),
            exists|m: &mut G|
                *m == old(self).fetches().6 && *final(m) == final(self).fetches().6
                && call_ensures(G::accepted, (m,), ()),
            exists|m: &mut H|
                *m == old(self).fetches().7 && *final(m) == final(self).fetches().7
                && call_ensures(H::accepted, (m,), ()),
            exists|m: &mut I|
                *m == old(self).fetches().8 && *final(m) == final(self).fetches().8
                && call_ensures(I::accepted, (m,), ()),
            exists|m: &mut J|
                *m == old(self).fetches().9 && *final(m) == final(self).fetches().9
                && call_ensures(J::accepted, (m,), ()),
            exists|m: &mut K|
                *m == old(self).fetches().10 && *final(m) == final(self).fetches().10
                && call_ensures(K::accepted, (m,), ()),
            exists|m: &mut L|
                *m == old(self).fetches().11 && *final(m) == final(self).fetches().11
                && call_ensures(L::accepted, (m,), ()),
            exists|m: &mut M|
                *m == old(self).fetches().12 && *final(m) == final(self).fetches().12
                && call_ensures(M::accepted, (m,), ()),
            exists|m: &mut N|
                *m == old(self).fetches().13 && *final(m) == final(self).fetches().13
                && call_ensures(N::accepted, (m,), ()),
            exists|m: &mut O|
                *m == old(self).fetches().14 && *final(m) == final(self).fetches().14
                && call_ensures(O::accepted, (m,), ()),
            exists|m: &mut P|
                *m == old(self).fetches().15 && *final(m) == final(self).fetches().15
                && call_ensures(P::accepted, (m,), ()),
            exists|m: &mut Q|
                *m == old(self).fetches().16 && *final(m) == final(self).fetches().16
                && call_ensures(Q::accepted, (m,), ()),
            exists|m: &mut R|
                *m == old(self).fetches().17 && *final(m) == final(self).fetches().17
                && call_ensures(R::accepted, (m,), ()),
            exists|m: &mut S|
                *m == old(self).fetches().18 && *final(m) == final(self).fetches().18
                && call_ensures(S::accepted, (m,), ()),
            exists|m: &mut T|
                *m == old(self).fetches().19 && *final(m) == final(self).fetches().19
                && call_ensures(T::accepted, (m,), ()),
            exists|m: &mut U|
                *m == old(self).fetches().20 && *final(m) == final(self).fetches().20
                && call_ensures(U::accepted, (m,), ()),
            exists|m: &mut V|
                *m == old(self).fetches().21 && *final(m) == final(self).fetches().21
                && call_ensures(V::accepted, (m,), ()),
            exists|m: &mut W|
                *m == old(self).fetches().22 && *final(m) == final(self).fetches().22
                && call_ensures(W::accepted, (m,), ()),
            exists|m: &mut X|
                *m == old(self).fetches().23 && *final(m) == final(self).fetches().23
                && call_ensures(X::accepted, (m,), ()),
            exists|m: &mut Y|
                *m == old(self).fetches().24 && *final(m) == final(self).fetches().24
                && call_ensures(Y::accepted, (m,), ()),
            exists|m: &mut Z|
                *m == old(self).fetches().25 && *final(m) == final(self).fetches().25
                && call_ensures(Z::accepted, (m,), ()),
    {
        let (a, b, c, d, e, f, g, h, i, j, k, l, m, n, o, p, q, r, s, t, u, v, w, x, y, z) = &mut self.fetches;
        (A::accepted)(a);
        (B::accepted)(b);
        (C::accepted)(c);
        (D::accepted)(d);
        (E::accepted)(e);
        (F::accepted)(f);
        (G::accepted)(g);
        (H::accepted)(h);
        (I::accepted)(i);
        (J::accepted)(j);
        (K::accepted)(k);
        (L::accepted)(l);
        (M::accepted)(m);
        (N::accepted)(n);
        (O::accepted)(o);
        (P::accepted)(p);
        (Q::accepted)(q);
        (R::accepted)(r);
        (S::accepted)(s);
        (T::accepted)(t);
        (U::accepted)(u);
        (V::accepted)(v);
        (W::accepted)(w);
        (X::accepted)(x);
        (Y::accepted)(y);
        (Z::accepted)(z);
    }
}

impl<'a, A: ReadOnlyFetch, B: ReadOnlyFetch, C: ReadOnlyFetch, D: ReadOnlyFetch, E: ReadOnlyFetch, F: ReadOnlyFetch, G: ReadOnlyFetch, H: ReadOnlyFetch, I: ReadOnlyFetch, J: ReadOnlyFetch, K: ReadOnlyFetch, L: ReadOnlyFetch, M: ReadOnlyFetch, N: ReadOnlyFetch, O: ReadOnlyFetch, P: ReadOnlyFetch, Q: ReadOnlyFetch, R: ReadOnlyFetch, S: ReadOnlyFetch, T: ReadOnlyFetch, U: ReadOnlyFetch, V: ReadOnlyFetch, W: ReadOnlyFetch, X: ReadOnlyFetch, Y: ReadOnlyFetch, Z: ReadOnlyFetch> ReadOnlyFetch for MultiFetch<'a, (A, B, C, D, E, F, G, H, I, J, K, L, M, N, O, P, Q, R, S, T, U, V, W, X, Y, Z)> {
    fn get_components(&self) -> (data: Self::Data)
        ensures
            call_ensures(A::get_components, (&self.fetches().0,), data.0),
            call_ensures(B::get_components, (&self.fetches().1,), data.1),
            call_ensures(C::get_components, (&self.fetches().2,), data.2),
            call_ensures(D::get_components, (&self.fetches().3,), data.3),
            call_ensures(E::get_components, (&self.fetches().4,), data.4),
            call_ensures(F::get_components, (&self.fetches().5,), data.5),
            call_ensures(G::get_components, (&self.fetches().6,), data.6),
            call_ensures(H::get_components, (&self.fetches().7,), data.7),
            call_ensures(I::get_components, (&self.fetches().8,), data.8),
            call_ensures(J::get_components, (&self.fetches().9,), data.9),
            call_ensures(K::get_components, (&self.fetches().10,), data.10),
            call_ensures(L::get_components, (&self.fetches().11,), data.11),
            call_ensures(M::get_components, (&self.fetches().12,), data.12),
            call_ensures(N::get_components, (&self.fetches().13,), data.13),
            call_ensures(O::get_components, (&self.fetches().14,), data.14),
            call_ensures(P::get_components, (&self.fetches().15,), data.15),
            call_ensures(Q::get_components, (&self.fetches().16,), data.16),
            call_ensures(R::get_components, (&self.fetches().17,), data.17),
            call_ensures(S::get_components, (&self.fetches().18,), data.18),
            call_ensures(T::get_components, (&self.fetches().19,), data.19),
            call_ensures(U::get_components, (&self.fetches().20,), data.20),
            call_ensures(V::get_components, (&self.fetches().21,), data.21),
            call_ensures(W::get_components, (&self.fetches().22,), data.22),
            call_ensures(X::get_components, (&self.fetches().23,), data.23),
            call_ensures(Y::get_components, (&self.fetches().24,), data.24),
            call_ensures(Z::get_components, (&self.fetches().25,), data.25),
    {
        let (a, b, c, d, e, f, g, h, i, j, k, l, m, n, o, p, q, r, s, t, u, v, w, x, y, z) = &self.fetches;
        ((A::get_components)(a), (B::get_components)(b), (C::get_components)(c), (D::get_components)(d), (E::get_components)(e), (F::get_components)(f), (G::get_components)(g), (H::get_components)(h), (I::get_components)(i), (J::get_components)(j), (K::get_components)(k), (L::get_components)(l), (M::get_components)(m), (N::get_components)(n), (O::get_components)(o), (P::get_components)(p), (Q::get_components)(q), (R::get_components)(r), (S::get_components)(s), (T::get_components)(t), (U::get_components)(u), (V::get_components)(v), (W::get_components)(w), (X::get_components)(x), (Y::get_components)(y), (Z::get_components)(z))
    }
}

/// Whether some view of a tuple of 26 reads `Comp`, asking the views in order.
pub fn tuple26_reads<'a, A: View<'a> + 'a, B: View<'a> + 'a, C: View<'a> + 'a, D: View<'a> + 'a, E: View<'a> + 'a, F: View<'a> + 'a, G: View<'a> + 'a, H: View<'a> + 'a, I: View<'a> + 'a, J: View<'a> + 'a, K: View<'a> + 'a, L: View<'a> + 'a, M: View<'a> + 'a, N: View<'a> + 'a, O: View<'a> + 'a, P: View<'a> + 'a, Q: View<'a> + 'a, R: View<'a> + 'a, S: View<'a> + 'a, T: View<'a> + 'a, U: View<'a> + 'a, V: View<'a> + 'a, W: View<'a> + 'a, X: View<'a> + 'a, Y: View<'a> + 'a, Z: View<'a> + 'a, Comp: Component>() -> (found: bool)
    ensures
        (found && call_ensures(A::reads::<Comp>, (), true))
        || (call_ensures(A::reads::<Comp>, (), false) && (
            (found && call_ensures(B::reads::<Comp>, (), true))
            || (call_ensures(B::reads::<Comp>, (), false) && (
                (found && call_ensures(C::reads::<Comp>, (), true))
                || (call_ensures(C::reads::<Comp>, (), false) && (
                    (found && call_ensures(D::reads::<Comp>, (), true))
                    || (call_ensures(D::reads::<Comp>, (), false) && (
                        (found && call_ensures(E::reads::<Comp>, (), true))
                        || (call_ensures(E::reads::<Comp>, (), false) && (
                            (found && call_ensures(F::reads::<Comp>, (), true))
                            || (call_ensures(F::reads::<Comp>, (), false) && (
                                (found && call_ensures(G::reads::<Comp>, (), true))
                                || (call_ensures(G::reads::<Comp>, (), false) && (
                                    (found && call_ensures(H::reads::<Comp>, (), true))
                                    || (call_ensures(H::reads::<Comp>, (), false) && (
                                        (found && call_ensures(I::reads::<Comp>, (), true))
                                        || (call_ensures(I::reads::<Comp>, (), false) && (
                                            (found && call_ensures(J::reads::<Comp>, (), true))
                                            || (call_ensures(J::reads::<Comp>, (), false) && (
                                                (found && call_ensures(K::reads::<Comp>, (), true))
                                                || (call_ensures(K::reads::<Comp>, (), false) && (
                                                    (found && call_ensures(L::reads::<Comp>, (), true))
                                                    || (call_ensures(L::reads::<Comp>, (), false) && (
                                                        (found && call_ensures(M::reads::<Comp>, (), true))
                                                        || (call_ensures(M::reads::<Comp>, (), false) && (
                                                            (found && call_ensures(N::reads::<Comp>, (), true))
                                                            || (call_ensures(N::reads::<Comp>, (), false) && (
                                                                (found && call_ensures(O::reads::<Comp>, (), true))
                                                                || (call_ensures(O::reads::<Comp>, (), false) && (
                                                                    (found && call_ensures(P::reads::<Comp>, (), true))
                                                                    || (call_ensures(P::reads::<Comp>, (), false) && (
                                                                        (found && call_ensures(Q::reads::<Comp>, (), true))
                                                                        || (call_ensures(Q::reads::<Comp>, (), false) && (
                                                                            (found && call_ensures(R::reads::<Comp>, (), true))
                                                                            || (call_ensures(R::reads::<Comp>, (), false) && (
                                                                                (found && call_ensures(S::reads::<Comp>, (), true))
                                                                                || (call_ensures(S::reads::<Comp>, (), false) && (
                                                                                    (found && call_ensures(T::reads::<Comp>, (), true))
                                                                                    || (call_ensures(T::reads::<Comp>, (), false) && (
                                                                                        (found && call_ensures(U::reads::<Comp>, (), true))
                                                                                        || (call_ensures(U::reads::<Comp>, (), false) && (
                                                                                            (found && call_ensures(V::reads::<Comp>, (), true))
                                                                                            || (call_ensures(V::reads::<Comp>, (), false) && (
                                                                                                (found && call_ensures(W::reads::<Comp>, (), true))
                                                                                                || (call_ensures(W::reads::<Comp>, (), false) && (
                                                                                                    (found && call_ensures(X::reads::<Comp>, (), true))
                                                                                                    || (call_ensures(X::reads::<Comp>, (), false) && (
                                                                                                        (found && call_ensures(Y::reads::<Comp>, (), true))
                                                                                                        || (call_ensures(Y::reads::<Comp>, (), false) && (
                                                                                                            call_ensures(Z::reads::<Comp>, (), found))))))))))))))))))))))))))))))))))))))))))))))))))),
{
    (A::reads::<Comp>)()
        || (B::reads::<Comp>)()
        || (C::reads::<Comp>)()
        || (D::reads::<Comp>)()
        || (E::reads::<Comp>)()
        || (F::reads::<Comp>)()
        || (G::reads::<Comp>)()
        || (H::reads::<Comp>)()
        || (I::reads::<Comp>)()
        || (J::reads::<Comp>)()
        || (K::reads::<Comp>)()
        || (L::reads::<Comp>)()
        || (M::reads::<Comp>)()
        || (N::reads::<Comp>)()
        || (O::reads::<Comp>)()
        || (P::reads::<Comp>)()
        || (Q::reads::<Comp>)()
        || (R::reads::<Comp>)()
        || (S::reads::<Comp>)()
        || (T::reads::<Comp>)()
        || (U::reads::<Comp>)()
        || (V::reads::<Comp>)()
        || (W::reads::<Comp>)()
        || (X::reads::<Comp>)()
        || (Y::reads::<Comp>)()
        || (Z::reads::<Comp>)()
}

/// Whether some view of a tuple of 26 writes `Comp`, asking the views in order.
pub fn tuple26_writes<'a, A: View<'a> + 'a, B: View<'a> + 'a, C: View<'a> + 'a, D: View<'a> + 'a, E: View<'a> + 'a, F: View<'a> + 'a, G: View<'a> + 'a, H: View<'a> + 'a, I: View<'a> + 'a, J: View<'a> + 'a, K: View<'a> + 'a, L: View<'a> + 'a, M: View<'a> + 'a, N: View<'a> + 'a, O: View<'a> + 'a, P: View<'a> + 'a, Q: View<'a> + 'a, R: View<'a> + 'a, S: View<'a> + 'a, T: View<'a> + 'a, U: View<'a> + 'a, V: View<'a> + 'a, W: View<'a> + 'a, X: View<'a> + 'a, Y: View<'a> + 'a, Z: View<'a> + 'a, Comp: Component>() -> (found: bool)
    ensures
        (found && call_ensures(A::writes::<Comp>, (), true))
        || (call_ensures(A::writes::<Comp>, (), false) && (
            (found && call_ensures(B::writes::<Comp>, (), true))
            || (call_ensures(B::writes::<Comp>, (), false) && (
                (found && call_ensures(C::writes::<Comp>, (), true))
                || (call_ensures(C::writes::<Comp>, (), false) && (
                    (found && call_ensures(D::writes::<Comp>, (), true))
                    || (call_ensures(D::writes::<Comp>, (), false) && (
                        (found && call_ensures(E::writes::<Comp>, (), true))
                        || (call_ensures(E::writes::<Comp>, (), false) && (
                            (found && call_ensures(F::writes::<Comp>, (), true))
                            || (call_ensures(F::writes::<Comp>, (), false) && (
                                (found && call_ensures(G::writes::<Comp>, (), true))
                                || (call_ensures(G::writes::<Comp>, (), false) && (
                                    (found && call_ensures(H::writes::<Comp>, (), true))
                                    || (call_ensures(H::writes::<Comp>, (), false) && (
                                        (found && call_ensures(I::writes::<Comp>, (), true))
                                        || (call_ensures(I::writes::<Comp>, (), false) && (
                                            (found && call_ensures(J::writes::<Comp>, (), true))
                                            || (call_ensures(J::writes::<Comp>, (), false) && (
                                                (found && call_ensures(K::writes::<Comp>, (), true))
                                                || (call_ensures(K::writes::<Comp>, (), false) && (
                                                    (found && call_ensures(L::writes::<Comp>, (), true))
                                                    || (call_ensures(L::writes::<Comp>, (), false) && (
                                                        (found && call_ensures(M::writes::<Comp>, (), true))
                                                        || (call_ensures(M::writes::<Comp>, (), false) && (
                                                            (found && call_ensures(N::writes::<Comp>, (), true))
                                                            || (call_ensures(N::writes::<Comp>, (), false) && (
                                                                (found && call_ensures(O::writes::<Comp>, (), true))
                                                                || (call_ensures(O::writes::<Comp>, (), false) && (
                                                                    (found && call_ensures(P::writes::<Comp>, (), true))
                                                                    || (call_ensures(P::writes::<Comp>, (), false) && (
                                                                        (found && call_ensures(Q::writes::<Comp>, (), true))
                                                                        || (call_ensures(Q::writes::<Comp>, (), false) && (
                                                                            (found && call_ensures(R::writes::<Comp>, (), true))
                                                                            || (call_ensures(R::writes::<Comp>, (), false) && (
                                                                                (found && call_ensures(S::writes::<Comp>, (), true))
                                                                                || (call_ensures(S::writes::<Comp>, (), false) && (
                                                                                    (found && call_ensures(T::writes::<Comp>, (), true))
                                                                                    || (call_ensures(T::writes::<Comp>, (), false) && (
                                                                                        (found && call_ensures(U::writes::<Comp>, (), true))
                                                                                        || (call_ensures(U::writes::<Comp>, (), false) && (
                                                                                            (found && call_ensures(V::writes::<Comp>, (), true))
                                                                                            || (call_ensures(V::writes::<Comp>, (), false) && (
                                                                                                (found && call_ensures(W::writes::<Comp>, (), true))
                                                                                                || (call_ensures(W::writes::<Comp>, (), false) && (
                                                                                                    (found && call_ensures(X::writes::<Comp>, (), true))
                                                                                                    || (call_ensures(X::writes::<Comp>, (), false) && (
                                                                                                        (found && call_ensures(Y::writes::<Comp>, (), true))
                                                                                                        || (call_ensures(Y::writes::<Comp>, (), false) && (
                                                                                                            call_ensures(Z::writes::<Comp>, (), found))))))))))))))))))))))))))))))))))))))))))))))))))),
{
    (A::writes::<Comp>)()
        || (B::writes::<Comp>)()
        || (C::writes::<Comp>)()
        || (D::writes::<Comp>)()
        || (E::writes::<Comp>)()
        || (F::writes::<Comp>)()
        || (G::writes::<Comp>)()
        || (H::writes::<Comp>)()
        || (I::writes::<Comp>)()
        || (J::writes::<Comp>)()
        || (K::writes::<Comp>)()
        || (L::writes::<Comp>)()
        || (M::writes::<Comp>)()
        || (N::writes::<Comp>)()
        || (O::writes::<Comp>)()
        || (P::writes::<Comp>)()
        || (Q::writes::<Comp>)()
        || (R::writes::<Comp>)()
        || (S::writes::<Comp>)()
        || (T::writes::<Comp>)()
        || (U::writes::<Comp>)()
        || (V::writes::<Comp>)()
        || (W::writes::<Comp>)()
        || (X::writes::<Comp>)()
        || (Y::writes::<Comp>)()
        || (Z::writes::<Comp>)()
}

/// The slice of the first fetch of a tuple of 26 that holds `Comp`.
pub fn tuple26_find<'f, A: Fetch, B: Fetch, C: Fetch, D: Fetch, E: Fetch, F: Fetch, G: Fetch, H: Fetch, I: Fetch, J: Fetch, K: Fetch, L: Fetch, M: Fetch, N: Fetch, O: Fetch, P: Fetch, Q: Fetch, R: Fetch, S: Fetch, T: Fetch, U: Fetch, V: Fetch, W: Fetch, X: Fetch, Y: Fetch, Z: Fetch, Comp: 'static>(fetches: &'f (A, B, C, D, E, F, G, H, I, J, K, L, M, N, O, P, Q, R, S, T, U, V, W, X, Y, Z)) -> (found: Option<&'f [Comp]>)
    ensures
        (found is Some && call_ensures(A::find::<Comp>, (&fetches.0,), found))
        || (call_ensures(A::find::<Comp>, (&fetches.0,), None) && (
            (found is Some && call_ensures(B::find::<Comp>, (&fetches.1,), found))
            || (call_ensures(B::find::<Comp>, (&fetches.1,), None) && (
                (found is Some && call_ensures(C::find::<Comp>, (&fetches.2,), found))
                || (call_ensures(C::find::<Comp>, (&fetches.2,), None) && (
                    (found is Some && call_ensures(D::find::<Comp>, (&fetches.3,), found))
                    || (call_ensures(D::find::<Comp>, (&fetches.3,), None) && (
                        (found is Some && call_ensures(E::find::<Comp>, (&fetches.4,), found))
                        || (call_ensures(E::find::<Comp>, (&fetches.4,), None) && (
                            (found is Some && call_ensures(F::find::<Comp>, (&fetches.5,), found))
                            || (call_ensures(F::find::<Comp>, (&fetches.5,), None) && (
                                (found is Some && call_ensures(G::find::<Comp>, (&fetches.6,), found))
                                || (call_ensures(G::find::<Comp>, (&fetches.6,), None) && (
                                    (found is Some && call_ensures(H::find::<Comp>, (&fetches.7,), found))
                                    || (call_ensures(H::find::<Comp>, (&fetches.7,), None) && (
                                        (found is Some && call_ensures(I::find::<Comp>, (&fetches.8,), found))
                                        || (call_ensures(I::find::<Comp>, (&fetches.8,), None) && (
                                            (found is Some && call_ensures(J::find::<Comp>, (&fetches.9,), found))
                                            || (call_ensures(J::find::<Comp>, (&fetches.9,), None) && (
                                                (found is Some && call_ensures(K::find::<Comp>, (&fetches.10,), found))
                                                || (call_ensures(K::find::<Comp>, (&fetches.10,), None) && (
                                                    (found is Some && call_ensures(L::find::<Comp>, (&fetches.11,), found))
                                                    || (call_ensures(L::find::<Comp>, (&fetches.11,), None) && (
                                                        (found is Some && call_ensures(M::find::<Comp>, (&fetches.12,), found))
                                                        || (call_ensures(M::find::<Comp>, (&fetches.12,), None) && (
                                                            (found is Some && call_ensures(N::find::<Comp>, (&fetches.13,), found))
                                                            || (call_ensures(N::find::<Comp>, (&fetches.13,), None) && (
                                                                (found is Some && call_ensures(O::find::<Comp>, (&fetches.14,), found))
                                                                || (call_ensures(O::find::<Comp>, (&fetches.14,), None) && (
                                                                    (found is Some && call_ensures(P::find::<Comp>, (&fetches.15,), found))
                                                                    || (call_ensures(P::find::<Comp>, (&fetches.15,), None) && (
                                                                        (found is Some && call_ensures(Q::find::<Comp>, (&fetches.16,), found))
                                                                        || (call_ensures(Q::find::<Comp>, (&fetches.16,), None) && (
                                                                            (found is Some && call_ensures(R::find::<Comp>, (&fetches.17,), found))
                                                                            || (call_ensures(R::find::<Comp>, (&fetches.17,), None) && (
                                                                                (found is Some && call_ensures(S::find::<Comp>, (&fetches.18,), found))
                                                                                || (call_ensures(S::find::<Comp>, (&fetches.18,), None) && (
                                                                                    (found is Some && call_ensures(T::find::<Comp>, (&fetches.19,), found))
                                                                                    || (call_ensures(T::find::<Comp>, (&fetches.19,), None) && (
                                                                                        (found is Some && call_ensures(U::find::<Comp>, (&fetches.20,), found))
                                                                                        || (call_ensures(U::find::<Comp>, (&fetches.20,), None) && (
                                                                                            (found is Some && call_ensures(V::find::<Comp>, (&fetches.21,), found))
                                                                                            || (call_ensures(V::find::<Comp>, (&fetches.21,), None) && (
                                                                                                (found is Some && call_ensures(W::find::<Comp>, (&fetches.22,), found))
                                                                                                || (call_ensures(W::find::<Comp>, (&fetches.22,), None) && (
                                                                                                    (found is Some && call_ensures(X::find::<Comp>, (&fetches.23,), found))
                                                                                                    || (call_ensures(X::find::<Comp>, (&fetches.23,), None) && (
                                                                                                        (found is Some && call_ensures(Y::find::<Comp>, (&fetches.24,), found))
                                                                                                        || (call_ensures(Y::find::<Comp>, (&fetches.24,), None) && (
                                                                                                            call_ensures(Z::find::<Comp>, (&fetches.25,), found))))))))))))))))))))))))))))))))))))))))))))))))))),
{
    let (a, b, c, d, e, f, g, h, i, j, k, l, m, n, o, p, q, r, s, t, u, v, w, x, y, z) = fetches;
    if let Some(slice) = (A::find::<Comp>)(a) {
        return Some(slice);
    }
    if let Some(slice) = (B::find::<Comp>)(b) {
        return Some(slice);
    }
    if let Some(slice) = (C::find::<Comp>)(c) {
        return Some(slice);
    }
    if let Some(slice) = (D::find::<Comp>)(d) {
        return Some(slice);
    }
    if let Some(slice) = (E::find::<Comp>)(e) {
        return Some(slice);
    }
    if let Some(slice) = (F::find::<Comp>)(f) {
        return Some(slice);
    }
    if let Some(slice) = (G::find::<Comp>)(g) {
        return Some(slice);
    }
    if let Some(slice) = (H::find::<Comp>)(h) {
        return Some(slice);
    }
    if let Some(slice) = (I::find::<Comp>)(i) {
        return Some(slice);
    }
    if let Some(slice) = (J::find::<Comp>)(j) {
        return Some(slice);
    }
    if let Some(slice) = (K::find::<Comp>)(k) {
        return Some(slice);
    }
    if let Some(slice) = (L::find::<Comp>)(l) {
        return Some(slice);
    }
    if let Some(slice) = (M::find::<Comp>)(m) {
        return Some(slice);
    }
    if let Some(slice) = (N::find::<Comp>)(n) {
        return Some(slice);
    }
    if let Some(slice) = (O::find::<Comp>)(o) {
        return Some(slice);
    }
    if let Some(slice) = (P::find::<Comp>)(p) {
        return Some(slice);
    }
    if let Some(slice) = (Q::find::<Comp>)(q) {
        return Some(slice);
    }
    if let Some(slice) = (R::find::<Comp>)(r) {
        return Some(slice);
    }
    if let Some(slice) = (S::find::<Comp>)(s) {
        return Some(slice);
    }
    if let Some(slice) = (T::find::<Comp>)(t) {
        return Some(slice);
    }
    if let Some(slice) = (U::find::<Comp>)(u) {
        return Some(slice);
    }
    if let Some(slice) = (V::find::<Comp>)(v) {
        return Some(slice);
    }
    if let Some(slice) = (W::find::<Comp>)(w) {
        return Some(slice);
    }
    if let Some(slice) = (X::find::<Comp>)(x) {
        return Some(slice);
    }
    if let Some(slice) = (Y::find::<Comp>)(y) {
        return Some(slice);
    }
    (Z::find::<Comp>)(z)
}

/// The mutable slice of the first fetch of a tuple of 26 that holds `Comp`.
pub fn tuple26_find_mut<'f, A: Fetch, B: Fetch, C: Fetch, D: Fetch, E: Fetch, F: Fetch, G: Fetch, H: Fetch, I: Fetch, J: Fetch, K: Fetch, L: Fetch, M: Fetch, N: Fetch, O: Fetch, P: Fetch, Q: Fetch, R: Fetch, S: Fetch, T: Fetch, U: Fetch, V: Fetch, W: Fetch, X: Fetch, Y: Fetch, Z: Fetch, Comp: 'static>(fetches: &'f mut (A, B, C, D, E, F, G, H, I, J, K, L, M, N, O, P, Q, R, S, T, U, V, W, X, Y, Z)) -> (found: Option<&'f mut [Comp]>)
    ensures
        exists|m: &mut A|
            *m == old(fetches).0
            && *final(m) == final(fetches).0
            && ((found is Some && call_ensures(A::find_mut::<Comp>, (m,), found) && final(fetches).1 == old(fetches).1 && final(fetches).2 == old(fetches).2 && final(fetches).3 == old(fetches).3 && final(fetches).4 == old(fetches).4 && final(fetches).5 == old(fetches).5 && final(fetches).6 == old(fetches).6 && final(fetches).7 == old(fetches).7 && final(fetches).8 == old(fetches).8 && final(fetches).9 == old(fetches).9 && final(fetches).10 == old(fetches).10 && final(fetches).11 == old(fetches).11 && final(fetches).12 == old(fetches).12 && final(fetches).13 == old(fetches).13 && final(fetches).14 == old(fetches).14 && final(fetches).15 == old(fetches).15 && final(fetches).16 == old(fetches).16 && final(fetches).17 == old(fetches).17 && final(fetches).18 == old(fetches).18 && final(fetches).19 == old(fetches).19 && final(fetches).20 == old(fetches).20 && final(fetches).21 == old(fetches).21 && final(fetches).22 == old(fetches).22 && final(fetches).23 == old(fetches).23 && final(fetches).24 == old(fetches).24 && final(fetches).25 == old(fetches).25)
            || (call_ensures(A::find_mut::<Comp>, (m,), None) && (
                exists|m: &mut B|
                    *m == old(fetches).1
                    && *final(m) == final(fetches).1
                    && ((found is Some && call_ensures(B::find_mut::<Comp>, (m,), found) && final(fetches).2 == old(fetches).2 && final(fetches).3 == old(fetches).3 && final(fetches).4 == old(fetches).4 && final(fetches).5 == old(fetches).5 && final(fetches).6 == old(fetches).6 && final(fetches).7 == old(fetches).7 && final(fetches).8 == old(fetches).8 && final(fetches).9 == old(fetches).9 && final(fetches).10 == old(fetches).10 && final(fetches).11 == old(fetches).11 && final(fetches).12 == old(fetches).12 && final(fetches).13 == old(fetches).13 && final(fetches).14 == old(fetches).14 && final(fetches).15 == old(fetches).15 && final(fetches).16 == old(fetches).16 && final(fetches).17 == old(fetches).17 && final(fetches).18 == old(fetches).18 && final(fetches).19 == old(fetches).19 && final(fetches).20 == old(fetches).20 && final(fetches).21 == old(fetches).21 && final(fetches).22 == old(fetches).22 && final(fetches).23 == old(fetches).23 && final(fetches).24 == old(fetches).24 && final(fetches).25 == old(fetches).25)
                    || (call_ensures(B::find_mut::<Comp>, (m,), None) && (
                        exists|m: &mut C|
                            *m == old(fetches).2
                            && *final(m) == final(fetches).2
                            && ((found is Some && call_ensures(C::find_mut::<Comp>, (m,), found) && final(fetches).3 == old(fetches).3 && final(fetches).4 == old(fetches).4 && final(fetches).5 == old(fetches).5 && final(fetches).6 == old(fetches).6 && final(fetches).7 == old(fetches).7 && final(fetches).8 == old(fetches).8 && final(fetches).9 == old(fetches).9 && final(fetches).10 == old(fetches).10 && final(fetches).11 == old(fetches).11 && final(fetches).12 == old(fetches).12 && final(fetches).13 == old(fetches).13 && final(fetches).14 == old(fetches).14 && final(fetches).15 == old(fetches).15 && final(fetches).16 == old(fetches).16 && final(fetches).17 == old(fetches).17 && final(fetches).18 == old(fetches).18 && final(fetches).19 == old(fetches).19 && final(fetches).20 == old(fetches).20 && final(fetches).21 == old(fetches).21 && final(fetches).22 == old(fetches).22 && final(fetches).23 == old(fetches).23 && final(fetches).24 == old(fetches).24 && final(fetches).25 == old(fetches).25)
                            || (call_ensures(C::find_mut::<Comp>, (m,), None) && (
                                exists|m: &mut D|
                                    *m == old(fetches).3
                                    && *final(m) == final(fetches).3
                                    && ((found is Some && call_ensures(D::find_mut::<Comp>, (m,), found) && final(fetches).4 == old(fetches).4 && final(fetches).5 == old(fetches).5 && final(fetches).6 == old(fetches).6 && final(fetches).7 == old(fetches).7 && final(fetches).8 == old(fetches).8 && final(fetches).9 == old(fetches).9 && final(fetches).10 == old(fetches).10 && final(fetches).11 == old(fetches).11 && final(fetches).12 == old(fetches).12 && final(fetches).13 == old(fetches).13 && final(fetches).14 == old(fetches).14 && final(fetches).15 == old(fetches).15 && final(fetches).16 == old(fetches).16 && final(fetches).17 == old(fetches).17 && final(fetches).18 == old(fetches).18 && final(fetches).19 == old(fetches).19 && final(fetches).20 == old(fetches).20 && final(fetches).21 == old(fetches).21 && final(fetches).22 == old(fetches).22 && final(fetches).23 == old(fetches).23 && final(fetches).24 == old(fetches).24 && final(fetches).25 == old(fetches).25)
                                    || (call_ensures(D::find_mut::<Comp>, (m,), None) && (
                                        exists|m: &mut E|
                                            *m == old(fetches).4
                                            && *final(m) == final(fetches).4
                                            && ((found is Some && call_ensures(E::find_mut::<Comp>, (m,), found) && final(fetches).5 == old(fetches).5 && final(fetches).6 == old(fetches).6 && final(fetches).7 == old(fetches).7 && final(fetches).8 == old(fetches).8 && final(fetches).9 == old(fetches).9 && final(fetches).10 == old(fetches).10 && final(fetches).11 == old(fetches).11 && final(fetches).12 == old(fetches).12 && final(fetches).13 == old(fetches).13 && final(fetches).14 == old(fetches).14 && final(fetches).15 == old(fetches).15 && final(fetches).16 == old(fetches).16 && final(fetches).17 == old(fetches).17 && final(fetches).18 == old(fetches).18 && final(fetches).19 == old(fetches).19 && final(fetches).20 == old(fetches).20 && final(fetches).21 == old(fetches).21 && final(fetches).22 == old(fetches).22 && final(fetches).23 == old(fetches).23 && final(fetches).24 == old(fetches).24 && final(fetches).25 == old(fetches).25)
                                            || (call_ensures(E::find_mut::<Comp>, (m,), None) && (
                                                exists|m: &mut F|
                                                    *m == old(fetches).5
                                                    && *final(m) == final(fetches).5
                                                    && ((found is Some && call_ensures(F::find_mut::<Comp>, (m,), found) && final(fetches).6 == old(fetches).6 && final(fetches).7 == old(fetches).7 && final(fetches).8 == old(fetches).8 && final(fetches).9 == old(fetches).9 && final(fetches).10 == old(fetches).10 && final(fetches).11 == old(fetches).11 && final(fetches).12 == old(fetches).12 && final(fetches).13 == old(fetches).13 && final(fetches).14 == old(fetches).14 && final(fetches).15 == old(fetches).15 && final(fetches).16 == old(fetches).16 && final(fetches).17 == old(fetches).17 && final(fetches).18 == old(fetches).18 && final(fetches).19 == old(fetches).19 && final(fetches).20 == old(fetches).20 && final(fetches).21 == old(fetches).21 && final(fetches).22 == old(fetches).22 && final(fetches).23 == old(fetches).23 && final(fetches).24 == old(fetches).24 && final(fetches).25 == old(fetches).25)
                                                    || (call_ensures(F::find_mut::<Comp>, (m,), None) && (
                                                        exists|m: &mut G|
                                                            *m == old(fetches).6
                                                            && *final(m) == final(fetches).6
                                                            && ((found is Some && call_ensures(G::find_mut::<Comp>, (m,), found) && final(fetches).7 == old(fetches).7 && final(fetches).8 == old(fetches).8 && final(fetches).9 == old(fetches).9 && final(fetches).10 == old(fetches).10 && final(fetches).11 == old(fetches).11 && final(fetches).12 == old(fetches).12 && final(fetches).13 == old(fetches).13 && final(fetches).14 == old(fetches).14 && final(fetches).15 == old(fetches).15 && final(fetches).16 == old(fetches).16 && final(fetches).17 == old(fetches).17 && final(fetches).18 == old(fetches).18 && final(fetches).19 == old(fetches).19 && final(fetches).20 == old(fetches).20 && final(fetches).21 == old(fetches).21 && final(fetches).22 == old(fetches).22 && final(fetches).23 == old(fetches).23 && final(fetches).24 == old(fetches).24 && final(fetches).25 == old(fetches).25)
                                                            || (call_ensures(G::find_mut::<Comp>, (m,), None) && (
                                                                exists|m: &mut H|
                                                                    *m == old(fetches).7
                                                                    && *final(m) == final(fetches).7
                                                                    && ((found is Some && call_ensures(H::find_mut::<Comp>, (m,), found) && final(fetches).8 == old(fetches).8 && final(fetches).9 == old(fetches).9 && final(fetches).10 == old(fetches).10 && final(fetches).11 == old(fetches).11 && final(fetches).12 == old(fetches).12 && final(fetches).13 == old(fetches).13 && final(fetches).14 == old(fetches).14 && final(fetches).15 == old(fetches).15 && final(fetches).16 == old(fetches).16 && final(fetches).17 == old(fetches).17 && final(fetches).18 == old(fetches).18 && final(fetches).19 == old(fetches).19 && final(fetches).20 == old(fetches).20 && final(fetches).21 == old(fetches).21 && final(fetches).22 == old(fetches).22 && final(fetches).23 == old(fetches).23 && final(fetches).24 == old(fetches).24 && final(fetches).25 == old(fetches).25)
                                                                    || (call_ensures(H::find_mut::<Comp>, (m,), None) && (
                                                                        exists|m: &mut I|
                                                                            *m == old(fetches).8
                                                                            && *final(m) == final(fetches).8
                                                                            && ((found is Some && call_ensures(I::find_mut::<Comp>, (m,), found) && final(fetches).9 == old(fetches).9 && final(fetches).10 == old(fetches).10 && final(fetches).11 == old(fetches).11 && final(fetches).12 == old(fetches).12 && final(fetches).13 == old(fetches).13 && final(fetches).14 == old(fetches).14 && final(fetches).15 == old(fetches).15 && final(fetches).16 == old(fetches).16 && final(fetches).17 == old(fetches).17 && final(fetches).18 == old(fetches).18 && final(fetches).19 == old(fetches).19 && final(fetches).20 == old(fetches).20 && final(fetches).21 == old(fetches).21 && final(fetches).22 == old(fetches).22 && final(fetches).23 == old(fetches).23 && final(fetches).24 == old(fetches).24 && final(fetches).25 == old(fetches).25)
                                                                            || (call_ensures(I::find_mut::<Comp>, (m,), None) && (
                                                                                exists|m: &mut J|
                                                                                    *m == old(fetches).9
                                                                                    && *final(m) == final(fetches).9
                                                                                    && ((found is Some && call_ensures(J::find_mut::<Comp>, (m,), found) && final(fetches).10 == old(fetches).10 && final(fetches).11 == old(fetches).11 && final(fetches).12 == old(fetches).12 && final(fetches).13 == old(fetches).13 && final(fetches).14 == old(fetches).14 && final(fetches).15 == old(fetches).15 && final(fetches).16 == old(fetches).16 && final(fetches).17 == old(fetches).17 && final(fetches).18 == old(fetches).18 && final(fetches).19 == old(fetches).19 && final(fetches).20 == old(fetches).20 && final(fetches).21 == old(fetches).21 && final(fetches).22 == old(fetches).22 && final(fetches).23 == old(fetches).23 && final(fetches).24 == old(fetches).24 && final(fetches).25 == old(fetches).25)
                                                                                    || (call_ensures(J::find_mut::<Comp>, (m,), None) && (
                                                                                        exists|m: &mut K|
                                                                                            *m == old(fetches).10
                                                                                            && *final(m) == final(fetches).10
                                                                                            && ((found is Some && call_ensures(K::find_mut::<Comp>, (m,), found) && final(fetches).11 == old(fetches).11 && final(fetches).12 == old(fetches).12 && final(fetches).13 == old(fetches).13 && final(fetches).14 == old(fetches).14 && final(fetches).15 == old(fetches).15 && final(fetches).16 == old(fetches).16 && final(fetches).17 == old(fetches).17 && final(fetches).18 == old(fetches).18 && final(fetches).19 == old(fetches).19 && final(fetches).20 == old(fetches).20 && final(fetches).21 == old(fetches).21 && final(fetches).22 == old(fetches).22 && final(fetches).23 == old(fetches).23 && final(fetches).24 == old(fetches).24 && final(fetches).25 == old(fetches).25)
                                                                                            || (call_ensures(K::find_mut::<Comp>, (m,), None) && (
                                                                                                exists|m: &mut L|
                                                                                                    *m == old(fetches).11
                                                                                                    && *final(m) == final(fetches).11
                                                                                                    && ((found is Some && call_ensures(L::find_mut::<Comp>, (m,), found) && final(fetches).12 == old(fetches).12 && final(fetches).13 == old(fetches).13 && final(fetches).14 == old(fetches).14 && final(fetches).15 == old(fetches).15 && final(fetches).16 == old(fetches).16 && final(fetches).17 == old(fetches).17 && final(fetches).18 == old(fetches).18 && final(fetches).19 == old(fetches).19 && final(fetches).20 == old(fetches).20 && final(fetches).21 == old(fetches).21 && final(fetches).22 == old(fetches).22 && final(fetches).23 == old(fetches).23 && final(fetches).24 == old(fetches).24 && final(fetches).25 == old(fetches).25)
                                                                                                    || (call_ensures(L::find_mut::<Comp>, (m,), None) && (
                                                                                                        exists|m: &mut M|
                                                                                                            *m == old(fetches).12
                                                                                                            && *final(m) == final(fetches).12
                                                                                                            && ((found is Some && call_ensures(M::find_mut::<Comp>, (m,), found) && final(fetches).13 == old(fetches).13 && final(fetches).14 == old(fetches).14 && final(fetches).15 == old(fetches).15 && final(fetches).16 == old(fetches).16 && final(fetches).17 == old(fetches).17 && final(fetches).18 == old(fetches).18 && final(fetches).19 == old(fetches).19 && final(fetches).20 == old(fetches).20 && final(fetches).21 == old(fetches).21 && final(fetches).22 == old(fetches).22 && final(fetches).23 == old(fetches).23 && final(fetches).24 == old(fetches).24 && final(fetches).25 == old(fetches).25)
                                                                                                            || (call_ensures(M::find_mut::<Comp>, (m,), None) && (
                                                                                                                exists|m: &mut N|
                                                                                                                    *m == old(fetches).13
                                                                                                                    && *final(m) == final(fetches).13
                                                                                                                    && ((found is Some && call_ensures(N::find_mut::<Comp>, (m,), found) && final(fetches).14 == old(fetches).14 && final(fetches).15 == old(fetches).15 && final(fetches).16 == old(fetches).16 && final(fetches).17 == old(fetches).17 && final(fetches).18 == old(fetches).18 && final(fetches).19 == old(fetches).19 && final(fetches).20 == old(fetches).20 && final(fetches).21 == old(fetches).21 && final(fetches).22 == old(fetches).22 && final(fetches).23 == old(fetches).23 && final(fetches).24 == old(fetches).24 && final(fetches).25 == old(fetches).25)
                                                                                                                    || (call_ensures(N::find_mut::<Comp>, (m,), None) && (
                                                                                                                        exists|m: &mut O|
                                                                                                                            *m == old(fetches).14
                                                                                                                            && *final(m) == final(fetches).14
                                                                                                                            && ((found is Some && call_ensures(O::find_mut::<Comp>, (m,), found) && final(fetches).15 == old(fetches).15 && final(fetches).16 == old(fetches).16 && final(fetches).17 == old(fetches).17 && final(fetches).18 == old(fetches).18 && final(fetches).19 == old(fetches).19 && final(fetches).20 == old(fetches).20 && final(fetches).21 == old(fetches).21 && final(fetches).22 == old(fetches).22 && final(fetches).23 == old(fetches).23 && final(fetches).24 == old(fetches).24 && final(fetches).25 == old(fetches).25)
                                                                                                                            || (call_ensures(O::find_mut::<Comp>, (m,), None) && (
                                                                                                                                exists|m: &mut P|
                                                                                                                                    *m == old(fetches).15
                                                                                                                                    && *final(m) == final(fetches).15
                                                                                                                                    && ((found is Some && call_ensures(P::find_mut::<Comp>, (m,), found) && final(fetches).16 == old(fetches).16 && final(fetches).17 == old(fetches).17 && final(fetches).18 == old(fetches).18 && final(fetches).19 == old(fetches).19 && final(fetches).20 == old(fetches).20 && final(fetches).21 == old(fetches).21 && final(fetches).22 == old(fetches).22 && final(fetches).23 == old(fetches).23 && final(fetches).24 == old(fetches).24 && final(fetches).25 == old(fetches).25)
                                                                                                                                    || (call_ensures(P::find_mut::<Comp>, (m,), None) && (
                                                                                                                                        exists|m: &mut Q|
                                                                                                                                            *m == old(fetches).16
                                                                                                                                            && *final(m) == final(fetches).16
                                                                                                                                            && ((found is Some && call_ensures(Q::find_mut::<Comp>, (m,), found) && final(fetches).17 == old(fetches).17 && final(fetches).18 == old(fetches).18 && final(fetches).19 == old(fetches).19 && final(fetches).20 == old(fetches).20 && final(fetches).21 == old(fetches).21 && final(fetches).22 == old(fetches).22 && final(fetches).23 == old(fetches).23 && final(fetches).24 == old(fetches).24 && final(fetches).25 == old(fetches).25)
                                                                                                                                            || (call_ensures(Q::find_mut::<Comp>, (m,), None) && (
                                                                                                                                                exists|m: &mut R|
                                                                                                                                                    *m == old(fetches).17
                                                                                                                                                    && *final(m) == final(fetches).17
                                                                                                                                                    && ((found is Some && call_ensures(R::find_mut::<Comp>, (m,), found) && final(fetches).18 == old(fetches).18 && final(fetches).19 == old(fetches).19 && final(fetches).20 == old(fetches).20 && final(fetches).21 == old(fetches).21 && final(fetches).22 == old(fetches).22 && final(fetches).23 == old(fetches).23 && final(fetches).24 == old(fetches).24 && final(fetches).25 == old(fetches).25)
                                                                                                                                                    || (call_ensures(R::find_mut::<Comp>, (m,), None) && (
                                                                                                                                                        exists|m: &mut S|
                                                                                                                                                            *m == old(fetches).18
                                                                                                                                                            && *final(m) == final(fetches).18
                                                                                                                                                            && ((found is Some && call_ensures(S::find_mut::<Comp>, (m,), found) && final(fetches).19 == old(fetches).19 && final(fetches).20 == old(fetches).20 && final(fetches).21 == old(fetches).21 && final(fetches).22 == old(fetches).22 && final(fetches).23 == old(fetches).23 && final(fetches).24 == old(fetches).24 && final(fetches).25 == old(fetches).25)
                                                                                                                                                            || (call_ensures(S::find_mut::<Comp>, (m,), None) && (
                                                                                                                                                                exists|m: &mut T|
                                                                                                                                                                    *m == old(fetches).19
                                                                                                                                                                    && *final(m) == final(fetches).19
                                                                                                                                                                    && ((found is Some && call_ensures(T::find_mut::<Comp>, (m,), found) && final(fetches).20 == old(fetches).20 && final(fetches).21 == old(fetches).21 && final(fetches).22 == old(fetches).22 && final(fetches).23 == old(fetches).23 && final(fetches).24 == old(fetches).24 && final(fetches).25 == old(fetches).25)
                                                                                                                                                                    || (call_ensures(T::find_mut::<Comp>, (m,), None) && (
                                                                                                                                                                        exists|m: &mut U|
                                                                                                                                                                            *m == old(fetches).20
                                                                                                                                                                            && *final(m) == final(fetches).20
                                                                                                                                                                            && ((found is Some && call_ensures(U::find_mut::<Comp>, (m,), found) && final(fetches).21 == old(fetches).21 && final(fetches).22 == old(fetches).22 && final(fetches).23 == old(fetches).23 && final(fetches).24 == old(fetches).24 && final(fetches).25 == old(fetches).25)
                                                                                                                                                                            || (call_ensures(U::find_mut::<Comp>, (m,), None) && (
                                                                                                                                                                                exists|m: &mut V|
                                                                                                                                                                                    *m == old(fetches).21
                                                                                                                                                                                    && *final(m) == final(fetches).21
                                                                                                                                                                                    && ((found is Some && call_ensures(V::find_mut::<Comp>, (m,), found) && final(fetches).22 == old(fetches).22 && final(fetches).23 == old(fetches).23 && final(fetches).24 == old(fetches).24 && final(fetches).25 == old(fetches).25)
                                                                                                                                                                                    || (call_ensures(V::find_mut::<Comp>, (m,), None) && (
                                                                                                                                                                                        exists|m: &mut W|
                                                                                                                                                                                            *m == old(fetches).22
                                                                                                                                                                                            && *final(m) == final(fetches).22
                                                                                                                                                                                            && ((found is Some && call_ensures(W::find_mut::<Comp>, (m,), found) && final(fetches).23 == old(fetches).23 && final(fetches).24 == old(fetches).24 && final(fetches).25 == old(fetches).25)
                                                                                                                                                                                            || (call_ensures(W::find_mut::<Comp>, (m,), None) && (
                                                                                                                                                                                                exists|m: &mut X|
                                                                                                                                                                                                    *m == old(fetches).23
                                                                                                                                                                                                    && *final(m) == final(fetches).23
                                                                                                                                                                                                    && ((found is Some && call_ensures(X::find_mut::<Comp>, (m,), found) && final(fetches).24 == old(fetches).24 && final(fetches).25 == old(fetches).25)
                                                                                                                                                                                                    || (call_ensures(X::find_mut::<Comp>, (m,), None) && (
                                                                                                                                                                                                        exists|m: &mut Y|
                                                                                                                                                                                                            *m == old(fetches).24
                                                                                                                                                                                                            && *final(m) == final(fetches).24
                                                                                                                                                                                                            && ((found is Some && call_ensures(Y::find_mut::<Comp>, (m,), found) && final(fetches).25 == old(fetches).25)
                                                                                                                                                                                                            || (call_ensures(Y::find_mut::<Comp>, (m,), None) && (
                                                                                                                                                                                                                exists|m: &mut Z|
                                                                                                                                                                                                                    *m == old(fetches).25
                                                                                                                                                                                                                    && *final(m) == final(fetches).25
                                                                                                                                                                                                                    && call_ensures(Z::find_mut::<Comp>, (m,), found)))))))))))))))))))))))))))))))))))))))))))))))))))))))))))))))))))))))))))),
{
    let found = (A::find_mut::<Comp>)(&mut fetches.0);
    if found.is_some() {
        return found;
    }
    let found = (B::find_mut::<Comp>)(&mut fetches.1);
    if found.is_some() {
        return found;
    }
    let found = (C::find_mut::<Comp>)(&mut fetches.2);
    if found.is_some() {
        return found;
    }
    let found = (D::find_mut::<Comp>)(&mut fetches.3);
    if found.is_some() {
        return found;
    }
    let found = (E::find_mut::<Comp>)(&mut fetches.4);
    if found.is_some() {
        return found;
    }
    let found = (F::find_mut::<Comp>)(&mut fetches.5);
    if found.is_some() {
        return found;
    }
    let found = (G::find_mut::<Comp>)(&mut fetches.6);
    if found.is_some() {
        return found;
    }
    let found = (H::find_mut::<Comp>)(&mut fetches.7);
    if found.is_some() {
        return found;
    }
    let found = (I::find_mut::<Comp>)(&mut fetches.8);
    if found.is_some() {
        return found;
    }
    let found = (J::find_mut::<Comp>)(&mut fetches.9);
    if found.is_some() {
        return found;
    }
    let found = (K::find_mut::<Comp>)(&mut fetches.10);
    if found.is_some() {
        return found;
    }
    let found = (L::find_mut::<Comp>)(&mut fetches.11);
    if found.is_some() {
        return found;
    }
    let found = (M::find_mut::<Comp>)(&mut fetches.12);
    if found.is_some() {
        return found;
    }
    let found = (N::find_mut::<Comp>)(&mut fetches.13);
    if found.is_some() {
        return found;
    }
    let found = (O::find_mut::<Comp>)(&mut fetches.14);
    if found.is_some() {
        return found;
    }
    let found = (P::find_mut::<Comp>)(&mut fetches.15);
    if found.is_some() {
        return found;
    }
    let found = (Q::find_mut::<Comp>)(&mut fetches.16);
    if found.is_some() {
        return found;
    }
    let found = (R::find_mut::<Comp>)(&mut fetches.17);
    if found.is_some() {
        return found;
    }
    let found = (S::find_mut::<Comp>)(&mut fetches.18);
    if found.is_some() {
        return found;
    }
    let found = (T::find_mut::<Comp>)(&mut fetches.19);
    if found.is_some() {
        return found;
    }
    let found = (U::find_mut::<Comp>)(&mut fetches.20);
    if found.is_some() {
        return found;
    }
    let found = (V::find_mut::<Comp>)(&mut fetches.21);
    if found.is_some() {
        return found;
    }
    let found = (W::find_mut::<Comp>)(&mut fetches.22);
    if found.is_some() {
        return found;
    }
    let found = (X::find_mut::<Comp>)(&mut fetches.23);
    if found.is_some() {
        return found;
    }
    let found = (Y::find_mut::<Comp>)(&mut fetches.24);
    if found.is_some() {
        return found;
    }
    (Z::find_mut::<Comp>)(&mut fetches.25)
}

/// The version of `Comp` in the first fetch of a tuple of 26 that holds it.
pub fn tuple26_version<A: Fetch, B: Fetch, C: Fetch, D: Fetch, E: Fetch, F: Fetch, G: Fetch, H: Fetch, I: Fetch, J: Fetch, K: Fetch, L: Fetch, M: Fetch, N: Fetch, O: Fetch, P: Fetch, Q: Fetch, R: Fetch, S: Fetch, T: Fetch, U: Fetch, V: Fetch, W: Fetch, X: Fetch, Y: Fetch, Z: Fetch, Comp: Component>(fetches: &(A, B, C, D, E, F, G, H, I, J, K, L, M, N, O, P, Q, R, S, T, U, V, W, X, Y, Z)) -> (version: Option<u64>)
    ensures
        (version is Some && call_ensures(A::version::<Comp>, (&fetches.0,), version))
        || (call_ensures(A::version::<Comp>, (&fetches.0,), None) && (
            (version is Some && call_ensures(B::version::<Comp>, (&fetches.1,), version))
            || (call_ensures(B::version::<Comp>, (&fetches.1,), None) && (
                (version is Some && call_ensures(C::version::<Comp>, (&fetches.2,), version))
                || (call_ensures(C::version::<Comp>, (&fetches.2,), None) && (
                    (version is Some && call_ensures(D::version::<Comp>, (&fetches.3,), version))
                    || (call_ensures(D::version::<Comp>, (&fetches.3,), None) && (
                        (version is Some && call_ensures(E::version::<Comp>, (&fetches.4,), version))
                        || (call_ensures(E::version::<Comp>, (&fetches.4,), None) && (
                            (version is Some && call_ensures(F::version::<Comp>, (&fetches.5,), version))
                            || (call_ensures(F::version::<Comp>, (&fetches.5,), None) && (
                                (version is Some && call_ensures(G::version::<Comp>, (&fetches.6,), version))
                                || (call_ensures(G::version::<Comp>, (&fetches.6,), None) && (
                                    (version is Some && call_ensures(H::version::<Comp>, (&fetches.7,), version))
                                    || (call_ensures(H::version::<Comp>, (&fetches.7,), None) && (
                                        (version is Some && call_ensures(I::version::<Comp>, (&fetches.8,), version))
                                        || (call_ensures(I::version::<Comp>, (&fetches.8,), None) && (
                                            (version is Some && call_ensures(J::version::<Comp>, (&fetches.9,), version))
                                            || (call_ensures(J::version::<Comp>, (&fetches.9,), None) && (
                                                (version is Some && call_ensures(K::version::<Comp>, (&fetches.10,), version))
                                                || (call_ensures(K::version::<Comp>, (&fetches.10,), None) && (
                                                    (version is Some && call_ensures(L::version::<Comp>, (&fetches.11,), version))
                                                    || (call_ensures(L::version::<Comp>, (&fetches.11,), None) && (
                                                        (version is Some && call_ensures(M::version::<Comp>, (&fetches.12,), version))
                                                        || (call_ensures(M::version::<Comp>, (&fetches.12,), None) && (
                                                            (version is Some && call_ensures(N::version::<Comp>, (&fetches.13,), version))
                                                            || (call_ensures(N::version::<Comp>, (&fetches.13,), None) && (
                                                                (version is Some && call_ensures(O::version::<Comp>, (&fetches.14,), version))
                                                                || (call_ensures(O::version::<Comp>, (&fetches.14,), None) && (
                                                                    (version is Some && call_ensures(P::version::<Comp>, (&fetches.15,), version))
                                                                    || (call_ensures(P::version::<Comp>, (&fetches.15,), None) && (
                                                                        (version is Some && call_ensures(Q::version::<Comp>, (&fetches.16,), version))
                                                                        || (call_ensures(Q::version::<Comp>, (&fetches.16,), None) && (
                                                                            (version is Some && call_ensures(R::version::<Comp>, (&fetches.17,), version))
                                                                            || (call_ensures(R::version::<Comp>, (&fetches.17,), None) && (
                                                                                (version is Some && call_ensures(S::version::<Comp>, (&fetches.18,), version))
                                                                                || (call_ensures(S::version::<Comp>, (&fetches.18,), None) && (
                                                                                    (version is Some && call_ensures(T::version::<Comp>, (&fetches.19,), version))
                                                                                    || (call_ensures(T::version::<Comp>, (&fetches.19,), None) && (
                                                                                        (version is Some && call_ensures(U::version::<Comp>, (&fetches.20,), version))
                                                                                        || (call_ensures(U::version::<Comp>, (&fetches.20,), None) && (
                                                                                            (version is Some && call_ensures(V::version::<Comp>, (&fetches.21,), version))
                                                                                            || (call_ensures(V::version::<Comp>, (&fetches.21,), None) && (
                                                                                                (version is Some && call_ensures(W::version::<Comp>, (&fetches.22,), version))
                                                                                                || (call_ensures(W::version::<Comp>, (&fetches.22,), None) && (
                                                                                                    (version is Some && call_ensures(X::version::<Comp>, (&fetches.23,), version))
                                                                                                    || (call_ensures(X::version::<Comp>, (&fetches.23,), None) && (
                                                                                                        (version is Some && call_ensures(Y::version::<Comp>, (&fetches.24,), version))
                                                                                                        || (call_ensures(Y::version::<Comp>, (&fetches.24,), None) && (
                                                                                                            call_ensures(Z::version::<Comp>, (&fetches.25,), version))))))))))))))))))))))))))))))))))))))))))))))))))),
{
    let (a, b, c, d, e, f, g, h, i, j, k, l, m, n, o, p, q, r, s, t, u, v, w, x, y, z) = fetches;
    if let Some(version) = (A::version::<Comp>)(a) {
        return Some(version);
    }
    if let Some(version) = (B::version::<Comp>)(b) {
        return Some(version);
    }
    if let Some(version) = (C::version::<Comp>)(c) {
        return Some(version);
    }
    if let Some(version) = (D::version::<Comp>)(d) {
        return Some(version);
    }
    if let Some(version) = (E::version::<Comp>)(e) {
        return Some(version);
    }
    if let Some(version) = (F::version::<Comp>)(f) {
        return Some(version);
    }
    if let Some(version) = (G::version::<Comp>)(g) {
        return Some(version);
    }
    if let Some(version) = (H::version::<Comp>)(h) {
        return Some(version);
    }
    if let Some(version) = (I::version::<Comp>)(i) {
        return Some(version);
    }
    if let Some(version) = (J::version::<Comp>)(j) {
        return Some(version);
    }
    if let Some(version) = (K::version::<Comp>)(k) {
        return Some(version);
    }
    if let Some(version) = (L::version::<Comp>)(l) {
        return Some(version);
    }
    if let Some(version) = (M::version::<Comp>)(m) {
        return Some(version);
    }
    if let Some(version) = (N::version::<Comp>)(n) {
        return Some(version);
    }
    if let Some(version) = (O::version::<Comp>)(o) {
        return Some(version);
    }
    if let Some(version) = (P::version::<Comp>)(p) {
        return Some(version);
    }
    if let Some(version) = (Q::version::<Comp>)(q) {
        return Some(version);
    }
    if let Some(version) = (R::version::<Comp>)(r) {
        return Some(version);
    }
    if let Some(version) = (S::version::<Comp>)(s) {
        return Some(version);
    }
    if let Some(version) = (T::version::<Comp>)(t) {
        return Some(version);
    }
    if let Some(version) = (U::version::<Comp>)(u) {
        return Some(version);
    }
    if let Some(version) = (V::version::<Comp>)(v) {
        return Some(version);
    }
    if let Some(version) = (W::version::<Comp>)(w) {
        return Some(version);
    }
    if let Some(version) = (X::version::<Comp>)(x) {
        return Some(version);
    }
    if let Some(version) = (Y::version::<Comp>)(y) {
        return Some(version);
    }
    (Z::version::<Comp>)(z)
}

} // verus!
