use std::any::Any;
use std::marker::PhantomData;

use lib::query::view::{
    accesses_conflict_free, DefaultFilter, Fetch, IntoIndexableIter, MultiFetch, ReadOnly,
    ReadOnlyFetch, View,
};
use lib::query::view::tuples::{tuple2_find, tuple2_reads, tuple2_version, tuple2_writes};
use lib::storage::component::{Component, ComponentTypeId};

struct Pos;
struct Rot;
struct Vel;

/// The component slice of one type, with its version.
struct SliceFetch<T> {
    items: Vec<T>,
    version: u64,
}

impl<T: Send + Sync + Clone + 'static> IntoIndexableIter for SliceFetch<T> {
    type Item = T;
    type IntoIter = Vec<T>;

    fn into_indexable_iter(self) -> Vec<T> {
        self.items
    }
}

impl<T: Send + Sync + Clone + 'static> Fetch for SliceFetch<T> {
    type Data = Vec<T>;

    fn into_components(self) -> Vec<T> {
        self.items
    }

    fn find<C: 'static>(&self) -> Option<&[C]> {
        let items: &dyn Any = &self.items;
        items.downcast_ref::<Vec<C>>().map(|items| items.as_slice())
    }

    fn find_mut<C: 'static>(&mut self) -> Option<&mut [C]> {
        let items: &mut dyn Any = &mut self.items;
        items.downcast_mut::<Vec<C>>().map(|items| items.as_mut_slice())
    }

    fn version<C: Component>(&self) -> Option<u64> {
        if ComponentTypeId::of::<C>() == ComponentTypeId::of::<T>() {
            Some(self.version)
        } else {
            None
        }
    }

    fn accepted(&mut self) {
        self.version += 1;
    }
}

impl<T: Send + Sync + Clone + 'static> ReadOnlyFetch for SliceFetch<T> {
    fn get_components(&self) -> Vec<T> {
        self.items.clone()
    }
}

/// Reads component `T`.
struct Read<T>(PhantomData<T>);

/// Reads and writes component `T`.
struct Write<T>(PhantomData<T>);

impl<T> DefaultFilter for Read<T> {
    type Filter = ();
}

impl<T> DefaultFilter for Write<T> {
    type Filter = ();
}

impl<'a, T: Component> View<'a> for Read<T> {
    type Element = u32;
    type Fetch = SliceFetch<u32>;

    fn validate() -> bool {
        true
    }

    fn reads_types() -> Vec<ComponentTypeId> {
        vec![ComponentTypeId::of::<T>()]
    }

    fn writes_types() -> Vec<ComponentTypeId> {
        vec![]
    }

    fn reads<C: Component>() -> bool {
        ComponentTypeId::of::<C>() == ComponentTypeId::of::<T>()
    }

    fn writes<C: Component>() -> bool {
        false
    }
}

impl<'a, T: Component> View<'a> for Write<T> {
    type Element = u32;
    type Fetch = SliceFetch<u32>;

    fn validate() -> bool {
        true
    }

    fn reads_types() -> Vec<ComponentTypeId> {
        vec![ComponentTypeId::of::<T>()]
    }

    fn writes_types() -> Vec<ComponentTypeId> {
        vec![ComponentTypeId::of::<T>()]
    }

    fn reads<C: Component>() -> bool {
        ComponentTypeId::of::<C>() == ComponentTypeId::of::<T>()
    }

    fn writes<C: Component>() -> bool {
        ComponentTypeId::of::<C>() == ComponentTypeId::of::<T>()
    }
}

fn id<T: Component>() -> ComponentTypeId {
    ComponentTypeId::of::<T>()
}

#[test]
fn reading_views_never_conflict() {
    assert!(<(Read<Pos>, Read<Pos>) as View>::validate());
    assert!(<(Read<Pos>, Read<Rot>, Read<Vel>) as View>::validate());
}

#[test]
fn writing_a_type_another_view_reads_is_invalid() {
    assert!(!<(Write<Pos>, Read<Pos>) as View>::validate());
    assert!(!<(Read<Pos>, Write<Pos>) as View>::validate());
    assert!(!<(Write<Pos>, Write<Pos>) as View>::validate());
    assert!(!<(Read<Rot>, Write<Vel>, Read<Vel>) as View>::validate());
}

#[test]
fn writing_distinct_types_is_valid() {
    assert!(<(Write<Pos>, Read<Rot>) as View>::validate());
    assert!(<(Write<Pos>, Write<Rot>, Write<Vel>) as View>::validate());
    assert!(<(Write<Pos>,) as View>::validate());
}

#[test]
fn tuple_types_are_concatenated_in_order() {
    let reads = <(Read<Pos>, Write<Rot>, Read<Vel>) as View>::reads_types();
    assert_eq!(reads, vec![id::<Pos>(), id::<Rot>(), id::<Vel>()]);
    let writes = <(Read<Pos>, Write<Rot>, Write<Vel>) as View>::writes_types();
    assert_eq!(writes, vec![id::<Rot>(), id::<Vel>()]);
    let writes = <(Read<Pos>, Read<Rot>) as View>::writes_types();
    assert_eq!(writes, vec![]);
}

#[test]
fn nested_tuples_check_what_inner_views_write() {
    assert!(<((Read<Pos>,), Read<Pos>) as View>::validate());
    assert!(<((Read<Pos>, Read<Rot>), Write<Vel>) as View>::validate());
    assert!(!<((Write<Pos>, Read<Rot>), Read<Pos>) as View>::validate());
}

#[test]
fn tuple_reads_and_writes_any_of_its_views() {
    assert!(<(Read<Pos>, Write<Rot>) as View>::reads::<Rot>());
    assert!(<(Read<Pos>, Write<Rot>) as View>::writes::<Rot>());
    assert!(!<(Read<Pos>, Write<Rot>) as View>::writes::<Pos>());
    assert!(!<(Read<Pos>, Write<Rot>) as View>::reads::<Vel>());
}

#[test]
fn access_check_on_plain_lists() {
    let pos = id::<Pos>();
    let rot = id::<Rot>();
    assert!(accesses_conflict_free(&vec![], &vec![]));
    assert!(accesses_conflict_free(&vec![vec![pos]], &vec![vec![pos]]));
    assert!(accesses_conflict_free(
        &vec![vec![pos], vec![rot]],
        &vec![vec![pos], vec![]]
    ));
    assert!(!accesses_conflict_free(
        &vec![vec![pos], vec![rot, pos]],
        &vec![vec![pos], vec![]]
    ));
    assert!(!accesses_conflict_free(
        &vec![vec![pos], vec![rot]],
        &vec![vec![], vec![pos]]
    ));
}

fn fetches() -> MultiFetch<'static, (SliceFetch<u32>, SliceFetch<u64>)> {
    MultiFetch::from((
        SliceFetch { items: vec![1u32, 2], version: 10 },
        SliceFetch { items: vec![3u64], version: 20 },
    ))
}

#[test]
fn multi_fetch_finds_the_first_matching_slice() {
    let mut fetch = fetches();
    assert_eq!(fetch.find::<u32>(), Some(&[1u32, 2][..]));
    assert_eq!(fetch.find::<u64>(), Some(&[3u64][..]));
    assert_eq!(fetch.find::<u8>(), None);
    fetch.find_mut::<u64>().unwrap()[0] = 30;
    assert_eq!(fetch.find::<u64>(), Some(&[30u64][..]));
    assert!(fetch.find_mut::<i8>().is_none());

    let mut doubled = MultiFetch::from((
        SliceFetch { items: vec![1u32], version: 1 },
        SliceFetch { items: vec![2u32], version: 2 },
    ));
    assert_eq!(doubled.find::<u32>(), Some(&[1u32][..]));
    doubled.find_mut::<u32>().unwrap()[0] = 5;
    assert_eq!(doubled.get_components(), (vec![5u32], vec![2u32]));
}

#[test]
fn multi_fetch_versions_and_acceptance() {
    let mut fetch = fetches();
    assert_eq!(fetch.version::<u32>(), Some(10));
    assert_eq!(fetch.version::<u64>(), Some(20));
    assert_eq!(fetch.version::<u8>(), None);
    fetch.accepted();
    assert_eq!(fetch.version::<u32>(), Some(11));
    assert_eq!(fetch.version::<u64>(), Some(21));
}

#[test]
fn multi_fetch_components_and_iterators() {
    assert_eq!(fetches().get_components(), (vec![1u32, 2], vec![3u64]));
    assert_eq!(fetches().into_components(), (vec![1u32, 2], vec![3u64]));
    assert_eq!(fetches().into_indexable_iter(), (vec![1u32, 2], vec![3u64]));
}

fn is_read_only<T: ReadOnly>(_: T) -> bool {
    true
}

#[test]
fn shared_references_are_read_only() {
    let value = 3u32;
    assert!(is_read_only(&value));
    assert!(is_read_only(Some(&value)));
}

#[test]
fn default_filter_of_a_tuple_pairs_the_filters() {
    let _: <(Read<Pos>, Write<Rot>) as DefaultFilter>::Filter = ((), ());
}

#[test]
fn tuple_helpers_answer_in_view_order() {
    let pair = (
        SliceFetch { items: vec![1u32], version: 4 },
        SliceFetch { items: vec![2u32], version: 5 },
    );
    assert_eq!(tuple2_find::<_, _, u32>(&pair), Some(&[1u32][..]));
    assert_eq!(tuple2_version::<_, _, u32>(&pair), Some(4));
    assert!(tuple2_reads::<Read<Pos>, Write<Rot>, Rot>());
    assert!(!tuple2_writes::<Read<Pos>, Write<Rot>, Pos>());
}
