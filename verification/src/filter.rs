//! Selecting records by route, and counting them.

use vstd::prelude::*;

use crate::models::{BusObservation, TripUpdate};

verus! {

/// A record that belongs to a route.
pub trait RouteRecord {
    /// The identifier of the record's route.
    spec fn route(&self) -> Seq<char>;

    /// Whether the record's route is exactly `route_id`.
    fn on_route(&self, route_id: &str) -> (r: bool)
        ensures
            r == (self.route() == route_id@),
    ;
}

impl RouteRecord for TripUpdate {
    open spec fn route(&self) -> Seq<char> {
        self@.route_id
    }

    fn on_route(&self, route_id: &str) -> (r: bool) {
        self.is_route(route_id)
    }
}

impl RouteRecord for BusObservation {
    open spec fn route(&self) -> Seq<char> {
        self@.route_id
    }

    fn on_route(&self, route_id: &str) -> (r: bool) {
        self.is_route(route_id)
    }
}

/// The set of routes that a list of route identifiers names.
pub open spec fn route_set(route_ids: Seq<&str>) -> Set<Seq<char>> {
    Set::new(|route: Seq<char>| exists|i: int| 0 <= i < route_ids.len() && route_ids[i]@ == route)
}

/// The test that keeps the records on one of `routes`.
pub open spec fn on_routes<R: RouteRecord>(routes: Set<Seq<char>>) -> spec_fn(R) -> bool {
    |record: R| routes.contains(record.route())
}

/// Filtering the first `i + 1` records is filtering the first `i` and then
/// deciding on the record at `i`.
pub proof fn lemma_filter_take_succ<A>(records: Seq<A>, keep: spec_fn(A) -> bool, i: int)
    requires
        0 <= i < records.len(),
    ensures
        records.take(i + 1).filter(keep) == if keep(records[i]) {
            records.take(i).filter(keep).push(records[i])
        } else {
            records.take(i).filter(keep)
        },
{
    reveal(Seq::filter);
    assert(records.take(i + 1).drop_last() =~= records.take(i));
}

/// The positions of the records that `keep` accepts, in increasing order.
pub open spec fn kept_positions<A>(records: Seq<A>, keep: spec_fn(A) -> bool) -> Seq<int>
    decreases records.len(),
{
    if records.len() == 0 {
        Seq::empty()
    } else if keep(records.last()) {
        kept_positions(records.drop_last(), keep).push(records.len() - 1)
    } else {
        kept_positions(records.drop_last(), keep)
    }
}

/// Filtering keeps exactly the accepted records and keeps them in the
/// relative order they had: the kept records are the records at
/// [`kept_positions`], which rise strictly and hold every accepted position.
pub proof fn lemma_filter_keeps_order<A>(records: Seq<A>, keep: spec_fn(A) -> bool)
    ensures
        kept_positions(records, keep).len() == records.filter(keep).len(),
        forall|k: int|
            0 <= k < records.filter(keep).len() ==> {
                &&& 0 <= #[trigger] kept_positions(records, keep)[k] < records.len()
                &&& records.filter(keep)[k] == records[kept_positions(records, keep)[k]]
                &&& keep(records[kept_positions(records, keep)[k]])
            },
        forall|a: int, b: int|
            0 <= a < b < records.filter(keep).len() ==> #[trigger] kept_positions(records, keep)[a]
                < #[trigger] kept_positions(records, keep)[b],
        forall|i: int|
            0 <= i < records.len() && keep(#[trigger] records[i]) ==> kept_positions(
                records,
                keep,
            ).contains(i),
    decreases records.len(),
{
    reveal(Seq::filter);
    if records.len() > 0 {
        let rest = records.drop_last();
        let last = records.len() - 1;
        lemma_filter_keeps_order(rest, keep);
        let here = kept_positions(records, keep);
        let before = kept_positions(rest, keep);
        assert forall|i: int| 0 <= i < records.len() && keep(#[trigger] records[i]) implies here.contains(
            i,
        ) by {
            if i == last {
                assert(here[here.len() - 1] == last);
            } else {
                assert(rest[i] == records[i]);
                assert(before.contains(i));
                let k = choose|k: int| 0 <= k < before.len() && before[k] == i;
                assert(here[k] == i);
            }
        }
    }
}

/// Whether `record` is on one of the routes that `route_ids` names.
pub fn on_any_route<R: RouteRecord>(record: &R, route_ids: &[&str]) -> (r: bool)
    ensures
        r == route_set(route_ids@).contains(record.route()),
{
    let mut i: usize = 0;
    while i < route_ids.len()
        invariant
            i <= route_ids.len(),
            forall|k: int| 0 <= k < i ==> route_ids@[k]@ != record.route(),
        decreases route_ids.len() - i,
    {
        if record.on_route(route_ids[i]) {
            return true;
        }
        i = i + 1;
    }
    false
}

/// Keeps the records on one of the routes that `route_ids` names, in the
/// order they had. A route matches only an identical identifier.
pub fn filter_routes<R: RouteRecord>(records: Vec<R>, route_ids: &[&str]) -> (kept: Vec<R>)
    ensures
        kept@ == records@.filter(on_routes::<R>(route_set(route_ids@))),
{
    let ghost all = records@;
    let ghost keep = on_routes::<R>(route_set(route_ids@));
    let mut kept: Vec<R> = Vec::new();
    assert(all.take(0).filter(keep) =~= Seq::<R>::empty()) by {
        reveal(Seq::filter);
    }
    for record in it: records
        invariant
            it.seq() == all,
            keep == on_routes::<R>(route_set(route_ids@)),
            kept@ == all.take(it.index() as int).filter(keep),
    {
        proof {
            lemma_filter_take_succ(all, keep, it.index() as int);
        }
        if on_any_route(&record, route_ids) {
            kept.push(record);
        }
    }
    assert(all.take(all.len() as int) =~= all);
    kept
}

/// The matches of a filter are the filter's matches: every record that
/// [`filter_routes`] keeps is on one of the routes, every record on one of
/// the routes is kept, and the kept records stand in the order in which
/// they came.
pub proof fn lemma_filter_routes_exact<R: RouteRecord>(records: Seq<R>, route_ids: Seq<&str>)
    ensures
        ({
            let keep = on_routes::<R>(route_set(route_ids));
            let kept = records.filter(keep);
            let at = kept_positions(records, keep);
            &&& at.len() == kept.len()
            &&& forall|k: int|
                0 <= k < kept.len() ==> 0 <= #[trigger] at[k] < records.len() && kept[k]
                    == records[at[k]] && route_set(route_ids).contains(kept[k].route())
            &&& forall|a: int, b: int| 0 <= a < b < kept.len() ==> #[trigger] at[a] < #[trigger] at[b]
            &&& forall|i: int|
                0 <= i < records.len() && route_set(route_ids).contains(
                    (#[trigger] records[i]).route(),
                ) ==> at.contains(i)
        }),
{
    lemma_filter_keeps_order(records, on_routes::<R>(route_set(route_ids)));
}

/// Counts the records on exactly the route `route_id`.
pub fn count_route<R: RouteRecord>(records: &Vec<R>, route_id: &str) -> (n: usize)
    ensures
        n == records@.filter(on_routes::<R>(set![route_id@])).len(),
{
    let ghost keep = on_routes::<R>(set![route_id@]);
    let mut n: usize = 0;
    let mut i: usize = 0;
    assert(records@.take(0).filter(keep) =~= Seq::<R>::empty()) by {
        reveal(Seq::filter);
    }
    while i < records.len()
        invariant
            i <= records.len(),
            keep == on_routes::<R>(set![route_id@]),
            n == records@.take(i as int).filter(keep).len(),
            n <= i,
        decreases records.len() - i,
    {
        proof {
            lemma_filter_take_succ(records@, keep, i as int);
        }
        if records[i].on_route(route_id) {
            n = n + 1;
        }
        i = i + 1;
    }
    assert(records@.take(i as int) =~= records@);
    n
}

} // verus!
