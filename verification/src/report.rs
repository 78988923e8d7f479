//! The lines that present trip updates to a reader: those of one trip, of
//! one route, and of a whole poll.

use vstd::prelude::*;
use vstd::string::*;

use crate::filter::lemma_filter_take_succ;
use crate::models::{
    stop_time_update_text, trip_update_text, StopTimeUpdateView, TripUpdate, TripUpdateView,
};
use crate::text::{decimal_digits, push_decimal};

verus! {

/// The lines shown for one trip: its summary, a line for each of its first
/// `limit` stops, and, where it has more stops, a line that counts the
/// rest.
pub open spec fn trip_lines(update: TripUpdateView, limit: nat) -> Seq<Seq<char>> {
    let stops = update.stop_time_updates;
    let shown = if stops.len() <= limit {
        stops
    } else {
        stops.take(limit as int)
    };
    seq![trip_update_text(update)] + shown.map_values(
        |stop: StopTimeUpdateView| stop_time_update_text(stop),
    ) + (if stops.len() > limit {
        seq!["  ... and "@ + decimal_digits((stops.len() - limit) as nat) + " more stops"@]
    } else {
        Seq::empty()
    })
}

impl TripUpdate {
    /// The lines shown for this trip when at most `limit` of its stops are
    /// listed.
    pub fn preview_lines(&self, limit: usize) -> (lines: Vec<String>)
        ensures
            lines.deep_view() == trip_lines(self@, limit as nat),
    {
        let total = self.stop_time_updates.len();
        let shown = if total <= limit {
            total
        } else {
            limit
        };
        let mut lines: Vec<String> = Vec::new();
        lines.push(self.to_text());
        let mut i: usize = 0;
        while i < shown
            invariant
                i <= shown <= total,
                total == self.stop_time_updates.len(),
                lines.len() == i + 1,
                lines[0]@ == trip_update_text(self@),
                forall|k: int|
                    0 <= k < i ==> (#[trigger] lines[k + 1])@ == stop_time_update_text(
                        self.stop_time_updates[k]@,
                    ),
            decreases shown - i,
        {
            lines.push(self.stop_time_updates[i].to_text());
            i = i + 1;
        }
        let ghost listed = lines.deep_view();
        if total > limit {
            let mut rest = String::from_str("  ... and ");
            push_decimal(&mut rest, (total - limit) as u64);
            rest.append(" more stops");
            lines.push(rest);
            assert(lines.deep_view() =~= listed.push(rest@));
        }
        proof {
            let stops = self@.stop_time_updates;
            let head = seq![trip_update_text(self@)] + stops.take(shown as int).map_values(
                |stop: StopTimeUpdateView| stop_time_update_text(stop),
            );
            assert(stops.take(total as int) =~= stops);
            assert(listed =~= head) by {
                assert forall|k: int| 0 <= k < listed.len() implies listed[k] == head[k] by {
                    if k > 0 {
                        assert(lines[(k - 1) + 1]@ == stop_time_update_text(
                            self.stop_time_updates[k - 1]@,
                        ));
                    }
                }
            }
            assert(lines.deep_view() =~= trip_lines(self@, limit as nat));
        }
        lines
    }
}

/// How many stops of a trip a poll report lists.
pub const STOPS_SHOWN: usize = 3;

/// The test that keeps the trip updates of exactly the route `route`.
pub open spec fn runs_on(route: Seq<char>) -> spec_fn(TripUpdateView) -> bool {
    |update: TripUpdateView| update.route_id == route
}

/// The lines of one trip followed by an empty line.
pub open spec fn trip_block(update: TripUpdateView, limit: nat) -> Seq<Seq<char>> {
    trip_lines(update, limit).push(Seq::empty())
}

/// The blocks of several trips, one after the other.
pub open spec fn trip_blocks(trips: Seq<TripUpdateView>, limit: nat) -> Seq<Seq<char>>
    decreases trips.len(),
{
    if trips.len() == 0 {
        Seq::empty()
    } else {
        trip_blocks(trips.drop_last(), limit) + trip_block(trips.last(), limit)
    }
}

/// The rule drawn under the heading of a section.
pub open spec fn section_rule() -> Seq<char> {
    "─────────────────────────────────────────────────"@
}

/// The heading of a route's section: the route and how many trips follow.
pub open spec fn section_heading(route: Seq<char>, trips: nat) -> Seq<char> {
    "\n🚌 Route "@ + route + " ("@ + decimal_digits(trips) + " trips):"@
}

/// The section of a report for one route: nothing where no trip runs on the
/// route, else a heading, a rule, and the block of each of its trips in
/// their order.
pub open spec fn route_section(updates: Seq<TripUpdateView>, route: Seq<char>, limit: nat) -> Seq<
    Seq<char>,
> {
    let trips = updates.filter(runs_on(route));
    if trips.len() == 0 {
        Seq::empty()
    } else {
        seq![section_heading(route, trips.len()), section_rule()] + trip_blocks(trips, limit)
    }
}

/// The first line of a report: how many trips there are, and how many of
/// them on routes `1` and `2`.
pub open spec fn summary_line(updates: Seq<TripUpdateView>) -> Seq<char> {
    "\n📊 Summary: "@ + decimal_digits(updates.len()) + " total trips ("@ + decimal_digits(
        updates.filter(runs_on("1"@)).len(),
    ) + " Route 1, "@ + decimal_digits(updates.filter(runs_on("2"@)).len()) + " Route 2)"@
}

/// The report of one poll: the summary line, then either a notice that
/// there are no trips or the sections of routes `1` and `2`.
pub open spec fn poll_report_lines(updates: Seq<TripUpdateView>) -> Seq<Seq<char>> {
    seq![summary_line(updates)] + (if updates.len() == 0 {
        seq!["\n⚠\u{fe0f}  No active trips found for Route 1 or Route 2"@]
    } else {
        route_section(updates, "1"@, STOPS_SHOWN as nat) + route_section(
            updates,
            "2"@,
            STOPS_SHOWN as nat,
        )
    })
}

/// Counts the trip updates of exactly the route `route_id`.
fn count_trips(trip_updates: &Vec<TripUpdate>, route_id: &str) -> (n: usize)
    ensures
        n == trip_updates.deep_view().filter(runs_on(route_id@)).len(),
{
    let ghost views = trip_updates.deep_view();
    let ghost keep = runs_on(route_id@);
    let mut n: usize = 0;
    let mut i: usize = 0;
    assert(views.take(0).filter(keep) =~= Seq::<TripUpdateView>::empty()) by {
        reveal(Seq::filter);
    }
    while i < trip_updates.len()
        invariant
            i <= trip_updates.len(),
            views == trip_updates.deep_view(),
            keep == runs_on(route_id@),
            n == views.take(i as int).filter(keep).len(),
            n <= i,
        decreases trip_updates.len() - i,
    {
        proof {
            lemma_filter_take_succ(views, keep, i as int);
        }
        if trip_updates[i].is_route(route_id) {
            n = n + 1;
        }
        i = i + 1;
    }
    assert(views.take(i as int) =~= views);
    n
}

/// Builds the section of a report for the route `route_id`, listing at
/// most `limit` stops of each trip.
pub fn route_section_lines(trip_updates: &Vec<TripUpdate>, route_id: &str, limit: usize) -> (lines:
    Vec<String>)
    ensures
        lines.deep_view() == route_section(trip_updates.deep_view(), route_id@, limit as nat),
{
    let ghost views = trip_updates.deep_view();
    let ghost keep = runs_on(route_id@);
    let mut lines: Vec<String> = Vec::new();
    let trips = count_trips(trip_updates, route_id);
    if trips == 0 {
        assert(lines.deep_view() =~= route_section(views, route_id@, limit as nat));
        return lines;
    }
    let mut heading = String::from_str("\n🚌 Route ");
    heading.append(route_id);
    heading.append(" (");
    push_decimal(&mut heading, trips as u64);
    heading.append(" trips):");
    assert(heading@ =~= section_heading(route_id@, trips as nat));
    lines.push(heading);
    lines.push(String::from_str("─────────────────────────────────────────────────"));
    let ghost top = lines.deep_view();
    assert(top =~= seq![section_heading(route_id@, trips as nat), section_rule()]);
    let mut i: usize = 0;
    assert(views.take(0).filter(keep) =~= Seq::<TripUpdateView>::empty()) by {
        reveal(Seq::filter);
    }
    while i < trip_updates.len()
        invariant
            i <= trip_updates.len(),
            views == trip_updates.deep_view(),
            keep == runs_on(route_id@),
            lines.deep_view() == top + trip_blocks(
                views.take(i as int).filter(keep),
                limit as nat,
            ),
        decreases trip_updates.len() - i,
    {
        proof {
            lemma_filter_take_succ(views, keep, i as int);
        }
        if trip_updates[i].is_route(route_id) {
            let ghost before = lines.deep_view();
            let mut block = trip_updates[i].preview_lines(limit);
            block.push(String::new());
            assert(block.deep_view() =~= trip_block(views[i as int], limit as nat));
            lines.append(&mut block);
            proof {
                let kept = views.take(i as int).filter(keep);
                assert(kept.push(views[i as int]).drop_last() =~= kept);
                assert(lines.deep_view() =~= before + trip_block(views[i as int], limit as nat));
                assert(lines.deep_view() =~= top + trip_blocks(
                    kept.push(views[i as int]),
                    limit as nat,
                ));
            }
        }
        i = i + 1;
    }
    assert(views.take(i as int) =~= views);
    lines
}

/// Builds the report of one poll over the trip updates it brought.
pub fn poll_report(trip_updates: &Vec<TripUpdate>) -> (lines: Vec<String>)
    ensures
        lines.deep_view() == poll_report_lines(trip_updates.deep_view()),
{
    let mut summary = String::from_str("\n📊 Summary: ");
    push_decimal(&mut summary, trip_updates.len() as u64);
    summary.append(" total trips (");
    push_decimal(&mut summary, count_trips(trip_updates, "1") as u64);
    summary.append(" Route 1, ");
    push_decimal(&mut summary, count_trips(trip_updates, "2") as u64);
    summary.append(" Route 2)");
    assert(summary@ =~= summary_line(trip_updates.deep_view()));
    let mut lines: Vec<String> = Vec::new();
    lines.push(summary);
    if trip_updates.len() == 0 {
        lines.push(String::from_str("\n⚠\u{fe0f}  No active trips found for Route 1 or Route 2"));
    } else {
        let mut first = route_section_lines(trip_updates, "1", STOPS_SHOWN);
        let mut second = route_section_lines(trip_updates, "2", STOPS_SHOWN);
        lines.append(&mut first);
        lines.append(&mut second);
    }
    assert(lines.deep_view() =~= poll_report_lines(trip_updates.deep_view()));
    lines
}

} // verus!
