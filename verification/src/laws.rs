//! What holds of the recorder across calls, stated over the same spec
//! functions that the contracts use.

use crate::model::{Timestamp, UserSession, SECONDS_PER_DAY};
use crate::store::{has_session, valid_sessions};
use crate::trend::{distinct_instants, is_trend, newest_first, selected, Sample};
use vstd::prelude::*;

verus! {

/// A valid session table stays valid when a session with sound counters and
/// an identifier that is new to it is appended.
pub proof fn law_append_keeps_table_valid(sessions: Seq<UserSession>, session: UserSession)
    requires
        valid_sessions(sessions),
        session.counters_valid(),
        !has_session(sessions, session.session_id@),
    ensures
        valid_sessions(sessions.push(session)),
{
    let next = sessions.push(session);
    assert forall|i: int, j: int| 0 <= i < j < next.len() implies (#[trigger] next[i]).session_id@
        != (#[trigger] next[j]).session_id@ by {
        if j < sessions.len() {
            assert(sessions[i] == next[i] && sessions[j] == next[j]);
        } else {
            assert(sessions[i] == next[i]);
        }
    }
    assert forall|i: int| 0 <= i < next.len() implies (#[trigger] next[i]).counters_valid() by {
        if i < sessions.len() {
            assert(sessions[i] == next[i]);
        }
    }
}

/// Session identifiers are unique across calls: a session that a later call
/// opens differs in its identifier from every session that an earlier call
/// has put into the table. `table` is the session table as the later call
/// finds it, and `later` the session it returns, whose identifier the table
/// does not hold.
pub proof fn law_session_ids_differ_across_calls(
    table: Seq<UserSession>,
    earlier: int,
    later: UserSession,
)
    requires
        0 <= earlier < table.len(),
        !has_session(table, later.session_id@),
    ensures
        table[earlier].session_id@ != later.session_id@,
{
}

/// A sample that is recorded and that a query selects is returned by that
/// query once more than before, so exactly once if the table did not hold it,
/// and the answer is still most recent first. `before` is the trend over the
/// table `samples`, `after` the trend over the table once `sample` has been
/// appended.
pub proof fn law_recorded_sample_is_returned_once<T: Sample>(
    sessions: Seq<UserSession>,
    samples: Seq<T>,
    sample: T,
    user_id: Seq<char>,
    now: Timestamp,
    days: i32,
    before: Seq<T>,
    after: Seq<T>,
)
    requires
        selected(sessions, user_id, now, days, sample),
        is_trend(before, sessions, samples, user_id, now, days),
        is_trend(after, sessions, samples.push(sample), user_id, now, days),
    ensures
        after.to_multiset() == before.to_multiset().insert(sample),
        after.to_multiset().count(sample) == before.to_multiset().count(sample) + 1,
        !samples.contains(sample) ==> after.to_multiset().count(sample) == 1,
        after.contains(sample),
        after.len() == before.len() + 1,
        newest_first(after),
{
    broadcast use vstd::multiset::group_multiset_axioms;

    let pred = |m: T| selected(sessions, user_id, now, days, m);
    assert(pred(sample));
    samples.lemma_filter_push(sample, pred);
    vstd::seq_lib::to_multiset_build(samples.filter(pred), sample);
    vstd::seq_lib::to_multiset_len(after);
    vstd::seq_lib::to_multiset_len(before);
    vstd::seq_lib::to_multiset_contains(after, sample);
    if !samples.contains(sample) {
        if samples.filter(pred).contains(sample) {
            samples.lemma_filter_contains_rev(pred, sample);
        }
        vstd::seq_lib::to_multiset_contains(samples.filter(pred), sample);
    }
}

/// A sample that a query does not select, because it lies outside the window
/// or its session does not belong to the user, leaves the query's answer as
/// it was.
pub proof fn law_unselected_sample_is_not_returned<T: Sample>(
    sessions: Seq<UserSession>,
    samples: Seq<T>,
    sample: T,
    user_id: Seq<char>,
    now: Timestamp,
    days: i32,
    before: Seq<T>,
    after: Seq<T>,
)
    requires
        !selected(sessions, user_id, now, days, sample),
        is_trend(before, sessions, samples, user_id, now, days),
        is_trend(after, sessions, samples.push(sample), user_id, now, days),
    ensures
        after.to_multiset() == before.to_multiset(),
        after.len() == before.len(),
{
    let pred = |m: T| selected(sessions, user_id, now, days, m);
    assert(!pred(sample));
    samples.lemma_filter_push(sample, pred);
    vstd::seq_lib::to_multiset_len(after);
    vstd::seq_lib::to_multiset_len(before);
}

/// A query over an empty window of rows is no fault: where nothing is
/// selected, the trend is the empty sequence.
pub proof fn law_empty_selection_gives_empty_trend<T: Sample>(
    sessions: Seq<UserSession>,
    samples: Seq<T>,
    user_id: Seq<char>,
    now: Timestamp,
    days: i32,
    out: Seq<T>,
)
    requires
        is_trend(out, sessions, samples, user_id, now, days),
        forall|i: int| 0 <= i < samples.len() ==> !selected(sessions, user_id, now, days, #[trigger] samples[i]),
    ensures
        out =~= Seq::<T>::empty(),
{
    let pred = |m: T| selected(sessions, user_id, now, days, m);
    assert forall|i: int| 0 <= i < samples.len() implies !pred(#[trigger] samples[i]) by {}
    samples.lemma_all_neg_filter_empty(pred);
    vstd::seq_lib::to_multiset_len(out);
    vstd::seq_lib::to_multiset_len(samples.filter(pred));
}

/// Both edges of a window belong to it, and nothing beyond them does. The
/// instant `now` is inside the window of any number of days, zero included;
/// so is the instant that is exactly `days` days old. The instant one
/// nanosecond or one second before that is outside, and so is every instant
/// after `now`. For zero days the window holds `now` and nothing else.
pub proof fn law_window_edges_are_inside(now: Timestamp, days: i32)
    requires
        days >= 0,
    ensures
        now.within_days(now, days),
        forall|t: Timestamp|
            t.secs == now.secs - days * SECONDS_PER_DAY && t.nanos == now.nanos
                ==> #[trigger] t.within_days(now, days),
        forall|t: Timestamp|
            t.secs == now.secs - days * SECONDS_PER_DAY && t.nanos < now.nanos
                ==> !#[trigger] t.within_days(now, days),
        forall|t: Timestamp|
            t.secs < now.secs - days * SECONDS_PER_DAY ==> !#[trigger] t.within_days(now, days),
        forall|t: Timestamp|
            t.secs > now.secs || (t.secs == now.secs && t.nanos > now.nanos)
                ==> !#[trigger] t.within_days(now, days),
        forall|t: Timestamp| #[trigger]
            t.within_days(now, 0) == (t.secs == now.secs && t.nanos == now.nanos),
{
}

/// A window is the stretch between its two edges: an instant is inside
/// exactly when it is not later than `now` and not earlier than the instant
/// `days` days before `now`, where the calendar of instants reaches that far
/// back.
pub proof fn law_window_is_the_trailing_stretch(t: Timestamp, now: Timestamp, days: i32)
    requires
        days >= 0,
        now.secs - days * SECONDS_PER_DAY >= i64::MIN,
    ensures
        t.within_days(now, days) == (now.at_or_after(t) && t.at_or_after(
            Timestamp { secs: (now.secs - days * SECONDS_PER_DAY) as i64, nanos: now.nanos },
        )),
{
}

/// A window of a negative number of days holds nothing.
pub proof fn law_negative_window_is_empty(t: Timestamp, now: Timestamp, days: i32)
    requires
        days < 0,
    ensures
        !t.within_days(now, days),
{
}

/// A longer window holds whatever a shorter one holds.
pub proof fn law_window_grows_with_days(t: Timestamp, now: Timestamp, shorter: i32, longer: i32)
    requires
        0 <= shorter <= longer,
        t.within_days(now, shorter),
    ensures
        t.within_days(now, longer),
{
}

/// The order of an answer is settled by the instants alone: two sequences
/// that hold the same samples, each most recent first, are the same sequence,
/// provided that no two of the samples were taken at the same instant.
pub proof fn law_trend_is_determined_by_instants<T: Sample>(x: Seq<T>, y: Seq<T>)
    requires
        newest_first(x),
        newest_first(y),
        distinct_instants(x),
        x.to_multiset() == y.to_multiset(),
    ensures
        x == y,
    decreases x.len(),
{
    broadcast use vstd::multiset::group_multiset_axioms;

    vstd::seq_lib::to_multiset_len(x);
    vstd::seq_lib::to_multiset_len(y);
    if x.len() == 0 {
        assert(x =~= y);
    } else {
        vstd::seq_lib::to_multiset_contains(x, x[0]);
        vstd::seq_lib::to_multiset_contains(y, x[0]);
        vstd::seq_lib::to_multiset_contains(x, y[0]);
        vstd::seq_lib::to_multiset_contains(y, y[0]);
        assert(x.contains(x[0]));
        assert(y.contains(y[0]));
        let k = choose|k: int| 0 <= k < y.len() && y[k] == x[0];
        let j = choose|j: int| 0 <= j < x.len() && x[j] == y[0];
        assert(y[0].taken_at().at_or_after(y[k].taken_at()));
        assert(x[0].taken_at().at_or_after(x[j].taken_at()));
        assert(x[0].taken_at() == x[j].taken_at());
        assert(j == 0);
        let xs = x.drop_first();
        let ys = y.drop_first();
        assert(x.remove(0) =~= xs);
        assert(y.remove(0) =~= ys);
        vstd::seq_lib::to_multiset_remove(x, 0);
        vstd::seq_lib::to_multiset_remove(y, 0);
        assert forall|a: int, b: int| 0 <= a <= b < xs.len() implies (#[trigger] xs[a]).taken_at().at_or_after(
            (#[trigger] xs[b]).taken_at(),
        ) by {
            assert(xs[a] == x[a + 1] && xs[b] == x[b + 1]);
        }
        assert forall|a: int, b: int| 0 <= a <= b < ys.len() implies (#[trigger] ys[a]).taken_at().at_or_after(
            (#[trigger] ys[b]).taken_at(),
        ) by {
            assert(ys[a] == y[a + 1] && ys[b] == y[b + 1]);
        }
        assert forall|a: int, b: int| 0 <= a < b < xs.len() implies (#[trigger] xs[a]).taken_at() != (
        #[trigger] xs[b]).taken_at() by {
            assert(xs[a] == x[a + 1] && xs[b] == x[b + 1]);
        }
        law_trend_is_determined_by_instants(xs, ys);
        assert forall|i: int| 0 <= i < x.len() implies x[i] == y[i] by {
            if i > 0 {
                assert(x[i] == xs[i - 1] && y[i] == ys[i - 1]);
            }
        }
        assert(x =~= y);
    }
}

/// Two selected samples both appear in the trend, whichever was recorded
/// first, and the later one stands before the earlier one: the order of the
/// answer follows the instants, not the insertions. Where no two samples of
/// the answer share an instant, both answers are the same sequence. `one_way`
/// is the trend over the table with `a` appended before `b`, `other_way` the
/// trend with `b` appended before `a`.
pub proof fn law_trend_order_ignores_insertion_order<T: Sample>(
    sessions: Seq<UserSession>,
    samples: Seq<T>,
    a: T,
    b: T,
    user_id: Seq<char>,
    now: Timestamp,
    days: i32,
    one_way: Seq<T>,
    other_way: Seq<T>,
)
    requires
        selected(sessions, user_id, now, days, a),
        selected(sessions, user_id, now, days, b),
        !b.taken_at().at_or_after(a.taken_at()),
        is_trend(one_way, sessions, samples.push(a).push(b), user_id, now, days),
        is_trend(other_way, sessions, samples.push(b).push(a), user_id, now, days),
    ensures
        one_way.to_multiset() == other_way.to_multiset(),
        one_way.contains(a) && one_way.contains(b),
        other_way.contains(a) && other_way.contains(b),
        forall|i: int, j: int|
            0 <= i < one_way.len() && 0 <= j < one_way.len() && one_way[i] == a && one_way[j] == b
                ==> i < j,
        forall|i: int, j: int|
            0 <= i < other_way.len() && 0 <= j < other_way.len() && other_way[i] == a
                && other_way[j] == b ==> i < j,
        distinct_instants(one_way) ==> one_way == other_way,
{
    broadcast use vstd::multiset::group_multiset_axioms;

    let pred = |m: T| selected(sessions, user_id, now, days, m);
    assert(pred(a) && pred(b));
    let base = samples.filter(pred);
    samples.lemma_filter_push(a, pred);
    samples.push(a).lemma_filter_push(b, pred);
    samples.lemma_filter_push(b, pred);
    samples.push(b).lemma_filter_push(a, pred);
    vstd::seq_lib::to_multiset_build(base, a);
    vstd::seq_lib::to_multiset_build(base.push(a), b);
    vstd::seq_lib::to_multiset_build(base, b);
    vstd::seq_lib::to_multiset_build(base.push(b), a);
    assert(base.to_multiset().insert(a).insert(b) =~= base.to_multiset().insert(b).insert(a));
    vstd::seq_lib::to_multiset_contains(one_way, a);
    vstd::seq_lib::to_multiset_contains(one_way, b);
    vstd::seq_lib::to_multiset_contains(other_way, a);
    vstd::seq_lib::to_multiset_contains(other_way, b);
    assert forall|i: int, j: int|
        0 <= i < one_way.len() && 0 <= j < one_way.len() && one_way[i] == a && one_way[j]
            == b implies i < j by {
        if j <= i {
            assert(one_way[j].taken_at().at_or_after(one_way[i].taken_at()));
        }
    }
    assert forall|i: int, j: int|
        0 <= i < other_way.len() && 0 <= j < other_way.len() && other_way[i] == a && other_way[j]
            == b implies i < j by {
        if j <= i {
            assert(other_way[j].taken_at().at_or_after(other_way[i].taken_at()));
        }
    }
    if distinct_instants(one_way) {
        law_trend_is_determined_by_instants(one_way, other_way);
    }
}

} // verus!
