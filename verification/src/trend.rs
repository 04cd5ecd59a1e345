//! Trend queries: which samples a user and a trailing window select, and the
//! order in which they are handed out.

use crate::model::{DeveloperMetrics, HealthMetrics, Timestamp, UserSession};
use vstd::prelude::*;

verus! {

/// What a trend query reads of a sample: the session it refers to and the
/// instant it was taken at.
pub trait Sample: Sized {
    spec fn session_ref(&self) -> Seq<char>;

    spec fn taken_at(&self) -> Timestamp;

    fn session_key(&self) -> (r: &String)
        ensures
            r@ == self.session_ref(),
    ;

    fn observed_at(&self) -> (r: Timestamp)
        ensures
            r == self.taken_at(),
    ;

    fn duplicate(&self) -> (r: Self)
        ensures
            r == *self,
    ;
}

impl Sample for DeveloperMetrics {
    open spec fn session_ref(&self) -> Seq<char> {
        self.session_id@
    }

    open spec fn taken_at(&self) -> Timestamp {
        self.timestamp
    }

    fn session_key(&self) -> (r: &String) {
        &self.session_id
    }

    fn observed_at(&self) -> (r: Timestamp) {
        self.timestamp
    }

    fn duplicate(&self) -> (r: Self) {
        self.clone()
    }
}

impl Sample for HealthMetrics {
    open spec fn session_ref(&self) -> Seq<char> {
        self.session_id@
    }

    open spec fn taken_at(&self) -> Timestamp {
        self.timestamp
    }

    fn session_key(&self) -> (r: &String) {
        &self.session_id
    }

    fn observed_at(&self) -> (r: Timestamp) {
        self.timestamp
    }

    fn duplicate(&self) -> (r: Self) {
        self.clone()
    }
}

/// Whether the session table holds a session with this identifier that
/// belongs to this user.
pub open spec fn owned_by(sessions: Seq<UserSession>, session_id: Seq<char>, user_id: Seq<char>) -> bool {
    exists|i: int|
        0 <= i < sessions.len() && (#[trigger] sessions[i]).session_id@ == session_id
            && sessions[i].user_id@ == user_id
}

/// Whether a trend query for `user_id`, asked at `now` for the last `days`
/// days, selects the sample `m`: its session must be in the table and belong
/// to the user, and its instant must lie in the window.
pub open spec fn selected<T: Sample>(
    sessions: Seq<UserSession>,
    user_id: Seq<char>,
    now: Timestamp,
    days: i32,
    m: T,
) -> bool {
    owned_by(sessions, m.session_ref(), user_id) && m.taken_at().within_days(now, days)
}

/// Most recent first: no sample stands before a later one.
pub open spec fn newest_first<T: Sample>(s: Seq<T>) -> bool {
    forall|i: int, j: int|
        0 <= i <= j < s.len() ==> (#[trigger] s[i]).taken_at().at_or_after((#[trigger] s[j]).taken_at())
}

/// No two samples of the sequence were taken at the same instant.
pub open spec fn distinct_instants<T: Sample>(s: Seq<T>) -> bool {
    forall|i: int, j: int|
        0 <= i < j < s.len() ==> (#[trigger] s[i]).taken_at() != (#[trigger] s[j]).taken_at()
}

/// What a trend query owes: `out` holds the selected samples of the table,
/// each as often as the table holds it, most recent first.
pub open spec fn is_trend<T: Sample>(
    out: Seq<T>,
    sessions: Seq<UserSession>,
    samples: Seq<T>,
    user_id: Seq<char>,
    now: Timestamp,
    days: i32,
) -> bool {
    &&& newest_first(out)
    &&& out.to_multiset() == samples.filter(
        |m: T| selected(sessions, user_id, now, days, m),
    ).to_multiset()
}

/// Looks the session up and compares its owner.
pub fn session_owned_by(sessions: &Vec<UserSession>, session_id: &String, user_id: &String) -> (r: bool)
    ensures
        r == owned_by(sessions@, session_id@, user_id@),
{
    let mut i: usize = 0;
    while i < sessions.len()
        invariant
            i <= sessions.len(),
            forall|k: int|
                0 <= k < i ==> !((#[trigger] sessions@[k]).session_id@ == session_id@
                    && sessions@[k].user_id@ == user_id@),
        decreases sessions.len() - i,
    {
        if sessions[i].session_id == *session_id && sessions[i].user_id == *user_id {
            return true;
        }
        i += 1;
    }
    false
}

/// The place at which `m` enters a list that is most recent first: behind
/// every sample that is as recent as `m` or more recent, before every older one.
fn slot_for<T: Sample>(out: &Vec<T>, at: Timestamp) -> (p: usize)
    requires
        newest_first(out@),
    ensures
        p <= out.len(),
        forall|k: int| 0 <= k < p ==> (#[trigger] out@[k]).taken_at().at_or_after(at),
        forall|k: int| p <= k < out.len() ==> !(#[trigger] out@[k]).taken_at().at_or_after(at),
{
    let mut p: usize = 0;
    while p < out.len()
        invariant
            p <= out.len(),
            newest_first(out@),
            forall|k: int| 0 <= k < p ==> (#[trigger] out@[k]).taken_at().at_or_after(at),
        decreases out.len() - p,
    {
        let t = out[p].observed_at();
        if !t.is_at_or_after(&at) {
            assert forall|k: int| p <= k < out.len() implies !(#[trigger] out@[k]).taken_at().at_or_after(
                at,
            ) by {
                assert(out@[p as int].taken_at().at_or_after(out@[k].taken_at()));
            }
            return p;
        }
        p += 1;
    }
    p
}

/// Answers a trend query over the given tables: the samples of `samples`
/// whose session belongs to `user_id` and whose instant lies within the last
/// `days` days before `now`, most recent first.
pub fn trend<T: Sample>(
    sessions: &Vec<UserSession>,
    samples: &Vec<T>,
    user_id: &str,
    now: &Timestamp,
    days: i32,
) -> (out: Vec<T>)
    ensures
        is_trend(out@, sessions@, samples@, user_id@, *now, days),
{
    let owner = user_id.to_owned();
    let ghost pred = |m: T| selected(sessions@, user_id@, *now, days, m);
    let mut out: Vec<T> = Vec::new();
    let mut i: usize = 0;
    proof {
        assert(samples@.take(0) =~= Seq::<T>::empty());
        assert(Seq::<T>::empty().filter(pred) =~= Seq::<T>::empty()) by {
            reveal(Seq::filter);
        }
    }
    while i < samples.len()
        invariant
            i <= samples.len(),
            owner@ == user_id@,
            pred == (|m: T| selected(sessions@, user_id@, *now, days, m)),
            newest_first(out@),
            out@.to_multiset() == samples@.take(i as int).filter(pred).to_multiset(),
        decreases samples.len() - i,
    {
        let m = &samples[i];
        proof {
            assert(samples@.take(i as int + 1) =~= samples@.take(i as int).push(samples@[i as int]));
            samples@.take(i as int).lemma_filter_push(samples@[i as int], pred);
        }
        if m.observed_at().is_within_days(now, days) && session_owned_by(
            sessions,
            m.session_key(),
            &owner,
        ) {
            let p: usize = slot_for(&out, m.observed_at());
            let ghost before = out@;
            let copy = m.duplicate();
            out.insert(p, copy);
            proof {
                assert(pred(samples@[i as int]));
                vstd::seq_lib::to_multiset_insert(before, p as int, copy);
                vstd::seq_lib::to_multiset_build(
                    samples@.take(i as int).filter(pred),
                    samples@[i as int],
                );
                assert forall|a: int, b: int| 0 <= a <= b < out@.len() implies (#[trigger] out@[a]).taken_at().at_or_after(
                    (#[trigger] out@[b]).taken_at(),
                ) by {
                    let x = if a < p { before[a] } else if a == p { copy } else { before[a - 1] };
                    let y = if b < p { before[b] } else if b == p { copy } else { before[b - 1] };
                    assert(out@[a] == x);
                    assert(out@[b] == y);
                }
            }
        } else {
            proof {
                assert(!pred(samples@[i as int]));
            }
        }
        i += 1;
    }
    proof {
        assert(samples@.take(samples.len() as int) =~= samples@);
    }
    out
}

} // verus!
