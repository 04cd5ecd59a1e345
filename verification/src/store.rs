//! The three tables of the recorder: sessions, activity samples and health
//! samples.

use crate::model::{
    AnalyticsError, AnalyticsFailure, DeveloperMetrics, HealthMetrics, Timestamp, UserSession,
};
use crate::trend::{is_trend, trend};
use vstd::prelude::*;

verus! {

/// No two sessions of the table share an identifier.
pub open spec fn distinct_ids(sessions: Seq<UserSession>) -> bool {
    forall|i: int, j: int|
        0 <= i < j < sessions.len() ==> (#[trigger] sessions[i]).session_id@ != (
        #[trigger] sessions[j]).session_id@
}

/// Every session of the table has counters that are not negative.
pub open spec fn sound_counters(sessions: Seq<UserSession>) -> bool {
    forall|i: int| 0 <= i < sessions.len() ==> (#[trigger] sessions[i]).counters_valid()
}

/// Whether the table holds a session with this identifier.
pub open spec fn has_session(sessions: Seq<UserSession>, session_id: Seq<char>) -> bool {
    exists|i: int| 0 <= i < sessions.len() && (#[trigger] sessions[i]).session_id@ == session_id
}

/// What a session table must satisfy.
pub open spec fn valid_sessions(sessions: Seq<UserSession>) -> bool {
    distinct_ids(sessions) && sound_counters(sessions)
}

/// Why session rows are not taken over.
pub open spec fn invalid_table_text() -> Seq<char> {
    "the stored sessions repeat an identifier or hold a negative counter"@
}

/// Why a table refuses a session: its counters, or else its identifier.
pub open spec fn refused_session_text(session: UserSession) -> Seq<char> {
    if !session.counters_valid() {
        "a counter of the session is negative"@
    } else {
        "a session with this identifier is already recorded"@
    }
}

/// The tables. Rows are only ever appended; the session table never holds
/// two sessions with one identifier.
pub struct Store {
    sessions: Vec<UserSession>,
    developer_metrics: Vec<DeveloperMetrics>,
    health_metrics: Vec<HealthMetrics>,
}

/// Scans the table for an identifier.
pub fn table_has_session(sessions: &Vec<UserSession>, session_id: &String) -> (r: bool)
    ensures
        r == has_session(sessions@, session_id@),
{
    let mut i: usize = 0;
    while i < sessions.len()
        invariant
            i <= sessions.len(),
            forall|k: int| 0 <= k < i ==> (#[trigger] sessions@[k]).session_id@ != session_id@,
        decreases sessions.len() - i,
    {
        if sessions[i].session_id == *session_id {
            return true;
        }
        i += 1;
    }
    false
}

/// Checks a whole session table.
pub fn check_sessions(sessions: &Vec<UserSession>) -> (r: bool)
    ensures
        r == valid_sessions(sessions@),
{
    let mut j: usize = 0;
    while j < sessions.len()
        invariant
            j <= sessions.len(),
            valid_sessions(sessions@.take(j as int)),
        decreases sessions.len() - j,
    {
        let s = &sessions[j];
        if s.idle_time < 0 || s.active_time < 0 || s.focus_time < 0 || s.break_time < 0 {
            return false;
        }
        let mut i: usize = 0;
        while i < j
            invariant
                i <= j,
                j < sessions.len(),
                forall|k: int|
                    0 <= k < i ==> (#[trigger] sessions@[k]).session_id@ != sessions@[j as int].session_id@,
            decreases j - i,
        {
            if sessions[i].session_id == sessions[j].session_id {
                return false;
            }
            i += 1;
        }
        proof {
            let next = sessions@.take(j as int + 1);
            assert forall|a: int, b: int| 0 <= a < b < next.len() implies (#[trigger] next[a]).session_id@
                != (#[trigger] next[b]).session_id@ by {
                if b < j {
                    assert(sessions@.take(j as int)[a] == next[a]);
                    assert(sessions@.take(j as int)[b] == next[b]);
                }
            }
            assert forall|a: int| 0 <= a < next.len() implies (#[trigger] next[a]).counters_valid() by {
                if a < j {
                    assert(sessions@.take(j as int)[a] == next[a]);
                }
            }
        }
        j += 1;
    }
    proof {
        assert(sessions@.take(sessions.len() as int) =~= sessions@);
    }
    true
}

impl Store {
    /// Well-formedness: the session table is valid. Every constructor
    /// establishes it and every method keeps it.
    pub closed spec fn wf(&self) -> bool {
        valid_sessions(self.sessions@)
    }

    /// In a well-formed store identifiers are unique and counters are not
    /// negative.
    pub proof fn wf_means_valid_sessions(&self)
        ensures
            self.wf() == valid_sessions(self.sessions()),
    {
    }

    /// The session table, oldest insertion first.
    pub closed spec fn sessions(&self) -> Seq<UserSession> {
        self.sessions@
    }

    /// The activity samples, oldest insertion first.
    pub closed spec fn developer_metrics(&self) -> Seq<DeveloperMetrics> {
        self.developer_metrics@
    }

    /// The health samples, oldest insertion first.
    pub closed spec fn health_metrics(&self) -> Seq<HealthMetrics> {
        self.health_metrics@
    }

    /// Three empty tables.
    pub fn new() -> (r: Self)
        ensures
            r.wf(),
            r.sessions() == Seq::<UserSession>::empty(),
            r.developer_metrics() == Seq::<DeveloperMetrics>::empty(),
            r.health_metrics() == Seq::<HealthMetrics>::empty(),
    {
        Store { sessions: Vec::new(), developer_metrics: Vec::new(), health_metrics: Vec::new() }
    }

    /// Takes over rows that were recorded earlier. The session rows must form
    /// a valid table; the sample rows are taken as they are.
    pub fn restore(
        sessions: Vec<UserSession>,
        developer_metrics: Vec<DeveloperMetrics>,
        health_metrics: Vec<HealthMetrics>,
    ) -> (r: Result<Self, AnalyticsFailure>)
        ensures
            valid_sessions(sessions@) <==> r is Ok,
            r matches Err(failure) ==> failure.kind == AnalyticsError::Initialization
                && failure.detail@ == invalid_table_text(),
            r matches Ok(store) ==> store.wf() && store.sessions() == sessions@ && store.developer_metrics()
                == developer_metrics@ && store.health_metrics() == health_metrics@,
    {
        if !check_sessions(&sessions) {
            return Err(
                AnalyticsFailure::new(
                    AnalyticsError::Initialization,
                    "the stored sessions repeat an identifier or hold a negative counter".to_owned(),
                ),
            );
        }
        Ok(Store { sessions, developer_metrics, health_metrics })
    }

    pub fn session_count(&self) -> (n: usize)
        ensures
            n == self.sessions().len(),
    {
        self.sessions.len()
    }

    pub fn developer_metrics_count(&self) -> (n: usize)
        ensures
            n == self.developer_metrics().len(),
    {
        self.developer_metrics.len()
    }

    pub fn health_metrics_count(&self) -> (n: usize)
        ensures
            n == self.health_metrics().len(),
    {
        self.health_metrics.len()
    }

    /// Whether a session with this identifier is recorded.
    pub fn contains_session(&self, session_id: &str) -> (r: bool)
        ensures
            r == has_session(self.sessions(), session_id@),
    {
        let key = session_id.to_owned();
        table_has_session(&self.sessions, &key)
    }

    /// Appends a session. A session whose counters are negative, or whose
    /// identifier is already in the table, is refused and the table stays as
    /// it was; the failure says which of the two it was, the counters being
    /// looked at first.
    pub fn insert_session(&mut self, session: UserSession) -> (r: Result<(), AnalyticsFailure>)
        requires
            old(self).wf(),
        ensures
            final(self).wf(),
            final(self).developer_metrics() == old(self).developer_metrics(),
            final(self).health_metrics() == old(self).health_metrics(),
            r is Ok <==> session.counters_valid() && !has_session(
                old(self).sessions(),
                session.session_id@,
            ),
            r is Ok ==> final(self).sessions() == old(self).sessions().push(session),
            r matches Err(failure) ==> failure.kind == AnalyticsError::Persistence
                && failure.detail@ == refused_session_text(session),
            r is Err ==> final(self).sessions() == old(self).sessions(),
    {
        if session.idle_time < 0 || session.active_time < 0 || session.focus_time < 0
            || session.break_time < 0 {
            return Err(
                AnalyticsFailure::new(
                    AnalyticsError::Persistence,
                    "a counter of the session is negative".to_owned(),
                ),
            );
        }
        if table_has_session(&self.sessions, &session.session_id) {
            return Err(
                AnalyticsFailure::new(
                    AnalyticsError::Persistence,
                    "a session with this identifier is already recorded".to_owned(),
                ),
            );
        }
        self.sessions.push(session);
        Ok(())
    }

    /// Appends an activity sample. Whether its session exists is not looked at.
    pub fn insert_developer_metrics(&mut self, metrics: DeveloperMetrics)
        ensures
            final(self).wf() == old(self).wf(),
            final(self).sessions() == old(self).sessions(),
            final(self).health_metrics() == old(self).health_metrics(),
            final(self).developer_metrics() == old(self).developer_metrics().push(metrics),
    {
        self.developer_metrics.push(metrics);
    }

    /// Appends a health sample. Whether its session exists is not looked at.
    pub fn insert_health_metrics(&mut self, metrics: HealthMetrics)
        ensures
            final(self).wf() == old(self).wf(),
            final(self).sessions() == old(self).sessions(),
            final(self).developer_metrics() == old(self).developer_metrics(),
            final(self).health_metrics() == old(self).health_metrics().push(metrics),
    {
        self.health_metrics.push(metrics);
    }

    /// The activity samples of `user_id` within the last `days` days before
    /// `now`, most recent first.
    pub fn usage_trends(&self, user_id: &str, now: &Timestamp, days: i32) -> (out: Vec<
        DeveloperMetrics,
    >)
        ensures
            is_trend(out@, self.sessions(), self.developer_metrics(), user_id@, *now, days),
    {
        trend(&self.sessions, &self.developer_metrics, user_id, now, days)
    }

    /// The health samples of `user_id` within the last `days` days before
    /// `now`, most recent first.
    pub fn health_trends(&self, user_id: &str, now: &Timestamp, days: i32) -> (out: Vec<
        HealthMetrics,
    >)
        ensures
            is_trend(out@, self.sessions(), self.health_metrics(), user_id@, *now, days),
    {
        trend(&self.sessions, &self.health_metrics, user_id, now, days)
    }
}

} // verus!
