//! The recorder: it opens sessions, takes samples in and answers trend
//! queries.

use crate::geo::{locate, location_failure_text, location_known, place_of, GeoLookup};
use crate::host::{get_system_info, HostProbe};
use crate::model::{
    AnalyticsError, AnalyticsFailure, DeveloperMetrics, HealthMetrics, Location, SystemInfo,
    Timestamp, UserSession,
};
use crate::store::{has_session, invalid_table_text, refused_session_text, valid_sessions, Store};
use crate::trend::is_trend;
use vstd::prelude::*;

verus! {

/// `uuid::Uuid::new_v4` and its `Display`: a random identifier, written in
/// the hyphenated form, which has 36 characters. Which identifier comes out
/// is left open; two calls may or may not differ. The call does not return
/// on a host whose random source fails.
#[verifier::external_body]
fn fresh_session_id() -> (id: String)
    ensures
        id@.len() == 36,
{
    uuid::Uuid::new_v4().to_string()
}

/// `chrono::Utc::now`, read as whole seconds since the Unix epoch
/// (`timestamp`) and the nanoseconds past them (`timestamp_subsec_nanos`).
/// Nothing is claimed of the instant. The call does not return on a host
/// whose clock stands before the epoch.
#[verifier::external_body]
fn current_time() -> (now: Timestamp) {
    let now = chrono::Utc::now();
    Timestamp { secs: now.timestamp(), nanos: now.timestamp_subsec_nanos() }
}

/// What the durable store reported for the one row it was asked to write:
/// that it is stored, or that the write failed, with what the store said.
#[derive(Debug)]
pub enum WriteOutcome {
    Stored,
    Failed(String),
}

/// The rows that a store held when it was opened.
#[derive(Debug)]
pub struct StoredRows {
    pub sessions: Vec<UserSession>,
    pub developer_metrics: Vec<DeveloperMetrics>,
    pub health_metrics: Vec<HealthMetrics>,
}

impl StoredRows {
    /// The rows of a store that has just been created.
    pub fn empty() -> (r: Self)
        ensures
            r.sessions@ == Seq::<UserSession>::empty(),
            r.developer_metrics@ == Seq::<DeveloperMetrics>::empty(),
            r.health_metrics@ == Seq::<HealthMetrics>::empty(),
    {
        StoredRows {
            sessions: Vec::new(),
            developer_metrics: Vec::new(),
            health_metrics: Vec::new(),
        }
    }
}

/// Both trends of one user, as one answer.
#[derive(Debug)]
pub struct UserAnalytics {
    pub usage_trends: Vec<DeveloperMetrics>,
    pub health_trends: Vec<HealthMetrics>,
}

/// Whether `session` is the session that opening one for `user_id` yields
/// from the given address and lookup: it belongs to the user, all its
/// counters are zero, and its location is the place that the lookup resolves
/// to, with the address beside it.
pub open spec fn opened_for(
    session: UserSession,
    user_id: Seq<char>,
    public_ip: Option<String>,
    lookup: GeoLookup,
) -> bool {
    &&& session.user_id@ == user_id
    &&& session.is_fresh()
    &&& session.location matches Some(location)
    &&& Some(location.ip) == public_ip
    &&& place_of(lookup) == Some((location.country@, location.city@, location.timezone@))
}

/// What holds of every session that is composed for `user_id` on this host:
/// it is opened for the user from the address and the lookup, its identifier
/// has the 36 characters of the hyphenated form, and its snapshot holds what
/// the caller brought, at least one core and memory figures that are not
/// negative.
pub open spec fn prepared_for(
    session: UserSession,
    user_id: Seq<char>,
    public_ip: Option<String>,
    lookup: GeoLookup,
    host: HostProbe,
) -> bool {
    &&& opened_for(session, user_id, public_ip, lookup)
    &&& session.session_id@.len() == 36
    &&& session.system_info.os == host.os
    &&& session.system_info.cpu_cores >= 1
    &&& session.system_info.memory_total >= 0
    &&& session.system_info.memory_available >= 0
    &&& Some(session.system_info.python_version) == host.python_version
    &&& Some(session.system_info.screen_resolution) == host.screen_resolution
}

/// The session that opens for a user at an instant, with the location and
/// the host's snapshot that were gathered for it. Its counters start at zero.
pub fn open_session(
    session_id: String,
    start_time: Timestamp,
    user_id: &str,
    location: Location,
    system_info: SystemInfo,
) -> (session: UserSession)
    ensures
        session.session_id == session_id,
        session.start_time == start_time,
        session.user_id@ == user_id@,
        session.location == Some(location),
        session.system_info == system_info,
        session.is_fresh(),
{
    UserSession {
        session_id,
        start_time,
        user_id: user_id.to_owned(),
        location: Some(location),
        system_info,
        idle_time: 0,
        active_time: 0,
        focus_time: 0,
        break_time: 0,
    }
}

/// Composes the session that is to be opened for `user_id`, without
/// recording it: draws a new identifier, reads the clock, resolves the
/// location and then gathers the host's snapshot. A missing or unresolved
/// address fails first. The identifier, the instant and the operating
/// system's answers are not known beforehand: the contract states what holds
/// of every outcome, and `locate`, `compose_system_info` and `open_session`
/// say what is built from each.
pub fn prepare_session(
    user_id: &str,
    public_ip: Option<String>,
    lookup: &GeoLookup,
    host: HostProbe,
) -> (r: Result<UserSession, AnalyticsFailure>)
    ensures
        !location_known(public_ip, *lookup) ==> r is Err,
        location_known(public_ip, *lookup) && (host.python_version is None
            || host.screen_resolution is None) ==> r is Err,
        r matches Err(failure) ==> if location_known(public_ip, *lookup) {
            failure.kind == AnalyticsError::SystemInfo
        } else {
            failure.kind == AnalyticsError::LocationResolution && failure.detail@
                == location_failure_text(public_ip, *lookup)
        },
        r matches Ok(session) ==> prepared_for(session, user_id@, public_ip, *lookup, host),
{
    let session_id = fresh_session_id();
    let start_time = current_time();
    let location = match locate(public_ip, lookup) {
        Ok(location) => location,
        Err(e) => {
            return Err(e);
        },
    };
    let system_info = match get_system_info(host) {
        Ok(info) => info,
        Err(e) => {
            return Err(e);
        },
    };
    Ok(open_session(session_id, start_time, user_id, location, system_info))
}

/// Why a recorder does not come up: what the store said when it could not
/// be opened, or that its session rows are no valid table, or what was said
/// when the geo database could not be loaded, in this order.
pub open spec fn initialization_failure_text(
    rows: Result<StoredRows, String>,
    geo_database: Result<(), String>,
) -> Seq<char> {
    match rows {
        Err(said) => said@,
        Ok(held) => if !valid_sessions(held.sessions@) {
            invalid_table_text()
        } else {
            match geo_database {
                Err(said) => said@,
                Ok(_) => Seq::<char>::empty(),
            }
        },
    }
}

/// Why the rows of a read are not taken over: what the store said when the
/// read failed, or that the session rows are no valid table.
pub open spec fn read_failure_text(rows: Result<StoredRows, String>) -> Seq<char> {
    match rows {
        Err(said) => said@,
        Ok(_) => invalid_table_text(),
    }
}

/// The recorder. It owns the three tables; everything it hands out is a copy.
pub struct AnalyticsManager {
    store: Store,
}

impl AnalyticsManager {
    /// Well-formedness: the tables are well-formed. `new` establishes it and
    /// every method keeps it.
    pub closed spec fn wf(&self) -> bool {
        self.store.wf()
    }

    /// The session table, oldest insertion first.
    pub closed spec fn sessions(&self) -> Seq<UserSession> {
        self.store.sessions()
    }

    /// The activity samples, oldest insertion first.
    pub closed spec fn developer_metrics(&self) -> Seq<DeveloperMetrics> {
        self.store.developer_metrics()
    }

    /// The health samples, oldest insertion first.
    pub closed spec fn health_metrics(&self) -> Seq<HealthMetrics> {
        self.store.health_metrics()
    }

    /// In a well-formed recorder no two sessions share an identifier and no
    /// counter is negative.
    pub proof fn wf_means_valid_sessions(&self)
        ensures
            self.wf() == valid_sessions(self.sessions()),
    {
        self.store.wf_means_valid_sessions();
    }

    /// Brings the recorder up on what opening its store and loading the geo
    /// database ended in: the rows that the store held, none for a store that
    /// was just created, or what the store said when it could not be opened;
    /// and for the geo database nothing, or what was said when it could not
    /// be loaded. The recorder comes up exactly when the store was opened,
    /// its session rows form a valid table and the geo database was loaded.
    /// Otherwise the failure carries what is wrong with the first of these.
    pub fn new(rows: Result<StoredRows, String>, geo_database: Result<(), String>) -> (r: Result<
        Self,
        AnalyticsFailure,
    >)
        ensures
            r is Ok <==> rows is Ok && valid_sessions(rows->Ok_0.sessions@) && geo_database is Ok,
            r matches Err(failure) ==> failure.kind == AnalyticsError::Initialization
                && failure.detail@ == initialization_failure_text(rows, geo_database),
            r matches Ok(manager) ==> {
                &&& manager.wf()
                &&& manager.sessions() == rows->Ok_0.sessions@
                &&& manager.developer_metrics() == rows->Ok_0.developer_metrics@
                &&& manager.health_metrics() == rows->Ok_0.health_metrics@
            },
    {
        let rows = match rows {
            Ok(rows) => rows,
            Err(said) => {
                return Err(AnalyticsFailure::new(AnalyticsError::Initialization, said));
            },
        };
        let store = match Store::restore(
            rows.sessions,
            rows.developer_metrics,
            rows.health_metrics,
        ) {
            Ok(store) => store,
            Err(e) => {
                return Err(e);
            },
        };
        match geo_database {
            Ok(()) => Ok(AnalyticsManager { store }),
            Err(said) => Err(AnalyticsFailure::new(AnalyticsError::Initialization, said)),
        }
    }

    /// Takes over what the store holds now, given what reading it ended in:
    /// its rows, or what the store said when the read failed. Rows whose
    /// sessions form a valid table replace the tables of the recorder; a
    /// failed read, or rows that are no valid table, change nothing and the
    /// failure names the store.
    pub fn reload(&mut self, rows: Result<StoredRows, String>) -> (r: Result<(), AnalyticsFailure>)
        requires
            old(self).wf(),
        ensures
            final(self).wf(),
            r is Ok <==> rows is Ok && valid_sessions(rows->Ok_0.sessions@),
            r is Ok ==> {
                &&& final(self).sessions() == rows->Ok_0.sessions@
                &&& final(self).developer_metrics() == rows->Ok_0.developer_metrics@
                &&& final(self).health_metrics() == rows->Ok_0.health_metrics@
            },
            r matches Err(failure) ==> failure.kind == AnalyticsError::Persistence
                && failure.detail@ == read_failure_text(rows),
            r is Err ==> {
                &&& final(self).sessions() == old(self).sessions()
                &&& final(self).developer_metrics() == old(self).developer_metrics()
                &&& final(self).health_metrics() == old(self).health_metrics()
            },
    {
        let rows = match rows {
            Ok(rows) => rows,
            Err(said) => {
                return Err(AnalyticsFailure::new(AnalyticsError::Persistence, said));
            },
        };
        match Store::restore(rows.sessions, rows.developer_metrics, rows.health_metrics) {
            Ok(store) => {
                self.store = store;
                Ok(())
            },
            Err(e) => Err(AnalyticsFailure::new(AnalyticsError::Persistence, e.detail)),
        }
    }

    /// The number of recorded sessions.
    pub fn session_count(&self) -> (n: usize)
        ensures
            n == self.sessions().len(),
    {
        self.store.session_count()
    }

    /// The number of recorded activity samples.
    pub fn developer_metrics_count(&self) -> (n: usize)
        ensures
            n == self.developer_metrics().len(),
    {
        self.store.developer_metrics_count()
    }

    /// The number of recorded health samples.
    pub fn health_metrics_count(&self) -> (n: usize)
        ensures
            n == self.health_metrics().len(),
    {
        self.store.health_metrics_count()
    }

    /// Whether a session with this identifier is recorded.
    pub fn contains_session(&self, session_id: &str) -> (r: bool)
        ensures
            r == has_session(self.sessions(), session_id@),
    {
        self.store.contains_session(session_id)
    }

    /// Records a session, given what the durable store reported for its row.
    /// The session enters the table exactly when the row was stored, its
    /// counters are not negative and its identifier is new to the table.
    /// Otherwise nothing changes, and the failure names the store and carries
    /// what the store said, or else why the table refuses the session.
    pub fn save_session(&mut self, session: UserSession, outcome: WriteOutcome) -> (r: Result<
        (),
        AnalyticsFailure,
    >)
        requires
            old(self).wf(),
        ensures
            final(self).wf(),
            final(self).developer_metrics() == old(self).developer_metrics(),
            final(self).health_metrics() == old(self).health_metrics(),
            r is Ok <==> outcome is Stored && session.counters_valid() && !has_session(
                old(self).sessions(),
                session.session_id@,
            ),
            r is Ok ==> final(self).sessions() == old(self).sessions().push(session),
            r matches Err(failure) ==> failure.kind == AnalyticsError::Persistence
                && failure.detail@ == (match outcome {
                WriteOutcome::Failed(said) => said@,
                WriteOutcome::Stored => refused_session_text(session),
            }),
            r is Err ==> final(self).sessions() == old(self).sessions(),
    {
        match outcome {
            WriteOutcome::Stored => self.store.insert_session(session),
            WriteOutcome::Failed(said) => Err(
                AnalyticsFailure::new(AnalyticsError::Persistence, said),
            ),
        }
    }

    /// Opens a session for `user_id` and records it in the tables of this
    /// recorder. The steps fail independently and in this order: the address
    /// and its location, the host's snapshot, the table. Whatever fails,
    /// no session is recorded. The host's answers are not known beforehand
    /// and the identifier is drawn at random, so that the snapshot is had and
    /// the table accepts the session cannot be promised; `compose_system_info`
    /// and `save_session` say when they are.
    pub fn start_session(
        &mut self,
        user_id: &str,
        public_ip: Option<String>,
        lookup: &GeoLookup,
        host: HostProbe,
    ) -> (r: Result<UserSession, AnalyticsFailure>)
        requires
            old(self).wf(),
        ensures
            final(self).wf(),
            final(self).developer_metrics() == old(self).developer_metrics(),
            final(self).health_metrics() == old(self).health_metrics(),
            !location_known(public_ip, *lookup) ==> r is Err,
            location_known(public_ip, *lookup) && (host.python_version is None
                || host.screen_resolution is None) ==> r is Err && r->Err_0.kind
                == AnalyticsError::SystemInfo,
            r matches Err(failure) ==> if location_known(public_ip, *lookup) {
                failure.kind == AnalyticsError::SystemInfo || failure.kind
                    == AnalyticsError::Persistence
            } else {
                failure.kind == AnalyticsError::LocationResolution && failure.detail@
                    == location_failure_text(public_ip, *lookup)
            },
            r is Err ==> final(self).sessions() == old(self).sessions(),
            r matches Ok(session) ==> {
                &&& final(self).sessions() == old(self).sessions().push(session)
                &&& !has_session(old(self).sessions(), session.session_id@)
                &&& prepared_for(session, user_id@, public_ip, *lookup, host)
            },
    {
        let session = match prepare_session(user_id, public_ip, lookup, host) {
            Ok(session) => session,
            Err(e) => {
                return Err(e);
            },
        };
        match self.save_session(session.clone(), WriteOutcome::Stored) {
            Ok(()) => Ok(session),
            Err(e) => Err(e),
        }
    }

    /// Takes an activity sample in, given what the durable store reported
    /// for its row. A stored sample is appended; a failed write drops it, and
    /// the failure carries what the store said. Whether the session it
    /// refers to exists is not looked at.
    pub fn save_developer_metrics(&mut self, metrics: DeveloperMetrics, outcome: WriteOutcome) -> (r:
        Result<(), AnalyticsFailure>)
        ensures
            final(self).wf() == old(self).wf(),
            final(self).sessions() == old(self).sessions(),
            final(self).health_metrics() == old(self).health_metrics(),
            r is Ok <==> outcome is Stored,
            r is Ok ==> final(self).developer_metrics() == old(self).developer_metrics().push(
                metrics,
            ),
            r matches Err(failure) ==> failure.kind == AnalyticsError::Persistence
                && outcome == WriteOutcome::Failed(failure.detail),
            r is Err ==> final(self).developer_metrics() == old(self).developer_metrics(),
    {
        match outcome {
            WriteOutcome::Stored => {
                self.store.insert_developer_metrics(metrics);
                Ok(())
            },
            WriteOutcome::Failed(said) => Err(
                AnalyticsFailure::new(AnalyticsError::Persistence, said),
            ),
        }
    }

    /// Takes a health sample in, given what the durable store reported for
    /// its row. A stored sample is appended; a failed write drops it, and the
    /// failure carries what the store said. Whether the session it refers to
    /// exists is not looked at.
    pub fn save_health_metrics(&mut self, metrics: HealthMetrics, outcome: WriteOutcome) -> (r:
        Result<(), AnalyticsFailure>)
        ensures
            final(self).wf() == old(self).wf(),
            final(self).sessions() == old(self).sessions(),
            final(self).developer_metrics() == old(self).developer_metrics(),
            r is Ok <==> outcome is Stored,
            r is Ok ==> final(self).health_metrics() == old(self).health_metrics().push(metrics),
            r matches Err(failure) ==> failure.kind == AnalyticsError::Persistence
                && outcome == WriteOutcome::Failed(failure.detail),
            r is Err ==> final(self).health_metrics() == old(self).health_metrics(),
    {
        match outcome {
            WriteOutcome::Stored => {
                self.store.insert_health_metrics(metrics);
                Ok(())
            },
            WriteOutcome::Failed(said) => Err(
                AnalyticsFailure::new(AnalyticsError::Persistence, said),
            ),
        }
    }

    /// The activity trend of `user_id` as it stands at `now`: the samples
    /// of the user's sessions within the last `days` days, most recent first.
    pub fn usage_trends_at(&self, user_id: &str, now: &Timestamp, days: i32) -> (out: Vec<
        DeveloperMetrics,
    >)
        ensures
            is_trend(out@, self.sessions(), self.developer_metrics(), user_id@, *now, days),
    {
        self.store.usage_trends(user_id, now, days)
    }

    /// The health trend of `user_id` as it stands at `now`: the samples of
    /// the user's sessions within the last `days` days, most recent first.
    pub fn health_trends_at(&self, user_id: &str, now: &Timestamp, days: i32) -> (out: Vec<
        HealthMetrics,
    >)
        ensures
            is_trend(out@, self.sessions(), self.health_metrics(), user_id@, *now, days),
    {
        self.store.health_trends(user_id, now, days)
    }

    /// The activity trend of `user_id` over the last `days` days, as it
    /// stands when the clock is read. The instant is not known beforehand:
    /// the answer is the trend at some instant.
    pub fn get_usage_trends(&self, user_id: &str, days: i32) -> (out: Vec<DeveloperMetrics>)
        ensures
            exists|now: Timestamp| #[trigger]
                is_trend(out@, self.sessions(), self.developer_metrics(), user_id@, now, days),
    {
        let now = current_time();
        let out = self.usage_trends_at(user_id, &now, days);
        proof {
            assert(is_trend(out@, self.sessions(), self.developer_metrics(), user_id@, now, days));
        }
        out
    }

    /// The health trend of `user_id` over the last `days` days, as it stands
    /// when the clock is read. The instant is not known beforehand: the
    /// answer is the trend at some instant.
    pub fn get_health_trends(&self, user_id: &str, days: i32) -> (out: Vec<HealthMetrics>)
        ensures
            exists|now: Timestamp| #[trigger]
                is_trend(out@, self.sessions(), self.health_metrics(), user_id@, now, days),
    {
        let now = current_time();
        let out = self.health_trends_at(user_id, &now, days);
        proof {
            assert(is_trend(out@, self.sessions(), self.health_metrics(), user_id@, now, days));
        }
        out
    }

    /// Both trends of `user_id` as they stand at `now`.
    pub fn user_analytics_at(&self, user_id: &str, now: &Timestamp, days: i32) -> (out:
        UserAnalytics)
        ensures
            is_trend(
                out.usage_trends@,
                self.sessions(),
                self.developer_metrics(),
                user_id@,
                *now,
                days,
            ),
            is_trend(
                out.health_trends@,
                self.sessions(),
                self.health_metrics(),
                user_id@,
                *now,
                days,
            ),
    {
        let usage_trends = self.usage_trends_at(user_id, now, days);
        let health_trends = self.health_trends_at(user_id, now, days);
        UserAnalytics { usage_trends, health_trends }
    }

    /// Both trends of `user_id` over the last `days` days. The clock is read
    /// once for each, so each is the trend at some instant.
    pub fn get_user_analytics(&self, user_id: &str, days: i32) -> (out: UserAnalytics)
        ensures
            exists|now: Timestamp| #[trigger]
                is_trend(
                    out.usage_trends@,
                    self.sessions(),
                    self.developer_metrics(),
                    user_id@,
                    now,
                    days,
                ),
            exists|now: Timestamp| #[trigger]
                is_trend(
                    out.health_trends@,
                    self.sessions(),
                    self.health_metrics(),
                    user_id@,
                    now,
                    days,
                ),
    {
        let usage_trends = self.get_usage_trends(user_id, days);
        let health_trends = self.get_health_trends(user_id, days);
        let out = UserAnalytics { usage_trends, health_trends };
        proof {
            let first = choose|now: Timestamp| #[trigger]
                is_trend(
                    out.usage_trends@,
                    self.sessions(),
                    self.developer_metrics(),
                    user_id@,
                    now,
                    days,
                );
            let second = choose|now: Timestamp| #[trigger]
                is_trend(
                    out.health_trends@,
                    self.sessions(),
                    self.health_metrics(),
                    user_id@,
                    now,
                    days,
                );
            assert(is_trend(
                out.usage_trends@,
                self.sessions(),
                self.developer_metrics(),
                user_id@,
                first,
                days,
            ));
            assert(is_trend(
                out.health_trends@,
                self.sessions(),
                self.health_metrics(),
                user_id@,
                second,
                days,
            ));
        }
        out
    }
}

} // verus!
