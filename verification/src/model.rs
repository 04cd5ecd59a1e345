//! The records that the recorder stores and hands out.

use vstd::prelude::*;

verus! {

/// Seconds in one day of a trailing window.
pub const SECONDS_PER_DAY: i64 = 86_400;

/// An instant on the UTC time line: whole seconds since the Unix epoch and the
/// nanoseconds past that second.
///
/// Instants are ordered by `secs` first and by `nanos` second; no bound is put
/// on `nanos`, so a leap second may be written with a billion or more.
#[derive(Copy, Debug)]
pub struct Timestamp {
    pub secs: i64,
    pub nanos: u32,
}

impl Clone for Timestamp {
    fn clone(&self) -> (r: Self)
        ensures
            r == *self,
    {
        Timestamp { secs: self.secs, nanos: self.nanos }
    }
}

impl Timestamp {
    /// Whether `self` is the same instant as `other` or a later one.
    pub open spec fn at_or_after(self, other: Timestamp) -> bool {
        self.secs > other.secs || (self.secs == other.secs && self.nanos >= other.nanos)
    }

    /// Whether `self` lies in the trailing window of `days` days that ends at
    /// `now`. Both edges belong to the window: the instant that is exactly
    /// `days` days old is inside, and so is `now` itself. What is older than
    /// the one or later than the other is outside. A negative `days`
    /// describes no window at all.
    pub open spec fn within_days(self, now: Timestamp, days: i32) -> bool {
        &&& days >= 0
        &&& now.at_or_after(self)
        &&& (self.secs + days * SECONDS_PER_DAY > now.secs || (self.secs + days * SECONDS_PER_DAY
            == now.secs && self.nanos >= now.nanos))
    }

    pub fn new(secs: i64, nanos: u32) -> (r: Self)
        ensures
            r.secs == secs,
            r.nanos == nanos,
    {
        Timestamp { secs, nanos }
    }

    /// Compares two instants.
    pub fn is_at_or_after(&self, other: &Timestamp) -> (r: bool)
        ensures
            r == self.at_or_after(*other),
    {
        self.secs > other.secs || (self.secs == other.secs && self.nanos >= other.nanos)
    }

    /// Decides membership in the trailing window of `days` days that ends at `now`.
    pub fn is_within_days(&self, now: &Timestamp, days: i32) -> (r: bool)
        ensures
            r == self.within_days(*now, days),
    {
        if days < 0 || !now.is_at_or_after(self) {
            return false;
        }
        let span: i128 = (days as i128) * 86_400;
        let shifted: i128 = self.secs as i128 + span;
        let edge: i128 = now.secs as i128;
        shifted > edge || (shifted == edge && self.nanos >= now.nanos)
    }
}

/// Where a session was opened from, as resolved from its public address.
#[derive(Debug)]
pub struct Location {
    pub country: String,
    pub city: String,
    pub timezone: String,
    pub ip: String,
}

impl Clone for Location {
    fn clone(&self) -> (r: Self)
        ensures
            r == *self,
    {
        Location {
            country: self.country.clone(),
            city: self.city.clone(),
            timezone: self.timezone.clone(),
            ip: self.ip.clone(),
        }
    }
}

/// A snapshot of the host taken when a session opens.
#[derive(Debug)]
pub struct SystemInfo {
    pub os: String,
    pub os_version: String,
    pub cpu_cores: i32,
    pub memory_total: i64,
    pub memory_available: i64,
    pub python_version: String,
    pub screen_resolution: String,
}

impl Clone for SystemInfo {
    fn clone(&self) -> (r: Self)
        ensures
            r == *self,
    {
        SystemInfo {
            os: self.os.clone(),
            os_version: self.os_version.clone(),
            cpu_cores: self.cpu_cores,
            memory_total: self.memory_total,
            memory_available: self.memory_available,
            python_version: self.python_version.clone(),
            screen_resolution: self.screen_resolution.clone(),
        }
    }
}

/// One bounded interval of a user's activity. The four time counters are in
/// seconds.
#[derive(Debug)]
pub struct UserSession {
    pub session_id: String,
    pub start_time: Timestamp,
    pub user_id: String,
    pub location: Option<Location>,
    pub system_info: SystemInfo,
    pub idle_time: i64,
    pub active_time: i64,
    pub focus_time: i64,
    pub break_time: i64,
}

impl UserSession {
    /// The counters of a session are never negative.
    pub open spec fn counters_valid(&self) -> bool {
        self.idle_time >= 0 && self.active_time >= 0 && self.focus_time >= 0 && self.break_time
            >= 0
    }

    /// A session that has just been opened: all four counters are zero.
    pub open spec fn is_fresh(&self) -> bool {
        self.idle_time == 0 && self.active_time == 0 && self.focus_time == 0 && self.break_time
            == 0
    }
}

impl Clone for UserSession {
    fn clone(&self) -> (r: Self)
        ensures
            r == *self,
    {
        let location = match &self.location {
            Some(l) => Some(l.clone()),
            None => None,
        };
        UserSession {
            session_id: self.session_id.clone(),
            start_time: self.start_time,
            user_id: self.user_id.clone(),
            location,
            system_info: self.system_info.clone(),
            idle_time: self.idle_time,
            active_time: self.active_time,
            focus_time: self.focus_time,
            break_time: self.break_time,
        }
    }
}

/// One observation of coding activity during a session.
///
/// The three fractions (`keyboard_intensity`, `mouse_intensity`,
/// `test_coverage`) are carried as the 32 bits of their single-precision
/// encoding; the recorder stores and returns them untouched.
#[derive(Debug)]
pub struct DeveloperMetrics {
    pub session_id: String,
    pub timestamp: Timestamp,
    pub coding_time: i64,
    pub lines_written: i32,
    pub errors_encountered: i32,
    pub successful_compilations: i32,
    pub failed_compilations: i32,
    pub debug_time: i64,
    pub keyboard_intensity: u32,
    pub mouse_intensity: u32,
    pub active_files: i32,
    pub test_coverage: u32,
}

impl Clone for DeveloperMetrics {
    fn clone(&self) -> (r: Self)
        ensures
            r == *self,
    {
        DeveloperMetrics {
            session_id: self.session_id.clone(),
            timestamp: self.timestamp,
            coding_time: self.coding_time,
            lines_written: self.lines_written,
            errors_encountered: self.errors_encountered,
            successful_compilations: self.successful_compilations,
            failed_compilations: self.failed_compilations,
            debug_time: self.debug_time,
            keyboard_intensity: self.keyboard_intensity,
            mouse_intensity: self.mouse_intensity,
            active_files: self.active_files,
            test_coverage: self.test_coverage,
        }
    }
}

/// One observation of break and strain patterns during a session.
///
/// `keyboard_intensity` is carried as the 32 bits of its single-precision
/// encoding.
#[derive(Debug)]
pub struct HealthMetrics {
    pub session_id: String,
    pub timestamp: Timestamp,
    pub break_count: i32,
    pub break_duration: i64,
    pub focus_duration: i64,
    pub posture_alerts: i32,
    pub eye_strain_alerts: i32,
    pub keyboard_intensity: u32,
    pub stress_indicators: i32,
}

impl Clone for HealthMetrics {
    fn clone(&self) -> (r: Self)
        ensures
            r == *self,
    {
        HealthMetrics {
            session_id: self.session_id.clone(),
            timestamp: self.timestamp,
            break_count: self.break_count,
            break_duration: self.break_duration,
            focus_duration: self.focus_duration,
            posture_alerts: self.posture_alerts,
            eye_strain_alerts: self.eye_strain_alerts,
            keyboard_intensity: self.keyboard_intensity,
            stress_indicators: self.stress_indicators,
        }
    }
}

/// The kind of a failure of the recorder.
#[derive(Clone, Copy, Debug, PartialEq, Eq, Structural)]
pub enum AnalyticsError {
    /// The store or the geo database could not be brought up.
    Initialization,
    /// The public address is unknown, malformed, or maps to no complete place.
    LocationResolution,
    /// A fact about the host is not available.
    SystemInfo,
    /// The store refused or lost a row.
    Persistence,
}

impl AnalyticsError {
    /// The words for a kind of failure.
    pub open spec fn message_text(self) -> Seq<char> {
        match self {
            AnalyticsError::Initialization => "analytics could not be initialized: the store or the geo database is unavailable"@,
            AnalyticsError::LocationResolution => "the location of the session could not be resolved"@,
            AnalyticsError::SystemInfo => "the system information of the host is unavailable"@,
            AnalyticsError::Persistence => "the analytics store could not persist the row"@,
        }
    }

    /// Describes the kind of failure in words.
    pub fn message(&self) -> (text: String)
        ensures
            text@ == self.message_text(),
    {
        match self {
            AnalyticsError::Initialization => "analytics could not be initialized: the store or the geo database is unavailable".to_owned(),
            AnalyticsError::LocationResolution => "the location of the session could not be resolved".to_owned(),
            AnalyticsError::SystemInfo => "the system information of the host is unavailable".to_owned(),
            AnalyticsError::Persistence => "the analytics store could not persist the row".to_owned(),
        }
    }
}

/// A failure of the recorder as the caller gets it: its kind, and in
/// `detail` what exactly went wrong. Where a call outside the recorder
/// failed, `detail` is what that call said.
#[derive(Debug, PartialEq, Eq)]
pub struct AnalyticsFailure {
    pub kind: AnalyticsError,
    pub detail: String,
}

impl AnalyticsFailure {
    /// The message of a failure: the words for its kind, a colon, and the
    /// detail.
    pub open spec fn message_text(self) -> Seq<char> {
        self.kind.message_text() + ": "@ + self.detail@
    }

    pub fn new(kind: AnalyticsError, detail: String) -> (failure: Self)
        ensures
            failure.kind == kind,
            failure.detail == detail,
    {
        AnalyticsFailure { kind, detail }
    }

    /// Describes the failure to the caller.
    pub fn message(&self) -> (text: String)
        ensures
            text@ == self.message_text(),
    {
        self.kind.message().concat(": ").concat(self.detail.as_str())
    }
}

} // verus!
