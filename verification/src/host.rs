//! The snapshot of the host that a session carries.

use crate::model::{AnalyticsError, AnalyticsFailure, SystemInfo};
use vstd::prelude::*;

verus! {

/// The error type of the `sys_info` crate, carried through unread.
#[verifier::external_type_specification]
#[verifier::external_body]
pub struct ExSysInfoError(sys_info::Error);

/// `num_cpus::get`: the number of logical cores available to this process.
/// Its documentation promises a count of at least one; nothing else is
/// claimed of it.
pub assume_specification[ num_cpus::get ]() -> (n: usize)
    ensures
        n >= 1,
;

/// `sys_info::os_release`: the release of the running operating system, or
/// the crate's error. Nothing is claimed of either.
pub assume_specification[ sys_info::os_release ]() -> (r: Result<String, sys_info::Error>);

/// `sys_info::mem_info`: the total and the free physical memory that the
/// crate reports, in that order, or the crate's error. Nothing is claimed of
/// the numbers.
#[verifier::external_body]
fn memory_figures() -> (r: Result<(u64, u64), sys_info::Error>) {
    sys_info::mem_info().map(|m| (m.total, m.free))
}

/// `Display` of `sys_info::Error`: the words in which the crate describes
/// its error. Nothing is claimed of them.
#[verifier::external_body]
fn probe_failure_text(error: &sys_info::Error) -> (text: String) {
    error.to_string()
}

/// The facts about the host that the caller has to bring: the name of the
/// operating system, and the version of the scripting runtime and the screen
/// resolution where they could be found out.
#[derive(Debug)]
pub struct HostProbe {
    pub os: String,
    pub python_version: Option<String>,
    pub screen_resolution: Option<String>,
}

/// Whether every fact of a snapshot is at hand and fits its field: the
/// release of the operating system, a core count that an `i32` holds, the two
/// memory figures within `i64`, the runtime's version and the screen
/// resolution.
pub open spec fn host_facts_complete(
    host: HostProbe,
    os_version: Result<String, String>,
    cores: usize,
    memory: Result<(u64, u64), String>,
) -> bool {
    &&& os_version is Ok
    &&& cores <= i32::MAX
    &&& memory matches Ok((total, free)) && total <= i64::MAX && free <= i64::MAX
    &&& host.python_version is Some
    &&& host.screen_resolution is Some
}

/// What is wrong with the first fact of a snapshot that is missing or does
/// not fit, the facts being taken in the order of the snapshot's fields:
/// release, core count, total memory, free memory, runtime version, screen
/// resolution. Where a probe of the operating system failed, it is what the
/// probe said.
pub open spec fn host_failure_text(
    host: HostProbe,
    os_version: Result<String, String>,
    cores: usize,
    memory: Result<(u64, u64), String>,
) -> Seq<char> {
    if os_version is Err {
        os_version->Err_0@
    } else if cores > i32::MAX {
        "the core count does not fit the snapshot"@
    } else if memory is Err {
        memory->Err_0@
    } else if memory->Ok_0.0 > i64::MAX {
        "the total memory does not fit the snapshot"@
    } else if memory->Ok_0.1 > i64::MAX {
        "the free memory does not fit the snapshot"@
    } else if host.python_version is None {
        "the version of the scripting runtime is unknown"@
    } else {
        "the screen resolution is unknown"@
    }
}

/// Builds the snapshot from the facts that were gathered; a probe of the
/// operating system that failed comes as `Err` with what it said. The
/// snapshot fails exactly when a fact is missing or does not fit its field,
/// and the failure then carries what is wrong with the first such fact.
pub fn compose_system_info(
    host: HostProbe,
    os_version: Result<String, String>,
    cores: usize,
    memory: Result<(u64, u64), String>,
) -> (r: Result<SystemInfo, AnalyticsFailure>)
    ensures
        host_facts_complete(host, os_version, cores, memory) <==> r is Ok,
        r matches Err(failure) ==> failure.kind == AnalyticsError::SystemInfo && failure.detail@
            == host_failure_text(host, os_version, cores, memory),
        r matches Ok(info) ==> {
            &&& info.os == host.os
            &&& Ok::<String, String>(info.os_version) == os_version
            &&& info.cpu_cores == cores
            &&& memory == Ok::<(u64, u64), String>(
                (info.memory_total as u64, info.memory_available as u64),
            )
            &&& info.memory_total >= 0
            &&& info.memory_available >= 0
            &&& Some(info.python_version) == host.python_version
            &&& Some(info.screen_resolution) == host.screen_resolution
        },
{
    let HostProbe { os, python_version, screen_resolution } = host;
    let os_version = match os_version {
        Ok(release) => release,
        Err(said) => {
            return Err(AnalyticsFailure::new(AnalyticsError::SystemInfo, said));
        },
    };
    if cores > 0x7fff_ffff {
        return Err(
            AnalyticsFailure::new(
                AnalyticsError::SystemInfo,
                "the core count does not fit the snapshot".to_owned(),
            ),
        );
    }
    let (total, free) = match memory {
        Ok(figures) => figures,
        Err(said) => {
            return Err(AnalyticsFailure::new(AnalyticsError::SystemInfo, said));
        },
    };
    if total > 0x7fff_ffff_ffff_ffff {
        return Err(
            AnalyticsFailure::new(
                AnalyticsError::SystemInfo,
                "the total memory does not fit the snapshot".to_owned(),
            ),
        );
    }
    if free > 0x7fff_ffff_ffff_ffff {
        return Err(
            AnalyticsFailure::new(
                AnalyticsError::SystemInfo,
                "the free memory does not fit the snapshot".to_owned(),
            ),
        );
    }
    let python_version = match python_version {
        Some(version) => version,
        None => {
            return Err(
                AnalyticsFailure::new(
                    AnalyticsError::SystemInfo,
                    "the version of the scripting runtime is unknown".to_owned(),
                ),
            );
        },
    };
    let screen_resolution = match screen_resolution {
        Some(resolution) => resolution,
        None => {
            return Err(
                AnalyticsFailure::new(
                    AnalyticsError::SystemInfo,
                    "the screen resolution is unknown".to_owned(),
                ),
            );
        },
    };
    Ok(
        SystemInfo {
            os,
            os_version,
            cpu_cores: cores as i32,
            memory_total: total as i64,
            memory_available: free as i64,
            python_version,
            screen_resolution,
        },
    )
}

/// Gathers the snapshot of this host: asks the operating system for its
/// release, the core count and the memory figures, and adds what the caller
/// brought. What the operating system answers is not known beforehand, so the
/// contract states what holds of every answer; `compose_system_info` says
/// what is built from each, and which words a failure carries.
pub fn get_system_info(host: HostProbe) -> (r: Result<SystemInfo, AnalyticsFailure>)
    ensures
        r matches Err(failure) ==> failure.kind == AnalyticsError::SystemInfo,
        host.python_version is None || host.screen_resolution is None ==> r is Err,
        r matches Ok(info) ==> {
            &&& info.os == host.os
            &&& info.cpu_cores >= 1
            &&& info.memory_total >= 0
            &&& info.memory_available >= 0
            &&& Some(info.python_version) == host.python_version
            &&& Some(info.screen_resolution) == host.screen_resolution
        },
{
    let os_version = match sys_info::os_release() {
        Ok(release) => Ok(release),
        Err(e) => Err(probe_failure_text(&e)),
    };
    let cores: usize = num_cpus::get();
    let memory = match memory_figures() {
        Ok(figures) => Ok(figures),
        Err(e) => Err(probe_failure_text(&e)),
    };
    compose_system_info(host, os_version, cores, memory)
}

} // verus!
