//! The system-inventory collaborator: host name, CPU count, memory, uptime
//! and the process list, queried through the `sysinfo` crate.
//!
//! Every value here describes the machine at the moment of the query, so
//! nothing exact can be promised about what comes back; the verified logic
//! is what the library does with the answers — assembling the info payload
//! and breaking the uptime into hours and minutes.

use vstd::prelude::*;
use sysinfo::ProcessExt;
use sysinfo::SystemExt;
use crate::actions::Platform;
use crate::errors::DispatchError;

verus! {

#[verifier::external_type_specification]
#[verifier::external_body]
pub struct ExSystem(sysinfo::System);

/// Relies on sysinfo::SystemExt::new_all: a snapshot of the whole system,
/// refreshed once at construction. What it holds depends on the machine.
#[verifier::external_body]
fn system_snapshot() -> sysinfo::System {
    sysinfo::System::new_all()
}

/// Relies on sysinfo::SystemExt::host_name: the machine's host name, if the
/// system exposes one.
#[verifier::external_body]
fn query_host_name(sys: &sysinfo::System) -> Option<String> {
    sys.host_name()
}

/// Relies on sysinfo::SystemExt::cpus: the list of logical CPUs; only its
/// length is consumed.
#[verifier::external_body]
fn query_cpu_count(sys: &sysinfo::System) -> usize {
    sys.cpus().len()
}

/// Relies on sysinfo::SystemExt::total_memory: the RAM size in bytes.
#[verifier::external_body]
fn query_total_memory(sys: &sysinfo::System) -> u64 {
    sys.total_memory()
}

/// Relies on sysinfo::SystemExt::used_memory: the RAM in use, in bytes.
#[verifier::external_body]
fn query_used_memory(sys: &sysinfo::System) -> u64 {
    sys.used_memory()
}

/// Relies on sysinfo::SystemExt::uptime: seconds since the system booted.
#[verifier::external_body]
fn query_uptime(sys: &sysinfo::System) -> u64 {
    sys.uptime()
}

/// Relies on sysinfo::SystemExt::processes: one line per running process,
/// `pid: name`. The map is keyed by a process hasher, so the order of the
/// lines is unspecified.
#[verifier::external_body]
fn query_processes(sys: &sysinfo::System) -> Vec<String> {
    sys.processes().iter().map(|(pid, process)| format!("{}: {}", pid, process.name())).collect()
}

/// The name the platform reports for itself in the info payload.
pub open spec fn spec_platform_name(p: Platform) -> Seq<char> {
    match p {
        Platform::MacOs => "macos"@,
        Platform::Windows => "windows"@,
        Platform::Linux => "linux"@,
    }
}

/// The info payload's platform name.
pub fn platform_name(p: Platform) -> (r: String)
    ensures
        r@ == spec_platform_name(p),
{
    match p {
        Platform::MacOs => String::from_str("macos"),
        Platform::Windows => String::from_str("windows"),
        Platform::Linux => String::from_str("linux"),
    }
}

/// The system-info payload handed to the caller.
pub struct SystemInfo {
    pub os: String,
    pub arch: String,
    pub hostname: Option<String>,
    pub cpu_count: usize,
    pub total_memory: u64,
    pub used_memory: u64,
    pub uptime_seconds: u64,
}

/// Assembles the system-info payload: the platform name and architecture
/// are fixed by the caller's environment; everything else is queried from
/// the inventory snapshot and depends on the machine.
pub fn get_system_info(platform: Platform, arch: String) -> (r: SystemInfo)
    ensures
        r.os@ == spec_platform_name(platform),
        r.arch@ == arch@,
{
    let sys = system_snapshot();
    SystemInfo {
        os: platform_name(platform),
        arch,
        hostname: query_host_name(&sys),
        cpu_count: query_cpu_count(&sys),
        total_memory: query_total_memory(&sys),
        used_memory: query_used_memory(&sys),
        uptime_seconds: query_uptime(&sys),
    }
}

/// One `pid: name` line per running process, in unspecified order. Listing
/// never fails: an empty machine simply lists nothing.
pub fn get_running_processes() -> (r: Result<Vec<String>, DispatchError>)
    ensures
        r is Ok,
{
    let sys = system_snapshot();
    Ok(query_processes(&sys))
}

/// Breaks an uptime in seconds into whole hours and the remaining whole
/// minutes (always below sixty).
pub fn format_uptime(uptime: u64) -> (r: (u64, u64))
    ensures
        r.0 == uptime / 3600,
        r.1 == (uptime % 3600) / 60,
        r.1 < 60,
{
    let hours = uptime / 3600;
    let minutes = (uptime % 3600) / 60;
    (hours, minutes)
}

/// Queries the system uptime and breaks it into hours and minutes: seconds,
/// whole hours and remaining whole minutes, in that order.
pub fn get_system_uptime() -> (r: (u64, u64, u64))
    ensures
        r.1 == r.0 / 3600,
        r.2 == (r.0 % 3600) / 60,
        r.2 < 60,
{
    let sys = system_snapshot();
    let uptime = query_uptime(&sys);
    let (hours, minutes) = format_uptime(uptime);
    (uptime, hours, minutes)
}

} // verus!
