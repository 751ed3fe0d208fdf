//! Facts about the host platform that the runtime helpers report.
//!
//! Which platform runs, and what the environment holds, is read by the caller
//! and handed in; what the operating system reports is queried through
//! sysinfo. These functions decide what to report from it.

use vstd::prelude::*;
use crate::data::CError;

verus! {

/// The platform families whose conventions differ.
#[derive(Clone, Copy, Debug, PartialEq, Eq, Structural)]
pub enum CPlatform {
    Windows,
    /// Linux, macOS and the other Unix-like systems.
    Unix,
}

/// What is reported where the environment does not tell.
pub open spec fn undetermined() -> Seq<char> {
    "UNDETERMINED"@
}

/// The line terminator of `platform`.
pub fn runtime_newline(platform: CPlatform) -> (r: String)
    ensures
        r@ == (if platform == CPlatform::Windows { "\r\n"@ } else { "\n"@ }),
{
    match platform {
        CPlatform::Windows => String::from_str("\r\n"),
        CPlatform::Unix => String::from_str("\n"),
    }
}

/// The path separator of `platform`.
pub fn runtime_path_separator(platform: CPlatform) -> (r: String)
    ensures
        r@ == (if platform == CPlatform::Windows { "\\"@ } else { "/"@ }),
{
    match platform {
        CPlatform::Windows => String::from_str("\\"),
        CPlatform::Unix => String::from_str("/"),
    }
}

/// The environment variable that holds the home directory on `platform`.
pub fn home_variable(platform: CPlatform) -> (r: String)
    ensures
        r@ == (if platform == CPlatform::Windows { "USERPROFILE"@ } else { "HOME"@ }),
{
    match platform {
        CPlatform::Windows => String::from_str("USERPROFILE"),
        CPlatform::Unix => String::from_str("HOME"),
    }
}

/// The environment variable that holds the user name on `platform`.
pub fn user_variable(platform: CPlatform) -> (r: String)
    ensures
        r@ == (if platform == CPlatform::Windows { "USERNAME"@ } else { "USER"@ }),
{
    match platform {
        CPlatform::Windows => String::from_str("USERNAME"),
        CPlatform::Unix => String::from_str("USER"),
    }
}

/// The home directory, given the value of the home variable; without one
/// there is no home directory to report.
pub fn runtime_home_path(home: Option<String>) -> (r: Result<String, CError>)
    ensures
        match home {
            Some(h) => r matches Ok(p) && p@ == h@,
            None => r == Err::<String, CError>(CError::Unavailable),
        },
{
    match home {
        Some(v) => Ok(v),
        None => Err(CError::Unavailable),
    }
}

/// A reported value, or `UNDETERMINED` where nothing was reported.
pub fn or_undetermined(value: Option<String>) -> (r: String)
    ensures
        match value {
            Some(v) => r@ == v@,
            None => r@ == undetermined(),
        },
{
    match value {
        Some(v) => v,
        None => String::from_str("UNDETERMINED"),
    }
}

/// The user name, given the value of the user variable; `UNDETERMINED`
/// without one.
pub fn runtime_user(user: Option<String>) -> (r: String)
    ensures
        match user {
            Some(u) => r@ == u@,
            None => r@ == undetermined(),
        },
{
    or_undetermined(user)
}

/// A reported core count, or one where nothing was reported.
pub fn count_or_one(count: Option<usize>) -> (r: usize)
    ensures
        r == (match count {
            Some(c) => c,
            None => 1,
        }),
{
    match count {
        Some(c) => c,
        None => 1,
    }
}

/// Relies on sysinfo's `System::host_name`, which depends on the machine.
#[verifier::external_body]
fn host_name() -> (r: Option<String>) {
    sysinfo::System::host_name()
}

/// Relies on sysinfo's `System::kernel_version`, which depends on the machine.
#[verifier::external_body]
fn kernel_version() -> (r: Option<String>) {
    sysinfo::System::kernel_version()
}

/// Relies on sysinfo's `System::name`, which depends on the machine.
#[verifier::external_body]
fn os_name() -> (r: Option<String>) {
    sysinfo::System::name()
}

/// Relies on sysinfo's `System::os_version`, which depends on the machine.
#[verifier::external_body]
fn os_version() -> (r: Option<String>) {
    sysinfo::System::os_version()
}

/// Relies on sysinfo's `System::physical_core_count`, which depends on the
/// machine.
#[verifier::external_body]
fn physical_core_count() -> (r: Option<usize>) {
    sysinfo::System::physical_core_count()
}

/// The host name, or `UNDETERMINED`.
pub fn runtime_hostname() -> (r: String) {
    or_undetermined(host_name())
}

/// The kernel version, or `UNDETERMINED`.
pub fn runtime_kernel_version() -> (r: String) {
    or_undetermined(kernel_version())
}

/// The operating system's name, or `UNDETERMINED`.
pub fn runtime_os_name() -> (r: String) {
    or_undetermined(os_name())
}

/// The operating system's version, or `UNDETERMINED`.
pub fn runtime_os_version() -> (r: String) {
    or_undetermined(os_version())
}

/// The number of physical cores, or one where the system does not say.
pub fn runtime_cpu_count() -> (r: usize) {
    count_or_one(physical_core_count())
}

} // verus!
