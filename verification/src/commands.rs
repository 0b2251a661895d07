//! The bridge command surface: the caller-invokable operations the shell
//! exposes to its hosted web content. Unlike host-originated events, a
//! failure here is surfaced to the caller as a descriptive error string.

use vstd::prelude::*;
use vstd::string::*;
use crate::registry::{WindowId, WindowRegistry};

verus! {

/// The greeting the bridge returns for a name.
pub open spec fn spec_greeting(name: Seq<char>) -> Seq<char> {
    "Hello, "@ + name + "! You've been greeted from Rust!"@
}

/// Pure string formatting; cannot fail.
pub fn greet(name: &str) -> (r: String)
    ensures
        r@ == spec_greeting(name@),
{
    let mut m = String::from_str("Hello, ");
    m.append(name);
    m.append("! You've been greeted from Rust!");
    m
}

/// The build-time version identifier.
pub open spec fn spec_app_version() -> Seq<char> {
    "0.1.0"@
}

/// Returns the build-time version identifier: the same literal value on
/// every call within a process lifetime; cannot fail.
pub fn get_app_version() -> (r: String)
    ensures
        r@ == spec_app_version(),
{
    String::from_str("0.1.0")
}

/// The error string for a failed shell-open; the operating system's error
/// description is carried verbatim.
pub open spec fn spec_open_url_failure_message(detail: Seq<char>) -> Seq<char> {
    "Failed to open URL: "@ + detail
}

/// Builds the caller-facing error for a failed shell-open. The call into
/// the OS lives with the host; the message format is fixed here.
pub fn open_url_failure_message(detail: &str) -> (r: String)
    ensures
        r@ == spec_open_url_failure_message(detail@),
{
    let mut m = String::from_str("Failed to open URL: ");
    m.append(detail);
    m
}

/// Caller-facing show of the main window: shows it and requests focus.
/// Where a host event would merely log a missing window, this path was
/// invoked by the web content, so the same condition is reported to the
/// caller as the error "Main window not found"; the registry is then left
/// unchanged.
pub fn show_main_window(registry: &mut WindowRegistry) -> (r: Result<(), String>)
    ensures
        old(registry).is_live(WindowId::Main) ==> {
            &&& r is Ok
            &&& *final(registry) == old(registry).spec_show(WindowId::Main).spec_focus(
                WindowId::Main,
            )
        },
        !old(registry).is_live(WindowId::Main) ==> {
            &&& (r matches Err(m) && m@ == "Main window not found"@)
            &&& *final(registry) == *old(registry)
        },
{
    match registry.get_window("main") {
        Some(w) => {
            let r1 = registry.show_by_id(w);
            let r2 = registry.focus_by_id(w);
            Ok(())
        },
        None => Err(String::from_str("Main window not found")),
    }
}

} // verus!
