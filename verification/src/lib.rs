//! Startup shell of a desktop/mobile application.
//!
//! The crate root holds the two host-callable commands that the front end
//! may invoke across the runtime's bridge; `startup` models the bootstrap
//! sequence itself: the fixed plugin attachment order, the setup hook, the
//! invocable-function table, and the linear lifecycle of a startup.

use vstd::prelude::*;

pub mod startup;

verus! {

/// The semantic version string embedded in this build.
pub open spec fn app_version() -> Seq<char> {
    "1.2.3"@
}

/// Host-callable: reports whether the device is online.
///
/// Deliberately a stub: it answers `true` unconditionally, without a real
/// connectivity check, and the front end relies on exactly that answer.
pub fn is_online() -> (r: bool)
    ensures
        r == true,
{
    true
}

/// Host-callable: the version string of this build.
///
/// Infallible, with no side effects: every invocation within one build
/// returns exactly `app_version()`.
pub fn get_app_version() -> (r: String)
    ensures
        r@ == app_version(),
{
    "1.2.3".to_owned()
}

/// Any two strings returned by `get_app_version` within one build are
/// equal: the command is deterministic and idempotent.
pub proof fn lemma_app_version_deterministic(a: Seq<char>, b: Seq<char>)
    requires
        a == app_version(),
        b == app_version(),
    ensures
        a == b,
{
}

} // verus!
