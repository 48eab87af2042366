//! Fixed values handed to the GUI host runtime.
//!
//! The shortcut registrar binds one global accelerator and, when it fires,
//! emits one named event to the interface layer.  The names are part of
//! the backend's interface, so they are stated here with exact contracts;
//! the registrar itself is host-runtime plumbing and lives outside this
//! crate.  The greeting command is the one command that computes a value
//! of its own.

use vstd::prelude::*;
use vstd::string::StringExecFns;

verus! {

/// The accelerator the registrar asks the host to bind.
pub fn save_shortcut() -> (r: &'static str)
    ensures
        r@ == "CmdOrCtrl+S"@,
{
    "CmdOrCtrl+S"
}

/// The event emitted to the interface layer when the shortcut fires.
pub fn save_event() -> (r: &'static str)
    ensures
        r@ == "save-triggered"@,
{
    "save-triggered"
}

/// The service name under which the credential entry is stored.
pub fn service_name() -> (r: &'static str)
    ensures
        r@ == "MarkMind"@,
{
    "MarkMind"
}

/// The key name under which the credential entry is stored.
pub fn key_name() -> (r: &'static str)
    ensures
        r@ == "gemini_api_key"@,
{
    "gemini_api_key"
}

/// The greeting command: wraps the caller's name in the fixed greeting.
pub fn greet(name: &str) -> (r: String)
    ensures
        r@ == "Hello, "@ + name@ + "! You've been greeted from Rust!"@,
{
    let mut s = String::from_str("Hello, ");
    s.append(name);
    s.append("! You've been greeted from Rust!");
    s
}

} // verus!
