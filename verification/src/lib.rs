//! Verified core of a minimal note-taking backend.
//!
//! The backend is a thin shim over three host facilities: the file system,
//! the operating system's credential store, and the GUI host's global
//! shortcut registrar.  This crate holds the part of that shim that can be
//! reasoned about: a model of the file-access operations, a model of the
//! credential-store operations, the decision logic of the presence probe,
//! and the fixed names handed to the host runtime.  The command layer that
//! performs the actual file-system and keychain calls lives outside and
//! hands this crate plain values.

pub mod file_store;
pub mod host;
pub mod key_store;
