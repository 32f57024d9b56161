//! Local-network discovery of VR streaming peers, and safe bring-up and
//! tear-down of the third-party VR runtime that the streamer depends on.
//!
//! Three components make up the core. The announcer ([`sockets`])
//! advertises this host as a streaming endpoint over multicast service
//! discovery; the welcome socket ([`sockets`], [`discovery`]) drains
//! resolution events and reports the currently visible peers with a
//! protocol-compatibility verdict; and the launcher ([`launcher`],
//! [`settings`], [`drivers`]) orchestrates the runtime: it resolves driver
//! registration conflicts, registers this product's driver, clears the
//! runtime's "blocked by safe mode" flag, intercepts the compositor
//! launcher through a filesystem redirect, starts the runtime if absent,
//! and performs bounded two-phase shutdown.
//!
//! The launcher holds no durable state of its own: everything lives in the
//! OS and the filesystem and is re-read on each operation. Its operations
//! are therefore state machines over observations, and the hosting
//! application performs the blocking OS work they ask for.

use vstd::prelude::*;

pub mod build_jobs;
pub mod codec;
pub mod discovery;
pub mod drivers;
pub mod launcher;
pub mod launcher_laws;
pub mod new_version_popup;
pub mod settings;
pub mod sockets;
pub mod text;
pub mod version;

verus! {

/// Product version; the discovery protocol id is derived from it.
pub const NANVR_VERSION: &'static str = "21.0.0-dev01";

/// Lower-case product name, used in driver paths and service instance names.
pub const NANVR_LOW_NAME: &'static str = "nanvr";

} // verus!
