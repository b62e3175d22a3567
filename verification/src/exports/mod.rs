//! Entry points that the addon exposes to its host extensions.

pub mod arcdps;
pub mod runtime;

use vstd::prelude::*;

verus! {

/// Signature that identifies the addon to its hosts.
pub const SIG: i32 = 0x7331BABD;

/// Name of the addon's directory inside the game's addon directory.
pub const ADDON_DIR_NAME: &'static str = "Taimi";

} // verus!
