//! The well-known namespace and message names of the host's protocol.
//!
//! These are protocol constants, not configuration: the bootstrap handshake
//! resolves `GetAPI` in the `VPX` namespace, and the event messages are the
//! ones the host publishes for every game.

use vstd::prelude::*;

verus! {

/// The host's namespace for its own messages.
pub const VPXPI_NAMESPACE: &'static str = "VPX";

/// The message whose broadcast makes the host hand out the secondary API.
pub const VPXPI_MSG_GET_API: &'static str = "GetAPI";

/// Published when a game starts.
pub const VPXPI_EVT_ON_GAME_START: &'static str = "OnGameStart";

/// Published when a game ends.
pub const VPXPI_EVT_ON_GAME_END: &'static str = "OnGameEnd";

/// Published before each rendered frame.
pub const VPXPI_EVT_ON_PREPARE_FRAME: &'static str = "OnPrepareFrame";

/// Published when the host's settings changed.
pub const VPXPI_EVT_ON_SETTINGS_CHANGED: &'static str = "OnSettingsChanged";

} // verus!
