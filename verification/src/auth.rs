use vstd::prelude::*;

verus! {

/// The host operating system family, as far as the unlock flow cares.
#[derive(Clone, Copy, Debug, PartialEq, Eq, Structural)]
pub enum HostPlatform {
    Linux,
    Windows,
    Other,
}

/// The platforms whose session lock state can be queried: logind's
/// `LockedHint` / the screensaver on Linux desktops, the session's input
/// desktop on Windows.
pub open spec fn lock_state_supported(platform: HostPlatform) -> bool {
    match platform {
        HostPlatform::Linux => true,
        HostPlatform::Windows => true,
        HostPlatform::Other => false,
    }
}

/// The screen is locked: the host reports its session as locked, on a
/// platform whose lock state can be queried.
pub open spec fn screen_locked(platform: HostPlatform, session_locked: bool) -> bool {
    lock_state_supported(platform) && session_locked
}

/// Hooks into the host's session lock and unlock mechanisms.
pub struct SystemAuthManager;

impl SystemAuthManager {
    /// Check if the screen is currently locked on the host OS, given the
    /// lock state the host reports for the session (`session_locked`).
    ///
    /// On Linux (logind `LockedHint` / screensaver D-Bus) and Windows
    /// (input desktop / session notifications) that state decides; any
    /// other platform reports an unlocked screen.
    pub fn is_screen_locked(platform: HostPlatform, session_locked: bool) -> (locked: bool)
        ensures
            locked == screen_locked(platform, session_locked),
    {
        match platform {
            HostPlatform::Linux => session_locked,
            HostPlatform::Windows => session_locked,
            HostPlatform::Other => false,
        }
    }

    /// Unlock action: for the PAM module this is `PAM_SUCCESS`; in daemon
    /// mode the caller fires the desktop unlock trigger. The attempt for
    /// `user` is always reported as successful.
    pub fn trigger_unlock_success(user: &str) -> (granted: bool)
        ensures
            granted,
    {
        true
    }
}

} // verus!
