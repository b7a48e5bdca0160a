//! Permissions that the system has granted or denied.

use vstd::prelude::*;

verus! {

/// Whether a capability is available.
#[derive(Debug, Clone, Copy, PartialEq, Eq, Structural)]
pub enum PermissionState {
    /// The permission is granted.
    Granted,
    /// The permission is denied.
    Denied,
    /// The system has not been asked yet.
    Unknown,
}

impl Default for PermissionState {
    fn default() -> (r: Self)
        ensures
            r is Unknown,
    {
        PermissionState::Unknown
    }
}

impl PermissionState {
    /// Whether the permission is granted.
    pub fn is_granted(self) -> (r: bool)
        ensures
            r <==> self is Granted,
    {
        matches!(self, PermissionState::Granted)
    }
}

impl From<bool> for PermissionState {
    fn from(value: bool) -> (r: Self) {
        if value {
            PermissionState::Granted
        } else {
            PermissionState::Denied
        }
    }
}

impl vstd::std_specs::convert::FromSpecImpl<bool> for PermissionState {
    open spec fn obeys_from_spec() -> bool {
        true
    }

    open spec fn from_spec(value: bool) -> Self {
        if value {
            PermissionState::Granted
        } else {
            PermissionState::Denied
        }
    }
}

/// The permissions of the process.
#[derive(Debug, Clone, Copy, PartialEq, Eq, Structural)]
pub struct PermissionsStatus {
    /// Accessibility.
    pub accessibility: PermissionState,
    /// Input Monitoring.
    pub input_monitoring: PermissionState,
    /// Screen Recording.
    pub screen_recording: PermissionState,
}

impl Default for PermissionsStatus {
    fn default() -> (r: Self)
        ensures
            r.accessibility is Unknown,
            r.input_monitoring is Unknown,
            r.screen_recording is Unknown,
    {
        PermissionsStatus {
            accessibility: PermissionState::default(),
            input_monitoring: PermissionState::default(),
            screen_recording: PermissionState::default(),
        }
    }
}

impl PermissionsStatus {
    /// Whether Accessibility is granted.
    pub fn accessibility_ok(self) -> (r: bool)
        ensures
            r <==> self.accessibility is Granted,
    {
        self.accessibility.is_granted()
    }

    /// Whether Input Monitoring is granted.
    pub fn input_ok(self) -> (r: bool)
        ensures
            r <==> self.input_monitoring is Granted,
    {
        self.input_monitoring.is_granted()
    }

    /// Whether Screen Recording is granted.
    pub fn screen_recording_ok(self) -> (r: bool)
        ensures
            r <==> self.screen_recording is Granted,
    {
        self.screen_recording.is_granted()
    }
}

/// The permissions, from the system's three answers.
pub fn check_permissions(
    accessibility: bool,
    input_monitoring: bool,
    screen_recording: bool,
) -> (r: PermissionsStatus)
    ensures
        r.accessibility is Granted <==> accessibility,
        r.accessibility is Denied <==> !accessibility,
        r.input_monitoring is Granted <==> input_monitoring,
        r.input_monitoring is Denied <==> !input_monitoring,
        r.screen_recording is Granted <==> screen_recording,
        r.screen_recording is Denied <==> !screen_recording,
{
    PermissionsStatus {
        accessibility: PermissionState::from(accessibility),
        input_monitoring: PermissionState::from(input_monitoring),
        screen_recording: PermissionState::from(screen_recording),
    }
}

} // verus!
