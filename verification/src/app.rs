//! What the app reports about its system permissions.
use vstd::prelude::*;

verus! {

/// Which system permissions the app holds.
#[derive(Clone, Copy, Debug)]
pub struct PermissionStatus {
    pub microphone: bool,
    pub accessibility: bool,
    pub input_monitoring: bool,
}

impl Default for PermissionStatus {
    fn default() -> (r: Self)
        ensures
            !r.microphone && !r.accessibility && !r.input_monitoring,
    {
        PermissionStatus { microphone: false, accessibility: false, input_monitoring: false }
    }
}

/// The permission report, given whether an input device is present and
/// whether the process is trusted for accessibility; input monitoring comes
/// with accessibility.
pub fn detect_permissions(microphone_ready: bool, accessibility_ready: bool) -> (r:
    PermissionStatus)
    ensures
        r.microphone == microphone_ready,
        r.accessibility == accessibility_ready,
        r.input_monitoring == accessibility_ready,
{
    PermissionStatus {
        microphone: microphone_ready,
        accessibility: accessibility_ready,
        input_monitoring: accessibility_ready,
    }
}

} // verus!
