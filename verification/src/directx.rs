//! What the real DirectX 12 backend reports about itself beyond `DeviceInfo`.

use vstd::prelude::*;

verus! {

/// Direct3D-specific facts about a device.
#[derive(Debug, Clone, PartialEq, Eq)]
pub struct DirectXDiagnostics {
    /// The minimum feature level the device was created with (`"11_0+"`).
    pub feature_level: &'static str,
}

} // verus!
