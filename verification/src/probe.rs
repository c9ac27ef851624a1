//! The platform capability probe: which optional OS capabilities are
//! present, detected once per process and cached for its lifetime.
//!
//! The version queries themselves are native calls made by the shell; this
//! module owns the decision they feed: which DPI awareness tier the
//! process selects, and which creation-time compatibility behavior that
//! tier requires.

use vstd::prelude::*;

verus! {

/// The DPI mode that's enabled process-wide. The newest available is
/// selected.
#[derive(Copy, Clone, Debug, PartialEq, Eq, Structural)]
pub enum DpiMode {
    Unsupported,
    System,
    PerMonitorV1,
    PerMonitorV2,
}

/// The cached capability set: version tiers, and the DPI mode selected
/// from them. The system can't magically upgrade without restarting, so
/// one probe per process is enough.
#[derive(Copy, Clone, Debug, PartialEq, Eq, Structural)]
pub struct Win32 {
    /// The DPI mode that's enabled process-wide.
    pub dpi_mode: DpiMode,
    pub at_least_vista: bool,
    pub at_least_8_point_1: bool,
    pub at_least_anniversary_update: bool,
    pub at_least_creators_update: bool,
}

/// The DPI tier selected for a set of version answers: the newest the
/// platform supports.
pub open spec fn spec_select_dpi_mode(
    at_least_vista: bool,
    at_least_8_point_1: bool,
    at_least_creators_update: bool,
) -> DpiMode {
    if at_least_creators_update {
        DpiMode::PerMonitorV2
    } else if at_least_8_point_1 {
        DpiMode::PerMonitorV1
    } else if at_least_vista {
        DpiMode::System
    } else {
        DpiMode::Unsupported
    }
}

/// Whether the platform itself scales the non-client area for this
/// capability set, so that window geometry must be adjusted with the
/// DPI-aware call.
pub open spec fn spec_dpi_aware_adjust(w: Win32) -> bool {
    (w.dpi_mode is PerMonitorV1 && w.at_least_anniversary_update) || w.dpi_mode is PerMonitorV2
}

/// Whether window creation must install the non-client scaling patch:
/// required exactly on the first per-monitor tier, on builds that offer
/// the patch.
pub open spec fn spec_needs_nonclient_patch(w: Win32) -> bool {
    w.dpi_mode is PerMonitorV1 && w.at_least_anniversary_update
}

impl Win32 {
    /// Assembles the capability set from the platform's version answers,
    /// selecting the newest supported DPI tier.
    pub fn from_versions(
        at_least_vista: bool,
        at_least_8_point_1: bool,
        at_least_anniversary_update: bool,
        at_least_creators_update: bool,
    ) -> (r: Win32)
        ensures
            r == (Win32 {
                dpi_mode: spec_select_dpi_mode(
                    at_least_vista,
                    at_least_8_point_1,
                    at_least_creators_update,
                ),
                at_least_vista,
                at_least_8_point_1,
                at_least_anniversary_update,
                at_least_creators_update,
            }),
    {
        let dpi_mode: DpiMode = if at_least_creators_update {
            DpiMode::PerMonitorV2
        } else if at_least_8_point_1 {
            DpiMode::PerMonitorV1
        } else if at_least_vista {
            DpiMode::System
        } else {
            DpiMode::Unsupported
        };
        Win32 {
            dpi_mode,
            at_least_vista,
            at_least_8_point_1,
            at_least_anniversary_update,
            at_least_creators_update,
        }
    }

    /// Whether initial window geometry must be adjusted with the DPI-aware
    /// native call rather than the legacy one.
    pub fn dpi_aware_adjust(&self) -> (b: bool)
        ensures
            b == spec_dpi_aware_adjust(*self),
    {
        (matches!(self.dpi_mode, DpiMode::PerMonitorV1) && self.at_least_anniversary_update)
            || matches!(self.dpi_mode, DpiMode::PerMonitorV2)
    }

    /// Whether creation must install the non-client scaling patch.
    pub fn needs_nonclient_patch(&self) -> (b: bool)
        ensures
            b == spec_needs_nonclient_patch(*self),
    {
        matches!(self.dpi_mode, DpiMode::PerMonitorV1) && self.at_least_anniversary_update
    }
}

} // verus!
