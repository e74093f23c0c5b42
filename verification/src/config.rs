//! What the checks share with the configuration they are run for: the name of
//! the host binary, and the record of the last combination of Wine and host
//! binary that was seen to work.

use vstd::prelude::*;
use vstd::std_specs::cmp::PartialEqSpecImpl;

verus! {

/// The name of the host binary that the plugins start under Wine.
pub const YABRIDGE_HOST_EXE_NAME: &'static str = "yabridge-host.exe";

/// A combination of Wine and host binary. The configuration keeps the last
/// one that was verified, so that the check is not repeated until either of
/// the two changes.
#[derive(Clone, Debug, Eq)]
pub struct KnownConfig {
    /// The output of `wine --version`, without its line feed.
    pub wine_version: String,
    /// The fingerprint of the contents of `yabridge-host.exe.so`.
    pub yabridge_host_hash: i64,
}

/// A `KnownConfig` as plain values.
pub struct KnownConfigView {
    pub wine_version: Seq<char>,
    pub yabridge_host_hash: i64,
}

impl View for KnownConfig {
    type V = KnownConfigView;

    open spec fn view(&self) -> KnownConfigView {
        KnownConfigView {
            wine_version: self.wine_version@,
            yabridge_host_hash: self.yabridge_host_hash,
        }
    }
}

impl PartialEq for KnownConfig {
    fn eq(&self, other: &KnownConfig) -> (equal: bool) {
        self.wine_version == other.wine_version && self.yabridge_host_hash
            == other.yabridge_host_hash
    }
}

impl PartialEqSpecImpl for KnownConfig {
    open spec fn obeys_eq_spec() -> bool {
        true
    }

    /// Two records are equal when both fields are: the same version string
    /// and the same fingerprint.
    open spec fn eq_spec(&self, other: &KnownConfig) -> bool {
        self@ == other@
    }
}

} // verus!
