//! The dashboard header: network name and node version, fetched once per
//! refresh cycle.

use vstd::prelude::*;

use crate::text::network_display_name;

verus! {

/// Immutable snapshot of the dashboard header.
#[derive(Clone, Debug)]
pub struct GeneralDashboardData {
    /// Display name of the network the node is on.
    pub network_name: String,
    /// Version the node reported, when the overview endpoint supplied one.
    pub version: Option<String>,
    /// Whether the fetch path should ask the overview endpoint at all.
    pub enable_fetch_overview_data: bool,
}

impl GeneralDashboardData {
    /// Assembles the header snapshot from the chain identifier and the
    /// version the node reported.
    pub fn from_raw(chain: &str, version: Option<String>, enable_fetch_overview_data: bool) -> (r:
        Self)
        ensures
            chain@ == "ckb"@ ==> r.network_name@ == "[Meepo Mainnet]"@,
            chain@ == "ckb_testnet"@ ==> r.network_name@ == "[Mirana Testnet]"@,
            chain@ != "ckb"@ && chain@ != "ckb_testnet"@ ==> r.network_name@ == "["@ + chain@
                + "]"@,
            r.version == version,
            r.enable_fetch_overview_data == enable_fetch_overview_data,
    {
        GeneralDashboardData {
            network_name: network_display_name(chain),
            version,
            enable_fetch_overview_data,
        }
    }

    /// Sets whether the fetch path should ask the overview endpoint.
    pub fn set_enable_overview_data(&mut self, flag: bool)
        ensures
            final(self).enable_fetch_overview_data == flag,
            final(self).network_name == old(self).network_name,
            final(self).version == old(self).version,
    {
        self.enable_fetch_overview_data = flag;
    }
}

} // verus!
