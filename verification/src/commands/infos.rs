//! Device information as the status request of an optional-parameter
//! command returns it.

use vstd::prelude::*;

verus! {

/// Device information returned by the status request.
#[derive(Debug)]
pub struct InfosData {
    pub played_media_type: String,
    pub played_media_state: String,
    pub played_media_id: String,
    pub played_media_context_id: String,
    pub played_media_position: String,
    pub time_shifting_state: String,
    pub mac_address: String,
    pub wol_support: String,
    pub friendly_name: String,
    pub active_standby_state: String,
    pub npvr_support: String,
}

} // verus!
