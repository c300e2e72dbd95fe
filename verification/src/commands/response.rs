//! The JSON replies to optional-parameter commands, as plain values.

use vstd::prelude::*;

verus! {

/// Top-level wrapper around a decoder reply.
pub struct Response<D> {
    pub result: Result<D>,
}

/// Inner result payload of a decoder reply.
pub struct Result<D> {
    pub response_code: String,
    pub message: String,
    pub data: D,
}

/// Device information returned by the status request.
#[derive(Debug)]
pub struct InfosData {
    pub played_media_type: String,
    pub played_media_state: String,
    pub played_media_id: String,
    pub played_media_context_id: String,
    pub played_media_position: String,
    pub time_shifting_state: String,
    pub mac_address: String,
    pub wol_support: String,
    pub friendly_name: String,
    pub active_standby_state: String,
    pub npvr_support: String,
}

} // verus!
