//! The control-plane request that inserts or replaces a device. The body
//! is decoded by the caller; this checks it against the path.

use crate::config::RdmaDeviceConfig;
use vstd::prelude::*;

verus! {

/// Actions handed to the VMM.
#[derive(Debug, Clone, PartialEq, Eq)]
pub enum VmmAction {
    /// Insert or replace the RDMA device of this configuration.
    InsertRdmaDevice(RdmaDeviceConfig),
}

/// Client errors of a control-plane request.
#[derive(Debug, Clone, PartialEq, Eq)]
pub enum RequestError {
    /// The path carries no identifier.
    EmptyID,
    /// The body is no valid configuration; holds the decoder's message.
    InvalidBody(String),
    /// The identifier of the path differs from that of the body.
    IdMismatch,
}

/// Checks a request to insert a device: the path must name the device,
/// the body must have decoded, and both must carry the same identifier.
pub fn parse_put_rdma(body: Result<RdmaDeviceConfig, String>, id_from_path: Option<&str>) -> (r:
    Result<VmmAction, RequestError>)
    ensures
        id_from_path is None ==> r == Err::<VmmAction, RequestError>(RequestError::EmptyID),
        id_from_path is Some && body is Err ==> r == Err::<VmmAction, RequestError>(
            RequestError::InvalidBody(body->Err_0),
        ),
        id_from_path is Some && body is Ok && id_from_path->0@ != body->Ok_0.id@ ==> r == Err::<
            VmmAction,
            RequestError,
        >(RequestError::IdMismatch),
        id_from_path is Some && body is Ok && id_from_path->0@ == body->Ok_0.id@ ==> r == Ok::<
            VmmAction,
            RequestError,
        >(VmmAction::InsertRdmaDevice(body->Ok_0)),
{
    let id = match id_from_path {
        Some(id) => id.to_owned(),
        None => {
            return Err(RequestError::EmptyID);
        },
    };
    let device_cfg = match body {
        Ok(cfg) => cfg,
        Err(msg) => {
            return Err(RequestError::InvalidBody(msg));
        },
    };
    if id != device_cfg.id {
        Err(RequestError::IdMismatch)
    } else {
        Ok(VmmAction::InsertRdmaDevice(device_cfg))
    }
}

} // verus!
