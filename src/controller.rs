//! Decisions of the controller around requests: whether it can start, and the
//! audit record of each request.
use vstd::prelude::*;

use crate::model::{copy_bytes, AuthorizationResult, Identity, InetAddress, RequestLogItem};
use crate::wire::RequestPacket;

verus! {

/// Why the controller cannot start.
#[derive(Clone, Copy, Debug, PartialEq, Eq, Structural)]
pub enum StartupError {
    /// The database holds no identity for the controller.
    IdentityNotReadable,
}

/// The controller's own identity, as the database gave it. Startup fails
/// where there is none. An identity that the database does give must carry
/// its secret: without one the controller cannot sign, and must not start.
pub fn local_identity(loaded: Option<Identity>) -> (r: Result<Identity, StartupError>)
    requires
        loaded.is_some() ==> loaded.unwrap().secret.is_some(),
    ensures
        loaded.is_none() ==> r == Err::<Identity, StartupError>(StartupError::IdentityNotReadable),
        loaded.is_some() ==> r == Ok::<Identity, StartupError>(loaded.unwrap()),
{
    match loaded {
        None => Err(StartupError::IdentityNotReadable),
        Some(id) => Ok(id),
    }
}

/// The audit record of a request from `requester`, received at `now`, decided
/// as `result`.
pub fn request_log_item(
    packet: &RequestPacket,
    requester: &Identity,
    controller: &Identity,
    now: i64,
    source_remote_endpoint: Option<InetAddress>,
    source_hops: u8,
    result: AuthorizationResult,
) -> (r: RequestLogItem)
    ensures
        r.network_id == packet.network_id,
        r.node_id == requester.address,
        r.node_fingerprint@ == requester.fingerprint@,
        r.controller_node_id == controller.address,
        r.metadata@ == packet.metadata@,
        r.timestamp == now,
        r.source_remote_endpoint == source_remote_endpoint,
        r.source_hops == source_hops,
        r.result == result,
{
    RequestLogItem {
        network_id: packet.network_id,
        node_id: requester.address,
        node_fingerprint: copy_bytes(&requester.fingerprint),
        controller_node_id: controller.address,
        metadata: copy_bytes(&packet.metadata),
        timestamp: now,
        source_remote_endpoint,
        source_hops,
        result,
    }
}

} // verus!
