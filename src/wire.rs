//! Fixed-layout little-endian records shared with the guest.

use vstd::prelude::*;

verus! {

/// Opcode that asks for a queue pair to be created.
pub const RDMA_OPCODE_CREATE_QP: u32 = 1;

/// Response status: the request was accepted.
pub const RDMA_STATUS_OK: u32 = 0;

/// Response status: the request was refused.
pub const RDMA_STATUS_ERR: u32 = 1;

/// Size in bytes of a request record on the wire.
pub const RDMA_REQUEST_SIZE: u32 = 8;

/// Size in bytes of a response record on the wire.
pub const RDMA_RESPONSE_SIZE: u32 = 4;

/// The value of the four bytes of `b` starting at `off`, least significant first.
pub open spec fn le_u32_at(b: Seq<u8>, off: int) -> u32 {
    (b[off] as int + 256 * b[off + 1] as int + 65536 * b[off + 2] as int + 16777216 * b[
        off + 3
    ] as int) as u32
}

/// The four bytes of `v`, least significant first.
pub open spec fn le_bytes_of(v: u32) -> Seq<u8> {
    seq![
        (v % 256) as u8,
        ((v / 256) % 256) as u8,
        ((v / 65536) % 256) as u8,
        (v / 16777216) as u8,
    ]
}

/// The status that answers a request carrying `opcode`.
pub open spec fn status_for(opcode: u32) -> u32 {
    if opcode == RDMA_OPCODE_CREATE_QP {
        RDMA_STATUS_OK
    } else {
        RDMA_STATUS_ERR
    }
}

/// Reads a little-endian `u32` out of four bytes of `b`.
pub fn u32_from_le_bytes(b: &[u8], off: usize) -> (r: u32)
    requires
        off + 4 <= b@.len(),
    ensures
        r == le_u32_at(b@, off as int),
{
    let b0 = b[off] as u32;
    let b1 = b[off + 1] as u32;
    let b2 = b[off + 2] as u32;
    let b3 = b[off + 3] as u32;
    b0 + 256 * b1 + 65536 * b2 + 16777216 * b3
}

/// Writes `v` as four little-endian bytes.
pub fn u32_to_le_bytes(v: u32) -> (r: Vec<u8>)
    ensures
        r@ == le_bytes_of(v),
{
    let r = vec![(v % 256) as u8, ((v / 256) % 256) as u8, ((v / 65536) % 256) as u8, (v / 16777216) as u8];
    assert(r@ =~= le_bytes_of(v));
    r
}

/// Decoding the encoding of a value gives the value back.
pub proof fn lemma_le_round_trip(v: u32)
    ensures
        le_u32_at(le_bytes_of(v), 0) == v,
{
    let b = le_bytes_of(v);
    assert(b[0] as int == v % 256);
    assert(b[1] as int == (v / 256) % 256);
    assert(b[2] as int == (v / 65536) % 256);
    assert(b[3] as int == v / 16777216);
    assert((v % 256) + 256 * ((v / 256) % 256) + 65536 * ((v / 65536) % 256) + 16777216 * (v
        / 16777216) == v) by (nonlinear_arith);
}

/// A request record: an opcode and the queue pair it concerns.
#[derive(Debug, Clone, Copy, PartialEq, Eq, Structural)]
pub struct RdmaRequest {
    pub opcode: u32,
    pub qp_id: u32,
}

/// A response record: the status of the request it answers.
#[derive(Debug, Clone, Copy, PartialEq, Eq, Structural)]
pub struct RdmaResponse {
    pub status: u32,
}

impl RdmaRequest {
    /// Decodes a request from the first eight bytes of `b`.
    pub fn from_le_bytes(b: &[u8]) -> (r: RdmaRequest)
        requires
            b@.len() >= RDMA_REQUEST_SIZE,
        ensures
            r.opcode == le_u32_at(b@, 0),
            r.qp_id == le_u32_at(b@, 4),
    {
        RdmaRequest { opcode: u32_from_le_bytes(b, 0), qp_id: u32_from_le_bytes(b, 4) }
    }

    /// Encodes the request as eight bytes, each field little-endian.
    pub fn to_le_bytes(&self) -> (r: Vec<u8>)
        ensures
            r@ == le_bytes_of(self.opcode) + le_bytes_of(self.qp_id),
    {
        let mut r = u32_to_le_bytes(self.opcode);
        let mut q = u32_to_le_bytes(self.qp_id);
        r.append(&mut q);
        r
    }
}

impl RdmaResponse {
    /// Encodes the response as four little-endian bytes.
    pub fn to_le_bytes(&self) -> (r: Vec<u8>)
        ensures
            r@ == le_bytes_of(self.status),
    {
        u32_to_le_bytes(self.status)
    }

    /// Decodes a response from the first four bytes of `b`.
    pub fn from_le_bytes(b: &[u8]) -> (r: RdmaResponse)
        requires
            b@.len() >= RDMA_RESPONSE_SIZE,
        ensures
            r.status == le_u32_at(b@, 0),
    {
        RdmaResponse { status: u32_from_le_bytes(b, 0) }
    }
}

/// Answers a request: `CREATE_QP` is acknowledged, every other opcode refused.
pub fn dispatch(request: &RdmaRequest) -> (r: RdmaResponse)
    ensures
        r.status == status_for(request.opcode),
{
    if request.opcode == RDMA_OPCODE_CREATE_QP {
        RdmaResponse { status: RDMA_STATUS_OK }
    } else {
        RdmaResponse { status: RDMA_STATUS_ERR }
    }
}

} // verus!
