//! The bytes that go over the wire: the application identifier that selects this
//! protocol during the connection handshake, the two payloads, and the close
//! reason.
use vstd::prelude::*;

verus! {

/// The application-layer protocol identifier exchanged, as its UTF-8 bytes, in
/// the connection handshake; a connection is refused unless both peers present
/// it.
pub const ALPN: &'static str = "iroh/ping/0";

/// Close code sent by the initiator when it closes the connection.
pub const CLOSE_CODE: u32 = 0;

/// Largest payload a peer reads before it gives up on a stream.
pub const PAYLOAD_LEN: usize = 4;

/// The request payload, `"PING"`.
pub open spec fn ping_bytes() -> Seq<u8> {
    seq![0x50u8, 0x49u8, 0x4eu8, 0x47u8]
}

/// The response payload, `"PONG"`.
pub open spec fn pong_bytes() -> Seq<u8> {
    seq![0x50u8, 0x4fu8, 0x4eu8, 0x47u8]
}

/// The informational reason sent with the close code, `"bye!"`.
pub open spec fn close_reason_bytes() -> Seq<u8> {
    seq![0x62u8, 0x79u8, 0x65u8, 0x21u8]
}

/// The request payload as bytes.
pub fn ping_payload() -> (r: Vec<u8>)
    ensures
        r@ == ping_bytes(),
{
    let r = vec![0x50u8, 0x49u8, 0x4eu8, 0x47u8];
    assert(r@ =~= ping_bytes());
    r
}

/// The response payload as bytes.
pub fn pong_payload() -> (r: Vec<u8>)
    ensures
        r@ == pong_bytes(),
{
    let r = vec![0x50u8, 0x4fu8, 0x4eu8, 0x47u8];
    assert(r@ =~= pong_bytes());
    r
}

/// The close reason as bytes.
pub fn close_reason() -> (r: Vec<u8>)
    ensures
        r@ == close_reason_bytes(),
{
    let r = vec![0x62u8, 0x79u8, 0x65u8, 0x21u8];
    assert(r@ =~= close_reason_bytes());
    r
}

/// Whether `data` is exactly the given four-byte payload.
fn is_payload(data: &[u8], b0: u8, b1: u8, b2: u8, b3: u8) -> (r: bool)
    ensures
        r == (data@ == seq![b0, b1, b2, b3]),
{
    if data.len() != 4 {
        proof {
            assert(seq![b0, b1, b2, b3].len() == 4);
        }
        return false;
    }
    let r = data[0] == b0 && data[1] == b1 && data[2] == b2 && data[3] == b3;
    if r {
        assert(data@ =~= seq![b0, b1, b2, b3]);
    }
    r
}

/// Whether `data` is exactly the request payload.
pub fn is_ping(data: &[u8]) -> (r: bool)
    ensures
        r == (data@ == ping_bytes()),
{
    is_payload(data, 0x50u8, 0x49u8, 0x4eu8, 0x47u8)
}

/// Whether `data` is exactly the response payload.
pub fn is_pong(data: &[u8]) -> (r: bool)
    ensures
        r == (data@ == pong_bytes()),
{
    is_payload(data, 0x50u8, 0x4fu8, 0x4eu8, 0x47u8)
}

} // verus!
