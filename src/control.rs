//! The framing and the checks of the control channel.
//!
//! One exchange is one request record and one response record, each a
//! serialised [`ControlPacket`] ended by a newline. The socket work and the
//! serialisation are the caller's; this module frames the bytes and checks
//! the direction and the variant of what came back.
use vstd::prelude::*;
use crate::protocol::{answers, ControlPacket, Request, Response};

verus! {

/// The byte that ends a record.
pub const RECORD_TERMINATOR: u8 = 0x0a;

/// Errors of the control channel.
#[derive(Debug)]
pub enum ControlInterfaceError {
    /// The peer sent a packet of the wrong direction.
    InvalidPacketType(String),
    /// No connection was made.
    Unconnected,
    /// The response does not answer the request that was sent.
    UnexpectedVariant,
    /// The bytes received do not decode to a packet.
    Malformed(String),
}

/// The path of the control socket of an instance: `/tmp/<instance>/ctl.unix`.
pub open spec fn control_socket_path_of(instance_name: Seq<char>) -> Seq<char> {
    "/tmp/"@ + instance_name + "/ctl.unix"@
}

/// The path of the control socket of an instance.
pub fn control_socket_path(instance_name: &str) -> (r: String)
    ensures
        r@ == control_socket_path_of(instance_name@),
{
    let mut p = "/tmp/".to_owned();
    p.append(instance_name);
    p.append("/ctl.unix");
    p
}

/// A record: the payload followed by the terminator.
pub fn frame_record(payload: Vec<u8>) -> (r: Vec<u8>)
    ensures
        r@ == payload@.push(RECORD_TERMINATOR),
{
    let mut r = payload;
    r.push(RECORD_TERMINATOR);
    r
}

/// The bytes before the first terminator, or all of them where there is none.
pub open spec fn record_prefix(bytes: Seq<u8>) -> Seq<u8>
    decreases bytes.len(),
{
    if bytes.len() == 0 {
        bytes
    } else if bytes[0] == RECORD_TERMINATOR {
        Seq::empty()
    } else {
        seq![bytes[0]] + record_prefix(bytes.drop_first())
    }
}

/// Where the first terminator stands, if anywhere.
pub fn find_terminator(bytes: &Vec<u8>) -> (r: Option<usize>)
    ensures
        r is None ==> forall|i: int| 0 <= i < bytes@.len() ==> bytes@[i] != RECORD_TERMINATOR,
        r is Some ==> r->Some_0 < bytes@.len() && bytes@[r->Some_0 as int] == RECORD_TERMINATOR
            && forall|i: int| 0 <= i < r->Some_0 ==> bytes@[i] != RECORD_TERMINATOR,
{
    let mut i: usize = 0;
    while i < bytes.len()
        invariant
            i <= bytes@.len(),
            forall|j: int| 0 <= j < i ==> bytes@[j] != RECORD_TERMINATOR,
        decreases bytes@.len() - i,
    {
        if bytes[i] == RECORD_TERMINATOR {
            return Some(i);
        }
        i = i + 1;
    }
    None
}

proof fn lemma_record_prefix(bytes: Seq<u8>, n: int)
    requires
        0 <= n <= bytes.len(),
        forall|i: int| 0 <= i < n ==> bytes[i] != RECORD_TERMINATOR,
        n == bytes.len() || bytes[n] == RECORD_TERMINATOR,
    ensures
        record_prefix(bytes) == bytes.subrange(0, n),
    decreases n,
{
    if n == 0 {
        if bytes.len() > 0 {
            assert(bytes[0] == RECORD_TERMINATOR);
        }
        assert(bytes.subrange(0, 0) =~= Seq::<u8>::empty());
    } else {
        let rest = bytes.drop_first();
        assert forall|i: int| 0 <= i < n - 1 implies rest[i] != RECORD_TERMINATOR by {
            assert(rest[i] == bytes[i + 1]);
        }
        if n < bytes.len() {
            assert(rest[n - 1] == bytes[n]);
        }
        lemma_record_prefix(rest, n - 1);
        assert(seq![bytes[0]] + rest.subrange(0, n - 1) =~= bytes.subrange(0, n));
    }
}

/// The first record in what was read: the bytes before the first
/// terminator, or everything where the peer closed without one.
pub fn take_record(bytes: &Vec<u8>) -> (r: Vec<u8>)
    ensures
        r@ == record_prefix(bytes@),
{
    let end = match find_terminator(bytes) {
        Some(n) => n,
        None => bytes.len(),
    };
    let mut r: Vec<u8> = Vec::new();
    let mut i: usize = 0;
    while i < end
        invariant
            end <= bytes@.len(),
            i <= end,
            r@ == bytes@.subrange(0, i as int),
        decreases end - i,
    {
        r.push(bytes[i]);
        assert(bytes@.subrange(0, i as int + 1) =~= bytes@.subrange(0, i as int).push(bytes@[i as int]));
        i = i + 1;
    }
    proof {
        lemma_record_prefix(bytes@, end as int);
    }
    r
}

/// Accepts a packet as the answer to `request`: it must be a response, and
/// of the variant that answers the request.
pub fn unpack_response(request: &Request, packet: ControlPacket) -> (r: Result<
    Response,
    ControlInterfaceError,
>)
    ensures
        packet is Req ==> r is Err && r->Err_0 is InvalidPacketType,
        packet matches ControlPacket::Res(resp) ==> if answers(*request, resp) {
            r == Ok::<Response, ControlInterfaceError>(resp)
        } else {
            r is Err && r->Err_0 is UnexpectedVariant
        },
{
    match packet {
        ControlPacket::Res(resp) => {
            if resp.answers(request) {
                Ok(resp)
            } else {
                Err(ControlInterfaceError::UnexpectedVariant)
            }
        },
        ControlPacket::Req(_) => Err(
            ControlInterfaceError::InvalidPacketType("a request where a response was expected".to_owned()),
        ),
    }
}

/// Accepts a packet as a request: a response is refused.
pub fn unpack_request(packet: ControlPacket) -> (r: Result<Request, ControlInterfaceError>)
    ensures
        packet matches ControlPacket::Req(req) ==> r == Ok::<Request, ControlInterfaceError>(req),
        packet is Res ==> r is Err && r->Err_0 is InvalidPacketType,
{
    match packet {
        ControlPacket::Req(req) => Ok(req),
        ControlPacket::Res(_) => Err(
            ControlInterfaceError::InvalidPacketType("a response where a request was expected".to_owned()),
        ),
    }
}

} // verus!
