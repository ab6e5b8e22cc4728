//! Wire formats: the body of a configuration request, the metadata
//! dictionary it may carry, and the framing of the configuration sent back.
use vstd::prelude::*;

use crate::model::{opt_bytes_view, NetworkId};

verus! {

/// Verb of an OK reply.
pub const VERB_OK: u8 = 0x03;

/// Verb of a configuration request.
pub const VERB_NETWORK_CONFIG_REQUEST: u8 = 0x0b;

/// Verb of an unsolicited configuration push.
pub const VERB_NETWORK_CONFIG: u8 = 0x0c;

/// Largest serialized configuration that is sent.
pub const MAX_CONFIG_BYTES: usize = 65535;

/// A configuration request as read from a packet body.
pub struct RequestPacket {
    pub network_id: NetworkId,
    /// The metadata dictionary as it came, empty where the request has none.
    pub metadata: Vec<u8>,
}

/// What the packet handler makes of one message.
pub enum Dispatch {
    /// Another handler's verb.
    NotHandled,
    /// A configuration request whose body is malformed.
    Malformed,
    /// A well-formed configuration request.
    Request(RequestPacket),
}

/// Why a configuration was not sent.
#[derive(Clone, Copy, Debug, PartialEq, Eq, Structural)]
pub enum SendError {
    /// The configuration could not be serialized.
    Unserializable,
    /// The serialized configuration is over the size ceiling.
    TooLarge,
}

/// Where the scan of a metadata dictionary stands.
#[derive(Clone, Copy, Debug, PartialEq, Eq, Structural)]
pub enum DictState {
    LineStart,
    Key,
    Value,
    Escape,
}

/// One byte of a dictionary. Entries are `key=value`, separated by newlines;
/// the last one needs no newline and blank lines are skipped. A key is not
/// empty and holds no `=` or newline. In a value, a backslash escapes the
/// byte after it, whatever it is, and an unescaped newline ends the entry.
pub open spec fn dict_step(st: DictState, b: u8) -> Option<DictState> {
    match st {
        DictState::LineStart => if b == 0x0a {
            Some(DictState::LineStart)
        } else if b == 0x3d {
            None
        } else {
            Some(DictState::Key)
        },
        DictState::Key => if b == 0x3d {
            Some(DictState::Value)
        } else if b == 0x0a {
            None
        } else {
            Some(DictState::Key)
        },
        DictState::Value => if b == 0x0a {
            Some(DictState::LineStart)
        } else if b == 0x5c {
            Some(DictState::Escape)
        } else {
            Some(DictState::Value)
        },
        DictState::Escape => Some(DictState::Value),
    }
}

fn dict_step_exec(st: DictState, b: u8) -> (r: Option<DictState>)
    ensures
        r == dict_step(st, b),
{
    match st {
        DictState::LineStart => if b == 0x0a {
            Some(DictState::LineStart)
        } else if b == 0x3d {
            None
        } else {
            Some(DictState::Key)
        },
        DictState::Key => if b == 0x3d {
            Some(DictState::Value)
        } else if b == 0x0a {
            None
        } else {
            Some(DictState::Key)
        },
        DictState::Value => if b == 0x0a {
            Some(DictState::LineStart)
        } else if b == 0x5c {
            Some(DictState::Escape)
        } else {
            Some(DictState::Value)
        },
        DictState::Escape => Some(DictState::Value),
    }
}

/// The state after scanning `s` from `st`, `None` where a byte is refused.
pub open spec fn dict_run(s: Seq<u8>, st: DictState) -> Option<DictState>
    decreases s.len(),
{
    if s.len() == 0 {
        Some(st)
    } else {
        match dict_step(st, s[0]) {
            Some(n) => dict_run(s.drop_first(), n),
            None => None,
        }
    }
}

/// A well-formed dictionary: every entry has its `=`, and none ends inside
/// an escape. The empty one has no entries.
pub open spec fn valid_dictionary(s: Seq<u8>) -> bool {
    dict_run(s, DictState::LineStart) == Some(DictState::LineStart) || dict_run(
        s,
        DictState::LineStart,
    ) == Some(DictState::Value)
}

/// Big-endian `u64` at `i`.
pub open spec fn be_u64_at(s: Seq<u8>, i: int) -> u64 {
    ((s[i] as u64) << 56u64) | ((s[i + 1] as u64) << 48u64) | ((s[i + 2] as u64) << 40u64) | ((s[i
        + 3] as u64) << 32u64) | ((s[i + 4] as u64) << 24u64) | ((s[i + 5] as u64) << 16u64) | ((s[i
        + 6] as u64) << 8u64) | (s[i + 7] as u64)
}

/// Big-endian `u16` at `i`.
pub open spec fn be_u16_at(s: Seq<u8>, i: int) -> u16 {
    ((s[i] as u16) << 8u16) | (s[i + 1] as u16)
}

/// Big-endian bytes of `v`.
pub open spec fn be64(v: u64) -> Seq<u8> {
    seq![
        (v >> 56u64) as u8,
        (v >> 48u64) as u8,
        (v >> 40u64) as u8,
        (v >> 32u64) as u8,
        (v >> 24u64) as u8,
        (v >> 16u64) as u8,
        (v >> 8u64) as u8,
        v as u8,
    ]
}

/// Big-endian bytes of `v`.
pub open spec fn be16(v: u16) -> Seq<u8> {
    seq![(v >> 8u16) as u8, v as u8]
}

/// The request body at `cursor`: an 8-byte network id, then, where anything
/// follows, a 2-byte length and that many bytes of dictionary. `None` where
/// the body is malformed; otherwise the id and the metadata. Bytes after the
/// dictionary are left to fields that later versions may add.
pub open spec fn parse_request(p: Seq<u8>, cursor: int) -> Option<(u64, Seq<u8>)> {
    if cursor + 8 > p.len() {
        None
    } else {
        let id = be_u64_at(p, cursor);
        let c = cursor + 8;
        if id == 0 {
            None
        } else if c == p.len() {
            Some((id, Seq::empty()))
        } else if c + 2 > p.len() {
            None
        } else {
            let n = be_u16_at(p, c) as int;
            if c + 2 + n > p.len() {
                None
            } else {
                let d = p.subrange(c + 2, c + 2 + n);
                if valid_dictionary(d) {
                    Some((id, d))
                } else {
                    None
                }
            }
        }
    }
}

/// Whether `d` is a well-formed dictionary.
pub fn dictionary_is_valid(d: &[u8]) -> (r: bool)
    ensures
        r == valid_dictionary(d@),
{
    let mut st = DictState::LineStart;
    let mut i: usize = 0;
    assert(d@.subrange(0, d@.len() as int) =~= d@);
    while i < d.len()
        invariant
            i <= d@.len(),
            dict_run(d@, DictState::LineStart) == dict_run(d@.subrange(i as int, d@.len() as int), st),
        decreases d@.len() - i,
    {
        let b = d[i];
        proof {
            let rest = d@.subrange(i as int, d@.len() as int);
            assert(rest[0] == b);
            assert(rest.drop_first() =~= d@.subrange(i + 1, d@.len() as int));
        }
        let next = dict_step_exec(st, b);
        match next {
            Some(n) => {
                st = n;
            },
            None => {
                return false;
            },
        }
        i += 1;
    }
    proof {
        assert(d@.subrange(i as int, d@.len() as int).len() == 0);
    }
    st == DictState::LineStart || st == DictState::Value
}

fn read_u64_be(p: &[u8], i: usize) -> (r: u64)
    requires
        i + 8 <= p@.len(),
    ensures
        r == be_u64_at(p@, i as int),
{
    ((p[i] as u64) << 56u64) | ((p[i + 1] as u64) << 48u64) | ((p[i + 2] as u64) << 40u64) | ((p[i
        + 3] as u64) << 32u64) | ((p[i + 4] as u64) << 24u64) | ((p[i + 5] as u64) << 16u64) | ((p[i
        + 6] as u64) << 8u64) | (p[i + 7] as u64)
}

fn read_u16_be(p: &[u8], i: usize) -> (r: u16)
    requires
        i + 2 <= p@.len(),
    ensures
        r == be_u16_at(p@, i as int),
{
    ((p[i] as u16) << 8u16) | (p[i + 1] as u16)
}

fn copy_range(p: &[u8], start: usize, end: usize) -> (r: Vec<u8>)
    requires
        start <= end <= p@.len(),
    ensures
        r@ == p@.subrange(start as int, end as int),
{
    let mut r: Vec<u8> = Vec::new();
    let mut i: usize = start;
    while i < end
        invariant
            start <= i <= end,
            end <= p@.len(),
            r@ == p@.subrange(start as int, i as int),
        decreases end - i,
    {
        r.push(p[i]);
        i += 1;
        assert(r@ =~= p@.subrange(start as int, i as int));
    }
    r
}

/// Classifies a message by verb and reads a configuration request's body from
/// `cursor` on. Reads only; a malformed body yields `Malformed`.
pub fn dispatch(verb: u8, payload: &[u8], cursor: usize) -> (r: Dispatch)
    ensures
        verb != VERB_NETWORK_CONFIG_REQUEST ==> r is NotHandled,
        verb == VERB_NETWORK_CONFIG_REQUEST ==> match parse_request(payload@, cursor as int) {
            None => r is Malformed,
            Some((id, meta)) => r is Request && r->Request_0.network_id.id == id
                && r->Request_0.metadata@ == meta,
        },
{
    if verb != VERB_NETWORK_CONFIG_REQUEST {
        return Dispatch::NotHandled;
    }
    if cursor > payload.len() || payload.len() - cursor < 8 {
        return Dispatch::Malformed;
    }
    let id = read_u64_be(payload, cursor);
    let network_id = match NetworkId::from_u64(id) {
        Some(n) => n,
        None => {
            return Dispatch::Malformed;
        },
    };
    let c = cursor + 8;
    if payload.len() - c == 0 {
        Dispatch::Request(RequestPacket { network_id, metadata: Vec::new() })
    } else if payload.len() - c < 2 {
        Dispatch::Malformed
    } else {
        let n = read_u16_be(payload, c) as usize;
        if payload.len() - (c + 2) < n {
            return Dispatch::Malformed;
        }
        let metadata = copy_range(payload, c + 2, c + 2 + n);
        if !dictionary_is_valid(metadata.as_slice()) {
            return Dispatch::Malformed;
        }
        Dispatch::Request(RequestPacket { network_id, metadata })
    }
}

/// The header of a configuration message: an OK reply to message `id` of a
/// request, or a push.
pub open spec fn response_header(in_re_message_id: Option<u64>) -> Seq<u8> {
    match in_re_message_id {
        Some(id) => seq![VERB_OK, VERB_NETWORK_CONFIG_REQUEST] + be64(id),
        None => seq![VERB_NETWORK_CONFIG],
    }
}

/// The message that carries first-generation configuration bytes `data`, or
/// why none is sent.
pub open spec fn framed(
    network_id: u64,
    in_re_message_id: Option<u64>,
    data: Option<Seq<u8>>,
) -> Result<Seq<u8>, SendError> {
    match data {
        None => Err(SendError::Unserializable),
        Some(d) => if d.len() > MAX_CONFIG_BYTES {
            Err(SendError::TooLarge)
        } else {
            Ok(response_header(in_re_message_id) + be64(network_id) + be16(d.len() as u16) + d)
        },
    }
}

fn push_u64_be(out: &mut Vec<u8>, v: u64)
    ensures
        final(out)@ == old(out)@ + be64(v),
{
    out.push(#[verifier::truncate] ((v >> 56u64) as u8));
    out.push(#[verifier::truncate] ((v >> 48u64) as u8));
    out.push(#[verifier::truncate] ((v >> 40u64) as u8));
    out.push(#[verifier::truncate] ((v >> 32u64) as u8));
    out.push(#[verifier::truncate] ((v >> 24u64) as u8));
    out.push(#[verifier::truncate] ((v >> 16u64) as u8));
    out.push(#[verifier::truncate] ((v >> 8u64) as u8));
    out.push(#[verifier::truncate] (v as u8));
    assert(final(out)@ =~= old(out)@ + be64(v));
}

/// Frames serialized configuration `config_data` for a first-generation peer:
/// as the OK reply to request `in_re_message_id`, or as a push where it is
/// `None`. Nothing is framed for a configuration that could not be
/// serialized, or for one over `MAX_CONFIG_BYTES`. No encoding exists for
/// second-generation peers, so they are not admitted.
pub fn frame_config(
    network_id: NetworkId,
    in_re_message_id: Option<u64>,
    peer_is_v2: bool,
    config_data: Option<Vec<u8>>,
) -> (r: Result<Vec<u8>, SendError>)
    requires
        !peer_is_v2,
    ensures
        match (r, framed(network_id.id, in_re_message_id, opt_bytes_view(config_data))) {
            (Ok(b), Ok(s)) => b@ == s,
            (Err(e), Err(f)) => e == f,
            _ => false,
        },
{
    let data = match config_data {
        Some(d) => d,
        None => {
            return Err(SendError::Unserializable);
        },
    };
    if data.len() > MAX_CONFIG_BYTES {
        return Err(SendError::TooLarge);
    }
    let mut out: Vec<u8> = Vec::new();
    match in_re_message_id {
        Some(id) => {
            out.push(VERB_OK);
            out.push(VERB_NETWORK_CONFIG_REQUEST);
            push_u64_be(&mut out, id);
        },
        None => {
            out.push(VERB_NETWORK_CONFIG);
        },
    }
    assert(out@ =~= response_header(in_re_message_id));
    push_u64_be(&mut out, network_id.id);
    let n = data.len() as u16;
    out.push(#[verifier::truncate] ((n >> 8u16) as u8));
    out.push(#[verifier::truncate] (n as u8));
    let ghost before = out@;
    let mut i: usize = 0;
    while i < data.len()
        invariant
            i <= data@.len(),
            out@ == before + data@.subrange(0, i as int),
        decreases data@.len() - i,
    {
        out.push(data[i]);
        i += 1;
        assert(out@ =~= before + data@.subrange(0, i as int));
    }
    assert(data@.subrange(0, data@.len() as int) =~= data@);
    assert(out@ =~= response_header(in_re_message_id) + be64(network_id.id) + be16(
        data@.len() as u16,
    ) + data@);
    Ok(out)
}

} // verus!
