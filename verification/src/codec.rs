use vstd::prelude::*;
use crate::addr::TransportAddr;
use crate::descriptor::{Data, DataView};
use crate::errors::FormatError;
use crate::wire::{
    be64, lemma_take_u64, push_be64, push_bytes, read_bytes, read_u64, take_u64,
};

verus! {

// ---------------------------------------------------------------------------
// The binary record: the descriptor's fields in their fixed order, each
// address as a family tag and its integer parts, each byte field prefixed
// by its length. Every integer stands as eight big-endian bytes.
// ---------------------------------------------------------------------------

pub const ADDR_TAG_V4: u64 = 4;

pub const ADDR_TAG_V6: u64 = 6;

/// The bytes an address occupies in a record.
pub open spec fn addr_bytes(a: TransportAddr) -> Seq<u8> {
    match a {
        TransportAddr::V4 { ip, port } => be64(ADDR_TAG_V4) + be64(ip as u64) + be64(port as u64),
        TransportAddr::V6 { ip_hi, ip_lo, port } => be64(ADDR_TAG_V6) + be64(ip_hi) + be64(ip_lo)
            + be64(port as u64),
    }
}

/// A length-prefixed byte field.
pub open spec fn field_bytes(f: Seq<u8>) -> Seq<u8>
    recommends
        f.len() <= u64::MAX,
{
    be64(f.len() as u64) + f
}

/// The whole binary record of a descriptor: relay-server address, username,
/// password, realm, nonce, mobility ticket, counterpart address, in that order.
pub open spec fn record_bytes(d: DataView) -> Seq<u8> {
    addr_bytes(d.turn_server) + field_bytes(d.username) + field_bytes(d.password) + field_bytes(
        d.realm,
    ) + field_bytes(d.nonce) + field_bytes(d.mobility_ticket) + addr_bytes(d.counterpart)
}

// ---------------------------------------------------------------------------
// The record parser, stated first as a mathematical function.
// ---------------------------------------------------------------------------

/// Reading one address from the front of a byte sequence.
pub open spec fn take_addr(s: Seq<u8>) -> Option<(TransportAddr, Seq<u8>)> {
    match take_u64(s) {
        Some((tag, s1)) => if tag == ADDR_TAG_V4 {
            match take_u64(s1) {
                Some((ip, s2)) => match take_u64(s2) {
                    Some((port, s3)) => if ip <= u32::MAX as u64 && port <= u16::MAX as u64 {
                        Some((TransportAddr::V4 { ip: ip as u32, port: port as u16 }, s3))
                    } else {
                        None
                    },
                    None => None,
                },
                None => None,
            }
        } else if tag == ADDR_TAG_V6 {
            match take_u64(s1) {
                Some((ip_hi, s2)) => match take_u64(s2) {
                    Some((ip_lo, s3)) => match take_u64(s3) {
                        Some((port, s4)) => if port <= u16::MAX as u64 {
                            Some((TransportAddr::V6 { ip_hi, ip_lo, port: port as u16 }, s4))
                        } else {
                            None
                        },
                        None => None,
                    },
                    None => None,
                },
                None => None,
            }
        } else {
            None
        },
        None => None,
    }
}

/// Reading one length-prefixed byte field from the front of a byte sequence.
pub open spec fn take_field(s: Seq<u8>) -> Option<(Seq<u8>, Seq<u8>)> {
    match take_u64(s) {
        Some((n, s1)) => if n <= s1.len() {
            Some((s1.take(n as int), s1.skip(n as int)))
        } else {
            None
        },
        None => None,
    }
}

/// The record parser: the descriptor a byte sequence holds, or nothing on any
/// structural mismatch (short input, unknown address tag, out-of-range part,
/// short field, or trailing bytes).
pub open spec fn parse_record(s: Seq<u8>) -> Option<DataView> {
    match take_addr(s) {
        Some((turn_server, s)) => match take_field(s) {
            Some((username, s)) => match take_field(s) {
                Some((password, s)) => match take_field(s) {
                    Some((realm, s)) => match take_field(s) {
                        Some((nonce, s)) => match take_field(s) {
                            Some((mobility_ticket, s)) => match take_addr(s) {
                                Some((counterpart, s)) => if s.len() == 0 {
                                    Some(
                                        DataView {
                                            turn_server,
                                            username,
                                            password,
                                            realm,
                                            nonce,
                                            mobility_ticket,
                                            counterpart,
                                        },
                                    )
                                } else {
                                    None
                                },
                                None => None,
                            },
                            None => None,
                        },
                        None => None,
                    },
                    None => None,
                },
                None => None,
            },
            None => None,
        },
        None => None,
    }
}

// ---------------------------------------------------------------------------
// The record layer inverts: parsing the bytes of a descriptor yields that
// descriptor.
// ---------------------------------------------------------------------------

pub proof fn lemma_take_addr(a: TransportAddr, rest: Seq<u8>)
    ensures
        take_addr(addr_bytes(a) + rest) == Some((a, rest)),
{
    match a {
        TransportAddr::V4 { ip, port } => {
            assert(addr_bytes(a) + rest =~= be64(ADDR_TAG_V4) + (be64(ip as u64) + (be64(
                port as u64,
            ) + rest)));
            lemma_take_u64(ADDR_TAG_V4, be64(ip as u64) + (be64(port as u64) + rest));
            lemma_take_u64(ip as u64, be64(port as u64) + rest);
            lemma_take_u64(port as u64, rest);
        },
        TransportAddr::V6 { ip_hi, ip_lo, port } => {
            assert(addr_bytes(a) + rest =~= be64(ADDR_TAG_V6) + (be64(ip_hi) + (be64(ip_lo) + (
            be64(port as u64) + rest))));
            lemma_take_u64(ADDR_TAG_V6, be64(ip_hi) + (be64(ip_lo) + (be64(port as u64) + rest)));
            lemma_take_u64(ip_hi, be64(ip_lo) + (be64(port as u64) + rest));
            lemma_take_u64(ip_lo, be64(port as u64) + rest);
            lemma_take_u64(port as u64, rest);
        },
    }
}

pub proof fn lemma_take_field(f: Seq<u8>, rest: Seq<u8>)
    requires
        f.len() <= u64::MAX,
    ensures
        take_field(field_bytes(f) + rest) == Some((f, rest)),
{
    let n = f.len() as u64;
    assert(field_bytes(f) + rest =~= be64(n) + (f + rest));
    lemma_take_u64(n, f + rest);
    assert((f + rest).take(n as int) =~= f);
    assert((f + rest).skip(n as int) =~= rest);
}

/// The record layer round-trips: for every descriptor whose byte fields fit
/// their length prefixes, parsing the record bytes gives back the descriptor,
/// field for field.
#[verifier::rlimit(100)]
pub proof fn lemma_record_roundtrip(d: DataView)
    requires
        d.username.len() <= u64::MAX,
        d.password.len() <= u64::MAX,
        d.realm.len() <= u64::MAX,
        d.nonce.len() <= u64::MAX,
        d.mobility_ticket.len() <= u64::MAX,
    ensures
        parse_record(record_bytes(d)) == Some(d),
{
    let r6 = addr_bytes(d.counterpart);
    let r5 = field_bytes(d.mobility_ticket) + r6;
    let r4 = field_bytes(d.nonce) + r5;
    let r3 = field_bytes(d.realm) + r4;
    let r2 = field_bytes(d.password) + r3;
    let r1 = field_bytes(d.username) + r2;
    assert(record_bytes(d) =~= addr_bytes(d.turn_server) + r1);
    lemma_take_addr(d.turn_server, r1);
    lemma_take_field(d.username, r2);
    lemma_take_field(d.password, r3);
    lemma_take_field(d.realm, r4);
    lemma_take_field(d.nonce, r5);
    lemma_take_field(d.mobility_ticket, r6);
    lemma_take_addr(d.counterpart, Seq::<u8>::empty());
    assert(addr_bytes(d.counterpart) + Seq::<u8>::empty() =~= addr_bytes(d.counterpart));
}

// ---------------------------------------------------------------------------
// The executable encoder and parser.
// ---------------------------------------------------------------------------

fn push_addr(v: &mut Vec<u8>, a: &TransportAddr)
    ensures
        final(v)@ == old(v)@ + addr_bytes(*a),
{
    match a {
        TransportAddr::V4 { ip, port } => {
            push_be64(v, ADDR_TAG_V4);
            push_be64(v, *ip as u64);
            push_be64(v, *port as u64);
        },
        TransportAddr::V6 { ip_hi, ip_lo, port } => {
            push_be64(v, ADDR_TAG_V6);
            push_be64(v, *ip_hi);
            push_be64(v, *ip_lo);
            push_be64(v, *port as u64);
        },
    }
    assert(v@ =~= old(v)@ + addr_bytes(*a));
}

fn push_field(v: &mut Vec<u8>, f: &Vec<u8>)
    ensures
        final(v)@ == old(v)@ + field_bytes(f@),
{
    push_be64(v, f.len() as u64);
    push_bytes(v, f);
    assert(v@ =~= old(v)@ + field_bytes(f@));
}

fn read_addr(v: &Vec<u8>, i: usize) -> (r: Option<(TransportAddr, usize)>)
    requires
        i <= v@.len(),
    ensures
        match r {
            Some((a, j)) => i <= j <= v@.len() && take_addr(v@.skip(i as int)) == Some((
                a,
                v@.skip(j as int),
            )),
            None => take_addr(v@.skip(i as int)) is None,
        },
{
    let (tag, j) = match read_u64(v, i) {
        Some(x) => x,
        None => { return None; },
    };
    if tag == ADDR_TAG_V4 {
        let (ip, j) = match read_u64(v, j) {
            Some(x) => x,
            None => { return None; },
        };
        let (port, j) = match read_u64(v, j) {
            Some(x) => x,
            None => { return None; },
        };
        if ip <= u32::MAX as u64 && port <= u16::MAX as u64 {
            Some((TransportAddr::V4 { ip: ip as u32, port: port as u16 }, j))
        } else {
            None
        }
    } else if tag == ADDR_TAG_V6 {
        let (ip_hi, j) = match read_u64(v, j) {
            Some(x) => x,
            None => { return None; },
        };
        let (ip_lo, j) = match read_u64(v, j) {
            Some(x) => x,
            None => { return None; },
        };
        let (port, j) = match read_u64(v, j) {
            Some(x) => x,
            None => { return None; },
        };
        if port <= u16::MAX as u64 {
            Some((TransportAddr::V6 { ip_hi, ip_lo, port: port as u16 }, j))
        } else {
            None
        }
    } else {
        None
    }
}

fn read_field(v: &Vec<u8>, i: usize) -> (r: Option<(Vec<u8>, usize)>)
    requires
        i <= v@.len(),
    ensures
        match r {
            Some((f, j)) => i <= j <= v@.len() && take_field(v@.skip(i as int)) == Some((
                f@,
                v@.skip(j as int),
            )),
            None => take_field(v@.skip(i as int)) is None,
        },
{
    let (n, j) = match read_u64(v, i) {
        Some(x) => x,
        None => { return None; },
    };
    let avail = v.len() - j;
    if n > avail as u64 {
        return None;
    }
    let n_us = n as usize;
    let f = read_bytes(v, j, n_us);
    proof {
        assert(v@.skip(j as int).take(n as int) =~= v@.subrange(j as int, j as int + n as int));
        assert(v@.skip(j as int).skip(n as int) =~= v@.skip(j as int + n as int));
    }
    Some((f, j + n_us))
}

impl Data {
    /// The descriptor's binary record, exactly as `record_bytes` states it.
    pub fn to_record_bytes(&self) -> (r: Vec<u8>)
        ensures
            r@ == record_bytes(self@),
    {
        let mut v: Vec<u8> = Vec::new();
        push_addr(&mut v, &self.turn_server);
        push_field(&mut v, &self.username);
        push_field(&mut v, &self.password);
        push_field(&mut v, &self.realm);
        push_field(&mut v, &self.nonce);
        push_field(&mut v, &self.mobility_ticket);
        push_addr(&mut v, &self.counterpart);
        assert(v@ =~= record_bytes(self@));
        v
    }

    /// Parses a binary record; the result is exactly what `parse_record` says
    /// of the bytes.
    #[verifier::rlimit(100)]
    pub fn from_record_bytes(v: &Vec<u8>) -> (r: Option<Data>)
        ensures
            match r {
                Some(d) => parse_record(v@) == Some(d@),
                None => parse_record(v@) is None,
            },
    {
        proof {
            assert(v@.skip(0) =~= v@);
        }
        let (turn_server, i) = match read_addr(v, 0) {
            Some(x) => x,
            None => { return None; },
        };
        let (username, i) = match read_field(v, i) {
            Some(x) => x,
            None => { return None; },
        };
        let (password, i) = match read_field(v, i) {
            Some(x) => x,
            None => { return None; },
        };
        let (realm, i) = match read_field(v, i) {
            Some(x) => x,
            None => { return None; },
        };
        let (nonce, i) = match read_field(v, i) {
            Some(x) => x,
            None => { return None; },
        };
        let (mobility_ticket, i) = match read_field(v, i) {
            Some(x) => x,
            None => { return None; },
        };
        let (counterpart, i) = match read_addr(v, i) {
            Some(x) => x,
            None => { return None; },
        };
        if i != v.len() {
            return None;
        }
        let d = Data {
            turn_server,
            username,
            password,
            realm,
            nonce,
            mobility_ticket,
            counterpart,
        };
        assert(parse_record(v@) == Some(d@));
        Some(d)
    }
}

// ---------------------------------------------------------------------------
// The two outer layers of the blob, done by outside crates: a reversible
// compression transform and a text-safe binary-to-text transform.
// ---------------------------------------------------------------------------

/// What flate2's write-side ZlibDecoder yields for a byte sequence: the
/// inflated bytes, or nothing where the sequence is not one whole zlib stream.
pub uninterp spec fn inflate_of(z: Seq<u8>) -> Option<Seq<u8>>;

/// Relies on flate2::write::ZlibEncoder: it emits a zlib stream that
/// flate2::write::ZlibDecoder inflates back to the input, byte for byte.
/// Writing to an in-memory encoder cannot fail.
#[verifier::external_body]
fn deflate_bytes(data: &Vec<u8>) -> (r: Vec<u8>)
    ensures
        inflate_of(r@) == Some(data@),
{
    let mut e = flate2::write::ZlibEncoder::new(Vec::new(), flate2::Compression::default());
    std::io::Write::write_all(&mut e, data).expect("an in-memory zlib encoder accepts all input");
    e.finish().expect("an in-memory zlib encoder finishes without I/O")
}

/// Relies on flate2::write::ZlibDecoder: what a byte sequence inflates to is a
/// function of the bytes alone, named `inflate_of`; the decoder errs exactly
/// where that names nothing.
#[verifier::external_body]
fn inflate_bytes(data: &Vec<u8>) -> (r: Option<Vec<u8>>)
    ensures
        match r {
            Some(out) => inflate_of(data@) == Some(out@),
            None => inflate_of(data@) is None,
        },
{
    let mut d = flate2::write::ZlibDecoder::new(Vec::new());
    if std::io::Write::write_all(&mut d, data).is_err() {
        return None;
    }
    d.finish().ok()
}

/// What base64's STANDARD engine decodes a text to: the bytes, or nothing
/// where the text is not canonical padded base64.
pub uninterp spec fn b64_decode_of(s: Seq<char>) -> Option<Seq<u8>>;

/// Relies on base64's STANDARD engine: Engine::encode emits the canonical
/// padded encoding of the input, which Engine::decode maps back to the input
/// bytes.
#[verifier::external_body]
fn b64_encode(data: &Vec<u8>) -> (r: String)
    ensures
        b64_decode_of(r@) == Some(data@),
{
    base64::Engine::encode(&base64::engine::general_purpose::STANDARD, data)
}

/// Relies on base64's STANDARD engine: what Engine::decode returns is a
/// function of the text alone, named `b64_decode_of`; it errs exactly where
/// that names nothing.
#[verifier::external_body]
fn b64_decode(s: &str) -> (r: Option<Vec<u8>>)
    ensures
        match r {
            Some(out) => b64_decode_of(s@) == Some(out@),
            None => b64_decode_of(s@) is None,
        },
{
    base64::Engine::decode(&base64::engine::general_purpose::STANDARD, s).ok()
}

// ---------------------------------------------------------------------------
// The whole codec: record bytes, deflate, base64 — and back.
// ---------------------------------------------------------------------------

/// What `deserialize` recovers from a text blob: base64-decode it, inflate
/// the bytes, parse the record.
pub open spec fn spec_decode(s: Seq<char>) -> Option<DataView> {
    match b64_decode_of(s) {
        Some(z) => match inflate_of(z) {
            Some(b) => parse_record(b),
            None => None,
        },
        None => None,
    }
}

/// Which format error a blob that decodes to nothing earns: each of the three
/// layers rejects with its own variant.
pub open spec fn spec_decode_error(s: Seq<char>) -> FormatError {
    match b64_decode_of(s) {
        Some(z) => match inflate_of(z) {
            Some(_) => FormatError::MalformedRecord,
            None => FormatError::CorruptCompression,
        },
        None => FormatError::InvalidText,
    }
}

impl Data {
    /// Encodes the descriptor as a text blob; `deserialize` maps the blob back
    /// to this very descriptor.
    pub fn serialize(&self) -> (r: String)
        ensures
            spec_decode(r@) == Some(self@),
    {
        let rec = self.to_record_bytes();
        proof {
            vstd::std_specs::vec::axiom_spec_len(&self.username);
            vstd::std_specs::vec::axiom_spec_len(&self.password);
            vstd::std_specs::vec::axiom_spec_len(&self.realm);
            vstd::std_specs::vec::axiom_spec_len(&self.nonce);
            vstd::std_specs::vec::axiom_spec_len(&self.mobility_ticket);
            lemma_record_roundtrip(self@);
        }
        let z = deflate_bytes(&rec);
        b64_encode(&z)
    }

    /// Decodes a text blob. Succeeds exactly on blobs that carry a descriptor,
    /// and names the layer that rejected the rest.
    pub fn deserialize(x: &str) -> (r: Result<Data, FormatError>)
        ensures
            match r {
                Ok(d) => spec_decode(x@) == Some(d@),
                Err(e) => spec_decode(x@) is None && e == spec_decode_error(x@),
            },
    {
        let z = match b64_decode(x) {
            Some(z) => z,
            None => { return Err(FormatError::InvalidText); },
        };
        let b = match inflate_bytes(&z) {
            Some(b) => b,
            None => { return Err(FormatError::CorruptCompression); },
        };
        match Data::from_record_bytes(&b) {
            Some(d) => Ok(d),
            None => Err(FormatError::MalformedRecord),
        }
    }
}

} // verus!
