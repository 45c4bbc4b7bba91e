//! Framing of the messenger push socket (`push.yandex.ru`, "Xiva"):
//! MessagePack headers of outgoing frames, acknowledgements, the sequence
//! number of incoming frames, the JSON inside them, and the mapping of a
//! pushed chat message to a `new_message` record.

use vstd::prelude::*;
use vstd::utf8::{decode_utf8, encode_utf8, valid_utf8};

use crate::json::{self, find_field, find_in_items, find_in_members, member_of, scalar_text, Json, JsonNumber};
use crate::text::{self, decimal, opt_str, signed_decimal};

verus! {

// ── MessagePack pieces ──────────────────────────────────────────────

/// Two big-endian bytes of `n` (its low 16 bits).
pub open spec fn be2(n: nat) -> Seq<u8> {
    seq![((n / 256) % 256) as u8, (n % 256) as u8]
}

/// Four big-endian bytes of `n` (its low 32 bits).
pub open spec fn be4(n: nat) -> Seq<u8> {
    seq![((n / 16777216) % 256) as u8, ((n / 65536) % 256) as u8, ((n / 256) % 256) as u8, (n % 256) as u8]
}

/// A MessagePack unsigned integer as the client writes it: a positive
/// fixint below 128, then `uint 8`, `uint 16`, and `uint 32` of the low 32
/// bits for anything larger.
pub open spec fn msgpack_uint(n: u64) -> Seq<u8> {
    if n < 128 {
        seq![n as u8]
    } else if n < 256 {
        seq![0xccu8, n as u8]
    } else if n < 65536 {
        seq![0xcdu8] + be2(n as nat)
    } else {
        seq![0xceu8] + be4(n as nat)
    }
}

/// A MessagePack string header for `len` bytes (`str 32` keeps the low 32
/// bits of the length).
pub open spec fn msgpack_str_header(len: nat) -> Seq<u8> {
    if len < 32 {
        seq![(0xa0 + len) as u8]
    } else if len < 256 {
        seq![0xd9u8, len as u8]
    } else if len < 65536 {
        seq![0xdau8] + be2(len)
    } else {
        seq![0xdbu8] + be4(len)
    }
}

/// Header of an outgoing frame: `[0, seq, method]` as a 3-element array.
pub open spec fn push_header(seq: u64, method: Seq<char>) -> Seq<u8> {
    seq![0x93u8, 0x00u8] + msgpack_uint(seq) + msgpack_str_header(encode_utf8(method).len())
        + encode_utf8(method)
}

/// Acknowledgement of a pushed frame: type 2, then `[seq, 0]`.
pub open spec fn ack_packet(seq: u64) -> Seq<u8> {
    seq![0x02u8, 0x92u8] + msgpack_uint(seq) + seq![0x00u8]
}

fn push_be2(out: &mut Vec<u8>, n: u64)
    ensures
        final(out)@ == old(out)@ + be2(n as nat),
{
    out.push(((n / 256) % 256) as u8);
    out.push((n % 256) as u8);
    assert(final(out)@ =~= old(out)@ + be2(n as nat));
}

fn push_be4(out: &mut Vec<u8>, n: u64)
    ensures
        final(out)@ == old(out)@ + be4(n as nat),
{
    out.push(((n / 16777216) % 256) as u8);
    out.push(((n / 65536) % 256) as u8);
    out.push(((n / 256) % 256) as u8);
    out.push((n % 256) as u8);
    assert(final(out)@ =~= old(out)@ + be4(n as nat));
}

fn push_uint(out: &mut Vec<u8>, n: u64)
    ensures
        final(out)@ == old(out)@ + msgpack_uint(n),
{
    if n < 128 {
        out.push(n as u8);
    } else if n < 256 {
        out.push(0xcc);
        out.push(n as u8);
    } else if n < 65536 {
        out.push(0xcd);
        push_be2(out, n);
    } else {
        out.push(0xce);
        push_be4(out, n);
    }
    assert(final(out)@ =~= old(out)@ + msgpack_uint(n));
}

fn push_bytes(out: &mut Vec<u8>, b: &[u8])
    ensures
        final(out)@ == old(out)@ + b@,
{
    let mut i: usize = 0;
    while i < b.len()
        invariant
            i <= b@.len(),
            out@ == old(out)@ + b@.take(i as int),
        decreases b@.len() - i,
    {
        out.push(b[i]);
        assert(b@.take(i + 1) =~= b@.take(i as int).push(b@[i as int]));
        i = i + 1;
    }
    assert(b@.take(i as int) =~= b@);
}

/// MessagePack header of an outgoing frame with `seq` and `method`.
pub fn serialize_push_header_with_method(seq: u64, method: &str) -> (bytes: Vec<u8>)
    ensures
        bytes@ == push_header(seq, method@),
{
    let mut bytes: Vec<u8> = Vec::new();
    bytes.push(0x93);
    bytes.push(0x00);
    push_uint(&mut bytes, seq);
    let raw = method.as_bytes();
    let len = raw.len();
    assert(raw@ == encode_utf8(method@));
    if len < 32 {
        bytes.push((0xa0 + len) as u8);
    } else if len < 256 {
        bytes.push(0xd9);
        bytes.push(len as u8);
    } else if len < 65536 {
        bytes.push(0xda);
        push_be2(&mut bytes, len as u64);
    } else {
        bytes.push(0xdb);
        push_be4(&mut bytes, len as u64);
    }
    push_bytes(&mut bytes, raw);
    assert(bytes@ =~= push_header(seq, method@));
    bytes
}

/// Header of an outgoing `push` frame.
pub fn serialize_push_header(seq: u64) -> (bytes: Vec<u8>)
    ensures
        bytes@ == push_header(seq, "push"@),
{
    serialize_push_header_with_method(seq, "push")
}

/// Acknowledgement frame for the pushed frame `seq`.
pub fn make_ack_packet(seq: u64) -> (bytes: Vec<u8>)
    ensures
        bytes@ == ack_packet(seq),
{
    let mut bytes: Vec<u8> = Vec::new();
    bytes.push(0x02);
    bytes.push(0x92);
    push_uint(&mut bytes, seq);
    bytes.push(0x00);
    assert(bytes@ =~= ack_packet(seq));
    bytes
}

// ── incoming frames ─────────────────────────────────────────────────

/// Big-endian value of some bytes.
pub open spec fn be_value(s: Seq<u8>) -> nat
    decreases s.len(),
{
    if s.len() == 0 {
        0
    } else {
        be_value(s.drop_last()) * 256 + s.last() as nat
    }
}

pub open spec fn pow256(k: nat) -> nat
    decreases k,
{
    if k == 0 {
        1
    } else {
        256 * pow256((k - 1) as nat)
    }
}

/// The sequence number of an incoming frame and where what follows it
/// starts: byte 1 opens a 2-, 3- or 4-element array, byte 2 starts a
/// MessagePack unsigned integer (fixint, `uint 8/16/32/64`).
pub open spec fn frame_seq(bin: Seq<u8>) -> Option<(u64, nat)> {
    if bin.len() < 3 || !(bin[1] == 0x92 || bin[1] == 0x93 || bin[1] == 0x94) {
        None
    } else {
        let t = bin[2];
        if t <= 0x7f {
            Some((t as u64, 3))
        } else if t == 0xcc {
            if bin.len() < 4 { None } else { Some((bin[3] as u64, 4)) }
        } else if t == 0xcd {
            if bin.len() < 5 { None } else { Some((be_value(bin.subrange(3, 5)) as u64, 5)) }
        } else if t == 0xce {
            if bin.len() < 7 { None } else { Some((be_value(bin.subrange(3, 7)) as u64, 7)) }
        } else if t == 0xcf {
            if bin.len() < 11 { None } else { Some((be_value(bin.subrange(3, 11)) as u64, 11)) }
        } else {
            None
        }
    }
}

proof fn lemma_be_value_bound(s: Seq<u8>)
    ensures
        be_value(s) < pow256(s.len()),
    decreases s.len(),
{
    if s.len() > 0 {
        lemma_be_value_bound(s.drop_last());
        let v = be_value(s.drop_last());
        let p = pow256(s.drop_last().len());
        let b = s.last() as nat;
        assert(v * 256 + b < 256 * p) by (nonlinear_arith)
            requires
                v < p,
                b < 256,
        ;
    }
}

fn read_be(bin: &[u8], lo: usize, hi: usize) -> (v: u64)
    requires
        lo <= hi <= bin@.len(),
        hi - lo <= 8,
    ensures
        v == be_value(bin@.subrange(lo as int, hi as int)),
{
    let mut v: u64 = 0;
    let mut i = lo;
    while i < hi
        invariant
            lo <= i <= hi <= bin@.len(),
            hi - lo <= 8,
            v == be_value(bin@.subrange(lo as int, i as int)),
        decreases hi - i,
    {
        proof {
            let s = bin@.subrange(lo as int, i + 1);
            assert(s.drop_last() =~= bin@.subrange(lo as int, i as int));
            lemma_be_value_bound(s);
            reveal_with_fuel(pow256, 9);
            assert(pow256(8) == 18446744073709551616nat);
            lemma_pow256_mono(s.len(), 8);
        }
        v = v * 256 + bin[i] as u64;
        i = i + 1;
    }
    v
}

proof fn lemma_pow256_mono(a: nat, b: nat)
    requires
        a <= b,
    ensures
        pow256(a) <= pow256(b),
    decreases b,
{
    if a < b {
        lemma_pow256_mono(a, (b - 1) as nat);
    }
}

/// Sequence number of an incoming frame and the offset after it.
pub fn parse_msgpack_seq(bin: &[u8]) -> (r: Option<(u64, usize)>)
    ensures
        match r {
            Some((seq, off)) => frame_seq(bin@) == Some((seq, off as nat)),
            None => frame_seq(bin@) is None,
        },
{
    if bin.len() < 3 {
        return None;
    }
    let header = bin[1];
    if header != 0x92 && header != 0x93 && header != 0x94 {
        return None;
    }
    let t = bin[2];
    if t <= 0x7f {
        Some((t as u64, 3))
    } else if t == 0xcc {
        if bin.len() < 4 {
            None
        } else {
            Some((bin[3] as u64, 4))
        }
    } else if t == 0xcd {
        if bin.len() < 5 {
            None
        } else {
            Some((read_be(bin, 3, 5), 5))
        }
    } else if t == 0xce {
        if bin.len() < 7 {
            None
        } else {
            Some((read_be(bin, 3, 7), 7))
        }
    } else if t == 0xcf {
        if bin.len() < 11 {
            None
        } else {
            Some((read_be(bin, 3, 11), 11))
        }
    } else {
        None
    }
}

/// An acknowledgement reads back as the sequence number it acknowledges
/// (numbers from 2^32 on are written with their low 32 bits).
pub proof fn ack_seq_roundtrip(seq: u64)
    requires
        seq < 4294967296,
    ensures
        frame_seq(ack_packet(seq)) == Some((seq, (2 + msgpack_uint(seq).len()) as nat)),
{
    let p = ack_packet(seq);
    let n = seq as nat;
    let u = msgpack_uint(seq);
    assert(p.len() == 3 + u.len());
    assert(p[1] == 0x92u8);
    assert(p[2] == u[0]);
    if seq < 128 {
        assert(u[0] == seq as u8);
        assert((seq as u8) as u64 == seq);
    } else if seq < 256 {
        assert(p[3] == seq as u8);
        assert((seq as u8) as u64 == seq);
    } else if seq < 65536 {
        let s = p.subrange(3, 5);
        assert(s =~= be2(n));
        assert(s.drop_last() =~= seq![((n / 256) % 256) as u8]);
        assert(s.drop_last().drop_last() =~= Seq::<u8>::empty());
        reveal_with_fuel(be_value, 3);
        assert(s.last() as nat == n % 256);
        assert(s.drop_last().last() as nat == (n / 256) % 256);
        assert(be_value(s) == ((n / 256) % 256) * 256 + n % 256);
        assert((n / 256) % 256 * 256 + n % 256 == n) by (nonlinear_arith)
            requires
                n < 65536,
        ;
    } else {
        let s = p.subrange(3, 7);
        assert(s =~= be4(n));
        let b0 = (n / 16777216) % 256;
        let b1 = (n / 65536) % 256;
        let b2 = (n / 256) % 256;
        let b3 = n % 256;
        assert(s.drop_last() =~= seq![b0 as u8, b1 as u8, b2 as u8]);
        assert(s.drop_last().drop_last() =~= seq![b0 as u8, b1 as u8]);
        assert(s.drop_last().drop_last().drop_last() =~= seq![b0 as u8]);
        assert(s.drop_last().drop_last().drop_last().drop_last() =~= Seq::<u8>::empty());
        reveal_with_fuel(be_value, 5);
        assert(s.last() as nat == b3);
        assert(s.drop_last().last() as nat == b2);
        assert(s.drop_last().drop_last().last() as nat == b1);
        assert(s.drop_last().drop_last().drop_last().last() as nat == b0);
        assert(be_value(s) == ((b0 * 256 + b1) * 256 + b2) * 256 + b3);
        assert(((b0 * 256 + b1) * 256 + b2) * 256 + b3 == n) by (nonlinear_arith)
            requires
                n < 4294967296,
                b0 == (n / 16777216) % 256,
                b1 == (n / 65536) % 256,
                b2 == (n / 256) % 256,
                b3 == n % 256,
        ;
    }
}

/// `bin[i..i+2]` is `{"`.
pub open spec fn json_opens_at(bin: Seq<u8>, i: int) -> bool {
    0 <= i && i + 1 < bin.len() && bin[i] == 0x7b && bin[i + 1] == 0x22
}

/// The first position from `start` on where `{"` begins.
#[verifier::opaque]
pub open spec fn first_json_from(bin: Seq<u8>, start: int) -> Option<int> {
    if exists|i: int| start <= i && #[trigger] json_opens_at(bin, i) {
        Some(choose|i: int| start <= i && #[trigger] json_opens_at(bin, i) && forall|j: int| start <= j < i ==> !json_opens_at(bin, j))
    } else {
        None
    }
}

/// Where the JSON of a frame starts: the first `{"` from byte 50 on
/// (past the binary header), else the first anywhere.
pub open spec fn json_start(bin: Seq<u8>) -> Option<int> {
    let from = if bin.len() < 50 { bin.len() as int } else { 50 };
    match first_json_from(bin, from) {
        Some(p) => Some(p),
        None => first_json_from(bin, 0),
    }
}

/// The text encoded by `bytes`, when they are valid UTF-8.
#[verifier::opaque]
pub open spec fn utf8_of(bytes: Seq<u8>) -> Option<Seq<char>> {
    if valid_utf8(bytes) {
        Some(decode_utf8(bytes))
    } else {
        None
    }
}

/// The JSON text of a frame: its bytes from [`json_start`] on, when they
/// are valid UTF-8.
pub open spec fn frame_json(bin: Seq<u8>) -> Option<Seq<char>> {
    match json_start(bin) {
        Some(p) => utf8_of(bin.skip(p)),
        None => None,
    }
}

proof fn lemma_first_json_from(bin: Seq<u8>, start: int, i: int)
    requires
        start <= i,
        json_opens_at(bin, i),
        forall|j: int| start <= j < i ==> !json_opens_at(bin, j),
    ensures
        first_json_from(bin, start) == Some(i),
{
    reveal(first_json_from);
    let k = choose|k: int| start <= k && #[trigger] json_opens_at(bin, k) && forall|j: int| start <= j < k ==> !json_opens_at(bin, j);
    assert(start <= k && json_opens_at(bin, k) && forall|j: int| start <= j < k ==> !json_opens_at(bin, j));
    if k < i {
        assert(!json_opens_at(bin, k));
    } else if i < k {
        assert(!json_opens_at(bin, i));
    }
}

fn find_json_from(bin: &[u8], start: usize) -> (r: Option<usize>)
    requires
        start <= bin@.len(),
    ensures
        match r {
            Some(i) => first_json_from(bin@, start as int) == Some(i as int) && i < bin@.len(),
            None => first_json_from(bin@, start as int) is None,
        },
{
    let mut i = start;
    while bin.len() > 0 && i < bin.len() - 1
        invariant
            start <= i <= bin@.len(),
            forall|j: int| start <= j < i ==> !json_opens_at(bin@, j),
        decreases bin@.len() - i,
    {
        if bin[i] == 0x7b && bin[i + 1] == 0x22 {
            proof {
                lemma_first_json_from(bin@, start as int, i as int);
            }
            return Some(i);
        }
        i = i + 1;
    }
    reveal(first_json_from);
    assert(!exists|k: int| start <= k && #[trigger] json_opens_at(bin@, k)) by {
        assert forall|k: int| start <= k implies !#[trigger] json_opens_at(bin@, k) by {
            if k >= i {
                assert(k + 1 >= bin@.len());
            }
        }
    }
    None
}

/// `String::from_utf8`: the text of `bytes` when they are valid UTF-8.
#[verifier::external_body]
fn utf8_text(bytes: Vec<u8>) -> (r: Option<String>)
    ensures
        match r {
            Some(s) => valid_utf8(bytes@) && s@ == decode_utf8(bytes@),
            None => !valid_utf8(bytes@),
        },
{
    String::from_utf8(bytes).ok()
}

fn copy_from(bin: &[u8], start: usize) -> (rest: Vec<u8>)
    requires
        start <= bin@.len(),
    ensures
        rest@ == bin@.skip(start as int),
{
    let mut rest: Vec<u8> = Vec::new();
    let mut i = start;
    while i < bin.len()
        invariant
            start <= i <= bin@.len(),
            rest@ == bin@.subrange(start as int, i as int),
        decreases bin@.len() - i,
    {
        rest.push(bin[i]);
        assert(bin@.subrange(start as int, i + 1) =~= bin@.subrange(start as int, i as int).push(bin@[i as int]));
        i = i + 1;
    }
    assert(rest@ =~= bin@.skip(start as int));
    rest
}

/// The text of `bin[start..]` when it is valid UTF-8.
fn decode_tail(bin: &[u8], start: usize) -> (r: Option<String>)
    requires
        start <= bin@.len(),
    ensures
        opt_str(r) == utf8_of(bin@.skip(start as int)),
{
    let rest = copy_from(bin, start);
    let r = utf8_text(rest);
    proof {
        reveal(utf8_of);
    }
    r
}

/// The JSON text inside a binary frame.
pub fn extract_json_payload(bin: &[u8]) -> (r: Option<String>)
    ensures
        opt_str(r) == frame_json(bin@),
{
    let from: usize = if bin.len() < 50 { bin.len() } else { 50 };
    let start = match find_json_from(bin, from) {
        Some(p) => p,
        None => match find_json_from(bin, 0) {
            Some(p) => p,
            None => {
                assert(json_start(bin@) is None);
                return None;
            },
        },
    };
    assert(json_start(bin@) == Some(start as int));
    decode_tail(bin, start)
}

/// Depth-first search of a JSON value for the member `key` (see
/// [`json::find_field`]); numbers are written in decimal.
pub fn find_json_field(val: &Json, key: &str) -> (r: Option<String>)
    ensures
        opt_str(r) == find_field(*val, key@),
    decreases val,
{
    match val {
        Json::Object(members) => {
            match val.get(key) {
                Some(Json::Str(s)) => {
                    return Some(s.clone());
                },
                Some(Json::Number(JsonNumber::PosInt(n))) => {
                    return Some(text::decimal_string(*n));
                },
                _ => {},
            }
            let mut i: usize = 0;
            assert(members@.skip(0) =~= members@);
            while i < members.len()
                invariant
                    i <= members.len(),
                    *val == Json::Object(*members),
                    find_field(*val, key@) == find_in_members(members@.skip(i as int), key@),
                decreases members.len() - i,
            {
                let ghost m = members@.skip(i as int);
                assert(m[0] == members@[i as int]);
                assert(m.drop_first() =~= members@.skip(i + 1));
                proof {
                    assert(decreases_to!(*val => members@[i as int].1));
                }
                match find_json_field(&members[i].1, key) {
                    Some(s) => {
                        return Some(s);
                    },
                    None => {},
                }
                i = i + 1;
            }
            None
        },
        Json::Array(items) => {
            let mut i: usize = 0;
            assert(items@.skip(0) =~= items@);
            while i < items.len()
                invariant
                    i <= items.len(),
                    *val == Json::Array(*items),
                    find_field(*val, key@) == find_in_items(items@.skip(i as int), key@),
                decreases items.len() - i,
            {
                let ghost a = items@.skip(i as int);
                assert(a[0] == items@[i as int]);
                assert(a.drop_first() =~= items@.skip(i + 1));
                proof {
                    assert(decreases_to!(*val => items@[i as int]));
                }
                match find_json_field(&items[i], key) {
                    Some(s) => {
                        return Some(s);
                    },
                    None => {},
                }
                i = i + 1;
            }
            None
        },
        _ => None,
    }
}


// ── handling incoming frames ────────────────────────────────────────

/// What a binary frame of the push socket is.
#[derive(Clone, Copy, Debug, PartialEq, Eq)]
pub enum BinaryFrame {
    /// Empty, of another type, or without a readable sequence number.
    Ignored,
    /// Type 1 (a reply, or a push from the server) or type 2 (an error or
    /// control reply), with its sequence number and where its body starts.
    Rpc { seq: u64, body: usize, push: bool },
    /// Type 3: a passive push delivery.
    Delivery,
}

pub open spec fn frame_kind(bin: Seq<u8>) -> BinaryFrame {
    if bin.len() == 0 {
        BinaryFrame::Ignored
    } else if bin[0] == 1 || bin[0] == 2 {
        match frame_seq(bin) {
            Some((seq, off)) => BinaryFrame::Rpc { seq, body: off as usize, push: bin[0] == 1 },
            None => BinaryFrame::Ignored,
        }
    } else if bin[0] == 3 {
        BinaryFrame::Delivery
    } else {
        BinaryFrame::Ignored
    }
}

pub fn classify_binary(bin: &[u8]) -> (f: BinaryFrame)
    ensures
        f == frame_kind(bin@),
{
    if bin.len() == 0 {
        return BinaryFrame::Ignored;
    }
    let first = bin[0];
    if first == 1 || first == 2 {
        match parse_msgpack_seq(bin) {
            Some((seq, off)) => BinaryFrame::Rpc { seq, body: off, push: first == 1 },
            None => BinaryFrame::Ignored,
        }
    } else if first == 3 {
        BinaryFrame::Delivery
    } else {
        BinaryFrame::Ignored
    }
}

/// The JSON text of an RPC frame's body, from `body` on.
pub fn rpc_json(bin: &[u8], body: usize) -> (r: Option<String>)
    ensures
        opt_str(r) == if body < bin@.len() {
            frame_json(bin@.skip(body as int))
        } else {
            None
        },
{
    if body < bin.len() {
        let rest = copy_from(bin, body);
        extract_json_payload(rest.as_slice())
    } else {
        None
    }
}

/// After an RPC frame: the outgoing sequence counter moves past `seq`, and
/// a server push that no request was waiting for is acknowledged.
pub fn after_rpc_frame(counter: u64, seq: u64, push: bool, handled: bool) -> (r: (u64, Option<Vec<u8>>))
    requires
        seq < u64::MAX,
    ensures
        r.0 == if counter < seq + 1 {
            (seq + 1) as u64
        } else {
            counter
        },
        match r.1 {
            Some(a) => push && !handled && a@ == ack_packet(seq),
            None => !push || handled,
        },
{
    let next = if counter < seq + 1 { seq + 1 } else { counter };
    let ack = if push && !handled { Some(make_ack_packet(seq)) } else { None };
    (next, ack)
}

/// Marker of the server's keep-alive text frame.
pub open spec fn ping_marker() -> Seq<char> {
    "\"operation\":\"ping\""@
}

/// Whether a text frame is the server's ping (it is answered with [`pong`]).
pub fn is_ping(text: &str) -> (b: bool)
    ensures
        b == text::occurs_in(text@, ping_marker()),
{
    text::contains_text(text, "\"operation\":\"ping\"")
}

/// The answer to a ping.
pub fn pong() -> (s: String)
    ensures
        s@ == "{\"operation\":\"pong\"}"@,
{
    "{\"operation\":\"pong\"}".to_owned()
}

/// Which part of a JSON reply goes to the request that waits for it.
#[derive(Clone, Copy, Debug, PartialEq, Eq)]
pub enum ReplyPart {
    /// `error`, as a failure.
    Error,
    /// `result`.
    Result,
    /// `message`.
    Message,
    /// The whole reply.
    Whole,
}

pub open spec fn reply_of(v: Json) -> Option<(u64, ReplyPart)> {
    match json::u64_field(v, "seq"@) {
        Some(seq) => Some((
            seq,
            if v.field("error"@) is Some {
                ReplyPart::Error
            } else if v.field("result"@) is Some {
                ReplyPart::Result
            } else if v.field("message"@) is Some {
                ReplyPart::Message
            } else {
                ReplyPart::Whole
            },
        )),
        None => None,
    }
}

/// The request number a JSON text frame answers and the part of it that
/// is the answer.
pub fn rpc_reply(v: &Json) -> (r: Option<(u64, ReplyPart)>)
    ensures
        r == reply_of(*v),
{
    match json::get_u64(v, "seq") {
        Some(seq) => {
            let part = if v.get("error").is_some() {
                ReplyPart::Error
            } else if v.get("result").is_some() {
                ReplyPart::Result
            } else if v.get("message").is_some() {
                ReplyPart::Message
            } else {
                ReplyPart::Whole
            };
            Some((seq, part))
        },
        None => None,
    }
}

/// A text frame that reads as the client's push record (`seq` and
/// `message`): an object with a non-negative integer `seq` and a
/// `message`, or those two as an array of two.
pub open spec fn is_ws_record(v: Json) -> bool {
    match v {
        Json::Object(_) => json::u64_field(v, "seq"@) is Some && v.field("message"@) is Some,
        Json::Array(a) => a@.len() == 2 && a@[0].u64_value() is Some,
        _ => false,
    }
}

/// Whether a text frame is a push record, which is then handed on.
pub fn is_ws_message(v: &Json) -> (b: bool)
    ensures
        b == is_ws_record(*v),
{
    match v {
        Json::Object(_) => json::get_u64(v, "seq").is_some() && v.get("message").is_some(),
        Json::Array(a) => a.len() == 2 && a[0].as_u64().is_some(),
        _ => false,
    }
}

// ── pushed chat messages ────────────────────────────────────────────

/// A chat message delivered by push, as a `new_message` record.
#[derive(Clone, Debug, PartialEq)]
pub struct PushMessage {
    /// `{timestamp}_{message_id}`.
    pub id: String,
    pub chat_id: String,
    pub from_id: String,
    pub message_id: String,
    pub text: String,
    /// Seconds: the timestamp in milliseconds divided by 1000 (towards
    /// zero), as an unsigned number.
    pub created: u64,
}

/// `v.get(a).and_then(|x| x.get(b))`.
pub open spec fn field2(v: Json, a: Seq<char>, b: Seq<char>) -> Option<Json> {
    match v.field(a) {
        Some(x) => x.field(b),
        None => None,
    }
}

/// The delivery's timestamp in milliseconds (`ServerMessageInfo.Timestamp`),
/// or `now_ms` without one.
pub open spec fn timestamp_of(v: Json, now_ms: i64) -> i64 {
    match field2(v, "ServerMessageInfo"@, "Timestamp"@) {
        Some(t) => match t.i64_value() {
            Some(x) => x,
            None => now_ms,
        },
        None => now_ms,
    }
}

/// Sender of a client-message delivery: `ServerMessageInfo.From.Guid`,
/// else `ServerMessageInfo.FromGuid`, else `system`.
pub open spec fn sender_of(v: Json) -> Seq<char> {
    let guid = match field2(v, "ServerMessageInfo"@, "From"@) {
        Some(f) => json::str_field(f, "Guid"@),
        None => None,
    };
    match guid {
        Some(g) => g,
        None => match field2(v, "ServerMessageInfo"@, "FromGuid"@) {
            Some(fg) => match fg.str_value() {
                Some(g) => g,
                None => "system"@,
            },
            None => "system"@,
        },
    }
}

pub open spec fn or_empty(s: Option<Seq<char>>) -> Seq<char> {
    match s {
        Some(t) => t,
        None => Seq::empty(),
    }
}

/// `(ms / 1000) as u64` with Rust's division (towards zero) and cast.
pub open spec fn created_secs(ms: i64) -> u64 {
    if ms >= 0 {
        (ms / 1000) as u64
    } else {
        let q = (-(ms as int)) / 1000;
        if q == 0 {
            0
        } else {
            (18446744073709551616 - q) as u64
        }
    }
}

pub open spec fn is_hex32(s: Seq<char>) -> bool {
    s.len() == 32 && forall|i: int| 0 <= i < 32 ==> crate::goloom::is_lower_hex(#[trigger] s[i])
}

/// `m` is the record of a message with these fields at `ts`; its message
/// id is `id`, or a fresh 32-digit hex id when `id` is empty.
pub open spec fn record_of(m: PushMessage, chat: Seq<char>, from: Seq<char>, text: Seq<char>, id: Seq<char>, ts: i64) -> bool {
    &&& m.chat_id@ == chat
    &&& m.from_id@ == from
    &&& m.text@ == text
    &&& if id.len() > 0 {
        m.message_id@ == id
    } else {
        is_hex32(m.message_id@)
    }
    &&& m.id@ == signed_decimal(ts as int) + "_"@ + m.message_id@
    &&& m.created == created_secs(ts)
}

/// What a passive push delivery carries. A `ClientMessage` with a `Plain`
/// part gives its `ChatId`, `Text.MessageText` and `PayloadId`; otherwise a
/// `ServerMessage` gives the first `ChatId`, `Text`, `FromGuid` and
/// `MessageId` (or `PayloadId`) found anywhere in the document. Only a
/// message with a chat and a text becomes a record.
pub open spec fn delivered_as(v: Json, now_ms: i64, r: Option<PushMessage>) -> bool {
    let ts = timestamp_of(v, now_ms);
    match v.field("ClientMessage"@) {
        Some(cm) => match cm.field("Plain"@) {
            Some(plain) => {
                let chat = or_empty(json::str_field(plain, "ChatId"@));
                let text = or_empty(
                    match plain.field("Text"@) {
                        Some(t) => json::str_field(t, "MessageText"@),
                        None => None,
                    },
                );
                let payload = or_empty(json::str_field(plain, "PayloadId"@));
                if chat.len() > 0 && text.len() > 0 {
                    r matches Some(m) && record_of(m, chat, sender_of(v), text, payload, ts)
                } else {
                    r is None
                }
            },
            None => r is None,
        },
        None => if v.field("ServerMessage"@) is Some {
            let chat = or_empty(find_field(v, "ChatId"@));
            let text = or_empty(find_field(v, "Text"@));
            let from = match find_field(v, "FromGuid"@) {
                Some(f) => f,
                None => "system"@,
            };
            let id = match find_field(v, "MessageId"@) {
                Some(i) => i,
                None => or_empty(find_field(v, "PayloadId"@)),
            };
            if chat.len() > 0 && text.len() > 0 {
                r matches Some(m) && record_of(m, chat, from, text, id, ts)
            } else {
                r is None
            }
        } else {
            r is None
        },
    }
}

/// A `ServerMessage` delivery (one without a `ClientMessage`) whose
/// document holds a non-empty chat id and text becomes a record of that
/// chat and text, sent by the first `FromGuid` found in the document, or
/// by `system` when there is none; its message id is the first
/// `MessageId` found when there is one.
pub proof fn server_delivery_record(v: Json, now_ms: i64, r: Option<PushMessage>)
    requires
        delivered_as(v, now_ms, r),
        v.field("ClientMessage"@) is None,
        v.field("ServerMessage"@) is Some,
    ensures
        r is Some <==> (find_field(v, "ChatId"@) is Some && find_field(v, "ChatId"@)->0.len() > 0 && find_field(
            v,
            "Text"@,
        ) is Some && find_field(v, "Text"@)->0.len() > 0),
        r matches Some(m) ==> (Some(m.chat_id@) == find_field(v, "ChatId"@) && Some(m.text@) == find_field(v, "Text"@)),
        r matches Some(m) ==> (find_field(v, "FromGuid"@) matches Some(g) ==> m.from_id@ == g),
        r matches Some(m) ==> (find_field(v, "FromGuid"@) is None ==> m.from_id@ == "system"@),
        r matches Some(m) ==> (find_field(v, "MessageId"@) matches Some(i) ==> (i.len() > 0 ==> m.message_id@ == i)),
{
}

/// A `ClientMessage` delivery with a `Plain` part whose `ChatId` and
/// `Text.MessageText` are non-empty strings becomes a record of that chat
/// and text, sent by `ServerMessageInfo.From.Guid` (else
/// `ServerMessageInfo.FromGuid`, else `system`), under the `PayloadId`
/// when there is one, and timed by `ServerMessageInfo.Timestamp` (else
/// `now_ms`): its id is that time, `_` and the message id, and it was
/// created that many milliseconds over a thousand.
pub proof fn client_delivery_record(v: Json, now_ms: i64, r: Option<PushMessage>, plain: Json, chat: String, text: String)
    requires
        delivered_as(v, now_ms, r),
        v.field("ClientMessage"@) matches Some(cm) && cm.field("Plain"@) == Some(plain),
        plain.field("ChatId"@) == Some(Json::Str(chat)),
        chat@.len() > 0,
        plain.field("Text"@) matches Some(t) && t.field("MessageText"@) == Some(Json::Str(text)),
        text@.len() > 0,
    ensures
        r matches Some(m) && m.chat_id@ == chat@ && m.text@ == text@,
        r matches Some(m) && (field2(v, "ServerMessageInfo"@, "From"@) matches Some(f) ==> (f.field("Guid"@) matches Some(
            Json::Str(g),
        ) ==> m.from_id@ == g@)),
        r matches Some(m) && (field2(v, "ServerMessageInfo"@, "From"@) is None && field2(v, "ServerMessageInfo"@, "FromGuid"@)
            is None ==> m.from_id@ == "system"@),
        r matches Some(m) && (plain.field("PayloadId"@) matches Some(Json::Str(p)) ==> (p@.len() > 0 ==> m.message_id@
            == p@)),
        r matches Some(m) && (field2(v, "ServerMessageInfo"@, "Timestamp"@) is None ==> m.id@ == signed_decimal(
            now_ms as int,
        ) + "_"@ + m.message_id@ && m.created == created_secs(now_ms)),
{
}

fn str_or_empty(s: Option<String>) -> (r: String)
    ensures
        r@ == or_empty(opt_str(s)),
{
    match s {
        Some(t) => t,
        None => String::new(),
    }
}

fn created_from(ms: i64) -> (c: u64)
    ensures
        c == created_secs(ms),
{
    if ms >= 0 {
        (ms / 1000) as u64
    } else {
        let q: u128 = ((-(ms as i128)) / 1000) as u128;
        if q == 0 {
            0
        } else {
            (18446744073709551616u128 - q) as u64
        }
    }
}

fn make_record(chat: String, from: String, text: String, id: String, ts: i64) -> (m: PushMessage)
    ensures
        record_of(m, chat@, from@, text@, id@, ts),
{
    let message_id = if id.as_str().is_empty() {
        crate::goloom_call::random_hex32()
    } else {
        id
    };
    let mut full = String::new();
    text::push_signed(&mut full, ts);
    full.append("_");
    full.append(message_id.as_str());
    PushMessage { id: full, chat_id: chat, from_id: from, message_id, text, created: created_from(ts) }
}

fn sender(v: &Json) -> (s: String)
    ensures
        s@ == sender_of(*v),
{
    let guid = match v.get("ServerMessageInfo") {
        Some(smi) => match smi.get("From") {
            Some(f) => json::get_str(f, "Guid"),
            None => None,
        },
        None => None,
    };
    match guid {
        Some(g) => g,
        None => {
            let fg = match v.get("ServerMessageInfo") {
                Some(smi) => match smi.get("FromGuid") {
                    Some(x) => json::get_str_value(x),
                    None => None,
                },
                None => None,
            };
            match fg {
                Some(g) => g,
                None => "system".to_owned(),
            }
        },
    }
}

fn timestamp(v: &Json, now_ms: i64) -> (t: i64)
    ensures
        t == timestamp_of(*v, now_ms),
{
    match v.get("ServerMessageInfo") {
        Some(smi) => match smi.get("Timestamp") {
            Some(t) => match t.as_i64() {
                Some(x) => x,
                None => now_ms,
            },
            None => now_ms,
        },
        None => now_ms,
    }
}

/// The chat message inside a passive push delivery, if it holds one;
/// `now_ms` stands in for a missing timestamp.
pub fn map_push(v: &Json, now_ms: i64) -> (r: Option<PushMessage>)
    ensures
        delivered_as(*v, now_ms, r),
{
    let ts = timestamp(v, now_ms);
    match v.get("ClientMessage") {
        Some(cm) => match cm.get("Plain") {
            Some(plain) => {
                let chat = str_or_empty(json::get_str(plain, "ChatId"));
                let text = str_or_empty(
                    match plain.get("Text") {
                        Some(t) => json::get_str(t, "MessageText"),
                        None => None,
                    },
                );
                let payload = str_or_empty(json::get_str(plain, "PayloadId"));
                if !chat.as_str().is_empty() && !text.as_str().is_empty() {
                    let from = sender(v);
                    Some(make_record(chat, from, text, payload, ts))
                } else {
                    None
                }
            },
            None => None,
        },
        None => if v.get("ServerMessage").is_some() {
            let chat = str_or_empty(find_json_field(v, "ChatId"));
            let text = str_or_empty(find_json_field(v, "Text"));
            let from = match find_json_field(v, "FromGuid") {
                Some(f) => f,
                None => "system".to_owned(),
            };
            let id = match find_json_field(v, "MessageId") {
                Some(i) => i,
                None => str_or_empty(find_json_field(v, "PayloadId")),
            };
            if !chat.as_str().is_empty() && !text.as_str().is_empty() {
                Some(make_record(chat, from, text, id, ts))
            } else {
                None
            }
        } else {
            None
        },
    }
}


// ── connection state ────────────────────────────────────────────────

/// State of the push socket.
#[derive(Clone, Copy, Debug, PartialEq, Eq)]
pub enum WSState {
    Disconnected,
    Connecting,
    Connected,
    Reconnecting(u32),
}

/// First wait before reconnecting, in milliseconds.
pub const RECONNECT_FIRST_MS: u64 = 1000;

/// Longest wait before reconnecting, in milliseconds.
pub const RECONNECT_MAX_MS: u64 = 32000;

/// The wait after a failed or lost connection: double the last one, at
/// most 32 seconds.
pub open spec fn reconnect_after(ms: u64) -> int {
    if ms * 2 < RECONNECT_MAX_MS {
        ms * 2
    } else {
        RECONNECT_MAX_MS as int
    }
}

pub fn next_reconnect_interval(ms: u64) -> (r: u64)
    requires
        ms <= u64::MAX / 2,
    ensures
        r == reconnect_after(ms),
{
    let d = ms * 2;
    if d < RECONNECT_MAX_MS {
        d
    } else {
        RECONNECT_MAX_MS
    }
}

/// Waits between reconnects, starting from one second, never shrink and
/// never exceed 32 seconds.
pub proof fn reconnect_interval_bounded(ms: u64)
    requires
        RECONNECT_FIRST_MS <= ms <= RECONNECT_MAX_MS,
    ensures
        RECONNECT_FIRST_MS <= reconnect_after(ms) <= RECONNECT_MAX_MS,
        ms <= reconnect_after(ms),
{
}


/// The binary header between the push header and the JSON body of a
/// client message: type 5, a zero timestamp of 8 bytes and 3 zero bytes.
pub open spec fn client_message_header() -> Seq<u8> {
    seq![0x05u8, 0, 0, 0, 0, 0, 0, 0, 0, 0, 0, 0]
}

/// A request frame: type 1, the header with `seq` and `method`, the
/// binary header, then the JSON body.
pub open spec fn request_frame_of(seq: u64, method: Seq<char>, body: Seq<u8>) -> Seq<u8> {
    seq![0x01u8] + push_header(seq, method) + client_message_header() + body
}

/// A client message frame: a request frame of the `push` method.
pub open spec fn client_frame(seq: u64, body: Seq<u8>) -> Seq<u8> {
    request_frame_of(seq, "push"@, body)
}

/// The frame of a request `method` with `seq` and a JSON body.
pub fn request_frame(seq: u64, method: &str, body: &[u8]) -> (frame: Vec<u8>)
    ensures
        frame@ == request_frame_of(seq, method@, body@),
{
    let mut frame: Vec<u8> = Vec::new();
    frame.push(0x01);
    let header = serialize_push_header_with_method(seq, method);
    push_bytes(&mut frame, header.as_slice());
    frame.push(0x05);
    let mut i: usize = 0;
    while i < 11
        invariant
            i <= 11,
            frame@ == seq![0x01u8] + push_header(seq, method@) + seq![0x05u8] + Seq::new(i as nat, |k: int| 0u8),
        decreases 11 - i,
    {
        frame.push(0);
        assert(Seq::new((i + 1) as nat, |k: int| 0u8) =~= Seq::new(i as nat, |k: int| 0u8).push(0u8));
        i = i + 1;
    }
    assert(seq![0x05u8] + Seq::new(11, |k: int| 0u8) =~= client_message_header());
    push_bytes(&mut frame, body);
    assert(frame@ =~= request_frame_of(seq, method@, body@));
    frame
}

/// The frame of a client message (`push`) with `seq` and a JSON body.
pub fn client_message_frame(seq: u64, body: &[u8]) -> (frame: Vec<u8>)
    ensures
        frame@ == client_frame(seq, body@),
{
    request_frame(seq, "push", body)
}

/// What changing the open chat asks of the push socket: to unsubscribe
/// from the chat open before (if any) and to subscribe to the new one (if
/// any). The open chat becomes the new one.
pub fn switch_chat(current: &mut Option<String>, next: Option<String>) -> (r: (Option<String>, Option<String>))
    ensures
        r.0 == *old(current),
        r.1 == next,
        *final(current) == next,
{
    let previous = current.take();
    *current = match &next {
        Some(c) => Some(c.clone()),
        None => None,
    };
    (previous, next)
}

} // verus!
