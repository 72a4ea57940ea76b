//! Wire codec for the two message enumerations.
//!
//! A client intent travels as a single tag byte. A server snapshot travels
//! as a self-describing record: a tag byte, the two phase flags, the two
//! counters as eight little-endian bytes each, the pause flag, and the
//! countdown text as a length-prefixed run of ASCII bytes. The decoder
//! accepts exactly the byte strings the encoder produces, and ignores
//! whatever follows a complete record.

use vstd::prelude::*;
use vstd::arithmetic::div_mod::lemma_fundamental_div_mod;
use vstd::utf8::is_ascii_chars;

use crate::router::{ClientToServerMsg, ServerToClientMsg};
use crate::view::{ViewModel, ViewState};

verus! {

/// The tag byte of each client message; zero is never used, so a zeroed
/// buffer is never mistaken for a message.
pub open spec fn client_msg_byte(m: ClientToServerMsg) -> u8 {
    match m {
        ClientToServerMsg::Quit => 1,
        ClientToServerMsg::Reset => 2,
        ClientToServerMsg::PlayPause => 3,
        ClientToServerMsg::Skip => 4,
        ClientToServerMsg::PostPone => 5,
        ClientToServerMsg::Detach => 6,
        ClientToServerMsg::Sync => 7,
    }
}

/// The client message a tag byte stands for, if any.
pub open spec fn client_msg_of_byte(b: u8) -> Option<ClientToServerMsg> {
    if b == 1 { Some(ClientToServerMsg::Quit) }
    else if b == 2 { Some(ClientToServerMsg::Reset) }
    else if b == 3 { Some(ClientToServerMsg::PlayPause) }
    else if b == 4 { Some(ClientToServerMsg::Skip) }
    else if b == 5 { Some(ClientToServerMsg::PostPone) }
    else if b == 6 { Some(ClientToServerMsg::Detach) }
    else if b == 7 { Some(ClientToServerMsg::Sync) }
    else { None }
}

/// Serializes one client message to its tag byte.
pub fn encode_client_msg(m: ClientToServerMsg) -> (b: u8)
    ensures
        b == client_msg_byte(m),
{
    match m {
        ClientToServerMsg::Quit => 1,
        ClientToServerMsg::Reset => 2,
        ClientToServerMsg::PlayPause => 3,
        ClientToServerMsg::Skip => 4,
        ClientToServerMsg::PostPone => 5,
        ClientToServerMsg::Detach => 6,
        ClientToServerMsg::Sync => 7,
    }
}

/// Parses one tag byte back into the client message it stands for.
pub fn decode_client_msg(b: u8) -> (m: Option<ClientToServerMsg>)
    ensures
        m == client_msg_of_byte(b),
{
    if b == 1 { Some(ClientToServerMsg::Quit) }
    else if b == 2 { Some(ClientToServerMsg::Reset) }
    else if b == 3 { Some(ClientToServerMsg::PlayPause) }
    else if b == 4 { Some(ClientToServerMsg::Skip) }
    else if b == 5 { Some(ClientToServerMsg::PostPone) }
    else if b == 6 { Some(ClientToServerMsg::Detach) }
    else if b == 7 { Some(ClientToServerMsg::Sync) }
    else { None }
}

/// Law: decoding inverts encoding for every client message.
pub proof fn lemma_client_codec_round_trip(m: ClientToServerMsg)
    ensures
        client_msg_of_byte(client_msg_byte(m)) == Some(m),
{
}

/// Law: a tag byte that decodes at all re-encodes to itself, so the tag
/// space is in one-to-one correspondence with the message set.
pub proof fn lemma_client_codec_tag_faithful(b: u8)
    ensures
        (match client_msg_of_byte(b) {
            Some(m) => client_msg_byte(m) == b,
            None => true,
        }),
{
}

/// 256 to the `count`-th power: the value range of `count` bytes.
pub open spec fn pow256(count: nat) -> int
    decreases count,
{
    if count == 0 { 1 } else { 256 * pow256((count - 1) as nat) }
}

/// `count` little-endian base-256 digits of `n`.
pub open spec fn le_bytes(n: int, count: nat) -> Seq<u8>
    recommends
        n >= 0,
    decreases count,
{
    if count == 0 {
        Seq::empty()
    } else {
        seq![(n % 256) as u8] + le_bytes(n / 256, (count - 1) as nat)
    }
}

/// The number a run of little-endian base-256 digits denotes.
pub open spec fn int_of_le_bytes(b: Seq<u8>) -> int
    decreases b.len(),
{
    if b.len() == 0 {
        0
    } else {
        b[0] + 256 * int_of_le_bytes(b.skip(1))
    }
}

pub proof fn lemma_pow256_pos(count: nat)
    ensures
        pow256(count) >= 1,
    decreases count,
{
    if count > 0 {
        lemma_pow256_pos((count - 1) as nat);
    }
}

pub proof fn lemma_pow256_monotone(a: nat, b: nat)
    requires
        a <= b,
    ensures
        pow256(a) <= pow256(b),
    decreases b,
{
    if a < b {
        lemma_pow256_monotone(a, (b - 1) as nat);
        lemma_pow256_pos((b - 1) as nat);
    }
}

/// A run of `count` bytes denotes a number below `pow256(count)`.
pub proof fn lemma_int_of_le_bytes_bound(b: Seq<u8>)
    ensures
        0 <= int_of_le_bytes(b) < pow256(b.len()),
    decreases b.len(),
{
    if b.len() > 0 {
        lemma_int_of_le_bytes_bound(b.skip(1));
        lemma_pow256_pos((b.len() - 1) as nat);
    }
}

/// Law: reading back the little-endian digits of `n` yields `n`.
pub proof fn lemma_le_bytes_round_trip(n: int, count: nat)
    requires
        0 <= n < pow256(count),
    ensures
        le_bytes(n, count).len() == count,
        int_of_le_bytes(le_bytes(n, count)) == n,
    decreases count,
{
    if count > 0 {
        lemma_pow256_pos((count - 1) as nat);
        assert(n / 256 < pow256((count - 1) as nat)) by {
            lemma_fundamental_div_mod(n, 256);
        };
        assert(n / 256 >= 0) by {
            lemma_fundamental_div_mod(n, 256);
        };
        lemma_le_bytes_round_trip(n / 256, (count - 1) as nat);
        assert(le_bytes(n, count).skip(1) =~= le_bytes(n / 256, (count - 1) as nat));
        assert(le_bytes(n, count)[0] == (n % 256) as u8);
        lemma_fundamental_div_mod(n, 256);
    }
}

/// Appends the eight little-endian bytes of `n`.
fn push_u64_le(out: &mut Vec<u8>, n: u64)
    ensures
        final(out)@ == old(out)@ + le_bytes(n as int, 8),
{
    let mut x = n;
    out.push((x % 256) as u8);
    x = x / 256;
    out.push((x % 256) as u8);
    x = x / 256;
    out.push((x % 256) as u8);
    x = x / 256;
    out.push((x % 256) as u8);
    x = x / 256;
    out.push((x % 256) as u8);
    x = x / 256;
    out.push((x % 256) as u8);
    x = x / 256;
    out.push((x % 256) as u8);
    x = x / 256;
    out.push((x % 256) as u8);
    proof {
        reveal_with_fuel(le_bytes, 9);
        assert(out@ =~= old(out)@ + le_bytes(n as int, 8));
    }
}

/// Reads `count` little-endian bytes starting at `off` back into a number.
fn read_le(bytes: &Vec<u8>, off: usize, count: usize) -> (x: u64)
    requires
        off + count <= bytes@.len(),
        count <= 8,
    ensures
        x as int == int_of_le_bytes(bytes@.subrange(off as int, off as int + count as int)),
    decreases count,
{
    if count == 0 {
        proof {
            assert(bytes@.subrange(off as int, off as int) =~= Seq::<u8>::empty());
        }
        0
    } else {
        let _total = bytes.len();
        let rest = read_le(bytes, off + 1, count - 1);
        proof {
            lemma_int_of_le_bytes_bound(bytes@.subrange(off as int + 1,
                off as int + count as int));
            lemma_pow256_monotone((count - 1) as nat, 7);
            reveal_with_fuel(pow256, 9);
            assert(bytes@.subrange(off as int, off as int + count as int).skip(1)
                =~= bytes@.subrange(off as int + 1, off as int + count as int));
        }
        let b = bytes[off];
        b as u64 + 256 * rest
    }
}

/// One byte per flag.
pub open spec fn bool_byte(b: bool) -> u8 {
    if b { 1 } else { 0 }
}

/// The wire bytes of one snapshot record, after the tag byte: flags,
/// counters, pause flag, then the countdown text length-prefixed.
pub open spec fn encode_view_spec(v: ViewModel) -> Seq<u8> {
    seq![1u8, bool_byte(v.is_break), bool_byte(v.is_postponed)]
        + le_bytes(v.postpone_count as int, 8)
        + le_bytes(v.round as int, 8)
        + seq![bool_byte(v.is_paused)]
        + le_bytes(v.time.len() as int, 8)
        + v.time.map(|i: int, c: char| c as u8)
}

/// How long the countdown text of the record at the head of `b` claims to
/// be.
pub open spec fn time_len_of(b: Seq<u8>) -> int {
    int_of_le_bytes(b.subrange(20, 28))
}

/// Whether a complete, well-formed snapshot record sits at the head of
/// `b`: right tag, flag bytes that are flags, and an ASCII text run that
/// fits inside the buffer.
pub open spec fn valid_server_prefix(b: Seq<u8>) -> bool {
    &&& b.len() >= 28
    &&& b[0] == 1
    &&& (b[1] == 0 || b[1] == 1)
    &&& (b[2] == 0 || b[2] == 1)
    &&& (b[19] == 0 || b[19] == 1)
    &&& time_len_of(b) + 28 <= b.len()
    &&& forall|i: int| 28 <= i < 28 + time_len_of(b) ==> b[i] < 128
}

/// The snapshot that the record at the head of `b` denotes.
pub open spec fn decoded_view(b: Seq<u8>) -> ViewModel
    recommends
        valid_server_prefix(b),
{
    ViewModel {
        is_break: b[1] == 1,
        is_postponed: b[2] == 1,
        postpone_count: int_of_le_bytes(b.subrange(3, 11)) as u64,
        round: int_of_le_bytes(b.subrange(11, 19)) as u64,
        time: b.subrange(28, 28 + time_len_of(b)).map(|i: int, x: u8| x as char),
        is_paused: b[19] == 1,
    }
}

/// Serializes one outbound message. The countdown text must be ASCII,
/// which holds of every text the timer itself produces.
pub fn encode_server_msg(msg: &ServerToClientMsg) -> (out: Vec<u8>)
    requires
        (match *msg {
            ServerToClientMsg::Timer(v) => is_ascii_chars(v.time@),
        }),
    ensures
        out@ == (match *msg {
            ServerToClientMsg::Timer(v) => encode_view_spec(v@),
        }),
{
    let v: &ViewState = match msg {
        ServerToClientMsg::Timer(v) => v,
    };
    let mut out: Vec<u8> = Vec::new();
    out.push(1);
    out.push(if v.is_break { 1 } else { 0 });
    out.push(if v.is_postponed { 1 } else { 0 });
    push_u64_le(&mut out, v.postpone_count);
    push_u64_le(&mut out, v.round);
    out.push(if v.is_paused { 1 } else { 0 });
    let ts: &str = v.time.as_str();
    let tb: &[u8] = ts.as_bytes();
    proof {
        vstd::string::is_ascii_spec_bytes(ts);
        assert(tb@ =~= Seq::new(v.time@.len(), |i: int| v.time@.index(i) as u8));
    }
    push_u64_le(&mut out, tb.len() as u64);
    let ghost head = out@;
    let mut i: usize = 0;
    while i < tb.len()
        invariant
            i <= tb@.len(),
            out@ == head + tb@.subrange(0, i as int),
        decreases tb@.len() - i,
    {
        let b = tb[i];
        out.push(b);
        proof {
            assert(out@ =~= head + tb@.subrange(0, i as int + 1));
        }
        i = i + 1;
    }
    proof {
        assert(tb@.subrange(0, tb@.len() as int) =~= tb@);
        assert(tb@ =~= v.time@.map(|i: int, c: char| c as u8));
        assert(out@ =~= encode_view_spec(v@));
    }
    out
}

/// Serializes the snapshot of the machine's current state as the outbound
/// wire message: the whole outbound pipeline in one call.
pub fn encode_snapshot(timer: &crate::pomodoro::PomodoroTimer) -> (out: Vec<u8>)
    ensures
        out@ == encode_view_spec(crate::view::view_model(timer@)),
{
    let v = timer.view_state();
    proof {
        crate::view::lemma_view_model_ascii(timer@);
    }
    let msg = ServerToClientMsg::Timer(v);
    encode_server_msg(&msg)
}

/// Relies on `String::from_utf8`: UTF-8 extends ASCII, so a run of bytes
/// below 128 decodes to exactly those code points, one character per byte.
#[verifier::external_body]
fn ascii_bytes_to_string(bytes: Vec<u8>) -> (s: String)
    requires
        forall|i: int| 0 <= i < bytes@.len() ==> bytes@[i] < 128,
    ensures
        s@.len() == bytes@.len(),
        forall|i: int| 0 <= i < bytes@.len() ==> s@[i] == bytes@[i] as char,
{
    String::from_utf8(bytes).unwrap_or_default()
}

/// Parses the snapshot record at the head of the buffer. Returns the
/// message and how many bytes it occupied exactly when a well-formed
/// record is there; trailing bytes are left untouched.
pub fn decode_server_msg(bytes: &Vec<u8>) -> (r: Option<(ServerToClientMsg, usize)>)
    ensures
        r is Some <==> valid_server_prefix(bytes@),
        (match r {
            Some((m, used)) => {
                &&& (match m {
                    ServerToClientMsg::Timer(v) => v@ == decoded_view(bytes@),
                })
                &&& used as int == 28 + time_len_of(bytes@)
            },
            None => true,
        }),
{
    if bytes.len() < 28 {
        return None;
    }
    let tag = bytes[0];
    let fb = bytes[1];
    let fp = bytes[2];
    let fpause = bytes[19];
    if tag != 1 || fb > 1 || fp > 1 || fpause > 1 {
        return None;
    }
    let tl = read_le(bytes, 20, 8);
    proof {
        lemma_int_of_le_bytes_bound(bytes@.subrange(20, 28));
    }
    if tl > (bytes.len() - 28) as u64 {
        return None;
    }
    let tl_us = tl as usize;
    let n = bytes.len();
    let mut tv: Vec<u8> = Vec::new();
    let mut i: usize = 0;
    while i < tl_us
        invariant
            tl_us as int == time_len_of(bytes@),
            n == bytes@.len(),
            28 + tl_us <= n,
            i <= tl_us,
            tv@ == bytes@.subrange(28, 28 + i as int),
            forall|j: int| 28 <= j < 28 + i ==> bytes@[j] < 128,
        decreases tl_us - i,
    {
        let b = bytes[28 + i];
        if b >= 128 {
            return None;
        }
        tv.push(b);
        proof {
            assert(tv@ =~= bytes@.subrange(28, 28 + i as int + 1));
        }
        i = i + 1;
    }
    let time = ascii_bytes_to_string(tv);
    let pc = read_le(bytes, 3, 8);
    let round = read_le(bytes, 11, 8);
    proof {
        lemma_int_of_le_bytes_bound(bytes@.subrange(3, 11));
        lemma_int_of_le_bytes_bound(bytes@.subrange(11, 19));
        reveal_with_fuel(pow256, 9);
    }
    let state = ViewState {
        is_break: fb == 1,
        is_postponed: fp == 1,
        postpone_count: pc,
        round,
        time,
        is_paused: fpause == 1,
    };
    proof {
        assert(state@.time =~= decoded_view(bytes@).time);
        assert(state@ == decoded_view(bytes@));
    }
    Some((ServerToClientMsg::Timer(state), 28 + tl_us))
}

/// Law: a record followed by arbitrary trailing bytes is recognised as
/// valid, decodes back to the very snapshot that was encoded, and consumes
/// exactly its own bytes — the record is self-delimiting.
pub proof fn lemma_server_codec_round_trip(v: ViewModel, rest: Seq<u8>)
    requires
        is_ascii_chars(v.time),
        v.time.len() < pow256(8),
    ensures
        valid_server_prefix(encode_view_spec(v) + rest),
        decoded_view(encode_view_spec(v) + rest) == v,
        time_len_of(encode_view_spec(v) + rest) == v.time.len(),
{
    let enc = encode_view_spec(v);
    let b = enc + rest;
    reveal_with_fuel(pow256, 9);
    lemma_le_bytes_round_trip(v.postpone_count as int, 8);
    lemma_le_bytes_round_trip(v.round as int, 8);
    lemma_le_bytes_round_trip(v.time.len() as int, 8);
    assert(enc.len() == 28 + v.time.len());
    assert(b.subrange(3, 11) =~= le_bytes(v.postpone_count as int, 8));
    assert(b.subrange(11, 19) =~= le_bytes(v.round as int, 8));
    assert(b.subrange(20, 28) =~= le_bytes(v.time.len() as int, 8));
    assert(time_len_of(b) == v.time.len());
    assert(b.subrange(28, 28 + v.time.len() as int)
        =~= v.time.map(|i: int, c: char| c as u8));
    assert(forall|i: int| 28 <= i < 28 + time_len_of(b) ==> b[i] < 128) by {
        assert(forall|i: int| 0 <= i < v.time.len() ==>
            '\0' <= #[trigger] v.time[i] <= '\u{7f}');
    };
    assert(decoded_view(b).time =~= v.time);
    assert(decoded_view(b) == v);
}

} // verus!
