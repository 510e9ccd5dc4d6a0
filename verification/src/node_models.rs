//! The computations of the node models (the LND-compatible CLN and LDK
//! model servers): node ids, the texts they answer with, amounts, and the
//! parsing of the addresses and keys they are sent.

use vstd::prelude::*;
use vstd::utf8::encode_utf8;
use crate::number::{dec, pad4, push_decimal, push_padded4, parse_u32, spec_parse_u32, IntErrorKind};
use crate::text::{chars_of, join_str, push_char, string_from_chars};

verus! {

#[verifier::external_type_specification]
#[verifier::external_body]
pub struct ExFromHexError(hex::FromHexError);

/// The lowercase hex digit of a value below 16.
pub open spec fn hex_digit(d: int) -> char {
    if d < 10 {
        ((48 + d) as u8) as char
    } else {
        ((87 + d) as u8) as char
    }
}

/// The lowercase hex text of some bytes, two digits per byte, high digit
/// first.
pub open spec fn hex_text(b: Seq<u8>) -> Seq<char>
    decreases b.len(),
{
    if b.len() == 0 {
        Seq::empty()
    } else {
        hex_text(b.drop_last()) + seq![hex_digit((b.last() / 16) as int), hex_digit((b.last() % 16) as int)]
    }
}

/// An ASCII hex digit byte (either case).
pub open spec fn is_hex_byte(c: u8) -> bool {
    (48 <= c <= 57) || (97 <= c <= 102) || (65 <= c <= 70)
}

/// The value of an ASCII hex digit byte.
pub open spec fn hex_value(c: u8) -> int {
    if 48 <= c <= 57 {
        c - 48
    } else if 97 <= c <= 102 {
        c - 87
    } else {
        c - 55
    }
}

/// Text that decodes as hex: an even number of hex digits.
pub open spec fn valid_hex(s: Seq<u8>) -> bool {
    s.len() % 2 == 0 && forall|i: int| 0 <= i < s.len() ==> is_hex_byte(#[trigger] s[i])
}

/// The bytes that valid hex text stands for.
pub open spec fn hex_bytes(s: Seq<u8>) -> Seq<u8> {
    Seq::new(s.len() / 2, |i: int| (hex_value(s[2 * i]) * 16 + hex_value(s[2 * i + 1])) as u8)
}

/// The lowercase hex text of some bytes.
///
/// Trusted: calls `hex::encode`, which writes each byte as two lowercase
/// hex digits, high digit first.
#[verifier::external_body]
pub(crate) fn hex_encode(data: &[u8]) -> (s: String)
    ensures
        s@ == hex_text(data@),
{
    hex::encode(data)
}

/// Decodes hex text.
///
/// Trusted: calls `hex::decode` on the UTF-8 bytes of `s`, which succeeds
/// exactly when there is an even number of bytes and all are hex digits
/// (either case), and then gives one byte per pair of digits.
#[verifier::external_body]
fn hex_decode(s: &str) -> (r: Result<Vec<u8>, hex::FromHexError>)
    ensures
        r is Ok <==> valid_hex(encode_utf8(s@)),
        r matches Ok(v) ==> v@ == hex_bytes(encode_utf8(s@)),
{
    hex::decode(s)
}

/// The hex text of some bytes has two digits per byte, high digit first.
pub proof fn lemma_hex_text_shape(b: Seq<u8>)
    ensures
        hex_text(b).len() == 2 * b.len(),
        forall|i: int| 0 <= i < b.len() ==> #[trigger] hex_text(b)[2 * i] == hex_digit((b[i] / 16) as int)
            && hex_text(b)[2 * i + 1] == hex_digit((b[i] % 16) as int),
    decreases b.len(),
{
    if b.len() > 0 {
        let p = b.drop_last();
        lemma_hex_text_shape(p);
        assert forall|i: int| 0 <= i < b.len() implies #[trigger] hex_text(b)[2 * i] == hex_digit((b[i] / 16) as int)
            && hex_text(b)[2 * i + 1] == hex_digit((b[i] % 16) as int) by {
            if i < p.len() {
                assert(b[i] == p[i]);
                assert(hex_text(p)[2 * i] == hex_digit((p[i] / 16) as int));
            }
        }
    }
}

/// A hex digit is an ASCII hex digit byte whose value is the digit's.
pub proof fn lemma_hex_digit(d: int)
    requires
        0 <= d < 16,
    ensures
        '\0' <= hex_digit(d) <= '\u{7f}',
        is_hex_byte(hex_digit(d) as u8),
        hex_value(hex_digit(d) as u8) == d,
{
    if d < 10 {
        assert(hex_digit(d) as int == 48 + d);
    } else {
        assert(hex_digit(d) as int == 87 + d);
    }
}

/// Decodes a peer's public key given as hex text.
pub fn decode_peer_key(key: &str) -> (r: Result<Vec<u8>, String>)
    ensures
        valid_hex(encode_utf8(key@)) ==> (r matches Ok(v) && v@ == hex_bytes(encode_utf8(key@))),
        !valid_hex(encode_utf8(key@)) ==> (r matches Err(e) && e@ == "Could not decode the peer pub key."@),
{
    match hex_decode(key) {
        Ok(v) => Ok(v),
        Err(_) => Err(String::from_str("Could not decode the peer pub key.")),
    }
}

/// The id of node number `i` of a model: the model's prefix (such as
/// `blast_cln-`) and the number padded to four digits.
pub fn node_id(prefix: &str, i: i32) -> (id: String)
    requires
        i >= 0,
    ensures
        id@ == prefix@ + pad4(i as nat),
{
    let mut id = String::from_str(prefix);
    push_padded4(&mut id, i as u64);
    id
}

/// The peer list a CLN node answers with: one line per peer, its key in hex
/// and its first network address.
pub open spec fn peers_text(peers: Seq<(Seq<u8>, Seq<char>)>) -> Seq<char>
    decreases peers.len(),
{
    if peers.len() == 0 {
        Seq::empty()
    } else {
        peers_text(peers.drop_last()) + "Pubkey: "@ + hex_text(peers.last().0) + ", Address: "@ + peers.last().1 + "\n"@
    }
}

/// The key bytes and first address of a peer.
pub open spec fn peer_view(p: (Vec<u8>, Vec<String>)) -> (Seq<u8>, Seq<char>) {
    (p.0@, p.1@[0]@)
}

/// The peer list of a CLN node: each peer's key and network addresses.
pub fn cln_peers_text(peers: &Vec<(Vec<u8>, Vec<String>)>) -> (t: String)
    requires
        forall|i: int| 0 <= i < peers@.len() ==> peers@[i].1@.len() > 0,
    ensures
        t@ == peers_text(peers@.map_values(|p: (Vec<u8>, Vec<String>)| peer_view(p))),
{
    let mut t = String::new();
    let mut i: usize = 0;
    while i < peers.len()
        invariant
            i <= peers@.len(),
            forall|j: int| 0 <= j < peers@.len() ==> peers@[j].1@.len() > 0,
            t@ == peers_text(peers@.take(i as int).map_values(|p: (Vec<u8>, Vec<String>)| peer_view(p))),
        decreases peers@.len() - i,
    {
        let p = &peers[i];
        t.append("Pubkey: ");
        t.append(hex_encode(p.0.as_slice()).as_str());
        t.append(", Address: ");
        t.append(p.1[0].as_str());
        t.append("\n");
        proof {
            let s = peers@.take(i + 1).map_values(|p: (Vec<u8>, Vec<String>)| peer_view(p));
            assert(s.drop_last() =~= peers@.take(i as int).map_values(|p: (Vec<u8>, Vec<String>)| peer_view(p)));
            assert(s.last() == peer_view(peers@[i as int]));
            assert(t@ =~= peers_text(s));
        }
        i = i + 1;
    }
    assert(peers@.take(peers@.len() as int) =~= peers@);
    t
}

/// The sum of the present amounts.
pub open spec fn sum_present(v: Seq<Option<u64>>) -> nat
    decreases v.len(),
{
    if v.len() == 0 {
        0
    } else {
        sum_present(v.drop_last()) + match v.last() {
            Some(x) => x as nat,
            None => 0nat,
        }
    }
}

/// A balance in sat from amounts in msat: the sum of the present amounts,
/// divided by 1000 (rounded down), as text.
pub fn balance_text(amounts_msat: &Vec<Option<u64>>) -> (t: String)
    requires
        sum_present(amounts_msat@) <= u64::MAX,
    ensures
        t@ == dec(sum_present(amounts_msat@) / 1000),
{
    let mut balance: u64 = 0;
    let mut i: usize = 0;
    while i < amounts_msat.len()
        invariant
            i <= amounts_msat@.len(),
            sum_present(amounts_msat@) <= u64::MAX,
            balance == sum_present(amounts_msat@.take(i as int)),
        decreases amounts_msat@.len() - i,
    {
        proof {
            assert(amounts_msat@.take(i + 1).drop_last() =~= amounts_msat@.take(i as int));
            lemma_sum_present_prefix(amounts_msat@, i + 1);
        }
        match amounts_msat[i] {
            Some(a) => {
                balance = balance + a;
            },
            None => {},
        }
        i = i + 1;
    }
    assert(amounts_msat@.take(amounts_msat@.len() as int) =~= amounts_msat@);
    let mut t = String::new();
    push_decimal(&mut t, balance / 1000);
    assert(t@ =~= dec(sum_present(amounts_msat@) / 1000));
    t
}

proof fn lemma_sum_present_prefix(v: Seq<Option<u64>>, i: int)
    requires
        0 <= i <= v.len(),
    ensures
        sum_present(v.take(i)) <= sum_present(v),
    decreases v.len() - i,
{
    if i < v.len() {
        lemma_sum_present_prefix(v, i + 1);
        assert(v.take(i + 1).drop_last() =~= v.take(i));
    } else {
        assert(v.take(i) =~= v);
    }
}

/// The channel list a CLN node answers with: one line per channel whose
/// total is known, the peer's key in hex and the total in sat.
pub open spec fn channels_text(chans: Seq<(Seq<u8>, Option<u64>)>) -> Seq<char>
    decreases chans.len(),
{
    if chans.len() == 0 {
        Seq::empty()
    } else {
        channels_text(chans.drop_last()) + match chans.last().1 {
            Some(m) => "Peer: "@ + hex_text(chans.last().0) + ", Amount: "@ + dec((m / 1000) as nat) + "\n"@,
            None => Seq::empty(),
        }
    }
}

/// The peer key bytes and total of a channel.
pub open spec fn chan_view(c: (Vec<u8>, Option<u64>)) -> (Seq<u8>, Option<u64>) {
    (c.0@, c.1)
}

/// The channel list of a CLN node: each channel's peer key and total (msat).
pub fn cln_channels_text(chans: &Vec<(Vec<u8>, Option<u64>)>) -> (t: String)
    ensures
        t@ == channels_text(chans@.map_values(|c: (Vec<u8>, Option<u64>)| chan_view(c))),
{
    let mut t = String::new();
    let mut i: usize = 0;
    while i < chans.len()
        invariant
            i <= chans@.len(),
            t@ == channels_text(chans@.take(i as int).map_values(|c: (Vec<u8>, Option<u64>)| chan_view(c))),
        decreases chans@.len() - i,
    {
        let c = &chans[i];
        let ghost t0 = t@;
        match c.1 {
            Some(m) => {
                t.append("Peer: ");
                t.append(hex_encode(c.0.as_slice()).as_str());
                t.append(", Amount: ");
                push_decimal(&mut t, m / 1000);
                t.append("\n");
            },
            None => {},
        }
        proof {
            let s = chans@.take(i + 1).map_values(|c: (Vec<u8>, Option<u64>)| chan_view(c));
            assert(s.drop_last() =~= chans@.take(i as int).map_values(|c: (Vec<u8>, Option<u64>)| chan_view(c)));
            assert(s.last() == chan_view(chans@[i as int]));
            assert(t@ =~= channels_text(s));
        }
        i = i + 1;
    }
    assert(chans@.take(chans@.len() as int) =~= chans@);
    t
}

/// The summary of a model's open channels: `id: source -> peer` for each,
/// separated by commas.
pub open spec fn channel_list_text(chans: Seq<(i64, Seq<char>, Seq<char>)>) -> Seq<char> {
    let t = channel_list_raw(chans);
    if t.len() == 0 { t } else { t.drop_last() }
}

/// Each channel as `id: source -> peer,`.
pub open spec fn channel_list_raw(chans: Seq<(i64, Seq<char>, Seq<char>)>) -> Seq<char>
    decreases chans.len(),
{
    if chans.len() == 0 {
        Seq::empty()
    } else {
        channel_list_raw(chans.drop_last()) + crate::number::dec_int(chans.last().0 as int) + ": "@ + chans.last().1
            + " -> "@ + chans.last().2 + ","@
    }
}

/// The id, source node and peer of an open channel.
pub open spec fn entry_view(c: (i64, String, String)) -> (i64, Seq<char>, Seq<char>) {
    (c.0, c.1@, c.2@)
}

/// The summary of a model's open channels, in the order given (a model
/// keeps them in a hash map, whose order is not fixed).
pub fn channel_list(chans: &Vec<(i64, String, String)>) -> (t: String)
    ensures
        t@ == channel_list_text(chans@.map_values(|c: (i64, String, String)| entry_view(c))),
{
    let mut t = String::new();
    let mut i: usize = 0;
    while i < chans.len()
        invariant
            i <= chans@.len(),
            t@ == channel_list_raw(chans@.take(i as int).map_values(|c: (i64, String, String)| entry_view(c))),
        decreases chans@.len() - i,
    {
        let c = &chans[i];
        crate::number::push_signed(&mut t, c.0);
        t.append(": ");
        t.append(c.1.as_str());
        t.append(" -> ");
        t.append(c.2.as_str());
        t.append(",");
        proof {
            let s = chans@.take(i + 1).map_values(|c: (i64, String, String)| entry_view(c));
            assert(s.drop_last() =~= chans@.take(i as int).map_values(|c: (i64, String, String)| entry_view(c)));
            assert(s.last() == entry_view(chans@[i as int]));
            assert(t@ =~= channel_list_raw(s));
        }
        i = i + 1;
    }
    assert(chans@.take(chans@.len() as int) =~= chans@);
    let cs = chars_of(t.as_str());
    if cs.len() == 0 {
        t
    } else {
        let mut out: Vec<char> = Vec::new();
        let mut j: usize = 0;
        while j < cs.len() - 1
            invariant
                cs@.len() > 0,
                j + 1 <= cs@.len(),
                out@ == cs@.take(j as int),
            decreases cs@.len() - j,
        {
            out.push(cs[j]);
            assert(cs@.take(j as int).push(cs@[j as int]) =~= cs@.take(j + 1));
            j = j + 1;
        }
        assert(out@ =~= cs@.drop_last());
        string_from_chars(out.as_slice())
    }
}

/// The amounts in msat of a CLN channel opening: the amount (sat) times
/// 1000, and the push amount (sat, read as unsigned) times 1000.
pub fn cln_open_amounts(amount: i64, push_amount: i64) -> (r: (u64, u64))
    requires
        i64::MIN <= amount * 1000 <= i64::MAX,
        (push_amount as u64) * 1000 <= u64::MAX,
    ensures
        r.0 == (amount * 1000) as u64,
        r.1 == (push_amount as u64) * 1000,
{
    let a = amount * 1000;
    let p = (push_amount as u64) * 1000;
    (a as u64, p)
}

/// The host and the port of an address `host:port` (the text up to the
/// first `:` and the text between the first and second `:`).
pub open spec fn address_parts(a: Seq<char>) -> (Seq<char>, Seq<char>) {
    let i = crate::text::spec_first_index(a, ':');
    let rest = a.skip(i + 1);
    let j = crate::text::spec_first_index(rest, ':');
    (a.take(i), rest.take(j))
}

/// Splits a peer address `host:port`; the port must be a `u32`.
pub fn split_peer_address(addr: &str) -> (r: Result<(String, u32), String>)
    requires
        addr@.contains(':'),
    ensures
        match spec_parse_u32(address_parts(addr@).1) {
            Ok(p) => r matches Ok((h, port)) && h@ == address_parts(addr@).0 && port == p,
            Err(_) => r matches Err(e) && e@ == "Could not parse peer port: "@ + crate::cli::debug_text(address_parts(addr@).1),
        },
{
    let cs = chars_of(addr);
    let i = crate::text::first_index(&cs, ':');
    let host = string_from_chars(crate::text::prefix_of(&cs, i).as_slice());
    let rest = crate::text::suffix_from(&cs, i + 1);
    let j = crate::text::first_index(&rest, ':');
    let port_text = string_from_chars(crate::text::prefix_of(&rest, j).as_slice());
    match parse_u32(port_text.as_str()) {
        Ok(p) => Ok((host, p)),
        Err(_) => Err(join_str("Could not parse peer port: ", crate::cli::debug_string(port_text.as_str()).as_str())),
    }
}

/// The bytes of an LDK node alias: the first 32 bytes of the node id's
/// UTF-8 text, padded with zeros to 32.
pub open spec fn alias_bytes(id: Seq<u8>) -> Seq<u8> {
    Seq::new(32, |i: int| if i < id.len() { id[i] } else { 0u8 })
}

/// The 32-byte alias of an LDK node with this id.
pub fn ldk_alias(node_id: &str) -> (a: Vec<u8>)
    ensures
        a@ == alias_bytes(encode_utf8(node_id@)),
{
    let bytes = node_id.as_bytes();
    let mut a: Vec<u8> = Vec::new();
    let mut i: usize = 0;
    while i < 32
        invariant
            i <= 32,
            bytes@ == encode_utf8(node_id@),
            a@ =~= alias_bytes(bytes@).take(i as int),
        decreases 32 - i,
    {
        if i < bytes.len() {
            a.push(bytes[i]);
        } else {
            a.push(0u8);
        }
        assert(alias_bytes(bytes@).take(i + 1) =~= alias_bytes(bytes@).take(i as int).push(alias_bytes(bytes@)[i as int]));
        i = i + 1;
    }
    assert(alias_bytes(bytes@).take(32) =~= alias_bytes(bytes@));
    a
}

/// `s` with every occurrence of `pat` replaced by `rep`, scanning left to
/// right without overlaps (what `str::replace` does).
pub open spec fn replace_all(s: Seq<char>, pat: Seq<char>, rep: Seq<char>) -> Seq<char>
    recommends
        pat.len() > 0,
    decreases s.len(),
{
    if s.len() == 0 || pat.len() == 0 {
        s
    } else if s.len() >= pat.len() && s.take(pat.len() as int) == pat {
        rep + replace_all(s.skip(pat.len() as int), pat, rep)
    } else {
        seq![s[0]] + replace_all(s.drop_first(), pat, rep)
    }
}

/// Whether `pat` occurs in `s` at position `i`.
fn occurs_at(s: &Vec<char>, pat: &Vec<char>, i: usize) -> (b: bool)
    requires
        i <= s@.len(),
    ensures
        b == (s@.len() - i >= pat@.len() && s@.skip(i as int).take(pat@.len() as int) == pat@),
{
    let n = s.len();
    if n - i < pat.len() {
        return false;
    }
    let mut k: usize = 0;
    while k < pat.len()
        invariant
            n == s@.len(),
            i <= s@.len(),
            s@.len() - i >= pat@.len(),
            k <= pat@.len(),
            forall|j: int| 0 <= j < k ==> s@[i + j] == pat@[j],
        decreases pat@.len() - k,
    {
        if s[i + k] != pat[k] {
            assert(s@.skip(i as int).take(pat@.len() as int)[k as int] != pat@[k as int]);
            return false;
        }
        k = k + 1;
    }
    assert(s@.skip(i as int).take(pat@.len() as int) =~= pat@);
    true
}

/// `s` with every occurrence of `pat` replaced by `rep` (`str::replace`).
pub fn replace_text(s: &str, pat: &str, rep: &str) -> (r: String)
    requires
        pat@.len() > 0,
    ensures
        r@ == replace_all(s@, pat@, rep@),
{
    let cs = chars_of(s);
    let ps = chars_of(pat);
    let mut out = String::new();
    let mut i: usize = 0;
    proof {
        assert(cs@.skip(0) =~= cs@);
        assert(out@ + replace_all(cs@, ps@, rep@) =~= replace_all(cs@, ps@, rep@));
    }
    while i < cs.len()
        invariant
            cs@ == s@,
            ps@ == pat@,
            ps@.len() > 0,
            i <= cs@.len(),
            out@ + replace_all(cs@.skip(i as int), ps@, rep@) == replace_all(cs@, ps@, rep@),
        decreases cs@.len() - i,
    {
        let ghost t = cs@.skip(i as int);
        if occurs_at(&cs, &ps, i) {
            proof {
                assert(t.skip(ps@.len() as int) =~= cs@.skip(i + ps@.len()));
                assert(out@ + rep@ + replace_all(t.skip(ps@.len() as int), ps@, rep@)
                    =~= out@ + (rep@ + replace_all(t.skip(ps@.len() as int), ps@, rep@)));
            }
            out.append(rep);
            i = i + ps.len();
        } else {
            proof {
                assert(t.drop_first() =~= cs@.skip(i + 1));
                assert(t[0] == cs@[i as int]);
                assert(out@.push(cs@[i as int]) + replace_all(t.drop_first(), ps@, rep@)
                    =~= out@ + (seq![t[0]] + replace_all(t.drop_first(), ps@, rep@)));
            }
            push_char(&mut out, cs[i]);
            i = i + 1;
        }
    }
    proof {
        assert(cs@.skip(cs@.len() as int) =~= Seq::<char>::empty());
        assert(out@ + Seq::<char>::empty() =~= out@);
    }
    out
}

/// An LDK peer address with `localhost` written as `127.0.0.1`.
pub fn ldk_peer_address(addr: &str) -> (r: String)
    ensures
        r@ == replace_all(addr@, "localhost"@, "127.0.0.1"@),
{
    proof {
        reveal_strlit("localhost");
    }
    replace_text(addr, "localhost", "127.0.0.1")
}

/// Whether `s` starts with `prefix`.
pub fn starts_with(s: &str, prefix: &str) -> (b: bool)
    ensures
        b == (s@.len() >= prefix@.len() && s@.take(prefix@.len() as int) == prefix@),
{
    let cs = chars_of(s);
    let ps = chars_of(prefix);
    let r = occurs_at(&cs, &ps, 0);
    assert(cs@.skip(0) =~= cs@);
    r
}

/// How many saved node directories a model finds: the names that start with
/// the model's node prefix (such as `blast_ldk-`).
pub open spec fn count_prefixed(names: Seq<Seq<char>>, prefix: Seq<char>) -> nat
    decreases names.len(),
{
    if names.len() == 0 {
        0
    } else {
        count_prefixed(names.drop_last(), prefix) + if names.last().len() >= prefix.len()
            && names.last().take(prefix.len() as int) == prefix { 1nat } else { 0nat }
    }
}

/// How many of the directory names start with `prefix`.
pub fn count_node_dirs(names: &Vec<String>, prefix: &str) -> (n: usize)
    ensures
        n == count_prefixed(crate::tui::strings_view(names@), prefix@),
{
    let mut n: usize = 0;
    let mut i: usize = 0;
    while i < names.len()
        invariant
            i <= names@.len(),
            n == count_prefixed(crate::tui::strings_view(names@).take(i as int), prefix@),
            n <= i,
        decreases names@.len() - i,
    {
        proof {
            let w = crate::tui::strings_view(names@);
            assert(w.take(i + 1).drop_last() =~= w.take(i as int));
            assert(w.take(i + 1).last() == names@[i as int]@);
        }
        if starts_with(names[i].as_str(), prefix) {
            n = n + 1;
        }
        i = i + 1;
    }
    assert(crate::tui::strings_view(names@).take(names@.len() as int) =~= crate::tui::strings_view(names@));
    n
}

/// The address other nodes reach a CLN node at: `localhost:` and its port.
pub fn cln_listen_address(port: u16) -> (a: String)
    ensures
        a@ == "localhost:"@ + dec(port as nat),
{
    let mut a = String::from_str("localhost:");
    push_decimal(&mut a, port as u64);
    a
}

/// The gRPC address of a CLN node: `https://localhost:` and its RPC port.
pub fn cln_rpc_address(rpcport: &str) -> (a: String)
    ensures
        a@ == "https://localhost:"@ + rpcport@,
{
    join_str("https://localhost:", rpcport)
}

/// The data directory of a CLN node, under the model's data directory.
pub fn cln_node_dir(data_dir: &str, node_id: &str) -> (d: String)
    ensures
        d@ == data_dir@ + "/"@ + node_id@,
{
    let mut d = String::from_str(data_dir);
    d.append("/");
    d.append(node_id);
    d
}

/// The saved-simulation directory of a model: home, the simulations
/// directory, the simulation's name, the model's name.
pub fn model_sim_dir(home: &str, sim_dir: &str, sim_name: &str, model_name: &str, separate: bool) -> (d: String)
    ensures
        separate ==> d@ == home@ + "/"@ + sim_dir@ + "/"@ + sim_name@ + "/"@ + model_name@ + "/"@,
        !separate ==> d@ == home@ + sim_dir@ + sim_name@ + "/"@ + model_name@ + "/"@,
{
    let mut d = String::from_str(home);
    if separate {
        d.append("/");
    }
    d.append(sim_dir);
    if separate {
        d.append("/");
    }
    d.append(sim_name);
    d.append("/");
    d.append(model_name);
    d.append("/");
    d
}

/// The TLS files of a CLN node: its CA certificate, client certificate and
/// client key, under the node's directory.
pub fn cln_cert_paths(cln_dir: &str) -> (r: (String, String, String))
    ensures
        r.0@ == cln_dir@ + "/regtest/ca.pem"@,
        r.1@ == cln_dir@ + "/regtest/client.pem"@,
        r.2@ == cln_dir@ + "/regtest/client-key.pem"@,
{
    (join_str(cln_dir, "/regtest/ca.pem"), join_str(cln_dir, "/regtest/client.pem"), join_str(cln_dir, "/regtest/client-key.pem"))
}

/// The address an LDK node listens at: `127.0.0.1:` and its port.
pub fn ldk_listen_address(port: u16) -> (a: String)
    ensures
        a@ == "127.0.0.1:"@ + dec(port as nat),
{
    let mut a = String::from_str("127.0.0.1:");
    push_decimal(&mut a, port as u64);
    a
}

/// The files a model saves a simulation to, in its directory of the saved
/// simulation: the archive of its nodes' data, and its own data as JSON
/// (`_data.json` for CLN, `_channels.json` for LDK).
pub fn model_save_files(sim_name: &str, cln: bool) -> (r: (String, String))
    ensures
        r.0@ == sim_name@ + ".tar.gz"@,
        cln ==> r.1@ == sim_name@ + "_data.json"@,
        !cln ==> r.1@ == sim_name@ + "_channels.json"@,
{
    let json = if cln { join_str(sim_name, "_data.json") } else { join_str(sim_name, "_channels.json") };
    (join_str(sim_name, ".tar.gz"), json)
}

} // verus!
