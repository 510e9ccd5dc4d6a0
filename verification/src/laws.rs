//! Properties that hold across the operations of the library.

use vstd::prelude::*;
use crate::configure::{ConfigureSection, ConfigureView, byte_len, spec_configure_key, spec_delete, spec_insert, spec_left, spec_right};
use crate::simln::has_alias;
use crate::tui::{KeyCode, KeyPress, ListView, ResultView};
use crate::event::{EventSpec, scheduled_at, spec_build_event, spec_event_from_name, spec_num_fields};
use crate::channels::ChannelView;
use crate::model::{spec_model_of_node, ModelEntry};
use crate::number::{dec, dec_int, decimal_value, is_digit, lemma_dec_len, lemma_dec_reads_back, lemma_zero_prefix_value, pad4, spec_parse_i64, spec_parse_u64};
use crate::node_models::{hex_bytes, hex_digit, hex_text, is_hex_byte, lemma_hex_digit, lemma_hex_text_shape, valid_hex};
use vstd::utf8::{encode_utf8, is_ascii_chars, is_ascii_chars_encode_utf8};
use crate::tui::{spec_next, spec_previous};

verus! {

/// Reading the events of a frame after an event was added there gives the
/// events it had, then the new one; every other frame keeps its events.
pub proof fn law_schedule_read_after_add(m: Map<u64, Seq<EventSpec>>, frame: u64, e: EventSpec, other: u64)
    ensures
        scheduled_at(m.insert(frame, scheduled_at(m, frame).push(e)), frame) == scheduled_at(m, frame).push(e),
        other != frame ==> scheduled_at(m.insert(frame, scheduled_at(m, frame).push(e)), other) == scheduled_at(m, other),
{
}

/// An event is only ever built from exactly as many arguments as its kind
/// takes, and only for a known event name.
pub proof fn law_event_arguments_counted(name: Seq<char>, args: Option<Seq<Seq<char>>>)
    ensures
        spec_build_event(name, args) is Ok ==> !(spec_event_from_name(name) is NoEvent),
        spec_build_event(name, args) is Ok ==> args is Some,
        spec_build_event(name, args) is Ok ==> args.unwrap().len() == spec_num_fields(spec_event_from_name(name)),
{
}

/// Moving up undoes moving down (and down undoes up) for a selection inside
/// the list.
pub proof fn law_list_moves_undo(i: usize, len: nat)
    requires
        i < len,
        len <= usize::MAX,
    ensures
        spec_previous(spec_next(Some(i), len), len) == Some(i),
        spec_next(spec_previous(Some(i), len), len) == Some(i),
{
}

/// Typing a character and then deleting it gives back the input and the
/// cursor, when the cursor is inside the input.
pub proof fn law_type_then_delete(v: ConfigureView, c: char)
    requires
        v.character_index <= v.input.len(),
        v.input.len() < usize::MAX,
    ensures
        spec_delete(spec_insert(v, c)).input == v.input,
        spec_delete(spec_insert(v, c)).character_index == v.character_index,
{
    let p = v.character_index as int;
    let w = spec_insert(v, c);
    assert(w.input =~= v.input.take(p).push(c) + v.input.skip(p));
    assert(w.character_index == p + 1);
    assert(w.input.take(p) + w.input.skip(p + 1) =~= v.input);
}

/// The cursor never leaves the input: moving, typing and deleting keep it
/// at most at the input's length.
pub proof fn law_cursor_stays_in_input(v: ConfigureView, c: char)
    requires
        v.character_index <= v.input.len(),
    ensures
        spec_left(v).character_index <= spec_left(v).input.len(),
        spec_right(v).character_index <= spec_right(v).input.len(),
        spec_insert(v, c).character_index <= spec_insert(v, c).input.len(),
        spec_delete(v).character_index <= spec_delete(v).input.len(),
{
    let p = v.character_index as int;
    assert(spec_insert(v, c).input.len() == v.input.len() + 1);
}

/// A node id made of a model name (without `-`), a `-` and anything after it
/// is routed to that model.
pub proof fn law_node_routes_to_model(model: Seq<char>, rest: Seq<char>)
    requires
        forall|i: int| 0 <= i < model.len() ==> model[i] != '-',
    ensures
        spec_model_of_node(model + seq!['-'] + rest) == model,
{
    let id = model + seq!['-'] + rest;
    let k = model.len() as int;
    assert(id[k] == '-');
    assert(exists|i: int| 0 <= i < id.len() && id[i] == '-');
    let c = choose|i: int| 0 <= i < id.len() && id[i] == '-' && forall|j: int| 0 <= j < i ==> id[j] != '-';
    assert(0 <= k < id.len() && id[k] == '-' && forall|j: int| 0 <= j < k ==> id[j] != '-') by {
        assert forall|j: int| 0 <= j < k implies id[j] != '-' by {
            assert(id[j] == model[j]);
        }
    }
    if c < k {
        assert(id[c] == model[c]);
    }
    if c > k {
        assert(id[k] != '-');
    }
    assert(id.take(k) =~= model);
}

/// Reading back the decimal text of an unsigned number gives the number.
pub proof fn law_u64_text_reads_back(n: u64)
    ensures
        spec_parse_u64(dec(n as nat)) == Ok::<u64, crate::number::IntErrorKind>(n),
{
    lemma_dec_reads_back(n as nat);
    let s = dec(n as nat);
    assert(s.take(s.len() as int) =~= s);
}

/// Reading back the decimal text of a signed number gives the number.
pub proof fn law_i64_text_reads_back(n: i64)
    ensures
        spec_parse_i64(dec_int(n as int)) == Ok::<i64, crate::number::IntErrorKind>(n),
{
    if n < 0 {
        let m = (-n) as nat;
        lemma_dec_reads_back(m);
        let s = dec_int(n as int);
        assert(s.drop_first() =~= dec(m));
        assert(dec(m).take(dec(m).len() as int) =~= dec(m));
    } else {
        lemma_dec_reads_back(n as nat);
        let s = dec(n as nat);
        assert(s.take(s.len() as int) =~= s);
    }
}

/// The hex text of a key decodes back to the key: what a model answers as a
/// peer's key is what the peer key decoder reads.
pub proof fn law_hex_reads_back(b: Seq<u8>)
    ensures
        valid_hex(encode_utf8(hex_text(b))),
        hex_bytes(encode_utf8(hex_text(b))) == b,
{
    let t = hex_text(b);
    lemma_hex_text_shape(b);
    assert forall|j: int| 0 <= j < t.len() implies '\0' <= #[trigger] t[j] <= '\u{7f}' && is_hex_byte(t[j] as u8) by {
        let i = j / 2;
        assert(0 <= i < b.len());
        if j % 2 == 0 {
            assert(j == 2 * i);
            assert(t[2 * i] == hex_digit((b[i] / 16) as int));
            lemma_hex_digit((b[i] / 16) as int);
        } else {
            assert(j == 2 * i + 1);
            assert(t[2 * i] == hex_digit((b[i] / 16) as int));
            lemma_hex_digit((b[i] % 16) as int);
        }
    }
    assert(is_ascii_chars(t));
    is_ascii_chars_encode_utf8(t);
    let e = encode_utf8(t);
    assert forall|i: int| 0 <= i < e.len() implies is_hex_byte(#[trigger] e[i]) by {
        assert(e[i] == t[i] as u8);
    }
    assert forall|i: int| 0 <= i < b.len() implies #[trigger] hex_bytes(e)[i] == b[i] by {
        assert(t[2 * i] == hex_digit((b[i] / 16) as int));
        lemma_hex_digit((b[i] / 16) as int);
        lemma_hex_digit((b[i] % 16) as int);
        assert(e[2 * i] == t[2 * i] as u8);
        assert(e[2 * i + 1] == t[2 * i + 1] as u8);
        assert(b[i] == (b[i] / 16) * 16 + b[i] % 16);
    }
    assert(hex_bytes(e) =~= b);
}

/// Once a known model is marked connected, a client for it can be had (it
/// is known and connected), and every other model is as it was.
pub proof fn law_connected_model_reachable(m: Map<Seq<char>, ModelEntry>, name: Seq<char>, other: Seq<char>)
    requires
        m.contains_key(name),
    ensures
        ({
            let after = m.insert(name, ModelEntry { connected: true, ..m[name] });
            &&& after.contains_key(name)
            &&& after[name].connected
            &&& after[name].rpc == m[name].rpc
            &&& other != name ==> after.contains_key(other) == m.contains_key(other)
            &&& other != name && m.contains_key(other) ==> after[other] == m[other]
        }),
{
}

/// A channel recorded by a model is found under its id, with what was
/// recorded, until it is forgotten; recording or forgetting one id leaves
/// every other id as it was.
pub proof fn law_channel_found_until_forgotten(m: Map<i64, ChannelView>, id: i64, c: ChannelView, other: i64)
    ensures
        m.insert(id, c).contains_key(id),
        m.insert(id, c)[id] == c,
        !m.insert(id, c).remove(id).contains_key(id),
        other != id ==> m.insert(id, c).contains_key(other) == m.contains_key(other),
        other != id && m.contains_key(other) ==> m.insert(id, c)[other] == m[other],
        other != id ==> m.remove(id).contains_key(other) == m.contains_key(other),
{
}

/// A command entered on the Configure tab is sent, and the Up key right
/// after brings it back into the command line with the cursor at its end.
pub proof fn law_entered_command_recalled(v: ConfigureView)
    requires
        v.section == ConfigureSection::Command,
        v.input != "stop"@,
        v.input != "start"@,
        v.history.len() < usize::MAX,
    ensures
        ({
            let (v1, r1) = spec_configure_key(v, KeyPress { code: KeyCode::Enter, is_press: true });
            let (v2, r2) = spec_configure_key(v1, KeyPress { code: KeyCode::Up, is_press: true });
            &&& r1 == ResultView::Command(v.input)
            &&& v1.input.len() == 0
            &&& v2.input == v.input
            &&& v2.character_index == byte_len(v.input)
            &&& r2 == ResultView::NoOp
        }),
{
    let (v1, r1) = spec_configure_key(v, KeyPress { code: KeyCode::Enter, is_press: true });
    assert(v1.history == v.history.push(v.input));
    assert(v1.history_index as int == v.history.len() + 1);
    assert(v1.history[v.history.len() as int] == v.input);
}

/// Once a node is registered for the payment simulation its alias is taken:
/// another node with that alias is refused.
pub proof fn law_alias_taken_after_register(nodes: Seq<(Seq<char>, Seq<char>)>, key: Seq<char>, alias: Seq<char>)
    ensures
        has_alias(nodes.push((key, alias)), alias),
{
    assert(nodes.push((key, alias))[nodes.len() as int].1 == alias);
}

/// Whatever key the Configure tab gets, the history position stays within
/// the history (at most its length) and the cursor within the input (at most
/// its length in characters), when the history holds ASCII text.
pub proof fn law_configure_key_keeps_positions(v: ConfigureView, key: KeyPress)
    requires
        v.history_index <= v.history.len(),
        v.character_index <= v.input.len(),
        forall|i: int| 0 <= i < v.history.len() ==> is_ascii_chars(#[trigger] v.history[i]),
        forall|i: int| 0 <= i < v.history.len() ==> (#[trigger] v.history[i]).len() <= usize::MAX,
        v.history.len() < usize::MAX,
    ensures
        spec_configure_key(v, key).0.history_index <= spec_configure_key(v, key).0.history.len(),
        spec_configure_key(v, key).0.character_index <= spec_configure_key(v, key).0.input.len(),
{
    assert forall|i: int| 0 <= i < v.history.len() implies
        encode_utf8(#[trigger] v.history[i]).len() == v.history[i].len() by {
        is_ascii_chars_encode_utf8(v.history[i]);
    }
    assert(encode_utf8(Seq::<char>::empty()).len() == 0);
}

/// A number padded with zeros (`{:04}`) is made of digits and reads back as
/// the number; below 10000 it has exactly four digits. So a node id, a
/// model's prefix and then the padded node number, is the prefix followed
/// by exactly four digits that read as the node's number.
pub proof fn law_padded_number_reads_back(n: nat, prefix: Seq<char>)
    ensures
        pad4(n).len() >= 4,
        n < 10000 ==> pad4(n).len() == 4,
        forall|i: int| 0 <= i < pad4(n).len() ==> is_digit(#[trigger] pad4(n)[i]),
        decimal_value(pad4(n)) == n,
        n < 10000 ==> (prefix + pad4(n)).len() == prefix.len() + 4,
        (prefix + pad4(n)).take(prefix.len() as int) == prefix,
        decimal_value((prefix + pad4(n)).skip(prefix.len() as int)) == n,
{
    lemma_dec_len(n);
    lemma_dec_reads_back(n);
    let d = dec(n);
    if d.len() < 4 {
        let z = Seq::new((4 - d.len()) as nat, |i: int| '0');
        assert(pad4(n) == z + d);
        lemma_zero_prefix_value(z, d);
        assert forall|i: int| 0 <= i < pad4(n).len() implies is_digit(#[trigger] pad4(n)[i]) by {
            if i >= z.len() {
                assert(pad4(n)[i] == d[i - z.len()]);
            }
        }
    }
    assert((prefix + pad4(n)).take(prefix.len() as int) =~= prefix);
    assert((prefix + pad4(n)).skip(prefix.len() as int) =~= pad4(n));
}

/// The list that has the focus on the Configure tab (the event list when the
/// command line has it).
pub open spec fn focused_list(v: ConfigureView) -> ListView {
    match v.section {
        ConfigureSection::Events => v.events,
        ConfigureSection::Channels => v.channels,
        ConfigureSection::Activity => v.activity,
        ConfigureSection::Command => v.events,
    }
}

/// The Configure tab after pressing this key.
pub open spec fn after_key(v: ConfigureView, code: KeyCode) -> ConfigureView {
    spec_configure_key(v, KeyPress { code, is_press: true }).0
}

/// In a list section of the Configure tab, Up moves the selection of that
/// list one row up (from the top to the last row; to the top when nothing is
/// selected) and Down one row down (from the last row, or past it, to the
/// top); nothing else changes, and Down then Up gives back a selected row
/// `i`.
pub proof fn law_configure_lists_move(v: ConfigureView, i: usize)
    requires
        v.section != ConfigureSection::Command,
        focused_list(v).items.len() <= usize::MAX,
    ensures
        ({
            let len = focused_list(v).items.len();
            let up = after_key(v, KeyCode::Up);
            let down = after_key(v, KeyCode::Down);
            &&& spec_configure_key(v, KeyPress { code: KeyCode::Up, is_press: true }).1 == ResultView::NoOp
            &&& spec_configure_key(v, KeyPress { code: KeyCode::Down, is_press: true }).1 == ResultView::NoOp
            &&& up.section == v.section && down.section == v.section
            &&& up.input == v.input && down.input == v.input
            &&& up.history == v.history && down.history == v.history
            &&& focused_list(up).items == focused_list(v).items
            &&& focused_list(down).items == focused_list(v).items
            &&& (v.section != ConfigureSection::Events ==> up.events == v.events && down.events == v.events)
            &&& (v.section != ConfigureSection::Channels ==> up.channels == v.channels && down.channels == v.channels)
            &&& (v.section != ConfigureSection::Activity ==> up.activity == v.activity && down.activity == v.activity)
            &&& (focused_list(v).selected is None ==> focused_list(up).selected == Some(0usize)
                && focused_list(down).selected == Some(0usize))
            &&& (focused_list(v).selected == Some(0usize) && len > 0 ==> focused_list(up).selected == Some((len - 1) as usize))
            &&& (focused_list(v).selected == Some(i) && 0 < i ==> focused_list(up).selected == Some((i - 1) as usize))
            &&& (focused_list(v).selected == Some(i) && i + 1 < len ==> focused_list(down).selected == Some((i + 1) as usize))
            &&& (focused_list(v).selected == Some(i) && i + 1 >= len && len > 0 ==> focused_list(down).selected == Some(0usize))
            &&& (focused_list(v).selected == Some(i) && i < len
                ==> focused_list(after_key(down, KeyCode::Up)).selected == Some(i))
        }),
{
}

} // verus!
