//! The text commands typed into the Configure tab: splitting into words,
//! reading the arguments (with their defaults) and the lines shown back.

use vstd::prelude::*;
use crate::number::{
    parse_i64, parse_u16, parse_u64, spec_parse_i64, spec_parse_u16, spec_parse_u64,
};
use crate::text::{chars_of, join_str, str_eq, string_from_chars};
use crate::tui::strings_view;

verus! {

/// Unicode `White_Space` characters (what `char::is_whitespace` accepts).
pub open spec fn is_ws(c: char) -> bool {
    ||| ('\u{9}' <= c && c <= '\u{d}')
    ||| c == ' '
    ||| c == '\u{85}'
    ||| c == '\u{a0}'
    ||| c == '\u{1680}'
    ||| ('\u{2000}' <= c && c <= '\u{200a}')
    ||| c == '\u{2028}'
    ||| c == '\u{2029}'
    ||| c == '\u{202f}'
    ||| c == '\u{205f}'
    ||| c == '\u{3000}'
}

/// The words of `s`: its maximal runs of non-whitespace characters, in
/// order (what `str::split_whitespace` yields).
pub open spec fn words(s: Seq<char>) -> Seq<Seq<char>>
    decreases s.len(),
{
    if s.len() == 0 {
        Seq::empty()
    } else {
        let w = words(s.drop_last());
        let c = s.last();
        if is_ws(c) {
            w
        } else if s.len() == 1 || is_ws(s[s.len() - 2]) {
            w.push(seq![c])
        } else {
            w.update(w.len() - 1, w.last().push(c))
        }
    }
}

/// Whether `c` is whitespace.
pub fn is_whitespace(c: char) -> (b: bool)
    ensures
        b == is_ws(c),
{
    ('\u{9}' <= c && c <= '\u{d}') || c == ' ' || c == '\u{85}' || c == '\u{a0}' || c == '\u{1680}'
        || ('\u{2000}' <= c && c <= '\u{200a}') || c == '\u{2028}' || c == '\u{2029}'
        || c == '\u{202f}' || c == '\u{205f}' || c == '\u{3000}'
}

proof fn lemma_words_nonempty(s: Seq<char>)
    requires
        s.len() > 0,
        !is_ws(s.last()),
    ensures
        words(s).len() > 0,
        words(s).last().len() > 0,
        words(s).last().last() == s.last(),
    decreases s.len(),
{
    let w = words(s.drop_last());
    if s.len() == 1 || is_ws(s[s.len() - 2]) {
    } else {
        let t = s.drop_last();
        assert(t.last() == s[s.len() - 2]);
        lemma_words_nonempty(t);
    }
}

/// The words of `s`, in order.
pub fn split_whitespace(s: &str) -> (r: Vec<String>)
    ensures
        strings_view(r@) == words(s@),
{
    let cs = chars_of(s);
    let mut done: Vec<String> = Vec::new();
    let mut cur: Vec<char> = Vec::new();
    let mut i: usize = 0;
    while i < cs.len()
        invariant
            cs@ == s@,
            i <= cs@.len(),
            cur@.len() > 0 ==> i > 0 && !is_ws(cs@[i - 1]),
            cur@.len() == 0 ==> (i == 0 || is_ws(cs@[i - 1])),
            (if cur@.len() > 0 { strings_view(done@).push(cur@) } else { strings_view(done@) }) == words(cs@.take(i as int)),
        decreases cs@.len() - i,
    {
        let c = cs[i];
        let ghost t = cs@.take(i as int + 1);
        proof {
            assert(t.drop_last() =~= cs@.take(i as int));
            assert(t.last() == c);
            if i > 0 {
                assert(t[t.len() - 2] == cs@[i - 1]);
            }
        }
        if is_whitespace(c) {
            if cur.len() > 0 {
                let ghost d0 = done@;
                let w = string_from_chars(cur.as_slice());
                done.push(w);
                proof {
                    crate::event::lemma_map_values_push(d0, w, |s: String| s@);
                }
                cur = Vec::new();
            }
        } else {
            let ghost c0 = cur@;
            cur.push(c);
            proof {
                if c0.len() > 0 {
                    let t0 = cs@.take(i as int);
                    lemma_words_nonempty(t0);
                    assert(t0.last() == cs@[i - 1]);
                    assert(strings_view(done@).push(c0).update(strings_view(done@).len() as int, c0.push(c))
                        =~= strings_view(done@).push(c0.push(c)));
                } else {
                    assert(cur@ =~= seq![c]);
                }
            }
        }
        i = i + 1;
    }
    if cur.len() > 0 {
        let ghost d0 = done@;
        let w = string_from_chars(cur.as_slice());
        done.push(w);
        proof {
            crate::event::lemma_map_values_push(d0, w, |s: String| s@);
        }
    }
    assert(cs@.take(cs@.len() as int) =~= cs@);
    done
}

/// A command typed into the Configure tab, its arguments read.
pub enum CliCommand {
    /// No word at all: nothing is shown.
    Nothing,
    Help,
    Save { name: String },
    AddActivity { source: String, dest: String, start_secs: Option<u16>, count: Option<u64>, interval: u16, amount_msat: u64 },
    AddEvent { frame: u64, event: String, args: Option<Vec<String>> },
    GetNodes,
    GetPubKey { node: String },
    ListPeers { node: String },
    WalletBalance { node: String },
    ChannelBalance { node: String },
    ListChannels { node: String },
    OpenChannel { source: String, dest: String, amount: i64, push: i64, chan_id: i64 },
    CloseChannel { source: String, chan_id: i64 },
    ConnectPeer { source: String, dest: String },
    DisconnectPeer { source: String, dest: String },
    /// `fund_node`: the node and the amount text (a decimal number of bitcoin,
    /// read by the front end).
    FundNode { source: String, amount_text: String },
    Unknown,
}

/// The value of a command.
pub enum CommandView {
    Nothing,
    Help,
    Save { name: Seq<char> },
    AddActivity { source: Seq<char>, dest: Seq<char>, start_secs: Option<u16>, count: Option<u64>, interval: u16, amount_msat: u64 },
    AddEvent { frame: u64, event: Seq<char>, args: Option<Seq<Seq<char>>> },
    GetNodes,
    GetPubKey { node: Seq<char> },
    ListPeers { node: Seq<char> },
    WalletBalance { node: Seq<char> },
    ChannelBalance { node: Seq<char> },
    ListChannels { node: Seq<char> },
    OpenChannel { source: Seq<char>, dest: Seq<char>, amount: i64, push: i64, chan_id: i64 },
    CloseChannel { source: Seq<char>, chan_id: i64 },
    ConnectPeer { source: Seq<char>, dest: Seq<char> },
    DisconnectPeer { source: Seq<char>, dest: Seq<char> },
    FundNode { source: Seq<char>, amount_text: Seq<char> },
    Unknown,
}

impl View for CliCommand {
    type V = CommandView;

    open spec fn view(&self) -> CommandView {
        match self {
            CliCommand::Nothing => CommandView::Nothing,
            CliCommand::Help => CommandView::Help,
            CliCommand::Save { name } => CommandView::Save { name: name@ },
            CliCommand::AddActivity { source, dest, start_secs, count, interval, amount_msat } => CommandView::AddActivity {
                source: source@,
                dest: dest@,
                start_secs: *start_secs,
                count: *count,
                interval: *interval,
                amount_msat: *amount_msat,
            },
            CliCommand::AddEvent { frame, event, args } => CommandView::AddEvent {
                frame: *frame,
                event: event@,
                args: crate::event::args_view(*args),
            },
            CliCommand::GetNodes => CommandView::GetNodes,
            CliCommand::GetPubKey { node } => CommandView::GetPubKey { node: node@ },
            CliCommand::ListPeers { node } => CommandView::ListPeers { node: node@ },
            CliCommand::WalletBalance { node } => CommandView::WalletBalance { node: node@ },
            CliCommand::ChannelBalance { node } => CommandView::ChannelBalance { node: node@ },
            CliCommand::ListChannels { node } => CommandView::ListChannels { node: node@ },
            CliCommand::OpenChannel { source, dest, amount, push, chan_id } => CommandView::OpenChannel {
                source: source@,
                dest: dest@,
                amount: *amount,
                push: *push,
                chan_id: *chan_id,
            },
            CliCommand::CloseChannel { source, chan_id } => CommandView::CloseChannel { source: source@, chan_id: *chan_id },
            CliCommand::ConnectPeer { source, dest } => CommandView::ConnectPeer { source: source@, dest: dest@ },
            CliCommand::DisconnectPeer { source, dest } => CommandView::DisconnectPeer { source: source@, dest: dest@ },
            CliCommand::FundNode { source, amount_text } => CommandView::FundNode { source: source@, amount_text: amount_text@ },
            CliCommand::Unknown => CommandView::Unknown,
        }
    }
}

/// Word `i`, or `default` when there are fewer words.
pub open spec fn word_or(w: Seq<Seq<char>>, i: int, default: Seq<char>) -> Seq<char> {
    if i < w.len() {
        w[i]
    } else {
        default
    }
}

/// A number read from a word, or `default` when the word is not one.
pub open spec fn u16_or(t: Seq<char>, default: u16) -> u16 {
    match spec_parse_u16(t) {
        Ok(v) => v,
        Err(_) => default,
    }
}

/// A number read from a word, or `default` when the word is not one.
pub open spec fn u64_or(t: Seq<char>, default: u64) -> u64 {
    match spec_parse_u64(t) {
        Ok(v) => v,
        Err(_) => default,
    }
}

/// A number read from a word, or `default` when the word is not one.
pub open spec fn i64_or(t: Seq<char>, default: i64) -> i64 {
    match spec_parse_i64(t) {
        Ok(v) => v,
        Err(_) => default,
    }
}

/// The words from index 2 on, or none when there are none.
pub open spec fn event_args(w: Seq<Seq<char>>) -> Option<Seq<Seq<char>>> {
    if w.len() <= 2 {
        None
    } else {
        Some(w.skip(2))
    }
}

/// The command that a typed line stands for.
pub open spec fn spec_parse_command(line: Seq<char>) -> CommandView {
    let w = words(line);
    let a = w.drop_first();
    if w.len() == 0 {
        CommandView::Nothing
    } else if w[0] == "help"@ {
        CommandView::Help
    } else if w[0] == "save"@ {
        CommandView::Save { name: word_or(a, 0, "simulation1"@) }
    } else if w[0] == "add_activity"@ {
        CommandView::AddActivity {
            source: word_or(a, 0, Seq::empty()),
            dest: word_or(a, 1, Seq::empty()),
            start_secs: match spec_parse_u16(word_or(a, 2, Seq::empty())) { Ok(v) => Some(v), Err(_) => None },
            count: match spec_parse_u64(word_or(a, 3, Seq::empty())) { Ok(v) => Some(v), Err(_) => None },
            interval: u16_or(word_or(a, 4, Seq::empty()), 10),
            amount_msat: u64_or(word_or(a, 5, Seq::empty()), 50000),
        }
    } else if w[0] == "add_event"@ {
        CommandView::AddEvent {
            frame: u64_or(word_or(a, 0, Seq::empty()), 10),
            event: word_or(a, 1, Seq::empty()),
            args: event_args(a),
        }
    } else if w[0] == "get_nodes"@ {
        CommandView::GetNodes
    } else if w[0] == "get_pub_key"@ {
        CommandView::GetPubKey { node: word_or(a, 0, Seq::empty()) }
    } else if w[0] == "list_peers"@ {
        CommandView::ListPeers { node: word_or(a, 0, Seq::empty()) }
    } else if w[0] == "wallet_balance"@ {
        CommandView::WalletBalance { node: word_or(a, 0, Seq::empty()) }
    } else if w[0] == "channel_balance"@ {
        CommandView::ChannelBalance { node: word_or(a, 0, Seq::empty()) }
    } else if w[0] == "list_channels"@ {
        CommandView::ListChannels { node: word_or(a, 0, Seq::empty()) }
    } else if w[0] == "open_channel"@ {
        CommandView::OpenChannel {
            source: word_or(a, 0, Seq::empty()),
            dest: word_or(a, 1, Seq::empty()),
            amount: i64_or(word_or(a, 2, Seq::empty()), 30000),
            push: i64_or(word_or(a, 3, Seq::empty()), 0),
            chan_id: i64_or(word_or(a, 4, Seq::empty()), 0),
        }
    } else if w[0] == "close_channel"@ {
        CommandView::CloseChannel {
            source: word_or(a, 0, Seq::empty()),
            chan_id: i64_or(word_or(a, 1, Seq::empty()), 0),
        }
    } else if w[0] == "connect_peer"@ {
        CommandView::ConnectPeer { source: word_or(a, 0, Seq::empty()), dest: word_or(a, 1, Seq::empty()) }
    } else if w[0] == "disconnect_peer"@ {
        CommandView::DisconnectPeer { source: word_or(a, 0, Seq::empty()), dest: word_or(a, 1, Seq::empty()) }
    } else if w[0] == "fund_node"@ {
        CommandView::FundNode { source: word_or(a, 0, Seq::empty()), amount_text: word_or(a, 1, "1.0"@) }
    } else {
        CommandView::Unknown
    }
}

/// Word `i` of `w`, or `default`.
fn word_at(w: &Vec<String>, i: usize, default: &str) -> (r: String)
    ensures
        r@ == word_or(strings_view(w@), i as int, default@),
{
    if i < w.len() {
        w[i].clone()
    } else {
        String::from_str(default)
    }
}

/// The words of `w` from index `start` on.
fn words_from(w: &Vec<String>, start: usize) -> (r: Vec<String>)
    requires
        start <= w@.len(),
    ensures
        strings_view(r@) == strings_view(w@).skip(start as int),
{
    let mut r: Vec<String> = Vec::new();
    let mut i = start;
    while i < w.len()
        invariant
            start <= i <= w@.len(),
            strings_view(r@) == strings_view(w@).subrange(start as int, i as int),
        decreases w@.len() - i,
    {
        let ghost r0 = r@;
        let x = w[i].clone();
        r.push(x);
        proof {
            crate::event::lemma_map_values_push(r0, x, |s: String| s@);
            assert(strings_view(w@).subrange(start as int, i + 1)
                =~= strings_view(w@).subrange(start as int, i as int).push(w@[i as int]@));
        }
        i = i + 1;
    }
    assert(strings_view(w@).subrange(start as int, w@.len() as int) =~= strings_view(w@).skip(start as int));
    r
}

/// Reads a typed line as a command.
pub fn parse_command(line: &str) -> (c: CliCommand)
    ensures
        c@ == spec_parse_command(line@),
{
    let w = split_whitespace(line);
    let ghost ws = strings_view(w@);
    let ghost a = ws.drop_first();
    if w.len() == 0 {
        return CliCommand::Nothing;
    }
    // word i of the arguments is word i + 1 of the line
    proof {
        assert forall|i: int, d: Seq<char>| 0 <= i implies #[trigger] word_or(a, i, d) == word_or(ws, i + 1, d) by {}
    }
    assert(ws[0] == w@[0]@);
    proof {
        reveal_strlit("");
        assert(""@ =~= Seq::<char>::empty());
    }
    let first = w[0].as_str();
    if str_eq(first, "help") {
        CliCommand::Help
    } else if str_eq(first, "save") {
        CliCommand::Save { name: word_at(&w, 1, "simulation1") }
    } else if str_eq(first, "add_activity") {
        let source = word_at(&w, 1, "");
        let dest = word_at(&w, 2, "");
        let start_secs = match parse_u16(word_at(&w, 3, "").as_str()) {
            Ok(v) => Some(v),
            Err(_) => None,
        };
        let count = match parse_u64(word_at(&w, 4, "").as_str()) {
            Ok(v) => Some(v),
            Err(_) => None,
        };
        let interval = match parse_u16(word_at(&w, 5, "").as_str()) {
            Ok(v) => v,
            Err(_) => 10,
        };
        let amount_msat = match parse_u64(word_at(&w, 6, "").as_str()) {
            Ok(v) => v,
            Err(_) => 50000,
        };
        CliCommand::AddActivity { source, dest, start_secs, count, interval, amount_msat }
    } else if str_eq(first, "add_event") {
        let frame = match parse_u64(word_at(&w, 1, "").as_str()) {
            Ok(v) => v,
            Err(_) => 10,
        };
        let event = word_at(&w, 2, "");
        let args = if w.len() <= 3 {
            None
        } else {
            proof {
                assert(ws.skip(3) =~= a.skip(2));
            }
            Some(words_from(&w, 3))
        };
        CliCommand::AddEvent { frame, event, args }
    } else if str_eq(first, "get_nodes") {
        CliCommand::GetNodes
    } else if str_eq(first, "get_pub_key") {
        CliCommand::GetPubKey { node: word_at(&w, 1, "") }
    } else if str_eq(first, "list_peers") {
        CliCommand::ListPeers { node: word_at(&w, 1, "") }
    } else if str_eq(first, "wallet_balance") {
        CliCommand::WalletBalance { node: word_at(&w, 1, "") }
    } else if str_eq(first, "channel_balance") {
        CliCommand::ChannelBalance { node: word_at(&w, 1, "") }
    } else if str_eq(first, "list_channels") {
        CliCommand::ListChannels { node: word_at(&w, 1, "") }
    } else if str_eq(first, "open_channel") {
        let source = word_at(&w, 1, "");
        let dest = word_at(&w, 2, "");
        let amount = match parse_i64(word_at(&w, 3, "").as_str()) {
            Ok(v) => v,
            Err(_) => 30000,
        };
        let push = match parse_i64(word_at(&w, 4, "").as_str()) {
            Ok(v) => v,
            Err(_) => 0,
        };
        let chan_id = match parse_i64(word_at(&w, 5, "").as_str()) {
            Ok(v) => v,
            Err(_) => 0,
        };
        CliCommand::OpenChannel { source, dest, amount, push, chan_id }
    } else if str_eq(first, "close_channel") {
        let source = word_at(&w, 1, "");
        let chan_id = match parse_i64(word_at(&w, 2, "").as_str()) {
            Ok(v) => v,
            Err(_) => 0,
        };
        CliCommand::CloseChannel { source, chan_id }
    } else if str_eq(first, "connect_peer") {
        CliCommand::ConnectPeer { source: word_at(&w, 1, ""), dest: word_at(&w, 2, "") }
    } else if str_eq(first, "disconnect_peer") {
        CliCommand::DisconnectPeer { source: word_at(&w, 1, ""), dest: word_at(&w, 2, "") }
    } else if str_eq(first, "fund_node") {
        CliCommand::FundNode { source: word_at(&w, 1, ""), amount_text: word_at(&w, 2, "1.0") }
    } else {
        CliCommand::Unknown
    }
}

/// The lines of the `help` command.
pub open spec fn help_text() -> Seq<Seq<char>> {
    seq![
        "Command           Parameters "@,
        "-----------------------------"@,
        "save              simulation_name"@,
        "add_activity      source_node dest_node start_secs count interval amount"@,
        "add_event         frame event_type event_args ..."@,
        "get_nodes"@,
        "get_pub_key       node_name"@,
        "list_peers        node_name"@,
        "wallet_balance    node_name"@,
        "channel_balance   node_name"@,
        "list_channels     node_name"@,
        "open_channel      source_node dest_node amount push_amount channel_id"@,
        "close_channel     source_node channel_id"@,
        "connect_peer      source_node dest_node"@,
        "disconnect_peer   source_node dest_node"@,
        "fund_node         source_node amount_btc"@,
    ]
}

/// The lines of the `help` command.
pub fn help_lines() -> (v: Vec<String>)
    ensures
        strings_view(v@) == help_text(),
{
    let mut v: Vec<String> = Vec::new();
    v.push(String::from_str("Command           Parameters "));
    v.push(String::from_str("-----------------------------"));
    v.push(String::from_str("save              simulation_name"));
    v.push(String::from_str("add_activity      source_node dest_node start_secs count interval amount"));
    v.push(String::from_str("add_event         frame event_type event_args ..."));
    v.push(String::from_str("get_nodes"));
    v.push(String::from_str("get_pub_key       node_name"));
    v.push(String::from_str("list_peers        node_name"));
    v.push(String::from_str("wallet_balance    node_name"));
    v.push(String::from_str("channel_balance   node_name"));
    v.push(String::from_str("list_channels     node_name"));
    v.push(String::from_str("open_channel      source_node dest_node amount push_amount channel_id"));
    v.push(String::from_str("close_channel     source_node channel_id"));
    v.push(String::from_str("connect_peer      source_node dest_node"));
    v.push(String::from_str("disconnect_peer   source_node dest_node"));
    v.push(String::from_str("fund_node         source_node amount_btc"));
    assert(strings_view(v@) =~= help_text());
    v
}

/// The prefix put before the error of a command that only reports failure.
pub open spec fn failure_prefix(c: CommandView) -> Seq<char> {
    match c {
        CommandView::OpenChannel { .. } => "Unable to open channel: "@,
        CommandView::CloseChannel { .. } => "Unable to open channel: "@,
        CommandView::ConnectPeer { .. } => "Unable to connect peers: "@,
        CommandView::DisconnectPeer { .. } => "Unable to disconnect peers: "@,
        _ => "Unable to fund node: "@,
    }
}

/// The lines shown after a command that talks to the network has run:
/// `save` reports success or its error; the node queries show their answer
/// or error; the channel, peer and funding commands show only an error,
/// after a prefix.
pub open spec fn spec_report(c: CommandView, outcome: Result<Seq<char>, Seq<char>>) -> Seq<Seq<char>> {
    match c {
        CommandView::Save { .. } => match outcome {
            Ok(_) => seq!["Successfully saved simulation."@],
            Err(e) => seq![e],
        },
        CommandView::GetPubKey { .. } | CommandView::ListPeers { .. } | CommandView::WalletBalance { .. }
        | CommandView::ChannelBalance { .. } | CommandView::ListChannels { .. } => match outcome {
            Ok(s) => seq![s],
            Err(e) => seq![e],
        },
        CommandView::OpenChannel { .. } | CommandView::CloseChannel { .. } | CommandView::ConnectPeer { .. }
        | CommandView::DisconnectPeer { .. } | CommandView::FundNode { .. } => match outcome {
            Ok(_) => Seq::empty(),
            Err(e) => seq![failure_prefix(c) + e],
        },
        _ => Seq::empty(),
    }
}

/// The value of an outcome with text on both sides.
pub open spec fn outcome_view(r: Result<String, String>) -> Result<Seq<char>, Seq<char>> {
    match r {
        Ok(s) => Ok(s@),
        Err(e) => Err(e@),
    }
}

/// The lines shown after a command that talks to the network has run.
pub fn command_report(cmd: &CliCommand, outcome: Result<String, String>) -> (v: Vec<String>)
    ensures
        strings_view(v@) == spec_report(cmd@, outcome_view(outcome)),
{
    let mut v: Vec<String> = Vec::new();
    match cmd {
        CliCommand::Save { .. } => match outcome {
            Ok(_) => v.push(String::from_str("Successfully saved simulation.")),
            Err(e) => v.push(e),
        },
        CliCommand::GetPubKey { .. } | CliCommand::ListPeers { .. } | CliCommand::WalletBalance { .. }
        | CliCommand::ChannelBalance { .. } | CliCommand::ListChannels { .. } => match outcome {
            Ok(s) => v.push(s),
            Err(e) => v.push(e),
        },
        CliCommand::OpenChannel { .. } | CliCommand::CloseChannel { .. } => match outcome {
            Ok(_) => {},
            Err(e) => v.push(join_str("Unable to open channel: ", e.as_str())),
        },
        CliCommand::ConnectPeer { .. } => match outcome {
            Ok(_) => {},
            Err(e) => v.push(join_str("Unable to connect peers: ", e.as_str())),
        },
        CliCommand::DisconnectPeer { .. } => match outcome {
            Ok(_) => {},
            Err(e) => v.push(join_str("Unable to disconnect peers: ", e.as_str())),
        },
        CliCommand::FundNode { .. } => match outcome {
            Ok(_) => {},
            Err(e) => v.push(join_str("Unable to fund node: ", e.as_str())),
        },
        _ => {},
    }
    assert(strings_view(v@) =~= spec_report(cmd@, outcome_view(outcome)));
    v
}

} // verus!
