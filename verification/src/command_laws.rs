//! What a typed command line reads as, stated word by word, and what the
//! front end shows after a command that talks to the network.

use vstd::prelude::*;
use crate::command::{spec_parse_command, spec_report, words, CommandView};
use crate::number::{spec_parse_i64, spec_parse_u16, spec_parse_u64};

verus! {

/// Word `i` of the line, or the empty text when the line has fewer words.
pub open spec fn arg(line: Seq<char>, i: int) -> Seq<char> {
    if i < words(line).len() {
        words(line)[i]
    } else {
        Seq::empty()
    }
}

/// The line's first word is `name`.
pub open spec fn first_word_is(line: Seq<char>, name: Seq<char>) -> bool {
    words(line).len() > 0 && words(line)[0] == name
}

/// The `i64` a word reads as, or `d` when it is not one.
pub open spec fn i64_read(t: Seq<char>, d: i64) -> i64 {
    match spec_parse_i64(t) {
        Ok(v) => v,
        Err(_) => d,
    }
}


/// The command words differ in length or first letter.
proof fn lemma_command_names()
    ensures
        "help"@.len() == 4 && "help"@[0] == 'h',
        "save"@.len() == 4 && "save"@[0] == 's',
        "add_activity"@.len() == 12 && "add_activity"@[0] == 'a',
        "add_event"@.len() == 9 && "add_event"@[0] == 'a',
        "get_nodes"@.len() == 9 && "get_nodes"@[0] == 'g',
        "get_pub_key"@.len() == 11 && "get_pub_key"@[0] == 'g',
        "list_peers"@.len() == 10 && "list_peers"@[0] == 'l',
        "wallet_balance"@.len() == 14 && "wallet_balance"@[0] == 'w',
        "channel_balance"@.len() == 15 && "channel_balance"@[0] == 'c',
        "list_channels"@.len() == 13 && "list_channels"@[0] == 'l',
        "open_channel"@.len() == 12 && "open_channel"@[0] == 'o',
        "close_channel"@.len() == 13 && "close_channel"@[0] == 'c',
        "connect_peer"@.len() == 12 && "connect_peer"@[0] == 'c',
        "disconnect_peer"@.len() == 15 && "disconnect_peer"@[0] == 'd',
        "fund_node"@.len() == 9 && "fund_node"@[0] == 'f',
{
    reveal_strlit("help");
    reveal_strlit("save");
    reveal_strlit("add_activity");
    reveal_strlit("add_event");
    reveal_strlit("get_nodes");
    reveal_strlit("get_pub_key");
    reveal_strlit("list_peers");
    reveal_strlit("wallet_balance");
    reveal_strlit("channel_balance");
    reveal_strlit("list_channels");
    reveal_strlit("open_channel");
    reveal_strlit("close_channel");
    reveal_strlit("connect_peer");
    reveal_strlit("disconnect_peer");
    reveal_strlit("fund_node");
}

/// The channel commands take their words in order: `open_channel source
/// dest amount push id` (amount 30000, push 0 and id 0 when a word does not
/// read as a number) and `close_channel source id` (id 0 by default).
pub proof fn law_channel_commands_read_their_words(line: Seq<char>)
    ensures
        first_word_is(line, "open_channel"@) ==> (spec_parse_command(line) matches CommandView::OpenChannel {
            source,
            dest,
            amount,
            push,
            chan_id,
        } && source == arg(line, 1) && dest == arg(line, 2) && amount == i64_read(arg(line, 3), 30000)
            && push == i64_read(arg(line, 4), 0) && chan_id == i64_read(arg(line, 5), 0)),
        first_word_is(line, "close_channel"@) ==> (spec_parse_command(line) matches CommandView::CloseChannel {
            source,
            chan_id,
        } && source == arg(line, 1) && chan_id == i64_read(arg(line, 2), 0)),
{
    lemma_command_names();
}

/// The peer and funding commands take the node after the command word as
/// the source and the next word as the other node (or the amount, `1.0` by
/// default).
pub proof fn law_peer_commands_read_their_words(line: Seq<char>)
    ensures
        first_word_is(line, "connect_peer"@) ==> (spec_parse_command(line) matches CommandView::ConnectPeer {
            source,
            dest,
        } && source == arg(line, 1) && dest == arg(line, 2)),
        first_word_is(line, "disconnect_peer"@) ==> (spec_parse_command(line) matches CommandView::DisconnectPeer {
            source,
            dest,
        } && source == arg(line, 1) && dest == arg(line, 2)),
        first_word_is(line, "fund_node"@) ==> (spec_parse_command(line) matches CommandView::FundNode {
            source,
            amount_text,
        } && source == arg(line, 1) && amount_text == (if words(line).len() > 2 { words(line)[2] } else { "1.0"@ })),
{
    lemma_command_names();
}

/// The node queries take the node named after the command word.
pub proof fn law_node_queries_read_their_node(line: Seq<char>)
    ensures
        first_word_is(line, "get_pub_key"@) ==> (spec_parse_command(line) matches CommandView::GetPubKey { node }
            && node == arg(line, 1)),
        first_word_is(line, "list_peers"@) ==> (spec_parse_command(line) matches CommandView::ListPeers { node }
            && node == arg(line, 1)),
        first_word_is(line, "wallet_balance"@) ==> (spec_parse_command(line) matches CommandView::WalletBalance { node }
            && node == arg(line, 1)),
        first_word_is(line, "channel_balance"@) ==> (spec_parse_command(line) matches CommandView::ChannelBalance {
            node,
        } && node == arg(line, 1)),
        first_word_is(line, "list_channels"@) ==> (spec_parse_command(line) matches CommandView::ListChannels { node }
            && node == arg(line, 1)),
{
    lemma_command_names();
}

/// `add_activity source dest start count interval amount`: the two nodes,
/// then the optional start and count (absent when the word is not a
/// number), the interval (10 by default) and the amount (50000 by default).
/// `add_event frame event args...`: the frame (10 by default), the event
/// name and the words after it (none when there are none). `save name`
/// (`simulation1` by default).
pub proof fn law_setup_commands_read_their_words(line: Seq<char>)
    ensures
        first_word_is(line, "add_activity"@) ==> (spec_parse_command(line) matches CommandView::AddActivity {
            source,
            dest,
            start_secs,
            count,
            interval,
            amount_msat,
        } && source == arg(line, 1) && dest == arg(line, 2)
            && start_secs == (match spec_parse_u16(arg(line, 3)) { Ok(v) => Some(v), Err(_) => None })
            && count == (match spec_parse_u64(arg(line, 4)) { Ok(v) => Some(v), Err(_) => None })
            && interval == (match spec_parse_u16(arg(line, 5)) { Ok(v) => v, Err(_) => 10u16 })
            && amount_msat == (match spec_parse_u64(arg(line, 6)) { Ok(v) => v, Err(_) => 50000u64 })),
        first_word_is(line, "add_event"@) ==> (spec_parse_command(line) matches CommandView::AddEvent {
            frame,
            event,
            args,
        } && frame == (match spec_parse_u64(arg(line, 1)) { Ok(v) => v, Err(_) => 10u64 })
            && event == arg(line, 2)
            && args == (if words(line).len() > 3 { Some(words(line).skip(3)) } else { None::<Seq<Seq<char>>> })),
        first_word_is(line, "save"@) ==> (spec_parse_command(line) matches CommandView::Save { name }
            && name == (if words(line).len() > 1 { words(line)[1] } else { "simulation1"@ })),
{
    lemma_command_names();
    if first_word_is(line, "add_event"@) && words(line).len() > 3 {
        assert(words(line).drop_first().skip(2) =~= words(line).skip(3));
    }
}

/// A node query shows its answer, or its error, as the one line of output.
pub proof fn law_node_query_answer_shown(c: CommandView, s: Seq<char>)
    requires
        c is GetPubKey || c is ListPeers || c is WalletBalance || c is ChannelBalance || c is ListChannels,
    ensures
        spec_report(c, Ok(s)) == seq![s],
        spec_report(c, Err(s)) == seq![s],
{
}

/// The channel, peer and funding commands show nothing when they succeed,
/// and their error after a prefix that names the command when they fail; a
/// save shows a success line or its error.
pub proof fn law_command_outcomes_shown(c: CommandView, s: Seq<char>)
    ensures
        (c is OpenChannel || c is CloseChannel || c is ConnectPeer || c is DisconnectPeer || c is FundNode)
            ==> spec_report(c, Ok(s)).len() == 0,
        c is OpenChannel ==> spec_report(c, Err(s)) == seq!["Unable to open channel: "@ + s],
        c is CloseChannel ==> spec_report(c, Err(s)) == seq!["Unable to open channel: "@ + s],
        c is ConnectPeer ==> spec_report(c, Err(s)) == seq!["Unable to connect peers: "@ + s],
        c is DisconnectPeer ==> spec_report(c, Err(s)) == seq!["Unable to disconnect peers: "@ + s],
        c is FundNode ==> spec_report(c, Err(s)) == seq!["Unable to fund node: "@ + s],
        c is Save ==> spec_report(c, Ok(s)) == seq!["Successfully saved simulation."@],
        c is Save ==> spec_report(c, Err(s)) == seq![s],
{
}

} // verus!
