use blast::channels::{cln_channel_missing, OpenChannel, OpenChannels};

fn chan(source: &str, peer: &str, channel: &str) -> OpenChannel {
    OpenChannel { source: source.to_string(), peer: peer.to_string(), channel: channel.to_string() }
}

#[test]
fn recorded_channels_are_found_until_forgotten() {
    let mut c = OpenChannels::new();
    assert!(c.get(1).is_none());
    c.record(1, chan("blast_cln-0000", "02aa", "abcd"));
    c.record(2, chan("blast_cln-0001", "03bb", "ef01"));
    let got = c.get(1).unwrap();
    assert_eq!((got.source.as_str(), got.peer.as_str(), got.channel.as_str()), ("blast_cln-0000", "02aa", "abcd"));
    c.record(1, chan("blast_cln-0002", "02cc", "9999"));
    assert_eq!(c.get(1).unwrap().channel, "9999");
    c.forget(1);
    assert!(c.get(1).is_none());
    assert_eq!(c.get(2).unwrap().peer, "03bb");
    c.forget(7);
    assert_eq!(c.get(2).unwrap().source, "blast_cln-0001");
}

#[test]
fn channel_overview() {
    let mut c = OpenChannels::new();
    assert_eq!(c.summary(), "");
    c.record(5, chan("a", "k1", "x"));
    c.record(-3, chan("b", "k2", "y"));
    let s = c.summary();
    let mut parts: Vec<&str> = s.split(',').collect();
    parts.sort();
    assert_eq!(parts, vec!["-3: b -> k2", "5: a -> k1"]);
}

#[test]
fn missing_channel_message() {
    assert_eq!(cln_channel_missing(4), format!("Could not get channel from id: {:?}", 4i64));
    assert_eq!(cln_channel_missing(-1), "Could not get channel from id: -1");
}
