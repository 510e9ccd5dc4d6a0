use blast::event::{BlastEvent, BlastEventManager, FrameAction, BLOCKS_PER_FRAME, FRAME_RATE};

fn strs(v: &[&str]) -> Option<Vec<String>> {
    Some(v.iter().map(|s| s.to_string()).collect())
}

#[test]
fn event_names_and_field_counts() {
    assert!(matches!(BlastEvent::from_str("StartNode"), BlastEvent::StartNodeEvent(ref a) if a.is_empty()));
    assert!(matches!(BlastEvent::from_str("StopNode"), BlastEvent::StopNodeEvent(_)));
    assert!(matches!(BlastEvent::from_str("OpenChannel"), BlastEvent::OpenChannelEvent(_, _, 0, 0, 0)));
    assert!(matches!(BlastEvent::from_str("CloseChannel"), BlastEvent::CloseChannelEvent(_, 0)));
    assert!(matches!(BlastEvent::from_str("startnode"), BlastEvent::NoEvent));
    assert_eq!(BlastEvent::from_str("StartNode").num_fields(), 1);
    assert_eq!(BlastEvent::from_str("StopNode").num_fields(), 1);
    assert_eq!(BlastEvent::from_str("OpenChannel").num_fields(), 5);
    assert_eq!(BlastEvent::from_str("CloseChannel").num_fields(), 2);
    assert_eq!(BlastEvent::NoEvent.num_fields(), 0);
}

#[test]
fn events_print_their_fields() {
    let e = BlastEvent::OpenChannelEvent("a".to_string(), "b".to_string(), 5000, -1, 7);
    assert_eq!(e.to_text(), "OpenChannelEvent: a b 5000 -1 7");
    assert_eq!(BlastEvent::CloseChannelEvent("n".to_string(), 3).to_text(), "CloseChannelEvent: n 3");
    assert_eq!(BlastEvent::StartNodeEvent("x".to_string()).to_text(), "StartNodeEvent: x");
    assert_eq!(BlastEvent::StopNodeEvent("y".to_string()).to_text(), "StopNodeEvent: y");
    assert_eq!(BlastEvent::NoEvent.to_text(), "NoEvent");
    let d = e.duplicate();
    assert_eq!(d.to_text(), e.to_text());
}

#[test]
fn added_events_are_read_back_in_order() {
    let mut m = BlastEventManager::new();
    assert!(m.events_at(5).is_empty());
    assert_eq!(m.add_event(5, "StartNode", strs(&["blast_lnd-0000"])), Ok(()));
    assert_eq!(m.add_event(5, "CloseChannel", strs(&["blast_lnd-0000", "12"])), Ok(()));
    assert_eq!(m.add_event(6, "OpenChannel", strs(&["a", "b", "1000", "0", "3"])), Ok(()));
    let at5 = m.events_at(5);
    assert_eq!(at5.len(), 2);
    assert_eq!(at5[0].to_text(), "StartNodeEvent: blast_lnd-0000");
    assert_eq!(at5[1].to_text(), "CloseChannelEvent: blast_lnd-0000 12");
    let at6 = m.events_at(6);
    assert_eq!(at6.len(), 1);
    assert!(matches!(&at6[0], BlastEvent::OpenChannelEvent(a, b, 1000, 0, 3) if a == "a" && b == "b"));
    assert!(m.events_at(7).is_empty());
}

#[test]
fn add_event_errors() {
    let mut m = BlastEventManager::new();
    assert_eq!(m.add_event(1, "Explode", strs(&["x"])), Err("Error parsing BlastEvent".to_string()));
    assert_eq!(m.add_event(1, "StartNode", None), Err("No args given for StartNodeEvent: .".to_string()));
    assert_eq!(
        m.add_event(1, "CloseChannel", strs(&["a"])),
        Err("Not the correct number of args for CloseChannelEvent:  0.".to_string())
    );
    assert_eq!(
        m.add_event(1, "OpenChannel", strs(&["a", "b", "lots", "0", "1"])),
        Err("Error parsing argument: invalid digit found in string".to_string())
    );
    assert_eq!(
        m.add_event(1, "CloseChannel", strs(&["a", ""])),
        Err("Error parsing argument: cannot parse integer from empty string".to_string())
    );
    assert_eq!(
        m.add_event(1, "OpenChannel", strs(&["a", "b", "1", "99999999999999999999", "1"])),
        Err("Error parsing argument: number too large to fit in target type".to_string())
    );
    // nothing was scheduled by the failed calls
    assert!(m.events_at(1).is_empty());
}

#[test]
fn frame_steps_dispatch_then_halt() {
    let mut m = BlastEventManager::new();
    m.add_event(0, "StopNode", strs(&["n1"])).unwrap();
    match m.frame_step(true, 0) {
        FrameAction::Dispatch { events, next_frame } => {
            assert_eq!(next_frame, 1);
            assert_eq!(events.len(), 1);
            assert_eq!(events[0].to_text(), "StopNodeEvent: n1");
        }
        FrameAction::Halt => panic!("expected a dispatch"),
    }
    match m.frame_step(true, 1) {
        FrameAction::Dispatch { events, next_frame } => {
            assert!(events.is_empty());
            assert_eq!(next_frame, 2);
        }
        FrameAction::Halt => panic!("expected a dispatch"),
    }
    assert!(matches!(m.frame_step(false, 0), FrameAction::Halt));
    assert_eq!(FRAME_RATE, 1);
    assert_eq!(BLOCKS_PER_FRAME, 10);
}
