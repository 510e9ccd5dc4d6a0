use blast::configure::{ConfigureSection, ConfigureTab};
use blast::tui::{KeyCode, KeyPress, ProcessResult};

fn press(code: KeyCode) -> KeyPress {
    KeyPress { code, is_press: true }
}

fn type_text(t: &mut ConfigureTab, s: &str) {
    for c in s.chars() {
        assert!(matches!(t.process(press(KeyCode::Char(c))), ProcessResult::NoOp));
    }
}

#[test]
fn typing_and_editing_the_command_line() {
    let mut t = ConfigureTab::new();
    assert_eq!(t.get_index(), 2);
    type_text(&mut t, "helo");
    assert_eq!(t.input, "helo");
    assert_eq!(t.character_index, 4);
    t.process(press(KeyCode::Left));
    t.process(press(KeyCode::Char('l')));
    assert_eq!(t.input, "hello");
    assert_eq!(t.character_index, 4);
    t.process(press(KeyCode::Backspace));
    assert_eq!(t.input, "helo");
    assert_eq!(t.character_index, 3);
    t.process(press(KeyCode::Right));
    t.process(press(KeyCode::Right));
    assert_eq!(t.character_index, 4);
    t.reset_cursor();
    t.process(press(KeyCode::Backspace));
    assert_eq!(t.input, "helo");
    assert_eq!(t.character_index, 0);
    t.process(press(KeyCode::Left));
    assert_eq!(t.character_index, 0);
}

#[test]
fn type_then_delete_restores_the_input() {
    let mut t = ConfigureTab::new();
    type_text(&mut t, "abc");
    t.move_cursor_left();
    let before = (t.input.clone(), t.character_index);
    t.enter_char('Z');
    assert_eq!(t.input, "abZc");
    t.delete_char();
    assert_eq!((t.input.clone(), t.character_index), before);
}

#[test]
fn enter_sends_commands_and_keeps_history() {
    let mut t = ConfigureTab::new();
    type_text(&mut t, "get_nodes");
    match t.process(press(KeyCode::Enter)) {
        ProcessResult::Command(c) => assert_eq!(c, "get_nodes"),
        _ => panic!("expected a command"),
    }
    assert_eq!(t.input, "");
    assert_eq!(t.history, vec!["get_nodes".to_string()]);
    assert_eq!(t.history_index, 1);
    type_text(&mut t, "help");
    t.process(press(KeyCode::Enter));
    assert_eq!(t.history_index, 2);
    t.process(press(KeyCode::Up));
    assert_eq!(t.input, "help");
    assert_eq!(t.history_index, 1);
    assert_eq!(t.character_index, 4);
    t.process(press(KeyCode::Up));
    assert_eq!(t.input, "get_nodes");
    t.process(press(KeyCode::Up));
    assert_eq!(t.input, "get_nodes");
    assert_eq!(t.history_index, 0);
    t.process(press(KeyCode::Down));
    assert_eq!(t.input, "help");
    t.process(press(KeyCode::Down));
    assert_eq!(t.input, "");
    assert_eq!(t.history_index, 2);
    t.process(press(KeyCode::Down));
    assert_eq!(t.history_index, 2);
}

#[test]
fn stop_and_start_close_the_tab() {
    let mut t = ConfigureTab::new();
    type_text(&mut t, "stop");
    assert!(matches!(t.process(press(KeyCode::Enter)), ProcessResult::StopNetwork));
    assert_eq!(t.input, "");
    assert!(t.history.is_empty());
    type_text(&mut t, "start");
    assert!(matches!(t.process(press(KeyCode::Enter)), ProcessResult::StartSim));
    assert_eq!(t.character_index, 0);
}

#[test]
fn tab_cycles_through_the_sections() {
    let mut t = ConfigureTab::new();
    t.update_config_data(
        Some(vec!["out".to_string()]),
        Some(vec!["e1".to_string(), "e2".to_string()]),
        Some(vec!["c1".to_string()]),
        Some(vec!["a1".to_string()]),
    );
    assert_eq!(t.messages, vec!["out".to_string()]);
    type_text(&mut t, "x");
    t.process(press(KeyCode::Tab));
    assert_eq!(t.current_section, ConfigureSection::Events);
    assert_eq!(t.input, "");
    assert_eq!(t.events.selected, Some(0));
    t.process(press(KeyCode::Down));
    assert_eq!(t.events.selected, Some(1));
    // typing is ignored outside the command line
    t.process(press(KeyCode::Char('y')));
    assert_eq!(t.input, "");
    assert!(matches!(t.process(press(KeyCode::Enter)), ProcessResult::NoOp));
    t.process(press(KeyCode::Tab));
    assert_eq!(t.current_section, ConfigureSection::Channels);
    assert_eq!(t.events.selected, None);
    assert_eq!(t.channels.selected, Some(0));
    t.process(press(KeyCode::Tab));
    assert_eq!(t.current_section, ConfigureSection::Activity);
    assert_eq!(t.activity.selected, Some(0));
    t.process(press(KeyCode::Tab));
    assert_eq!(t.current_section, ConfigureSection::Command);
    assert_eq!(t.activity.selected, None);
}

#[test]
fn releases_and_other_keys_do_nothing() {
    let mut t = ConfigureTab::new();
    let r = t.process(KeyPress { code: KeyCode::Char('a'), is_press: false });
    assert!(matches!(r, ProcessResult::NoOp));
    assert_eq!(t.input, "");
    assert!(matches!(t.esc_operation(), ProcessResult::NoOp));
    assert!(matches!(t.quit_operation(), ProcessResult::NoOp));
}

#[test]
fn close_clears_output_and_selection() {
    let mut t = ConfigureTab::new();
    t.update_config_data(Some(vec!["m".to_string()]), Some(vec!["e".to_string()]), None, None);
    type_text(&mut t, "ab");
    t.events.next();
    t.close();
    assert!(t.messages.is_empty());
    assert_eq!(t.input, "");
    assert_eq!(t.character_index, 0);
    assert_eq!(t.events.selected, None);
    assert_eq!(t.events.items, vec!["e".to_string()]);
    t.init();
    assert_eq!(t.current_section, ConfigureSection::Command);
}

#[test]
fn cursor_byte_index_and_clamping() {
    let mut t = ConfigureTab::new();
    type_text(&mut t, "héllo");
    t.character_index = 2;
    assert_eq!(t.byte_index(), 3);
    t.character_index = 9;
    assert_eq!(t.byte_index(), 6);
    assert_eq!(t.clamp_cursor(100), 5);
    assert_eq!(t.clamp_cursor(1), 1);
}

#[test]
fn positions_stay_in_range_over_any_keys() {
    let mut t = ConfigureTab::new();
    let keys = [
        KeyCode::Char('a'), KeyCode::Enter, KeyCode::Up, KeyCode::Up, KeyCode::Right, KeyCode::Right,
        KeyCode::Backspace, KeyCode::Down, KeyCode::Down, KeyCode::Left, KeyCode::Char('b'), KeyCode::Enter,
        KeyCode::Up, KeyCode::Backspace, KeyCode::Down, KeyCode::Other,
    ];
    for k in keys {
        t.process(press(k));
        assert!(t.history_index <= t.history.len());
        assert!(t.character_index <= t.input.chars().count());
    }
}
