use blast::cli::{start_failure, stop_failure, tab_index, TabId, UiEffect, UiState};
use blast::tui::{KeyCode, KeyPress, Mode};

fn press(code: KeyCode) -> KeyPress {
    KeyPress { code, is_press: true }
}

#[test]
fn menu_keys() {
    let mut s = UiState::new();
    assert_eq!(s.mode, Mode::Menu);
    assert_eq!(s.current, TabId::New);
    assert_eq!(s.on_key(press(KeyCode::Left)), UiEffect::Nothing);
    assert_eq!(s.current, TabId::New);
    assert_eq!(s.on_key(press(KeyCode::Right)), UiEffect::RefreshSims);
    assert_eq!(s.current, TabId::Load);
    assert_eq!(s.on_key(press(KeyCode::Right)), UiEffect::Nothing);
    assert_eq!(s.on_key(press(KeyCode::Left)), UiEffect::Nothing);
    assert_eq!(s.current, TabId::New);
    assert_eq!(s.on_key(press(KeyCode::Char('x'))), UiEffect::Nothing);
    assert_eq!(s.on_key(press(KeyCode::Char('q'))), UiEffect::Quit);
    assert_eq!(s.on_key(press(KeyCode::Enter)), UiEffect::InitCurrent);
    assert_eq!(s.mode, Mode::Page);
}

#[test]
fn page_keys() {
    let mut s = UiState::new();
    s.on_key(press(KeyCode::Enter));
    assert_eq!(s.on_key(press(KeyCode::Down)), UiEffect::Forward);
    assert_eq!(s.on_key(press(KeyCode::Char('a'))), UiEffect::Forward);
    assert_eq!(s.on_key(press(KeyCode::Char('q'))), UiEffect::Quit);
    s.show(TabId::Configure);
    assert_eq!(s.on_key(press(KeyCode::Char('q'))), UiEffect::Nothing);
    assert_eq!(s.on_key(press(KeyCode::Esc)), UiEffect::Nothing);
    assert_eq!(s.mode, Mode::Page);
    s.show(TabId::Load);
    assert_eq!(s.on_key(press(KeyCode::Esc)), UiEffect::CloseCurrent);
    assert_eq!(s.mode, Mode::Menu);
}

#[test]
fn errors_and_network_stop() {
    let mut s = UiState::new();
    s.on_key(press(KeyCode::Enter));
    s.show(TabId::Run);
    s.fail("boom".to_string());
    assert_eq!(s.mode, Mode::Error);
    assert_eq!(s.error, Some("boom".to_string()));
    assert_eq!(s.on_key(press(KeyCode::Char('q'))), UiEffect::Nothing);
    assert_eq!(s.on_key(press(KeyCode::Enter)), UiEffect::InitCurrent);
    assert_eq!(s.mode, Mode::Page);
    assert_eq!(s.error, None);
    assert_eq!(s.current, TabId::Run);
    s.network_stopped();
    assert_eq!(s.current, TabId::New);
    assert_eq!(s.mode, Mode::Menu);
}

#[test]
fn tab_positions() {
    assert_eq!(tab_index(TabId::New), 0);
    assert_eq!(tab_index(TabId::Load), 1);
    assert_eq!(tab_index(TabId::Configure), 2);
    assert_eq!(tab_index(TabId::Run), 3);
}

#[test]
fn failure_messages_quote_the_error() {
    assert_eq!(start_failure("no \"sim\""), format!("Failed to start the simulation: {:?}", "no \"sim\""));
    assert_eq!(start_failure("x"), "Failed to start the simulation: \"x\"");
    assert_eq!(stop_failure("y\n"), "Failed to stop the simulation: \"y\\n\"");
}
