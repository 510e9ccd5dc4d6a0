use blast::tabs::{copy_models, LoadTab, NewTab, RunSection, RunTab, WaitTab};
use blast::tui::{KeyCode, KeyPress, Model, ProcessResult};

fn press(code: KeyCode) -> KeyPress {
    KeyPress { code, is_press: true }
}

fn models() -> Vec<Model> {
    vec![
        Model { name: "blast_lnd".to_string(), num_nodes: 0 },
        Model { name: "blast_ldk".to_string(), num_nodes: 2 },
    ]
}

#[test]
fn new_tab_changes_counts_and_starts() {
    let mut t = NewTab::new(models());
    assert_eq!(t.get_index(), 0);
    t.init();
    assert_eq!(t.models.selected, Some(0));
    t.process(press(KeyCode::Right));
    t.process(press(KeyCode::Right));
    assert_eq!(t.models.items[0].num_nodes, 2);
    t.process(press(KeyCode::Left));
    assert_eq!(t.models.items[0].num_nodes, 1);
    t.process(press(KeyCode::Left));
    t.process(press(KeyCode::Left));
    assert_eq!(t.models.items[0].num_nodes, 0);
    t.process(press(KeyCode::Down));
    assert_eq!(t.models.selected, Some(1));
    t.process(press(KeyCode::Down));
    assert_eq!(t.models.selected, Some(0));
    t.process(press(KeyCode::Up));
    assert_eq!(t.models.selected, Some(1));
    match t.process(press(KeyCode::Enter)) {
        ProcessResult::StartNetwork(ms) => {
            assert_eq!(ms.len(), 2);
            assert_eq!(ms[0].name, "blast_lnd");
            assert_eq!(ms[0].num_nodes, 0);
            assert_eq!(ms[1].name, "blast_ldk");
            assert_eq!(ms[1].num_nodes, 2);
        }
        _ => panic!("expected StartNetwork"),
    }
    assert!(matches!(t.esc_operation(), ProcessResult::ExitPage));
    assert!(matches!(t.quit_operation(), ProcessResult::Quit));
    t.close();
    assert_eq!(t.models.selected, None);
    let c = copy_models(&t.models.items);
    assert_eq!(c[1].name, "blast_ldk");
}

#[test]
fn new_tab_without_selection_keeps_counts() {
    let mut t = NewTab::new(models());
    assert!(matches!(t.process(press(KeyCode::Right)), ProcessResult::NoOp));
    assert_eq!(t.models.items[0].num_nodes, 0);
    assert_eq!(t.models.items[1].num_nodes, 2);
}

#[test]
fn load_tab_loads_the_selected_simulation() {
    let mut t = LoadTab::new(vec!["sim_a".to_string(), "sim_b".to_string()]);
    assert_eq!(t.get_index(), 1);
    t.init();
    t.process(press(KeyCode::Down));
    match t.process(press(KeyCode::Enter)) {
        ProcessResult::LoadNetwork(name) => assert_eq!(name, "sim_b"),
        _ => panic!("expected LoadNetwork"),
    }
    t.update_config_data(Some(vec!["only".to_string()]), None, None, None);
    assert_eq!(t.sims.items, vec!["only".to_string()]);
    t.close();
    assert_eq!(t.sims.selected, None);
    assert!(matches!(t.esc_operation(), ProcessResult::ExitPage));
    assert!(matches!(t.quit_operation(), ProcessResult::Quit));
}

#[test]
fn run_tab_sections_and_stop() {
    let mut t = RunTab::new();
    assert_eq!(t.get_index(), 3);
    t.update_lists(
        Some(vec!["e1".to_string(), "e2".to_string()]),
        Some(vec!["a1".to_string()]),
        Some(vec!["s1".to_string()]),
    );
    t.init();
    assert_eq!(t.events.selected, Some(0));
    t.process(press(KeyCode::Down));
    assert_eq!(t.events.selected, Some(1));
    t.process(press(KeyCode::Tab));
    assert_eq!(t.current_section, RunSection::Activity);
    assert_eq!(t.events.selected, None);
    assert_eq!(t.activity.selected, Some(0));
    t.process(press(KeyCode::Tab));
    assert_eq!(t.current_section, RunSection::Stats);
    assert_eq!(t.stats.selected, Some(0));
    t.process(press(KeyCode::Tab));
    assert_eq!(t.current_section, RunSection::Events);
    assert_eq!(t.events.selected, Some(0));
    assert!(matches!(t.process(press(KeyCode::Char('s'))), ProcessResult::StopSim));
    assert_eq!(t.events.selected, None);
    assert!(matches!(t.esc_operation(), ProcessResult::NoOp));
    assert!(matches!(t.quit_operation(), ProcessResult::NoOp));
    t.update_lists(None, None, None);
    assert!(t.events.items.is_empty());
}

#[test]
fn wait_tab_ignores_keys() {
    let mut w = WaitTab { message: "Starting...".to_string() };
    assert!(matches!(w.process(press(KeyCode::Enter)), ProcessResult::NoOp));
    assert_eq!(w.message, "Starting...");
    assert_eq!(w.get_index(), 4);
    assert!(matches!(w.esc_operation(), ProcessResult::ExitPage));
    assert!(matches!(w.quit_operation(), ProcessResult::NoOp));
}
