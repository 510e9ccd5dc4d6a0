use blast::tui::{unwrap_or_empty, KeyCode, KeyPress, Model, StatefulList};

#[test]
fn list_next_wraps_around() {
    let mut l = StatefulList::with_items(vec!["a", "b", "c"]);
    assert_eq!(l.selected, None);
    l.next();
    assert_eq!(l.selected, Some(0));
    l.next();
    l.next();
    assert_eq!(l.selected, Some(2));
    l.next();
    assert_eq!(l.selected, Some(0));
}

#[test]
fn list_previous_wraps_around() {
    let mut l = StatefulList::with_items(vec![1, 2, 3]);
    l.previous();
    assert_eq!(l.selected, Some(0));
    l.previous();
    assert_eq!(l.selected, Some(2));
    l.previous();
    assert_eq!(l.selected, Some(1));
    l.clear();
    assert_eq!(l.selected, None);
    assert_eq!(l.items, vec![1, 2, 3]);
}

#[test]
fn list_moves_undo_each_other() {
    let mut l = StatefulList::with_items(vec!['x', 'y', 'z', 'w']);
    for start in 0..4 {
        l.selected = Some(start);
        l.next();
        l.previous();
        assert_eq!(l.selected, Some(start));
        l.previous();
        l.next();
        assert_eq!(l.selected, Some(start));
    }
}

#[test]
fn stale_selection_resets_to_top() {
    let mut l = StatefulList::with_items(vec![1, 2]);
    l.selected = Some(5);
    l.next();
    assert_eq!(l.selected, Some(0));
}

#[test]
fn models_and_keys() {
    let m = Model { name: "blast_lnd".to_string(), num_nodes: 3 };
    let d = m.duplicate();
    assert_eq!(d.name, "blast_lnd");
    assert_eq!(d.num_nodes, 3);
    let k = KeyPress { code: KeyCode::Char('q'), is_press: true };
    assert_eq!(k, KeyPress { code: KeyCode::Char('q'), is_press: true });
    assert_eq!(unwrap_or_empty(None), Vec::<String>::new());
    assert_eq!(unwrap_or_empty(Some(vec!["a".to_string()])), vec!["a".to_string()]);
}

#[test]
fn model_labels() {
    let m = Model { name: "blast_cln".to_string(), num_nodes: 12 };
    assert_eq!(m.label(), format!("{}           < {} >", "blast_cln", 12));
    let z = Model { name: "x".to_string(), num_nodes: 0 };
    assert_eq!(z.label(), "x           < 0 >");
}
