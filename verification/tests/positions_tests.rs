use tui_service::positions::{
    make_combo_key, positions_display_info, selected_position_target, toggle_combo, ComboKey,
    PositionRow, PositionTarget,
};

fn pos(symbol: &str, account: Option<&str>, strategy: Option<&str>) -> PositionRow {
    PositionRow {
        symbol: symbol.to_string(),
        account_id: account.map(|s| s.to_string()),
        strategy: strategy.map(|s| s.to_string()),
    }
}

fn key(a: &str, s: &str, stem: &str) -> ComboKey {
    (a.to_string(), s.to_string(), stem.to_string())
}

fn sample() -> Vec<PositionRow> {
    vec![
        pos("SPX 250620C05000000", Some("U1"), Some("box")),
        pos("AAPL", Some("U1"), None),
        pos("SPX 250620P05000000", Some("U1"), Some("box")),
    ]
}

#[test]
fn flat_view_lists_every_position() {
    let (len, idx, keys) = positions_display_info(&sample(), false, &Vec::new());
    assert_eq!(len, 3);
    assert_eq!(idx, vec![Some(0), Some(1), Some(2)]);
    assert_eq!(keys, vec![None, None, None]);
}

#[test]
fn combo_view_collapsed_shows_one_header_per_combo() {
    let (len, idx, keys) = positions_display_info(&sample(), true, &Vec::new());
    assert_eq!(len, 2);
    assert_eq!(idx, vec![None, None]);
    assert_eq!(keys, vec![Some(key("U1", "box", "SPX")), Some(key("U1", "", "AAPL"))]);
}

#[test]
fn combo_view_expanded_lists_members_under_header() {
    let expanded = vec![key("U1", "box", "SPX")];
    let (len, idx, keys) = positions_display_info(&sample(), true, &expanded);
    assert_eq!(len, 4);
    assert_eq!(idx, vec![None, Some(0), Some(2), None]);
    assert_eq!(keys[0], Some(key("U1", "box", "SPX")));
    assert_eq!(keys[1], None);
    assert_eq!(keys[3], Some(key("U1", "", "AAPL")));
}

#[test]
fn empty_positions_have_no_rows_in_either_view() {
    assert_eq!(positions_display_info(&Vec::new(), true, &Vec::new()).0, 0);
    assert_eq!(positions_display_info(&Vec::new(), false, &Vec::new()).0, 0);
}

#[test]
fn combo_key_uses_stem_and_empty_defaults() {
    assert_eq!(make_combo_key(&pos("SPX 250620C05000000", None, None)), key("", "", "SPX"));
}

#[test]
fn selected_row_targets_combo_or_position() {
    let expanded = vec![key("U1", "box", "SPX")];
    let (_, idx, keys) = positions_display_info(&sample(), true, &expanded);
    match selected_position_target(&idx, &keys, 0, 3) {
        PositionTarget::ToggleCombo(k) => assert_eq!(k, key("U1", "box", "SPX")),
        other => panic!("unexpected {:?}", other),
    }
    match selected_position_target(&idx, &keys, 2, 3) {
        PositionTarget::ShowPosition(i) => assert_eq!(i, 2),
        other => panic!("unexpected {:?}", other),
    }
    assert!(matches!(selected_position_target(&idx, &keys, 9, 3), PositionTarget::Nothing));
    assert!(matches!(selected_position_target(&idx, &keys, 2, 1), PositionTarget::Nothing));
}

#[test]
fn toggling_a_combo_twice_restores_it() {
    let mut expanded = vec![key("U1", "", "AAPL")];
    toggle_combo(&mut expanded, key("U1", "box", "SPX"));
    assert_eq!(expanded.len(), 2);
    toggle_combo(&mut expanded, key("U1", "box", "SPX"));
    assert_eq!(expanded, vec![key("U1", "", "AAPL")]);
}
