use rsf::icon::{category_from_lowered, category_of, renders_plainly, can_render_glyphs, OsCategory};
use rsf::input::{Geometry, InputEvent, Key, LoopState, Rect};
use rsf::tab::SelectedTab;
use rsf::table::TableState;
use rsf::volume::{sort_by_name, Volume};

fn vol(name: &str, vol_type: &str) -> Volume {
    Volume::new(name.to_string(), vol_type.to_string(), format!("{{\"vol\": \"{}\"}}", name))
}

fn names(t: &TableState) -> Vec<String> {
    t.items.iter().map(|v| v.name.clone()).collect()
}

fn state_with(n: usize) -> TableState {
    let items = (0..n).map(|i| vol(&format!("v{}", i), "linux")).collect();
    TableState::new(items)
}

fn geometry() -> Geometry {
    // An 100 x 30 screen: 20 columns of list, 80 of panel.
    Geometry { list: Rect::new(0, 0, 20, 30), panel: Rect::new(20, 0, 80, 30) }
}

#[test]
fn load_sorts_by_name_and_highlights_first() {
    let t = TableState::new(vec![vol("b", "linux"), vol("a", "windows")]);
    assert_eq!(names(&t), vec!["a".to_string(), "b".to_string()]);
    assert_eq!(t.selected, Some(0));
    assert_eq!(t.selected_tab, SelectedTab::VolumeShow);
}

#[test]
fn load_empty_list_has_no_highlight() {
    let t = TableState::new(vec![]);
    assert_eq!(t.selected, None);
    assert!(t.items.is_empty());
}

#[test]
fn load_order_is_non_decreasing() {
    let t = TableState::new(vec![
        vol("delta", ""),
        vol("Zulu", ""),
        vol("alpha", ""),
        vol("", ""),
        vol("delta", "x"),
        vol("beta", ""),
    ]);
    let n = names(&t);
    assert_eq!(n.len(), 6);
    for w in n.windows(2) {
        assert!(w[0] <= w[1]);
    }
    // Upper case sorts before lower case: the comparison is case-sensitive.
    assert_eq!(n[0], "");
    assert_eq!(n[1], "Zulu");
}

#[test]
fn sort_by_name_keeps_every_record() {
    let r = sort_by_name(vec![vol("c", "1"), vol("a", "2"), vol("b", "3"), vol("a", "4")]);
    let pairs: Vec<(String, String)> =
        r.iter().map(|v| (v.name.clone(), v.vol_type.clone())).collect();
    assert_eq!(pairs.len(), 4);
    assert_eq!(pairs[0], ("a".to_string(), "2".to_string()));
    assert_eq!(pairs[1], ("a".to_string(), "4".to_string()));
    assert_eq!(pairs[2], ("b".to_string(), "3".to_string()));
    assert_eq!(pairs[3], ("c".to_string(), "1".to_string()));
    let mut types: Vec<String> = pairs.iter().map(|p| p.1.clone()).collect();
    types.sort();
    assert_eq!(types, vec!["1", "2", "3", "4"]);
}

#[test]
fn equal_names_keep_their_order() {
    let t = TableState::new(vec![
        vol("b", "first"),
        vol("a", "1"),
        vol("b", "second"),
        vol("a", "2"),
        vol("b", "third"),
    ]);
    let pairs: Vec<(String, String)> =
        t.items.iter().map(|v| (v.name.clone(), v.vol_type.clone())).collect();
    let expected: Vec<(String, String)> = [("a", "1"), ("a", "2"), ("b", "first"), ("b", "second"), ("b", "third")]
        .iter()
        .map(|(n, k)| (n.to_string(), k.to_string()))
        .collect();
    assert_eq!(pairs, expected);
}

#[test]
fn missing_type_gets_unrecognized_icon() {
    let mut t = state_with(0);
    assert_eq!(t.get_os_icon(""), "\u{f128} ");
    t.use_unicode = false;
    assert_eq!(t.get_os_icon(""), "[?] ");
    let mut r = TableState::new(vec![vol("x", "")]);
    r.use_unicode = false;
    assert_eq!(r.row_text(0), "[?] x");
}

#[test]
fn next_then_previous_returns() {
    for n in 1..5usize {
        for i in 0..n {
            let mut t = state_with(n);
            t.select_row(i);
            t.next();
            t.previous();
            assert_eq!(t.selected, Some(i));
            t.previous();
            t.next();
            assert_eq!(t.selected, Some(i));
        }
    }
}

#[test]
fn next_n_times_wraps_to_start() {
    for n in 1..6usize {
        let mut t = state_with(n);
        for _ in 0..n {
            t.next();
        }
        assert_eq!(t.selected, Some(0));
    }
}

#[test]
fn next_from_last_wraps_to_first() {
    let mut t = state_with(3);
    t.select_row(2);
    t.next();
    assert_eq!(t.selected, Some(0));
}

#[test]
fn previous_from_first_wraps_to_last() {
    let mut t = state_with(3);
    t.previous();
    assert_eq!(t.selected, Some(2));
}

#[test]
fn moves_on_empty_list_leave_no_highlight() {
    let mut t = state_with(0);
    t.next();
    assert_eq!(t.selected, None);
    t.previous();
    assert_eq!(t.selected, None);
}

#[test]
fn select_row_out_of_range_is_ignored() {
    let mut t = state_with(3);
    t.select_row(1);
    t.select_row(3);
    assert_eq!(t.selected, Some(1));
}

#[test]
fn tab_moves_clamp_at_ends() {
    assert_eq!(SelectedTab::Browse.next(), SelectedTab::Browse);
    assert_eq!(SelectedTab::VolumeShow.previous(), SelectedTab::VolumeShow);
    assert_eq!(SelectedTab::VolumeShow.next(), SelectedTab::Scans);
    assert_eq!(SelectedTab::Browse.previous(), SelectedTab::Scans);
    let mut t = state_with(1);
    t.tab_previous();
    assert_eq!(t.selected_tab, SelectedTab::VolumeShow);
    t.tab_next();
    t.tab_next();
    t.tab_next();
    assert_eq!(t.selected_tab, SelectedTab::Browse);
}

#[test]
fn tab_index_mapping() {
    for (i, tab) in SelectedTab::all().iter().enumerate() {
        assert_eq!(tab.to_index(), i);
        assert_eq!(SelectedTab::from_index(i), Some(*tab));
    }
    assert_eq!(SelectedTab::from_index(3), None);
    assert_eq!(SelectedTab::default(), SelectedTab::VolumeShow);
}

#[test]
fn tab_titles_are_padded() {
    assert_eq!(SelectedTab::VolumeShow.title(), "Volume Show [1]");
    assert_eq!(SelectedTab::Scans.title(), "Scans [2]      ");
    assert_eq!(SelectedTab::Browse.title(), "Browse [3]     ");
    for tab in SelectedTab::all() {
        assert_eq!(tab.title().chars().count(), 15);
    }
}

#[test]
fn shortcut_two_always_gives_scans() {
    for start in SelectedTab::all() {
        let mut t = state_with(2);
        t.set_tab(start);
        t.select_tab_by_shortcut('2');
        assert_eq!(t.selected_tab, SelectedTab::Scans);
    }
}

#[test]
fn unknown_shortcut_keeps_tab() {
    for start in SelectedTab::all() {
        let mut t = state_with(2);
        t.set_tab(start);
        t.select_tab_by_shortcut('x');
        assert_eq!(t.selected_tab, start);
    }
    assert_eq!(SelectedTab::from_key('1'), Some(SelectedTab::VolumeShow));
    assert_eq!(SelectedTab::from_key('3'), Some(SelectedTab::Browse));
}

#[test]
fn icon_category_ignores_case() {
    assert_eq!(category_of("Linux"), OsCategory::Linux);
    assert_eq!(category_of("linux"), OsCategory::Linux);
    assert_eq!(category_of("LINUX"), OsCategory::Linux);
    assert_eq!(category_of("WiNdOwS"), OsCategory::Windows);
    assert_eq!(category_of("VIRTUAL"), OsCategory::Virtual);
    assert_eq!(category_of("solaris"), OsCategory::Unrecognized);
    assert_eq!(category_of(""), OsCategory::Unrecognized);
    let t = state_with(0);
    assert_eq!(t.get_os_icon("Linux"), t.get_os_icon("LINUX"));
    assert_eq!(t.get_os_icon("linux"), t.get_os_icon("LINUX"));
}

#[test]
fn category_from_lowered_is_exact() {
    assert_eq!(category_from_lowered("linux"), OsCategory::Linux);
    assert_eq!(category_from_lowered("Linux"), OsCategory::Unrecognized);
    assert_eq!(category_from_lowered("windows"), OsCategory::Windows);
    assert_eq!(category_from_lowered("virtual"), OsCategory::Virtual);
}

#[test]
fn icons_use_glyphs_or_labels_all_together() {
    assert!(can_render_glyphs());
    let mut t = state_with(0);
    assert!(t.use_unicode);
    assert_eq!(t.get_os_icon("LINUX"), "\u{f17c} ");
    assert_eq!(t.get_os_icon("windows"), "\u{f17a} ");
    assert_eq!(t.get_os_icon("virtual"), "\u{f0c2} ");
    assert_eq!(t.get_os_icon("other"), "\u{f128} ");
    t.use_unicode = false;
    assert_eq!(t.get_os_icon("Linux"), "[L] ");
    assert_eq!(t.get_os_icon("WINDOWS"), "[W] ");
    assert_eq!(t.get_os_icon("Virtual"), "[V] ");
    assert_eq!(t.get_os_icon("other"), "[?] ");
}

#[test]
fn control_characters_are_detected() {
    assert!(renders_plainly("abc \u{f17a}"));
    assert!(renders_plainly(""));
    assert!(!renders_plainly("a\u{7}b"));
    assert!(!renders_plainly("\u{85}"));
    assert!(!renders_plainly("\n"));
}

#[test]
fn row_text_is_icon_then_name() {
    let mut t = TableState::new(vec![vol("data", "Windows")]);
    t.use_unicode = false;
    assert_eq!(t.row_text(0), "[W] data");
}

#[test]
fn body_text_follows_tab_and_selection() {
    let mut t = TableState::new(vec![vol("b", ""), vol("a", "")]);
    assert_eq!(t.body_text(), "{\"vol\": \"a\"}");
    t.set_tab(SelectedTab::Scans);
    assert_eq!(t.body_text(), "Scans tab content coming soon...");
    t.set_tab(SelectedTab::Browse);
    assert_eq!(t.body_text(), "Browse tab content coming soon...");
    let e = state_with(0);
    assert_eq!(e.body_text(), "No volume selected");
}

#[test]
fn quit_key_stops_on_empty_list() {
    let mut t = state_with(0);
    let r = t.handle_event(InputEvent::Key(Key::Char('q')), geometry());
    assert_eq!(r, LoopState::Stopped);
    assert_eq!(t.selected, None);
}

#[test]
fn keys_move_selection_and_tabs() {
    let g = geometry();
    let mut t = state_with(3);
    assert_eq!(t.handle_event(InputEvent::Key(Key::Char('j')), g), LoopState::Running);
    assert_eq!(t.selected, Some(1));
    t.handle_event(InputEvent::Key(Key::Down), g);
    assert_eq!(t.selected, Some(2));
    t.handle_event(InputEvent::Key(Key::Char('k')), g);
    assert_eq!(t.selected, Some(1));
    t.handle_event(InputEvent::Key(Key::Up), g);
    t.handle_event(InputEvent::Key(Key::Up), g);
    assert_eq!(t.selected, Some(2));
    t.handle_event(InputEvent::Key(Key::Right), g);
    assert_eq!(t.selected_tab, SelectedTab::Scans);
    t.handle_event(InputEvent::Key(Key::Left), g);
    assert_eq!(t.selected_tab, SelectedTab::VolumeShow);
    t.handle_event(InputEvent::Key(Key::Char('3')), g);
    assert_eq!(t.selected_tab, SelectedTab::Browse);
    t.handle_event(InputEvent::Key(Key::Char('z')), g);
    t.handle_event(InputEvent::Key(Key::Other), g);
    t.handle_event(InputEvent::Other, g);
    assert_eq!(t.selected_tab, SelectedTab::Browse);
    assert_eq!(t.selected, Some(2));
}

#[test]
fn press_on_second_list_row_selects_it() {
    let mut t = state_with(3);
    // The list's top border is row 0, so item 1 is drawn on row 2.
    let r = t.handle_event(InputEvent::Press { column: 5, row: 2 }, geometry());
    assert_eq!(r, LoopState::Running);
    assert_eq!(t.selected, Some(1));
}

#[test]
fn press_on_border_or_below_list_is_ignored() {
    let mut t = state_with(3);
    t.select_row(2);
    t.handle_event(InputEvent::Press { column: 5, row: 0 }, geometry());
    assert_eq!(t.selected, Some(2));
    t.handle_event(InputEvent::Press { column: 5, row: 10 }, geometry());
    assert_eq!(t.selected, Some(2));
}

#[test]
fn press_on_third_tab_selects_browse() {
    let mut t = state_with(3);
    // Tabs start at column 20 and each takes 17 columns.
    t.handle_event(InputEvent::Press { column: 20 + 2 * 17 + 3, row: 0 }, geometry());
    assert_eq!(t.selected_tab, SelectedTab::Browse);
    t.handle_event(InputEvent::Press { column: 20 + 17, row: 0 }, geometry());
    assert_eq!(t.selected_tab, SelectedTab::Scans);
}

#[test]
fn press_outside_tabs_is_ignored() {
    let mut t = state_with(3);
    // Beyond the third tab, below the header, and off screen.
    t.handle_event(InputEvent::Press { column: 20 + 3 * 17, row: 0 }, geometry());
    t.handle_event(InputEvent::Press { column: 25, row: 1 }, geometry());
    t.handle_event(InputEvent::Press { column: 150, row: 0 }, geometry());
    assert_eq!(t.selected_tab, SelectedTab::VolumeShow);
    assert_eq!(t.selected, Some(0));
}

#[test]
fn rect_contains_edges() {
    let r = Rect::new(2, 3, 4, 5);
    assert!(r.contains(2, 3));
    assert!(r.contains(5, 7));
    assert!(!r.contains(6, 3));
    assert!(!r.contains(2, 8));
    assert!(!r.contains(1, 3));
    let edge = Rect::new(65530, 0, 100, 1);
    assert!(edge.contains(65534, 0));
    assert!(!edge.contains(65535, 0));
}
