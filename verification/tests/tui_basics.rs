use clard::tui::app::i18n::{t, Lang};
use clard::tui::app::modal::{ConfirmPurpose, ConfirmState, InputPurpose, InputState};
use clard::tui::app::page::Page;
use clard::tui::app::state::{MenuItem, MenuState};

#[test]
fn lang_parse_and_toggle() {
    assert_eq!(Lang::parse("zh"), Lang::Zh);
    assert_eq!(Lang::parse("en"), Lang::En);
    assert_eq!(Lang::parse("fr"), Lang::En, "unknown falls back to en");
    assert_eq!(Lang::En.toggle(), Lang::Zh);
    assert_eq!(Lang::Zh.toggle(), Lang::En);
}

#[test]
fn translate_pages_and_unknown_fallback() {
    assert_eq!(t(Lang::En, "page.home"), "Home");
    assert_eq!(t(Lang::Zh, "page.home"), "主页");
    assert_eq!(t(Lang::Zh, "page.proxies"), "代理");
    assert_eq!(t(Lang::En, "page.unknown"), "page.unknown");
}

#[test]
fn lang_default_and_names() {
    assert_eq!(Lang::default(), Lang::En);
    assert_eq!(Lang::En.as_str(), "en");
    assert_eq!(Lang::Zh.as_str(), "zh");
    assert_eq!(Lang::parse(Lang::Zh.as_str()), Lang::Zh);
    assert_eq!(t(Lang::Zh, "footer.quit"), "退出");
    assert_eq!(t(Lang::En, "status.ready"), "Ready");
    assert_eq!(t(Lang::Zh, ""), "");
}

#[test]
fn push_and_backspace_edit_buffer() {
    let mut input = InputState::new("t", InputPurpose::ImportProfileUrl);
    input.push_char('h');
    input.push_char('i');
    assert_eq!(input.text(), "hi");
    assert_eq!(input.cursor, 2);

    input.backspace();
    assert_eq!(input.text(), "h");
    assert_eq!(input.cursor, 1);
}

#[test]
fn backspace_at_start_is_noop() {
    let mut input = InputState::new("t", InputPurpose::ImportProfileUrl);
    input.backspace();
    assert_eq!(input.text(), "");
    assert_eq!(input.cursor, 0);
}

#[test]
fn clear_resets_buffer_and_cursor() {
    let mut input = InputState::new("t", InputPurpose::ImportProfileUrl);
    input.push_char('a');
    input.push_char('b');
    input.clear();
    assert_eq!(input.text(), "");
    assert_eq!(input.cursor, 0);
}

#[test]
fn cursor_moves_across_multibyte_chars_on_char_boundaries() {
    let mut input = InputState::new("t", InputPurpose::ImportProfileUrl);
    for c in "中a文".chars() {
        input.push_char(c);
    }
    assert_eq!(input.text(), "中a文");

    input.move_left();
    input.move_left();
    assert_eq!(input.cursor, "中".len());
    input.move_left();
    assert_eq!(input.cursor, 0);

    input.move_right();
    assert_eq!(input.cursor, "中".len());
    input.move_right();
    assert_eq!(input.cursor, "中a".len());
}

#[test]
fn backspace_removes_multibyte_char_wholly() {
    let mut input = InputState::new("t", InputPurpose::ImportProfileUrl);
    for c in "中文".chars() {
        input.push_char(c);
    }
    input.backspace();
    assert_eq!(input.text(), "中");
    assert_eq!(input.cursor, "中".len());
}

#[test]
fn insert_in_the_middle_and_off_boundary_cursor() {
    let mut input = InputState::new("t", InputPurpose::FilterRules);
    for c in "ac".chars() {
        input.push_char(c);
    }
    input.move_left();
    input.push_char('b');
    assert_eq!(input.text(), "abc");
    assert_eq!(input.cursor, 2);
    // push then backspace restores the line
    input.push_char('é');
    input.backspace();
    assert_eq!(input.text(), "abc");
    assert_eq!(input.cursor, 2);

    let mut wide = InputState::new("t", InputPurpose::FilterConnections);
    wide.push_char('中');
    wide.push_char('x');
    wide.cursor = 1; // inside the first character
    wide.move_right();
    assert_eq!(wide.cursor, 1, "off a boundary moving right does nothing");
    wide.move_left();
    assert_eq!(wide.cursor, 0, "off a boundary moving left goes to the start");
    wide.cursor = 2;
    wide.backspace();
    assert_eq!(wide.text(), "x", "off a boundary backspace drops the first character");
    assert_eq!(wide.cursor, 0);
    wide.move_right();
    wide.move_right();
    assert_eq!(wide.cursor, 1, "moving right stops at the end");
}

#[test]
fn confirm_state_keeps_its_text() {
    let c = ConfirmState::new("Delete profile", "Delete 'x'?", ConfirmPurpose::DeleteProfile { uid: "u1".to_string() });
    assert_eq!(c.title, "Delete profile");
    assert_eq!(c.message, "Delete 'x'?");
    assert_eq!(c.purpose, ConfirmPurpose::DeleteProfile { uid: "u1".to_string() });
}

#[test]
fn key_mapping_matches_doc_order() {
    assert_eq!(Page::from_key('1'), Some(Page::Home));
    assert_eq!(Page::from_key('2'), Some(Page::Profiles));
    assert_eq!(Page::from_key('3'), Some(Page::Proxies));
    assert_eq!(Page::from_key('4'), Some(Page::Connections));
    assert_eq!(Page::from_key('5'), Some(Page::Logs));
    assert_eq!(Page::from_key('6'), Some(Page::Settings));
    assert_eq!(Page::from_key('7'), Some(Page::Rules));
}

#[test]
fn key_mapping_rejects_unknown_keys() {
    assert_eq!(Page::from_key('0'), None);
    assert_eq!(Page::from_key('8'), None);
    assert_eq!(Page::from_key('9'), None);
    assert_eq!(Page::from_key('a'), None);
}

#[test]
fn index_round_trips() {
    for (idx, page) in Page::ALL.iter().enumerate() {
        assert_eq!(page.index(), idx);
    }
}

#[test]
fn page_titles_and_keys() {
    for page in Page::ALL {
        let key = page.key().chars().next().unwrap();
        assert_eq!(Page::from_key(key), Some(page));
    }
    assert_eq!(Page::Rules.title(), "Rules");
    assert_eq!(Page::Rules.key(), "7");
    assert_eq!(Page::Logs.key(), "5");
    assert_eq!(Page::Settings.title(), "Settings");
}

#[test]
fn tui_menu_stops_at_both_ends() {
    let mut m = MenuState::init();
    assert_eq!(m.current(), MenuItem::Proxy);
    m.prev();
    assert_eq!(m.current(), MenuItem::Proxy);
    m.next();
    assert_eq!(m.current(), MenuItem::Connections);
    m.next();
    m.next();
    assert_eq!(m.current(), MenuItem::NetTest);
    m.first();
    assert_eq!(m.current(), MenuItem::Proxy);
    m.last();
    assert_eq!(m.current().to_str(), "NetTest");
    assert_eq!(MenuItem::ALL.len(), 3);
}
