use neobrowser::frames::{frame_route, Frame, FrameFocus, FrameMode, FrameRoute, FrameTree, TargetInfo};
use neobrowser::page_actions::{
    bounds_script, click_css_script, element_info_script, escape_hint, escape_quotes, fill_report,
    frame_search_script, highlight_script, hover_script, import_summary, script_succeeded, select_option_script,
    selector_state_script, selector_wait_step, send_message_script, storage_set_script, type_react_script,
    ScriptAction, SelectorWaitStep,
};

#[test]
fn quote_and_hint_escapes() {
    assert_eq!(escape_quotes("a'b\\c"), "a\\'b\\c");
    assert_eq!(escape_hint("a'b\\c"), "a\\'b\\\\c");
    assert_eq!(highlight_script("[name='q']").contains("querySelector('[name=\\'q\\']')"), true);
    assert_eq!(
        frame_search_script("it's"),
        "!!(document.body && document.body.innerText.includes('it\\'s'))"
    );
}

#[test]
fn selector_scripts_quote_as_json() {
    let s = click_css_script("a[href=\"x\"]");
    assert!(s.starts_with("(() => { const el = document.querySelector(\"a[href=\\\"x\\\"]\");"));
    assert!(s.contains("return 'clicked: '"));
    assert!(type_react_script("#q", "hi").contains("nativeSetter.call(el, \"hi\")"));
    assert!(selector_state_script("#q").contains("return 'visible'"));
    assert!(bounds_script("#q").contains("return 'null'"));
    assert!(hover_script("Menu").contains("const target = \"Menu\";"));
    assert!(select_option_script("country", "ES").contains("const value = \"ES\";"));
    assert_eq!(storage_set_script(false, "k", "v\"w"), "localStorage.setItem(\"k\", \"v\\\"w\")");
    assert_eq!(storage_set_script(true, "k", "v"), "sessionStorage.setItem(\"k\", \"v\")");
}

#[test]
fn element_info_kinds() {
    assert_eq!(element_info_script("#a", "text"), "document.querySelector('#a')?.innerText || ''");
    assert_eq!(element_info_script("#a", "count"), "document.querySelectorAll('#a').length.toString()");
    assert_eq!(
        element_info_script("#a", "data-x'"),
        "document.querySelector('#a')?.getAttribute('data-x\\'') || ''"
    );
    assert!(element_info_script("#a", "styles").ends_with(".slice(0, 20)))"));
}

#[test]
fn send_message_buttons() {
    let s = send_message_script("it's\nok", "#in", "");
    assert!(s.contains("document.execCommand('insertText', false, 'it\\'s\\nok')"));
    assert!(s.contains("const btn = document.querySelector('button[type=\"submit\"]"));
    let s = send_message_script("x", "#in", "#send");
    assert!(s.contains("const btn = document.querySelector('#send');"));
}

#[test]
fn script_replies() {
    assert!(script_succeeded(ScriptAction::ClickCss, "clicked: Buy"));
    assert!(!script_succeeded(ScriptAction::ClickCss, "not_found"));
    assert!(script_succeeded(ScriptAction::TypeReact, "typed: hi"));
    assert!(script_succeeded(ScriptAction::ScrollTo, "scrolled"));
    assert!(!script_succeeded(ScriptAction::ScrollTo, "scrolled!"));
    assert!(!script_succeeded(ScriptAction::Bounds, "null"));
    assert!(script_succeeded(ScriptAction::Hover, "{\"x\":1}"));
    assert!(!script_succeeded(ScriptAction::Hover, "not_found"));
    assert!(script_succeeded(ScriptAction::SelectOption, "selected: ES"));
    assert!(!script_succeeded(ScriptAction::SelectOption, "not_found"));
}

#[test]
fn waiting_for_a_selector() {
    assert_eq!(selector_wait_step("visible", 9_000_000_000, 1000), SelectorWaitStep::Found);
    assert_eq!(selector_wait_step("hidden", 1_000_000_000, 1000), SelectorWaitStep::PollAgain);
    assert_eq!(selector_wait_step("absent", 1_000_000_001, 1000), SelectorWaitStep::TimedOut);
}

#[test]
fn fill_reports_and_import_summary() {
    assert_eq!(fill_report("email", "a@b.c", true), "filled: email = a@b.c");
    assert_eq!(fill_report("bio", "abcdefghijklmnopqrstuvwxyz", true), "filled: bio = abcdefghijklmnopqrst");
    assert_eq!(fill_report("bio", "x", false), "not_found: bio");
    assert_eq!(import_summary(Some(3), Some(0), None), "3 cookies, 0 localStorage");
    assert_eq!(import_summary(None, None, Some(2)), "2 sessionStorage");
    assert_eq!(import_summary(None, None, None), "");
}

fn frame(id: &str, url: &str) -> Frame {
    Frame {
        id: id.to_string(),
        parent_id: None,
        loader_id: "L".to_string(),
        name: None,
        url: url.to_string(),
        security_origin: None,
        mime_type: None,
    }
}

fn target(id: &str, kind: &str, url: &str) -> TargetInfo {
    TargetInfo {
        target_id: id.to_string(),
        type_: kind.to_string(),
        title: String::new(),
        url: url.to_string(),
        attached: None,
        opener_id: None,
        can_access_opener: None,
        browser_context_id: None,
    }
}

#[test]
fn frame_focus_and_routes() {
    let mut f = FrameFocus::main_frame();
    assert_eq!(f.mode(), FrameMode::Main);
    assert_eq!(f.info(), "{\"frame_id\":\"none\",\"has_oop_session\":false,\"mode\":\"main\"}");
    assert_eq!(f.to_oop_frame("F1", "S1", "https://pay.com/"), "switched to frame (OOP, url=https://pay.com/)");
    assert_eq!(f.mode(), FrameMode::Oop);
    assert_eq!(f.info(), "{\"frame_id\":\"F1\",\"has_oop_session\":true,\"mode\":\"oop\"}");
    assert_eq!(f.to_frame_world("F2", ""), "switched to frame (same-process, url=)");
    assert_eq!(f.mode(), FrameMode::SameProcess);
    assert_eq!(f.to_main(), "switched to main frame");
    assert_eq!(f.frame_id, None);

    let tree = FrameTree {
        frame: frame("main", "https://a.com/"),
        child_frames: Some(vec![
            FrameTree { frame: frame("f1", "https://pay.com/"), child_frames: None },
            FrameTree { frame: frame("f2", "https://same.com/"), child_frames: None },
        ]),
    };
    let ts = vec![target("p", "page", "https://a.com/"), target("x", "iframe", "https://pay.com/")];
    assert_eq!(frame_route(&tree, &ts, "main").0, FrameRoute::Main);
    assert_eq!(frame_route(&tree, &ts, "f1"), (FrameRoute::Target(1), "https://pay.com/".to_string()));
    assert_eq!(frame_route(&tree, &ts, "f2"), (FrameRoute::World, "https://same.com/".to_string()));
    assert_eq!(frame_route(&tree, &ts, "zz"), (FrameRoute::World, String::new()));
}
