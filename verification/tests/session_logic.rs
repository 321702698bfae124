use neobrowser::session::{
    click_outcome, click_strategies, eval_outcome, eval_params, eval_target, exception_message, looks_like_css,
    press_events, scroll_script, strategy_script, ClickStrategy, ContentWait, EvalTarget, ReplyValue,
};

#[test]
fn named_keys() {
    let evs = press_events("enter");
    assert_eq!(evs[0].type_, "keyDown");
    assert_eq!(evs[1].type_, "keyUp");
    assert_eq!(evs[0].key.as_deref(), Some("Enter"));
    assert_eq!(evs[0].windows_virtual_key_code, Some(13));
    let evs = press_events("space");
    assert_eq!(evs[1].key.as_deref(), Some(" "));
    assert_eq!(evs[1].code.as_deref(), Some("Space"));
    let evs = press_events("F5");
    assert_eq!(evs[0].key.as_deref(), Some("F5"));
    assert_eq!(evs[0].windows_virtual_key_code, Some(0));
}

#[test]
fn where_scripts_run() {
    assert_eq!(eval_target(&Some("s1".to_string()), &Some("f1".to_string())), EvalTarget::FrameSession("s1".to_string()));
    assert_eq!(eval_target(&None, &Some("f1".to_string())), EvalTarget::FrameWorld("f1".to_string()));
    assert_eq!(eval_target(&None, &None), EvalTarget::Page);
    let p = eval_params("1+1", Some(4));
    assert_eq!(p.context_id, Some(4));
    assert_eq!(p.return_by_value, Some(true));
    assert_eq!(p.await_promise, Some(true));
}

#[test]
fn evaluation_results() {
    assert_eq!(eval_outcome(Some("boom".to_string()), ReplyValue::Nothing), Err("boom".to_string()));
    assert_eq!(eval_outcome(None, ReplyValue::Text("hi".to_string())), Ok("hi".to_string()));
    assert_eq!(eval_outcome(None, ReplyValue::Nothing), Ok(String::new()));
    assert_eq!(eval_outcome(None, ReplyValue::Other("[1,2]".to_string())), Ok("[1,2]".to_string()));
    assert_eq!(exception_message(None), "JS exception");
}

#[test]
fn click_strategy_order() {
    assert!(looks_like_css("#login"));
    assert!(looks_like_css("li:nth-child(2)"));
    assert!(!looks_like_css("Sign in"));
    assert_eq!(click_strategies("Sign in").len(), 5);
    let s = click_strategies(".btn");
    assert_eq!(s[0], ClickStrategy::Css);
    assert_eq!(s.len(), 6);
    let js = strategy_script(ClickStrategy::AriaLabel, "Close \"x\"").unwrap();
    assert!(js.contains("document.querySelector('[aria-label=\"Close \\\"x\\\"\"]')"));
    assert!(strategy_script(ClickStrategy::Text, "a").is_none());
    let tried = click_strategies("Sign in");
    assert_eq!(click_outcome(&tried, &vec![false, false, true]), (true, "placeholder".to_string()));
    assert_eq!(click_outcome(&tried, &vec![false; 5]), (false, "all_strategies_failed".to_string()));
}

#[test]
fn waiting_for_content_to_settle() {
    let mut w = ContentWait::new(5000);
    assert_eq!(w.elapsed_ms, 500);
    assert!(w.keep_polling());
    assert!(!w.poll(Some((10, 100))));
    assert_eq!(w.elapsed_ms, 800);
    assert!(w.poll(Some((10, 100))));
    let mut w = ContentWait::new(5000);
    assert!(!w.poll(Some((2, 5))));
    assert!(!w.poll(Some((2, 5))));
    assert_eq!(w.stable, 1);
    assert!(!w.poll(None));
    assert!(!w.poll(Some((2, 5))));
    assert_eq!(w.stable, 2);
    assert!(w.poll(Some((7, 5))));
    let w = ContentWait::new(400);
    assert!(!w.keep_polling());
}

#[test]
fn scroll_scripts() {
    assert_eq!(scroll_script("d"), "window.scrollBy(0, 400)");
    assert_eq!(scroll_script("up"), "window.scrollBy(0, -400)");
    assert_eq!(scroll_script("bottom"), "window.scrollBy(0, 99999)");
    assert_eq!(scroll_script("top"), "window.scrollBy(0, -99999)");
    assert_eq!(scroll_script("sideways"), "window.scrollBy(0, 400)");
}
