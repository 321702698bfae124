use neobrowser::interact::{
    ack_outcome, click_after_submit, click_outcome, click_script, escape_js_arg, fill_form_script, find_script,
    form_submit_plan, post_response_outcome, read_click_reply, read_submit_reply, select_result, select_script,
    submit_outcome, submit_script, type_text_result, type_text_script, AckReply, ActionReply, ClickResult,
    ClickStep, FormPlan, SubmitResult, SubmitStep,
};

#[test]
fn arguments_are_escaped() {
    assert_eq!(escape_js_arg("it's a \\ path\nnext"), "it\\'s a \\\\ path\\nnext");
    assert_eq!(click_script("Sign in"), "__neo_click('Sign in')");
    assert_eq!(type_text_script("#q", "O'Brien", false), "__neo_type('#q', 'O\\'Brien', false)");
    assert_eq!(type_text_script("#q", "x", true), "__neo_type('#q', 'x', true)");
    assert_eq!(find_script("a"), "__neo_find('a')");
    assert_eq!(submit_script(None), "__neo_submit()");
    assert_eq!(submit_script(Some("#f")), "__neo_submit('#f')");
    assert_eq!(select_script("country", "ES"), "__neo_select('country', 'ES')");
}

#[test]
fn fill_form_script_quotes_the_json() {
    let js = fill_form_script(&vec![("name".to_string(), "O'Hara".to_string())]).unwrap();
    assert_eq!(js, "__neo_fill_form('{\"name\":\"O\\'Hara\"}')");
}

#[test]
fn type_replies() {
    assert_eq!(type_text_result("{\"ok\":true}"), Ok(()));
    assert_eq!(type_text_result("{\"ok\":false,\"error\":\"no such field\"}"), Err("no such field".to_string()));
    assert_eq!(type_text_result("{\"ok\":false}"), Err("type failed".to_string()));
    let e = type_text_result("nonsense").unwrap_err();
    assert!(e.starts_with("type parse error: "));
    assert!(e.ends_with(" — raw: nonsense"));
    assert_eq!(select_result("{\"ok\":1}"), Err("select failed".to_string()));
    assert_eq!(ack_outcome(AckReply { ok: Some(true), error: None }, "x"), Ok(()));
}

#[test]
fn click_navigates_submits_or_clicks() {
    let r = read_click_reply("{\"ok\":true,\"action\":{\"type\":\"navigate\",\"url\":\"https://a.com/next\"}}").unwrap();
    match click_outcome(r) {
        ClickStep::Navigate(u) => assert_eq!(u, "https://a.com/next"),
        _ => panic!("expected a navigation"),
    }
    let r = read_click_reply("{\"ok\":true,\"action\":{\"type\":\"submit\",\"url\":\"/s\",\"method\":\"post\"}}").unwrap();
    match click_outcome(r) {
        ClickStep::SubmitForm(a) => {
            assert_eq!(a.url.as_deref(), Some("/s"));
            assert_eq!(a.method.as_deref(), Some("post"));
        }
        _ => panic!("expected a submission"),
    }
    let r = read_click_reply("{\"ok\":true,\"action\":{\"type\":\"navigate\",\"url\":\"\"},\"clicked\":\"A\",\"text\":\"Home\"}").unwrap();
    match click_outcome(r) {
        ClickStep::Done(ClickResult::Clicked { tag, text }) => {
            assert_eq!(tag, "A");
            assert_eq!(text, "Home");
        }
        _ => panic!("expected a plain click"),
    }
    let r = read_click_reply("{\"ok\":false}").unwrap();
    match click_outcome(r) {
        ClickStep::Fail(e) => assert_eq!(e, "click failed"),
        _ => panic!("expected a failure"),
    }
    assert!(read_click_reply("{").unwrap_err().starts_with("click parse error: "));
}

#[test]
fn click_submission_results() {
    let s = SubmitResult::Submitted { url: "/x".to_string(), method: "POST".to_string() };
    match click_after_submit(s) {
        Ok(ClickResult::Submitted { url, method }) => {
            assert_eq!(url, "/x");
            assert_eq!(method, "POST");
        }
        _ => panic!("expected a submission"),
    }
    let f = SubmitResult::Failed { error: "nope".to_string() };
    assert_eq!(click_after_submit(f).err(), Some("nope".to_string()));
}

fn action(url: &str, method: Option<&str>, data: Option<Vec<(&str, Option<&str>)>>) -> ActionReply {
    ActionReply {
        kind: Some("submit".to_string()),
        url: Some(url.to_string()),
        method: method.map(|m| m.to_string()),
        data: data.map(|d| d.into_iter().map(|(k, v)| (k.to_string(), v.map(|x| x.to_string()))).collect()),
    }
}

#[test]
fn get_forms_append_their_data() {
    let a = action("https://a.com/search", None, Some(vec![("q", Some("rust lang")), ("n", None)]));
    match form_submit_plan(&a) {
        FormPlan::Get { nav_url, method } => {
            assert_eq!(nav_url, "https://a.com/search?q=rust+lang&n=");
            assert_eq!(method, "GET");
        }
        _ => panic!("expected a GET"),
    }
    let a = action("https://a.com/search?x=1", Some("get"), Some(vec![("q", Some("é"))]));
    match form_submit_plan(&a) {
        FormPlan::Get { nav_url, .. } => assert_eq!(nav_url, "https://a.com/search?x=1&q=%C3%A9"),
        _ => panic!("expected a GET"),
    }
    let a = action("https://a.com/search", Some("GET"), None);
    match form_submit_plan(&a) {
        FormPlan::Get { nav_url, .. } => assert_eq!(nav_url, "https://a.com/search"),
        _ => panic!("expected a GET"),
    }
}

#[test]
fn post_forms_send_their_data() {
    let a = action("/login", Some("post"), Some(vec![("user", Some("ana")), ("pw", Some("a&b"))]));
    match form_submit_plan(&a) {
        FormPlan::Send { url, method, body } => {
            assert_eq!(url, "/login");
            assert_eq!(method, "POST");
            assert_eq!(body, "user=ana&pw=a%26b");
        }
        _ => panic!("expected a send"),
    }
    let a = action("", Some("post"), None);
    match form_submit_plan(&a) {
        FormPlan::Fail(SubmitResult::Failed { error }) => assert_eq!(error, "No form action URL"),
        _ => panic!("expected a failure"),
    }
}

#[test]
fn post_responses() {
    let (js, r) = post_response_outcome("/l".to_string(), "POST".to_string(), Some(302), Some("<html>".to_string()));
    assert!(js.is_none());
    assert!(matches!(r, SubmitResult::Submitted { .. }));
    let (js, _) = post_response_outcome("/l".to_string(), "POST".to_string(), Some(200), Some("<html><b>x</b>".to_string()));
    let js = js.unwrap();
    assert!(js.starts_with("{\n                            const { document: freshDoc } = __linkedom_parseHTML(\"<html><b>x</b>\");\n"));
    assert!(js.ends_with("freshDoc.body.innerHTML;\n                        }"));
    let (js, _) = post_response_outcome("/l".to_string(), "POST".to_string(), Some(200), Some("{\"ok\":1}".to_string()));
    assert!(js.is_none());
    let (js, _) = post_response_outcome("/l".to_string(), "POST".to_string(), Some(65536 + 301), Some("<html>".to_string()));
    assert!(js.is_none());
}

#[test]
fn submit_replies() {
    let r = read_submit_reply("{\"ok\":false,\"error\":\"invalid\",\"error_message\":\"bad email\"}").unwrap();
    match submit_outcome(r) {
        SubmitStep::Done(SubmitResult::Failed { error }) => assert_eq!(error, "invalid (server: bad email)"),
        _ => panic!("expected a failure"),
    }
    let r = read_submit_reply("{\"ok\":true,\"protocol\":\"htmx\",\"status\":200,\"redirect\":\"/done\"}").unwrap();
    match submit_outcome(r) {
        SubmitStep::Redirect(u) => assert_eq!(u, "/done"),
        _ => panic!("expected a redirect"),
    }
    let r = read_submit_reply("{\"ok\":true,\"protocol\":\"livewire\",\"status\":200,\"action\":{\"url\":\"/lw\"}}").unwrap();
    match submit_outcome(r) {
        SubmitStep::Done(SubmitResult::Submitted { url, method }) => {
            assert_eq!(url, "/lw");
            assert_eq!(method, "POST");
        }
        _ => panic!("expected a submission"),
    }
    let r = read_submit_reply("{\"ok\":true,\"protocol\":\"turbo\",\"status\":422,\"error_message\":\"Unprocessable\"}").unwrap();
    match submit_outcome(r) {
        SubmitStep::Done(SubmitResult::Failed { error }) => assert_eq!(error, "[turbo] HTTP 422 — Unprocessable"),
        _ => panic!("expected a failure"),
    }
    let r = read_submit_reply("{\"ok\":true,\"protocol\":\"native\"}").unwrap();
    match submit_outcome(r) {
        SubmitStep::Done(SubmitResult::Failed { error }) => assert_eq!(error, "Native submit: no action captured"),
        _ => panic!("expected a failure"),
    }
    let r = read_submit_reply("{\"ok\":true}").unwrap();
    match submit_outcome(r) {
        SubmitStep::Done(SubmitResult::Failed { error }) => assert_eq!(error, "No action from submit"),
        _ => panic!("expected a failure"),
    }
    let r = read_submit_reply("{\"ok\":true,\"action\":{\"url\":\"/f\",\"method\":\"get\"}}").unwrap();
    assert!(matches!(submit_outcome(r), SubmitStep::SubmitForm(_)));
}
