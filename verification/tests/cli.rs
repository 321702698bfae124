use neobrowser::cli::{is_wom_id, login_url, needs_js, parse_command, setup_input, setup_site_urls, site_url, SessionCommand, SetupInput};

#[test]
fn wom_ids() {
    assert!(is_wom_id("btn_042"));
    assert!(is_wom_id("h_1"));
    assert!(is_wom_id("p_"));
    assert!(!is_wom_id("btn42"));
    assert!(!is_wom_id("div_1"));
    assert!(!is_wom_id("lnk_1a"));
    assert!(!is_wom_id("lnk_1_2"));
}

#[test]
fn pages_that_need_a_browser() {
    assert!(needs_js("<script id=\"__NEXT_DATA__\"></script>", 10, 3));
    assert!(needs_js("<div id=\"root\"></div>", 10, 3));
    assert!(!needs_js("<p>hello</p>", 1, 3));
    let long = "x".repeat(1001);
    assert!(needs_js(&long, 2, 3));
    assert!(!needs_js(&long, 3, 3));
}

#[test]
fn typed_urls() {
    assert_eq!(site_url("linkedin.com"), "https://linkedin.com");
    assert_eq!(site_url("http://a.io"), "http://a.io");
    assert_eq!(setup_site_urls(Some("a.com, https://b.com")), vec!["https://a.com".to_string(), "https://b.com".to_string()]);
    assert_eq!(setup_site_urls(None), vec!["https://www.google.com".to_string()]);
    assert_eq!(login_url("open  https://x.com "), "https://x.com");
    assert_eq!(login_url("open open x.com"), "https://x.com");
    assert_eq!(login_url("github.com"), "https://github.com");
    assert_eq!(login_url("https://a.b/c"), "https://a.b/c");
}

#[test]
fn session_commands() {
    assert_eq!(parse_command("   "), SessionCommand::Nothing);
    assert_eq!(parse_command("goto"), SessionCommand::Usage("goto <url>".to_string()));
    assert_eq!(parse_command("go  https://a.com "), SessionCommand::Goto("https://a.com".to_string()));
    assert_eq!(parse_command("click btn_003"), SessionCommand::ClickWom("btn_003".to_string()));
    assert_eq!(parse_command("click Sign in"), SessionCommand::Click("Sign in".to_string()));
    assert_eq!(parse_command("fo"), SessionCommand::Focus(String::new()));
    assert_eq!(parse_command("press"), SessionCommand::Press("Enter".to_string()));
    assert_eq!(parse_command("sc up"), SessionCommand::Scroll("up".to_string()));
    assert_eq!(parse_command("tab 2"), SessionCommand::Tab(2));
    assert_eq!(parse_command("tab x"), SessionCommand::Tab(0));
    assert_eq!(parse_command("wait 0.5"), SessionCommand::Wait("0.5".to_string()));
    assert_eq!(parse_command("q"), SessionCommand::Quit);
    assert_eq!(parse_command("dance now"), SessionCommand::Unknown("dance".to_string()));
}

#[test]
fn setup_prompt_lines() {
    assert!(matches!(setup_input("   \n"), SetupInput::Nothing));
    assert!(matches!(setup_input(" done\n"), SetupInput::Finish));
    assert!(matches!(setup_input("quit"), SetupInput::Finish));
    assert!(matches!(setup_input("exit"), SetupInput::Finish));
    match setup_input(" github.com \n") {
        SetupInput::Open(u) => assert_eq!(u, "https://github.com"),
        _ => panic!("expected a site"),
    }
    match setup_input("http://x.org/a") {
        SetupInput::Open(u) => assert_eq!(u, "http://x.org/a"),
        _ => panic!("expected a site"),
    }
}
