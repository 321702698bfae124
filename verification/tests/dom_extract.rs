use neobrowser::dom::{extract_text, get_attr, parse_html, tag_name, DomNode, NodeKind};
use neobrowser::dom_export::{document_to_dom_js, escape_js, html_to_dom_js};
use neobrowser::extract::{
    collect_form_fields, extract_buttons, extract_forms, extract_inputs, extract_links, extract_script_urls,
    extract_title, read_page, read_posted_page, read_html_page, read_posted_html_page,
};

fn page() -> String {
    [
        "<!DOCTYPE html>\n",
        "<html><head><title>Shop</title><script src=\"/js/app.js\"></script><script src=\"//cdn.x.io/lib.js\"></script></head>\n",
        "<body>\n",
        "<h1>Welcome</h1>\n",
        "<p>Buy   things</p>\n",
        "<a href=\"/about\">About us</a>\n",
        "<a href=\"#top\">Top</a>\n",
        "<a href=\"javascript:void(0)\">JS</a>\n",
        "<a href=\"https://other.org/x\"> Other </a>\n",
        "<form action=\"/search\" method=\"get\"><input name=\"q\" type=\"text\" value=\"shoes\"><select name=\"size\"></select><input type=\"submit\" value=\"Find\"></form>\n",
        "<form action=\"/login\"><input id=\"user\" placeholder=\"User\"><button type=\"submit\"> Log in </button></form>\n",
        "<script>var hidden = 1;</script>\n",
        "</body></html>",
    ]
    .concat()
}

fn doc() -> DomNode {
    parse_html(&page())
}

#[test]
fn title_and_text() {
    let d = doc();
    assert_eq!(extract_title(&d), "Shop");
    let text = extract_text(&d, 0);
    assert!(text.contains("Welcome \n"));
    assert!(text.contains("Buy   things \n"));
    assert!(!text.contains("hidden"));
    assert!(!text.contains("Shop"));
}

#[test]
fn links_are_resolved_and_filtered() {
    let d = doc();
    let links = extract_links(&d, "https://shop.example/cat/index.html");
    let got: Vec<(String, String)> = links.iter().map(|l| (l.text.clone(), l.href.clone())).collect();
    assert_eq!(
        got,
        vec![
            ("About us".to_string(), "https://shop.example/about".to_string()),
            ("Other".to_string(), "https://other.org/x".to_string()),
        ]
    );
}

#[test]
fn forms_fields_inputs_buttons() {
    let d = doc();
    let forms = extract_forms(&d);
    assert_eq!(forms.len(), 2);
    assert_eq!(forms[0].action, "/search");
    assert_eq!(forms[0].method, "GET");
    let names: Vec<&str> = forms[0].fields.iter().map(|f| f.name.as_str()).collect();
    assert_eq!(names, vec!["q", "size"]);
    assert_eq!(forms[0].fields[0].value, "shoes");
    assert_eq!(forms[1].method, "GET");
    assert!(forms[1].fields.is_empty());
    let inputs = extract_inputs(&d);
    assert_eq!(inputs.len(), 2);
    assert_eq!(inputs[0].name, "q");
    assert_eq!(inputs[1].id, "user");
    assert_eq!(inputs[1].placeholder, "User");
    let buttons = extract_buttons(&d);
    assert_eq!(buttons.len(), 2);
    assert_eq!(buttons[0].text, "Find");
    assert_eq!(buttons[0].button_type, "submit");
    assert_eq!(buttons[1].text, "Log in");
    assert_eq!(collect_form_fields(&d).len(), 2);
}

#[test]
fn script_urls() {
    let d = doc();
    assert_eq!(
        extract_script_urls(&d, "https://shop.example/cat/"),
        vec!["https://shop.example/js/app.js".to_string(), "https://cdn.x.io/lib.js".to_string()]
    );
}

#[test]
fn read_page_assembles_everything() {
    let d = doc();
    let p = read_page("https://shop.example/".to_string(), 200, &page(), &d);
    assert_eq!(p.title, "Shop");
    assert_eq!(p.status, 200);
    assert_eq!(p.links.len(), 2);
    assert_eq!(p.html_len, page().len());
    assert!(!p.is_spa);
    let posted = read_posted_page("https://shop.example/".to_string(), 201, &page(), &d);
    assert!(!posted.is_spa);
    assert!(posted.apis.is_empty());
}

#[test]
fn reading_html_parses_it_first() {
    let p = read_html_page("https://shop.example/".to_string(), 200, &page());
    let q = read_page("https://shop.example/".to_string(), 200, &page(), &doc());
    assert_eq!(p.title, q.title);
    assert_eq!(p.text, q.text);
    assert_eq!(p.links.len(), q.links.len());
    assert_eq!(p.forms.len(), q.forms.len());
    let posted = read_posted_html_page("https://shop.example/".to_string(), 201, &page());
    assert_eq!(posted.status, 201);
    assert_eq!(posted.title, "Shop");
    assert!(!posted.is_spa);
}

#[test]
fn single_page_app_shells_are_flagged() {
    let html = format!("<html><head><title>App</title></head><body><div id=\"root\"></div><script>{}</script></body></html>", "x".repeat(3500));
    let d = parse_html(&html);
    let p = read_page("https://app.example/".to_string(), 200, &html, &d);
    assert!(p.is_spa);
    assert!(p.apis.is_empty());
}

#[test]
fn tags_and_attributes() {
    let d = DomNode {
        kind: NodeKind::Element {
            tag: "a".to_string(),
            attrs: vec![("href".to_string(), "/x".to_string()), ("href".to_string(), "/y".to_string())],
        },
        children: vec![],
    };
    assert_eq!(tag_name(&d), "a");
    assert_eq!(get_attr(&d, "href"), "/x");
    assert_eq!(get_attr(&d, "title"), "");
}

#[test]
fn js_escaping() {
    assert_eq!(escape_js("a'b\\c\nd\re\tf"), "a\\'b\\\\c\\nd\\re\\tf");
}

#[test]
fn dom_script_rebuilds_head_and_body() {
    let js = html_to_dom_js("<html lang=\"en\"><head><meta charset=\"utf-8\"><style>p{}</style></head><body class=\"x\"><p id='a'>Hi <b>there</b></p><!-- note --></body></html>");
    let expected = "(function(){\nconst d=document,head=d.head,body=d.body;\n\
var e0_0=d.createElement('meta');\ne0_0.setAttribute('charset','utf-8');\nhead.appendChild(e0_0);\n\
d.body.setAttribute('class','x');\n\
var e0_0=d.createElement('p');\ne0_0.setAttribute('id','a');\nbody.appendChild(e0_0);\n\
e0_0.appendChild(d.createTextNode('Hi'));\n\
var e1_1=d.createElement('b');\ne0_0.appendChild(e1_1);\ne1_1.appendChild(d.createTextNode('there'));\n\
body.appendChild(d.createComment(' note '));\n\
})();\n";
    assert_eq!(js, expected);
    let d = parse_html("<p>x</p>");
    assert!(document_to_dom_js(&d).starts_with("(function(){"));
}

fn unescape(r: &str) -> String {
    let mut out = String::new();
    let mut it = r.chars();
    while let Some(c) = it.next() {
        if c == '\\' {
            match it.next() {
                Some('n') => out.push('\n'),
                Some('r') => out.push('\r'),
                Some('t') => out.push('\t'),
                Some(d) => out.push(d),
                None => out.push('\\'),
            }
        } else {
            out.push(c);
        }
    }
    out
}

#[test]
fn escape_js_reads_back_and_stays_quoted() {
    for s in ["", "plain", "it's", "a\\'b", "line\nbreak\r\ttab", "\\\\'\\"] {
        let e = escape_js(s);
        assert_eq!(unescape(&e), s);
        assert!(!e.contains('\n') && !e.contains('\r') && !e.contains('\t'));
        let cs: Vec<char> = e.chars().collect();
        for (i, c) in cs.iter().enumerate() {
            if *c == '\'' {
                let run = cs[..i].iter().rev().take_while(|d| **d == '\\').count();
                assert_eq!(run % 2, 1);
            }
        }
    }
}
