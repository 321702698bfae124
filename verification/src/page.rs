//! The parsed page that the HTTP browser hands back, and its compact text
//! form for an AI reader.
use vstd::prelude::*;
use vstd::string::StringSliceAdditionalSpecFns;
use vstd::utf8::{decode_utf8, encode_utf8, is_char_boundary};
use crate::text::{utf8_len, debug_repr, debug_string, decimal, join, push_decimal, push_str, trim, trim_chars, chars_of, push_chars};

verus! {

/// A parsed page.
#[derive(Debug, Clone)]
pub struct PageResult {
    pub url: String,
    pub status: u16,
    pub title: String,
    /// Visible text.
    pub text: String,
    pub links: Vec<Link>,
    pub forms: Vec<Form>,
    pub inputs: Vec<Input>,
    pub buttons: Vec<Button>,
    /// API endpoints discovered in the page's scripts.
    pub apis: Vec<ApiEndpoint>,
    pub html_len: usize,
    pub is_spa: bool,
}

/// An API endpoint discovered by scanning JS bundles.
#[derive(Debug, Clone)]
pub struct ApiEndpoint {
    /// Full or partial URL.
    pub url: String,
    /// GET, POST, PUT, DELETE, BASE, WS and so on.
    pub method: String,
    /// Surrounding code for understanding.
    pub context: String,
    /// Which JS file it came from.
    pub source: String,
}

/// The text fields of an API endpoint.
pub struct ApiView {
    pub url: Seq<char>,
    pub method: Seq<char>,
    pub context: Seq<char>,
    pub source: Seq<char>,
}

impl View for ApiEndpoint {
    type V = ApiView;

    open spec fn view(&self) -> ApiView {
        ApiView {
            url: self.url@,
            method: self.method@,
            context: self.context@,
            source: self.source@,
        }
    }
}

/// A link of the page.
#[derive(Debug, Clone)]
pub struct Link {
    pub text: String,
    pub href: String,
}

/// A form of the page.
#[derive(Debug, Clone)]
pub struct Form {
    pub action: String,
    pub method: String,
    pub fields: Vec<FormField>,
}

/// A named field of a form.
#[derive(Debug, Clone)]
pub struct FormField {
    pub name: String,
    pub field_type: String,
    pub value: String,
}

/// An input element with a name or id.
#[derive(Debug, Clone)]
pub struct Input {
    pub name: String,
    pub input_type: String,
    pub placeholder: String,
    pub value: String,
    pub id: String,
}

/// A button, or an input of type submit or button.
#[derive(Debug, Clone)]
pub struct Button {
    pub text: String,
    pub button_type: String,
    pub name: String,
}

/// The texts of a link.
pub struct LinkView {
    pub text: Seq<char>,
    pub href: Seq<char>,
}

impl View for Link {
    type V = LinkView;

    open spec fn view(&self) -> LinkView {
        LinkView { text: self.text@, href: self.href@ }
    }
}

/// The texts of a form field.
pub struct FieldView {
    pub name: Seq<char>,
    pub field_type: Seq<char>,
    pub value: Seq<char>,
}

impl View for FormField {
    type V = FieldView;

    open spec fn view(&self) -> FieldView {
        FieldView { name: self.name@, field_type: self.field_type@, value: self.value@ }
    }
}

/// The texts of a form and its fields.
pub struct FormView {
    pub action: Seq<char>,
    pub method: Seq<char>,
    pub fields: Seq<FieldView>,
}

impl View for Form {
    type V = FormView;

    open spec fn view(&self) -> FormView {
        FormView {
            action: self.action@,
            method: self.method@,
            fields: self.fields@.map_values(|f: FormField| f@),
        }
    }
}

/// The texts of an input.
pub struct InputView {
    pub name: Seq<char>,
    pub input_type: Seq<char>,
    pub placeholder: Seq<char>,
    pub value: Seq<char>,
    pub id: Seq<char>,
}

impl View for Input {
    type V = InputView;

    open spec fn view(&self) -> InputView {
        InputView {
            name: self.name@,
            input_type: self.input_type@,
            placeholder: self.placeholder@,
            value: self.value@,
            id: self.id@,
        }
    }
}

/// The texts of a button.
pub struct ButtonView {
    pub text: Seq<char>,
    pub button_type: Seq<char>,
    pub name: Seq<char>,
}

impl View for Button {
    type V = ButtonView;

    open spec fn view(&self) -> ButtonView {
        ButtonView { text: self.text@, button_type: self.button_type@, name: self.name@ }
    }
}

// ───────────────────────── the summary, as text ─────────────────────────

/// The page text cut to at most `max_text` bytes, with `...` where it was cut.
pub open spec fn shown_text(text: Seq<char>, max_text: nat) -> Seq<char> {
    if utf8_len(text) > max_text {
        decode_utf8(encode_utf8(text).take(max_text as int)) + "..."@
    } else {
        text
    }
}

/// `[i] label → href`, with `[no text]` for a link without text.
pub open spec fn link_line(i: nat, l: Link) -> Seq<char> {
    let label = if l.text@.len() == 0 { "[no text]"@ } else { l.text@ };
    "["@ + decimal(i) + "] "@ + label + " → "@ + l.href@ + "\n"@
}

/// The lines of the first links.
pub open spec fn link_lines(ls: Seq<Link>) -> Seq<char>
    decreases ls.len(),
{
    if ls.len() == 0 {
        Seq::empty()
    } else {
        link_lines(ls.drop_last()) + link_line((ls.len() - 1) as nat, ls.last())
    }
}

/// `name(type)` for a form field.
pub open spec fn field_label(f: FormField) -> Seq<char> {
    f.name@ + "("@ + f.field_type@ + ")"@
}

/// The `Debug` form of the list of field labels: `["a(t)", "b(u)"]`.
pub open spec fn field_list_debug(fs: Seq<FormField>) -> Seq<char> {
    "["@ + join(fs.map_values(|f: FormField| debug_repr(field_label(f))), ", "@) + "]"@
}

/// `FORM method action fields=[...]`.
pub open spec fn form_line(f: Form) -> Seq<char> {
    "FORM "@ + f.method@ + " "@ + f.action@ + " fields="@ + field_list_debug(f.fields@) + "\n"@
}

/// The lines of the forms.
pub open spec fn form_lines(fs: Seq<Form>) -> Seq<char>
    decreases fs.len(),
{
    if fs.len() == 0 {
        Seq::empty()
    } else {
        form_lines(fs.drop_last()) + form_line(fs.last())
    }
}

/// `INPUT name(type) id=... placeholder=...`.
pub open spec fn input_line(i: Input) -> Seq<char> {
    "INPUT "@ + i.name@ + "("@ + i.input_type@ + ") id="@ + i.id@ + " placeholder="@ + i.placeholder@
        + "\n"@
}

/// The lines of the inputs.
pub open spec fn input_lines(is: Seq<Input>) -> Seq<char>
    decreases is.len(),
{
    if is.len() == 0 {
        Seq::empty()
    } else {
        input_lines(is.drop_last()) + input_line(is.last())
    }
}

/// `BTN "text" type=...`.
pub open spec fn button_line(b: Button) -> Seq<char> {
    "BTN \""@ + b.text@ + "\" type="@ + b.button_type@ + "\n"@
}

/// The lines of the buttons.
pub open spec fn button_lines(bs: Seq<Button>) -> Seq<char>
    decreases bs.len(),
{
    if bs.len() == 0 {
        Seq::empty()
    } else {
        button_lines(bs.drop_last()) + button_line(bs.last())
    }
}

/// `METHOD url [source]`.
pub open spec fn api_line(a: ApiEndpoint) -> Seq<char> {
    a.method@ + " "@ + a.url@ + " ["@ + a.source@ + "]\n"@
}

/// The lines of the endpoints.
pub open spec fn api_lines(as_: Seq<ApiEndpoint>) -> Seq<char>
    decreases as_.len(),
{
    if as_.len() == 0 {
        Seq::empty()
    } else {
        api_lines(as_.drop_last()) + api_line(as_.last())
    }
}

/// A section: its heading with the item count, then its lines; nothing for
/// no items.
pub open spec fn section(title: Seq<char>, n: nat, lines: Seq<char>) -> Seq<char> {
    if n == 0 {
        Seq::empty()
    } else {
        "\n--- "@ + title + " ("@ + decimal(n) + ") ---\n"@ + lines
    }
}

/// The compact summary of a page.
pub open spec fn see_text(p: PageResult, max_text: nat) -> Seq<char> {
    let head = "Page: "@ + p.title@ + "\nURL: "@ + p.url@ + "\nStatus: "@ + decimal(p.status as nat)
        + "\n"@;
    let t = shown_text(p.text@, max_text);
    let text_part = if t.len() == 0 {
        Seq::empty()
    } else {
        "\n--- Text ---\n"@ + trim(t) + "\n"@
    };
    let links = shown_links(p.links@);
    let spa = if p.is_spa {
        "\n[SPA] This page is a JS app. Use the API endpoints above to interact.\n"@
    } else {
        Seq::empty()
    };
    head + text_part + section("Links"@, p.links@.len(), link_lines(links)) + section(
        "Forms"@,
        p.forms@.len(),
        form_lines(p.forms@),
    ) + section("Inputs"@, p.inputs@.len(), input_lines(p.inputs@)) + section(
        "Buttons"@,
        p.buttons@.len(),
        button_lines(p.buttons@),
    ) + section("API Endpoints"@, p.apis@.len(), api_lines(p.apis@)) + spa
}

fn push_section_head(out: &mut String, title: &str, n: usize)
    ensures
        final(out)@ == old(out)@ + "\n--- "@ + title@ + " ("@ + decimal(n as nat) + ") ---\n"@,
{
    push_str(out, "\n--- ");
    push_str(out, title);
    push_str(out, " (");
    push_decimal(out, n as u64);
    push_str(out, ") ---\n");
}

/// The shown links: the first 50.
pub open spec fn shown_links(ls: Seq<Link>) -> Seq<Link> {
    if ls.len() > 50 {
        ls.take(50)
    } else {
        ls
    }
}

fn push_text_section(out: &mut String, text: &String, max_text: usize)
    requires
        utf8_len(text@) > max_text ==> is_char_boundary(encode_utf8(text@), max_text as int),
    ensures
        final(out)@ == old(out)@ + ({
            let t = shown_text(text@, max_text as nat);
            if t.len() == 0 {
                Seq::empty()
            } else {
                "\n--- Text ---\n"@ + trim(t) + "\n"@
            }
        }),
{
    let ts = text.as_str();
    assert(ts.spec_bytes() == encode_utf8(text@));
    let t: String = if ts.len() > max_text {
        let (a, _b) = ts.split_at(max_text);
        let mut t = a.to_owned();
        push_str(&mut t, "...");
        proof {
            assert(a.spec_bytes() == encode_utf8(a@));
            vstd::utf8::encode_utf8_decode_utf8(a@);
        }
        t
    } else {
        text.clone()
    };
    assert(t@ == shown_text(text@, max_text as nat));
    let tc = chars_of(t.as_str());
    if tc.len() > 0 {
        push_str(out, "\n--- Text ---\n");
        let tt = trim_chars(tc.as_slice());
        push_chars(out, tt.as_slice());
        push_str(out, "\n");
    }
}

fn push_links_section(out: &mut String, links: &Vec<Link>)
    ensures
        final(out)@ == old(out)@ + section("Links"@, links@.len(), link_lines(shown_links(links@))),
{
    if links.len() == 0 {
        return;
    }
    push_section_head(out, "Links", links.len());
    let n = if links.len() > 50 { 50 } else { links.len() };
    let ghost ls = shown_links(links@);
    let ghost base = out@;
    let mut i: usize = 0;
    assert(ls.take(0) =~= Seq::<Link>::empty());
    while i < n
        invariant
            ls == shown_links(links@),
            n == ls.len(),
            n <= links@.len(),
            i <= n,
            out@ == base + link_lines(ls.take(i as int)),
        decreases n - i,
    {
        let l = &links[i];
        assert(ls[i as int] == links@[i as int]);
        let ghost before = out@;
        push_str(out, "[");
        push_decimal(out, i as u64);
        push_str(out, "] ");
        if l.text.as_str().is_empty() {
            push_str(out, "[no text]");
        } else {
            push_str(out, l.text.as_str());
        }
        push_str(out, " → ");
        push_str(out, l.href.as_str());
        push_str(out, "\n");
        assert(out@ =~= before + link_line(i as nat, ls[i as int]));
        assert(ls.take(i + 1).drop_last() =~= ls.take(i as int));
        i = i + 1;
    }
    assert(ls.take(n as int) =~= ls);
}

fn push_forms_section(out: &mut String, forms: &Vec<Form>)
    ensures
        final(out)@ == old(out)@ + section("Forms"@, forms@.len(), form_lines(forms@)),
{
    if forms.len() == 0 {
        return;
    }
    push_section_head(out, "Forms", forms.len());
    let ghost base = out@;
    let mut i: usize = 0;
    assert(forms@.take(0) =~= Seq::<Form>::empty());
    while i < forms.len()
        invariant
            i <= forms@.len(),
            out@ == base + form_lines(forms@.take(i as int)),
        decreases forms@.len() - i,
    {
        let f = &forms[i];
        let ghost before = out@;
        push_str(out, "FORM ");
        push_str(out, f.method.as_str());
        push_str(out, " ");
        push_str(out, f.action.as_str());
        push_str(out, " fields=");
        push_field_list(out, &f.fields);
        push_str(out, "\n");
        assert(out@ =~= before + form_line(forms@[i as int]));
        assert(forms@.take(i + 1).drop_last() =~= forms@.take(i as int));
        i = i + 1;
    }
    assert(forms@.take(forms@.len() as int) =~= forms@);
}

fn push_inputs_section(out: &mut String, inputs: &Vec<Input>)
    ensures
        final(out)@ == old(out)@ + section("Inputs"@, inputs@.len(), input_lines(inputs@)),
{
    if inputs.len() == 0 {
        return;
    }
    push_section_head(out, "Inputs", inputs.len());
    let ghost base = out@;
    let mut i: usize = 0;
    assert(inputs@.take(0) =~= Seq::<Input>::empty());
    while i < inputs.len()
        invariant
            i <= inputs@.len(),
            out@ == base + input_lines(inputs@.take(i as int)),
        decreases inputs@.len() - i,
    {
        let x = &inputs[i];
        let ghost before = out@;
        push_str(out, "INPUT ");
        push_str(out, x.name.as_str());
        push_str(out, "(");
        push_str(out, x.input_type.as_str());
        push_str(out, ") id=");
        push_str(out, x.id.as_str());
        push_str(out, " placeholder=");
        push_str(out, x.placeholder.as_str());
        push_str(out, "\n");
        assert(out@ =~= before + input_line(inputs@[i as int]));
        assert(inputs@.take(i + 1).drop_last() =~= inputs@.take(i as int));
        i = i + 1;
    }
    assert(inputs@.take(inputs@.len() as int) =~= inputs@);
}

fn push_buttons_section(out: &mut String, buttons: &Vec<Button>)
    ensures
        final(out)@ == old(out)@ + section("Buttons"@, buttons@.len(), button_lines(buttons@)),
{
    if buttons.len() == 0 {
        return;
    }
    push_section_head(out, "Buttons", buttons.len());
    let ghost base = out@;
    let mut i: usize = 0;
    assert(buttons@.take(0) =~= Seq::<Button>::empty());
    while i < buttons.len()
        invariant
            i <= buttons@.len(),
            out@ == base + button_lines(buttons@.take(i as int)),
        decreases buttons@.len() - i,
    {
        let b = &buttons[i];
        let ghost before = out@;
        push_str(out, "BTN \"");
        push_str(out, b.text.as_str());
        push_str(out, "\" type=");
        push_str(out, b.button_type.as_str());
        push_str(out, "\n");
        assert(out@ =~= before + button_line(buttons@[i as int]));
        assert(buttons@.take(i + 1).drop_last() =~= buttons@.take(i as int));
        i = i + 1;
    }
    assert(buttons@.take(buttons@.len() as int) =~= buttons@);
}

fn push_apis_section(out: &mut String, apis: &Vec<ApiEndpoint>)
    ensures
        final(out)@ == old(out)@ + section("API Endpoints"@, apis@.len(), api_lines(apis@)),
{
    if apis.len() == 0 {
        return;
    }
    push_section_head(out, "API Endpoints", apis.len());
    let ghost base = out@;
    let mut i: usize = 0;
    assert(apis@.take(0) =~= Seq::<ApiEndpoint>::empty());
    while i < apis.len()
        invariant
            i <= apis@.len(),
            out@ == base + api_lines(apis@.take(i as int)),
        decreases apis@.len() - i,
    {
        let a = &apis[i];
        let ghost before = out@;
        push_str(out, a.method.as_str());
        push_str(out, " ");
        push_str(out, a.url.as_str());
        push_str(out, " [");
        push_str(out, a.source.as_str());
        push_str(out, "]\n");
        assert(out@ =~= before + api_line(apis@[i as int]));
        assert(apis@.take(i + 1).drop_last() =~= apis@.take(i as int));
        i = i + 1;
    }
    assert(apis@.take(apis@.len() as int) =~= apis@);
}

impl PageResult {
    /// Compact representation for AI consumption: title, URL, status, the
    /// text cut to `max_text` bytes, then links (the first 50), forms,
    /// inputs, buttons and discovered API endpoints.
    pub fn to_see(&self, max_text: usize) -> (out: String)
        requires
            utf8_len(self.text@) > max_text ==> is_char_boundary(
                encode_utf8(self.text@),
                max_text as int,
            ),
        ensures
            out@ == see_text(*self, max_text as nat),
    {
        let mut out = String::new();
        push_str(&mut out, "Page: ");
        push_str(&mut out, self.title.as_str());
        push_str(&mut out, "\nURL: ");
        push_str(&mut out, self.url.as_str());
        push_str(&mut out, "\nStatus: ");
        push_decimal(&mut out, self.status as u64);
        push_str(&mut out, "\n");
        push_text_section(&mut out, &self.text, max_text);
        push_links_section(&mut out, &self.links);
        push_forms_section(&mut out, &self.forms);
        push_inputs_section(&mut out, &self.inputs);
        push_buttons_section(&mut out, &self.buttons);
        push_apis_section(&mut out, &self.apis);
        if self.is_spa {
            push_str(&mut out, "\n[SPA] This page is a JS app. Use the API endpoints above to interact.\n");
        }
        assert(out@ =~= see_text(*self, max_text as nat));
        out
    }
}

/// Appends the `Debug` form of the field labels.
fn push_field_list(out: &mut String, fields: &Vec<FormField>)
    ensures
        final(out)@ == old(out)@ + field_list_debug(fields@),
{
    let ghost items = fields@.map_values(|f: FormField| debug_repr(field_label(f)));
    push_str(out, "[");
    let ghost base = out@;
    let mut i: usize = 0;
    assert(items.take(0) =~= Seq::<Seq<char>>::empty());
    while i < fields.len()
        invariant
            items == fields@.map_values(|f: FormField| debug_repr(field_label(f))),
            i <= fields@.len(),
            out@ == base + join(items.take(i as int), ", "@),
        decreases fields@.len() - i,
    {
        if i > 0 {
            push_str(out, ", ");
        }
        let mut label = fields[i].name.clone();
        push_str(&mut label, "(");
        push_str(&mut label, fields[i].field_type.as_str());
        push_str(&mut label, ")");
        let d = debug_string(label.as_str());
        push_str(out, d.as_str());
        assert(items.take(i + 1).drop_last() =~= items.take(i as int));
        proof {
            if i == 0 {
                assert(out@ =~= base + items.take(1)[0]);
            } else {
                assert(out@ =~= base + (join(items.take(i as int), ", "@) + ", "@ + items.take(i + 1).last()));
            }
        }
        i = i + 1;
    }
    assert(items.take(fields@.len() as int) =~= items);
    push_str(out, "]");
}

} // verus!
