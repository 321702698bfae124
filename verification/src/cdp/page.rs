//! The `Page` domain: navigation, frames, dialogs, screenshots and printing.
use vstd::prelude::*;
use crate::json::{JsonValue, JsonView, json_view, member_str, member_bool, member_i64, member_i32, opt_str_field,
    opt_bool_field, opt_view, json_str, json_bool, json_i64, json_i32, json_opt_str, json_opt_bool};
use crate::cdp::{Command, Params, opt_string_m, opt_string_raw_m, obj_m, object, int_m, bool_m, str_m, raw_m, opt_i32_m, opt_bool_m, opt_str_m};

verus! {

/// What `Page.navigate` gives: the frame, its loader and the error, if any.
#[derive(Debug, Clone)]
pub struct NavigateResult {
    pub frame_id: String,
    pub loader_id: Option<String>,
    pub error_text: Option<String>,
}

/// A reply holds a `NavigateResult`: each member it needs, of the right type.
pub open spec fn navigate_result_readable(v: JsonView) -> bool {
    &&& member_str(v, "frameId"@) is Some
    &&& opt_str_field(v, "loaderId"@) is Some
    &&& opt_str_field(v, "errorText"@) is Some
}

/// What a `NavigateResult` read from a reply holds: its members.
pub open spec fn navigate_result_read(x: NavigateResult, v: JsonView) -> bool {
    &&& Some(x.frame_id@) == member_str(v, "frameId"@)
    &&& opt_str_field(v, "loaderId"@) == Some(opt_view(x.loader_id))
    &&& opt_str_field(v, "errorText"@) == Some(opt_view(x.error_text))
}

impl NavigateResult {
    /// Reads a `NavigateResult` from a reply; none when it lacks a member it needs
    /// or a member is of another type.
    pub fn from_json(v: &JsonValue) -> (r: Option<NavigateResult>)
        ensures
            r is Some <==> navigate_result_readable(json_view(*v)),
            r matches Some(x) ==> navigate_result_read(x, json_view(*v)),
    {
        let frame_id = match json_str(v, "frameId") {
            Some(x) => x,
            None => return None,
        };
        let loader_id = match json_opt_str(v, "loaderId") {
            Some(x) => x,
            None => return None,
        };
        let error_text = match json_opt_str(v, "errorText") {
            Some(x) => x,
            None => return None,
        };
        Some(NavigateResult { frame_id, loader_id, error_text })
    }
}

/// What `Page.captureScreenshot` gives: the image as Base64.
#[derive(Debug, Clone)]
pub struct ScreenshotResult {
    pub data: String,
}

/// A reply holds a `ScreenshotResult`: each member it needs, of the right type.
pub open spec fn screenshot_result_readable(v: JsonView) -> bool {
    &&& member_str(v, "data"@) is Some
}

/// What a `ScreenshotResult` read from a reply holds: its members.
pub open spec fn screenshot_result_read(x: ScreenshotResult, v: JsonView) -> bool {
    &&& Some(x.data@) == member_str(v, "data"@)
}

impl ScreenshotResult {
    /// Reads a `ScreenshotResult` from a reply; none when it lacks a member it needs
    /// or a member is of another type.
    pub fn from_json(v: &JsonValue) -> (r: Option<ScreenshotResult>)
        ensures
            r is Some <==> screenshot_result_readable(json_view(*v)),
            r matches Some(x) ==> screenshot_result_read(x, json_view(*v)),
    {
        let data = match json_str(v, "data") {
            Some(x) => x,
            None => return None,
        };
        Some(ScreenshotResult { data })
    }
}

/// The event of a page opening an alert, confirm or prompt dialog.
#[derive(Debug, Clone)]
pub struct JavascriptDialogOpeningEvent {
    pub url: String,
    pub message: String,
    pub type_: String,
    pub has_browser_handler: Option<bool>,
    pub default_prompt: Option<String>,
}

/// A reply holds a `JavascriptDialogOpeningEvent`: each member it needs, of the right type.
pub open spec fn javascript_dialog_opening_event_readable(v: JsonView) -> bool {
    &&& member_str(v, "url"@) is Some
    &&& member_str(v, "message"@) is Some
    &&& member_str(v, "type"@) is Some
    &&& opt_bool_field(v, "hasBrowserHandler"@) is Some
    &&& opt_str_field(v, "defaultPrompt"@) is Some
}

/// What a `JavascriptDialogOpeningEvent` read from a reply holds: its members.
pub open spec fn javascript_dialog_opening_event_read(x: JavascriptDialogOpeningEvent, v: JsonView) -> bool {
    &&& Some(x.url@) == member_str(v, "url"@)
    &&& Some(x.message@) == member_str(v, "message"@)
    &&& Some(x.type_@) == member_str(v, "type"@)
    &&& opt_bool_field(v, "hasBrowserHandler"@) == Some(x.has_browser_handler)
    &&& opt_str_field(v, "defaultPrompt"@) == Some(opt_view(x.default_prompt))
}

impl JavascriptDialogOpeningEvent {
    /// Reads a `JavascriptDialogOpeningEvent` from a reply; none when it lacks a member it needs
    /// or a member is of another type.
    pub fn from_json(v: &JsonValue) -> (r: Option<JavascriptDialogOpeningEvent>)
        ensures
            r is Some <==> javascript_dialog_opening_event_readable(json_view(*v)),
            r matches Some(x) ==> javascript_dialog_opening_event_read(x, json_view(*v)),
    {
        let url = match json_str(v, "url") {
            Some(x) => x,
            None => return None,
        };
        let message = match json_str(v, "message") {
            Some(x) => x,
            None => return None,
        };
        let type_ = match json_str(v, "type") {
            Some(x) => x,
            None => return None,
        };
        let has_browser_handler = match json_opt_bool(v, "hasBrowserHandler") {
            Some(x) => x,
            None => return None,
        };
        let default_prompt = match json_opt_str(v, "defaultPrompt") {
            Some(x) => x,
            None => return None,
        };
        Some(JavascriptDialogOpeningEvent { url, message, type_, has_browser_handler, default_prompt })
    }
}


/// Where `Page.navigate` goes: the URL, and the referrer, transition and frame when given.
#[derive(Debug, Clone)]
pub struct NavigateParams {
    pub url: String,
    pub referrer: Option<String>,
    pub transition_type: Option<String>,
    pub frame_id: Option<String>,
}

/// The members of a `NavigateParams`: those it has, in name order.
pub open spec fn navigate_params_members(v: NavigateParams) -> Seq<Seq<char>> {
    opt_string_m("frameId"@, v.frame_id) + opt_string_m("referrer"@, v.referrer)
        + opt_string_m("transitionType"@, v.transition_type) + str_m("url"@, v.url@)
}

fn navigate_params_params(v: &NavigateParams) -> (p: Params)
    ensures
        p.members() == navigate_params_members(*v),
{
    let mut p = Params::new();
    p.opt_string("frameId", &v.frame_id);
    p.opt_string("referrer", &v.referrer);
    p.opt_string("transitionType", &v.transition_type);
    p.text("url", v.url.as_str());
    assert(p.members() =~= navigate_params_members(*v));
    p
}

/// A region of the page, each number as its JSON text.
#[derive(Debug, Clone)]
pub struct Viewport {
    pub x: String,
    pub y: String,
    pub width: String,
    pub height: String,
    pub scale: String,
}

/// The members of a `Viewport`: those it has, in name order.
pub open spec fn viewport_members(v: Viewport) -> Seq<Seq<char>> {
    raw_m("height"@, v.height@) + raw_m("scale"@, v.scale@) + raw_m("width"@, v.width@)
        + raw_m("x"@, v.x@) + raw_m("y"@, v.y@)
}

fn viewport_params(v: &Viewport) -> (p: Params)
    ensures
        p.members() == viewport_members(*v),
{
    let mut p = Params::new();
    p.raw("height", v.height.as_str());
    p.raw("scale", v.scale.as_str());
    p.raw("width", v.width.as_str());
    p.raw("x", v.x.as_str());
    p.raw("y", v.y.as_str());
    assert(p.members() =~= viewport_members(*v));
    p
}

/// How `Page.captureScreenshot` takes a picture: format, quality, region and surface.
#[derive(Debug, Clone)]
pub struct ScreenshotParams {
    pub format: Option<String>,
    pub quality: Option<i32>,
    pub clip: Option<Viewport>,
    pub from_surface: Option<bool>,
    pub capture_beyond_viewport: Option<bool>,
}

/// The members of a `ScreenshotParams`: those it has, in name order.
pub open spec fn screenshot_params_members(v: ScreenshotParams) -> Seq<Seq<char>> {
    opt_bool_m("captureBeyondViewport"@, v.capture_beyond_viewport)
        + (match v.clip { Some(r) => obj_m("clip"@, viewport_members(r)), None => Seq::empty() })
        + opt_string_m("format"@, v.format) + opt_bool_m("fromSurface"@, v.from_surface)
        + opt_i32_m("quality"@, v.quality)
}

fn screenshot_params_params(v: &ScreenshotParams) -> (p: Params)
    ensures
        p.members() == screenshot_params_members(*v),
{
    let mut p = Params::new();
    p.opt_flag("captureBeyondViewport", v.capture_beyond_viewport);
    match &v.clip { Some(r) => p.nested("clip", viewport_params(r)), None => {} }
    p.opt_string("format", &v.format);
    p.opt_flag("fromSurface", v.from_surface);
    p.opt_i32("quality", v.quality);
    assert(p.members() =~= screenshot_params_members(*v));
    p
}

/// How `Page.printToPDF` prints: each given option, numbers as their JSON text.
#[derive(Debug, Clone)]
pub struct PrintToPdfParams {
    pub landscape: Option<bool>,
    pub display_header_footer: Option<bool>,
    pub print_background: Option<bool>,
    pub scale: Option<String>,
    pub paper_width: Option<String>,
    pub paper_height: Option<String>,
    pub margin_top: Option<String>,
    pub margin_bottom: Option<String>,
    pub margin_left: Option<String>,
    pub margin_right: Option<String>,
}

/// The members of a `PrintToPdfParams`: those it has, in name order.
pub open spec fn print_to_pdf_params_members(v: PrintToPdfParams) -> Seq<Seq<char>> {
    opt_bool_m("displayHeaderFooter"@, v.display_header_footer)
        + opt_bool_m("landscape"@, v.landscape) + opt_string_raw_m("marginBottom"@, v.margin_bottom)
        + opt_string_raw_m("marginLeft"@, v.margin_left)
        + opt_string_raw_m("marginRight"@, v.margin_right)
        + opt_string_raw_m("marginTop"@, v.margin_top)
        + opt_string_raw_m("paperHeight"@, v.paper_height)
        + opt_string_raw_m("paperWidth"@, v.paper_width)
        + opt_bool_m("printBackground"@, v.print_background) + opt_string_raw_m("scale"@, v.scale)
}

fn print_to_pdf_params_params(v: &PrintToPdfParams) -> (p: Params)
    ensures
        p.members() == print_to_pdf_params_members(*v),
{
    let mut p = Params::new();
    p.opt_flag("displayHeaderFooter", v.display_header_footer);
    p.opt_flag("landscape", v.landscape);
    p.opt_raw_string("marginBottom", &v.margin_bottom);
    p.opt_raw_string("marginLeft", &v.margin_left);
    p.opt_raw_string("marginRight", &v.margin_right);
    p.opt_raw_string("marginTop", &v.margin_top);
    p.opt_raw_string("paperHeight", &v.paper_height);
    p.opt_raw_string("paperWidth", &v.paper_width);
    p.opt_flag("printBackground", v.print_background);
    p.opt_raw_string("scale", &v.scale);
    assert(p.members() =~= print_to_pdf_params_members(*v));
    p
}

/// The `Page.navigate` command.
pub fn navigate(params: &NavigateParams) -> (c: Command)
    ensures
        c.method@ == "Page.navigate"@,
        c.params@ == object(navigate_params_members(*params)),
{
    let p = navigate_params_params(params);
    p.command("Page.navigate")
}

/// The `Page.captureScreenshot` command.
pub fn capture_screenshot(params: &ScreenshotParams) -> (c: Command)
    ensures
        c.method@ == "Page.captureScreenshot"@,
        c.params@ == object(screenshot_params_members(*params)),
{
    let p = screenshot_params_params(params);
    p.command("Page.captureScreenshot")
}

/// The `Page.printToPDF` command.
pub fn print_to_pdf(params: &PrintToPdfParams) -> (c: Command)
    ensures
        c.method@ == "Page.printToPDF"@,
        c.params@ == object(print_to_pdf_params_members(*params)),
{
    let p = print_to_pdf_params_params(params);
    p.command("Page.printToPDF")
}

/// The error a navigation reports, as the error to give for it: none when
/// the reply names no error text.
pub fn navigation_error(error_text: &Option<String>) -> (r: Option<String>)
    ensures
        match error_text {
            Some(e) => r matches Some(m) && m@ == "Navigation error: "@ + e@,
            None => r is None,
        },
{
    match error_text {
        Some(e) => {
            let mut m = String::new();
            crate::text::push_str(&mut m, "Navigation error: ");
            crate::text::push_str(&mut m, e.as_str());
            Some(m)
        },
        None => None,
    }
}

/// The `Page.reload` command: reload, bypassing the cache when asked, and
/// run the given script on load. Each optional parameter is sent only when
/// given.
pub fn reload(ignore_cache: Option<bool>, script_to_evaluate_on_load: &Option<String>) -> (c: Command)
    ensures
        c.method@ == "Page.reload"@,
        c.params@ == object(opt_bool_m("ignoreCache"@, ignore_cache)
            + opt_string_m("scriptToEvaluateOnLoad"@, *script_to_evaluate_on_load)),
{
    let mut p = Params::new();
    p.opt_flag("ignoreCache", ignore_cache);
    p.opt_string("scriptToEvaluateOnLoad", script_to_evaluate_on_load);
    assert(p.members() =~= opt_bool_m("ignoreCache"@, ignore_cache)
        + opt_string_m("scriptToEvaluateOnLoad"@, *script_to_evaluate_on_load));
    p.command("Page.reload")
}

/// The `Page.enable` command.
pub fn enable() -> (c: Command)
    ensures
        c.method@ == "Page.enable"@,
        c.params@ == object(Seq::empty()),
{
    let p = Params::new();
    p.command("Page.enable")
}

/// The `Page.disable` command.
pub fn disable() -> (c: Command)
    ensures
        c.method@ == "Page.disable"@,
        c.params@ == object(Seq::empty()),
{
    let p = Params::new();
    p.command("Page.disable")
}

/// The `Page.getFrameTree` command.
pub fn get_frame_tree() -> (c: Command)
    ensures
        c.method@ == "Page.getFrameTree"@,
        c.params@ == object(Seq::empty()),
{
    let p = Params::new();
    p.command("Page.getFrameTree")
}

/// The `Page.createIsolatedWorld` command. Each optional parameter is sent only
/// when given.
pub fn create_isolated_world(
    frame_id: &str,
    world_name: Option<&str>,
    grant_universal_access: Option<bool>,
) -> (c: Command)
    ensures
        c.method@ == "Page.createIsolatedWorld"@,
        c.params@ == object(str_m("frameId"@, frame_id@)
            + opt_bool_m("grantUniveralAccess"@, grant_universal_access)
            + opt_str_m("worldName"@, world_name)),
{
    let mut p = Params::new();
    p.text("frameId", frame_id);
    p.opt_flag("grantUniveralAccess", grant_universal_access);
    p.opt_text("worldName", world_name);
    assert(p.members() =~= str_m("frameId"@, frame_id@)
        + opt_bool_m("grantUniveralAccess"@, grant_universal_access)
        + opt_str_m("worldName"@, world_name));
    p.command("Page.createIsolatedWorld")
}

/// The `Page.handleJavaScriptDialog` command. Its optional parameter is sent
/// only when given.
pub fn handle_javascript_dialog(accept: bool, prompt_text: Option<&str>) -> (c: Command)
    ensures
        c.method@ == "Page.handleJavaScriptDialog"@,
        c.params@ == object(bool_m("accept"@, accept) + opt_str_m("promptText"@, prompt_text)),
{
    let mut p = Params::new();
    p.flag("accept", accept);
    p.opt_text("promptText", prompt_text);
    assert(p.members() =~= bool_m("accept"@, accept) + opt_str_m("promptText"@, prompt_text));
    p.command("Page.handleJavaScriptDialog")
}

/// The `Page.setLifecycleEventsEnabled` command.
pub fn set_lifecycle_events_enabled(enabled: bool) -> (c: Command)
    ensures
        c.method@ == "Page.setLifecycleEventsEnabled"@,
        c.params@ == object(bool_m("enabled"@, enabled)),
{
    let mut p = Params::new();
    p.flag("enabled", enabled);
    assert(p.members() =~= bool_m("enabled"@, enabled));
    p.command("Page.setLifecycleEventsEnabled")
}

/// The `Page.stopLoading` command.
pub fn stop_loading() -> (c: Command)
    ensures
        c.method@ == "Page.stopLoading"@,
        c.params@ == object(Seq::empty()),
{
    let p = Params::new();
    p.command("Page.stopLoading")
}

/// The `Page.bringToFront` command.
pub fn bring_to_front() -> (c: Command)
    ensures
        c.method@ == "Page.bringToFront"@,
        c.params@ == object(Seq::empty()),
{
    let p = Params::new();
    p.command("Page.bringToFront")
}

/// The `Page.addScriptToEvaluateOnNewDocument` command. Its optional parameter
/// is sent only when given.
pub fn add_script_to_evaluate_on_new_document(
    source: &str,
    world_name: Option<&str>,
) -> (c: Command)
    ensures
        c.method@ == "Page.addScriptToEvaluateOnNewDocument"@,
        c.params@ == object(str_m("source"@, source@) + opt_str_m("worldName"@, world_name)),
{
    let mut p = Params::new();
    p.text("source", source);
    p.opt_text("worldName", world_name);
    assert(p.members() =~= str_m("source"@, source@) + opt_str_m("worldName"@, world_name));
    p.command("Page.addScriptToEvaluateOnNewDocument")
}

/// The `Page.removeScriptToEvaluateOnNewDocument` command.
pub fn remove_script_to_evaluate_on_new_document(identifier: &str) -> (c: Command)
    ensures
        c.method@ == "Page.removeScriptToEvaluateOnNewDocument"@,
        c.params@ == object(str_m("identifier"@, identifier@)),
{
    let mut p = Params::new();
    p.text("identifier", identifier);
    assert(p.members() =~= str_m("identifier"@, identifier@));
    p.command("Page.removeScriptToEvaluateOnNewDocument")
}

/// The `Page.setInterceptFileChooserDialog` command.
pub fn set_intercept_file_chooser_dialog(enabled: bool) -> (c: Command)
    ensures
        c.method@ == "Page.setInterceptFileChooserDialog"@,
        c.params@ == object(bool_m("enabled"@, enabled)),
{
    let mut p = Params::new();
    p.flag("enabled", enabled);
    assert(p.members() =~= bool_m("enabled"@, enabled));
    p.command("Page.setInterceptFileChooserDialog")
}

/// The `Page.close` command.
pub fn close() -> (c: Command)
    ensures
        c.method@ == "Page.close"@,
        c.params@ == object(Seq::empty()),
{
    let p = Params::new();
    p.command("Page.close")
}

/// The `Page.getNavigationHistory` command.
pub fn get_navigation_history() -> (c: Command)
    ensures
        c.method@ == "Page.getNavigationHistory"@,
        c.params@ == object(Seq::empty()),
{
    let p = Params::new();
    p.command("Page.getNavigationHistory")
}

/// The `Page.navigateToHistoryEntry` command.
pub fn navigate_to_history_entry(entry_id: i32) -> (c: Command)
    ensures
        c.method@ == "Page.navigateToHistoryEntry"@,
        c.params@ == object(int_m("entryId"@, entry_id as int)),
{
    let mut p = Params::new();
    p.integer("entryId", entry_id as i64);
    assert(p.members() =~= int_m("entryId"@, entry_id as int));
    p.command("Page.navigateToHistoryEntry")
}

} // verus!
