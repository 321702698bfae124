//! The `Browser` domain: the browser process, its windows, downloads and permissions.
use vstd::prelude::*;
use crate::json::{JsonValue, JsonView, json_view, member_str, member_bool, member_i64, member_i32, opt_str_field,
    opt_bool_field, opt_view, json_str, json_bool, json_i64, json_i32, json_opt_str, json_opt_bool};
use crate::cdp::{Command, Params, opt_string_m, obj_m, object, int_m, str_m, strs_m, opt_i32_m, opt_bool_m, opt_str_m, str_views};

verus! {

/// The browser's version, as `Browser.getVersion` gives it.
#[derive(Debug, Clone)]
pub struct BrowserVersion {
    pub protocol_version: String,
    pub product: String,
    pub revision: String,
    pub user_agent: String,
    pub js_version: String,
}

/// A reply holds a `BrowserVersion`: each member it needs, of the right type.
pub open spec fn browser_version_readable(v: JsonView) -> bool {
    &&& member_str(v, "protocolVersion"@) is Some
    &&& member_str(v, "product"@) is Some
    &&& member_str(v, "revision"@) is Some
    &&& member_str(v, "userAgent"@) is Some
    &&& member_str(v, "jsVersion"@) is Some
}

/// What a `BrowserVersion` read from a reply holds: its members.
pub open spec fn browser_version_read(x: BrowserVersion, v: JsonView) -> bool {
    &&& Some(x.protocol_version@) == member_str(v, "protocolVersion"@)
    &&& Some(x.product@) == member_str(v, "product"@)
    &&& Some(x.revision@) == member_str(v, "revision"@)
    &&& Some(x.user_agent@) == member_str(v, "userAgent"@)
    &&& Some(x.js_version@) == member_str(v, "jsVersion"@)
}

impl BrowserVersion {
    /// Reads a `BrowserVersion` from a reply; none when it lacks a member it needs
    /// or a member is of another type.
    pub fn from_json(v: &JsonValue) -> (r: Option<BrowserVersion>)
        ensures
            r is Some <==> browser_version_readable(json_view(*v)),
            r matches Some(x) ==> browser_version_read(x, json_view(*v)),
    {
        let protocol_version = match json_str(v, "protocolVersion") {
            Some(x) => x,
            None => return None,
        };
        let product = match json_str(v, "product") {
            Some(x) => x,
            None => return None,
        };
        let revision = match json_str(v, "revision") {
            Some(x) => x,
            None => return None,
        };
        let user_agent = match json_str(v, "userAgent") {
            Some(x) => x,
            None => return None,
        };
        let js_version = match json_str(v, "jsVersion") {
            Some(x) => x,
            None => return None,
        };
        Some(BrowserVersion { protocol_version, product, revision, user_agent, js_version })
    }
}

/// A bucket of a histogram.
#[derive(Debug, Clone)]
pub struct Bucket {
    pub low: i32,
    pub high: i32,
    pub count: i32,
}

/// A reply holds a `Bucket`: each member it needs, of the right type.
pub open spec fn bucket_readable(v: JsonView) -> bool {
    &&& member_i32(v, "low"@) is Some
    &&& member_i32(v, "high"@) is Some
    &&& member_i32(v, "count"@) is Some
}

/// What a `Bucket` read from a reply holds: its members.
pub open spec fn bucket_read(x: Bucket, v: JsonView) -> bool {
    &&& Some(x.low) == member_i32(v, "low"@)
    &&& Some(x.high) == member_i32(v, "high"@)
    &&& Some(x.count) == member_i32(v, "count"@)
}

impl Bucket {
    /// Reads a `Bucket` from a reply; none when it lacks a member it needs
    /// or a member is of another type.
    pub fn from_json(v: &JsonValue) -> (r: Option<Bucket>)
        ensures
            r is Some <==> bucket_readable(json_view(*v)),
            r matches Some(x) ==> bucket_read(x, json_view(*v)),
    {
        let low = match json_i32(v, "low") {
            Some(x) => x,
            None => return None,
        };
        let high = match json_i32(v, "high") {
            Some(x) => x,
            None => return None,
        };
        let count = match json_i32(v, "count") {
            Some(x) => x,
            None => return None,
        };
        Some(Bucket { low, high, count })
    }
}


/// The position, size and state of a browser window.
#[derive(Debug, Clone)]
pub struct WindowBounds {
    pub left: Option<i32>,
    pub top: Option<i32>,
    pub width: Option<i32>,
    pub height: Option<i32>,
    pub window_state: Option<String>,
}

/// The members of a `WindowBounds`: those it has, in name order.
pub open spec fn window_bounds_members(v: WindowBounds) -> Seq<Seq<char>> {
    opt_i32_m("height"@, v.height) + opt_i32_m("left"@, v.left) + opt_i32_m("top"@, v.top)
        + opt_i32_m("width"@, v.width) + opt_string_m("windowState"@, v.window_state)
}

fn window_bounds_params(v: &WindowBounds) -> (p: Params)
    ensures
        p.members() == window_bounds_members(*v),
{
    let mut p = Params::new();
    p.opt_i32("height", v.height);
    p.opt_i32("left", v.left);
    p.opt_i32("top", v.top);
    p.opt_i32("width", v.width);
    p.opt_string("windowState", &v.window_state);
    assert(p.members() =~= window_bounds_members(*v));
    p
}

/// The `Browser.setWindowBounds` command: move, resize or change the state
/// of a window.
pub fn set_window_bounds(window_id: i64, bounds: &WindowBounds) -> (c: Command)
    ensures
        c.method@ == "Browser.setWindowBounds"@,
        c.params@ == object(obj_m("bounds"@, window_bounds_members(*bounds)) + int_m("windowId"@, window_id as int)),
{
    let inner = window_bounds_params(bounds);
    let mut p = Params::new();
    p.nested("bounds", inner);
    p.integer("windowId", window_id);
    assert(p.members() =~= obj_m("bounds"@, window_bounds_members(*bounds)) + int_m("windowId"@, window_id as int));
    p.command("Browser.setWindowBounds")
}

/// The `Browser.getVersion` command.
pub fn get_version() -> (c: Command)
    ensures
        c.method@ == "Browser.getVersion"@,
        c.params@ == object(Seq::empty()),
{
    let p = Params::new();
    p.command("Browser.getVersion")
}

/// The `Browser.close` command.
pub fn close() -> (c: Command)
    ensures
        c.method@ == "Browser.close"@,
        c.params@ == object(Seq::empty()),
{
    let p = Params::new();
    p.command("Browser.close")
}

/// The `Browser.getWindowForTarget` command. Its optional parameter is sent
/// only when given.
pub fn get_window_for_target(target_id: Option<&str>) -> (c: Command)
    ensures
        c.method@ == "Browser.getWindowForTarget"@,
        c.params@ == object(opt_str_m("targetId"@, target_id)),
{
    let mut p = Params::new();
    p.opt_text("targetId", target_id);
    assert(p.members() =~= opt_str_m("targetId"@, target_id));
    p.command("Browser.getWindowForTarget")
}

/// The `Browser.getWindowBounds` command.
pub fn get_window_bounds(window_id: i64) -> (c: Command)
    ensures
        c.method@ == "Browser.getWindowBounds"@,
        c.params@ == object(int_m("windowId"@, window_id as int)),
{
    let mut p = Params::new();
    p.integer("windowId", window_id);
    assert(p.members() =~= int_m("windowId"@, window_id as int));
    p.command("Browser.getWindowBounds")
}

/// The `Browser.setDownloadBehavior` command. Each optional parameter is sent
/// only when given.
pub fn set_download_behavior(
    behavior: &str,
    download_path: Option<&str>,
    events_enabled: Option<bool>,
) -> (c: Command)
    ensures
        c.method@ == "Browser.setDownloadBehavior"@,
        c.params@ == object(str_m("behavior"@, behavior@)
            + opt_str_m("downloadPath"@, download_path)
            + opt_bool_m("eventsEnabled"@, events_enabled)),
{
    let mut p = Params::new();
    p.text("behavior", behavior);
    p.opt_text("downloadPath", download_path);
    p.opt_flag("eventsEnabled", events_enabled);
    assert(p.members() =~= str_m("behavior"@, behavior@)
        + opt_str_m("downloadPath"@, download_path)
        + opt_bool_m("eventsEnabled"@, events_enabled));
    p.command("Browser.setDownloadBehavior")
}

/// The `Browser.grantPermissions` command. Each optional parameter is sent only
/// when given.
pub fn grant_permissions(
    permissions: &[&str],
    origin: Option<&str>,
    browser_context_id: Option<&str>,
) -> (c: Command)
    ensures
        c.method@ == "Browser.grantPermissions"@,
        c.params@ == object(opt_str_m("browserContextId"@, browser_context_id)
            + opt_str_m("origin"@, origin)
            + strs_m("permissions"@, str_views(permissions@))),
{
    let mut p = Params::new();
    p.opt_text("browserContextId", browser_context_id);
    p.opt_text("origin", origin);
    p.texts("permissions", permissions);
    assert(p.members() =~= opt_str_m("browserContextId"@, browser_context_id)
        + opt_str_m("origin"@, origin)
        + strs_m("permissions"@, str_views(permissions@)));
    p.command("Browser.grantPermissions")
}

/// The `Browser.resetPermissions` command. Its optional parameter is sent only
/// when given.
pub fn reset_permissions(browser_context_id: Option<&str>) -> (c: Command)
    ensures
        c.method@ == "Browser.resetPermissions"@,
        c.params@ == object(opt_str_m("browserContextId"@, browser_context_id)),
{
    let mut p = Params::new();
    p.opt_text("browserContextId", browser_context_id);
    assert(p.members() =~= opt_str_m("browserContextId"@, browser_context_id));
    p.command("Browser.resetPermissions")
}

/// The `Browser.crash` command.
pub fn crash() -> (c: Command)
    ensures
        c.method@ == "Browser.crash"@,
        c.params@ == object(Seq::empty()),
{
    let p = Params::new();
    p.command("Browser.crash")
}

/// The `Browser.getHistogram` command. Its optional parameter is sent only when
/// given.
pub fn get_histogram(name: &str, delta: Option<bool>) -> (c: Command)
    ensures
        c.method@ == "Browser.getHistogram"@,
        c.params@ == object(opt_bool_m("delta"@, delta) + str_m("name"@, name@)),
{
    let mut p = Params::new();
    p.opt_flag("delta", delta);
    p.text("name", name);
    assert(p.members() =~= opt_bool_m("delta"@, delta) + str_m("name"@, name@));
    p.command("Browser.getHistogram")
}

/// The `Browser.getHistograms` command. Each optional parameter is sent only
/// when given.
pub fn get_histograms(query: Option<&str>, delta: Option<bool>) -> (c: Command)
    ensures
        c.method@ == "Browser.getHistograms"@,
        c.params@ == object(opt_bool_m("delta"@, delta) + opt_str_m("query"@, query)),
{
    let mut p = Params::new();
    p.opt_flag("delta", delta);
    p.opt_text("query", query);
    assert(p.members() =~= opt_bool_m("delta"@, delta) + opt_str_m("query"@, query));
    p.command("Browser.getHistograms")
}

/// A histogram of the browser's metrics.
#[derive(Debug, Clone)]
pub struct Histogram {
    pub name: String,
    pub sum: i64,
    pub count: i64,
    pub buckets: Vec<Bucket>,
}

/// A permission, as `Browser.setPermission` names it.
#[derive(Debug, Clone)]
pub struct PermissionDescriptor {
    pub name: String,
    pub sysex: Option<bool>,
    pub user_visible_only: Option<bool>,
    pub allow_without_sanitization: Option<bool>,
    pub pan_tilt_zoom: Option<bool>,
}

} // verus!
