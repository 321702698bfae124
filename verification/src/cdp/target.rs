//! The `Target` domain: pages, workers and browser contexts, and attaching to them.
use vstd::prelude::*;
use crate::json::{JsonValue, JsonView, json_view, member_str, member_bool, member_i64, member_i32, opt_str_field,
    opt_bool_field, opt_view, json_str, json_bool, json_i64, json_i32, json_opt_str, json_opt_bool};
use crate::cdp::{Command, Params, object, bool_m, str_m, opt_i32_m, opt_bool_m, opt_str_m, opt_raw_m};

verus! {

/// A host and port where targets are discovered.
#[derive(Debug, Clone)]
pub struct RemoteLocation {
    pub host: String,
    pub port: i32,
}

/// A reply holds a `RemoteLocation`: each member it needs, of the right type.
pub open spec fn remote_location_readable(v: JsonView) -> bool {
    &&& member_str(v, "host"@) is Some
    &&& member_i32(v, "port"@) is Some
}

/// What a `RemoteLocation` read from a reply holds: its members.
pub open spec fn remote_location_read(x: RemoteLocation, v: JsonView) -> bool {
    &&& Some(x.host@) == member_str(v, "host"@)
    &&& Some(x.port) == member_i32(v, "port"@)
}

impl RemoteLocation {
    /// Reads a `RemoteLocation` from a reply; none when it lacks a member it needs
    /// or a member is of another type.
    pub fn from_json(v: &JsonValue) -> (r: Option<RemoteLocation>)
        ensures
            r is Some <==> remote_location_readable(json_view(*v)),
            r matches Some(x) ==> remote_location_read(x, json_view(*v)),
    {
        let host = match json_str(v, "host") {
            Some(x) => x,
            None => return None,
        };
        let port = match json_i32(v, "port") {
            Some(x) => x,
            None => return None,
        };
        Some(RemoteLocation { host, port })
    }
}


/// The `Target.setDiscoverTargets` command that turns discovery on.
pub fn enable() -> (c: Command)
    ensures
        c.method@ == "Target.setDiscoverTargets"@,
        c.params@ == object(bool_m("discover"@, true)),
{
    set_discover_targets(true, None)
}

/// The `Target.getTargets` command. Its optional parameter is sent only when
/// given.
pub fn get_targets(filter: Option<&str>) -> (c: Command)
    ensures
        c.method@ == "Target.getTargets"@,
        c.params@ == object(opt_raw_m("filter"@, filter)),
{
    let mut p = Params::new();
    p.opt_raw("filter", filter);
    assert(p.members() =~= opt_raw_m("filter"@, filter));
    p.command("Target.getTargets")
}

/// The `Target.attachToTarget` command. Its optional parameter is sent only
/// when given.
pub fn attach_to_target(target_id: &str, flatten: Option<bool>) -> (c: Command)
    ensures
        c.method@ == "Target.attachToTarget"@,
        c.params@ == object(opt_bool_m("flatten"@, flatten) + str_m("targetId"@, target_id@)),
{
    let mut p = Params::new();
    p.opt_flag("flatten", flatten);
    p.text("targetId", target_id);
    assert(p.members() =~= opt_bool_m("flatten"@, flatten) + str_m("targetId"@, target_id@));
    p.command("Target.attachToTarget")
}

/// The `Target.detachFromTarget` command. Each optional parameter is sent only
/// when given.
pub fn detach_from_target(session_id: Option<&str>, target_id: Option<&str>) -> (c: Command)
    ensures
        c.method@ == "Target.detachFromTarget"@,
        c.params@ == object(opt_str_m("sessionId"@, session_id)
            + opt_str_m("targetId"@, target_id)),
{
    let mut p = Params::new();
    p.opt_text("sessionId", session_id);
    p.opt_text("targetId", target_id);
    assert(p.members() =~= opt_str_m("sessionId"@, session_id)
        + opt_str_m("targetId"@, target_id));
    p.command("Target.detachFromTarget")
}

/// The `Target.createTarget` command. Each optional parameter is sent only when
/// given.
pub fn create_target(
    url: &str,
    width: Option<i32>,
    height: Option<i32>,
    browser_context_id: Option<&str>,
    enable_begin_frame_control: Option<bool>,
    new_window: Option<bool>,
    background: Option<bool>,
) -> (c: Command)
    ensures
        c.method@ == "Target.createTarget"@,
        c.params@ == object(opt_bool_m("background"@, background)
            + opt_str_m("browserContextId"@, browser_context_id)
            + opt_bool_m("enableBeginFrameControl"@, enable_begin_frame_control)
            + opt_i32_m("height"@, height)
            + opt_bool_m("newWindow"@, new_window) + str_m("url"@, url@)
            + opt_i32_m("width"@, width)),
{
    let mut p = Params::new();
    p.opt_flag("background", background);
    p.opt_text("browserContextId", browser_context_id);
    p.opt_flag("enableBeginFrameControl", enable_begin_frame_control);
    p.opt_i32("height", height);
    p.opt_flag("newWindow", new_window);
    p.text("url", url);
    p.opt_i32("width", width);
    assert(p.members() =~= opt_bool_m("background"@, background)
        + opt_str_m("browserContextId"@, browser_context_id)
        + opt_bool_m("enableBeginFrameControl"@, enable_begin_frame_control)
        + opt_i32_m("height"@, height) + opt_bool_m("newWindow"@, new_window)
        + str_m("url"@, url@) + opt_i32_m("width"@, width));
    p.command("Target.createTarget")
}

/// The `Target.closeTarget` command.
pub fn close_target(target_id: &str) -> (c: Command)
    ensures
        c.method@ == "Target.closeTarget"@,
        c.params@ == object(str_m("targetId"@, target_id@)),
{
    let mut p = Params::new();
    p.text("targetId", target_id);
    assert(p.members() =~= str_m("targetId"@, target_id@));
    p.command("Target.closeTarget")
}

/// The `Target.activateTarget` command.
pub fn activate_target(target_id: &str) -> (c: Command)
    ensures
        c.method@ == "Target.activateTarget"@,
        c.params@ == object(str_m("targetId"@, target_id@)),
{
    let mut p = Params::new();
    p.text("targetId", target_id);
    assert(p.members() =~= str_m("targetId"@, target_id@));
    p.command("Target.activateTarget")
}

/// The `Target.createBrowserContext` command. Each optional parameter is sent
/// only when given.
pub fn create_browser_context(
    dispose_on_detach: Option<bool>,
    proxy_server: Option<&str>,
    proxy_bypass_list: Option<&str>,
) -> (c: Command)
    ensures
        c.method@ == "Target.createBrowserContext"@,
        c.params@ == object(opt_bool_m("disposeOnDetach"@, dispose_on_detach)
            + opt_str_m("proxyBypassList"@, proxy_bypass_list)
            + opt_str_m("proxyServer"@, proxy_server)),
{
    let mut p = Params::new();
    p.opt_flag("disposeOnDetach", dispose_on_detach);
    p.opt_text("proxyBypassList", proxy_bypass_list);
    p.opt_text("proxyServer", proxy_server);
    assert(p.members() =~= opt_bool_m("disposeOnDetach"@, dispose_on_detach)
        + opt_str_m("proxyBypassList"@, proxy_bypass_list)
        + opt_str_m("proxyServer"@, proxy_server));
    p.command("Target.createBrowserContext")
}

/// The `Target.disposeBrowserContext` command.
pub fn dispose_browser_context(browser_context_id: &str) -> (c: Command)
    ensures
        c.method@ == "Target.disposeBrowserContext"@,
        c.params@ == object(str_m("browserContextId"@, browser_context_id@)),
{
    let mut p = Params::new();
    p.text("browserContextId", browser_context_id);
    assert(p.members() =~= str_m("browserContextId"@, browser_context_id@));
    p.command("Target.disposeBrowserContext")
}

/// The `Target.getBrowserContexts` command.
pub fn get_browser_contexts() -> (c: Command)
    ensures
        c.method@ == "Target.getBrowserContexts"@,
        c.params@ == object(Seq::empty()),
{
    let p = Params::new();
    p.command("Target.getBrowserContexts")
}

/// The `Target.setAutoAttach` command. Each optional parameter is sent only
/// when given.
pub fn set_auto_attach(
    auto_attach: bool,
    wait_for_debugger_on_start: bool,
    flatten: Option<bool>,
    filter: Option<&str>,
) -> (c: Command)
    ensures
        c.method@ == "Target.setAutoAttach"@,
        c.params@ == object(bool_m("autoAttach"@, auto_attach) + opt_raw_m("filter"@, filter)
            + opt_bool_m("flatten"@, flatten)
            + bool_m("waitForDebuggerOnStart"@, wait_for_debugger_on_start)),
{
    let mut p = Params::new();
    p.flag("autoAttach", auto_attach);
    p.opt_raw("filter", filter);
    p.opt_flag("flatten", flatten);
    p.flag("waitForDebuggerOnStart", wait_for_debugger_on_start);
    assert(p.members() =~= bool_m("autoAttach"@, auto_attach) + opt_raw_m("filter"@, filter)
        + opt_bool_m("flatten"@, flatten)
        + bool_m("waitForDebuggerOnStart"@, wait_for_debugger_on_start));
    p.command("Target.setAutoAttach")
}

/// The `Target.setDiscoverTargets` command. Its optional parameter is sent only
/// when given.
pub fn set_discover_targets(discover: bool, filter: Option<&str>) -> (c: Command)
    ensures
        c.method@ == "Target.setDiscoverTargets"@,
        c.params@ == object(bool_m("discover"@, discover) + opt_raw_m("filter"@, filter)),
{
    let mut p = Params::new();
    p.flag("discover", discover);
    p.opt_raw("filter", filter);
    assert(p.members() =~= bool_m("discover"@, discover) + opt_raw_m("filter"@, filter));
    p.command("Target.setDiscoverTargets")
}

/// The `Target.getTargetInfo` command. Its optional parameter is sent only when
/// given.
pub fn get_target_info(target_id: Option<&str>) -> (c: Command)
    ensures
        c.method@ == "Target.getTargetInfo"@,
        c.params@ == object(opt_str_m("targetId"@, target_id)),
{
    let mut p = Params::new();
    p.opt_text("targetId", target_id);
    assert(p.members() =~= opt_str_m("targetId"@, target_id));
    p.command("Target.getTargetInfo")
}

} // verus!
