//! The `Accessibility` domain: the accessibility tree and queries on it.
use vstd::prelude::*;
use crate::cdp::{Command, Params, object, str_m, opt_i32_m, opt_i64_m, opt_bool_m, opt_str_m};

verus! {

/// The `Accessibility.enable` command.
pub fn enable() -> (c: Command)
    ensures
        c.method@ == "Accessibility.enable"@,
        c.params@ == object(Seq::empty()),
{
    let p = Params::new();
    p.command("Accessibility.enable")
}

/// The `Accessibility.disable` command.
pub fn disable() -> (c: Command)
    ensures
        c.method@ == "Accessibility.disable"@,
        c.params@ == object(Seq::empty()),
{
    let p = Params::new();
    p.command("Accessibility.disable")
}

/// The `Accessibility.getFullAXTree` command. Each optional parameter is sent
/// only when given.
pub fn get_full_ax_tree(depth: Option<i32>, frame_id: Option<&str>) -> (c: Command)
    ensures
        c.method@ == "Accessibility.getFullAXTree"@,
        c.params@ == object(opt_i32_m("depth"@, depth) + opt_str_m("frameId"@, frame_id)),
{
    let mut p = Params::new();
    p.opt_i32("depth", depth);
    p.opt_text("frameId", frame_id);
    assert(p.members() =~= opt_i32_m("depth"@, depth) + opt_str_m("frameId"@, frame_id));
    p.command("Accessibility.getFullAXTree")
}

/// The `Accessibility.getPartialAXTree` command. Each optional parameter is
/// sent only when given.
pub fn get_partial_ax_tree(
    node_id: Option<i64>,
    backend_node_id: Option<i64>,
    object_id: Option<&str>,
    fetch_relatives: Option<bool>,
) -> (c: Command)
    ensures
        c.method@ == "Accessibility.getPartialAXTree"@,
        c.params@ == object(opt_i64_m("backendNodeId"@, backend_node_id)
            + opt_bool_m("fetchRelatives"@, fetch_relatives)
            + opt_i64_m("nodeId"@, node_id) + opt_str_m("objectId"@, object_id)),
{
    let mut p = Params::new();
    p.opt_i64("backendNodeId", backend_node_id);
    p.opt_flag("fetchRelatives", fetch_relatives);
    p.opt_i64("nodeId", node_id);
    p.opt_text("objectId", object_id);
    assert(p.members() =~= opt_i64_m("backendNodeId"@, backend_node_id)
        + opt_bool_m("fetchRelatives"@, fetch_relatives)
        + opt_i64_m("nodeId"@, node_id) + opt_str_m("objectId"@, object_id));
    p.command("Accessibility.getPartialAXTree")
}

/// The `Accessibility.queryAXTree` command. Each optional parameter is sent
/// only when given.
pub fn query_ax_tree(
    node_id: Option<i64>,
    accessible_name: Option<&str>,
    role: Option<&str>,
) -> (c: Command)
    ensures
        c.method@ == "Accessibility.queryAXTree"@,
        c.params@ == object(opt_str_m("accessibleName"@, accessible_name)
            + opt_i64_m("nodeId"@, node_id) + opt_str_m("role"@, role)),
{
    let mut p = Params::new();
    p.opt_text("accessibleName", accessible_name);
    p.opt_i64("nodeId", node_id);
    p.opt_text("role", role);
    assert(p.members() =~= opt_str_m("accessibleName"@, accessible_name)
        + opt_i64_m("nodeId"@, node_id) + opt_str_m("role"@, role));
    p.command("Accessibility.queryAXTree")
}

/// The `Accessibility.getRootAXNode` command. Its optional parameter is sent
/// only when given.
pub fn get_root_ax_node(frame_id: Option<&str>) -> (c: Command)
    ensures
        c.method@ == "Accessibility.getRootAXNode"@,
        c.params@ == object(opt_str_m("frameId"@, frame_id)),
{
    let mut p = Params::new();
    p.opt_text("frameId", frame_id);
    assert(p.members() =~= opt_str_m("frameId"@, frame_id));
    p.command("Accessibility.getRootAXNode")
}

/// The `Accessibility.getChildAXNodes` command.
pub fn get_child_ax_nodes(id: &str) -> (c: Command)
    ensures
        c.method@ == "Accessibility.getChildAXNodes"@,
        c.params@ == object(str_m("id"@, id@)),
{
    let mut p = Params::new();
    p.text("id", id);
    assert(p.members() =~= str_m("id"@, id@));
    p.command("Accessibility.getChildAXNodes")
}

} // verus!
