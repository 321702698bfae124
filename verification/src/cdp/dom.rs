//! The `DOM` domain: the document tree, its nodes and their attributes.
use vstd::prelude::*;
use crate::cdp::{Command, Params, object, int_m, str_m, strs_m, opt_i32_m, opt_i64_m, opt_bool_m, opt_str_m, opt_raw_m, str_views};

verus! {

/// A node of the document, by the id the DevTools session gave it.
pub type NodeId = i64;

/// A node of the document, by the id the browser gave it.
pub type BackendNodeId = i64;

/// The `DOM.enable` command.
pub fn enable() -> (c: Command)
    ensures
        c.method@ == "DOM.enable"@,
        c.params@ == object(Seq::empty()),
{
    let p = Params::new();
    p.command("DOM.enable")
}

/// The `DOM.disable` command.
pub fn disable() -> (c: Command)
    ensures
        c.method@ == "DOM.disable"@,
        c.params@ == object(Seq::empty()),
{
    let p = Params::new();
    p.command("DOM.disable")
}

/// The `DOM.getDocument` command. Each optional parameter is sent only when
/// given.
pub fn get_document(depth: Option<i32>, pierce: Option<bool>) -> (c: Command)
    ensures
        c.method@ == "DOM.getDocument"@,
        c.params@ == object(opt_i32_m("depth"@, depth) + opt_bool_m("pierce"@, pierce)),
{
    let mut p = Params::new();
    p.opt_i32("depth", depth);
    p.opt_flag("pierce", pierce);
    assert(p.members() =~= opt_i32_m("depth"@, depth) + opt_bool_m("pierce"@, pierce));
    p.command("DOM.getDocument")
}

/// The `DOM.querySelector` command.
pub fn query_selector(node_id: NodeId, selector: &str) -> (c: Command)
    ensures
        c.method@ == "DOM.querySelector"@,
        c.params@ == object(int_m("nodeId"@, node_id as int) + str_m("selector"@, selector@)),
{
    let mut p = Params::new();
    p.integer("nodeId", node_id);
    p.text("selector", selector);
    assert(p.members() =~= int_m("nodeId"@, node_id as int) + str_m("selector"@, selector@));
    p.command("DOM.querySelector")
}

/// The `DOM.querySelectorAll` command.
pub fn query_selector_all(node_id: NodeId, selector: &str) -> (c: Command)
    ensures
        c.method@ == "DOM.querySelectorAll"@,
        c.params@ == object(int_m("nodeId"@, node_id as int) + str_m("selector"@, selector@)),
{
    let mut p = Params::new();
    p.integer("nodeId", node_id);
    p.text("selector", selector);
    assert(p.members() =~= int_m("nodeId"@, node_id as int) + str_m("selector"@, selector@));
    p.command("DOM.querySelectorAll")
}

/// The `DOM.getOuterHTML` command. Each optional parameter is sent only when
/// given.
pub fn get_outer_html(
    node_id: Option<NodeId>,
    backend_node_id: Option<BackendNodeId>,
    object_id: Option<&str>,
) -> (c: Command)
    ensures
        c.method@ == "DOM.getOuterHTML"@,
        c.params@ == object(opt_i64_m("backendNodeId"@, backend_node_id)
            + opt_i64_m("nodeId"@, node_id) + opt_str_m("objectId"@, object_id)),
{
    let mut p = Params::new();
    p.opt_i64("backendNodeId", backend_node_id);
    p.opt_i64("nodeId", node_id);
    p.opt_text("objectId", object_id);
    assert(p.members() =~= opt_i64_m("backendNodeId"@, backend_node_id)
        + opt_i64_m("nodeId"@, node_id) + opt_str_m("objectId"@, object_id));
    p.command("DOM.getOuterHTML")
}

/// The `DOM.setOuterHTML` command.
pub fn set_outer_html(node_id: NodeId, outer_html: &str) -> (c: Command)
    ensures
        c.method@ == "DOM.setOuterHTML"@,
        c.params@ == object(int_m("nodeId"@, node_id as int) + str_m("outerHTML"@, outer_html@)),
{
    let mut p = Params::new();
    p.integer("nodeId", node_id);
    p.text("outerHTML", outer_html);
    assert(p.members() =~= int_m("nodeId"@, node_id as int) + str_m("outerHTML"@, outer_html@));
    p.command("DOM.setOuterHTML")
}

/// The `DOM.getBoxModel` command. Each optional parameter is sent only when
/// given.
pub fn get_box_model(
    node_id: Option<NodeId>,
    backend_node_id: Option<BackendNodeId>,
    object_id: Option<&str>,
) -> (c: Command)
    ensures
        c.method@ == "DOM.getBoxModel"@,
        c.params@ == object(opt_i64_m("backendNodeId"@, backend_node_id)
            + opt_i64_m("nodeId"@, node_id) + opt_str_m("objectId"@, object_id)),
{
    let mut p = Params::new();
    p.opt_i64("backendNodeId", backend_node_id);
    p.opt_i64("nodeId", node_id);
    p.opt_text("objectId", object_id);
    assert(p.members() =~= opt_i64_m("backendNodeId"@, backend_node_id)
        + opt_i64_m("nodeId"@, node_id) + opt_str_m("objectId"@, object_id));
    p.command("DOM.getBoxModel")
}

/// The `DOM.getContentQuads` command. Each optional parameter is sent only when
/// given.
pub fn get_content_quads(
    node_id: Option<NodeId>,
    backend_node_id: Option<BackendNodeId>,
    object_id: Option<&str>,
) -> (c: Command)
    ensures
        c.method@ == "DOM.getContentQuads"@,
        c.params@ == object(opt_i64_m("backendNodeId"@, backend_node_id)
            + opt_i64_m("nodeId"@, node_id) + opt_str_m("objectId"@, object_id)),
{
    let mut p = Params::new();
    p.opt_i64("backendNodeId", backend_node_id);
    p.opt_i64("nodeId", node_id);
    p.opt_text("objectId", object_id);
    assert(p.members() =~= opt_i64_m("backendNodeId"@, backend_node_id)
        + opt_i64_m("nodeId"@, node_id) + opt_str_m("objectId"@, object_id));
    p.command("DOM.getContentQuads")
}

/// The `DOM.getAttributes` command.
pub fn get_attributes(node_id: NodeId) -> (c: Command)
    ensures
        c.method@ == "DOM.getAttributes"@,
        c.params@ == object(int_m("nodeId"@, node_id as int)),
{
    let mut p = Params::new();
    p.integer("nodeId", node_id);
    assert(p.members() =~= int_m("nodeId"@, node_id as int));
    p.command("DOM.getAttributes")
}

/// The `DOM.setAttributeValue` command.
pub fn set_attribute_value(node_id: NodeId, name: &str, value: &str) -> (c: Command)
    ensures
        c.method@ == "DOM.setAttributeValue"@,
        c.params@ == object(str_m("name"@, name@) + int_m("nodeId"@, node_id as int)
            + str_m("value"@, value@)),
{
    let mut p = Params::new();
    p.text("name", name);
    p.integer("nodeId", node_id);
    p.text("value", value);
    assert(p.members() =~= str_m("name"@, name@) + int_m("nodeId"@, node_id as int)
        + str_m("value"@, value@));
    p.command("DOM.setAttributeValue")
}

/// The `DOM.setAttributesAsText` command. Its optional parameter is sent only
/// when given.
pub fn set_attributes_as_text(node_id: NodeId, text: &str, name: Option<&str>) -> (c: Command)
    ensures
        c.method@ == "DOM.setAttributesAsText"@,
        c.params@ == object(opt_str_m("name"@, name) + int_m("nodeId"@, node_id as int)
            + str_m("text"@, text@)),
{
    let mut p = Params::new();
    p.opt_text("name", name);
    p.integer("nodeId", node_id);
    p.text("text", text);
    assert(p.members() =~= opt_str_m("name"@, name) + int_m("nodeId"@, node_id as int)
        + str_m("text"@, text@));
    p.command("DOM.setAttributesAsText")
}

/// The `DOM.removeAttribute` command.
pub fn remove_attribute(node_id: NodeId, name: &str) -> (c: Command)
    ensures
        c.method@ == "DOM.removeAttribute"@,
        c.params@ == object(str_m("name"@, name@) + int_m("nodeId"@, node_id as int)),
{
    let mut p = Params::new();
    p.text("name", name);
    p.integer("nodeId", node_id);
    assert(p.members() =~= str_m("name"@, name@) + int_m("nodeId"@, node_id as int));
    p.command("DOM.removeAttribute")
}

/// The `DOM.removeNode` command.
pub fn remove_node(node_id: NodeId) -> (c: Command)
    ensures
        c.method@ == "DOM.removeNode"@,
        c.params@ == object(int_m("nodeId"@, node_id as int)),
{
    let mut p = Params::new();
    p.integer("nodeId", node_id);
    assert(p.members() =~= int_m("nodeId"@, node_id as int));
    p.command("DOM.removeNode")
}

/// The `DOM.setFileInputFiles` command. Each optional parameter is sent only
/// when given.
pub fn set_file_input_files(
    files: &[&str],
    node_id: Option<NodeId>,
    backend_node_id: Option<BackendNodeId>,
    object_id: Option<&str>,
) -> (c: Command)
    ensures
        c.method@ == "DOM.setFileInputFiles"@,
        c.params@ == object(opt_i64_m("backendNodeId"@, backend_node_id)
            + strs_m("files"@, str_views(files@))
            + opt_i64_m("nodeId"@, node_id) + opt_str_m("objectId"@, object_id)),
{
    let mut p = Params::new();
    p.opt_i64("backendNodeId", backend_node_id);
    p.texts("files", files);
    p.opt_i64("nodeId", node_id);
    p.opt_text("objectId", object_id);
    assert(p.members() =~= opt_i64_m("backendNodeId"@, backend_node_id)
        + strs_m("files"@, str_views(files@)) + opt_i64_m("nodeId"@, node_id)
        + opt_str_m("objectId"@, object_id));
    p.command("DOM.setFileInputFiles")
}

/// The `DOM.describeNode` command. Each optional parameter is sent only when
/// given.
pub fn describe_node(
    node_id: Option<NodeId>,
    backend_node_id: Option<BackendNodeId>,
    object_id: Option<&str>,
    depth: Option<i32>,
    pierce: Option<bool>,
) -> (c: Command)
    ensures
        c.method@ == "DOM.describeNode"@,
        c.params@ == object(opt_i64_m("backendNodeId"@, backend_node_id)
            + opt_i32_m("depth"@, depth) + opt_i64_m("nodeId"@, node_id)
            + opt_str_m("objectId"@, object_id) + opt_bool_m("pierce"@, pierce)),
{
    let mut p = Params::new();
    p.opt_i64("backendNodeId", backend_node_id);
    p.opt_i32("depth", depth);
    p.opt_i64("nodeId", node_id);
    p.opt_text("objectId", object_id);
    p.opt_flag("pierce", pierce);
    assert(p.members() =~= opt_i64_m("backendNodeId"@, backend_node_id)
        + opt_i32_m("depth"@, depth) + opt_i64_m("nodeId"@, node_id)
        + opt_str_m("objectId"@, object_id) + opt_bool_m("pierce"@, pierce));
    p.command("DOM.describeNode")
}

/// The `DOM.requestChildNodes` command. Each optional parameter is sent only
/// when given.
pub fn request_child_nodes(
    node_id: NodeId,
    depth: Option<i32>,
    pierce: Option<bool>,
) -> (c: Command)
    ensures
        c.method@ == "DOM.requestChildNodes"@,
        c.params@ == object(opt_i32_m("depth"@, depth) + int_m("nodeId"@, node_id as int)
            + opt_bool_m("pierce"@, pierce)),
{
    let mut p = Params::new();
    p.opt_i32("depth", depth);
    p.integer("nodeId", node_id);
    p.opt_flag("pierce", pierce);
    assert(p.members() =~= opt_i32_m("depth"@, depth) + int_m("nodeId"@, node_id as int)
        + opt_bool_m("pierce"@, pierce));
    p.command("DOM.requestChildNodes")
}

/// The `DOM.scrollIntoViewIfNeeded` command. Each optional parameter is sent
/// only when given.
pub fn scroll_into_view_if_needed(
    node_id: Option<NodeId>,
    backend_node_id: Option<BackendNodeId>,
    object_id: Option<&str>,
    rect: Option<&str>,
) -> (c: Command)
    ensures
        c.method@ == "DOM.scrollIntoViewIfNeeded"@,
        c.params@ == object(opt_i64_m("backendNodeId"@, backend_node_id)
            + opt_i64_m("nodeId"@, node_id) + opt_str_m("objectId"@, object_id)
            + opt_raw_m("rect"@, rect)),
{
    let mut p = Params::new();
    p.opt_i64("backendNodeId", backend_node_id);
    p.opt_i64("nodeId", node_id);
    p.opt_text("objectId", object_id);
    p.opt_raw("rect", rect);
    assert(p.members() =~= opt_i64_m("backendNodeId"@, backend_node_id)
        + opt_i64_m("nodeId"@, node_id) + opt_str_m("objectId"@, object_id)
        + opt_raw_m("rect"@, rect));
    p.command("DOM.scrollIntoViewIfNeeded")
}

/// The `DOM.focus` command. Each optional parameter is sent only when given.
pub fn focus(
    node_id: Option<NodeId>,
    backend_node_id: Option<BackendNodeId>,
    object_id: Option<&str>,
) -> (c: Command)
    ensures
        c.method@ == "DOM.focus"@,
        c.params@ == object(opt_i64_m("backendNodeId"@, backend_node_id)
            + opt_i64_m("nodeId"@, node_id) + opt_str_m("objectId"@, object_id)),
{
    let mut p = Params::new();
    p.opt_i64("backendNodeId", backend_node_id);
    p.opt_i64("nodeId", node_id);
    p.opt_text("objectId", object_id);
    assert(p.members() =~= opt_i64_m("backendNodeId"@, backend_node_id)
        + opt_i64_m("nodeId"@, node_id) + opt_str_m("objectId"@, object_id));
    p.command("DOM.focus")
}

/// The `DOM.setNodeValue` command.
pub fn set_node_value(node_id: NodeId, value: &str) -> (c: Command)
    ensures
        c.method@ == "DOM.setNodeValue"@,
        c.params@ == object(int_m("nodeId"@, node_id as int) + str_m("value"@, value@)),
{
    let mut p = Params::new();
    p.integer("nodeId", node_id);
    p.text("value", value);
    assert(p.members() =~= int_m("nodeId"@, node_id as int) + str_m("value"@, value@));
    p.command("DOM.setNodeValue")
}

/// The `DOM.getNodeForLocation` command. Each optional parameter is sent only
/// when given.
pub fn get_node_for_location(
    x: i32,
    y: i32,
    include_user_agent_shadow_dom: Option<bool>,
    ignore_pointer_events_none: Option<bool>,
) -> (c: Command)
    ensures
        c.method@ == "DOM.getNodeForLocation"@,
        c.params@ == object(opt_bool_m("ignorePointerEventsNone"@, ignore_pointer_events_none)
            + opt_bool_m("includeUserAgentShadowDOM"@, include_user_agent_shadow_dom)
            + int_m("x"@, x as int) + int_m("y"@, y as int)),
{
    let mut p = Params::new();
    p.opt_flag("ignorePointerEventsNone", ignore_pointer_events_none);
    p.opt_flag("includeUserAgentShadowDOM", include_user_agent_shadow_dom);
    p.integer("x", x as i64);
    p.integer("y", y as i64);
    assert(p.members() =~= opt_bool_m("ignorePointerEventsNone"@, ignore_pointer_events_none)
        + opt_bool_m("includeUserAgentShadowDOM"@, include_user_agent_shadow_dom)
        + int_m("x"@, x as int) + int_m("y"@, y as int));
    p.command("DOM.getNodeForLocation")
}

/// The `DOM.performSearch` command. Its optional parameter is sent only when
/// given.
pub fn perform_search(query: &str, include_user_agent_shadow_dom: Option<bool>) -> (c: Command)
    ensures
        c.method@ == "DOM.performSearch"@,
        c.params@ == object(opt_bool_m("includeUserAgentShadowDOM"@, include_user_agent_shadow_dom)
            + str_m("query"@, query@)),
{
    let mut p = Params::new();
    p.opt_flag("includeUserAgentShadowDOM", include_user_agent_shadow_dom);
    p.text("query", query);
    assert(p.members() =~= opt_bool_m("includeUserAgentShadowDOM"@, include_user_agent_shadow_dom)
        + str_m("query"@, query@));
    p.command("DOM.performSearch")
}

/// The `DOM.getSearchResults` command.
pub fn get_search_results(search_id: &str, from_index: i32, to_index: i32) -> (c: Command)
    ensures
        c.method@ == "DOM.getSearchResults"@,
        c.params@ == object(int_m("fromIndex"@, from_index as int)
            + str_m("searchId"@, search_id@)
            + int_m("toIndex"@, to_index as int)),
{
    let mut p = Params::new();
    p.integer("fromIndex", from_index as i64);
    p.text("searchId", search_id);
    p.integer("toIndex", to_index as i64);
    assert(p.members() =~= int_m("fromIndex"@, from_index as int)
        + str_m("searchId"@, search_id@) + int_m("toIndex"@, to_index as int));
    p.command("DOM.getSearchResults")
}

/// The `DOM.discardSearchResults` command.
pub fn discard_search_results(search_id: &str) -> (c: Command)
    ensures
        c.method@ == "DOM.discardSearchResults"@,
        c.params@ == object(str_m("searchId"@, search_id@)),
{
    let mut p = Params::new();
    p.text("searchId", search_id);
    assert(p.members() =~= str_m("searchId"@, search_id@));
    p.command("DOM.discardSearchResults")
}

/// The `DOM.moveTo` command. Its optional parameter is sent only when given.
pub fn move_to(
    node_id: NodeId,
    target_node_id: NodeId,
    insert_before_node_id: Option<NodeId>,
) -> (c: Command)
    ensures
        c.method@ == "DOM.moveTo"@,
        c.params@ == object(opt_i64_m("insertBeforeNodeId"@, insert_before_node_id)
            + int_m("nodeId"@, node_id as int)
            + int_m("targetNodeId"@, target_node_id as int)),
{
    let mut p = Params::new();
    p.opt_i64("insertBeforeNodeId", insert_before_node_id);
    p.integer("nodeId", node_id);
    p.integer("targetNodeId", target_node_id);
    assert(p.members() =~= opt_i64_m("insertBeforeNodeId"@, insert_before_node_id)
        + int_m("nodeId"@, node_id as int)
        + int_m("targetNodeId"@, target_node_id as int));
    p.command("DOM.moveTo")
}

/// A node of the DOM, as `DOM.getDocument` and the node events give it.
#[derive(Debug)]
pub struct Node {
    pub node_id: NodeId,
    pub parent_id: Option<NodeId>,
    pub backend_node_id: BackendNodeId,
    pub node_type: i32,
    pub node_name: String,
    pub local_name: String,
    pub node_value: String,
    pub child_node_count: Option<i32>,
    pub children: Option<Vec<Node>>,
    pub attributes: Option<Vec<String>>,
    pub document_url: Option<String>,
    pub base_url: Option<String>,
    pub content_document: Option<Box<Node>>,
    pub shadow_roots: Option<Vec<Node>>,
    pub frame_id: Option<String>,
}

} // verus!
