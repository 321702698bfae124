//! The `CSS` domain: computed and matched styles, style sheets and rules.
use vstd::prelude::*;
use crate::json::{JsonValue, JsonView, json_view, member_str, member_bool, member_i64, member_i32, opt_str_field,
    opt_bool_field, opt_view, json_str, json_bool, json_i64, json_i32, json_opt_str, json_opt_bool};
use crate::cdp::{Command, Params, object, int_m, str_m, raw_m, strs_m, raws_m, str_views};

verus! {

/// A range of a style sheet's text.
#[derive(Debug, Clone)]
pub struct SourceRange {
    pub start_line: i32,
    pub start_column: i32,
    pub end_line: i32,
    pub end_column: i32,
}

/// A reply holds a `SourceRange`: each member it needs, of the right type.
pub open spec fn source_range_readable(v: JsonView) -> bool {
    &&& member_i32(v, "startLine"@) is Some
    &&& member_i32(v, "startColumn"@) is Some
    &&& member_i32(v, "endLine"@) is Some
    &&& member_i32(v, "endColumn"@) is Some
}

/// What a `SourceRange` read from a reply holds: its members.
pub open spec fn source_range_read(x: SourceRange, v: JsonView) -> bool {
    &&& Some(x.start_line) == member_i32(v, "startLine"@)
    &&& Some(x.start_column) == member_i32(v, "startColumn"@)
    &&& Some(x.end_line) == member_i32(v, "endLine"@)
    &&& Some(x.end_column) == member_i32(v, "endColumn"@)
}

impl SourceRange {
    /// Reads a `SourceRange` from a reply; none when it lacks a member it needs
    /// or a member is of another type.
    pub fn from_json(v: &JsonValue) -> (r: Option<SourceRange>)
        ensures
            r is Some <==> source_range_readable(json_view(*v)),
            r matches Some(x) ==> source_range_read(x, json_view(*v)),
    {
        let start_line = match json_i32(v, "startLine") {
            Some(x) => x,
            None => return None,
        };
        let start_column = match json_i32(v, "startColumn") {
            Some(x) => x,
            None => return None,
        };
        let end_line = match json_i32(v, "endLine") {
            Some(x) => x,
            None => return None,
        };
        let end_column = match json_i32(v, "endColumn") {
            Some(x) => x,
            None => return None,
        };
        Some(SourceRange { start_line, start_column, end_line, end_column })
    }
}

/// A computed style property.
#[derive(Debug, Clone)]
pub struct CSSComputedStyleProperty {
    pub name: String,
    pub value: String,
}

/// A reply holds a `CSSComputedStyleProperty`: each member it needs, of the right type.
pub open spec fn computed_style_property_readable(v: JsonView) -> bool {
    &&& member_str(v, "name"@) is Some
    &&& member_str(v, "value"@) is Some
}

/// What a `CSSComputedStyleProperty` read from a reply holds: its members.
pub open spec fn computed_style_property_read(x: CSSComputedStyleProperty, v: JsonView) -> bool {
    &&& Some(x.name@) == member_str(v, "name"@)
    &&& Some(x.value@) == member_str(v, "value"@)
}

impl CSSComputedStyleProperty {
    /// Reads a `CSSComputedStyleProperty` from a reply; none when it lacks a member it needs
    /// or a member is of another type.
    pub fn from_json(v: &JsonValue) -> (r: Option<CSSComputedStyleProperty>)
        ensures
            r is Some <==> computed_style_property_readable(json_view(*v)),
            r matches Some(x) ==> computed_style_property_read(x, json_view(*v)),
    {
        let name = match json_str(v, "name") {
            Some(x) => x,
            None => return None,
        };
        let value = match json_str(v, "value") {
            Some(x) => x,
            None => return None,
        };
        Some(CSSComputedStyleProperty { name, value })
    }
}

/// A shorthand property of a style.
#[derive(Debug, Clone)]
pub struct ShorthandEntry {
    pub name: String,
    pub value: String,
    pub important: Option<bool>,
}

/// A reply holds a `ShorthandEntry`: each member it needs, of the right type.
pub open spec fn shorthand_entry_readable(v: JsonView) -> bool {
    &&& member_str(v, "name"@) is Some
    &&& member_str(v, "value"@) is Some
    &&& opt_bool_field(v, "important"@) is Some
}

/// What a `ShorthandEntry` read from a reply holds: its members.
pub open spec fn shorthand_entry_read(x: ShorthandEntry, v: JsonView) -> bool {
    &&& Some(x.name@) == member_str(v, "name"@)
    &&& Some(x.value@) == member_str(v, "value"@)
    &&& opt_bool_field(v, "important"@) == Some(x.important)
}

impl ShorthandEntry {
    /// Reads a `ShorthandEntry` from a reply; none when it lacks a member it needs
    /// or a member is of another type.
    pub fn from_json(v: &JsonValue) -> (r: Option<ShorthandEntry>)
        ensures
            r is Some <==> shorthand_entry_readable(json_view(*v)),
            r matches Some(x) ==> shorthand_entry_read(x, json_view(*v)),
    {
        let name = match json_str(v, "name") {
            Some(x) => x,
            None => return None,
        };
        let value = match json_str(v, "value") {
            Some(x) => x,
            None => return None,
        };
        let important = match json_opt_bool(v, "important") {
            Some(x) => x,
            None => return None,
        };
        Some(ShorthandEntry { name, value, important })
    }
}


/// The `CSS.enable` command.
pub fn enable() -> (c: Command)
    ensures
        c.method@ == "CSS.enable"@,
        c.params@ == object(Seq::empty()),
{
    let p = Params::new();
    p.command("CSS.enable")
}

/// The `CSS.disable` command.
pub fn disable() -> (c: Command)
    ensures
        c.method@ == "CSS.disable"@,
        c.params@ == object(Seq::empty()),
{
    let p = Params::new();
    p.command("CSS.disable")
}

/// The `CSS.getComputedStyleForNode` command.
pub fn get_computed_style_for_node(node_id: i64) -> (c: Command)
    ensures
        c.method@ == "CSS.getComputedStyleForNode"@,
        c.params@ == object(int_m("nodeId"@, node_id as int)),
{
    let mut p = Params::new();
    p.integer("nodeId", node_id);
    assert(p.members() =~= int_m("nodeId"@, node_id as int));
    p.command("CSS.getComputedStyleForNode")
}

/// The `CSS.getMatchedStylesForNode` command.
pub fn get_matched_styles_for_node(node_id: i64) -> (c: Command)
    ensures
        c.method@ == "CSS.getMatchedStylesForNode"@,
        c.params@ == object(int_m("nodeId"@, node_id as int)),
{
    let mut p = Params::new();
    p.integer("nodeId", node_id);
    assert(p.members() =~= int_m("nodeId"@, node_id as int));
    p.command("CSS.getMatchedStylesForNode")
}

/// The `CSS.getInlineStylesForNode` command.
pub fn get_inline_styles_for_node(node_id: i64) -> (c: Command)
    ensures
        c.method@ == "CSS.getInlineStylesForNode"@,
        c.params@ == object(int_m("nodeId"@, node_id as int)),
{
    let mut p = Params::new();
    p.integer("nodeId", node_id);
    assert(p.members() =~= int_m("nodeId"@, node_id as int));
    p.command("CSS.getInlineStylesForNode")
}

/// The `CSS.forcePseudoState` command.
pub fn force_pseudo_state(node_id: i64, forced_pseudo_classes: &[&str]) -> (c: Command)
    ensures
        c.method@ == "CSS.forcePseudoState"@,
        c.params@ == object(strs_m("forcedPseudoClasses"@, str_views(forced_pseudo_classes@))
            + int_m("nodeId"@, node_id as int)),
{
    let mut p = Params::new();
    p.texts("forcedPseudoClasses", forced_pseudo_classes);
    p.integer("nodeId", node_id);
    assert(p.members() =~= strs_m("forcedPseudoClasses"@, str_views(forced_pseudo_classes@))
        + int_m("nodeId"@, node_id as int));
    p.command("CSS.forcePseudoState")
}

/// The `CSS.setStyleTexts` command.
pub fn set_style_texts(edits: &[&str]) -> (c: Command)
    ensures
        c.method@ == "CSS.setStyleTexts"@,
        c.params@ == object(raws_m("edits"@, str_views(edits@))),
{
    let mut p = Params::new();
    p.raws("edits", edits);
    assert(p.members() =~= raws_m("edits"@, str_views(edits@)));
    p.command("CSS.setStyleTexts")
}

/// The `CSS.addRule` command.
pub fn add_rule(style_sheet_id: &str, rule_text: &str, location: &str) -> (c: Command)
    ensures
        c.method@ == "CSS.addRule"@,
        c.params@ == object(raw_m("location"@, location@) + str_m("ruleText"@, rule_text@)
            + str_m("styleSheetId"@, style_sheet_id@)),
{
    let mut p = Params::new();
    p.raw("location", location);
    p.text("ruleText", rule_text);
    p.text("styleSheetId", style_sheet_id);
    assert(p.members() =~= raw_m("location"@, location@) + str_m("ruleText"@, rule_text@)
        + str_m("styleSheetId"@, style_sheet_id@));
    p.command("CSS.addRule")
}

/// The `CSS.getPlatformFontsForNode` command.
pub fn get_platform_fonts_for_node(node_id: i64) -> (c: Command)
    ensures
        c.method@ == "CSS.getPlatformFontsForNode"@,
        c.params@ == object(int_m("nodeId"@, node_id as int)),
{
    let mut p = Params::new();
    p.integer("nodeId", node_id);
    assert(p.members() =~= int_m("nodeId"@, node_id as int));
    p.command("CSS.getPlatformFontsForNode")
}

/// The `CSS.getBackgroundColors` command.
pub fn get_background_colors(node_id: i64) -> (c: Command)
    ensures
        c.method@ == "CSS.getBackgroundColors"@,
        c.params@ == object(int_m("nodeId"@, node_id as int)),
{
    let mut p = Params::new();
    p.integer("nodeId", node_id);
    assert(p.members() =~= int_m("nodeId"@, node_id as int));
    p.command("CSS.getBackgroundColors")
}

/// The `CSS.createStyleSheet` command.
pub fn create_style_sheet(frame_id: &str) -> (c: Command)
    ensures
        c.method@ == "CSS.createStyleSheet"@,
        c.params@ == object(str_m("frameId"@, frame_id@)),
{
    let mut p = Params::new();
    p.text("frameId", frame_id);
    assert(p.members() =~= str_m("frameId"@, frame_id@));
    p.command("CSS.createStyleSheet")
}

/// The `CSS.setEffectivePropertyValueForNode` command.
pub fn set_effective_property_value_for_node(
    node_id: i64,
    property_name: &str,
    value: &str,
) -> (c: Command)
    ensures
        c.method@ == "CSS.setEffectivePropertyValueForNode"@,
        c.params@ == object(int_m("nodeId"@, node_id as int)
            + str_m("propertyName"@, property_name@) + str_m("value"@, value@)),
{
    let mut p = Params::new();
    p.integer("nodeId", node_id);
    p.text("propertyName", property_name);
    p.text("value", value);
    assert(p.members() =~= int_m("nodeId"@, node_id as int)
        + str_m("propertyName"@, property_name@) + str_m("value"@, value@));
    p.command("CSS.setEffectivePropertyValueForNode")
}

/// A style: its properties and shorthands, and where it comes from.
#[derive(Debug, Clone)]
pub struct CSSStyle {
    pub css_properties: Vec<CSSProperty>,
    pub shorthand_entries: Vec<ShorthandEntry>,
    pub style_sheet_id: Option<String>,
    pub css_text: Option<String>,
    pub range: Option<SourceRange>,
}

/// A property of a style.
#[derive(Debug, Clone)]
pub struct CSSProperty {
    pub name: String,
    pub value: String,
    pub important: Option<bool>,
    pub implicit: Option<bool>,
    pub text: Option<String>,
    pub disabled: Option<bool>,
    pub range: Option<SourceRange>,
}

} // verus!
