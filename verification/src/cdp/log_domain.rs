//! The `Log` domain: browser log entries and violation reports.
use vstd::prelude::*;
use crate::cdp::{Command, Params, objs_m, object, str_m, raw_m};

verus! {

/// A kind of violation to report and its threshold, as a JSON number.
#[derive(Debug, Clone)]
pub struct ViolationSetting {
    pub name: String,
    pub threshold: String,
}

/// The members of a `ViolationSetting`: those it has, in name order.
pub open spec fn violation_setting_members(v: ViolationSetting) -> Seq<Seq<char>> {
    str_m("name"@, v.name@) + raw_m("threshold"@, v.threshold@)
}

fn violation_setting_params(v: &ViolationSetting) -> (p: Params)
    ensures
        p.members() == violation_setting_members(*v),
{
    let mut p = Params::new();
    p.text("name", v.name.as_str());
    p.raw("threshold", v.threshold.as_str());
    assert(p.members() =~= violation_setting_members(*v));
    p
}

fn violation_setting_list(items: &Vec<ViolationSetting>) -> (r: Vec<Params>)
    ensures
        r@.map_values(|p: Params| p.members()) == items@.map_values(|v: ViolationSetting| violation_setting_members(v)),
{
    let mut r: Vec<Params> = Vec::new();
    let mut i: usize = 0;
    while i < items.len()
        invariant
            i <= items@.len(),
            r@.len() == i,
            forall|j: int| 0 <= j < i ==> #[trigger] r@[j].members() == violation_setting_members(items@[j]),
        decreases items@.len() - i,
    {
        r.push(violation_setting_params(&items[i]));
        i = i + 1;
    }
    assert(r@.map_values(|p: Params| p.members()) =~= items@.map_values(|v: ViolationSetting| violation_setting_members(v)));
    r
}

/// The `Log.startViolationsReport` command: report the given violations.
pub fn start_violations_report(config: &Vec<ViolationSetting>) -> (c: Command)
    ensures
        c.method@ == "Log.startViolationsReport"@,
        c.params@ == object(objs_m("config"@, config@.map_values(|x: ViolationSetting| violation_setting_members(x)))),
{
    let mut p = Params::new();
    p.nested_list("config", violation_setting_list(config));
    assert(p.members() =~= objs_m("config"@, config@.map_values(|x: ViolationSetting| violation_setting_members(x))));
    p.command("Log.startViolationsReport")
}

/// The `Log.enable` command.
pub fn enable() -> (c: Command)
    ensures
        c.method@ == "Log.enable"@,
        c.params@ == object(Seq::empty()),
{
    let p = Params::new();
    p.command("Log.enable")
}

/// The `Log.disable` command.
pub fn disable() -> (c: Command)
    ensures
        c.method@ == "Log.disable"@,
        c.params@ == object(Seq::empty()),
{
    let p = Params::new();
    p.command("Log.disable")
}

/// The `Log.clear` command.
pub fn clear() -> (c: Command)
    ensures
        c.method@ == "Log.clear"@,
        c.params@ == object(Seq::empty()),
{
    let p = Params::new();
    p.command("Log.clear")
}

/// The `Log.stopViolationsReport` command.
pub fn stop_violations_report() -> (c: Command)
    ensures
        c.method@ == "Log.stopViolationsReport"@,
        c.params@ == object(Seq::empty()),
{
    let p = Params::new();
    p.command("Log.stopViolationsReport")
}

} // verus!
