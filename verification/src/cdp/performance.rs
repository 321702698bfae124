//! The `Performance` domain: run-time metrics.
use vstd::prelude::*;
use crate::cdp::{Command, Params, object, str_m, opt_str_m};

verus! {

/// The `Performance.enable` command. Its optional parameter is sent only when
/// given.
pub fn enable(time_domain: Option<&str>) -> (c: Command)
    ensures
        c.method@ == "Performance.enable"@,
        c.params@ == object(opt_str_m("timeDomain"@, time_domain)),
{
    let mut p = Params::new();
    p.opt_text("timeDomain", time_domain);
    assert(p.members() =~= opt_str_m("timeDomain"@, time_domain));
    p.command("Performance.enable")
}

/// The `Performance.disable` command.
pub fn disable() -> (c: Command)
    ensures
        c.method@ == "Performance.disable"@,
        c.params@ == object(Seq::empty()),
{
    let p = Params::new();
    p.command("Performance.disable")
}

/// The `Performance.getMetrics` command.
pub fn get_metrics() -> (c: Command)
    ensures
        c.method@ == "Performance.getMetrics"@,
        c.params@ == object(Seq::empty()),
{
    let p = Params::new();
    p.command("Performance.getMetrics")
}

/// The `Performance.setTimeDomain` command.
pub fn set_time_domain(time_domain: &str) -> (c: Command)
    ensures
        c.method@ == "Performance.setTimeDomain"@,
        c.params@ == object(str_m("timeDomain"@, time_domain@)),
{
    let mut p = Params::new();
    p.text("timeDomain", time_domain);
    assert(p.members() =~= str_m("timeDomain"@, time_domain@));
    p.command("Performance.setTimeDomain")
}

} // verus!
