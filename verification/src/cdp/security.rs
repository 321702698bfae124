//! The `Security` domain: certificate errors and their handling.
use vstd::prelude::*;
use crate::json::{JsonValue, JsonView, json_view, member_str, member_bool, member_i64, member_i32, opt_str_field,
    opt_bool_field, opt_view, json_str, json_bool, json_i64, json_i32, json_opt_str, json_opt_bool};
use crate::cdp::{Command, Params, object, int_m, bool_m, str_m};

verus! {

/// The event of a certificate error.
#[derive(Debug, Clone)]
pub struct CertificateErrorEvent {
    pub event_id: i64,
    pub error_type: String,
    pub request_url: String,
}

/// A reply holds a `CertificateErrorEvent`: each member it needs, of the right type.
pub open spec fn certificate_error_event_readable(v: JsonView) -> bool {
    &&& member_i64(v, "eventId"@) is Some
    &&& member_str(v, "errorType"@) is Some
    &&& member_str(v, "requestURL"@) is Some
}

/// What a `CertificateErrorEvent` read from a reply holds: its members.
pub open spec fn certificate_error_event_read(x: CertificateErrorEvent, v: JsonView) -> bool {
    &&& Some(x.event_id) == member_i64(v, "eventId"@)
    &&& Some(x.error_type@) == member_str(v, "errorType"@)
    &&& Some(x.request_url@) == member_str(v, "requestURL"@)
}

impl CertificateErrorEvent {
    /// Reads a `CertificateErrorEvent` from a reply; none when it lacks a member it needs
    /// or a member is of another type.
    pub fn from_json(v: &JsonValue) -> (r: Option<CertificateErrorEvent>)
        ensures
            r is Some <==> certificate_error_event_readable(json_view(*v)),
            r matches Some(x) ==> certificate_error_event_read(x, json_view(*v)),
    {
        let event_id = match json_i64(v, "eventId") {
            Some(x) => x,
            None => return None,
        };
        let error_type = match json_str(v, "errorType") {
            Some(x) => x,
            None => return None,
        };
        let request_url = match json_str(v, "requestURL") {
            Some(x) => x,
            None => return None,
        };
        Some(CertificateErrorEvent { event_id, error_type, request_url })
    }
}


/// The `Security.enable` command.
pub fn enable() -> (c: Command)
    ensures
        c.method@ == "Security.enable"@,
        c.params@ == object(Seq::empty()),
{
    let p = Params::new();
    p.command("Security.enable")
}

/// The `Security.disable` command.
pub fn disable() -> (c: Command)
    ensures
        c.method@ == "Security.disable"@,
        c.params@ == object(Seq::empty()),
{
    let p = Params::new();
    p.command("Security.disable")
}

/// The `Security.setIgnoreCertificateErrors` command.
pub fn set_ignore_certificate_errors(ignore: bool) -> (c: Command)
    ensures
        c.method@ == "Security.setIgnoreCertificateErrors"@,
        c.params@ == object(bool_m("ignore"@, ignore)),
{
    let mut p = Params::new();
    p.flag("ignore", ignore);
    assert(p.members() =~= bool_m("ignore"@, ignore));
    p.command("Security.setIgnoreCertificateErrors")
}

/// The `Security.handleCertificateError` command.
pub fn handle_certificate_error(event_id: i64, action: &str) -> (c: Command)
    ensures
        c.method@ == "Security.handleCertificateError"@,
        c.params@ == object(str_m("action"@, action@) + int_m("eventId"@, event_id as int)),
{
    let mut p = Params::new();
    p.text("action", action);
    p.integer("eventId", event_id);
    assert(p.members() =~= str_m("action"@, action@) + int_m("eventId"@, event_id as int));
    p.command("Security.handleCertificateError")
}

/// The `Security.setOverrideCertificateErrors` command.
pub fn set_override_certificate_errors(override_: bool) -> (c: Command)
    ensures
        c.method@ == "Security.setOverrideCertificateErrors"@,
        c.params@ == object(bool_m("override"@, override_)),
{
    let mut p = Params::new();
    p.flag("override", override_);
    assert(p.members() =~= bool_m("override"@, override_));
    p.command("Security.setOverrideCertificateErrors")
}

/// An explanation of a page's security state.
#[derive(Debug, Clone)]
pub struct SecurityStateExplanation {
    pub security_state: String,
    pub title: String,
    pub summary: String,
    pub description: String,
    pub mixed_content_type: Option<String>,
    pub certificate: Option<Vec<String>>,
}

} // verus!
