//! The `ServiceWorker` domain: registrations and their workers.
use vstd::prelude::*;
use crate::json::{JsonValue, JsonView, json_view, member_str, member_bool, member_i64, member_i32, opt_str_field,
    opt_bool_field, opt_view, json_str, json_bool, json_i64, json_i32, json_opt_str, json_opt_bool};
use crate::cdp::{Command, Params, object, bool_m, str_m};

verus! {

/// A service worker's registration.
#[derive(Debug, Clone)]
pub struct ServiceWorkerRegistration {
    pub registration_id: String,
    pub scope_url: String,
    pub is_deleted: bool,
}

/// A reply holds a `ServiceWorkerRegistration`: each member it needs, of the right type.
pub open spec fn service_worker_registration_readable(v: JsonView) -> bool {
    &&& member_str(v, "registrationId"@) is Some
    &&& member_str(v, "scopeURL"@) is Some
    &&& member_bool(v, "isDeleted"@) is Some
}

/// What a `ServiceWorkerRegistration` read from a reply holds: its members.
pub open spec fn service_worker_registration_read(x: ServiceWorkerRegistration, v: JsonView) -> bool {
    &&& Some(x.registration_id@) == member_str(v, "registrationId"@)
    &&& Some(x.scope_url@) == member_str(v, "scopeURL"@)
    &&& Some(x.is_deleted) == member_bool(v, "isDeleted"@)
}

impl ServiceWorkerRegistration {
    /// Reads a `ServiceWorkerRegistration` from a reply; none when it lacks a member it needs
    /// or a member is of another type.
    pub fn from_json(v: &JsonValue) -> (r: Option<ServiceWorkerRegistration>)
        ensures
            r is Some <==> service_worker_registration_readable(json_view(*v)),
            r matches Some(x) ==> service_worker_registration_read(x, json_view(*v)),
    {
        let registration_id = match json_str(v, "registrationId") {
            Some(x) => x,
            None => return None,
        };
        let scope_url = match json_str(v, "scopeURL") {
            Some(x) => x,
            None => return None,
        };
        let is_deleted = match json_bool(v, "isDeleted") {
            Some(x) => x,
            None => return None,
        };
        Some(ServiceWorkerRegistration { registration_id, scope_url, is_deleted })
    }
}

/// An error a service worker reported.
#[derive(Debug, Clone)]
pub struct ServiceWorkerErrorMessage {
    pub error_message: String,
    pub registration_id: String,
    pub version_id: String,
    pub source_url: String,
    pub line_number: i32,
    pub column_number: i32,
}

/// A reply holds a `ServiceWorkerErrorMessage`: each member it needs, of the right type.
pub open spec fn service_worker_error_message_readable(v: JsonView) -> bool {
    &&& member_str(v, "errorMessage"@) is Some
    &&& member_str(v, "registrationId"@) is Some
    &&& member_str(v, "versionId"@) is Some
    &&& member_str(v, "sourceURL"@) is Some
    &&& member_i32(v, "lineNumber"@) is Some
    &&& member_i32(v, "columnNumber"@) is Some
}

/// What a `ServiceWorkerErrorMessage` read from a reply holds: its members.
pub open spec fn service_worker_error_message_read(x: ServiceWorkerErrorMessage, v: JsonView) -> bool {
    &&& Some(x.error_message@) == member_str(v, "errorMessage"@)
    &&& Some(x.registration_id@) == member_str(v, "registrationId"@)
    &&& Some(x.version_id@) == member_str(v, "versionId"@)
    &&& Some(x.source_url@) == member_str(v, "sourceURL"@)
    &&& Some(x.line_number) == member_i32(v, "lineNumber"@)
    &&& Some(x.column_number) == member_i32(v, "columnNumber"@)
}

impl ServiceWorkerErrorMessage {
    /// Reads a `ServiceWorkerErrorMessage` from a reply; none when it lacks a member it needs
    /// or a member is of another type.
    pub fn from_json(v: &JsonValue) -> (r: Option<ServiceWorkerErrorMessage>)
        ensures
            r is Some <==> service_worker_error_message_readable(json_view(*v)),
            r matches Some(x) ==> service_worker_error_message_read(x, json_view(*v)),
    {
        let error_message = match json_str(v, "errorMessage") {
            Some(x) => x,
            None => return None,
        };
        let registration_id = match json_str(v, "registrationId") {
            Some(x) => x,
            None => return None,
        };
        let version_id = match json_str(v, "versionId") {
            Some(x) => x,
            None => return None,
        };
        let source_url = match json_str(v, "sourceURL") {
            Some(x) => x,
            None => return None,
        };
        let line_number = match json_i32(v, "lineNumber") {
            Some(x) => x,
            None => return None,
        };
        let column_number = match json_i32(v, "columnNumber") {
            Some(x) => x,
            None => return None,
        };
        Some(ServiceWorkerErrorMessage { error_message, registration_id, version_id, source_url, line_number, column_number })
    }
}


/// The `ServiceWorker.enable` command.
pub fn enable() -> (c: Command)
    ensures
        c.method@ == "ServiceWorker.enable"@,
        c.params@ == object(Seq::empty()),
{
    let p = Params::new();
    p.command("ServiceWorker.enable")
}

/// The `ServiceWorker.disable` command.
pub fn disable() -> (c: Command)
    ensures
        c.method@ == "ServiceWorker.disable"@,
        c.params@ == object(Seq::empty()),
{
    let p = Params::new();
    p.command("ServiceWorker.disable")
}

/// The `ServiceWorker.startWorker` command.
pub fn start_worker(scope_url: &str) -> (c: Command)
    ensures
        c.method@ == "ServiceWorker.startWorker"@,
        c.params@ == object(str_m("scopeURL"@, scope_url@)),
{
    let mut p = Params::new();
    p.text("scopeURL", scope_url);
    assert(p.members() =~= str_m("scopeURL"@, scope_url@));
    p.command("ServiceWorker.startWorker")
}

/// The `ServiceWorker.stopWorker` command.
pub fn stop_worker(version_id: &str) -> (c: Command)
    ensures
        c.method@ == "ServiceWorker.stopWorker"@,
        c.params@ == object(str_m("versionId"@, version_id@)),
{
    let mut p = Params::new();
    p.text("versionId", version_id);
    assert(p.members() =~= str_m("versionId"@, version_id@));
    p.command("ServiceWorker.stopWorker")
}

/// The `ServiceWorker.stopAllWorkers` command.
pub fn stop_all_workers() -> (c: Command)
    ensures
        c.method@ == "ServiceWorker.stopAllWorkers"@,
        c.params@ == object(Seq::empty()),
{
    let p = Params::new();
    p.command("ServiceWorker.stopAllWorkers")
}

/// The `ServiceWorker.unregister` command.
pub fn unregister(scope_url: &str) -> (c: Command)
    ensures
        c.method@ == "ServiceWorker.unregister"@,
        c.params@ == object(str_m("scopeURL"@, scope_url@)),
{
    let mut p = Params::new();
    p.text("scopeURL", scope_url);
    assert(p.members() =~= str_m("scopeURL"@, scope_url@));
    p.command("ServiceWorker.unregister")
}

/// The `ServiceWorker.updateRegistration` command.
pub fn update_registration(scope_url: &str) -> (c: Command)
    ensures
        c.method@ == "ServiceWorker.updateRegistration"@,
        c.params@ == object(str_m("scopeURL"@, scope_url@)),
{
    let mut p = Params::new();
    p.text("scopeURL", scope_url);
    assert(p.members() =~= str_m("scopeURL"@, scope_url@));
    p.command("ServiceWorker.updateRegistration")
}

/// The `ServiceWorker.skipWaiting` command.
pub fn skip_waiting(scope_url: &str) -> (c: Command)
    ensures
        c.method@ == "ServiceWorker.skipWaiting"@,
        c.params@ == object(str_m("scopeURL"@, scope_url@)),
{
    let mut p = Params::new();
    p.text("scopeURL", scope_url);
    assert(p.members() =~= str_m("scopeURL"@, scope_url@));
    p.command("ServiceWorker.skipWaiting")
}

/// The `ServiceWorker.setForceUpdateOnPageLoad` command.
pub fn set_force_update_on_page_load(force_update: bool) -> (c: Command)
    ensures
        c.method@ == "ServiceWorker.setForceUpdateOnPageLoad"@,
        c.params@ == object(bool_m("forceUpdateOnPageLoad"@, force_update)),
{
    let mut p = Params::new();
    p.flag("forceUpdateOnPageLoad", force_update);
    assert(p.members() =~= bool_m("forceUpdateOnPageLoad"@, force_update));
    p.command("ServiceWorker.setForceUpdateOnPageLoad")
}

/// The `ServiceWorker.deliverPushMessage` command.
pub fn deliver_push_message(origin: &str, registration_id: &str, data: &str) -> (c: Command)
    ensures
        c.method@ == "ServiceWorker.deliverPushMessage"@,
        c.params@ == object(str_m("data"@, data@) + str_m("origin"@, origin@)
            + str_m("registrationId"@, registration_id@)),
{
    let mut p = Params::new();
    p.text("data", data);
    p.text("origin", origin);
    p.text("registrationId", registration_id);
    assert(p.members() =~= str_m("data"@, data@) + str_m("origin"@, origin@)
        + str_m("registrationId"@, registration_id@));
    p.command("ServiceWorker.deliverPushMessage")
}

/// The `ServiceWorker.dispatchSyncEvent` command.
pub fn dispatch_sync_event(
    origin: &str,
    registration_id: &str,
    tag: &str,
    last_chance: bool,
) -> (c: Command)
    ensures
        c.method@ == "ServiceWorker.dispatchSyncEvent"@,
        c.params@ == object(bool_m("lastChance"@, last_chance) + str_m("origin"@, origin@)
            + str_m("registrationId"@, registration_id@) + str_m("tag"@, tag@)),
{
    let mut p = Params::new();
    p.flag("lastChance", last_chance);
    p.text("origin", origin);
    p.text("registrationId", registration_id);
    p.text("tag", tag);
    assert(p.members() =~= bool_m("lastChance"@, last_chance) + str_m("origin"@, origin@)
        + str_m("registrationId"@, registration_id@) + str_m("tag"@, tag@));
    p.command("ServiceWorker.dispatchSyncEvent")
}

/// The `ServiceWorker.dispatchPeriodicSyncEvent` command.
pub fn dispatch_periodic_sync_event(origin: &str, registration_id: &str, tag: &str) -> (c: Command)
    ensures
        c.method@ == "ServiceWorker.dispatchPeriodicSyncEvent"@,
        c.params@ == object(str_m("origin"@, origin@)
            + str_m("registrationId"@, registration_id@) + str_m("tag"@, tag@)),
{
    let mut p = Params::new();
    p.text("origin", origin);
    p.text("registrationId", registration_id);
    p.text("tag", tag);
    assert(p.members() =~= str_m("origin"@, origin@)
        + str_m("registrationId"@, registration_id@) + str_m("tag"@, tag@));
    p.command("ServiceWorker.dispatchPeriodicSyncEvent")
}

} // verus!
