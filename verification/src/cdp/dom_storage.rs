//! The `DOMStorage` domain: the local and session storage of an origin.
use vstd::prelude::*;
use crate::cdp::{Command, Params, opt_string_m, obj_m, object, bool_m, str_m};

verus! {

/// The storage of an origin: its local or its session storage.
#[derive(Debug, Clone)]
pub struct StorageId {
    pub security_origin: Option<String>,
    pub storage_key: Option<String>,
    pub is_local_storage: bool,
}

/// The members of a `StorageId`: those it has, in name order.
pub open spec fn storage_id_members(v: StorageId) -> Seq<Seq<char>> {
    bool_m("isLocalStorage"@, v.is_local_storage)
        + opt_string_m("securityOrigin"@, v.security_origin)
        + opt_string_m("storageKey"@, v.storage_key)
}

fn storage_id_params(v: &StorageId) -> (p: Params)
    ensures
        p.members() == storage_id_members(*v),
{
    let mut p = Params::new();
    p.flag("isLocalStorage", v.is_local_storage);
    p.opt_string("securityOrigin", &v.security_origin);
    p.opt_string("storageKey", &v.storage_key);
    assert(p.members() =~= storage_id_members(*v));
    p
}

/// The `DOMStorage.getDOMStorageItems` command: the items of a storage.
pub fn get_dom_storage_items(storage_id: &StorageId) -> (c: Command)
    ensures
        c.method@ == "DOMStorage.getDOMStorageItems"@,
        c.params@ == object(obj_m("storageId"@, storage_id_members(*storage_id))),
{
    let mut p = Params::new();
    p.nested("storageId", storage_id_params(storage_id));
    assert(p.members() =~= obj_m("storageId"@, storage_id_members(*storage_id)));
    p.command("DOMStorage.getDOMStorageItems")
}

/// The `DOMStorage.setDOMStorageItem` command: store a value under a key.
pub fn set_dom_storage_item(storage_id: &StorageId, key: &str, value: &str) -> (c: Command)
    ensures
        c.method@ == "DOMStorage.setDOMStorageItem"@,
        c.params@ == object(str_m("key"@, key@) + obj_m("storageId"@, storage_id_members(*storage_id))
            + str_m("value"@, value@)),
{
    let mut p = Params::new();
    p.text("key", key);
    p.nested("storageId", storage_id_params(storage_id));
    p.text("value", value);
    assert(p.members() =~= str_m("key"@, key@) + obj_m("storageId"@, storage_id_members(*storage_id))
        + str_m("value"@, value@));
    p.command("DOMStorage.setDOMStorageItem")
}

/// The `DOMStorage.removeDOMStorageItem` command: remove the value under a
/// key.
pub fn remove_dom_storage_item(storage_id: &StorageId, key: &str) -> (c: Command)
    ensures
        c.method@ == "DOMStorage.removeDOMStorageItem"@,
        c.params@ == object(str_m("key"@, key@) + obj_m("storageId"@, storage_id_members(*storage_id))),
{
    let mut p = Params::new();
    p.text("key", key);
    p.nested("storageId", storage_id_params(storage_id));
    assert(p.members() =~= str_m("key"@, key@) + obj_m("storageId"@, storage_id_members(*storage_id)));
    p.command("DOMStorage.removeDOMStorageItem")
}

/// The `DOMStorage.clear` command: remove every item of a storage.
pub fn clear(storage_id: &StorageId) -> (c: Command)
    ensures
        c.method@ == "DOMStorage.clear"@,
        c.params@ == object(obj_m("storageId"@, storage_id_members(*storage_id))),
{
    let mut p = Params::new();
    p.nested("storageId", storage_id_params(storage_id));
    assert(p.members() =~= obj_m("storageId"@, storage_id_members(*storage_id)));
    p.command("DOMStorage.clear")
}

/// The `DOMStorage.enable` command.
pub fn enable() -> (c: Command)
    ensures
        c.method@ == "DOMStorage.enable"@,
        c.params@ == object(Seq::empty()),
{
    let p = Params::new();
    p.command("DOMStorage.enable")
}

/// The `DOMStorage.disable` command.
pub fn disable() -> (c: Command)
    ensures
        c.method@ == "DOMStorage.disable"@,
        c.params@ == object(Seq::empty()),
{
    let p = Params::new();
    p.command("DOMStorage.disable")
}

/// The event of an item added to a storage area.
#[derive(Debug, Clone)]
pub struct DomStorageItemAddedEvent {
    pub storage_id: StorageId,
    pub key: String,
    pub new_value: String,
}

/// The event of an item removed from a storage area.
#[derive(Debug, Clone)]
pub struct DomStorageItemRemovedEvent {
    pub storage_id: StorageId,
    pub key: String,
}

/// The event of an item of a storage area changing its value.
#[derive(Debug, Clone)]
pub struct DomStorageItemUpdatedEvent {
    pub storage_id: StorageId,
    pub key: String,
    pub old_value: String,
    pub new_value: String,
}

/// The event of a storage area cleared.
#[derive(Debug, Clone)]
pub struct DomStorageItemsClearedEvent {
    pub storage_id: StorageId,
}

} // verus!
