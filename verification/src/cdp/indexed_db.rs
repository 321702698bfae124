//! The `IndexedDB` domain: databases, object stores and their entries.
use vstd::prelude::*;
use crate::cdp::{Command, Params, opt_string_raw_m, obj_m, object, int_m, bool_m, str_m, opt_str_m, opt_raw_m};

verus! {

/// A range of keys; each bound, when there is one, as its JSON text.
#[derive(Debug, Clone)]
pub struct KeyRange {
    pub lower: Option<String>,
    pub upper: Option<String>,
    pub lower_open: bool,
    pub upper_open: bool,
}

/// The members of a `KeyRange`: those it has, in name order.
pub open spec fn key_range_members(v: KeyRange) -> Seq<Seq<char>> {
    opt_string_raw_m("lower"@, v.lower) + bool_m("lowerOpen"@, v.lower_open)
        + opt_string_raw_m("upper"@, v.upper) + bool_m("upperOpen"@, v.upper_open)
}

fn key_range_params(v: &KeyRange) -> (p: Params)
    ensures
        p.members() == key_range_members(*v),
{
    let mut p = Params::new();
    p.opt_raw_string("lower", &v.lower);
    p.flag("lowerOpen", v.lower_open);
    p.opt_raw_string("upper", &v.upper);
    p.flag("upperOpen", v.upper_open);
    assert(p.members() =~= key_range_members(*v));
    p
}

/// A key-range member when a range is given.
pub open spec fn opt_key_range_m(key: Seq<char>, r: Option<&KeyRange>) -> Seq<Seq<char>> {
    match r {
        Some(k) => obj_m(key, key_range_members(*k)),
        None => Seq::empty(),
    }
}

fn add_key_range(p: &mut Params, key: &str, r: Option<&KeyRange>)
    ensures
        final(p).members() == old(p).members() + opt_key_range_m(key@, r),
{
    match r {
        Some(k) => p.nested(key, key_range_params(k)),
        None => {
            assert(old(p).members() + opt_key_range_m(key@, r) =~= old(p).members());
        },
    }
}

/// The `IndexedDB.requestDatabaseNames` command, for the databases of an origin given by its security
/// origin, its storage key or both (each sent only when given).
pub fn request_database_names(security_origin: Option<&str>, storage_key: Option<&str>, storage_bucket: Option<&str>) -> (c: Command)
    ensures
        c.method@ == "IndexedDB.requestDatabaseNames"@,
        c.params@ == object(opt_str_m("securityOrigin"@, security_origin) + opt_raw_m("storageBucket"@, storage_bucket) + opt_str_m("storageKey"@, storage_key)),
{
    let mut p = Params::new();
    p.opt_text("securityOrigin", security_origin);
    p.opt_raw("storageBucket", storage_bucket);
    p.opt_text("storageKey", storage_key);
    assert(p.members() =~= opt_str_m("securityOrigin"@, security_origin) + opt_raw_m("storageBucket"@, storage_bucket) + opt_str_m("storageKey"@, storage_key));
    p.command("IndexedDB.requestDatabaseNames")
}
/// The `IndexedDB.requestDatabase` command, for the databases of an origin given by its security
/// origin, its storage key or both (each sent only when given).
pub fn request_database(security_origin: Option<&str>, storage_key: Option<&str>, database_name: &str, storage_bucket: Option<&str>) -> (c: Command)
    ensures
        c.method@ == "IndexedDB.requestDatabase"@,
        c.params@ == object(str_m("databaseName"@, database_name@) + opt_str_m("securityOrigin"@, security_origin) + opt_raw_m("storageBucket"@, storage_bucket) + opt_str_m("storageKey"@, storage_key)),
{
    let mut p = Params::new();
    p.text("databaseName", database_name);
    p.opt_text("securityOrigin", security_origin);
    p.opt_raw("storageBucket", storage_bucket);
    p.opt_text("storageKey", storage_key);
    assert(p.members() =~= str_m("databaseName"@, database_name@) + opt_str_m("securityOrigin"@, security_origin) + opt_raw_m("storageBucket"@, storage_bucket) + opt_str_m("storageKey"@, storage_key));
    p.command("IndexedDB.requestDatabase")
}
/// The `IndexedDB.requestData` command, for the databases of an origin given by its security
/// origin, its storage key or both (each sent only when given).
pub fn request_data(security_origin: Option<&str>, storage_key: Option<&str>, database_name: &str, object_store_name: &str, index_name: &str, skip_count: i32, page_size: i32, key_range: Option<&KeyRange>) -> (c: Command)
    ensures
        c.method@ == "IndexedDB.requestData"@,
        c.params@ == object(str_m("databaseName"@, database_name@) + str_m("indexName"@, index_name@) + opt_key_range_m("keyRange"@, key_range) + str_m("objectStoreName"@, object_store_name@) + int_m("pageSize"@, page_size as int) + opt_str_m("securityOrigin"@, security_origin) + int_m("skipCount"@, skip_count as int) + opt_str_m("storageKey"@, storage_key)),
{
    let mut p = Params::new();
    p.text("databaseName", database_name);
    p.text("indexName", index_name);
    add_key_range(&mut p, "keyRange", key_range);
    p.text("objectStoreName", object_store_name);
    p.integer("pageSize", page_size as i64);
    p.opt_text("securityOrigin", security_origin);
    p.integer("skipCount", skip_count as i64);
    p.opt_text("storageKey", storage_key);
    assert(p.members() =~= str_m("databaseName"@, database_name@) + str_m("indexName"@, index_name@) + opt_key_range_m("keyRange"@, key_range) + str_m("objectStoreName"@, object_store_name@) + int_m("pageSize"@, page_size as int) + opt_str_m("securityOrigin"@, security_origin) + int_m("skipCount"@, skip_count as int) + opt_str_m("storageKey"@, storage_key));
    p.command("IndexedDB.requestData")
}
/// The `IndexedDB.getMetadata` command, for the databases of an origin given by its security
/// origin, its storage key or both (each sent only when given).
pub fn get_metadata(security_origin: Option<&str>, storage_key: Option<&str>, database_name: &str, object_store_name: &str) -> (c: Command)
    ensures
        c.method@ == "IndexedDB.getMetadata"@,
        c.params@ == object(str_m("databaseName"@, database_name@) + str_m("objectStoreName"@, object_store_name@) + opt_str_m("securityOrigin"@, security_origin) + opt_str_m("storageKey"@, storage_key)),
{
    let mut p = Params::new();
    p.text("databaseName", database_name);
    p.text("objectStoreName", object_store_name);
    p.opt_text("securityOrigin", security_origin);
    p.opt_text("storageKey", storage_key);
    assert(p.members() =~= str_m("databaseName"@, database_name@) + str_m("objectStoreName"@, object_store_name@) + opt_str_m("securityOrigin"@, security_origin) + opt_str_m("storageKey"@, storage_key));
    p.command("IndexedDB.getMetadata")
}
/// The `IndexedDB.clearObjectStore` command, for the databases of an origin given by its security
/// origin, its storage key or both (each sent only when given).
pub fn clear_object_store(security_origin: Option<&str>, storage_key: Option<&str>, database_name: &str, object_store_name: &str) -> (c: Command)
    ensures
        c.method@ == "IndexedDB.clearObjectStore"@,
        c.params@ == object(str_m("databaseName"@, database_name@) + str_m("objectStoreName"@, object_store_name@) + opt_str_m("securityOrigin"@, security_origin) + opt_str_m("storageKey"@, storage_key)),
{
    let mut p = Params::new();
    p.text("databaseName", database_name);
    p.text("objectStoreName", object_store_name);
    p.opt_text("securityOrigin", security_origin);
    p.opt_text("storageKey", storage_key);
    assert(p.members() =~= str_m("databaseName"@, database_name@) + str_m("objectStoreName"@, object_store_name@) + opt_str_m("securityOrigin"@, security_origin) + opt_str_m("storageKey"@, storage_key));
    p.command("IndexedDB.clearObjectStore")
}
/// The `IndexedDB.deleteDatabase` command, for the databases of an origin given by its security
/// origin, its storage key or both (each sent only when given).
pub fn delete_database(security_origin: Option<&str>, storage_key: Option<&str>, database_name: &str) -> (c: Command)
    ensures
        c.method@ == "IndexedDB.deleteDatabase"@,
        c.params@ == object(str_m("databaseName"@, database_name@) + opt_str_m("securityOrigin"@, security_origin) + opt_str_m("storageKey"@, storage_key)),
{
    let mut p = Params::new();
    p.text("databaseName", database_name);
    p.opt_text("securityOrigin", security_origin);
    p.opt_text("storageKey", storage_key);
    assert(p.members() =~= str_m("databaseName"@, database_name@) + opt_str_m("securityOrigin"@, security_origin) + opt_str_m("storageKey"@, storage_key));
    p.command("IndexedDB.deleteDatabase")
}
/// The `IndexedDB.deleteObjectStoreEntries` command, for the databases of an origin given by its security
/// origin, its storage key or both (each sent only when given).
pub fn delete_object_store_entries(security_origin: Option<&str>, storage_key: Option<&str>, database_name: &str, object_store_name: &str, key_range: &KeyRange) -> (c: Command)
    ensures
        c.method@ == "IndexedDB.deleteObjectStoreEntries"@,
        c.params@ == object(str_m("databaseName"@, database_name@) + obj_m("keyRange"@, key_range_members(*key_range)) + str_m("objectStoreName"@, object_store_name@) + opt_str_m("securityOrigin"@, security_origin) + opt_str_m("storageKey"@, storage_key)),
{
    let mut p = Params::new();
    p.text("databaseName", database_name);
    p.nested("keyRange", key_range_params(key_range));
    p.text("objectStoreName", object_store_name);
    p.opt_text("securityOrigin", security_origin);
    p.opt_text("storageKey", storage_key);
    assert(p.members() =~= str_m("databaseName"@, database_name@) + obj_m("keyRange"@, key_range_members(*key_range)) + str_m("objectStoreName"@, object_store_name@) + opt_str_m("securityOrigin"@, security_origin) + opt_str_m("storageKey"@, storage_key));
    p.command("IndexedDB.deleteObjectStoreEntries")
}
/// The `IndexedDB.enable` command.
pub fn enable() -> (c: Command)
    ensures
        c.method@ == "IndexedDB.enable"@,
        c.params@ == object(Seq::empty()),
{
    let p = Params::new();
    p.command("IndexedDB.enable")
}

/// The `IndexedDB.disable` command.
pub fn disable() -> (c: Command)
    ensures
        c.method@ == "IndexedDB.disable"@,
        c.params@ == object(Seq::empty()),
{
    let p = Params::new();
    p.command("IndexedDB.disable")
}

/// An object store of a database.
#[derive(Debug, Clone)]
pub struct ObjectStore {
    pub name: String,
    pub key_path: KeyPath,
    pub auto_increment: bool,
    pub indexes: Vec<ObjectStoreIndex>,
}

/// An index of an object store.
#[derive(Debug, Clone)]
pub struct ObjectStoreIndex {
    pub name: String,
    pub key_path: KeyPath,
    pub unique: bool,
    pub multi_entry: bool,
}

/// A key path: `null`, a string, or an array of strings, by `type_`.
#[derive(Debug, Clone)]
pub struct KeyPath {
    pub type_: String,
    pub string: Option<String>,
    pub array: Option<Vec<String>>,
}

} // verus!
