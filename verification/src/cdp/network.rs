//! The `Network` domain: requests, cookies, caching and network conditions.
use vstd::prelude::*;
use crate::cdp::{Command, Params, opt_string_m, opt_string_raw_m, objs_m, object, bool_m, str_m, raw_m, strs_m, raws_m, opt_i32_m, opt_i64_m, opt_bool_m, opt_str_m, opt_strs_m, str_views};
use crate::json::{json_object_text, json_object_of};

verus! {

/// A cookie to set: name, value, and each attribute that is given; the expiry and partition key as their JSON text.
#[derive(Debug, Clone)]
pub struct CookieParam {
    pub name: String,
    pub value: String,
    pub url: Option<String>,
    pub domain: Option<String>,
    pub path: Option<String>,
    pub secure: Option<bool>,
    pub http_only: Option<bool>,
    pub same_site: Option<String>,
    pub expires: Option<String>,
    pub priority: Option<String>,
    pub same_party: Option<bool>,
    pub source_scheme: Option<String>,
    pub source_port: Option<i32>,
    pub partition_key: Option<String>,
}

/// The members of a `CookieParam`: those it has, in name order.
pub open spec fn cookie_param_members(v: CookieParam) -> Seq<Seq<char>> {
    opt_string_m("domain"@, v.domain) + opt_string_raw_m("expires"@, v.expires)
        + opt_bool_m("httpOnly"@, v.http_only) + str_m("name"@, v.name@)
        + opt_string_raw_m("partitionKey"@, v.partition_key) + opt_string_m("path"@, v.path)
        + opt_string_m("priority"@, v.priority) + opt_bool_m("sameParty"@, v.same_party)
        + opt_string_m("sameSite"@, v.same_site) + opt_bool_m("secure"@, v.secure)
        + opt_i32_m("sourcePort"@, v.source_port) + opt_string_m("sourceScheme"@, v.source_scheme)
        + opt_string_m("url"@, v.url) + str_m("value"@, v.value@)
}

fn cookie_param_params(v: &CookieParam) -> (p: Params)
    ensures
        p.members() == cookie_param_members(*v),
{
    let mut p = Params::new();
    p.opt_string("domain", &v.domain);
    p.opt_raw_string("expires", &v.expires);
    p.opt_flag("httpOnly", v.http_only);
    p.text("name", v.name.as_str());
    p.opt_raw_string("partitionKey", &v.partition_key);
    p.opt_string("path", &v.path);
    p.opt_string("priority", &v.priority);
    p.opt_flag("sameParty", v.same_party);
    p.opt_string("sameSite", &v.same_site);
    p.opt_flag("secure", v.secure);
    p.opt_i32("sourcePort", v.source_port);
    p.opt_string("sourceScheme", &v.source_scheme);
    p.opt_string("url", &v.url);
    p.text("value", v.value.as_str());
    assert(p.members() =~= cookie_param_members(*v));
    p
}

fn cookie_param_list(items: &Vec<CookieParam>) -> (r: Vec<Params>)
    ensures
        r@.map_values(|p: Params| p.members()) == items@.map_values(|v: CookieParam| cookie_param_members(v)),
{
    let mut r: Vec<Params> = Vec::new();
    let mut i: usize = 0;
    while i < items.len()
        invariant
            i <= items@.len(),
            r@.len() == i,
            forall|j: int| 0 <= j < i ==> #[trigger] r@[j].members() == cookie_param_members(items@[j]),
        decreases items@.len() - i,
    {
        r.push(cookie_param_params(&items[i]));
        i = i + 1;
    }
    assert(r@.map_values(|p: Params| p.members()) =~= items@.map_values(|v: CookieParam| cookie_param_members(v)));
    r
}

/// The network to emulate; each number as its JSON text.
#[derive(Debug, Clone)]
pub struct NetworkConditions {
    pub offline: bool,
    pub latency: String,
    pub download_throughput: String,
    pub upload_throughput: String,
}

impl NetworkConditions {
    /// Offline. Latency in milliseconds and throughputs in bytes per second,
    /// as JSON numbers; -1 means no limit.
    pub fn offline() -> (c: Self)
        ensures
            c.offline == true,
            c.latency@ == "0.0"@,
            c.download_throughput@ == "-1.0"@,
            c.upload_throughput@ == "-1.0"@,
    {
        NetworkConditions {
            offline: true,
            latency: "0.0".to_string(),
            download_throughput: "-1.0".to_string(),
            upload_throughput: "-1.0".to_string(),
        }
    }

    /// A slow 3G link. Latency in milliseconds and throughputs in bytes per second,
    /// as JSON numbers; -1 means no limit.
    pub fn slow_3g() -> (c: Self)
        ensures
            c.offline == false,
            c.latency@ == "2000.0"@,
            c.download_throughput@ == "50000.0"@,
            c.upload_throughput@ == "50000.0"@,
    {
        NetworkConditions {
            offline: false,
            latency: "2000.0".to_string(),
            download_throughput: "50000.0".to_string(),
            upload_throughput: "50000.0".to_string(),
        }
    }

    /// A fast 3G link. Latency in milliseconds and throughputs in bytes per second,
    /// as JSON numbers; -1 means no limit.
    pub fn fast_3g() -> (c: Self)
        ensures
            c.offline == false,
            c.latency@ == "563.0"@,
            c.download_throughput@ == "180000.0"@,
            c.upload_throughput@ == "84375.0"@,
    {
        NetworkConditions {
            offline: false,
            latency: "563.0".to_string(),
            download_throughput: "180000.0".to_string(),
            upload_throughput: "84375.0".to_string(),
        }
    }

    /// A regular 4G link. Latency in milliseconds and throughputs in bytes per second,
    /// as JSON numbers; -1 means no limit.
    pub fn regular_4g() -> (c: Self)
        ensures
            c.offline == false,
            c.latency@ == "20.0"@,
            c.download_throughput@ == "4000000.0"@,
            c.upload_throughput@ == "3000000.0"@,
    {
        NetworkConditions {
            offline: false,
            latency: "20.0".to_string(),
            download_throughput: "4000000.0".to_string(),
            upload_throughput: "3000000.0".to_string(),
        }
    }

    /// A WiFi link. Latency in milliseconds and throughputs in bytes per second,
    /// as JSON numbers; -1 means no limit.
    pub fn wifi() -> (c: Self)
        ensures
            c.offline == false,
            c.latency@ == "2.0"@,
            c.download_throughput@ == "30000000.0"@,
            c.upload_throughput@ == "15000000.0"@,
    {
        NetworkConditions {
            offline: false,
            latency: "2.0".to_string(),
            download_throughput: "30000000.0".to_string(),
            upload_throughput: "15000000.0".to_string(),
        }
    }

    /// No throttling. Latency in milliseconds and throughputs in bytes per second,
    /// as JSON numbers; -1 means no limit.
    pub fn no_throttle() -> (c: Self)
        ensures
            c.offline == false,
            c.latency@ == "0.0"@,
            c.download_throughput@ == "-1.0"@,
            c.upload_throughput@ == "-1.0"@,
    {
        NetworkConditions {
            offline: false,
            latency: "0.0".to_string(),
            download_throughput: "-1.0".to_string(),
            upload_throughput: "-1.0".to_string(),
        }
    }

}

/// The members of a `NetworkConditions`: those it has, in name order.
pub open spec fn network_conditions_members(v: NetworkConditions) -> Seq<Seq<char>> {
    raw_m("downloadThroughput"@, v.download_throughput@) + raw_m("latency"@, v.latency@)
        + bool_m("offline"@, v.offline) + raw_m("uploadThroughput"@, v.upload_throughput@)
}

fn network_conditions_params(v: &NetworkConditions) -> (p: Params)
    ensures
        p.members() == network_conditions_members(*v),
{
    let mut p = Params::new();
    p.raw("downloadThroughput", v.download_throughput.as_str());
    p.raw("latency", v.latency.as_str());
    p.flag("offline", v.offline);
    p.raw("uploadThroughput", v.upload_throughput.as_str());
    assert(p.members() =~= network_conditions_members(*v));
    p
}

/// The `Network.setCookies` command: set each cookie.
pub fn set_cookies(cookies: &Vec<CookieParam>) -> (c: Command)
    ensures
        c.method@ == "Network.setCookies"@,
        c.params@ == object(objs_m("cookies"@, cookies@.map_values(|x: CookieParam| cookie_param_members(x)))),
{
    let mut p = Params::new();
    p.nested_list("cookies", cookie_param_list(cookies));
    assert(p.members() =~= objs_m("cookies"@, cookies@.map_values(|x: CookieParam| cookie_param_members(x))));
    p.command("Network.setCookies")
}

/// The `Network.emulateNetworkConditions` command.
pub fn emulate_network_conditions(conditions: &NetworkConditions) -> (c: Command)
    ensures
        c.method@ == "Network.emulateNetworkConditions"@,
        c.params@ == object(network_conditions_members(*conditions)),
{
    let p = network_conditions_params(conditions);
    p.command("Network.emulateNetworkConditions")
}

/// The `Network.setExtraHTTPHeaders` command: send the given headers with
/// every request. The headers are a JSON object, a later header replacing
/// an earlier one of the same name, written by `serde_json`; the command is
/// always built.
pub fn set_extra_http_headers(headers: &Vec<(String, String)>) -> (r: Result<Command, String>)
    ensures
        r is Ok,
        r matches Ok(c) ==> c.method@ == "Network.setExtraHTTPHeaders"@
            && c.params@ == object(raw_m("headers"@, json_object_text(headers@.map_values(|h: (String, String)| (h.0@, h.1@))))),
{
    match json_object_of(headers) {
        Ok(t) => {
            let mut p = Params::new();
            p.raw("headers", t.as_str());
            assert(p.members() =~= raw_m("headers"@, t@));
            Ok(p.command("Network.setExtraHTTPHeaders"))
        },
        Err(e) => Err(e),
    }
}

/// The `Network.enable` command. Each optional parameter is sent only when
/// given.
pub fn enable(
    max_total_buffer_size: Option<i64>,
    max_resource_buffer_size: Option<i64>,
    max_post_data_size: Option<i64>,
) -> (c: Command)
    ensures
        c.method@ == "Network.enable"@,
        c.params@ == object(opt_i64_m("maxPostDataSize"@, max_post_data_size)
            + opt_i64_m("maxResourceBufferSize"@, max_resource_buffer_size)
            + opt_i64_m("maxTotalBufferSize"@, max_total_buffer_size)),
{
    let mut p = Params::new();
    p.opt_i64("maxPostDataSize", max_post_data_size);
    p.opt_i64("maxResourceBufferSize", max_resource_buffer_size);
    p.opt_i64("maxTotalBufferSize", max_total_buffer_size);
    assert(p.members() =~= opt_i64_m("maxPostDataSize"@, max_post_data_size)
        + opt_i64_m("maxResourceBufferSize"@, max_resource_buffer_size)
        + opt_i64_m("maxTotalBufferSize"@, max_total_buffer_size));
    p.command("Network.enable")
}

/// The `Network.disable` command.
pub fn disable() -> (c: Command)
    ensures
        c.method@ == "Network.disable"@,
        c.params@ == object(Seq::empty()),
{
    let p = Params::new();
    p.command("Network.disable")
}

/// The `Network.getAllCookies` command.
pub fn get_all_cookies() -> (c: Command)
    ensures
        c.method@ == "Network.getAllCookies"@,
        c.params@ == object(Seq::empty()),
{
    let p = Params::new();
    p.command("Network.getAllCookies")
}

/// The `Network.getCookies` command. Its optional parameter is sent only when
/// given.
pub fn get_cookies(urls: Option<&[&str]>) -> (c: Command)
    ensures
        c.method@ == "Network.getCookies"@,
        c.params@ == object(opt_strs_m("urls"@, urls)),
{
    let mut p = Params::new();
    p.opt_texts("urls", urls);
    assert(p.members() =~= opt_strs_m("urls"@, urls));
    p.command("Network.getCookies")
}

/// The `Network.deleteCookies` command. Each optional parameter is sent only
/// when given.
pub fn delete_cookies(
    name: &str,
    url: Option<&str>,
    domain: Option<&str>,
    path: Option<&str>,
) -> (c: Command)
    ensures
        c.method@ == "Network.deleteCookies"@,
        c.params@ == object(opt_str_m("domain"@, domain) + str_m("name"@, name@)
            + opt_str_m("path"@, path) + opt_str_m("url"@, url)),
{
    let mut p = Params::new();
    p.opt_text("domain", domain);
    p.text("name", name);
    p.opt_text("path", path);
    p.opt_text("url", url);
    assert(p.members() =~= opt_str_m("domain"@, domain) + str_m("name"@, name@)
        + opt_str_m("path"@, path) + opt_str_m("url"@, url));
    p.command("Network.deleteCookies")
}

/// The `Network.clearBrowserCookies` command.
pub fn clear_browser_cookies() -> (c: Command)
    ensures
        c.method@ == "Network.clearBrowserCookies"@,
        c.params@ == object(Seq::empty()),
{
    let p = Params::new();
    p.command("Network.clearBrowserCookies")
}

/// The `Network.clearBrowserCache` command.
pub fn clear_browser_cache() -> (c: Command)
    ensures
        c.method@ == "Network.clearBrowserCache"@,
        c.params@ == object(Seq::empty()),
{
    let p = Params::new();
    p.command("Network.clearBrowserCache")
}

/// The `Network.setUserAgentOverride` command. Each optional parameter is sent
/// only when given.
pub fn set_user_agent_override(
    user_agent: &str,
    accept_language: Option<&str>,
    platform: Option<&str>,
) -> (c: Command)
    ensures
        c.method@ == "Network.setUserAgentOverride"@,
        c.params@ == object(opt_str_m("acceptLanguage"@, accept_language)
            + opt_str_m("platform"@, platform)
            + str_m("userAgent"@, user_agent@)),
{
    let mut p = Params::new();
    p.opt_text("acceptLanguage", accept_language);
    p.opt_text("platform", platform);
    p.text("userAgent", user_agent);
    assert(p.members() =~= opt_str_m("acceptLanguage"@, accept_language)
        + opt_str_m("platform"@, platform) + str_m("userAgent"@, user_agent@));
    p.command("Network.setUserAgentOverride")
}

/// The `Network.setBlockedURLs` command.
pub fn set_blocked_urls(urls: &[&str]) -> (c: Command)
    ensures
        c.method@ == "Network.setBlockedURLs"@,
        c.params@ == object(strs_m("urls"@, str_views(urls@))),
{
    let mut p = Params::new();
    p.texts("urls", urls);
    assert(p.members() =~= strs_m("urls"@, str_views(urls@)));
    p.command("Network.setBlockedURLs")
}

/// The `Network.setCacheDisabled` command.
pub fn set_cache_disabled(cache_disabled: bool) -> (c: Command)
    ensures
        c.method@ == "Network.setCacheDisabled"@,
        c.params@ == object(bool_m("cacheDisabled"@, cache_disabled)),
{
    let mut p = Params::new();
    p.flag("cacheDisabled", cache_disabled);
    assert(p.members() =~= bool_m("cacheDisabled"@, cache_disabled));
    p.command("Network.setCacheDisabled")
}

/// The `Network.getResponseBody` command.
pub fn get_response_body(request_id: &str) -> (c: Command)
    ensures
        c.method@ == "Network.getResponseBody"@,
        c.params@ == object(str_m("requestId"@, request_id@)),
{
    let mut p = Params::new();
    p.text("requestId", request_id);
    assert(p.members() =~= str_m("requestId"@, request_id@));
    p.command("Network.getResponseBody")
}

/// The `Network.getRequestPostData` command.
pub fn get_request_post_data(request_id: &str) -> (c: Command)
    ensures
        c.method@ == "Network.getRequestPostData"@,
        c.params@ == object(str_m("requestId"@, request_id@)),
{
    let mut p = Params::new();
    p.text("requestId", request_id);
    assert(p.members() =~= str_m("requestId"@, request_id@));
    p.command("Network.getRequestPostData")
}

/// The `Network.searchInResponseBody` command. Each optional parameter is sent
/// only when given.
pub fn search_in_response_body(
    request_id: &str,
    query: &str,
    case_sensitive: Option<bool>,
    is_regex: Option<bool>,
) -> (c: Command)
    ensures
        c.method@ == "Network.searchInResponseBody"@,
        c.params@ == object(opt_bool_m("caseSensitive"@, case_sensitive)
            + opt_bool_m("isRegex"@, is_regex) + str_m("query"@, query@)
            + str_m("requestId"@, request_id@)),
{
    let mut p = Params::new();
    p.opt_flag("caseSensitive", case_sensitive);
    p.opt_flag("isRegex", is_regex);
    p.text("query", query);
    p.text("requestId", request_id);
    assert(p.members() =~= opt_bool_m("caseSensitive"@, case_sensitive)
        + opt_bool_m("isRegex"@, is_regex) + str_m("query"@, query@)
        + str_m("requestId"@, request_id@));
    p.command("Network.searchInResponseBody")
}

/// The `Network.setRequestInterception` command.
pub fn set_request_interception(patterns: &[&str]) -> (c: Command)
    ensures
        c.method@ == "Network.setRequestInterception"@,
        c.params@ == object(raws_m("patterns"@, str_views(patterns@))),
{
    let mut p = Params::new();
    p.raws("patterns", patterns);
    assert(p.members() =~= raws_m("patterns"@, str_views(patterns@)));
    p.command("Network.setRequestInterception")
}

/// The `Network.getCertificate` command.
pub fn get_certificate(origin: &str) -> (c: Command)
    ensures
        c.method@ == "Network.getCertificate"@,
        c.params@ == object(str_m("origin"@, origin@)),
{
    let mut p = Params::new();
    p.text("origin", origin);
    assert(p.members() =~= str_m("origin"@, origin@));
    p.command("Network.getCertificate")
}

/// The `Network.setBypassServiceWorker` command.
pub fn set_bypass_service_worker(bypass: bool) -> (c: Command)
    ensures
        c.method@ == "Network.setBypassServiceWorker"@,
        c.params@ == object(bool_m("bypass"@, bypass)),
{
    let mut p = Params::new();
    p.flag("bypass", bypass);
    assert(p.members() =~= bool_m("bypass"@, bypass));
    p.command("Network.setBypassServiceWorker")
}

/// Request or response headers, each name with its value.
#[derive(Debug, Clone)]
pub struct Headers(pub Vec<(String, String)>);

} // verus!
