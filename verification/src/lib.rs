//! Verified core of a browser-automation toolkit: HTTP response caching,
//! referrer policy, cookie jars, API discovery in scripts, page summaries and
//! the decision logic around browser sessions.
pub mod text;
pub mod string_map;
pub mod clock;
pub mod http_cache;
pub mod urls;
pub mod referrer;
pub mod ghost;
pub mod page;
pub mod api_discovery;
pub mod cookie_store;
pub mod stealth;
pub mod pool;
pub mod auth;
pub mod json;
pub mod interact;
pub mod network_log;
pub mod dom;
pub mod extract;
pub mod launch;
pub mod keys;
pub mod mouse;
pub mod intercept;
pub mod capture;
pub mod workflow;
pub mod dom_export;
pub mod discovery;
pub mod browser;
pub mod frames;
pub mod cdp;
pub mod cli;
pub mod profile_cookies;
pub mod dom_tree;
pub mod session;
pub mod har;
pub mod cookie_file;
pub mod page_actions;
