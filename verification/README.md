# neobrowser

The verified core of a browser-automation toolkit, written in Verus.

`src/` holds the logic, each function with a `requires`/`ensures` contract that
Verus proves:

- HTTP side: the response cache (`http_cache`), referrer policy (`referrer`),
  cookie jars (`ghost`, `cookie_store`, `cookie_file`, `profile_cookies`), URLs
  and page extraction from the parsed HTML tree (`dom`, `extract`, `page`,
  `dom_export`), and API discovery in scripts (`api_discovery`, `discovery`).
- Browser side: DevTools commands (`cdp` and its domain modules), key and mouse
  events (`keys`, `mouse`), request interception and network capture
  (`intercept`, `capture`, `har`), frames and tabs (`frames`), page scripts and
  their replies (`interact`, `session`, `page_actions`), workflow recording and
  replay (`workflow`), launch arguments (`launch`) and the command line
  (`cli`).
- JSON replies are read through `json::JsonValue`; the parse itself, dates,
  URLs, regular expressions, HTML parsing, the keychain and the clocks are
  reached through small trusted wrappers whose contracts say what those crates
  guarantee.

Each module also states the laws its operations keep as `pub proof fn`s
(`law_*`).

`tests/` runs the library on concrete values. `app/` is the command-line
program around it: file and SQLite I/O, the keychain front end, and the parts
that compute with floating point.
