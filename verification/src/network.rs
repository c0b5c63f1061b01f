//! Network monitoring: the page script logs every fetch() and XMLHttpRequest call to
//! `window.__tivana_network_log`; this module builds the script that reads the log back,
//! optionally filtered by URL.

use vstd::prelude::*;

verus! {

/// Network monitoring manager
pub struct NetworkManager;

/// The text with each double quote escaped by a backslash.
pub open spec fn quotes_escaped(s: Seq<char>) -> Seq<char>
    decreases s.len(),
{
    if s.len() == 0 {
        s
    } else {
        quotes_escaped(s.drop_last()) + if s.last() == '"' {
            seq!['\\', '"']
        } else {
            seq![s.last()]
        }
    }
}

/// Escapes the double quotes of a text, as `str::replace('"', "\\\"")` does.
pub fn escape_quotes(s: &str) -> (r: String)
    ensures
        r@ == quotes_escaped(s@),
{
    let n = s.unicode_len();
    let mut out: Vec<char> = Vec::new();
    let mut i: usize = 0;
    while i < n
        invariant
            n == s@.len(),
            i <= n,
            out@ == quotes_escaped(s@.subrange(0, i as int)),
        decreases n - i,
    {
        let c = s.get_char(i);
        assert(s@.subrange(0, i + 1).drop_last() =~= s@.subrange(0, i as int));
        if c == '"' {
            out.push('\\');
            out.push('"');
        } else {
            out.push(c);
        }
        i = i + 1;
        assert(out@ =~= quotes_escaped(s@.subrange(0, i as int)));
    }
    assert(s@.subrange(0, n as int) =~= s@);
    crate::text::string_of(&out)
}

/// The script that reads the captured requests back, keeping only those whose URL
/// contains the pattern when one is given.
pub fn requests_script(url_pattern: Option<&str>) -> (s: String)
    ensures
        s@ == (match url_pattern {
            Some(p) => "(window.__tivana_network_log || []).filter(r => r.url.includes(\""@
                + quotes_escaped(p@) + "\"))"@,
            None => "(window.__tivana_network_log || [])"@,
        }),
{
    match url_pattern {
        Some(p) => String::from_str("(window.__tivana_network_log || []).filter(r => r.url.includes(\"")
            .concat(escape_quotes(p).as_str()).concat("\"))"),
        None => String::from_str("(window.__tivana_network_log || [])"),
    }
}

/// Page script: installs the fetch() and XMLHttpRequest interceptors that log each
/// request to `window.__tivana_network_log` (once per page).
pub const ENABLE_SCRIPT: &'static str = r#"(() => {
    if (window.__tivana_network_log) return;
    window.__tivana_network_log = [];

    // Intercept fetch
    const origFetch = window.fetch;
    window.fetch = async function(...args) {
        const url = typeof args[0] === 'string' ? args[0] : args[0]?.url || '';
        const method = (args[1]?.method || 'GET').toUpperCase();
        const start = Date.now();
        const entry = {
            url, method,
            status: 0, statusText: '',
            requestType: 'fetch',
            timestampMs: start,
            durationMs: 0,
        };
        window.__tivana_network_log.push(entry);
        try {
            const resp = await origFetch.apply(this, args);
            entry.status = resp.status;
            entry.statusText = resp.statusText;
            entry.durationMs = Date.now() - start;
            return resp;
        } catch (e) {
            entry.durationMs = Date.now() - start;
            throw e;
        }
    };

    // Intercept XMLHttpRequest
    const origOpen = XMLHttpRequest.prototype.open;
    const origSend = XMLHttpRequest.prototype.send;

    XMLHttpRequest.prototype.open = function(method, url, ...rest) {
        this.__tivana = { method: method.toUpperCase(), url: String(url) };
        return origOpen.apply(this, [method, url, ...rest]);
    };

    XMLHttpRequest.prototype.send = function(...args) {
        const start = Date.now();
        const entry = {
            url: this.__tivana?.url || '',
            method: this.__tivana?.method || 'GET',
            status: 0, statusText: '',
            requestType: 'xhr',
            timestampMs: start,
            durationMs: 0,
        };
        window.__tivana_network_log.push(entry);

        this.addEventListener('loadend', () => {
            entry.status = this.status;
            entry.statusText = this.statusText;
            entry.durationMs = Date.now() - start;
        });

        return origSend.apply(this, args);
    };
})()"#;

/// Page script: empties the request log.
pub const CLEAR_SCRIPT: &'static str = "if (window.__tivana_network_log) window.__tivana_network_log = [];";

} // verus!
