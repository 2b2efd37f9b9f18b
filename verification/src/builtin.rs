//! The module names that the host runtime provides itself.

use vstd::prelude::*;
use crate::text::{chars_of, same_chars, starts_with};

verus! {

/// The names of the builtin modules and of their documented sub-paths.
pub open spec fn builtin_names() -> Set<Seq<char>> {
    set![
        "_http_agent"@,
        "_http_client"@,
        "_http_common"@,
        "_http_incoming"@,
        "_http_outgoing"@,
        "_http_server"@,
        "_stream_duplex"@,
        "_stream_passthrough"@,
        "_stream_readable"@,
        "_stream_transform"@,
        "_stream_wrap"@,
        "_stream_writable"@,
        "_tls_common"@,
        "_tls_wrap"@,
        "assert"@,
        "assert/strict"@,
        "async_hooks"@,
        "buffer"@,
        "child_process"@,
        "cluster"@,
        "console"@,
        "constants"@,
        "crypto"@,
        "dgram"@,
        "diagnostics_channel"@,
        "dns"@,
        "dns/promises"@,
        "domain"@,
        "events"@,
        "fs"@,
        "fs/promises"@,
        "http"@,
        "http2"@,
        "https"@,
        "inspector"@,
        "inspector/promises"@,
        "module"@,
        "net"@,
        "os"@,
        "path"@,
        "path/posix"@,
        "path/win32"@,
        "perf_hooks"@,
        "process"@,
        "punycode"@,
        "querystring"@,
        "readline"@,
        "readline/promises"@,
        "repl"@,
        "stream"@,
        "stream/consumers"@,
        "stream/promises"@,
        "stream/web"@,
        "string_decoder"@,
        "sys"@,
        "timers"@,
        "timers/promises"@,
        "tls"@,
        "trace_events"@,
        "tty"@,
        "url"@,
        "util"@,
        "util/types"@,
        "v8"@,
        "vm"@,
        "wasi"@,
        "worker_threads"@,
        "zlib"@
    ]
}

/// The prefix that marks a specifier as naming a builtin module whatever follows it.
pub open spec fn builtin_scheme() -> Seq<char> {
    "node:"@
}

/// Whether `name` names a builtin module: it is in the table, or it begins with
/// the builtin scheme.
pub open spec fn is_builtin(name: Seq<char>) -> bool {
    builtin_names().contains(name) || builtin_scheme().is_prefix_of(name)
}

/// Whether `chars` are the characters of `literal`.
fn is(chars: &Vec<char>, literal: &str) -> (r: bool)
    ensures
        r == (chars@ == literal@),
{
    let other = chars_of(literal);
    same_chars(chars, &other)
}

/// Whether `specifier` names a builtin module.
pub fn is_node_builtin_module(specifier: &str) -> (r: bool)
    ensures
        r == is_builtin(specifier@),
{
    let s = chars_of(specifier);
    is(&s, "_http_agent")
        || is(&s, "_http_client")
        || is(&s, "_http_common")
        || is(&s, "_http_incoming")
        || is(&s, "_http_outgoing")
        || is(&s, "_http_server")
        || is(&s, "_stream_duplex")
        || is(&s, "_stream_passthrough")
        || is(&s, "_stream_readable")
        || is(&s, "_stream_transform")
        || is(&s, "_stream_wrap")
        || is(&s, "_stream_writable")
        || is(&s, "_tls_common")
        || is(&s, "_tls_wrap")
        || is(&s, "assert")
        || is(&s, "assert/strict")
        || is(&s, "async_hooks")
        || is(&s, "buffer")
        || is(&s, "child_process")
        || is(&s, "cluster")
        || is(&s, "console")
        || is(&s, "constants")
        || is(&s, "crypto")
        || is(&s, "dgram")
        || is(&s, "diagnostics_channel")
        || is(&s, "dns")
        || is(&s, "dns/promises")
        || is(&s, "domain")
        || is(&s, "events")
        || is(&s, "fs")
        || is(&s, "fs/promises")
        || is(&s, "http")
        || is(&s, "http2")
        || is(&s, "https")
        || is(&s, "inspector")
        || is(&s, "inspector/promises")
        || is(&s, "module")
        || is(&s, "net")
        || is(&s, "os")
        || is(&s, "path")
        || is(&s, "path/posix")
        || is(&s, "path/win32")
        || is(&s, "perf_hooks")
        || is(&s, "process")
        || is(&s, "punycode")
        || is(&s, "querystring")
        || is(&s, "readline")
        || is(&s, "readline/promises")
        || is(&s, "repl")
        || is(&s, "stream")
        || is(&s, "stream/consumers")
        || is(&s, "stream/promises")
        || is(&s, "stream/web")
        || is(&s, "string_decoder")
        || is(&s, "sys")
        || is(&s, "timers")
        || is(&s, "timers/promises")
        || is(&s, "tls")
        || is(&s, "trace_events")
        || is(&s, "tty")
        || is(&s, "url")
        || is(&s, "util")
        || is(&s, "util/types")
        || is(&s, "v8")
        || is(&s, "vm")
        || is(&s, "wasi")
        || is(&s, "worker_threads")
        || is(&s, "zlib")
        || starts_with(specifier, "node:")
}

} // verus!
