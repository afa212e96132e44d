//! What calls do when the proxy is started, and with its cache files.
use crate::cache::{CacheDir, CacheFile, CacheWrite};
use crate::cli::StartupError;
use crate::message::{ListToolsResult, ListToolsView, ProtocolVersion};
use crate::state::{AppState, BufferMode, ProxyState};
use vstd::prelude::*;

verus! {

/// A new proxy waits for its backend: it has no transport, tries nothing, holds no message and
/// no identifier, buffers, and does what it is told of its limit and its version.
pub proof fn law_call_new(
    url: String,
    limit: Option<u64>,
    version: Option<ProtocolVersion>,
    inline: Option<&str>,
    cached: Option<ListToolsResult>,
    proxy_version: String,
    now: u64,
    s: AppState,
)
    requires
        call_ensures(
            AppState::new,
            (url, limit, version, inline, cached, proxy_version, now),
            s,
        ),
    ensures
        s@.url == url@,
        s@.max_disconnected_time == limit,
        s@.proxy_version == proxy_version@,
        version is None <==> s@.override_protocol_version is None,
        version matches Some(v) ==> s@.override_protocol_version == Some(v.text@),
        s@.state is Connecting,
        s@.disconnected_since is None,
        s@.connect_tries == 0,
        s@.init_message is None,
        s@.in_buf.len() == 0,
        forall|key: Seq<char>| !(#[trigger] s@.id_map.contains_key(key)),
        s@.buf_mode == BufferMode::Store,
        !s@.flush_timer_active,
        !s@.reconnect_tx,
        !s@.timer_tx,
        !s@.reconnect_scheduled,
        !s@.transport_valid,
        s@.last_heartbeat == now,
{
}

/// The tools that a new proxy knows: those of the inline text, as a whole result, else as a
/// bare array; else, also where that text holds none, those of the cache file.
pub proof fn law_call_new_knows_tools(
    url: String,
    limit: Option<u64>,
    version: Option<ProtocolVersion>,
    inline: Option<&str>,
    cached: Option<ListToolsResult>,
    proxy_version: String,
    now: u64,
    s: AppState,
)
    requires
        call_ensures(
            AppState::new,
            (url, limit, version, inline, cached, proxy_version, now),
            s,
        ),
    ensures
        ({
            let full = crate::outside::tools_result_in(inline->0@);
            let array = crate::outside::tools_array_in(inline->0@);
            &&& inline is Some && full is Some ==> s@.tools_cache == full
            &&& inline is Some && full is None && array is Some ==> s@.tools_cache == Some(
                ListToolsView { tools: array->0, next_cursor: None },
            )
            &&& inline is None || (full is None && array is None) ==> {
                &&& s@.tools_cache is None <==> cached is None
                &&& cached matches Some(c) ==> s@.tools_cache == Some(c@)
            }
        }),
{
}

/// Tools given inline come before those of the cache file.
pub proof fn law_call_startup_tools(
    inline: Option<ListToolsResult>,
    cached: Option<ListToolsResult>,
    tools: Option<ListToolsResult>,
)
    requires
        call_ensures(crate::state::startup_tools, (inline, cached), tools),
    ensures
        inline is Some ==> tools == inline,
        inline is None ==> tools == cached,
{
}

/// The proxy is offline where the backend has never come up or was lost.
pub proof fn law_call_is_offline(state: ProxyState, r: bool)
    requires
        call_ensures(ProxyState::is_offline, (&state,), r),
    ensures
        r <==> state is Connecting || state is Disconnected,
{
}

/// Where cache files are kept.
pub proof fn law_call_cache_dir<P>(
    xdg: Option<P>,
    macos: bool,
    home: Option<P>,
    dir: Option<CacheDir<P>>,
)
    requires
        call_ensures(crate::cache::cache_dir::<P>, (xdg, macos, home), dir),
    ensures
        dir is Some <==> xdg is Some || home is Some,
        xdg is Some ==> dir->0.base == xdg->0 && dir->0.subdir@ == "mcp-proxy"@,
        xdg is None && home is Some ==> {
            &&& dir->0.base == home->0
            &&& dir->0.subdir@ == if macos {
                "Library/Caches/mcp-proxy"@
            } else {
                ".cache/mcp-proxy"@
            }
        },
{
}

/// The name of a cache file, character by character.
pub proof fn law_call_filename(url: &str, name: String)
    requires
        call_ensures(crate::cache::filename_for, (url,), name),
    ensures
        name@.len() == url@.len() + 11,
        name@.subrange(url@.len() as int, name@.len() as int) == ".tools.json"@,
        forall|i: int|
            0 <= i < url@.len() ==> {
                let ch = url@[i];
                let kept = ('a' <= ch && ch <= 'z') || ('A' <= ch && ch <= 'Z') || ('0' <= ch && ch
                    <= '9') || ch == '.' || ch == '_' || ch == '-';
                #[trigger] name@[i] == if kept {
                    ch
                } else {
                    '_'
                }
            },
{
    crate::laws::startup::law_filename_by_character(url@);
}

/// A URL has a file wherever there is a directory, in that directory and under its own name.
pub proof fn law_call_cache_file<P>(
    dir: Option<CacheDir<P>>,
    url: &str,
    file: Option<CacheFile<P>>,
)
    requires
        call_ensures(crate::cache::cache_file::<P>, (dir, url), file),
    ensures
        file is Some <==> dir is Some,
        file matches Some(f) ==> {
            &&& f.dir == dir->0
            &&& f.filename@ == crate::cache::cache_filename(url@)
        },
{
}

/// The tools that the bytes of a file hold are loaded, all of them; without bytes none are.
pub proof fn law_call_load(bytes: Option<&[u8]>, tools: Option<ListToolsResult>)
    requires
        call_ensures(crate::cache::load, (bytes,), tools),
    ensures
        bytes is None ==> tools is None,
        bytes matches Some(b) ==> {
            let held = crate::outside::tools_result_in_bytes(b@);
            &&& tools is None <==> held is None
            &&& tools matches Some(t) ==> held == Some(t@)
        },
{
}

/// Inline tools are taken from a whole result, else from a bare array.
pub proof fn law_call_inline_tools(
    full: Option<ListToolsResult>,
    array: Option<Vec<rmcp::model::Tool>>,
    tools: Option<ListToolsResult>,
)
    requires
        call_ensures(crate::cache::inline_tools, (full, array), tools),
    ensures
        tools is Some <==> full is Some || array is Some,
        full is Some ==> tools->0@ == full->0@,
        full is None && array is Some ==> tools->0@.tools == array->0@
            && tools->0@.next_cursor is None,
{
}

/// An inline text is read as a whole result, else as a bare array.
pub proof fn law_call_parse_inline(json: &str, tools: Option<ListToolsResult>)
    requires
        call_ensures(crate::cache::parse_inline, (json,), tools),
    ensures
        ({
            let full = crate::outside::tools_result_in(json@);
            let array = crate::outside::tools_array_in(json@);
            &&& tools is Some <==> full is Some || array is Some
            &&& full is Some ==> tools->0@ == full->0
            &&& full is None && array is Some ==> tools->0@.tools == array->0
                && tools->0@.next_cursor is None
        }),
{
}

/// Tools are saved wherever there is a directory, to the file of their URL, as bytes from
/// which they are read back where any bytes hold them.
pub proof fn law_call_save<P>(
    dir: Option<CacheDir<P>>,
    url: &str,
    result: ListToolsResult,
    write: Option<CacheWrite<P>>,
    held: Seq<u8>,
)
    requires
        call_ensures(crate::cache::save::<P>, (dir, url, &result), write),
    ensures
        write is Some <==> dir is Some,
        write matches Some(w) ==> {
            &&& w.file.dir == dir->0
            &&& w.file.filename@ == crate::cache::cache_filename(url@)
            &&& w.bytes is None <==> crate::outside::bytes_of_tools_result(result@) is None
            &&& w.bytes matches Some(b) ==> crate::outside::bytes_of_tools_result(result@) == Some(
                b@,
            )
            &&& crate::outside::tools_result_in_bytes(held) == Some(result@) ==> w.bytes is Some
                && crate::outside::tools_result_in_bytes(w.bytes->0@) == Some(result@)
        },
{
}

/// The URL is the one of the arguments, else the one of the environment; without either the
/// proxy is not started.
pub proof fn law_call_backend_url(
    argument: Option<String>,
    environment: Option<String>,
    url: Result<String, StartupError>,
)
    requires
        call_ensures(crate::cli::backend_url, (argument, environment), url),
    ensures
        argument is Some ==> url == Ok::<String, StartupError>(argument->0),
        argument is None && environment is Some ==> url == Ok::<String, StartupError>(
            environment->0,
        ),
        argument is None && environment is None ==> url is Err && url->Err_0 is MissingUrl,
{
}

/// The version to name is one of the two that the proxy knows, or none; any other is refused,
/// and named in the refusal.
pub proof fn law_call_parse_override(
    version: Option<String>,
    parsed: Result<Option<ProtocolVersion>, StartupError>,
)
    requires
        call_ensures(crate::cli::parse_override, (version,), parsed),
    ensures
        version is None ==> parsed is Ok && parsed->Ok_0 is None,
        version matches Some(v) ==> {
            let known = v@ == "2024-11-05"@ || v@ == "2025-03-26"@;
            &&& known ==> parsed is Ok && parsed->Ok_0 is Some && parsed->Ok_0->0.text == v
            &&& !known ==> parsed is Err && parsed->Err_0
                == StartupError::UnsupportedProtocolVersion(v)
        },
{
}

/// The user is told what is missing, or which version is not known.
pub proof fn law_call_startup_message(error: StartupError, text: String)
    requires
        call_ensures(StartupError::message, (&error,), text),
    ensures
        error is MissingUrl ==> text@
            == "Either the URL must be passed as the first argument or the SSE_URL environment variable must be set"@,
        error matches StartupError::UnsupportedProtocolVersion(version) ==> text@
            == "Unsupported protocol version: "@ + version@
            + ". Supported versions are: 2024-11-05, 2025-03-26"@,
{
}

} // verus!
