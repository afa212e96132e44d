//! Persistent cache for `tools/list` responses, keyed by the backend URL.
//!
//! A client may freeze its tool catalog when the first `tools/list` response
//! arrives. So the last response is kept in a file, and at the next start the proxy
//! answers from it without waiting for the backend. The functions here say which
//! file that is, what its bytes hold and what is to be written to it; reading and
//! writing the file is left to the caller.
use crate::message::{ListToolsResult, ListToolsView};
use crate::outside::{
    tools_array_from_str, tools_result_from_slice, tools_result_from_str, tools_result_to_vec,
};
use vstd::prelude::*;
use vstd::string::*;

verus! {

/// Where cache files are kept: a directory below another one, which the environment
/// names.
#[derive(Debug)]
pub struct CacheDir<P> {
    pub base: P,
    pub subdir: &'static str,
}

/// The model of [`cache_dir`]: `$XDG_CACHE_HOME/mcp-proxy`, else a directory below
/// `$HOME`, which depends on the system, else none.
pub open spec fn chosen_dir<P>(xdg_cache_home: Option<P>, macos: bool, home: Option<P>) -> Option<
    (P, Seq<char>),
> {
    match (xdg_cache_home, home) {
        (Some(xdg), _) => Some((xdg, "mcp-proxy"@)),
        (None, Some(h)) => Some(
            (
                h,
                if macos {
                    "Library/Caches/mcp-proxy"@
                } else {
                    ".cache/mcp-proxy"@
                },
            ),
        ),
        (None, None) => None,
    }
}

/// Directory where tool caches are stored. Returns `None` if no suitable directory is
/// available, in which case caching is silently disabled.
pub fn cache_dir<P>(xdg_cache_home: Option<P>, macos: bool, home: Option<P>) -> (dir: Option<
    CacheDir<P>,
>)
    ensures
        match dir {
            Some(d) => chosen_dir(xdg_cache_home, macos, home) == Some((d.base, d.subdir@)),
            None => chosen_dir(xdg_cache_home, macos, home) is None,
        },
{
    if let Some(xdg) = xdg_cache_home {
        return Some(CacheDir { base: xdg, subdir: "mcp-proxy" });
    }
    if macos {
        if let Some(h) = home {
            return Some(CacheDir { base: h, subdir: "Library/Caches/mcp-proxy" });
        }
        return None;
    }
    match home {
        Some(h) => Some(CacheDir { base: h, subdir: ".cache/mcp-proxy" }),
        None => None,
    }
}

/// Whether a character stays as it is in a file name.
pub open spec fn is_safe(ch: char) -> bool {
    ||| 'a' <= ch <= 'z'
    ||| 'A' <= ch <= 'Z'
    ||| '0' <= ch <= '9'
    ||| ch == '.'
    ||| ch == '_'
    ||| ch == '-'
}

/// A character as it stands in a file name.
pub open spec fn sanitized(ch: char) -> char {
    if is_safe(ch) {
        ch
    } else {
        '_'
    }
}

/// The name of the cache file of a URL.
pub open spec fn cache_filename(url: Seq<char>) -> Seq<char> {
    url.map_values(|ch: char| sanitized(ch)) + ".tools.json"@
}

/// Filesystem-safe filename derived from the backend URL.
///
/// The filename is human-readable rather than a hash: URLs are short enough in
/// practice, and a readable name makes it easier to inspect or clear individual
/// caches by hand.
pub fn filename_for(url: &str) -> (filename: String)
    ensures
        filename@ == cache_filename(url@),
{
    let mut out = String::new();
    for ch in it: url.chars()
        invariant
            it.seq() == url@,
            out@ == url@.take(it.index() as int).map_values(|c: char| sanitized(c)),
    {
        proof {
            assert(url@.take(it.index() + 1).map_values(|c: char| sanitized(c)) =~= url@.take(
                it.index() as int,
            ).map_values(|c: char| sanitized(c)).push(sanitized(ch)));
        }
        match ch {
            'a'..='z' | 'A'..='Z' | '0'..='9' | '.' | '_' | '-' => out.push(ch),
            _ => out.push('_'),
        }
    }
    proof {
        assert(url@.take(url@.len() as int) =~= url@);
    }
    out.append(".tools.json");
    out
}

/// A cache file: its directory and its name.
#[derive(Debug)]
pub struct CacheFile<P> {
    pub dir: CacheDir<P>,
    pub filename: String,
}

/// The file that holds the tools of a URL, if there is a directory for it.
pub fn cache_file<P>(dir: Option<CacheDir<P>>, url: &str) -> (file: Option<CacheFile<P>>)
    ensures
        match (dir, file) {
            (Some(d), Some(f)) => f.dir == d && f.filename@ == cache_filename(url@),
            (None, None) => true,
            _ => false,
        },
{
    match dir {
        Some(d) => Some(CacheFile { dir: d, filename: filename_for(url) }),
        None => None,
    }
}

/// The tools that [`load`] takes from what was read of a cache file.
pub open spec fn loaded(bytes: Option<Seq<u8>>) -> Option<ListToolsView> {
    match bytes {
        Some(b) => crate::outside::tools_result_in_bytes(b),
        None => None,
    }
}

/// Load a previously cached `tools/list` response, if any, from the bytes of its file;
/// `None` stands for a file that could not be read.
pub fn load(bytes: Option<&[u8]>) -> (tools: Option<ListToolsResult>)
    ensures
        crate::message::tools_view(tools) == loaded(
            match bytes {
                Some(b) => Some(b@),
                None => None,
            },
        ),
        tools matches Some(t) ==> crate::outside::readable(t@),
{
    match bytes {
        Some(b) => match tools_result_from_slice(b) {
            Ok(result) => Some(result),
            Err(_) => None,
        },
        None => None,
    }
}

/// The tools of an inline JSON value, given what it holds as a whole result and as a
/// bare array.
pub open spec fn inline_choice(
    full: Option<ListToolsView>,
    array: Option<Seq<rmcp::model::Tool>>,
) -> Option<ListToolsView> {
    match (full, array) {
        (Some(result), _) => Some(result),
        (None, Some(tools)) => Some(ListToolsView { tools, next_cursor: None }),
        (None, None) => None,
    }
}

/// The tools of an inline JSON value: those of a whole result where it is one, else
/// those of a bare array, without a next page, where it is one.
pub fn inline_tools(
    full: Option<ListToolsResult>,
    array: Option<Vec<rmcp::model::Tool>>,
) -> (tools: Option<ListToolsResult>)
    ensures
        crate::message::tools_view(tools) == inline_choice(
            crate::message::tools_view(full),
            match array {
                Some(a) => Some(a@),
                None => None,
            },
        ),
{
    match full {
        Some(result) => Some(result),
        None => match array {
            Some(tools) => Some(ListToolsResult { tools, next_cursor: None }),
            None => None,
        },
    }
}

/// The tools that an inline JSON text holds.
pub open spec fn inline_tools_in(json: Seq<char>) -> Option<ListToolsView> {
    inline_choice(crate::outside::tools_result_in(json), crate::outside::tools_array_in(json))
}

/// Parse an inline JSON value — either a full `ListToolsResult` (`{"tools":[...]}`) or a
/// bare tools array (`[...]`) — into a `ListToolsResult` usable as the proxy's offline
/// tool advertisement.
pub fn parse_inline(json: &str) -> (tools: Option<ListToolsResult>)
    ensures
        crate::message::tools_view(tools) == inline_tools_in(json@),
{
    match tools_result_from_str(json) {
        Ok(result) => inline_tools(Some(result), None),
        Err(_) => match tools_array_from_str(json) {
            Ok(tools) => inline_tools(None, Some(tools)),
            Err(_) => inline_tools(None, None),
        },
    }
}

/// What is to be written to disk: the directory of the file is created first, then the
/// bytes are written, where there are any.
#[derive(Debug)]
pub struct CacheWrite<P> {
    pub file: CacheFile<P>,
    pub bytes: Option<Vec<u8>>,
}

impl<P> CacheWrite<P> {
    /// Whether this writes the given tools for the given URL, below the given
    /// directory. Tools that can be read from some file are written, and reading the
    /// file that they were written to gives those tools back.
    pub open spec fn persists(self, dir: CacheDir<P>, url: Seq<char>, tools: ListToolsView) -> bool {
        let bytes = match self.bytes {
            Some(b) => Some(b@),
            None => None,
        };
        &&& self.file.dir == dir
        &&& self.file.filename@ == cache_filename(url)
        &&& bytes == crate::outside::bytes_of_tools_result(tools)
        &&& crate::outside::readable(tools) ==> bytes is Some && loaded(bytes) == Some(tools)
    }
}

/// What [`save`] gives to be written of tools, where there are any and there is a
/// directory.
pub open spec fn is_write_of<P>(
    write: Option<CacheWrite<P>>,
    dir: Option<CacheDir<P>>,
    url: Seq<char>,
    tools: Option<ListToolsView>,
) -> bool {
    match (dir, tools) {
        (Some(d), Some(t)) => write matches Some(w) && w.persists(d, url, t),
        _ => write is None,
    }
}

/// Persist `result` to disk for `url`: what is to be written, or nothing where there is
/// no cache directory. Caching is a best-effort optimisation: a caller goes on where
/// the file cannot be written.
pub fn save<P>(dir: Option<CacheDir<P>>, url: &str, result: &ListToolsResult) -> (write: Option<
    CacheWrite<P>,
>)
    ensures
        is_write_of(write, dir, url@, Some(result@)),
{
    match cache_file(dir, url) {
        Some(file) => {
            let bytes = match tools_result_to_vec(result) {
                Ok(bytes) => Some(bytes),
                Err(_) => None,
            };
            Some(CacheWrite { file, bytes })
        },
        None => None,
    }
}

/// Every file name is safe for a file system: it holds no character but letters and
/// digits of ASCII, dots, underscores and hyphens, and it ends in `.tools.json`.
pub proof fn law_filename_is_safe(url: Seq<char>)
    ensures
        forall|i: int|
            0 <= i < cache_filename(url).len() ==> is_safe(#[trigger] cache_filename(url)[i]),
        cache_filename(url).len() == url.len() + ".tools.json"@.len(),
        cache_filename(url).skip(url.len() as int) == ".tools.json"@,
{
    reveal_strlit(".tools.json");
    assert(cache_filename(url).skip(url.len() as int) =~= ".tools.json"@);
}

/// A URL of safe characters alone stands in its file name as it is.
pub proof fn law_filename_is_readable(url: Seq<char>)
    requires
        forall|i: int| 0 <= i < url.len() ==> is_safe(#[trigger] url[i]),
    ensures
        cache_filename(url) == url + ".tools.json"@,
{
    assert(url.map_values(|ch: char| sanitized(ch)) =~= url);
}

/// Two URLs share a file exactly where they are of one length and differ in no
/// character but unsafe ones and underscores.
pub proof fn law_filenames_differ(a: Seq<char>, b: Seq<char>)
    ensures
        cache_filename(a) == cache_filename(b) <==> {
            &&& a.len() == b.len()
            &&& forall|i: int|
                0 <= i < a.len() ==> sanitized(#[trigger] a[i]) == sanitized(#[trigger] b[i])
        },
{
    let f = |ch: char| sanitized(ch);
    if cache_filename(a) == cache_filename(b) {
        assert(a.len() + ".tools.json"@.len() == cache_filename(a).len());
        assert(b.len() + ".tools.json"@.len() == cache_filename(b).len());
        assert forall|i: int| 0 <= i < a.len() implies sanitized(#[trigger] a[i]) == sanitized(
            #[trigger] b[i],
        ) by {
            assert(cache_filename(a)[i] == sanitized(a[i]));
            assert(cache_filename(b)[i] == sanitized(b[i]));
        }
    }
    if a.len() == b.len() && (forall|i: int|
        0 <= i < a.len() ==> sanitized(#[trigger] a[i]) == sanitized(#[trigger] b[i])) {
        assert(a.map_values(f) =~= b.map_values(f));
    }
}

} // verus!
