//! What the proxy is started with, and the files that it keeps.
use crate::cache::{CacheDir, CacheWrite};
use crate::message::ListToolsView;
use vstd::prelude::*;

verus! {

/// The cache lies in `mcp-proxy` below the cache directory of the environment where it names
/// one, whatever else it names; else below the home directory, in a place that depends on the
/// system; else nowhere.
pub proof fn law_cache_directory<P>(xdg: P, home: P, macos: bool, any_home: Option<P>)
    ensures
        crate::cache::chosen_dir(Some(xdg), macos, any_home) == Some((xdg, "mcp-proxy"@)),
        crate::cache::chosen_dir(None, true, Some(home)) == Some(
            (home, "Library/Caches/mcp-proxy"@),
        ),
        crate::cache::chosen_dir(None, false, Some(home)) == Some((home, ".cache/mcp-proxy"@)),
        crate::cache::chosen_dir::<P>(None, macos, None) is None,
{
}

/// Each character of a URL stands at its place in the name of its file: letters and digits of
/// ASCII, dots, underscores and hyphens as they are, and any other as an underscore. Behind
/// them stands `.tools.json`, and nothing else.
pub proof fn law_filename_by_character(url: Seq<char>)
    ensures
        ({
            let name = crate::cache::cache_filename(url);
            &&& name.len() == url.len() + 11
            &&& name.subrange(url.len() as int, name.len() as int) == ".tools.json"@
            &&& forall|i: int|
                0 <= i < url.len() ==> {
                    let kept = ('a' <= url[i] && url[i] <= 'z') || ('A' <= url[i] && url[i] <= 'Z')
                        || ('0' <= url[i] && url[i] <= '9') || url[i] == '.' || url[i] == '_'
                        || url[i] == '-';
                    #[trigger] name[i] == if kept {
                        url[i]
                    } else {
                        '_'
                    }
                }
        }),
{
    reveal_strlit(".tools.json");
    let name = crate::cache::cache_filename(url);
    assert(name.subrange(url.len() as int, name.len() as int) =~= ".tools.json"@);
}

/// A character is kept in a file name exactly where it is a letter or a digit of ASCII, a dot,
/// an underscore or a hyphen; any other becomes an underscore.
pub proof fn law_safe_characters(ch: char)
    ensures
        crate::cache::is_safe(ch) <==> ('a' <= ch && ch <= 'z') || ('A' <= ch && ch <= 'Z') || (
        '0' <= ch && ch <= '9') || ch == '.' || ch == '_' || ch == '-',
        crate::cache::is_safe(crate::cache::sanitized(ch)),
        crate::cache::sanitized(ch) == ch || crate::cache::sanitized(ch) == '_',
        crate::cache::is_safe(ch) ==> crate::cache::sanitized(ch) == ch,
{
}

/// A file that was read gives the tools that its bytes hold, where they hold any; one that
/// could not be read gives none.
pub proof fn law_file_gives_what_it_holds(bytes: Seq<u8>)
    ensures
        crate::cache::loaded(Some(bytes)) == crate::outside::tools_result_in_bytes(bytes),
        crate::cache::loaded(None) is None,
{
}

/// Tools that some bytes hold are readable.
pub proof fn law_held_tools_are_readable(bytes: Seq<u8>, tools: ListToolsView)
    requires
        crate::outside::tools_result_in_bytes(bytes) == Some(tools),
    ensures
        crate::outside::readable(tools),
{
}

/// What persists tools writes them below the directory, to the file of the URL, and whatever
/// tools some file holds are read back from it.
pub proof fn law_persisted_tools_are_read_back<P>(
    write: CacheWrite<P>,
    dir: CacheDir<P>,
    url: Seq<char>,
    tools: ListToolsView,
    held: Seq<u8>,
)
    requires
        write.persists(dir, url, tools),
    ensures
        write.file.dir == dir,
        write.file.filename@ == crate::cache::cache_filename(url),
        write.bytes is None ==> crate::outside::bytes_of_tools_result(tools) is None,
        write.bytes matches Some(b) ==> crate::outside::bytes_of_tools_result(tools) == Some(b@),
        crate::outside::tools_result_in_bytes(held) == Some(tools) ==> {
            &&& write.bytes is Some
            &&& crate::outside::tools_result_in_bytes(write.bytes->0@) == Some(tools)
        },
{
}

/// Tools are written wherever there are any and there is a directory, and only there.
pub proof fn law_tools_are_written_where_they_can_be<P>(
    write: Option<CacheWrite<P>>,
    dir: Option<CacheDir<P>>,
    url: Seq<char>,
    tools: Option<ListToolsView>,
)
    requires
        crate::cache::is_write_of(write, dir, url, tools),
    ensures
        write is Some <==> dir is Some && tools is Some,
        write matches Some(w) ==> {
            &&& w.file.dir == dir->0
            &&& w.file.filename@ == crate::cache::cache_filename(url)
            &&& crate::outside::bytes_of_tools_result(tools->0) == match w.bytes {
                Some(b) => Some(b@),
                None => None,
            }
        },
{
}

/// Inline tools are those of a whole result, as it is, whatever else the value may be read as;
/// else those of a bare array, all of them and without a cursor; else there are none.
pub proof fn law_inline_tools_are_taken_whole(
    full: ListToolsView,
    array: Option<Seq<rmcp::model::Tool>>,
    tools: Seq<rmcp::model::Tool>,
)
    ensures
        crate::cache::inline_choice(Some(full), array) == Some(full),
        crate::cache::inline_choice(None, Some(tools)) == Some(
            ListToolsView { tools, next_cursor: None },
        ),
        crate::cache::inline_choice(None, None) is None,
{
}

/// The tools of an inline text are those that it holds as a whole result, else as a bare
/// array.
pub proof fn law_inline_text_is_read_both_ways(json: Seq<char>)
    ensures
        ({
            let full = crate::outside::tools_result_in(json);
            let array = crate::outside::tools_array_in(json);
            let found = crate::cache::inline_tools_in(json);
            &&& full is Some ==> found == full
            &&& full is None && array is Some ==> found is Some && found->0.tools == array->0
                && found->0.next_cursor is None
            &&& full is None && array is None ==> found is None
        }),
{
}

/// The whole seconds between two moments: no more than have passed, less than one second short
/// of it, and none where no time has passed.
pub proof fn law_seconds_between(since: u64, now: u64)
    ensures
        now <= since ==> crate::model::elapsed_secs(since, now) == 0,
        now > since ==> {
            let secs = crate::model::elapsed_secs(since, now);
            &&& secs * 1_000_000_000 <= now - since
            &&& now - since < (secs + 1) * 1_000_000_000
        },
{
}

/// The versions of the protocol that the proxy can name are these two.
pub proof fn law_supported_versions(version: Seq<char>)
    ensures
        crate::cli::is_supported_version("2024-11-05"@),
        crate::cli::is_supported_version("2025-03-26"@),
        version != "2024-11-05"@ && version != "2025-03-26"@
            ==> !crate::cli::is_supported_version(version),
{
}

} // verus!
