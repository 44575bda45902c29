//! Folder names and the paths that are shown and stored.

use vstd::prelude::*;
use crate::outside::{char_is_alphanumeric, is_path_separator, join_path, path_join};
use crate::text::{chars_of, copy_str, push_chars, string_from};

verus! {

/// Name of the content file inside a cycle's folder.
pub const CYCLE_FILE_NAME: &'static str = "cycle_data.json";

/// Name of the index file.
pub const INDEX_FILE_NAME: &'static str = "index.json";

/// Name of the folder that holds the index.
pub const APP_FOLDER_NAME: &'static str = "cycle-planner";

/// The character that stands for `c` in a folder name: letters, numbers,
/// `-` and `_` stand for themselves, everything else becomes `_`.
pub open spec fn folder_char(c: char) -> char {
    if char_is_alphanumeric(c) || c == '-' || c == '_' {
        c
    } else {
        '_'
    }
}

/// `s` without the run of `c` it starts with.
pub open spec fn skip_leading(s: Seq<char>, c: char) -> Seq<char>
    decreases s.len(),
{
    if s.len() > 0 && s[0] == c {
        skip_leading(s.drop_first(), c)
    } else {
        s
    }
}

/// `s` without the run of `c` it ends with.
pub open spec fn skip_trailing(s: Seq<char>, c: char) -> Seq<char>
    decreases s.len(),
{
    if s.len() > 0 && s.last() == c {
        skip_trailing(s.drop_last(), c)
    } else {
        s
    }
}

/// `s` without the runs of `c` at either end.
pub open spec fn trim(s: Seq<char>, c: char) -> Seq<char> {
    skip_trailing(skip_leading(s, c), c)
}

/// The name used when nothing of a cycle's name is left: `cycle`.
pub open spec fn fallback_folder_name() -> Seq<char> {
    seq!['c', 'y', 'c', 'l', 'e']
}

/// The folder name derived from a cycle's name: every character replaced by
/// its `folder_char`, underscores trimmed from both ends, and `cycle` where
/// that leaves nothing.
pub open spec fn sanitized(name: Seq<char>) -> Seq<char> {
    let trimmed = trim(name.map_values(|c: char| folder_char(c)), '_');
    if trimmed.len() == 0 {
        fallback_folder_name()
    } else {
        trimmed
    }
}

/// Trimming leaves no `c` at either end.
pub proof fn lemma_trim_ends(s: Seq<char>, c: char)
    ensures
        trim(s, c).len() > 0 ==> trim(s, c).first() != c && trim(s, c).last() != c,
        trim(s, c).len() <= s.len(),
{
    lemma_skip_leading_shape(s, c);
    lemma_skip_trailing_shape(skip_leading(s, c), c);
}

/// What is left after the leading run is a suffix that does not start with
/// `c`.
pub proof fn lemma_skip_leading_shape(s: Seq<char>, c: char)
    ensures
        skip_leading(s, c).len() <= s.len(),
        skip_leading(s, c) == s.subrange(s.len() - skip_leading(s, c).len(), s.len() as int),
        skip_leading(s, c).len() > 0 ==> skip_leading(s, c).first() != c,
    decreases s.len(),
{
    if s.len() > 0 && s[0] == c {
        let rest = s.drop_first();
        lemma_skip_leading_shape(rest, c);
        let kept = skip_leading(rest, c);
        assert(rest.subrange(rest.len() - kept.len(), rest.len() as int) =~= s.subrange(
            s.len() - kept.len(),
            s.len() as int,
        ));
    } else {
        assert(s.subrange(0, s.len() as int) =~= s);
    }
}

/// What is left after the trailing run is a prefix that does not end with
/// `c`, and it starts as `s` does.
pub proof fn lemma_skip_trailing_shape(s: Seq<char>, c: char)
    ensures
        skip_trailing(s, c).len() <= s.len(),
        skip_trailing(s, c) == s.subrange(0, skip_trailing(s, c).len() as int),
        skip_trailing(s, c).len() > 0 ==> skip_trailing(s, c).last() != c,
    decreases s.len(),
{
    if s.len() > 0 && s.last() == c {
        let rest = s.drop_last();
        lemma_skip_trailing_shape(rest, c);
        let kept = skip_trailing(rest, c);
        assert(rest.subrange(0, kept.len() as int) =~= s.subrange(0, kept.len() as int));
    } else {
        assert(s.subrange(0, s.len() as int) =~= s);
    }
}

/// A sanitized name is never empty and neither starts nor ends with an
/// underscore.
pub proof fn lemma_sanitized_shape(name: Seq<char>)
    ensures
        sanitized(name).len() > 0,
        sanitized(name).first() != '_',
        sanitized(name).last() != '_',
{
    lemma_trim_ends(name.map_values(|c: char| folder_char(c)), '_');
}

/// Unless it is the fallback `cycle`, a sanitized name holds only characters
/// that stand for themselves in a folder name: letters, numbers, `-` and
/// `_`.
pub proof fn lemma_sanitized_is_safe(name: Seq<char>, i: int)
    requires
        0 <= i < sanitized(name).len(),
    ensures
        sanitized(name) == fallback_folder_name() || folder_char(sanitized(name)[i]) == sanitized(
            name,
        )[i],
{
    let replaced = name.map_values(|c: char| folder_char(c));
    let leading = skip_leading(replaced, '_');
    let trimmed = skip_trailing(leading, '_');
    lemma_skip_leading_shape(replaced, '_');
    lemma_skip_trailing_shape(leading, '_');
    if trimmed.len() > 0 {
        let at = i + (replaced.len() - leading.len());
        assert(trimmed[i] == leading[i]);
        assert(leading[i] == replaced[at]);
        assert(replaced[at] == folder_char(name[at]));
    }
}

/// Derives a folder name from the name of a cycle.
pub fn sanitize_folder_name(name: &str) -> (folder: String)
    ensures
        folder@ == sanitized(name@),
{
    broadcast use vstd::string::group_string_axioms;

    let ghost replaced = name@.map_values(|c: char| folder_char(c));
    let mut out: Vec<char> = Vec::new();
    for ch in it: name.chars()
        invariant
            it.seq() == name@,
            replaced == name@.map_values(|c: char| folder_char(c)),
            out@ == replaced.take(it.index()),
    {
        if ch.is_alphanumeric() || ch == '-' || ch == '_' {
            out.push(ch);
        } else {
            out.push('_');
        }
        assert(out@ =~= replaced.take(it.index() + 1));
    }
    assert(out@ =~= replaced);

    let len = out.len();
    let mut start: usize = 0;
    while start < len && out[start] == '_'
        invariant
            len == out.len(),
            start <= len,
            skip_leading(out@, '_') == skip_leading(out@.subrange(start as int, len as int), '_'),
        decreases len - start,
    {
        assert(out@.subrange(start as int, len as int).drop_first() =~= out@.subrange(
            start as int + 1,
            len as int,
        ));
        start += 1;
    }
    assert(out@.subrange(0, len as int) =~= out@);
    let ghost leading = out@.subrange(start as int, len as int);
    assert(skip_leading(out@, '_') == leading);

    let mut end: usize = len;
    while end > start && out[end - 1] == '_'
        invariant
            len == out.len(),
            start <= end <= len,
            leading == out@.subrange(start as int, len as int),
            skip_trailing(leading, '_') == skip_trailing(
                out@.subrange(start as int, end as int),
                '_',
            ),
        decreases end - start,
    {
        assert(out@.subrange(start as int, end as int).drop_last() =~= out@.subrange(
            start as int,
            end as int - 1,
        ));
        end -= 1;
    }
    assert(trim(out@, '_') == out@.subrange(start as int, end as int));

    if start == end {
        proof {
            reveal_strlit("cycle");
        }
        let folder = copy_str("cycle");
        assert(folder@ =~= fallback_folder_name());
        folder
    } else {
        string_from(&out, start, end)
    }
}

/// The prefix that marks a Windows verbatim path: `\\?\`.
pub open spec fn verbatim_prefix() -> Seq<char> {
    seq!['\\', '\\', '?', '\\']
}

/// The prefix that marks a Windows verbatim path to a network share:
/// `\\?\UNC\`.
pub open spec fn verbatim_unc_prefix() -> Seq<char> {
    seq!['\\', '\\', '?', '\\', 'U', 'N', 'C', '\\']
}

/// A path as it is shown and stored.
///
/// Where the platform writes verbatim paths, a verbatim path to a network
/// share has its prefix replaced by two backslashes and any other verbatim
/// path loses its prefix. Every other path, and every path on other
/// platforms, is kept as it is.
pub open spec fn display_path(path: Seq<char>, verbatim_paths: bool) -> Seq<char> {
    if verbatim_paths && verbatim_unc_prefix().is_prefix_of(path) {
        seq!['\\', '\\'] + path.skip(8)
    } else if verbatim_paths && verbatim_prefix().is_prefix_of(path) {
        path.skip(4)
    } else {
        path
    }
}

/// A path without a verbatim prefix, and every path on a platform without
/// verbatim paths, is shown as it is.
pub proof fn lemma_display_path_keeps_plain(path: Seq<char>, verbatim_paths: bool)
    requires
        !verbatim_paths || !verbatim_prefix().is_prefix_of(path),
    ensures
        display_path(path, verbatim_paths) == path,
{
    if verbatim_paths && verbatim_unc_prefix().is_prefix_of(path) {
        assert(verbatim_prefix() =~= verbatim_unc_prefix().take(4));
        assert(path.take(4) =~= path.take(8).take(4));
    }
}

/// Whether `chars` starts with a verbatim prefix: backslash, backslash,
/// question mark, backslash.
fn starts_verbatim(chars: &Vec<char>) -> (verbatim: bool)
    ensures
        verbatim == verbatim_prefix().is_prefix_of(chars@),
{
    if chars.len() < 4 {
        return false;
    }
    let verbatim = chars[0] == '\\' && chars[1] == '\\' && chars[2] == '?' && chars[3] == '\\';
    proof {
        if verbatim {
            assert(chars@.take(4) =~= verbatim_prefix());
        } else {
            if verbatim_prefix().is_prefix_of(chars@) {
                assert(chars@.take(4) == verbatim_prefix());
                assert(chars@.take(4)[0] == chars@[0]);
                assert(chars@.take(4)[1] == chars@[1]);
                assert(chars@.take(4)[2] == chars@[2]);
                assert(chars@.take(4)[3] == chars@[3]);
            }
        }
    }
    verbatim
}

/// Whether `chars` starts with the verbatim prefix of a network share.
fn starts_verbatim_unc(chars: &Vec<char>) -> (unc: bool)
    ensures
        unc == verbatim_unc_prefix().is_prefix_of(chars@),
{
    if chars.len() < 8 {
        return false;
    }
    let unc = chars[0] == '\\' && chars[1] == '\\' && chars[2] == '?' && chars[3] == '\\'
        && chars[4] == 'U' && chars[5] == 'N' && chars[6] == 'C' && chars[7] == '\\';
    proof {
        if unc {
            assert(chars@.take(8) =~= verbatim_unc_prefix());
        } else {
            if verbatim_unc_prefix().is_prefix_of(chars@) {
                let head = chars@.take(8);
                assert(head == verbatim_unc_prefix());
                assert(head[0] == chars@[0] && head[1] == chars@[1] && head[2] == chars@[2]
                    && head[3] == chars@[3]);
                assert(head[4] == chars@[4] && head[5] == chars@[5] && head[6] == chars@[6]
                    && head[7] == chars@[7]);
            }
        }
    }
    unc
}

/// Normalizes `path` for display on a platform that writes verbatim paths
/// (`verbatim_paths`) or one that does not.
pub fn normalize_path_for(path: &str, verbatim_paths: bool) -> (shown: String)
    ensures
        shown@ == display_path(path@, verbatim_paths),
{
    let chars = chars_of(path);
    let len = chars.len();
    if verbatim_paths && starts_verbatim_unc(&chars) {
        let mut shown = String::new();
        shown.push('\\');
        shown.push('\\');
        push_chars(&mut shown, &chars, 8, len);
        assert(shown@ =~= seq!['\\', '\\'] + path@.skip(8));
        shown
    } else if verbatim_paths && starts_verbatim(&chars) {
        let shown = string_from(&chars, 4, len);
        assert(shown@ =~= path@.skip(4));
        shown
    } else {
        let shown = string_from(&chars, 0, len);
        assert(shown@ =~= path@);
        shown
    }
}

/// Whether this platform writes verbatim paths: it does where the
/// backslash separates path components.
pub open spec fn verbatim_paths_here() -> bool {
    is_path_separator('\\')
}

/// Whether this platform writes verbatim paths: it does where the
/// backslash separates path components.
pub fn platform_has_verbatim_paths() -> (verbatim: bool)
    ensures
        verbatim == verbatim_paths_here(),
{
    std::path::is_separator('\\')
}

/// Normalizes `path` for display on this platform.
pub fn normalize_display_path(path: &str) -> (shown: String)
    ensures
        shown@ == display_path(path@, verbatim_paths_here()),
{
    normalize_path_for(path, platform_has_verbatim_paths())
}

/// The path of the content file of the cycle stored in `folder`.
pub fn cycle_file_path(folder: &str) -> (file: String)
    ensures
        file@ == path_join(folder@, CYCLE_FILE_NAME@),
{
    join_path(folder, CYCLE_FILE_NAME)
}

/// The folder that holds the index, below the folder `config_dir` that the
/// platform gives the application for its settings.
pub fn app_data_dir(config_dir: &str) -> (dir: String)
    ensures
        dir@ == path_join(config_dir@, APP_FOLDER_NAME@),
{
    join_path(config_dir, APP_FOLDER_NAME)
}

/// The path of the index file in the folder `data_dir`.
pub fn index_file_path(data_dir: &str) -> (file: String)
    ensures
        file@ == path_join(data_dir@, INDEX_FILE_NAME@),
{
    join_path(data_dir, INDEX_FILE_NAME)
}

} // verus!
