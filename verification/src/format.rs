//! Resolving a virtual-disk format from a path's file extension.
//!
//! The file name of a path is modelled as the part after the last separator,
//! with trailing separators ignored; its extension is what follows the last
//! `.`, provided that dot is not the name's first character. Matching against
//! the known extensions is ASCII-case-insensitive.

use vstd::prelude::*;
use crate::error::Error;

verus! {

/// The two container formats of a virtual disk image.
#[derive(Debug, Clone, Copy, PartialEq, Eq, Structural)]
pub enum VhdType {
    Vhd,
    Vhdx,
}

/// Whether `c` separates path components on the host.
pub open spec fn is_separator(c: char) -> bool {
    c == '/' || c == '\\'
}

/// `s` without its trailing separators.
pub open spec fn trim_trailing_separators(s: Seq<char>) -> Seq<char>
    decreases s.len(),
{
    if s.len() > 0 && is_separator(s.last()) {
        trim_trailing_separators(s.drop_last())
    } else {
        s
    }
}

/// The maximal separator-free suffix of `s`: applied to a path whose trailing
/// separators are trimmed, the part after the last separator.
pub open spec fn after_last_separator(s: Seq<char>) -> Seq<char>
    decreases s.len(),
{
    if s.len() == 0 {
        s
    } else if is_separator(s.last()) {
        Seq::empty()
    } else {
        after_last_separator(s.drop_last()).push(s.last())
    }
}

/// The file name of `path`: the part after the last separator, trailing
/// separators ignored.
pub open spec fn file_name_of(path: Seq<char>) -> Seq<char> {
    after_last_separator(trim_trailing_separators(path))
}

/// The extension of a file name: what follows its last `.`, provided that dot
/// is not the name's first character (a name such as `.config` has none).
pub open spec fn extension_of_name(name: Seq<char>) -> Option<Seq<char>>
    decreases name.len(),
{
    if name.len() <= 1 {
        None
    } else if name.last() == '.' {
        Some(Seq::empty())
    } else {
        match extension_of_name(name.drop_last()) {
            Some(e) => Some(e.push(name.last())),
            None => None,
        }
    }
}

/// The extension of `path`'s file name; a name of `..` (the parent
/// directory) has none.
pub open spec fn path_extension(path: Seq<char>) -> Option<Seq<char>> {
    let name = file_name_of(path);
    if name == seq!['.', '.'] {
        None
    } else {
        extension_of_name(name)
    }
}

/// ASCII lowercasing of one character; anything outside `A`..`Z` is kept.
pub open spec fn ascii_lowercase(c: char) -> char {
    match c {
        'A' => 'a',
        'B' => 'b',
        'C' => 'c',
        'D' => 'd',
        'E' => 'e',
        'F' => 'f',
        'G' => 'g',
        'H' => 'h',
        'I' => 'i',
        'J' => 'j',
        'K' => 'k',
        'L' => 'l',
        'M' => 'm',
        'N' => 'n',
        'O' => 'o',
        'P' => 'p',
        'Q' => 'q',
        'R' => 'r',
        'S' => 's',
        'T' => 't',
        'U' => 'u',
        'V' => 'v',
        'W' => 'w',
        'X' => 'x',
        'Y' => 'y',
        'Z' => 'z',
        _ => c,
    }
}

/// `e` lowercased character by character.
pub open spec fn lowercase_extension(e: Seq<char>) -> Seq<char> {
    Seq::new(e.len(), |i: int| ascii_lowercase(e[i]))
}

/// The format an extension names, matched ASCII-case-insensitively.
pub open spec fn kind_for_extension(e: Seq<char>) -> Option<VhdType> {
    if lowercase_extension(e) == "vhd"@ {
        Some(VhdType::Vhd)
    } else if lowercase_extension(e) == "vhdx"@ {
        Some(VhdType::Vhdx)
    } else {
        None
    }
}

/// The format resolution of `Open`: the forced format when one is given,
/// else the format the path's extension names, if any.
pub open spec fn resolved_kind(path: Seq<char>, force_type: Option<VhdType>) -> Option<VhdType> {
    match force_type {
        Some(k) => Some(k),
        None => match path_extension(path) {
            Some(e) => kind_for_extension(e),
            None => None,
        },
    }
}

/// Extension matching is case-insensitive: an extension names the same
/// format as its lowercased form.
pub proof fn lemma_extension_matching_case_insensitive(e: Seq<char>)
    ensures
        kind_for_extension(e) == kind_for_extension(lowercase_extension(e)),
{
    assert(lowercase_extension(lowercase_extension(e)) =~= lowercase_extension(e));
}

/// A name whose characters past the first are never `.` has no extension.
proof fn lemma_extension_none(name: Seq<char>)
    requires
        forall|k: int| 1 <= k < name.len() ==> name[k] != '.',
    ensures
        extension_of_name(name) is None,
    decreases name.len(),
{
    if name.len() > 1 {
        lemma_extension_none(name.drop_last());
    }
}

/// A name whose last `.` stands at `j >= 1` has what follows it as its
/// extension.
proof fn lemma_extension_some(name: Seq<char>, j: int)
    requires
        1 <= j < name.len(),
        name[j] == '.',
        forall|k: int| j < k < name.len() ==> name[k] != '.',
    ensures
        extension_of_name(name) == Some(name.subrange(j + 1, name.len() as int)),
    decreases name.len(),
{
    if j == name.len() - 1 {
        assert(name.subrange(j + 1, name.len() as int) =~= Seq::empty());
    } else {
        lemma_extension_some(name.drop_last(), j);
        assert(name.drop_last().subrange(j + 1, name.len() - 1).push(name.last()) =~= name
            .subrange(j + 1, name.len() as int));
    }
}

/// Exec counterpart of [`is_separator`].
fn is_separator_char(c: char) -> (r: bool)
    ensures
        r == is_separator(c),
{
    c == '/' || c == '\\'
}

/// Exec counterpart of [`ascii_lowercase`].
fn ascii_lowercase_char(c: char) -> (r: char)
    ensures
        r == ascii_lowercase(c),
{
    match c {
        'A' => 'a',
        'B' => 'b',
        'C' => 'c',
        'D' => 'd',
        'E' => 'e',
        'F' => 'f',
        'G' => 'g',
        'H' => 'h',
        'I' => 'i',
        'J' => 'j',
        'K' => 'k',
        'L' => 'l',
        'M' => 'm',
        'N' => 'n',
        'O' => 'o',
        'P' => 'p',
        'Q' => 'q',
        'R' => 'r',
        'S' => 's',
        'T' => 't',
        'U' => 'u',
        'V' => 'v',
        'W' => 'w',
        'X' => 'x',
        'Y' => 'y',
        'Z' => 'z',
        _ => c,
    }
}

/// The end of `path` once trailing separators are trimmed.
fn trimmed_end(path: &str) -> (end: usize)
    ensures
        end <= path@.len(),
        trim_trailing_separators(path@) == path@.take(end as int),
{
    let ghost s = path@;
    let n = path.unicode_len();
    let mut end = n;
    assert(s.take(n as int) =~= s);
    while end > 0 && is_separator_char(path.get_char(end - 1))
        invariant
            end <= n,
            n == s.len(),
            s == path@,
            trim_trailing_separators(s) == trim_trailing_separators(s.take(end as int)),
        decreases end,
    {
        assert(s.take(end as int).drop_last() =~= s.take(end - 1));
        end = end - 1;
    }
    end
}

/// Where the file name begins: the position after the last separator
/// before `end`.
fn file_name_start(path: &str, end: usize) -> (start: usize)
    requires
        end <= path@.len(),
        trim_trailing_separators(path@) == path@.take(end as int),
    ensures
        start <= end,
        file_name_of(path@) == path@.subrange(start as int, end as int),
{
    let ghost s = path@;
    let mut start = end;
    assert(after_last_separator(s.take(end as int)) =~= after_last_separator(
        s.take(end as int),
    ) + s.subrange(end as int, end as int));
    while start > 0 && !is_separator_char(path.get_char(start - 1))
        invariant
            start <= end <= s.len(),
            s == path@,
            after_last_separator(s.take(end as int)) == after_last_separator(
                s.take(start as int),
            ) + s.subrange(start as int, end as int),
        decreases start,
    {
        assert(s.take(start as int).drop_last() =~= s.take(start - 1));
        assert(after_last_separator(s.take(start - 1)).push(s[start - 1]) + s.subrange(
            start as int,
            end as int,
        ) =~= after_last_separator(s.take(start - 1)) + s.subrange(start - 1, end as int));
        start = start - 1;
    }
    assert(after_last_separator(s.take(start as int)) =~= Seq::<char>::empty());
    assert(Seq::<char>::empty() + s.subrange(start as int, end as int) =~= s.subrange(
        start as int,
        end as int,
    ));
    start
}

/// The position right after the last `.` in `path[start..end]`, or `start`
/// when there is none.
fn position_after_last_dot(path: &str, start: usize, end: usize) -> (dot: usize)
    requires
        start <= end <= path@.len(),
    ensures
        start <= dot <= end,
        forall|k: int| dot <= k < end ==> path@[k] != '.',
        dot > start ==> path@[dot - 1] == '.',
{
    let mut dot = end;
    while dot > start && path.get_char(dot - 1) != '.'
        invariant
            start <= dot <= end <= path@.len(),
            forall|k: int| dot <= k < end ==> path@[k] != '.',
        decreases dot,
    {
        dot = dot - 1;
    }
    dot
}

/// The format that `path[dot..end]` names as an extension, matched
/// ASCII-case-insensitively.
fn kind_of_extension_chars(path: &str, dot: usize, end: usize) -> (r: Option<VhdType>)
    requires
        dot <= end <= path@.len(),
    ensures
        r == kind_for_extension(path@.subrange(dot as int, end as int)),
{
    let ghost ext = path@.subrange(dot as int, end as int);
    proof {
        reveal_strlit("vhd");
        reveal_strlit("vhdx");
    }
    let ext_len = end - dot;
    if ext_len == 3 {
        let l0 = ascii_lowercase_char(path.get_char(dot));
        let l1 = ascii_lowercase_char(path.get_char(dot + 1));
        let l2 = ascii_lowercase_char(path.get_char(dot + 2));
        if l0 == 'v' && l1 == 'h' && l2 == 'd' {
            assert(lowercase_extension(ext) =~= "vhd"@);
            return Some(VhdType::Vhd);
        }
        assert(lowercase_extension(ext) != "vhd"@) by {
            if lowercase_extension(ext) =~= "vhd"@ {
                assert(lowercase_extension(ext)[0] == 'v');
                assert(lowercase_extension(ext)[1] == 'h');
                assert(lowercase_extension(ext)[2] == 'd');
            }
        }
        assert(lowercase_extension(ext) != "vhdx"@) by {
            if lowercase_extension(ext) =~= "vhdx"@ {
                assert(lowercase_extension(ext).len() == 3);
            }
        }
        return None;
    }
    if ext_len == 4 {
        let l0 = ascii_lowercase_char(path.get_char(dot));
        let l1 = ascii_lowercase_char(path.get_char(dot + 1));
        let l2 = ascii_lowercase_char(path.get_char(dot + 2));
        let l3 = ascii_lowercase_char(path.get_char(dot + 3));
        assert(lowercase_extension(ext) != "vhd"@) by {
            if lowercase_extension(ext) =~= "vhd"@ {
                assert(lowercase_extension(ext).len() == 4);
            }
        }
        if l0 == 'v' && l1 == 'h' && l2 == 'd' && l3 == 'x' {
            assert(lowercase_extension(ext) =~= "vhdx"@);
            return Some(VhdType::Vhdx);
        }
        assert(lowercase_extension(ext) != "vhdx"@) by {
            if lowercase_extension(ext) =~= "vhdx"@ {
                assert(lowercase_extension(ext)[0] == 'v');
                assert(lowercase_extension(ext)[1] == 'h');
                assert(lowercase_extension(ext)[2] == 'd');
                assert(lowercase_extension(ext)[3] == 'x');
            }
        }
        return None;
    }
    proof {
        if lowercase_extension(ext) =~= "vhd"@ {
            assert(ext.len() == 3);
        }
        if lowercase_extension(ext) =~= "vhdx"@ {
            assert(ext.len() == 4);
        }
    }
    None
}

/// Resolve the disk format to open `path` as: the forced format when one is
/// given, else the format its extension names; `UnknownFileExtension` when
/// neither is available.
pub fn resolve_vhd_type(path: &str, force_type: Option<VhdType>) -> (r: Result<VhdType, Error>)
    ensures
        match resolved_kind(path@, force_type) {
            Some(k) => r == Ok::<VhdType, Error>(k),
            None => r == Err::<VhdType, Error>(Error::UnknownFileExtension),
        },
{
    if let Some(k) = force_type {
        return Ok(k);
    }
    let ghost s = path@;
    let end = trimmed_end(path);
    let start = file_name_start(path, end);
    let ghost name = s.subrange(start as int, end as int);

    // The parent-directory name has no extension.
    if end - start == 2 && path.get_char(start) == '.' && path.get_char(start + 1) == '.' {
        assert(name =~= seq!['.', '.']);
        return Err(Error::UnknownFileExtension);
    }
    assert(name != seq!['.', '.']) by {
        if name =~= seq!['.', '.'] {
            assert(s[start as int] == '.' && s[start + 1] == '.');
        }
    }

    let dot = position_after_last_dot(path, start, end);
    if dot - start <= 1 {
        // No dot, or a dot only as the name's first character: no extension.
        proof {
            assert forall|k: int| 1 <= k < name.len() implies name[k] != '.' by {
                assert(name[k] == s[start + k]);
            }
            lemma_extension_none(name);
        }
        return Err(Error::UnknownFileExtension);
    }
    // `dot - 1` indexes the last dot of the name, past its first character.
    proof {
        let j = dot - 1 - start;
        assert(name[j] == s[dot - 1]);
        assert forall|k: int| j < k < name.len() implies name[k] != '.' by {
            assert(name[k] == s[start + k]);
        }
        lemma_extension_some(name, j);
        assert(name.subrange(j + 1, name.len() as int) =~= s.subrange(dot as int, end as int));
    }
    assert(path_extension(s) == Some(s.subrange(dot as int, end as int)));

    match kind_of_extension_chars(path, dot, end) {
        Some(k) => Ok(k),
        None => Err(Error::UnknownFileExtension),
    }
}

} // verus!
