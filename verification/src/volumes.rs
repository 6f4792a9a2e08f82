//! Volume snapshots: parsing the host's drive-string buffer and diffing two
//! snapshots to find the volume that an attach produced.

use vstd::prelude::*;

verus! {

/// The first identifier of `after` that does not occur in `before`, in
/// `after`'s order; `None` when every identifier of `after` was already
/// visible in `before`.
pub open spec fn first_new_letter(before: Seq<char>, after: Seq<char>) -> Option<char>
    decreases after.len(),
{
    if after.len() == 0 {
        None
    } else if !before.contains(after[0]) {
        Some(after[0])
    } else {
        first_new_letter(before, after.drop_first())
    }
}

/// Diff two volume snapshots: the first letter of `after` that is absent from
/// `before` is the volume the attach produced.
pub fn get_new_drive_letter(before: &[char], after: &[char]) -> (r: Option<char>)
    ensures
        r == first_new_letter(before@, after@),
{
    let mut i: usize = 0;
    assert(after@.skip(0) =~= after@);
    while i < after.len()
        invariant
            i <= after@.len(),
            first_new_letter(before@, after@) == first_new_letter(before@, after@.skip(i as int)),
            forall|j: int| 0 <= j < i ==> before@.contains(#[trigger] after@[j]),
        decreases after@.len() - i,
    {
        let candidate = after[i];
        if !contains_letter(before, candidate) {
            assert(after@.skip(i as int)[0] == after@[i as int]);
            return Some(candidate);
        }
        assert(after@.skip(i as int).drop_first() =~= after@.skip(i as int + 1));
        i = i + 1;
    }
    assert(after@.skip(i as int).len() == 0);
    None
}

/// What the diff yields, for any pair of snapshots: a letter of `after` that
/// is absent from `before` and is the first such, or `None` exactly when
/// every letter of `after` was already visible in `before`.
pub proof fn lemma_first_new_letter(before: Seq<char>, after: Seq<char>)
    ensures
        match first_new_letter(before, after) {
            Some(c) => exists|i: int|
                0 <= i < after.len() && after[i] == c && !before.contains(c) && (forall|j: int|
                    0 <= j < i ==> before.contains(#[trigger] after[j])),
            None => forall|i: int| 0 <= i < after.len() ==> before.contains(#[trigger] after[i]),
        },
    decreases after.len(),
{
    if after.len() > 0 && before.contains(after[0]) {
        lemma_first_new_letter(before, after.drop_first());
        match first_new_letter(before, after.drop_first()) {
            Some(c) => {
                let i = choose|i: int|
                    0 <= i < after.drop_first().len() && after.drop_first()[i] == c
                        && !before.contains(c) && (forall|j: int|
                        0 <= j < i ==> before.contains(#[trigger] after.drop_first()[j]));
                assert(after[i + 1] == c);
                assert forall|j: int| 0 <= j < i + 1 implies before.contains(
                    #[trigger] after[j],
                ) by {
                    if j > 0 {
                        assert(after[j] == after.drop_first()[j - 1]);
                    }
                }
            },
            None => {
                assert forall|k: int| 0 <= k < after.len() implies before.contains(
                    #[trigger] after[k],
                ) by {
                    if k > 0 {
                        assert(after[k] == after.drop_first()[k - 1]);
                    }
                }
            },
        }
    }
}

/// Whether `u` is a Unicode scalar value, and so stands for a character.
pub open spec fn is_scalar_u16(u: u16) -> bool {
    u < 0xD800 || u >= 0xE000
}

/// The scan of a drive-strings buffer, from cursor `i` with the current
/// string beginning at `start`: at each NUL that closes a nonempty string,
/// the string's first unit yields a letter if it stands for a character;
/// whatever follows the last NUL is dropped.
pub open spec fn scan_letters(buf: Seq<u16>, start: int, i: int) -> Seq<char>
    decreases buf.len() - i
        when 0 <= i <= buf.len()

{
    if i >= buf.len() {
        Seq::empty()
    } else if buf[i] == 0 {
        (if 0 <= start < i && is_scalar_u16(buf[start]) {
            seq![(buf[start] as u32) as char]
        } else {
            Seq::empty()
        }) + scan_letters(buf, i + 1, i + 1)
    } else {
        scan_letters(buf, start, i + 1)
    }
}

/// The volume letters a drive-strings buffer holds: the first character of
/// each NUL-terminated string in it.
pub open spec fn drive_letters_in(buf: Seq<u16>) -> Seq<char> {
    scan_letters(buf, 0, 0)
}

/// Relies on char::from_u32: it returns the character of `u` exactly when
/// `u` is a Unicode scalar value (not a surrogate, not above the maximum).
pub assume_specification[ char::from_u32 ](u: u32) -> (r: Option<char>)
    ensures
        r is Some <==> (u < 0xD800 || (0xE000 <= u && u <= 0x10FFFF)),
        match r {
            Some(c) => c as u32 == u,
            None => true,
        },
;

/// Parse the drive-strings buffer the host's volume enumeration fills: a
/// run of NUL-terminated UTF-16 strings, one per volume root. The first
/// unit of each string is its drive letter.
pub fn parse_drive_strings(buffer: &[u16]) -> (r: Vec<char>)
    ensures
        r@ == drive_letters_in(buffer@),
{
    let ghost s = buffer@;
    let mut letters: Vec<char> = Vec::new();
    let mut start: usize = 0;
    let mut i: usize = 0;
    assert(letters@ + scan_letters(s, 0, 0) =~= scan_letters(s, 0, 0));
    while i < buffer.len()
        invariant
            start <= i <= s.len(),
            s == buffer@,
            drive_letters_in(s) == letters@ + scan_letters(s, start as int, i as int),
        decreases s.len() - i,
    {
        let ghost letters_before = letters@;
        if buffer[i] == 0 {
            proof {
                if start < i && is_scalar_u16(s[start as int]) {
                    assert((letters_before + seq![(s[start as int] as u32) as char])
                        + scan_letters(s, i as int + 1, i as int + 1) =~= letters_before + (seq![
                        (s[start as int] as u32) as char,
                    ] + scan_letters(s, i as int + 1, i as int + 1)));
                } else {
                    assert(letters_before + (Seq::<char>::empty() + scan_letters(
                        s,
                        i as int + 1,
                        i as int + 1,
                    )) =~= letters_before + scan_letters(s, i as int + 1, i as int + 1));
                }
            }
            if start < i {
                let u = buffer[start];
                if u < 0xD800 || u >= 0xE000 {
                    if let Some(c) = char::from_u32(u as u32) {
                        proof {
                            vstd::utf8::char_u32_cast(c, u as u32);
                        }
                        letters.push(c);
                        assert(letters@ =~= letters_before + seq![(s[start as int] as u32) as char]);
                    }
                }
            }
            start = i + 1;
        }
        i = i + 1;
    }
    assert(letters@ + scan_letters(s, start as int, i as int) =~= letters@);
    letters
}

/// Whether `letters` holds `c`.
fn contains_letter(letters: &[char], c: char) -> (r: bool)
    ensures
        r == letters@.contains(c),
{
    let mut i: usize = 0;
    while i < letters.len()
        invariant
            i <= letters@.len(),
            forall|j: int| 0 <= j < i ==> letters@[j] != c,
        decreases letters@.len() - i,
    {
        if letters[i] == c {
            return true;
        }
        i = i + 1;
    }
    false
}

} // verus!
