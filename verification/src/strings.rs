//! Operations on strings of the standard library that the toolkit needs and
//! that are not specified elsewhere.
//!
//! What each function promises is taken from the documentation of the
//! function of the standard library that it calls; none of it is proved here.

use vstd::prelude::*;
use vstd::string::*;

verus! {

/// The lines joined by a line feed between each two of them.
pub open spec fn join_lines(lines: Seq<Seq<char>>) -> Seq<char>
    decreases lines.len(),
{
    if lines.len() == 0 {
        Seq::empty()
    } else if lines.len() == 1 {
        lines[0]
    } else {
        join_lines(lines.drop_last()).push('\n') + lines.last()
    }
}

/// The strings of `lines`, each as its sequence of characters.
pub open spec fn views(lines: Seq<String>) -> Seq<Seq<char>> {
    Seq::new(lines.len(), |i: int| lines[i]@)
}

/// `str::eq`: whether the two strings hold the same characters.
#[verifier::external_body]
pub(crate) fn str_eq(a: &str, b: &str) -> (r: bool)
    ensures
        r == (a@ == b@),
{
    a == b
}

/// `str::split_once` at a line feed: the part of `text` before its first
/// line feed and the part after it, or `None` if `text` holds no line feed.
#[verifier::external_body]
pub(crate) fn split_at_line_feed<'a>(text: &'a str) -> (r: Option<(&'a str, &'a str)>)
    ensures
        r.is_none() == !text@.contains('\n'),
        r matches Some(parts) ==> !parts.0@.contains('\n') && text@ == parts.0@.push('\n')
            + parts.1@,
{
    text.split_once('\n')
}

/// The pieces between the line feeds of `text`, in order. There is at least
/// one piece, no piece holds a line feed, and the pieces joined by line feeds
/// give `text` back.
pub fn split_lines(text: &str) -> (lines: Vec<String>)
    ensures
        lines@.len() >= 1,
        forall|i: int| 0 <= i < lines@.len() ==> !lines@[i]@.contains('\n'),
        join_lines(views(lines@)) == text@,
{
    let mut lines: Vec<String> = Vec::new();
    let mut rest = text;
    loop
        invariant_except_break
            text@ == (if lines@.len() == 0 {
                rest@
            } else {
                join_lines(views(lines@)).push('\n') + rest@
            }),
        invariant
            forall|i: int| 0 <= i < lines@.len() ==> !lines@[i]@.contains('\n'),
        ensures
            lines@.len() >= 1,
            forall|i: int| 0 <= i < lines@.len() ==> !lines@[i]@.contains('\n'),
            join_lines(views(lines@)) == text@,
        decreases rest@.len(),
    {
        let ghost before = views(lines@);
        match split_at_line_feed(rest) {
            Some((line, after)) => {
                lines.push(line.to_owned());
                proof {
                    let now = views(lines@);
                    assert(now.drop_last() =~= before);
                    assert(now.last() == line@);
                    assert(rest@.len() == line@.len() + 1 + after@.len());
                    if before.len() == 0 {
                        assert(join_lines(now) == line@);
                    } else {
                        assert(join_lines(now) == join_lines(before).push('\n') + line@);
                        assert(join_lines(before).push('\n') + (line@.push('\n') + after@)
                            =~= (join_lines(before).push('\n') + line@).push('\n') + after@);
                    }
                }
                rest = after;
            },
            None => {
                lines.push(rest.to_owned());
                proof {
                    let now = views(lines@);
                    assert(now.drop_last() =~= before);
                    assert(now.last() == rest@);
                }
                break ;
            },
        }
    }
    lines
}

/// `String::insert` on a string of ASCII characters, where every index up to
/// the length is a character boundary: `c` is put before the character at
/// `idx`.
#[verifier::external_body]
pub(crate) fn string_insert(s: &mut String, idx: usize, c: char)
    requires
        old(s).is_ascii(),
        idx <= old(s)@.len(),
    ensures
        final(s)@ == old(s)@.insert(idx as int, c),
{
    s.insert(idx, c);
}

/// `String::remove` on a string of ASCII characters: the character at `idx`
/// is taken out and returned.
#[verifier::external_body]
pub(crate) fn string_remove(s: &mut String, idx: usize) -> (c: char)
    requires
        old(s).is_ascii(),
        idx < old(s)@.len(),
    ensures
        final(s)@ == old(s)@.remove(idx as int),
        c == old(s)@[idx as int],
{
    s.remove(idx)
}

} // verus!
