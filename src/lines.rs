//! Splitting a text into its lines.
//!
//! A line is a maximal run of characters without `'\n'`, less a `'\r'` that
//! ends it; empty lines are skipped.

use vstd::prelude::*;
use vstd::std_specs::iter::IteratorSpec;
use vstd::string::{axiom_spec_iter, next_postcondition};

verus! {

broadcast use axiom_spec_iter, next_postcondition;

/// The views of a list of strings.
pub open spec fn names_of(v: Seq<String>) -> Seq<Seq<char>> {
    v.map_values(|s: String| s@)
}

/// A piece of text between newlines, less the `'\r'` that may end it.
pub open spec fn trim_cr(piece: Seq<char>) -> Seq<char> {
    if piece.len() > 0 && piece.last() == '\r' {
        piece.drop_last()
    } else {
        piece
    }
}

/// `lines` with the line of `piece` added, unless that line is empty.
pub open spec fn add_line(lines: Seq<Seq<char>>, piece: Seq<char>) -> Seq<Seq<char>> {
    if trim_cr(piece).len() > 0 {
        lines.push(trim_cr(piece))
    } else {
        lines
    }
}

/// Reading `text` from the start: the lines before its last newline, and the
/// piece after that newline.
pub open spec fn scan_lines(text: Seq<char>) -> (Seq<Seq<char>>, Seq<char>)
    decreases text.len(),
{
    if text.len() == 0 {
        (Seq::empty(), Seq::empty())
    } else {
        let (done, piece) = scan_lines(text.drop_last());
        if text.last() == '\n' {
            (add_line(done, piece), Seq::empty())
        } else {
            (done, piece.push(text.last()))
        }
    }
}

/// The non-empty lines of `text`, in order.
pub open spec fn lines_of(text: Seq<char>) -> Seq<Seq<char>> {
    add_line(scan_lines(text).0, scan_lines(text).1)
}

/// Relies on `String::push`: the character is appended.
pub assume_specification[ String::push ](s: &mut String, ch: char)
    ensures
        final(s)@ == old(s)@.push(ch),
;

/// The non-empty lines of `text`, in order, each without the `'\r'` that may
/// end it.
pub fn split_lines(text: &str) -> (r: Vec<String>)
    ensures
        names_of(r@) == lines_of(text@),
{
    let mut lines: Vec<String> = Vec::new();
    let mut cur = String::new();
    // A '\r' that was read last and not yet added to `cur`.
    let mut cr = false;
    let mut it = text.chars();
    let ghost mut pos: int = 0;
    loop
        invariant
            0 <= pos <= text@.len(),
            it.remaining() == text@.skip(pos),
            scan_lines(text@.take(pos)).0 == names_of(lines@),
            scan_lines(text@.take(pos)).1 == if cr {
                cur@.push('\r')
            } else {
                cur@
            },
            !cr ==> !(cur@.len() > 0 && cur@.last() == '\r'),
        ensures
            scan_lines(text@).0 == names_of(lines@),
            scan_lines(text@).1 == if cr {
                cur@.push('\r')
            } else {
                cur@
            },
            !cr ==> !(cur@.len() > 0 && cur@.last() == '\r'),
        decreases text@.len() - pos,
    {
        let ghost before = text@.take(pos);
        let ghost old_lines = lines@;
        let ghost old_cur = cur@;
        match it.next() {
            None => {
                assert(text@.take(pos) =~= text@);
                break;
            },
            Some(c) => {
                assert(c == text@[pos]);
                assert(text@.take(pos + 1).drop_last() =~= before);
                assert(trim_cr(scan_lines(before).1) == old_cur);
                if c == '\n' {
                    if !cur.as_str().is_empty() {
                        lines.push(cur);
                        assert(names_of(lines@) =~= names_of(old_lines).push(old_cur));
                    }
                    cur = String::new();
                    cr = false;
                } else if c == '\r' {
                    if cr {
                        cur.push('\r');
                    }
                    cr = true;
                } else {
                    if cr {
                        cur.push('\r');
                    }
                    cur.push(c);
                    cr = false;
                }
                proof {
                    let t = text@.take(pos + 1);
                    assert(t.last() == c);
                    assert(names_of(lines@) =~= scan_lines(t).0);
                    assert(text@.skip(pos + 1) =~= text@.skip(pos).drop_first());
                    pos = pos + 1;
                }
            },
        }
    }
    let ghost old_lines = lines@;
    let ghost old_cur = cur@;
    assert(trim_cr(scan_lines(text@).1) == old_cur);
    if !cur.as_str().is_empty() {
        lines.push(cur);
        assert(names_of(lines@) =~= names_of(old_lines).push(old_cur));
    }
    assert(names_of(lines@) =~= lines_of(text@));
    lines
}

} // verus!
