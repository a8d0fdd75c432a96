//! Small operations on text, stated over sequences of characters.

use vstd::prelude::*;
use vstd::std_specs::iter::IteratorSpec;
use vstd::string::StringExecFns;

verus! {

/// Whether a character beyond ASCII has the Unicode property `White_Space`.
pub uninterp spec fn wide_white_space(c: char) -> bool;

/// Whether a character is one of ASCII: below U+0080.
pub open spec fn ascii(c: char) -> bool {
    c <= '\u{7f}'
}

/// The white space of ASCII: the space, and the controls from the tabulator
/// (U+0009) to the carriage return (U+000D).
pub open spec fn ascii_white_space(c: char) -> bool {
    c == ' ' || ('\u{9}' <= c && c <= '\u{d}')
}

/// Whether a character has the Unicode property `White_Space`: for ASCII as
/// [`ascii_white_space`] says, beyond it as the character database has it.
pub open spec fn white_space(c: char) -> bool {
    if ascii(c) {
        ascii_white_space(c)
    } else {
        wide_white_space(c)
    }
}

/// A text is blank when it holds nothing but white space; the empty text is blank.
pub open spec fn blank(s: Seq<char>) -> bool {
    forall|i: int| 0 <= i < s.len() ==> white_space(#[trigger] s[i])
}

/// `char::is_whitespace` of the standard library: whether the character has the
/// property `White_Space` of the Unicode character database. Below U+0080 those
/// are the space and U+0009 to U+000D and no others; of the characters beyond,
/// nothing is said but that the answer depends on the character alone.
#[verifier::external_body]
fn is_white_space(c: char) -> (b: bool)
    ensures
        b == (if ascii(c) {
            ascii_white_space(c)
        } else {
            wide_white_space(c)
        }),
{
    c.is_whitespace()
}

/// Whether a text is empty or holds only white space.
pub fn is_blank(s: &str) -> (b: bool)
    ensures
        b == blank(s@),
{
    for c in it: s.chars()
        invariant
            it.seq() == s@,
            forall|i: int| 0 <= i < it.index() ==> white_space(#[trigger] s@[i]),
    {
        if !is_white_space(c) {
            return false;
        }
    }
    true
}

/// Whether two texts hold the same characters.
pub fn same_text(a: &str, b: &str) -> (same: bool)
    ensures
        same == (a@ == b@),
{
    let mut left = a.chars();
    let mut right = b.chars();
    let ghost mut done: int = 0;
    loop
        invariant
            left.obeys_prophetic_iter_laws(),
            right.obeys_prophetic_iter_laws(),
            0 <= done <= a@.len(),
            done <= b@.len(),
            left.remaining() == a@.skip(done),
            right.remaining() == b@.skip(done),
            a@.take(done) == b@.take(done),
            left.decrease() is Some,
        decreases left.decrease()->0,
    {
        let x = left.next();
        let y = right.next();
        match (x, y) {
            (None, None) => {
                proof {
                    assert(a@.take(done) == a@);
                    assert(b@.take(done) == b@);
                }
                return true;
            },
            (Some(p), Some(q)) => {
                if p != q {
                    proof {
                        assert(a@[done] != b@[done]);
                    }
                    return false;
                }
                proof {
                    assert(a@.take(done + 1) == a@.take(done).push(a@[done]));
                    assert(b@.take(done + 1) == b@.take(done).push(b@[done]));
                    assert(a@.skip(done).drop_first() == a@.skip(done + 1));
                    assert(b@.skip(done).drop_first() == b@.skip(done + 1));
                    done = done + 1;
                }
            },
            _ => {
                proof {
                    assert(a@.len() != b@.len());
                }
                return false;
            },
        }
    }
}

/// A character with the ASCII capitals turned into small letters.
pub open spec fn ascii_lower(c: char) -> char {
    if 'A' <= c && c <= 'Z' {
        ((c as u8) + 32) as char
    } else {
        c
    }
}

/// A text with its ASCII capitals turned into small letters.
pub open spec fn ascii_folded(s: Seq<char>) -> Seq<char> {
    Seq::new(s.len(), |i: int| ascii_lower(s[i]))
}

/// The small letter of an ASCII capital; any other character unchanged.
pub fn to_ascii_lower(c: char) -> (r: char)
    ensures
        r == ascii_lower(c),
{
    if 'A' <= c && c <= 'Z' {
        ((c as u8) + 32) as char
    } else {
        c
    }
}

/// Whether two texts are the same once ASCII capitals and small letters are
/// taken as one.
pub fn same_text_ignoring_ascii_case(a: &str, b: &str) -> (same: bool)
    ensures
        same == (ascii_folded(a@) == ascii_folded(b@)),
{
    let mut left = a.chars();
    let mut right = b.chars();
    let ghost mut done: int = 0;
    loop
        invariant
            left.obeys_prophetic_iter_laws(),
            right.obeys_prophetic_iter_laws(),
            0 <= done <= a@.len(),
            done <= b@.len(),
            left.remaining() == a@.skip(done),
            right.remaining() == b@.skip(done),
            forall|i: int| 0 <= i < done ==> ascii_lower(#[trigger] a@[i]) == ascii_lower(b@[i]),
            left.decrease() is Some,
        decreases left.decrease()->0,
    {
        let x = left.next();
        let y = right.next();
        match (x, y) {
            (None, None) => {
                proof {
                    assert(ascii_folded(a@) =~= ascii_folded(b@));
                }
                return true;
            },
            (Some(p), Some(q)) => {
                if to_ascii_lower(p) != to_ascii_lower(q) {
                    proof {
                        assert(ascii_folded(a@)[done] == ascii_lower(a@[done]));
                        assert(ascii_folded(b@)[done] == ascii_lower(b@[done]));
                    }
                    return false;
                }
                proof {
                    assert(a@.skip(done).drop_first() == a@.skip(done + 1));
                    assert(b@.skip(done).drop_first() == b@.skip(done + 1));
                    done = done + 1;
                }
            },
            _ => {
                proof {
                    assert(ascii_folded(a@).len() != ascii_folded(b@).len());
                }
                return false;
            },
        }
    }
}

/// The texts of a list, each followed by the next after a separator.
pub open spec fn joined(parts: Seq<Seq<char>>, separator: Seq<char>) -> Seq<char>
    decreases parts.len(),
{
    if parts.len() == 0 {
        Seq::empty()
    } else if parts.len() == 1 {
        parts[0]
    } else {
        joined(parts.drop_last(), separator) + separator + parts.last()
    }
}

/// Joins the texts of a list with a separator between neighbours.
pub fn join(parts: &Vec<String>, separator: &str) -> (r: String)
    ensures
        r@ == joined(parts.deep_view(), separator@),
{
    let mut r = String::new();
    let mut i: usize = 0;
    while i < parts.len()
        invariant
            0 <= i <= parts.len(),
            r@ == joined(parts.deep_view().take(i as int), separator@),
        decreases parts.len() - i,
    {
        let ghost before = parts.deep_view().take(i as int);
        let ghost after = parts.deep_view().take(i + 1);
        proof {
            assert(after.drop_last() == before);
            assert(after.last() == parts[i as int]@);
        }
        if i > 0 {
            r.append(separator);
        }
        r.append(parts[i].as_str());
        proof {
            if i == 0 {
                assert(r@ == after[0]);
            }
        }
        i = i + 1;
    }
    proof {
        assert(parts.deep_view().take(parts.len() as int) == parts.deep_view());
    }
    r
}

/// Where the last segment of a path begins: behind its last `/`, or at 0.
pub open spec fn last_segment_start(s: Seq<char>) -> int
    decreases s.len(),
{
    if s.len() == 0 {
        0
    } else if s.last() == '/' {
        s.len() as int
    } else {
        last_segment_start(s.drop_last())
    }
}

/// What follows the last `/` of a path; the whole text where it holds none.
pub open spec fn last_segment(s: Seq<char>) -> Seq<char> {
    s.skip(last_segment_start(s))
}

/// The last segment holds no `/`, and it is the longest such end of the path.
pub proof fn lemma_last_segment(s: Seq<char>)
    ensures
        0 <= last_segment_start(s) <= s.len(),
        !last_segment(s).contains('/'),
        last_segment_start(s) > 0 ==> s[last_segment_start(s) - 1] == '/',
    decreases s.len(),
{
    if s.len() > 0 && s.last() != '/' {
        let rest = s.drop_last();
        lemma_last_segment(rest);
        let start = last_segment_start(rest);
        assert forall|i: int| 0 <= i < s.skip(start).len() implies s.skip(start)[i] != '/' by {
            if i < rest.skip(start).len() {
                assert(rest.skip(start)[i] == s.skip(start)[i]);
                assert(rest.skip(start).contains(rest.skip(start)[i]));
            }
        }
    }
}

/// The part of a path behind its last `/`.
pub fn last_path_segment(path: &str) -> (r: String)
    ensures
        r@ == last_segment(path@),
{
    let n = path.unicode_len();
    let mut start: usize = 0;
    let mut i: usize = 0;
    for c in it: path.chars()
        invariant
            it.seq() == path@,
            i == it.index(),
            n == path@.len(),
            start == last_segment_start(path@.take(i as int)),
            start <= i,
    {
        proof {
            assert(path@.take(i + 1).drop_last() == path@.take(i as int));
        }
        i = i + 1;
        if c == '/' {
            start = i;
        }
    }
    proof {
        assert(path@.take(n as int) == path@);
        assert(path@.subrange(start as int, n as int) == path@.skip(start as int));
    }
    path.substring_char(start, n).to_owned()
}

/// The character of a decimal digit.
pub open spec fn digit(d: int) -> char {
    if d == 0 {
        '0'
    } else if d == 1 {
        '1'
    } else if d == 2 {
        '2'
    } else if d == 3 {
        '3'
    } else if d == 4 {
        '4'
    } else if d == 5 {
        '5'
    } else if d == 6 {
        '6'
    } else if d == 7 {
        '7'
    } else if d == 8 {
        '8'
    } else {
        '9'
    }
}

/// A natural number written in decimal digits, without leading zeros.
pub open spec fn decimal(n: nat) -> Seq<char>
    decreases n,
{
    if n < 10 {
        seq![digit(n as int)]
    } else {
        decimal(n / 10).push(digit((n % 10) as int))
    }
}

fn digit_text(d: u16) -> (r: &'static str)
    requires
        d < 10,
    ensures
        r@ == seq![digit(d as int)],
{
    proof {
        reveal_strlit("0");
        reveal_strlit("1");
        reveal_strlit("2");
        reveal_strlit("3");
        reveal_strlit("4");
        reveal_strlit("5");
        reveal_strlit("6");
        reveal_strlit("7");
        reveal_strlit("8");
        reveal_strlit("9");
    }
    let r = if d == 0 {
        "0"
    } else if d == 1 {
        "1"
    } else if d == 2 {
        "2"
    } else if d == 3 {
        "3"
    } else if d == 4 {
        "4"
    } else if d == 5 {
        "5"
    } else if d == 6 {
        "6"
    } else if d == 7 {
        "7"
    } else if d == 8 {
        "8"
    } else {
        "9"
    };
    assert(r@ =~= seq![digit(d as int)]);
    r
}

/// Writes a number in decimal digits.
pub fn decimal_text(n: u16) -> (r: String)
    ensures
        r@ == decimal(n as nat),
    decreases n,
{
    if n < 10 {
        digit_text(n).to_owned()
    } else {
        let mut r = decimal_text(n / 10);
        r.append(digit_text(n % 10));
        assert(r@ =~= decimal(n as nat));
        r
    }
}

/// One text followed by another.
pub fn followed_by(a: &str, b: &str) -> (r: String)
    ensures
        r@ == a@ + b@,
{
    let mut r = a.to_owned();
    r.append(b);
    r
}

} // verus!
