//! Small verified helpers on text: the first line of a message, substring
//! search, and joining pieces with a separator.

use vstd::prelude::*;

verus! {

/// The characters of `s`, in order.
pub fn chars_of(s: &str) -> (r: Vec<char>)
    ensures
        r@ == s@,
{
    let mut out: Vec<char> = Vec::new();
    for c in iter: s.chars()
        invariant
            iter.seq() == s@,
            out@ == iter.seq().take(iter.index() as int),
    {
        out.push(c);
    }
    out
}

/// The position of the first line feed in `s`, or the length of `s` when it
/// holds none.
pub open spec fn line_end(s: Seq<char>) -> int
    decreases s.len(),
{
    if s.len() == 0 || s[0] == '\n' {
        0
    } else {
        1 + line_end(s.drop_first())
    }
}

/// The first line of `s` without its terminator: everything before the first
/// line feed, less one carriage return that directly precedes that line feed.
/// A text without a line feed is its own first line.
pub open spec fn first_line(s: Seq<char>) -> Seq<char> {
    let end = line_end(s);
    if end < s.len() && end > 0 && s[end - 1] == '\r' {
        s.take(end - 1)
    } else {
        s.take(end)
    }
}

/// `line_end` is the least position that holds a line feed, if any.
pub proof fn lemma_line_end(s: Seq<char>, i: int)
    requires
        0 <= i <= s.len(),
        forall|j: int| 0 <= j < i ==> s[j] != '\n',
        i < s.len() ==> s[i] == '\n',
    ensures
        line_end(s) == i,
    decreases s.len(),
{
    if s.len() == 0 || s[0] == '\n' {
    } else {
        let rest = s.drop_first();
        assert forall|j: int| 0 <= j < i - 1 implies rest[j] != '\n' by {
            assert(rest[j] == s[j + 1]);
        }
        lemma_line_end(rest, i - 1);
    }
}

/// Returns the first line of `s`, without its line terminator.
pub fn first_line_of(s: &str) -> (r: String)
    ensures
        r@ == first_line(s@),
{
    let chars = chars_of(s);
    let mut end: usize = 0;
    while end < chars.len() && chars[end] != '\n'
        invariant
            end <= chars.len(),
            forall|j: int| 0 <= j < end ==> chars@[j] != '\n',
        decreases chars.len() - end,
    {
        end += 1;
    }
    proof {
        lemma_line_end(s@, end as int);
    }
    let stop = if end < chars.len() && end > 0 && chars[end - 1] == '\r' {
        end - 1
    } else {
        end
    };
    let line = s.substring_char(0, stop);
    String::from_str(line)
}

/// Whether `needle` stands in `hay` at position `i`.
pub open spec fn occurs_at(hay: Seq<char>, needle: Seq<char>, i: int) -> bool {
    0 <= i && i + needle.len() <= hay.len() && hay.subrange(i, i + needle.len()) == needle
}

/// Whether `needle` is a contiguous part of `hay`.
pub open spec fn contains_seq(hay: Seq<char>, needle: Seq<char>) -> bool {
    exists|i: int| occurs_at(hay, needle, i)
}

fn matches_at(hay: &Vec<char>, needle: &Vec<char>, i: usize) -> (r: bool)
    requires
        i + needle.len() <= hay.len(),
    ensures
        r == occurs_at(hay@, needle@, i as int),
{
    let mut j: usize = 0;
    while j < needle.len()
        invariant
            j <= needle.len(),
            i + needle.len() <= hay.len(),
            forall|k: int| 0 <= k < j ==> hay@[i + k] == needle@[k],
        decreases needle.len() - j,
    {
        if hay[i + j] != needle[j] {
            proof {
                let part = hay@.subrange(i as int, i + needle.len());
                assert(part[j as int] == hay@[i + j]);
            }
            return false;
        }
        j += 1;
    }
    assert(hay@.subrange(i as int, i + needle.len()) =~= needle@);
    true
}

/// Tells whether `needle` occurs somewhere in `hay`.
pub fn contains_text(hay: &str, needle: &str) -> (r: bool)
    ensures
        r == contains_seq(hay@, needle@),
{
    let h = chars_of(hay);
    let n = chars_of(needle);
    if n.len() == 0 {
        assert(hay@.subrange(0, 0) =~= needle@);
        assert(occurs_at(hay@, needle@, 0));
        return true;
    }
    if n.len() > h.len() {
        return false;
    }
    let last = h.len() - n.len();
    let mut i: usize = 0;
    while i <= last
        invariant
            i <= last + 1,
            last == h.len() - n.len(),
            n.len() > 0,
            h@ == hay@,
            n@ == needle@,
            forall|k: int| 0 <= k < i ==> !occurs_at(hay@, needle@, k),
        decreases last + 1 - i,
    {
        if matches_at(&h, &n, i) {
            return true;
        }
        i += 1;
    }
    false
}

/// The pieces of `parts` written one after another with `sep` between
/// neighbours; the empty text when there are no pieces.
pub open spec fn joined(parts: Seq<Seq<char>>, sep: Seq<char>) -> Seq<char>
    decreases parts.len(),
{
    if parts.len() == 0 {
        Seq::empty()
    } else if parts.len() == 1 {
        parts[0]
    } else {
        joined(parts.drop_last(), sep) + sep + parts.last()
    }
}

/// Joining one more piece appends the separator and the piece, but for the
/// first piece, which stands alone.
pub proof fn lemma_joined_push(parts: Seq<Seq<char>>, sep: Seq<char>, piece: Seq<char>)
    ensures
        joined(parts.push(piece), sep) == if parts.len() == 0 {
            piece
        } else {
            joined(parts, sep) + sep + piece
        },
{
    let all = parts.push(piece);
    assert(all.drop_last() =~= parts);
    assert(all.last() == piece);
}

} // verus!
