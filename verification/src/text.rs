//! Text as the components read it: what a command printed and what a file
//! holds.

use vstd::prelude::*;
use vstd::std_specs::iter::IteratorSpec;
use vstd::string::{StrSliceExecFns, StringExecFns};

verus! {

broadcast use vstd::string::group_string_axioms;

/// The texts that a list of strings holds.
pub open spec fn texts(strings: Seq<String>) -> Seq<Seq<char>> {
    Seq::new(strings.len(), |i: int| strings[i]@)
}

/// Whether `needle` stands in `haystack` at place `i`.
pub open spec fn occurs_at(needle: Seq<char>, haystack: Seq<char>, i: int) -> bool {
    &&& 0 <= i
    &&& i + needle.len() <= haystack.len()
    &&& haystack.subrange(i, i + needle.len()) == needle
}

/// Whether `needle` stands somewhere in `haystack`.
pub open spec fn occurs_in(needle: Seq<char>, haystack: Seq<char>) -> bool {
    exists|i: int| occurs_at(needle, haystack, i)
}

/// The place of the first `c` in `s`, or the length of `s` if it has none.
pub open spec fn first_index(s: Seq<char>, c: char) -> nat
    decreases s.len(),
{
    if s.len() == 0 || s[0] == c {
        0
    } else {
        1 + first_index(s.drop_first(), c)
    }
}

/// The pieces of `s` between the occurrences of `c`, in order. A text
/// without `c` is one piece, and so is the empty text.
pub open spec fn split_of(s: Seq<char>, c: char) -> Seq<Seq<char>>
    decreases s.len(),
{
    let i = first_index(s, c) as int;
    if i >= s.len() {
        seq![s]
    } else {
        seq![s.subrange(0, i)] + split_of(s.subrange(i + 1, s.len() as int), c)
    }
}

/// `line` without the carriage return at its end, if it has one.
pub open spec fn without_return(line: Seq<char>) -> Seq<char> {
    if line.len() > 0 && line.last() == '\r' {
        line.drop_last()
    } else {
        line
    }
}

/// The lines of `s`. A line ends with a line feed, or with a carriage
/// return and a line feed, neither of which belongs to it. What follows the
/// last line feed is a line too, unless it is empty.
pub open spec fn lines_of(s: Seq<char>) -> Seq<Seq<char>> {
    let pieces = split_of(s, '\n');
    let ended = Seq::new(
        (pieces.len() - 1) as nat,
        |i: int| without_return(pieces[i]),
    );
    if pieces.last().len() > 0 {
        ended.push(pieces.last())
    } else {
        ended
    }
}

/// `parts` in a row, with `separator` between each two.
pub open spec fn joined(parts: Seq<Seq<char>>, separator: Seq<char>) -> Seq<char>
    decreases parts.len(),
{
    if parts.len() == 0 {
        Seq::empty()
    } else if parts.len() == 1 {
        parts[0]
    } else {
        joined(parts.drop_last(), separator) + separator + parts.last()
    }
}

/// The characters of a text.
pub fn chars_of(s: &str) -> (chars: Vec<char>)
    ensures
        chars@ == s@,
{
    let mut chars: Vec<char> = Vec::new();
    for c in it: s.chars()
        invariant
            it.seq() == s@,
            chars@ == it.seq().subrange(0, it.index() as int),
    {
        chars.push(c);
        assert(chars@ =~= it.seq().subrange(0, it.index() + 1));
    }
    assert(chars@ =~= s@);
    chars
}

/// Whether two texts are the same.
pub fn same_text(a: &str, b: &str) -> (same: bool)
    ensures
        same == (a@ == b@),
{
    a.to_owned() == b.to_owned()
}

/// Whether `needle` stands in `haystack` at place `i`.
fn matches_at(haystack: &Vec<char>, needle: &Vec<char>, i: usize) -> (found: bool)
    requires
        i + needle@.len() <= haystack@.len(),
    ensures
        found == occurs_at(needle@, haystack@, i as int),
{
    let size = haystack.len();
    let mut j: usize = 0;
    while j < needle.len()
        invariant
            0 <= j <= needle@.len(),
            size == haystack@.len(),
            i + needle@.len() <= haystack@.len(),
            forall|k: int| 0 <= k < j ==> haystack@[i + k] == needle@[k],
        decreases needle.len() - j,
    {
        if haystack[i + j] != needle[j] {
            assert(haystack@.subrange(i as int, i + needle@.len())[j as int] != needle@[j as int]);
            return false;
        }
        j = j + 1;
    }
    assert(haystack@.subrange(i as int, i + needle@.len()) =~= needle@);
    true
}

/// Whether `needle` stands somewhere in `haystack`.
pub fn contains_chars(haystack: &Vec<char>, needle: &Vec<char>) -> (found: bool)
    ensures
        found == occurs_in(needle@, haystack@),
{
    if needle.len() > haystack.len() {
        return false;
    }
    let last = haystack.len() - needle.len();
    let mut i: usize = 0;
    loop
        invariant
            0 <= i <= last,
            last == haystack@.len() - needle@.len(),
            forall|k: int| 0 <= k < i ==> !occurs_at(needle@, haystack@, k),
        decreases last - i,
    {
        if matches_at(haystack, needle, i) {
            return true;
        }
        if i == last {
            return false;
        }
        i = i + 1;
    }
}

/// Whether `needle` stands somewhere in `haystack`. The empty text stands
/// in every text.
pub fn contains(haystack: &str, needle: &str) -> (found: bool)
    ensures
        found == occurs_in(needle@, haystack@),
{
    let h = chars_of(haystack);
    let n = chars_of(needle);
    contains_chars(&h, &n)
}

/// Where the first `c` of `s` stands, given that it does not stand before
/// place `k` and stands at `k` unless `s` ends there.
pub proof fn lemma_first_index(s: Seq<char>, c: char, k: int)
    requires
        0 <= k <= s.len(),
        forall|j: int| 0 <= j < k ==> s[j] != c,
        k < s.len() ==> s[k] == c,
    ensures
        first_index(s, c) == k,
    decreases k,
{
    if k > 0 {
        let rest = s.drop_first();
        assert forall|j: int| 0 <= j < k - 1 implies rest[j] != c by {
            assert(rest[j] == s[j + 1]);
        }
        lemma_first_index(rest, c, k - 1);
    }
}

/// The pieces of `s` between the occurrences of `separator`, in order: one
/// piece more than there are occurrences.
pub fn split(s: &str, separator: char) -> (pieces: Vec<String>)
    ensures
        texts(pieces@) == split_of(s@, separator),
{
    let chars = chars_of(s);
    let n = chars.len();
    let mut pieces: Vec<String> = Vec::new();
    let mut start: usize = 0;
    let mut i: usize = 0;
    assert(s@.subrange(0, n as int) =~= s@);
    assert(texts(pieces@) + split_of(s@, separator) =~= split_of(s@, separator));
    while i < n
        invariant
            0 <= start <= i <= n,
            n == s@.len(),
            chars@ == s@,
            forall|k: int| start <= k < i ==> chars@[k] != separator,
            split_of(s@, separator) == texts(pieces@) + split_of(
                s@.subrange(start as int, n as int),
                separator,
            ),
        decreases n - i,
    {
        if chars[i] == separator {
            let ghost tail = s@.subrange(start as int, n as int);
            let ghost before = texts(pieces@);
            proof {
                lemma_first_index(tail, separator, i - start);
                assert(tail.subrange(0, i - start) =~= s@.subrange(start as int, i as int));
                assert(tail.subrange(i - start + 1, tail.len() as int) =~= s@.subrange(
                    i + 1,
                    n as int,
                ));
            }
            pieces.push(s.substring_char(start, i).to_owned());
            proof {
                assert(texts(pieces@) =~= before.push(s@.subrange(start as int, i as int)));
                assert(texts(pieces@) + split_of(s@.subrange(i + 1, n as int), separator)
                    =~= before + split_of(tail, separator));
            }
            start = i + 1;
        }
        i = i + 1;
    }
    let ghost tail = s@.subrange(start as int, n as int);
    let ghost before = texts(pieces@);
    proof {
        lemma_first_index(tail, separator, n - start);
    }
    pieces.push(s.substring_char(start, n).to_owned());
    assert(texts(pieces@) =~= before + seq![tail]);
    pieces
}

/// `line` without the carriage return at its end, if it has one.
fn strip_return(line: &str) -> (stripped: String)
    ensures
        stripped@ == without_return(line@),
{
    let chars = chars_of(line);
    let n = chars.len();
    if n > 0 && chars[n - 1] == '\r' {
        let stripped = line.substring_char(0, n - 1).to_owned();
        assert(stripped@ =~= line@.drop_last());
        stripped
    } else {
        line.to_owned()
    }
}

/// The lines of `s`, without their line endings.
pub fn lines(s: &str) -> (found: Vec<String>)
    ensures
        texts(found@) == lines_of(s@),
{
    let pieces = split(s, '\n');
    let ghost parts = split_of(s@, '\n');
    assert(parts.len() >= 1) by {
        let i = first_index(s@, '\n') as int;
        if i < s@.len() {
            assert(parts == seq![s@.subrange(0, i)] + split_of(
                s@.subrange(i + 1, s@.len() as int),
                '\n',
            ));
        }
    }
    assert(texts(pieces@).len() == pieces@.len());
    let ended = pieces.len() - 1;
    let mut found: Vec<String> = Vec::new();
    let mut i: usize = 0;
    while i < ended
        invariant
            0 <= i <= ended,
            ended == pieces@.len() - 1,
            texts(pieces@) == parts,
            found@.len() == i,
            forall|k: int| 0 <= k < i ==> (#[trigger] found@[k])@ == without_return(parts[k]),
        decreases ended - i,
    {
        assert(texts(pieces@)[i as int] == pieces@[i as int]@);
        found.push(strip_return(pieces[i].as_str()));
        i = i + 1;
    }
    assert(texts(pieces@)[ended as int] == pieces@[ended as int]@);
    if pieces[ended].as_str().unicode_len() > 0 {
        found.push(pieces[ended].clone());
    }
    assert(texts(found@) =~= lines_of(s@));
    found
}

/// `parts` in a row, with `separator` between each two.
pub fn join(parts: &Vec<String>, separator: &str) -> (whole: String)
    ensures
        whole@ == joined(texts(parts@), separator@),
{
    let mut whole = String::new();
    let mut i: usize = 0;
    assert(texts(parts@).subrange(0, 0) =~= Seq::<Seq<char>>::empty());
    while i < parts.len()
        invariant
            0 <= i <= parts.len(),
            whole@ == joined(texts(parts@).subrange(0, i as int), separator@),
        decreases parts.len() - i,
    {
        let ghost upto = texts(parts@).subrange(0, i + 1);
        proof {
            assert(upto.drop_last() =~= texts(parts@).subrange(0, i as int));
            assert(upto.last() == parts@[i as int]@);
        }
        if i > 0 {
            whole.append(separator);
        }
        whole.append(parts[i].as_str());
        proof {
            if i == 0 {
                assert(whole@ =~= upto[0]);
            }
        }
        i = i + 1;
    }
    assert(texts(parts@).subrange(0, parts@.len() as int) =~= texts(parts@));
    whole
}

/// The first `count` of `lines`, or all of them if there are fewer.
pub open spec fn first_lines(lines: Seq<Seq<char>>, count: nat) -> Seq<Seq<char>> {
    if count < lines.len() {
        lines.subrange(0, count as int)
    } else {
        lines
    }
}

/// Whether two texts agree in their first `count` lines: line for line,
/// and, where one has fewer, in the number of lines.
pub fn same_first_lines(a: &str, b: &str, count: usize) -> (same: bool)
    ensures
        same == (first_lines(lines_of(a@), count as nat) == first_lines(
            lines_of(b@),
            count as nat,
        )),
{
    let left = lines(a);
    let right = lines(b);
    let ghost l = first_lines(lines_of(a@), count as nat);
    let ghost r = first_lines(lines_of(b@), count as nat);
    let m = if left.len() < count {
        left.len()
    } else {
        count
    };
    let other = if right.len() < count {
        right.len()
    } else {
        count
    };
    assert(texts(left@).len() == left@.len());
    assert(texts(right@).len() == right@.len());
    if m != other {
        assert(l.len() != r.len());
        return false;
    }
    let mut i: usize = 0;
    while i < m
        invariant
            0 <= i <= m,
            l == first_lines(lines_of(a@), count as nat),
            r == first_lines(lines_of(b@), count as nat),
            m == l.len(),
            m == r.len(),
            m <= left@.len(),
            m <= right@.len(),
            forall|k: int| 0 <= k < m ==> #[trigger] l[k] == left@[k]@,
            forall|k: int| 0 <= k < m ==> #[trigger] r[k] == right@[k]@,
            forall|k: int| 0 <= k < i ==> #[trigger] l[k] == r[k],
        decreases m - i,
    {
        let agree = left[i] == right[i];
        if !agree {
            assert(l[i as int] == left@[i as int]@);
            assert(r[i as int] == right@[i as int]@);
            assert(l[i as int] != r[i as int]);
            return false;
        }
        i = i + 1;
    }
    assert(l =~= r);
    true
}

/// What `str::to_lowercase` makes of a text.
pub uninterp spec fn lowercase(s: Seq<char>) -> Seq<char>;

/// `str::to_lowercase` of the standard library: the text with every
/// character replaced by its lower case, as Unicode defines it. The result
/// depends on the text alone.
#[verifier::external_body]
fn to_lowercase(s: &str) -> (lowered: String)
    ensures
        lowered@ == lowercase(s@),
{
    s.to_lowercase()
}

/// Whether `word` stands in `text` once `text` is put in lower case.
pub fn mentions(text: &str, word: &str) -> (found: bool)
    ensures
        found == occurs_in(word@, lowercase(text@)),
{
    let lowered = to_lowercase(text);
    contains(lowered.as_str(), word)
}

} // verus!
