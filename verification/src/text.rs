//! Text: white space, words, lines, numbers.
//!
//! A text is worked on as a vector of characters. The spec functions say what
//! each operation yields; they follow the conventions of Rust's `str`.
use vstd::prelude::*;

verus! {

/// `String::push`: the character is appended.
pub assume_specification[ String::push ](s: &mut String, c: char)
    ensures
        final(s)@ == old(s)@.push(c),
;

/// How `Debug` shows a character: quoted, with escapes where they are needed.
pub uninterp spec fn debug_char_text(c: char) -> Seq<char>;

/// How `Debug` shows a string: quoted, with escapes where they are needed.
pub uninterp spec fn debug_text(s: Seq<char>) -> Seq<char>;

/// `format!("{:?}")` of a `char`. The result is named, not described: which
/// characters are escaped follows the Unicode tables.
#[verifier::external_body]
pub(crate) fn debug_char(c: char) -> (s: String)
    ensures
        s@ == debug_char_text(c),
{
    format!("{:?}", c)
}

/// `format!("{:?}")` of a `str`. The result is named, not described: which
/// characters are escaped follows the Unicode tables.
#[verifier::external_body]
pub(crate) fn debug_str(s: &str) -> (r: String)
    ensures
        r@ == debug_text(s@),
{
    format!("{:?}", s)
}

/// Unicode's `White_Space` property.
pub open spec fn is_space(c: char) -> bool {
    ||| 0x09 <= c as u32 <= 0x0D
    ||| c as u32 == 0x20
    ||| c as u32 == 0x85
    ||| c as u32 == 0xA0
    ||| c as u32 == 0x1680
    ||| 0x2000 <= c as u32 <= 0x200A
    ||| c as u32 == 0x2028
    ||| c as u32 == 0x2029
    ||| c as u32 == 0x202F
    ||| c as u32 == 0x205F
    ||| c as u32 == 0x3000
}

pub fn space(c: char) -> (b: bool)
    ensures
        b == is_space(c),
{
    let n: u32 = c as u32;
    (0x09 <= n && n <= 0x0D) || n == 0x20 || n == 0x85 || n == 0xA0 || n == 0x1680 || (0x2000 <= n
        && n <= 0x200A) || n == 0x2028 || n == 0x2029 || n == 0x202F || n == 0x205F || n == 0x3000
}

/// `s` without its leading white space.
pub open spec fn trim_start(s: Seq<char>) -> Seq<char>
    decreases s.len(),
{
    if s.len() > 0 && is_space(s[0]) {
        trim_start(s.skip(1))
    } else {
        s
    }
}

/// `s` without its trailing white space.
pub open spec fn trim_end(s: Seq<char>) -> Seq<char>
    decreases s.len(),
{
    if s.len() > 0 && is_space(s.last()) {
        trim_end(s.drop_last())
    } else {
        s
    }
}

/// `s` without white space at either end.
pub open spec fn trim(s: Seq<char>) -> Seq<char> {
    trim_start(trim_end(s))
}

/// How many characters stand before the first white space.
pub open spec fn word_len(s: Seq<char>) -> nat
    decreases s.len(),
{
    if s.len() == 0 || is_space(s[0]) {
        0
    } else {
        1 + word_len(s.skip(1))
    }
}

/// A word is no longer than the text.
pub proof fn word_len_fits(s: Seq<char>)
    ensures
        word_len(s) <= s.len(),
    decreases s.len(),
{
    if s.len() > 0 && !is_space(s[0]) {
        word_len_fits(s.skip(1));
    }
}

/// Trimming never lengthens, and leaves no space in front.
pub proof fn trim_start_shortens(s: Seq<char>)
    ensures
        trim_start(s).len() <= s.len(),
        trim_start(s).len() > 0 ==> !is_space(trim_start(s)[0]),
    decreases s.len(),
{
    if s.len() > 0 && is_space(s[0]) {
        trim_start_shortens(s.skip(1));
    }
}

/// The words of a text: what stands between white space.
pub open spec fn words(s: Seq<char>) -> Seq<Seq<char>>
    decreases s.len(),
    via words_decreases
{
    let t = trim_start(s);
    if t.len() == 0 {
        Seq::empty()
    } else {
        seq![t.take(word_len(t) as int)] + words(t.skip(word_len(t) as int))
    }
}

#[via_fn]
proof fn words_decreases(s: Seq<char>) {
    let t = trim_start(s);
    trim_start_shortens(s);
    word_len_fits(t);
    if t.len() > 0 {
        assert(word_len(t) > 0);
    }
}

/// What a list of character vectors holds.
pub open spec fn deep(v: Seq<Vec<char>>) -> Seq<Seq<char>> {
    Seq::new(v.len(), |i: int| v[i]@)
}

/// The characters of `s`.
pub fn chars_of(s: &str) -> (v: Vec<char>)
    ensures
        v@ == s@,
{
    let mut v: Vec<char> = Vec::new();
    for c in it: s.chars()
        invariant
            it.seq() == s@,
            v@ == s@.take(it.index() as int),
    {
        assert(s@.take(it.index() as int).push(c) =~= s@.take(it.index() + 1));
        v.push(c);
    }
    assert(s@.take(s@.len() as int) =~= s@);
    v
}

/// The text with these characters.
pub fn string_of(v: &Vec<char>) -> (s: String)
    ensures
        s@ == v@,
{
    let mut s = String::new();
    let mut i: usize = 0;
    while i < v.len()
        invariant
            i <= v@.len(),
            s@ == v@.take(i as int),
        decreases v@.len() - i,
    {
        assert(v@.take(i as int).push(v@[i as int]) =~= v@.take(i + 1));
        s.push(v[i]);
        i = i + 1;
    }
    assert(v@.take(v@.len() as int) =~= v@);
    s
}

/// The characters of `v` from `i` up to `j`.
pub fn slice(v: &Vec<char>, i: usize, j: usize) -> (r: Vec<char>)
    requires
        i <= j <= v@.len(),
    ensures
        r@ == v@.subrange(i as int, j as int),
{
    let mut r: Vec<char> = Vec::new();
    let mut k: usize = i;
    while k < j
        invariant
            i <= k <= j <= v@.len(),
            r@ == v@.subrange(i as int, k as int),
        decreases j - k,
    {
        assert(v@.subrange(i as int, k as int).push(v@[k as int]) =~= v@.subrange(
            i as int,
            k + 1,
        ));
        r.push(v[k]);
        k = k + 1;
    }
    r
}

/// Whether two texts are the same.
pub fn same(a: &Vec<char>, b: &Vec<char>) -> (r: bool)
    ensures
        r == (a@ == b@),
{
    if a.len() != b.len() {
        return false;
    }
    let mut i: usize = 0;
    while i < a.len()
        invariant
            i <= a@.len() == b@.len(),
            forall|j: int| 0 <= j < i ==> a@[j] == b@[j],
        decreases a@.len() - i,
    {
        if a[i] != b[i] {
            return false;
        }
        i = i + 1;
    }
    assert(a@ =~= b@);
    true
}

/// Whether a text is `b`.
pub fn is(a: &Vec<char>, b: &str) -> (r: bool)
    ensures
        r == (a@ == b@),
{
    same(a, &chars_of(b))
}

pub fn trimmed_start(v: &Vec<char>) -> (r: Vec<char>)
    ensures
        r@ == trim_start(v@),
{
    let mut i: usize = 0;
    assert(v@.skip(0) =~= v@);
    while i < v.len() && space(v[i])
        invariant
            i <= v@.len(),
            trim_start(v@) == trim_start(v@.skip(i as int)),
        decreases v@.len() - i,
    {
        assert(v@.skip(i as int).skip(1) =~= v@.skip(i + 1));
        i = i + 1;
    }
    assert(v@.subrange(i as int, v@.len() as int) =~= v@.skip(i as int));
    slice(v, i, v.len())
}

pub fn trimmed_end(v: &Vec<char>) -> (r: Vec<char>)
    ensures
        r@ == trim_end(v@),
{
    let mut n: usize = v.len();
    assert(v@.take(n as int) =~= v@);
    while n > 0 && space(v[n - 1])
        invariant
            n <= v@.len(),
            trim_end(v@) == trim_end(v@.take(n as int)),
        decreases n,
    {
        assert(v@.take(n as int).drop_last() =~= v@.take(n - 1));
        n = n - 1;
    }
    assert(v@.subrange(0, n as int) =~= v@.take(n as int));
    slice(v, 0, n)
}

pub fn trimmed(v: &Vec<char>) -> (r: Vec<char>)
    ensures
        r@ == trim(v@),
{
    trimmed_start(&trimmed_end(v))
}

/// How many characters stand before the first white space.
pub fn first_space(v: &Vec<char>) -> (n: usize)
    ensures
        n == word_len(v@),
        n <= v@.len(),
{
    let mut i: usize = 0;
    assert(v@.skip(0) =~= v@);
    while i < v.len() && !space(v[i])
        invariant
            i <= v@.len(),
            word_len(v@) == i + word_len(v@.skip(i as int)),
        decreases v@.len() - i,
    {
        assert(v@.skip(i as int).skip(1) =~= v@.skip(i + 1));
        i = i + 1;
    }
    i
}

/// The words of a text.
pub fn split_words(v: &Vec<char>) -> (r: Vec<Vec<char>>)
    ensures
        deep(r@) == words(v@),
{
    let mut r: Vec<Vec<char>> = Vec::new();
    let mut rest = trimmed_start(v);
    proof {
        trim_start_shortens(v@);
        trim_of_trimmed(v@);
    }
    assert(deep(r@) + words(rest@) =~= words(v@));
    while rest.len() > 0
        invariant
            deep(r@) + words(rest@) == words(v@),
            rest@ == trim_start(rest@),
        decreases rest@.len(),
    {
        let n: usize = first_space(&rest);
        let word = slice(&rest, 0, n);
        let tail = slice(&rest, n, rest.len());
        let ghost before = deep(r@);
        proof {
            trim_start_shortens(rest@);
            trim_start_shortens(tail@);
            trim_of_trimmed(tail@);
            assert(rest@.take(n as int) =~= word@);
            assert(rest@.skip(n as int) =~= tail@);
        }
        r.push(word);
        assert(deep(r@) =~= before.push(word@));
        assert(before + (seq![word@] + words(tail@)) =~= before.push(word@) + words(tail@));
        rest = trimmed_start(&tail);
        assert(words(rest@) == words(tail@));
    }
    assert(deep(r@) + words(rest@) =~= deep(r@));
    r
}

/// Trimming a trimmed text changes nothing.
pub proof fn trim_of_trimmed(s: Seq<char>)
    ensures
        trim_start(trim_start(s)) == trim_start(s),
        words(trim_start(s)) == words(s),
    decreases s.len(),
{
    if s.len() > 0 && is_space(s[0]) {
        trim_of_trimmed(s.skip(1));
    }
}

/// The parts of `s` between occurrences of `sep`: one more than there are
/// separators.
pub open spec fn split_at(s: Seq<char>, sep: char) -> Seq<Seq<char>>
    decreases s.len(),
{
    if s.len() == 0 {
        seq![Seq::empty()]
    } else {
        let parts = split_at(s.drop_last(), sep);
        if s.last() == sep {
            parts.push(Seq::empty())
        } else {
            parts.drop_last().push(parts.last().push(s.last()))
        }
    }
}

/// Splitting gives at least one part.
pub proof fn split_has_parts(s: Seq<char>, sep: char)
    ensures
        split_at(s, sep).len() > 0,
    decreases s.len(),
{
    if s.len() > 0 {
        split_has_parts(s.drop_last(), sep);
    }
}

/// The parts of `v` between occurrences of `sep`.
pub fn split(v: &Vec<char>, sep: char) -> (r: Vec<Vec<char>>)
    ensures
        deep(r@) == split_at(v@, sep),
        r@.len() > 0,
{
    let mut done: Vec<Vec<char>> = Vec::new();
    let mut part: Vec<char> = Vec::new();
    let mut i: usize = 0;
    assert(deep(done@).push(part@) =~= split_at(v@.take(0), sep));
    while i < v.len()
        invariant
            i <= v@.len(),
            deep(done@).push(part@) == split_at(v@.take(i as int), sep),
        decreases v@.len() - i,
    {
        let ghost d = deep(done@);
        let ghost p = part@;
        let c = v[i];
        assert(v@.take(i + 1).drop_last() =~= v@.take(i as int));
        assert(d.push(p).drop_last() =~= d);
        if c == sep {
            let mut fresh: Vec<char> = Vec::new();
            std::mem::swap(&mut fresh, &mut part);
            done.push(fresh);
            assert(deep(done@) =~= d.push(p));
            assert(deep(done@).push(part@) =~= d.push(p).push(Seq::empty()));
        } else {
            part.push(c);
        }
        i = i + 1;
    }
    assert(v@.take(v@.len() as int) =~= v@);
    let ghost d = deep(done@);
    done.push(part);
    assert(deep(done@) =~= d.push(part@));
    done
}

/// `s` without one carriage return at its end.
pub open spec fn strip_cr(s: Seq<char>) -> Seq<char> {
    if s.len() > 0 && s.last() == '\r' {
        s.drop_last()
    } else {
        s
    }
}

/// The lines of a text: what stands before each newline, without a carriage
/// return, and what follows the last newline unless that is empty. Only a line
/// that a newline ends loses its carriage return.
pub open spec fn lines(s: Seq<char>) -> Seq<Seq<char>> {
    let parts = split_at(s, '\n');
    let ended = Seq::new((parts.len() - 1) as nat, |i: int| strip_cr(parts[i]));
    if parts.last().len() == 0 {
        ended
    } else {
        ended.push(parts.last())
    }
}

/// The lines of a text.
pub fn split_lines(v: &Vec<char>) -> (r: Vec<Vec<char>>)
    ensures
        deep(r@) == lines(v@),
{
    let parts = split(v, '\n');
    let ghost p = split_at(v@, '\n');
    let n: usize = parts.len() - 1;
    let mut r: Vec<Vec<char>> = Vec::new();
    let mut i: usize = 0;
    while i < n
        invariant
            i <= n,
            n + 1 == parts@.len() == p.len(),
            deep(parts@) == p,
            deep(r@) == Seq::new(i as nat, |j: int| strip_cr(p[j])),
        decreases n - i,
    {
        let ghost before = deep(r@);
        let part = &parts[i];
        assert(deep(parts@)[i as int] == part@);
        let len: usize = part.len();
        let line = if len > 0 && part[len - 1] == '\r' {
            slice(part, 0, len - 1)
        } else {
            slice(part, 0, len)
        };
        assert(line@ =~= strip_cr(p[i as int]));
        r.push(line);
        assert(deep(r@) =~= before.push(line@));
        assert(deep(r@) =~= Seq::new((i + 1) as nat, |j: int| strip_cr(p[j])));
        i = i + 1;
    }
    assert(deep(parts@)[n as int] == parts@[n as int]@);
    if parts[n].len() > 0 {
        let ghost before = deep(r@);
        let line = slice(&parts[n], 0, parts[n].len());
        assert(line@ =~= p.last());
        r.push(line);
        assert(deep(r@) =~= before.push(line@));
    }
    r
}

/// `t` occurs in `s` at position `i`.
pub open spec fn occurs_at<T>(s: Seq<T>, t: Seq<T>, i: int) -> bool {
    0 <= i && i + t.len() <= s.len() && s.subrange(i, i + t.len()) == t
}

/// `t` occurs in `s`.
pub open spec fn holds(s: Seq<char>, t: Seq<char>) -> bool {
    exists|i: int| #[trigger] occurs_at(s, t, i)
}

/// Whether `t` occurs in `v` at position `i`.
pub fn found_at(v: &Vec<char>, t: &Vec<char>, i: usize) -> (b: bool)
    requires
        i + t@.len() <= v@.len(),
    ensures
        b == occurs_at(v@, t@, i as int),
{
    let n: usize = v.len();
    let mut j: usize = 0;
    while j < t.len()
        invariant
            j <= t@.len(),
            i + t@.len() <= v@.len() == n,
            forall|k: int| 0 <= k < j ==> v@[i + k] == t@[k],
        decreases t@.len() - j,
    {
        if v[i + j] != t[j] {
            assert(v@.subrange(i as int, i + t@.len())[j as int] != t@[j as int]);
            return false;
        }
        j = j + 1;
    }
    assert(v@.subrange(i as int, i + t@.len()) =~= t@);
    true
}

/// Whether `t` occurs in `v`.
pub fn contains(v: &Vec<char>, t: &Vec<char>) -> (b: bool)
    ensures
        b == holds(v@, t@),
{
    if t.len() > v.len() {
        return false;
    }
    let last: usize = v.len() - t.len();
    let mut i: usize = 0;
    while i <= last
        invariant
            i <= last + 1,
            last == v@.len() - t@.len(),
            forall|k: int| 0 <= k < i ==> !occurs_at(v@, t@, k),
        decreases last + 1 - i,
    {
        if found_at(v, t, i) {
            return true;
        }
        if i == last {
            return false;
        }
        i = i + 1;
    }
    false
}

/// `c` with an ASCII capital made small.
pub open spec fn lower_char(c: char) -> char {
    if 'A' <= c && c <= 'Z' {
        ((c as u32 + 32) as u32) as char
    } else {
        c
    }
}

/// `s` with ASCII capitals made small.
pub open spec fn lower(s: Seq<char>) -> Seq<char> {
    s.map_values(|c: char| lower_char(c))
}

/// A small letter for an ASCII capital.
pub fn small(c: char) -> (r: char)
    ensures
        r == lower_char(c),
{
    if 'A' <= c && c <= 'Z' {
        (c as u8 + 32) as char
    } else {
        c
    }
}

/// `v` with ASCII capitals made small.
pub fn lowered(v: &Vec<char>) -> (r: Vec<char>)
    ensures
        r@ == lower(v@),
{
    let mut r: Vec<char> = Vec::new();
    let mut i: usize = 0;
    while i < v.len()
        invariant
            i <= v@.len(),
            r@ == lower(v@.take(i as int)),
        decreases v@.len() - i,
    {
        assert(lower(v@.take(i + 1)) =~= lower(v@.take(i as int)).push(lower_char(v@[i as int])));
        r.push(small(v[i]));
        i = i + 1;
    }
    assert(v@.take(v@.len() as int) =~= v@);
    r
}

/// Nothing but white space.
pub open spec fn is_blank(s: Seq<char>) -> bool {
    forall|i: int| 0 <= i < s.len() ==> is_space(#[trigger] s[i])
}

proof fn trailing_blanks_are_trimmed(s: Seq<char>, after: Seq<char>)
    requires
        is_blank(after),
    ensures
        trim_end(s + after) == trim_end(s),
    decreases after.len(),
{
    if after.len() == 0 {
        assert(s + after =~= s);
    } else {
        assert((s + after).drop_last() =~= s + after.drop_last());
        assert(is_space(after[after.len() - 1]));
        trailing_blanks_are_trimmed(s, after.drop_last());
    }
}

proof fn leading_blanks_are_trimmed(before: Seq<char>, s: Seq<char>)
    requires
        is_blank(before),
    ensures
        trim_start(before + s) == trim_start(s),
    decreases before.len(),
{
    if before.len() == 0 {
        assert(before + s =~= s);
    } else {
        assert((before + s).skip(1) =~= before.skip(1) + s);
        assert(is_space(before[0]));
        leading_blanks_are_trimmed(before.skip(1), s);
    }
}

/// Trimming the end reaches what stands in front only through white space.
proof fn the_end_is_trimmed_first(before: Seq<char>, s: Seq<char>)
    ensures
        trim_end(before + s) == if trim_end(s).len() == 0 {
            trim_end(before)
        } else {
            before + trim_end(s)
        },
    decreases s.len(),
{
    if s.len() == 0 {
        assert(before + s =~= before);
    } else if is_space(s.last()) {
        assert((before + s).drop_last() =~= before + s.drop_last());
        the_end_is_trimmed_first(before, s.drop_last());
    }
}

/// White space at either end of a text, however much, is trimmed away.
pub proof fn outer_blanks_are_trimmed(before: Seq<char>, s: Seq<char>, after: Seq<char>)
    requires
        is_blank(before),
        is_blank(after),
    ensures
        trim_start(before + s) == trim_start(s),
        trim(before + s + after) == trim(s),
{
    trailing_blanks_are_trimmed(before + s, after);
    the_end_is_trimmed_first(before, s);
    trailing_blanks_are_trimmed(Seq::empty(), before);
    assert(Seq::<char>::empty() + before =~= before);
    leading_blanks_are_trimmed(before, s);
    leading_blanks_are_trimmed(before, trim_end(s));
}

} // verus!
