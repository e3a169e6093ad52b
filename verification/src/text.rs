//! Text handling on characters: whitespace, trimming, splitting, searching.
//!
//! The view of a string is its sequence of characters, so every contract here
//! is stated over `Seq<char>`.

use vstd::prelude::*;

verus! {

/// The contents of a list of owned strings.
pub open spec fn strings(v: Seq<String>) -> Seq<Seq<char>> {
    Seq::new(v.len(), |i: int| v[i]@)
}

/// The contents of a list of string slices.
pub open spec fn texts(v: Seq<&str>) -> Seq<Seq<char>> {
    Seq::new(v.len(), |i: int| v[i]@)
}

/// The characters with Unicode's `White_Space` property.
pub open spec fn white_space(c: char) -> bool {
    ||| '\t' <= c <= '\r'
    ||| c == ' '
    ||| c == '\u{85}'
    ||| c == '\u{a0}'
    ||| c == '\u{1680}'
    ||| '\u{2000}' <= c <= '\u{200a}'
    ||| c == '\u{2028}'
    ||| c == '\u{2029}'
    ||| c == '\u{202f}'
    ||| c == '\u{205f}'
    ||| c == '\u{3000}'
}

/// Whether `c` is white space.
pub fn is_white_space(c: char) -> (r: bool)
    ensures
        r == white_space(c),
{
    ('\t' <= c && c <= '\r') || c == ' ' || c == '\u{85}' || c == '\u{a0}' || c == '\u{1680}'
        || ('\u{2000}' <= c && c <= '\u{200a}') || c == '\u{2028}' || c == '\u{2029}'
        || c == '\u{202f}' || c == '\u{205f}' || c == '\u{3000}'
}

/// `s` without its leading white space.
pub open spec fn trimmed_start(s: Seq<char>) -> Seq<char>
    decreases s.len(),
{
    if s.len() > 0 && white_space(s[0]) {
        trimmed_start(s.skip(1))
    } else {
        s
    }
}

/// `s` without its trailing white space.
pub open spec fn trimmed_end(s: Seq<char>) -> Seq<char>
    decreases s.len(),
{
    if s.len() > 0 && white_space(s.last()) {
        trimmed_end(s.drop_last())
    } else {
        s
    }
}

/// `s` without the white space at either end.
pub open spec fn trimmed(s: Seq<char>) -> Seq<char> {
    trimmed_end(trimmed_start(s))
}

/// The characters of `s`, for indexed access.
pub fn chars_of(s: &str) -> (r: Vec<char>)
    ensures
        r@ == s@,
{
    let mut r: Vec<char> = Vec::new();
    for c in it: s.chars()
        invariant
            r@ == it.seq().take(it.index()),
            it.seq() == s@,
    {
        r.push(c);
    }
    assert(s@.take(s@.len() as int) == s@);
    r
}

/// Strips white space from both ends of `s`.
pub fn trim(s: &str) -> (r: &str)
    ensures
        r@ == trimmed(s@),
{
    let cs: Vec<char> = chars_of(s);
    let n: usize = cs.len();
    let mut i: usize = 0;
    assert(s@.skip(0) == s@);
    while i < n && is_white_space(cs[i])
        invariant
            i <= n,
            n == cs@.len(),
            cs@ == s@,
            trimmed_start(s@) == trimmed_start(s@.skip(i as int)),
        decreases n - i,
    {
        assert(s@.skip(i as int).skip(1) == s@.skip(i + 1));
        i += 1;
    }
    let ghost rest = s@.skip(i as int);
    assert(trimmed_start(s@) == rest);
    let mut j: usize = n;
    assert(s@.subrange(i as int, n as int) == rest);
    while j > i && is_white_space(cs[j - 1])
        invariant
            i <= j <= n,
            n == cs@.len(),
            cs@ == s@,
            trimmed_end(rest) == trimmed_end(s@.subrange(i as int, j as int)),
        decreases j,
    {
        assert(s@.subrange(i as int, j as int).drop_last() == s@.subrange(i as int, j - 1));
        j -= 1;
    }
    s.substring_char(i, j)
}

/// The parts of `s` between the occurrences of `sep`; `s` itself where `sep`
/// does not occur.
pub open spec fn split_on(s: Seq<char>, sep: char) -> Seq<Seq<char>>
    decreases s.len(),
{
    if s.len() == 0 {
        seq![s]
    } else {
        let parts = split_on(s.drop_last(), sep);
        if s.last() == sep {
            parts.push(Seq::empty())
        } else {
            parts.drop_last().push(parts.last().push(s.last()))
        }
    }
}

/// A text always has at least one part.
pub proof fn lemma_split_on_nonempty(s: Seq<char>, sep: char)
    ensures
        split_on(s, sep).len() >= 1,
    decreases s.len(),
{
    if s.len() > 0 {
        lemma_split_on_nonempty(s.drop_last(), sep);
    }
}

/// Splitting two texts joined by the separator gives the parts of the first
/// followed by the parts of the second.
pub proof fn lemma_split_on_joined(a: Seq<char>, b: Seq<char>, sep: char)
    ensures
        split_on(a.push(sep) + b, sep) == split_on(a, sep) + split_on(b, sep),
    decreases b.len(),
{
    let whole = a.push(sep) + b;
    lemma_split_on_nonempty(b, sep);
    if b.len() == 0 {
        assert(whole == a.push(sep));
        assert(whole.drop_last() == a);
        assert(b == Seq::<char>::empty());
        assert(split_on(whole, sep) == split_on(a, sep) + split_on(b, sep));
    } else {
        assert(whole.drop_last() == a.push(sep) + b.drop_last());
        assert(whole.last() == b.last());
        lemma_split_on_joined(a, b.drop_last(), sep);
        lemma_split_on_nonempty(b.drop_last(), sep);
        assert(split_on(whole, sep) == split_on(a, sep) + split_on(b, sep));
    }
}

/// Text without the separator lengthens the last part.
pub proof fn lemma_split_on_extended(a: Seq<char>, b: Seq<char>, sep: char)
    requires
        !b.contains(sep),
    ensures
        split_on(a + b, sep) == split_on(a, sep).drop_last().push(split_on(a, sep).last() + b),
    decreases b.len(),
{
    let parts = split_on(a, sep);
    lemma_split_on_nonempty(a, sep);
    if b.len() == 0 {
        assert(a + b == a);
        assert(parts.last() + b == parts.last());
        assert(parts.drop_last().push(parts.last()) == parts);
    } else {
        let front = b.drop_last();
        assert forall|i: int| 0 <= i < front.len() implies front[i] != sep by {
            assert(front[i] == b[i]);
        }
        lemma_split_on_extended(a, front, sep);
        assert((a + b).drop_last() == a + front);
        assert(b[b.len() - 1] == b.last());
        assert((parts.last() + front).push(b.last()) == parts.last() + b);
        assert(split_on(a + b, sep) == parts.drop_last().push(parts.last() + b));
    }
}

/// A text without the separator is its own single part.
pub proof fn lemma_split_on_absent(s: Seq<char>, sep: char)
    requires
        !s.contains(sep),
    ensures
        split_on(s, sep) == seq![s],
    decreases s.len(),
{
    if s.len() > 0 {
        assert forall|i: int| 0 <= i < s.drop_last().len() implies s.drop_last()[i] != sep by {
            assert(s.drop_last()[i] == s[i]);
        }
        lemma_split_on_absent(s.drop_last(), sep);
        assert(s[s.len() - 1] == s.last());
        assert(s.drop_last().push(s.last()) == s);
        assert(split_on(s, sep) == seq![s]);
    }
}

/// Splits `s` at every `sep`.
pub fn split<'a>(s: &'a str, sep: char) -> (r: Vec<&'a str>)
    ensures
        texts(r@) == split_on(s@, sep),
{
    let cs: Vec<char> = chars_of(s);
    let n: usize = cs.len();
    let mut r: Vec<&'a str> = Vec::new();
    let mut start: usize = 0;
    let mut i: usize = 0;
    assert(s@.take(0) == Seq::<char>::empty());
    assert(s@.subrange(0, 0) == Seq::<char>::empty());
    while i < n
        invariant
            start <= i <= n,
            n == cs@.len(),
            cs@ == s@,
            texts(r@).push(s@.subrange(start as int, i as int)) == split_on(s@.take(i as int), sep),
        decreases n - i,
    {
        let ghost part = s@.subrange(start as int, i as int);
        let ghost before = texts(r@);
        assert(s@.take(i + 1).drop_last() == s@.take(i as int));
        assert(before.push(part).drop_last() == before);
        if cs[i] == sep {
            r.push(s.substring_char(start, i));
            start = i + 1;
            assert(texts(r@) == before.push(part));
            assert(s@.subrange(i + 1, i + 1) == Seq::<char>::empty());
        } else {
            assert(s@.subrange(start as int, i + 1) == part.push(s@[i as int]));
        }
        i += 1;
    }
    assert(s@.take(n as int) == s@);
    let ghost before = texts(r@);
    r.push(s.substring_char(start, n));
    assert(texts(r@) == before.push(s@.subrange(start as int, n as int)));
    r
}

/// The position of the first `c` in `s`.
pub open spec fn first_index(s: Seq<char>, c: char) -> Option<int>
    decreases s.len(),
{
    if s.len() == 0 {
        None
    } else if s[0] == c {
        Some(0)
    } else {
        match first_index(s.skip(1), c) {
            Some(i) => Some(i + 1),
            None => None,
        }
    }
}

/// The first position is the one that holds the character with none before it.
pub proof fn lemma_first_index(s: Seq<char>, c: char)
    ensures
        match first_index(s, c) {
            Some(i) => 0 <= i < s.len() && s[i] == c && forall|j: int| 0 <= j < i ==> s[j] != c,
            None => !s.contains(c),
        },
    decreases s.len(),
{
    if s.len() > 0 && s[0] != c {
        let t = s.skip(1);
        lemma_first_index(t, c);
        match first_index(t, c) {
            Some(i) => {
                assert forall|j: int| 0 <= j < i + 1 implies s[j] != c by {
                    if j > 0 {
                        assert(t[j - 1] == s[j]);
                    }
                }
            },
            None => {
                assert forall|j: int| 0 <= j < s.len() implies s[j] != c by {
                    if j > 0 {
                        assert(t[j - 1] == s[j]);
                    }
                }
            },
        }
    }
}

/// Finds the first `c` in `s`, counted in characters.
pub fn find_char(s: &str, c: char) -> (r: Option<usize>)
    ensures
        match r {
            Some(i) => first_index(s@, c) == Some(i as int),
            None => first_index(s@, c) is None,
        },
        r is Some <==> s@.contains(c),
{
    let cs: Vec<char> = chars_of(s);
    let n: usize = cs.len();
    let mut i: usize = 0;
    proof {
        lemma_first_index(s@, c);
    }
    while i < n
        invariant
            i <= n,
            n == cs@.len(),
            cs@ == s@,
            forall|j: int| 0 <= j < i ==> s@[j] != c,
        decreases n - i,
    {
        if cs[i] == c {
            proof {
                lemma_first_index(s@, c);
            }
            return Some(i);
        }
        i += 1;
    }
    None
}

/// What stands before and after the first `sep` in `s`.
pub open spec fn cut(s: Seq<char>, sep: char) -> Option<(Seq<char>, Seq<char>)> {
    match first_index(s, sep) {
        Some(i) => Some((s.take(i), s.skip(i + 1))),
        None => None,
    }
}

/// A text cut at a separator that its front does not hold.
pub proof fn lemma_cut_joined(a: Seq<char>, b: Seq<char>, sep: char)
    requires
        !a.contains(sep),
    ensures
        cut(a.push(sep) + b, sep) == Some((a, b)),
{
    let whole = a.push(sep) + b;
    lemma_first_index(whole, sep);
    assert(whole[a.len() as int] == sep);
    let i = first_index(whole, sep).unwrap();
    if i < a.len() {
        assert(a[i] == whole[i]);
    }
    assert(whole.take(i) == a);
    assert(whole.skip(i + 1) == b);
}

/// Cuts `s` at the first `sep`.
pub fn split_once<'a>(s: &'a str, sep: char) -> (r: Option<(&'a str, &'a str)>)
    ensures
        match r {
            Some((a, b)) => cut(s@, sep) == Some((a@, b@)),
            None => cut(s@, sep) is None,
        },
{
    match find_char(s, sep) {
        Some(i) => {
            proof {
                lemma_first_index(s@, sep);
            }
            let n: usize = s.unicode_len();
            let a: &'a str = s.substring_char(0, i);
            let b: &'a str = s.substring_char(i + 1, n);
            assert(a@ == s@.take(i as int));
            assert(b@ == s@.skip(i + 1));
            Some((a, b))
        },
        None => None,
    }
}

/// `p` stands in `s` at position `at`.
pub open spec fn occurs_at(s: Seq<char>, p: Seq<char>, at: int) -> bool {
    0 <= at && at + p.len() <= s.len() && s.subrange(at, at + p.len()) == p
}

/// `p` stands somewhere in `s`.
pub open spec fn has_text(s: Seq<char>, p: Seq<char>) -> bool {
    exists|at: int| occurs_at(s, p, at)
}

/// `c` with an ASCII capital turned into its small letter.
pub open spec fn ascii_lower(c: char) -> char {
    if 'A' <= c <= 'Z' {
        (c as u32 + 32) as char
    } else {
        c
    }
}

/// `s` with its ASCII capitals turned into small letters.
pub open spec fn ascii_lowercase(s: Seq<char>) -> Seq<char> {
    Seq::new(s.len(), |i: int| ascii_lower(s[i]))
}

/// `s` with every `from` replaced by `to`.
pub open spec fn replaced(s: Seq<char>, from: char, to: char) -> Seq<char> {
    Seq::new(s.len(), |i: int| if s[i] == from { to } else { s[i] })
}

/// Whether `p` stands in `cs` at position `at`.
fn matches_at(cs: &Vec<char>, p: &Vec<char>, at: usize) -> (r: bool)
    requires
        at + p@.len() <= cs@.len(),
    ensures
        r == occurs_at(cs@, p@, at as int),
{
    let n: usize = p.len();
    let total: usize = cs.len();
    let mut i: usize = 0;
    let ghost window = cs@.subrange(at as int, at + p@.len());
    while i < n
        invariant
            i <= n,
            n == p@.len(),
            total == cs@.len(),
            at + p@.len() <= cs@.len(),
            window == cs@.subrange(at as int, at + p@.len()),
            forall|j: int| 0 <= j < i ==> window[j] == p@[j],
        decreases n - i,
    {
        if cs[at + i] != p[i] {
            assert(window[i as int] != p@[i as int]);
            return false;
        }
        i += 1;
    }
    assert(window == p@);
    true
}

/// Whether two texts are the same.
pub fn same_text(a: &str, b: &str) -> (r: bool)
    ensures
        r == (a@ == b@),
{
    let ca: Vec<char> = chars_of(a);
    let cb: Vec<char> = chars_of(b);
    assert(a@.subrange(0, a@.len() as int) == a@);
    ca.len() == cb.len() && matches_at(&ca, &cb, 0)
}

/// Whether `s` begins with `p`.
pub fn starts_with(s: &str, p: &str) -> (r: bool)
    ensures
        r == p@.is_prefix_of(s@),
{
    let cs: Vec<char> = chars_of(s);
    let cp: Vec<char> = chars_of(p);
    cp.len() <= cs.len() && matches_at(&cs, &cp, 0)
}

/// Whether `p` stands somewhere in `cs`.
fn search(cs: &Vec<char>, p: &Vec<char>) -> (r: bool)
    ensures
        r == has_text(cs@, p@),
{
    if p.len() > cs.len() {
        return false;
    }
    let last: usize = cs.len() - p.len();
    let mut at: usize = 0;
    loop
        invariant
            at <= last,
            last + p@.len() == cs@.len(),
            forall|k: int| 0 <= k < at ==> !occurs_at(cs@, p@, k),
        decreases last - at,
    {
        if matches_at(cs, p, at) {
            return true;
        }
        if at == last {
            return false;
        }
        at += 1;
    }
}

/// Whether `p` stands somewhere in `s`.
pub fn contains(s: &str, p: &str) -> (r: bool)
    ensures
        r == has_text(s@, p@),
{
    let cs: Vec<char> = chars_of(s);
    let cp: Vec<char> = chars_of(p);
    search(&cs, &cp)
}

/// An ASCII capital as its small letter, any other character as it is.
fn to_ascii_lower(c: char) -> (r: char)
    ensures
        r == ascii_lower(c),
{
    if 'A' <= c && c <= 'Z' {
        (c as u8 + 32) as char
    } else {
        c
    }
}

/// Whether `p` stands in `s` once the ASCII capitals of `s` are small letters.
pub fn contains_lowercased(s: &str, p: &str) -> (r: bool)
    ensures
        r == has_text(ascii_lowercase(s@), p@),
{
    let cs: Vec<char> = chars_of(s);
    let mut low: Vec<char> = Vec::new();
    let n: usize = cs.len();
    let mut i: usize = 0;
    while i < n
        invariant
            i <= n,
            n == cs@.len(),
            cs@ == s@,
            low@ == ascii_lowercase(s@).take(i as int),
        decreases n - i,
    {
        low.push(to_ascii_lower(cs[i]));
        i += 1;
    }
    assert(ascii_lowercase(s@).take(n as int) == ascii_lowercase(s@));
    let cp: Vec<char> = chars_of(p);
    search(&low, &cp)
}

/// Replaces every `from` in `s` by the one character that `to` holds.
pub fn replace_char(s: &str, from: char, to: &str) -> (r: String)
    requires
        to@.len() == 1,
    ensures
        r@ == replaced(s@, from, to@[0]),
{
    let cs: Vec<char> = chars_of(s);
    let n: usize = cs.len();
    let mut r: String = String::new();
    let mut i: usize = 0;
    assert(replaced(s@, from, to@[0]).take(0) == Seq::<char>::empty());
    while i < n
        invariant
            i <= n,
            n == cs@.len(),
            cs@ == s@,
            to@.len() == 1,
            r@ == replaced(s@, from, to@[0]).take(i as int),
        decreases n - i,
    {
        let ghost before = r@;
        if cs[i] == from {
            r.append(to);
        } else {
            r.append(s.substring_char(i, i + 1));
        }
        assert(r@ == replaced(s@, from, to@[0]).take(i + 1));
        i += 1;
    }
    assert(replaced(s@, from, to@[0]).take(n as int) == replaced(s@, from, to@[0]));
    r
}

/// White space in front goes.
proof fn lemma_trimmed_front(pre: Seq<char>, s: Seq<char>)
    requires
        forall|i: int| 0 <= i < pre.len() ==> white_space(#[trigger] pre[i]),
    ensures
        trimmed_start(pre + s) == trimmed_start(s),
    decreases pre.len(),
{
    if pre.len() == 0 {
        assert(pre + s == s);
    } else {
        assert(white_space(pre[0]));
        assert((pre + s).skip(1) == pre.skip(1) + s);
        assert forall|i: int| 0 <= i < pre.skip(1).len() implies white_space(
            #[trigger] pre.skip(1)[i],
        ) by {
            assert(pre.skip(1)[i] == pre[i + 1]);
        }
        lemma_trimmed_front(pre.skip(1), s);
    }
}

/// White space at the end goes.
proof fn lemma_trimmed_back(s: Seq<char>, post: Seq<char>)
    requires
        forall|i: int| 0 <= i < post.len() ==> white_space(#[trigger] post[i]),
    ensures
        trimmed_end(s + post) == trimmed_end(s),
    decreases post.len(),
{
    if post.len() == 0 {
        assert(s + post == s);
    } else {
        let front = post.drop_last();
        assert(white_space(post[post.len() - 1]));
        assert((s + post).drop_last() == s + front);
        assert forall|i: int| 0 <= i < front.len() implies white_space(#[trigger] front[i]) by {
            assert(front[i] == post[i]);
        }
        lemma_trimmed_back(s, front);
    }
}

/// Trimming takes away the white space around a text and nothing of the text:
/// what is left is what stood between.
pub proof fn law_trim_around(pre: Seq<char>, t: Seq<char>, post: Seq<char>)
    requires
        forall|i: int| 0 <= i < pre.len() ==> white_space(#[trigger] pre[i]),
        forall|i: int| 0 <= i < post.len() ==> white_space(#[trigger] post[i]),
        t.len() == 0 || (!white_space(t[0]) && !white_space(t[t.len() - 1])),
    ensures
        trimmed(pre + t + post) == t,
{
    assert(pre + t + post == pre + (t + post));
    lemma_trimmed_front(pre, t + post);
    if t.len() == 0 {
        let none = Seq::<char>::empty();
        assert(t + post == post);
        assert(post == post + none);
        lemma_trimmed_front(post, none);
        assert(trimmed_start(none) == none);
        assert(t == none);
    } else {
        assert((t + post)[0] == t[0]);
        lemma_trimmed_back(t, post);
    }
}

/// Parts put together again with the separator between them.
pub open spec fn joined_with(parts: Seq<Seq<char>>, sep: char) -> Seq<char>
    decreases parts.len(),
{
    if parts.len() == 0 {
        Seq::empty()
    } else if parts.len() == 1 {
        parts[0]
    } else {
        joined_with(parts.drop_last(), sep).push(sep) + parts.last()
    }
}

/// The parts of a text hold no separator, and put together they are the text.
pub proof fn law_split_parts(s: Seq<char>, sep: char)
    ensures
        split_on(s, sep).len() >= 1,
        forall|i: int|
            0 <= i < split_on(s, sep).len() ==> !(#[trigger] split_on(s, sep)[i]).contains(sep),
        joined_with(split_on(s, sep), sep) == s,
    decreases s.len(),
{
    let parts = split_on(s, sep);
    if s.len() > 0 {
        let front = s.drop_last();
        let before = split_on(front, sep);
        law_split_parts(front, sep);
        assert(front.push(s.last()) == s);
        if s.last() == sep {
            assert(parts.drop_last() == before);
            assert(front.push(sep) + Seq::<char>::empty() == s);
        } else {
            let last = before.last().push(s.last());
            assert(parts == before.drop_last().push(last));
            assert(parts.drop_last() == before.drop_last());
            assert(!before[before.len() - 1].contains(sep));
            assert forall|i: int| 0 <= i < last.len() implies last[i] != sep by {
                if i < before.last().len() {
                    assert(before.last()[i] == last[i]);
                }
            }
            assert forall|i: int| 0 <= i < parts.len() implies !(#[trigger] parts[i]).contains(
                sep,
            ) by {
                if i < parts.len() - 1 {
                    assert(parts[i] == before[i]);
                }
            }
            if parts.len() == 1 {
                assert(before.len() == 1);
                assert(last == front.push(s.last()));
            } else {
                let head = joined_with(before.drop_last(), sep).push(sep);
                assert(head + last == (head + before.last()).push(s.last()));
            }
        }
    }
}

/// Cutting a text takes out its first separator and nothing else, and fails
/// only where there is none.
pub proof fn law_cut(s: Seq<char>, sep: char)
    ensures
        match cut(s, sep) {
            Some((a, b)) => s == a.push(sep) + b && !a.contains(sep),
            None => !s.contains(sep),
        },
{
    lemma_first_index(s, sep);
    if let Some(i) = first_index(s, sep) {
        let a = s.take(i);
        assert(s == a.push(sep) + s.skip(i + 1));
        assert forall|j: int| 0 <= j < a.len() implies a[j] != sep by {
            assert(a[j] == s[j]);
        }
    }
}

/// A text is found wherever it stands.
pub proof fn law_found(a: Seq<char>, p: Seq<char>, b: Seq<char>)
    ensures
        has_text(a + p + b, p),
{
    let s = a + p + b;
    assert(s.subrange(a.len() as int, a.len() as int + p.len()) == p);
    assert(occurs_at(s, p, a.len() as int));
}

/// A text that is found stands there, letter by letter.
pub proof fn law_found_stands(s: Seq<char>, p: Seq<char>) -> (at: int)
    requires
        has_text(s, p),
    ensures
        0 <= at && at + p.len() <= s.len(),
        forall|k: int| 0 <= k < p.len() ==> s[at + k] == #[trigger] p[k],
{
    let at = choose|at: int| occurs_at(s, p, at);
    assert forall|k: int| 0 <= k < p.len() implies s[at + k] == #[trigger] p[k] by {
        assert(s.subrange(at, at + p.len())[k] == p[k]);
    }
    at
}

/// Lowering moves the capitals of ASCII by thirty-two and leaves every other
/// character.
pub proof fn law_lowercase(s: Seq<char>)
    ensures
        ascii_lowercase(s).len() == s.len(),
        forall|i: int|
            0 <= i < s.len() ==> #[trigger] ascii_lowercase(s)[i] as int == s[i] as int + (if 65
                <= s[i] as int <= 90 {
                32int
            } else {
                0
            }),
{
}

/// Replacing goes through a text from one occurrence to the next, and leaves a
/// text without any.
pub proof fn law_replaced(a: Seq<char>, b: Seq<char>, from: char, to: char)
    ensures
        replaced(a.push(from) + b, from, to) == replaced(a, from, to).push(to) + replaced(
            b,
            from,
            to,
        ),
        !a.contains(from) ==> replaced(a, from, to) == a,
{
    assert(replaced(a.push(from) + b, from, to) == replaced(a, from, to).push(to) + replaced(
        b,
        from,
        to,
    ));
    if !a.contains(from) {
        assert(replaced(a, from, to) == a);
    }
}

/// The contents of lists of texts are the texts, in their order.
pub proof fn law_texts(v: Seq<String>, w: Seq<&str>)
    ensures
        strings(v).len() == v.len(),
        forall|i: int| 0 <= i < v.len() ==> #[trigger] strings(v)[i] == v[i]@,
        texts(w).len() == w.len(),
        forall|i: int| 0 <= i < w.len() ==> #[trigger] texts(w)[i] == w[i]@,
{
}

} // verus!
