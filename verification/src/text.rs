//! Character-level text operations, stated over `Seq<char>`.
//!
//! Every executable function here works on a `Vec<char>` and is specified by
//! a spec function of the same meaning on the vector's view.

use vstd::prelude::*;

verus! {

/// `String::push` appends one character at the end of the string.
pub assume_specification[ std::string::String::push ](s: &mut std::string::String, ch: char)
    ensures
        final(s)@ == old(s)@.push(ch),
;

/// The views of the elements of `s`, in order.
pub open spec fn view_all<T: View>(s: Seq<T>) -> Seq<T::V> {
    Seq::new(s.len(), |i: int| s[i]@)
}

/// Whether `c` is white space: the characters with the Unicode property
/// `White_Space`.
pub open spec fn is_space(c: char) -> bool {
    let n = c as u32;
    ||| (0x09 <= n && n <= 0x0D)
    ||| n == 0x20
    ||| n == 0x85
    ||| n == 0xA0
    ||| n == 0x1680
    ||| (0x2000 <= n && n <= 0x200A)
    ||| n == 0x2028
    ||| n == 0x2029
    ||| n == 0x202F
    ||| n == 0x205F
    ||| n == 0x3000
}

/// `s` without its leading white space.
pub open spec fn trim_start(s: Seq<char>) -> Seq<char>
    decreases s.len(),
{
    if s.len() > 0 && is_space(s[0]) {
        trim_start(s.skip(1))
    } else {
        s
    }
}

/// `s` without its trailing white space.
pub open spec fn trim_end(s: Seq<char>) -> Seq<char>
    decreases s.len(),
{
    if s.len() > 0 && is_space(s.last()) {
        trim_end(s.drop_last())
    } else {
        s
    }
}

/// `s` without leading and trailing white space.
pub open spec fn trim(s: Seq<char>) -> Seq<char> {
    trim_end(trim_start(s))
}

/// The number of characters before the first white space of `s`.
pub open spec fn token_len(s: Seq<char>) -> nat
    decreases s.len(),
{
    if s.len() > 0 && !is_space(s[0]) {
        1 + token_len(s.skip(1))
    } else {
        0
    }
}

/// The first maximal run of characters of `s` that are not white space;
/// empty where `s` holds white space only.
pub open spec fn first_token(s: Seq<char>) -> Seq<char> {
    let t = trim_start(s);
    t.take(token_len(t) as int)
}

/// What follows the first token of `s`.
pub open spec fn after_first_token(s: Seq<char>) -> Seq<char> {
    let t = trim_start(s);
    t.skip(token_len(t) as int)
}

/// The token of `s` with index `k`, counted from 0, where tokens are
/// separated by white space; empty where `s` has no more than `k` tokens.
pub open spec fn nth_token(s: Seq<char>, k: nat) -> Seq<char>
    decreases k,
{
    if k == 0 {
        first_token(s)
    } else {
        nth_token(after_first_token(s), (k - 1) as nat)
    }
}

/// The index of the first `c` in `s`, or the length of `s` where it holds none.
pub open spec fn position(s: Seq<char>, c: char) -> nat
    decreases s.len(),
{
    if s.len() == 0 || s[0] == c {
        0
    } else {
        1 + position(s.skip(1), c)
    }
}

/// The index at which `pat` first occurs in `s`.
pub open spec fn find(s: Seq<char>, pat: Seq<char>) -> Option<int>
    decreases s.len(),
{
    if pat.is_prefix_of(s) {
        Some(0)
    } else if s.len() == 0 {
        None
    } else {
        match find(s.skip(1), pat) {
            Some(i) => Some(i + 1),
            None => None,
        }
    }
}

/// Whether `pat` occurs in `s`.
pub open spec fn contains(s: Seq<char>, pat: Seq<char>) -> bool {
    find(s, pat) is Some
}

/// The pieces of `s` between occurrences of `c`: one more than there are
/// occurrences.
pub open spec fn split(s: Seq<char>, c: char) -> Seq<Seq<char>>
    decreases s.len(),
{
    let n = position(s, c);
    if n >= s.len() {
        seq![s]
    } else {
        seq![s.take(n as int)] + split(s.skip(n as int + 1), c)
    }
}

/// `line` without a carriage return at its end.
pub open spec fn without_return(line: Seq<char>) -> Seq<char> {
    if line.len() > 0 && line.last() == '\r' {
        line.drop_last()
    } else {
        line
    }
}

/// The lines of `s`. A line ends with a line feed, or with a carriage return
/// and a line feed; neither belongs to the line. What follows the last line
/// feed is a line too, unless it is empty.
pub open spec fn lines(s: Seq<char>) -> Seq<Seq<char>>
    decreases s.len(),
{
    if s.len() == 0 {
        Seq::empty()
    } else {
        let n = position(s, '\n');
        if n >= s.len() {
            seq![s]
        } else {
            seq![without_return(s.take(n as int))] + lines(s.skip(n as int + 1))
        }
    }
}

/// `s` without the occurrences of `c` at its end.
pub open spec fn strip_end(s: Seq<char>, c: char) -> Seq<char>
    decreases s.len(),
{
    if s.len() > 0 && s.last() == c {
        strip_end(s.drop_last(), c)
    } else {
        s
    }
}

/// `s` without the occurrences of `c` at its start.
pub open spec fn strip_start(s: Seq<char>, c: char) -> Seq<char>
    decreases s.len(),
{
    if s.len() > 0 && s[0] == c {
        strip_start(s.skip(1), c)
    } else {
        s
    }
}

/// Taking views commutes with `push`.
pub proof fn lemma_view_all_push<T: View>(s: Seq<T>, x: T)
    ensures
        view_all(s.push(x)) == view_all(s).push(x@),
{
    assert(view_all(s.push(x)) =~= view_all(s).push(x@));
}

/// The views of no elements are no views.
pub proof fn lemma_view_all_empty<T: View>(s: Seq<T>)
    requires
        s.len() == 0,
    ensures
        view_all(s) == Seq::<T::V>::empty(),
{
    assert(view_all(s) =~= Seq::<T::V>::empty());
}

/// The index in `s` of the `)` that closes a parenthesis opened before `s`,
/// where `depth` parentheses opened in between are still open; the length of
/// `s` where nothing closes it.
pub open spec fn closing(s: Seq<char>, depth: nat) -> nat
    decreases s.len(),
{
    if s.len() == 0 {
        0
    } else if s[0] == ')' && depth == 0 {
        0
    } else if s[0] == ')' {
        1 + closing(s.skip(1), (depth - 1) as nat)
    } else if s[0] == '(' {
        1 + closing(s.skip(1), depth + 1)
    } else {
        1 + closing(s.skip(1), depth)
    }
}

/// The parts one after the other, with `sep` between each two.
pub open spec fn joined_with(parts: Seq<Seq<char>>, sep: Seq<char>) -> Seq<char>
    decreases parts.len(),
{
    if parts.len() == 0 {
        Seq::empty()
    } else if parts.len() == 1 {
        parts[0]
    } else {
        joined_with(parts.drop_last(), sep) + sep + parts.last()
    }
}

/// What `position` returns is the least index that holds `c`.
pub proof fn law_position(s: Seq<char>, c: char)
    ensures
        position(s, c) <= s.len(),
        position(s, c) < s.len() ==> s[position(s, c) as int] == c,
        forall|j: int| 0 <= j < position(s, c) ==> s[j] != c,
    decreases s.len(),
{
    if s.len() == 0 || s[0] == c {
    } else {
        law_position(s.skip(1), c);
        let p = position(s.skip(1), c);
        assert forall|j: int| 0 <= j < position(s, c) implies s[j] != c by {
            if j > 0 {
                assert(s.skip(1)[j - 1] == s[j]);
            }
        }
    }
}

/// What `find` returns is the least index at which `pat` occurs.
pub proof fn law_find(s: Seq<char>, pat: Seq<char>)
    ensures
        match find(s, pat) {
            Some(i) => 0 <= i <= s.len() && pat.is_prefix_of(s.skip(i)) && forall|j: int|
                0 <= j < i ==> !pat.is_prefix_of(#[trigger] s.skip(j)),
            None => forall|j: int| 0 <= j <= s.len() ==> !pat.is_prefix_of(#[trigger] s.skip(j)),
        },
    decreases s.len(),
{
    assert(s.skip(0) =~= s);
    if pat.is_prefix_of(s) {
    } else if s.len() == 0 {
    } else {
        law_find(s.skip(1), pat);
        assert forall|j: int| 1 <= j <= s.len() implies s.skip(1).skip(j - 1) == #[trigger] s.skip(
            j,
        ) by {
            assert(s.skip(1).skip(j - 1) =~= s.skip(j));
        }
        match find(s.skip(1), pat) {
            Some(i) => {
                assert(s.skip(1).skip(i) =~= s.skip(i + 1));
                assert forall|j: int| 0 <= j < i + 1 implies !pat.is_prefix_of(
                    #[trigger] s.skip(j),
                ) by {
                    if j > 0 {
                        assert(s.skip(1).skip(j - 1) == s.skip(j));
                    }
                }
            },
            None => {
                assert forall|j: int| 0 <= j <= s.len() implies !pat.is_prefix_of(
                    #[trigger] s.skip(j),
                ) by {
                    if j > 0 {
                        assert(s.skip(1).skip(j - 1) == s.skip(j));
                    }
                }
            },
        }
    }
}

/// A token is no longer than the text it is taken from.
pub proof fn law_token_len(s: Seq<char>)
    ensures
        token_len(s) <= s.len(),
        forall|j: int| 0 <= j < token_len(s) ==> !is_space(#[trigger] s[j]),
        token_len(s) < s.len() ==> is_space(s[token_len(s) as int]),
    decreases s.len(),
{
    if s.len() > 0 && !is_space(s[0]) {
        law_token_len(s.skip(1));
        assert forall|j: int| 0 <= j < token_len(s) implies !is_space(#[trigger] s[j]) by {
            if j > 0 {
                assert(s.skip(1)[j - 1] == s[j]);
            }
        }
    }
}

/// The characters of `s`, in order.
pub fn chars_of(s: &str) -> (r: Vec<char>)
    ensures
        r@ == s@,
{
    let mut out: Vec<char> = Vec::new();
    for c in it: s.chars()
        invariant
            out@ == it.seq().take(it.index() as int),
            it.seq() == s@,
    {
        out.push(c);
    }
    out
}

/// The string that holds the characters of `v`, in order.
pub fn string_of(v: &Vec<char>) -> (r: String)
    ensures
        r@ == v@,
{
    let mut out = String::new();
    let mut i: usize = 0;
    while i < v.len()
        invariant
            i <= v.len(),
            out@ == v@.take(i as int),
        decreases v.len() - i,
    {
        out.push(v[i]);
        i += 1;
    }
    out
}

/// The characters of each string of `names`.
pub fn chars_of_all(names: &[String]) -> (r: Vec<Vec<char>>)
    ensures
        view_all(r@) == view_all(names@),
{
    let mut out: Vec<Vec<char>> = Vec::new();
    let mut i: usize = 0;
    while i < names.len()
        invariant
            i <= names.len(),
            out@.len() == i,
            forall|j: int| 0 <= j < i ==> (#[trigger] out@[j])@ == names@[j]@,
        decreases names.len() - i,
    {
        let cs = chars_of(names[i].as_str());
        out.push(cs);
        i += 1;
    }
    proof {
        assert(view_all(out@) =~= view_all(names@));
    }
    out
}

/// Whether `c` is white space.
pub fn is_whitespace(c: char) -> (r: bool)
    ensures
        r == is_space(c),
{
    let n: u32 = c as u32;
    (0x09 <= n && n <= 0x0D) || n == 0x20 || n == 0x85 || n == 0xA0 || n == 0x1680 || (0x2000 <= n
        && n <= 0x200A) || n == 0x2028 || n == 0x2029 || n == 0x202F || n == 0x205F || n == 0x3000
}

/// The characters of `v` from index `from` up to `to`.
pub fn slice_of(v: &Vec<char>, from: usize, to: usize) -> (r: Vec<char>)
    requires
        from <= to <= v.len(),
    ensures
        r@ == v@.subrange(from as int, to as int),
{
    let mut out: Vec<char> = Vec::new();
    let mut i: usize = from;
    while i < to
        invariant
            from <= i <= to <= v.len(),
            out@ == v@.subrange(from as int, i as int),
        decreases to - i,
    {
        out.push(v[i]);
        i += 1;
    }
    out
}

/// Whether `a` and `b` hold the same characters.
pub fn same_chars(a: &Vec<char>, b: &Vec<char>) -> (r: bool)
    ensures
        r == (a@ == b@),
{
    if a.len() != b.len() {
        return false;
    }
    let mut i: usize = 0;
    while i < a.len()
        invariant
            i <= a.len(),
            a.len() == b.len(),
            a@.take(i as int) == b@.take(i as int),
        decreases a.len() - i,
    {
        if a[i] != b[i] {
            return false;
        }
        proof {
            assert(a@.take(i + 1) =~= a@.take(i as int).push(a@[i as int]));
            assert(b@.take(i + 1) =~= b@.take(i as int).push(b@[i as int]));
        }
        i += 1;
    }
    proof {
        assert(a@.take(i as int) =~= a@);
        assert(b@.take(i as int) =~= b@);
    }
    true
}

/// Whether `pat` stands in `v` at index `at`.
pub fn occurs_at(v: &Vec<char>, at: usize, pat: &Vec<char>) -> (r: bool)
    requires
        at <= v.len(),
    ensures
        r == pat@.is_prefix_of(v@.skip(at as int)),
{
    if pat.len() > v.len() - at {
        return false;
    }
    let mut i: usize = 0;
    while i < pat.len()
        invariant
            i <= pat.len(),
            at + pat.len() <= v.len(),
            forall|j: int| 0 <= j < i ==> pat@[j] == v@[at + j],
        decreases pat.len() - i,
    {
        if pat[i] != v[at + i] {
            proof {
                assert(v@.skip(at as int)[i as int] == v@[at + i]);
            }
            return false;
        }
        i += 1;
    }
    proof {
        assert(pat@ =~= v@.skip(at as int).subrange(0, pat@.len() as int));
    }
    true
}

/// Whether `v` begins with `pat`.
pub fn starts_with(v: &Vec<char>, pat: &Vec<char>) -> (r: bool)
    ensures
        r == pat@.is_prefix_of(v@),
{
    proof {
        assert(v@.skip(0) =~= v@);
    }
    occurs_at(v, 0, pat)
}

/// Whether `v` ends with `pat`.
pub fn ends_with(v: &Vec<char>, pat: &Vec<char>) -> (r: bool)
    ensures
        r == pat@.is_suffix_of(v@),
{
    if pat.len() > v.len() {
        return false;
    }
    let at: usize = v.len() - pat.len();
    let r = occurs_at(v, at, pat);
    proof {
        let tail = v@.skip(at as int);
        assert(tail.len() == pat@.len());
        assert(tail.subrange(0, pat@.len() as int) =~= tail);
        assert(v@.subrange(v@.len() - pat@.len(), v@.len() as int) =~= tail);
    }
    r
}

/// The index of the first `c` in `v`, or the length of `v`.
pub fn position_of(v: &Vec<char>, c: char) -> (r: usize)
    ensures
        r == position(v@, c),
        r <= v.len(),
{
    let mut i: usize = 0;
    proof {
        assert(v@.skip(0) =~= v@);
    }
    while i < v.len() && v[i] != c
        invariant
            i <= v.len(),
            position(v@, c) == i + position(v@.skip(i as int), c),
        decreases v.len() - i,
    {
        proof {
            assert(v@.skip(i as int).skip(1) =~= v@.skip(i + 1));
        }
        i += 1;
    }
    i
}

/// The index in `v` of the `)` that closes a parenthesis opened before `v`,
/// or the length of `v` where nothing closes it.
pub fn closing_of(v: &Vec<char>) -> (r: usize)
    ensures
        r == closing(v@, 0),
        r <= v.len(),
{
    let mut i: usize = 0;
    let mut depth: usize = 0;
    proof {
        assert(v@.skip(0) =~= v@);
    }
    while i < v.len()
        invariant
            i <= v.len(),
            depth <= i,
            closing(v@, 0) == i + closing(v@.skip(i as int), depth as nat),
        decreases v.len() - i,
    {
        proof {
            assert(v@.skip(i as int).skip(1) =~= v@.skip(i + 1));
        }
        if v[i] == ')' {
            if depth == 0 {
                return i;
            }
            depth -= 1;
        } else if v[i] == '(' {
            depth += 1;
        }
        i += 1;
    }
    i
}

/// The index at which `pat` first occurs in `v`.
pub fn find_in(v: &Vec<char>, pat: &Vec<char>) -> (r: Option<usize>)
    ensures
        match r {
            Some(i) => find(v@, pat@) == Some(i as int) && i <= v.len(),
            None => find(v@, pat@) is None,
        },
{
    let mut i: usize = 0;
    proof {
        assert(v@.skip(0) =~= v@);
    }
    loop
        invariant
            i <= v.len(),
            find(v@, pat@) == match find(v@.skip(i as int), pat@) {
                Some(k) => Some(k + i),
                None => None,
            },
        decreases v.len() - i,
    {
        if occurs_at(v, i, pat) {
            return Some(i);
        }
        if i == v.len() {
            return None;
        }
        proof {
            assert(v@.skip(i as int).skip(1) =~= v@.skip(i + 1));
        }
        i += 1;
    }
}

/// Whether `pat` occurs in `v`.
pub fn contains_text(v: &Vec<char>, pat: &Vec<char>) -> (r: bool)
    ensures
        r == contains(v@, pat@),
{
    find_in(v, pat).is_some()
}

/// `v` without leading and trailing white space.
pub fn trimmed(v: &Vec<char>) -> (r: Vec<char>)
    ensures
        r@ == trim(v@),
{
    let mut a: usize = 0;
    proof {
        assert(v@.skip(0) =~= v@);
    }
    while a < v.len() && is_whitespace(v[a])
        invariant
            a <= v.len(),
            trim_start(v@) == trim_start(v@.skip(a as int)),
        decreases v.len() - a,
    {
        proof {
            assert(v@.skip(a as int).skip(1) =~= v@.skip(a + 1));
        }
        a += 1;
    }
    let mut b: usize = v.len();
    proof {
        assert(v@.skip(a as int) =~= v@.subrange(a as int, b as int));
    }
    while b > a && is_whitespace(v[b - 1])
        invariant
            a <= b <= v.len(),
            trim_end(v@.skip(a as int)) == trim_end(v@.subrange(a as int, b as int)),
        decreases b - a,
    {
        proof {
            assert(v@.subrange(a as int, b as int).drop_last() =~= v@.subrange(a as int, b - 1));
        }
        b -= 1;
    }
    slice_of(v, a, b)
}

/// `v` without the occurrences of `c` at its end.
pub fn strip_end_of(v: &Vec<char>, c: char) -> (r: Vec<char>)
    ensures
        r@ == strip_end(v@, c),
{
    let mut b: usize = v.len();
    proof {
        assert(v@.take(b as int) =~= v@);
    }
    while b > 0 && v[b - 1] == c
        invariant
            b <= v.len(),
            strip_end(v@, c) == strip_end(v@.take(b as int), c),
        decreases b,
    {
        proof {
            assert(v@.take(b as int).drop_last() =~= v@.take(b - 1));
        }
        b -= 1;
    }
    slice_of(v, 0, b)
}

/// `v` without the occurrences of `c` at its start.
pub fn strip_start_of(v: &Vec<char>, c: char) -> (r: Vec<char>)
    ensures
        r@ == strip_start(v@, c),
{
    let mut a: usize = 0;
    proof {
        assert(v@.skip(0) =~= v@);
    }
    while a < v.len() && v[a] == c
        invariant
            a <= v.len(),
            strip_start(v@, c) == strip_start(v@.skip(a as int), c),
        decreases v.len() - a,
    {
        proof {
            assert(v@.skip(a as int).skip(1) =~= v@.skip(a + 1));
        }
        a += 1;
    }
    slice_of(v, a, v.len())
}

/// Whether `x` is one of `names`.
pub fn contains_name(names: &Vec<Vec<char>>, x: &Vec<char>) -> (r: bool)
    ensures
        r == view_all(names@).contains(x@),
{
    let mut i: usize = 0;
    while i < names.len()
        invariant
            i <= names.len(),
            forall|j: int| 0 <= j < i ==> view_all(names@)[j] != x@,
        decreases names.len() - i,
    {
        if same_chars(&names[i], x) {
            proof {
                assert(view_all(names@)[i as int] == x@);
            }
            return true;
        }
        i += 1;
    }
    false
}

/// The first token of `v`, and what follows it.
pub fn split_first_token(v: &Vec<char>) -> (r: (Vec<char>, Vec<char>))
    ensures
        r.0@ == first_token(v@),
        r.1@ == after_first_token(v@),
{
    let mut a: usize = 0;
    proof {
        assert(v@.skip(0) =~= v@);
    }
    while a < v.len() && is_whitespace(v[a])
        invariant
            a <= v.len(),
            trim_start(v@) == trim_start(v@.skip(a as int)),
        decreases v.len() - a,
    {
        proof {
            assert(v@.skip(a as int).skip(1) =~= v@.skip(a + 1));
        }
        a += 1;
    }
    let mut b: usize = a;
    while b < v.len() && !is_whitespace(v[b])
        invariant
            a <= b <= v.len(),
            token_len(v@.skip(a as int)) == (b - a) + token_len(v@.skip(b as int)),
        decreases v.len() - b,
    {
        proof {
            assert(v@.skip(b as int).skip(1) =~= v@.skip(b + 1));
        }
        b += 1;
    }
    proof {
        let t = v@.skip(a as int);
        assert(t.take((b - a) as int) =~= v@.subrange(a as int, b as int));
        assert(t.skip((b - a) as int) =~= v@.subrange(b as int, v@.len() as int));
    }
    (slice_of(v, a, b), slice_of(v, b, v.len()))
}

/// The pieces of `v` between occurrences of `c`.
pub fn split_on(v: &Vec<char>, c: char) -> (r: Vec<Vec<char>>)
    ensures
        view_all(r@) == split(v@, c),
{
    let mut out: Vec<Vec<char>> = Vec::new();
    let mut start: usize = 0;
    proof {
        assert(v@.skip(0) =~= v@);
        assert(view_all(out@) + split(v@, c) =~= split(v@, c));
    }
    loop
        invariant
            start <= v.len(),
            view_all(out@) + split(v@.skip(start as int), c) == split(v@, c),
        decreases v.len() - start,
    {
        let rest = slice_of(v, start, v.len());
        let n = position_of(&rest, c);
        let piece = slice_of(&rest, 0, n);
        proof {
            assert(rest@ =~= v@.skip(start as int));
            assert(piece@ =~= rest@.take(n as int));
            assert(view_all(out@.push(piece)) =~= view_all(out@) + seq![piece@]);
        }
        out.push(piece);
        if n >= rest.len() {
            proof {
                assert(piece@ =~= rest@);
            }
            return out;
        }
        proof {
            assert(rest@.skip(n + 1) =~= v@.skip(start + n + 1));
            assert(view_all(out@) + split(v@.skip(start + n + 1), c) =~= split(v@, c));
        }
        start = start + n + 1;
    }
}

/// The lines of `v`.
pub fn lines_of(v: &Vec<char>) -> (r: Vec<Vec<char>>)
    ensures
        view_all(r@) == lines(v@),
{
    let mut out: Vec<Vec<char>> = Vec::new();
    let mut start: usize = 0;
    proof {
        assert(v@.skip(0) =~= v@);
        assert(view_all(out@) + lines(v@) =~= lines(v@));
    }
    while start < v.len()
        invariant
            start <= v.len(),
            view_all(out@) + lines(v@.skip(start as int)) == lines(v@),
        decreases v.len() - start,
    {
        let rest = slice_of(v, start, v.len());
        let n = position_of(&rest, '\n');
        if n >= rest.len() {
            proof {
                assert(rest@ =~= v@.skip(start as int));
                assert(view_all(out@.push(rest)) =~= view_all(out@) + seq![rest@]);
            }
            out.push(rest);
            proof {
                assert(view_all(out@) =~= lines(v@));
            }
            return out;
        }
        let end: usize = if n > 0 && rest[n - 1] == '\r' {
            n - 1
        } else {
            n
        };
        let piece = slice_of(&rest, 0, end);
        proof {
            assert(rest@ =~= v@.skip(start as int));
            if n > 0 {
                assert(rest@.take(n as int).last() == rest@[n - 1]);
                assert(rest@.take(n as int).drop_last() =~= rest@.take(n - 1));
            }
            assert(piece@ =~= without_return(rest@.take(n as int)));
            assert(view_all(out@.push(piece)) =~= view_all(out@) + seq![piece@]);
        }
        out.push(piece);
        proof {
            assert(rest@.skip(n + 1) =~= v@.skip(start + n + 1));
            assert(view_all(out@) + lines(v@.skip(start + n + 1)) =~= lines(v@));
        }
        start = start + n + 1;
    }
    proof {
        assert(view_all(out@) + lines(v@.skip(start as int)) =~= view_all(out@));
    }
    out
}

/// Whether `s` holds the text `other`.
pub fn same_text(s: &String, other: &str) -> (r: bool)
    ensures
        r == (s@ == other@),
{
    let wanted = other.to_owned();
    *s == wanted
}

/// Whether `name` is one of `names`.
pub fn has_name(names: &Vec<String>, name: &str) -> (r: bool)
    ensures
        r == view_all(names@).contains(name@),
{
    let wanted = name.to_owned();
    let mut i: usize = 0;
    while i < names.len()
        invariant
            i <= names.len(),
            wanted@ == name@,
            forall|j: int| 0 <= j < i ==> view_all(names@)[j] != name@,
        decreases names.len() - i,
    {
        if names[i] == wanted {
            proof {
                assert(view_all(names@)[i as int] == name@);
            }
            return true;
        }
        i += 1;
    }
    false
}

/// The strings of `parts` one after the other, with `sep` between each two.
pub fn join_with(parts: &Vec<String>, sep: &str) -> (r: String)
    ensures
        r@ == joined_with(view_all(parts@), sep@),
{
    let mut out = String::new();
    let mut i: usize = 0;
    let ghost all = view_all(parts@);
    proof {
        assert(all.take(0).len() == 0);
    }
    while i < parts.len()
        invariant
            i <= parts.len(),
            all == view_all(parts@),
            out@ == joined_with(all.take(i as int), sep@),
        decreases parts.len() - i,
    {
        proof {
            assert(all.take(i + 1).drop_last() =~= all.take(i as int));
            assert(all.take(i + 1).last() == parts@[i as int]@);
            if i == 0 {
                assert(all.take(1)[0] == parts@[0]@);
                assert(Seq::<char>::empty() + parts@[0]@ =~= parts@[0]@);
            }
        }
        if i > 0 {
            out.append(sep);
        }
        out.append(parts[i].as_str());
        i += 1;
    }
    proof {
        assert(all.take(i as int) =~= all);
    }
    out
}

/// `a` followed by `b`.
pub fn glue2(a: &str, b: &str) -> (r: String)
    ensures
        r@ == a@ + b@,
{
    let mut out = a.to_owned();
    out.append(b);
    out
}

/// `a`, `b` and `c`, one after the other.
pub fn glue3(a: &str, b: &str, c: &str) -> (r: String)
    ensures
        r@ == a@ + b@ + c@,
{
    let mut out = a.to_owned();
    out.append(b);
    out.append(c);
    out
}

/// `a`, `b`, `c` and `d`, one after the other.
pub fn glue4(a: &str, b: &str, c: &str, d: &str) -> (r: String)
    ensures
        r@ == a@ + b@ + c@ + d@,
{
    let mut out = a.to_owned();
    out.append(b);
    out.append(c);
    out.append(d);
    out
}

/// `a`, `b`, `c`, `d` and `e`, one after the other.
pub fn glue5(a: &str, b: &str, c: &str, d: &str, e: &str) -> (r: String)
    ensures
        r@ == a@ + b@ + c@ + d@ + e@,
{
    let mut out = a.to_owned();
    out.append(b);
    out.append(c);
    out.append(d);
    out.append(e);
    out
}

} // verus!
