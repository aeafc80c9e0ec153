use vstd::prelude::*;

verus! {

/// The characters of an optional text.
pub open spec fn text_view(s: Option<&str>) -> Option<Seq<char>> {
    match s {
        Some(t) => Some(t@),
        None => None,
    }
}

/// The characters of an optional owned text.
pub open spec fn string_view(s: Option<String>) -> Option<Seq<char>> {
    match s {
        Some(t) => Some(t@),
        None => None,
    }
}

/// `pat` stands in `s` at index `i`.
pub open spec fn occurs_at(s: Seq<char>, pat: Seq<char>, i: int) -> bool {
    0 <= i && i + pat.len() <= s.len() && s.subrange(i, i + pat.len()) == pat
}

/// `s` begins with `pat`.
pub open spec fn has_prefix(s: Seq<char>, pat: Seq<char>) -> bool {
    occurs_at(s, pat, 0)
}

/// `s` ends with `pat`.
pub open spec fn has_suffix(s: Seq<char>, pat: Seq<char>) -> bool {
    occurs_at(s, pat, s.len() - pat.len())
}

/// Index of the first occurrence of `pat` in `s` at or after `from`, or `-1`
/// when there is none.
pub open spec fn first_index_from(s: Seq<char>, pat: Seq<char>, from: int) -> int
    decreases s.len() + 1 - from,
{
    if from < 0 || from + pat.len() > s.len() {
        -1
    } else if occurs_at(s, pat, from) {
        from
    } else {
        first_index_from(s, pat, from + 1)
    }
}

/// Index of the first occurrence of `pat` in `s`, or `-1` when there is none.
pub open spec fn first_index(s: Seq<char>, pat: Seq<char>) -> int {
    first_index_from(s, pat, 0)
}

/// `pat` occurs somewhere in `s`.
pub open spec fn contains(s: Seq<char>, pat: Seq<char>) -> bool {
    first_index(s, pat) >= 0
}

/// `s` with every occurrence of `pat` replaced by `to`, scanning from the left
/// and never looking again at text already replaced. An empty `pat` replaces
/// nothing.
pub open spec fn replace_all(s: Seq<char>, pat: Seq<char>, to: Seq<char>) -> Seq<char>
    decreases s.len(),
{
    if pat.len() == 0 || s.len() < pat.len() {
        s
    } else if has_prefix(s, pat) {
        to + replace_all(s.skip(pat.len() as int), pat, to)
    } else {
        seq![s[0]] + replace_all(s.skip(1), pat, to)
    }
}

/// White space: the characters that carry the Unicode property `White_Space`.
pub open spec fn is_space(c: char) -> bool {
    let n = c as u32;
    (0x09 <= n <= 0x0d) || n == 0x20 || n == 0x85 || n == 0xa0 || n == 0x1680 || (0x2000 <= n
        <= 0x200a) || n == 0x2028 || n == 0x2029 || n == 0x202f || n == 0x205f || n == 0x3000
}

/// `s` without its leading white space.
pub open spec fn trim_start(s: Seq<char>) -> Seq<char>
    decreases s.len(),
{
    if s.len() > 0 && is_space(s[0]) {
        trim_start(s.skip(1))
    } else {
        s
    }
}

/// `s` without its trailing white space.
pub open spec fn trim_end(s: Seq<char>) -> Seq<char>
    decreases s.len(),
{
    if s.len() > 0 && is_space(s.last()) {
        trim_end(s.drop_last())
    } else {
        s
    }
}

/// `s` without leading and trailing white space.
pub open spec fn trim(s: Seq<char>) -> Seq<char> {
    trim_end(trim_start(s))
}

/// The part of `s` before the first occurrence of `pat`; all of `s` when
/// `pat` does not occur.
pub open spec fn before_first(s: Seq<char>, pat: Seq<char>) -> Seq<char> {
    let i = first_index(s, pat);
    if i < 0 {
        s
    } else {
        s.take(i)
    }
}

/// The part of `s` behind the first occurrence of `pat`, if `pat` occurs.
pub open spec fn after_first(s: Seq<char>, pat: Seq<char>) -> Option<Seq<char>> {
    let i = first_index(s, pat);
    if i < 0 {
        None
    } else {
        Some(s.skip(i + pat.len()))
    }
}

/// The part of `s` behind the last `c`; all of `s` when it holds no `c`.
pub open spec fn after_last(s: Seq<char>, c: char) -> Seq<char>
    decreases s.len(),
{
    if s.len() == 0 {
        s
    } else if s.last() == c {
        Seq::empty()
    } else {
        after_last(s.drop_last(), c).push(s.last())
    }
}

/// `s` without one pair of enclosing double quotes, if it has one.
pub open spec fn unquote(s: Seq<char>) -> Seq<char> {
    if s.len() >= 2 && s[0] == '"' && s.last() == '"' {
        s.subrange(1, s.len() - 1)
    } else {
        s
    }
}

/// A decimal digit.
pub open spec fn is_digit(c: char) -> bool {
    0x30 <= c as u32 <= 0x39
}

/// The number that a string of decimal digits writes.
pub open spec fn decimal_value(s: Seq<char>) -> nat
    decreases s.len(),
{
    if s.len() == 0 {
        0
    } else {
        decimal_value(s.drop_last()) * 10 + (s.last() as u32 - 0x30) as nat
    }
}

/// The digits of a number written with an optional leading `+`.
pub open spec fn unsigned_digits(s: Seq<char>) -> Seq<char> {
    if s.len() > 0 && s[0] == '+' {
        s.skip(1)
    } else {
        s
    }
}

/// The `u64` that `s` writes in decimal: an optional `+`, then one digit or
/// more, the whole no larger than `u64::MAX`. Anything else writes no number.
pub open spec fn parse_u64(s: Seq<char>) -> Option<u64> {
    let d = unsigned_digits(s);
    if d.len() > 0 && (forall|i: int| 0 <= i < d.len() ==> is_digit(#[trigger] d[i]))
        && decimal_value(d) <= u64::MAX {
        Some(decimal_value(d) as u64)
    } else {
        None
    }
}

/// The first occurrence found from `from` on is a real one, and nothing
/// earlier matches; `-1` means that nothing matches from `from` on.
pub proof fn lemma_first_index_from(s: Seq<char>, pat: Seq<char>, from: int)
    requires
        0 <= from,
    ensures
        first_index_from(s, pat, from) == -1 || (from <= first_index_from(s, pat, from)
            && occurs_at(s, pat, first_index_from(s, pat, from))),
        forall|j: int|
            from <= j && (first_index_from(s, pat, from) == -1 || j < first_index_from(
                s,
                pat,
                from,
            )) ==> !occurs_at(s, pat, j),
    decreases s.len() + 1 - from,
{
    if from + pat.len() > s.len() {
    } else if occurs_at(s, pat, from) {
    } else {
        lemma_first_index_from(s, pat, from + 1);
    }
}

/// Where no character from index `i` on is `c`, and the one before index `i`
/// is, the part behind the last `c` starts at `i`.
pub proof fn lemma_after_last(s: Seq<char>, c: char, i: int)
    requires
        0 <= i <= s.len(),
        forall|j: int| i <= j < s.len() ==> s[j] != c,
        i == 0 || s[i - 1] == c,
    ensures
        after_last(s, c) == s.skip(i),
    decreases s.len(),
{
    if s.len() == i {
        assert(s.skip(i) =~= Seq::<char>::empty());
    } else {
        lemma_after_last(s.drop_last(), c, i);
        assert(s.drop_last().skip(i).push(s.last()) =~= s.skip(i));
    }
}

/// A prefix of a digit string writes a number no larger than the whole.
pub proof fn lemma_decimal_prefix(s: Seq<char>, k: int)
    requires
        0 <= k <= s.len(),
        forall|i: int| 0 <= i < s.len() ==> is_digit(#[trigger] s[i]),
    ensures
        decimal_value(s.take(k)) <= decimal_value(s),
    decreases s.len() - k,
{
    if k == s.len() {
        assert(s.take(k) =~= s);
    } else {
        lemma_decimal_prefix(s.drop_last(), k);
        assert(s.drop_last().take(k) =~= s.take(k));
    }
}

/// The characters of `s`, in order.
pub fn chars_of(s: &str) -> (out: Vec<char>)
    ensures
        out@ == s@,
{
    let mut out: Vec<char> = Vec::new();
    for c in it: s.chars()
        invariant
            out@ == it.seq().take(it.index() as int),
            it.seq() == s@,
    {
        out.push(c);
    }
    out
}

/// Appends one character to a `String`, by `String::push`: the text afterwards
/// is the text before followed by `c`.
#[verifier::external_body]
fn push_char(s: &mut String, c: char)
    ensures
        final(s)@ == old(s)@.push(c),
{
    s.push(c);
}

/// The string made of the characters of `v`, in order.
pub fn string_of(v: &Vec<char>) -> (out: String)
    ensures
        out@ == v@,
{
    let mut out = String::new();
    let mut i: usize = 0;
    while i < v.len()
        invariant
            i <= v.len(),
            out@ == v@.take(i as int),
        decreases v.len() - i,
    {
        push_char(&mut out, v[i]);
        i += 1;
    }
    out
}

/// Whether `c` is white space.
pub fn space(c: char) -> (b: bool)
    ensures
        b == is_space(c),
{
    let n: u32 = c as u32;
    (0x09 <= n && n <= 0x0d) || n == 0x20 || n == 0x85 || n == 0xa0 || n == 0x1680 || (0x2000
        <= n && n <= 0x200a) || n == 0x2028 || n == 0x2029 || n == 0x202f || n == 0x205f || n
        == 0x3000
}

/// Whether `pat` stands in `s` at index `i`.
pub fn matches_at(s: &Vec<char>, pat: &Vec<char>, i: usize) -> (b: bool)
    ensures
        b == occurs_at(s@, pat@, i as int),
{
    if pat.len() > s.len() || i > s.len() - pat.len() {
        return false;
    }
    let mut k: usize = 0;
    while k < pat.len()
        invariant
            k <= pat.len(),
            i + pat.len() <= s.len(),
            forall|j: int| 0 <= j < k ==> s@[i + j] == pat@[j],
        decreases pat.len() - k,
    {
        if s[i + k] != pat[k] {
            assert(s@.subrange(i as int, i + pat@.len())[k as int] == s@[i + k]);
            return false;
        }
        k += 1;
    }
    assert(s@.subrange(i as int, i + pat@.len()) =~= pat@);
    true
}

/// The index of the first occurrence of `pat` in `s` at or after `from`.
pub fn find_from(s: &Vec<char>, pat: &Vec<char>, from: usize) -> (r: Option<usize>)
    ensures
        match r {
            Some(i) => first_index_from(s@, pat@, from as int) == i,
            None => first_index_from(s@, pat@, from as int) == -1,
        },
{
    if pat.len() > s.len() {
        return None;
    }
    let last: usize = s.len() - pat.len();
    let mut i: usize = from;
    while i <= last
        invariant
            pat.len() <= s.len(),
            last == s.len() - pat.len(),
            from <= i,
            first_index_from(s@, pat@, from as int) == first_index_from(s@, pat@, i as int),
        decreases last + 1 - i,
    {
        if matches_at(s, pat, i) {
            return Some(i);
        }
        assert(pat.len() > 0) by {
            if pat.len() == 0 {
                assert(s@.subrange(i as int, i as int) =~= pat@);
            }
        }
        i += 1;
    }
    None
}

/// The characters of `s` from index `a` up to, not including, index `b`.
pub fn slice_of(s: &Vec<char>, a: usize, b: usize) -> (out: Vec<char>)
    requires
        a <= b <= s.len(),
    ensures
        out@ == s@.subrange(a as int, b as int),
{
    let mut out: Vec<char> = Vec::new();
    let mut i: usize = a;
    while i < b
        invariant
            a <= i <= b <= s.len(),
            out@ == s@.subrange(a as int, i as int),
        decreases b - i,
    {
        out.push(s[i]);
        assert(s@.subrange(a as int, i + 1) =~= s@.subrange(a as int, i as int).push(s@[i as int]));
        i += 1;
    }
    out
}

/// Appends the characters of `more` to `out`.
pub fn append(out: &mut Vec<char>, more: &Vec<char>)
    ensures
        final(out)@ == old(out)@ + more@,
{
    let mut i: usize = 0;
    while i < more.len()
        invariant
            i <= more.len(),
            out@ == old(out)@ + more@.take(i as int),
        decreases more.len() - i,
    {
        out.push(more[i]);
        assert(more@.take(i + 1) =~= more@.take(i as int).push(more@[i as int]));
        assert(out@ =~= old(out)@ + more@.take(i + 1));
        i += 1;
    }
    assert(more@.take(more@.len() as int) =~= more@);
}

/// `s` with every occurrence of `pat` replaced by `to`.
pub fn replace(s: &Vec<char>, pat: &Vec<char>, to: &Vec<char>) -> (out: Vec<char>)
    ensures
        out@ == replace_all(s@, pat@, to@),
{
    let mut out: Vec<char> = Vec::new();
    if pat.len() == 0 {
        append(&mut out, s);
        assert(out@ =~= s@);
        return out;
    }
    let mut i: usize = 0;
    assert(s@.skip(0) =~= s@);
    assert(out@ + replace_all(s@, pat@, to@) =~= replace_all(s@, pat@, to@));
    while i < s.len()
        invariant
            pat.len() > 0,
            i <= s.len(),
            out@ + replace_all(s@.skip(i as int), pat@, to@) == replace_all(s@, pat@, to@),
        decreases s.len() - i,
    {
        let ghost rest = s@.skip(i as int);
        let ghost before = out@;
        if matches_at(s, pat, i) {
            proof {
                assert(rest.subrange(0, pat@.len() as int) =~= s@.subrange(
                    i as int,
                    i + pat@.len(),
                ));
                assert(rest.skip(pat@.len() as int) =~= s@.skip(i + pat@.len()));
            }
            append(&mut out, to);
            i += pat.len();
            proof {
                let tail = replace_all(s@.skip(i as int), pat@, to@);
                assert((before + to@) + tail =~= before + (to@ + tail));
            }
        } else {
            proof {
                assert(rest.skip(1) =~= s@.skip(i + 1));
                if rest.len() >= pat@.len() {
                    assert(rest.subrange(0, pat@.len() as int) =~= s@.subrange(
                        i as int,
                        i + pat@.len(),
                    ));
                } else {
                    assert(seq![rest[0]] + rest.skip(1) =~= rest);
                }
            }
            out.push(s[i]);
            i += 1;
            proof {
                let tail = replace_all(s@.skip(i as int), pat@, to@);
                assert(before.push(rest[0]) + tail =~= before + (seq![rest[0]] + tail));
            }
        }
    }
    assert(out@ + s@.skip(i as int) =~= out@);
    out
}

/// `s` without leading and trailing white space.
pub fn trimmed(s: &Vec<char>) -> (out: Vec<char>)
    ensures
        out@ == trim(s@),
{
    let mut a: usize = 0;
    assert(s@.skip(0) =~= s@);
    while a < s.len() && space(s[a])
        invariant
            a <= s.len(),
            trim_start(s@) == trim_start(s@.skip(a as int)),
        decreases s.len() - a,
    {
        assert(s@.skip(a as int).skip(1) =~= s@.skip(a + 1));
        a += 1;
    }
    assert(trim_start(s@) == s@.skip(a as int));
    let mut b: usize = s.len();
    assert(s@.subrange(a as int, b as int) =~= s@.skip(a as int));
    while b > a && space(s[b - 1])
        invariant
            a <= b <= s.len(),
            trim(s@) == trim_end(s@.subrange(a as int, b as int)),
        decreases b - a,
    {
        assert(s@.subrange(a as int, b as int).drop_last() =~= s@.subrange(a as int, b - 1));
        b -= 1;
    }
    slice_of(s, a, b)
}

/// Whether `s` begins with `pat`.
pub fn starts_with(s: &Vec<char>, pat: &Vec<char>) -> (b: bool)
    ensures
        b == has_prefix(s@, pat@),
{
    matches_at(s, pat, 0)
}

/// Whether `s` ends with `pat`.
pub fn ends_with(s: &Vec<char>, pat: &Vec<char>) -> (b: bool)
    ensures
        b == has_suffix(s@, pat@),
{
    if pat.len() > s.len() {
        false
    } else {
        matches_at(s, pat, s.len() - pat.len())
    }
}

/// Whether `pat` occurs in `s`.
pub fn includes(s: &Vec<char>, pat: &Vec<char>) -> (b: bool)
    ensures
        b == contains(s@, pat@),
{
    find_from(s, pat, 0).is_some()
}

/// The part of `s` before the first occurrence of `pat`.
pub fn cut_before(s: &Vec<char>, pat: &Vec<char>) -> (out: Vec<char>)
    ensures
        out@ == before_first(s@, pat@),
{
    proof {
        lemma_first_index_from(s@, pat@, 0);
    }
    match find_from(s, pat, 0) {
        Some(i) => slice_of(s, 0, i),
        None => {
            let out = slice_of(s, 0, s.len());
            assert(out@ =~= s@);
            out
        },
    }
}

/// The part of `s` behind the first occurrence of `pat`, if `pat` occurs.
pub fn cut_after(s: &Vec<char>, pat: &Vec<char>) -> (out: Option<Vec<char>>)
    ensures
        match out {
            Some(v) => after_first(s@, pat@) == Some(v@),
            None => after_first(s@, pat@) is None,
        },
{
    proof {
        lemma_first_index_from(s@, pat@, 0);
    }
    match find_from(s, pat, 0) {
        Some(i) => {
            let n: usize = s.len();
            Some(slice_of(s, i + pat.len(), n))
        },
        None => None,
    }
}

/// The part of `s` behind the last `c`.
pub fn tail_after(s: &Vec<char>, c: char) -> (out: Vec<char>)
    ensures
        out@ == after_last(s@, c),
{
    let mut i: usize = s.len();
    while i > 0 && s[i - 1] != c
        invariant
            i <= s.len(),
            forall|j: int| i <= j < s.len() ==> s@[j] != c,
        decreases i,
    {
        i -= 1;
    }
    proof {
        lemma_after_last(s@, c, i as int);
    }
    slice_of(s, i, s.len())
}

/// `s` without one pair of enclosing double quotes, if it has one.
pub fn unquoted(s: &Vec<char>) -> (out: Vec<char>)
    ensures
        out@ == unquote(s@),
{
    let n: usize = s.len();
    if n >= 2 && s[0] == '"' && s[n - 1] == '"' {
        slice_of(s, 1, n - 1)
    } else {
        let out = slice_of(s, 0, n);
        assert(out@ =~= s@);
        out
    }
}

/// The `u64` that `s` writes in decimal, if it writes one.
pub fn to_u64(s: &Vec<char>) -> (r: Option<u64>)
    ensures
        r == parse_u64(s@),
{
    let start: usize = if s.len() > 0 && s[0] == '+' {
        1
    } else {
        0
    };
    let ghost d = unsigned_digits(s@);
    assert(d =~= s@.skip(start as int));
    if start == s.len() {
        return None;
    }
    let mut acc: u64 = 0;
    let mut i: usize = start;
    assert(d.take(0) =~= Seq::<char>::empty());
    while i < s.len()
        invariant
            start <= i <= s.len(),
            d == s@.skip(start as int),
            d == unsigned_digits(s@),
            d.len() > 0,
            forall|j: int| 0 <= j < i - start ==> is_digit(#[trigger] d[j]),
            acc == decimal_value(d.take(i - start)),
        decreases s.len() - i,
    {
        let n: u32 = s[i] as u32;
        let ghost k = i - start;
        assert(d[k] == s@[i as int]);
        if n < 0x30 || n > 0x39 {
            assert(!is_digit(d[k]));
            return None;
        }
        assert(is_digit(d[k]));
        let digit: u64 = (n - 0x30) as u64;
        proof {
            assert(d.take(k + 1).drop_last() =~= d.take(k));
            assert(d.take(k + 1).last() == d[k]);
            assert(decimal_value(d.take(k + 1)) == acc * 10 + digit);
        }
        if acc > (u64::MAX - digit) / 10 {
            proof {
                assert(acc * 10 + digit > u64::MAX);
                if forall|j: int| 0 <= j < d.len() ==> is_digit(#[trigger] d[j]) {
                    lemma_decimal_prefix(d, k + 1);
                }
            }
            return None;
        }
        acc = acc * 10 + digit;
        i += 1;
    }
    assert(d.take(d.len() as int) =~= d);
    Some(acc)
}

/// Whether `a` and `b` hold the same characters.
pub fn same(a: &Vec<char>, b: &Vec<char>) -> (r: bool)
    ensures
        r == (a@ == b@),
{
    if a.len() != b.len() {
        return false;
    }
    let r = matches_at(a, b, 0);
    assert(a@.subrange(0, a@.len() as int) =~= a@);
    r
}

/// A copy of `v`.
pub fn copy_of(v: &Vec<char>) -> (out: Vec<char>)
    ensures
        out@ == v@,
{
    let out = slice_of(v, 0, v.len());
    assert(out@ =~= v@);
    out
}

} // verus!
