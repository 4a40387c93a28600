//! Character-level text operations shared by the drivers and the layouts.
//!
//! Every operation is specified over `Seq<char>`, the view of a string.

use vstd::prelude::*;
use vstd::string::*;

verus! {

/// Whether `char::is_alphanumeric` holds of a character.
pub uninterp spec fn alphanumeric(c: char) -> bool;

/// Whether `char::is_whitespace` holds of a character.
pub uninterp spec fn whitespace(c: char) -> bool;

/// Appends one character to a string.
///
/// Wraps `String::push`: afterwards the string holds its former characters
/// followed by `c`.
#[verifier::external_body]
pub(crate) fn push_char(s: &mut String, c: char)
    ensures
        final(s)@ == old(s)@.push(c),
{
    s.push(c);
}

/// Compares two string slices.
///
/// Wraps `==` on `str`: true exactly when both hold the same characters.
#[verifier::external_body]
pub(crate) fn str_eq(a: &str, b: &str) -> (r: bool)
    ensures
        r == (a@ == b@),
{
    a == b
}

/// The characters of a string, in order.
pub(crate) fn chars_of(s: &str) -> (r: Vec<char>)
    ensures
        r@ == s@,
{
    let mut out: Vec<char> = Vec::new();
    for c in it: s.chars()
        invariant
            out@ == it.seq().take(it.index() as int),
            it.seq() == s@,
    {
        out.push(c);
    }
    out
}

/// The string made of the given characters, in order.
pub(crate) fn string_of(v: &Vec<char>) -> (r: String)
    ensures
        r@ == v@,
{
    let mut out = String::new();
    let mut i: usize = 0;
    while i < v.len()
        invariant
            i <= v.len(),
            out@ == v@.take(i as int),
        decreases v.len() - i,
    {
        push_char(&mut out, v[i]);
        assert(out@ =~= v@.take(i + 1));
        i = i + 1;
    }
    assert(v@.take(v.len() as int) =~= v@);
    out
}

/// Wraps `char::is_alphanumeric`; the answer is named [`alphanumeric`].
#[verifier::external_body]
pub(crate) fn is_alphanumeric(c: char) -> (r: bool)
    ensures
        r == alphanumeric(c),
{
    c.is_alphanumeric()
}

/// Wraps `char::is_whitespace`; the answer is named [`whitespace`].
#[verifier::external_body]
pub(crate) fn is_whitespace(c: char) -> (r: bool)
    ensures
        r == whitespace(c),
{
    c.is_whitespace()
}

/// The last step of a prefix: `s.take(i + 1)` is `s.take(i)` followed by `s[i]`.
pub proof fn lemma_take_step<T>(s: Seq<T>, i: int)
    requires
        0 <= i < s.len(),
    ensures
        s.take(i + 1).drop_last() == s.take(i),
        s.take(i + 1).last() == s[i],
        s.take(i + 1).len() == i + 1,
        s.take(i + 1) == s.take(i).push(s[i]),
{
    assert(s.take(i + 1).drop_last() =~= s.take(i));
    assert(s.take(i + 1) =~= s.take(i).push(s[i]));
}

/// The decimal digit for a value below ten.
pub open spec fn digit(d: nat) -> char {
    if d == 0 {
        '0'
    } else if d == 1 {
        '1'
    } else if d == 2 {
        '2'
    } else if d == 3 {
        '3'
    } else if d == 4 {
        '4'
    } else if d == 5 {
        '5'
    } else if d == 6 {
        '6'
    } else if d == 7 {
        '7'
    } else if d == 8 {
        '8'
    } else {
        '9'
    }
}

/// The decimal numeral of a natural number, without leading zeros.
pub open spec fn decimal(n: nat) -> Seq<char>
    decreases n,
{
    if n < 10 {
        seq![digit(n)]
    } else {
        decimal(n / 10).push(digit(n % 10))
    }
}

fn digit_char(d: usize) -> (c: char)
    requires
        d < 10,
    ensures
        c == digit(d as nat),
{
    if d == 0 {
        '0'
    } else if d == 1 {
        '1'
    } else if d == 2 {
        '2'
    } else if d == 3 {
        '3'
    } else if d == 4 {
        '4'
    } else if d == 5 {
        '5'
    } else if d == 6 {
        '6'
    } else if d == 7 {
        '7'
    } else if d == 8 {
        '8'
    } else {
        '9'
    }
}

/// Writes a number in decimal.
pub fn number_text(n: usize) -> (r: String)
    ensures
        r@ == decimal(n as nat),
    decreases n,
{
    if n < 10 {
        let mut out = String::new();
        push_char(&mut out, digit_char(n));
        assert(out@ =~= seq![digit(n as nat)]);
        out
    } else {
        let mut out = number_text(n / 10);
        push_char(&mut out, digit_char(n % 10));
        out
    }
}

/// The texts of a list of strings.
pub open spec fn texts(items: Seq<String>) -> Seq<Seq<char>> {
    Seq::new(items.len(), |i: int| items[i]@)
}

/// The texts, with `sep` between neighbours.
pub open spec fn joined(parts: Seq<Seq<char>>, sep: Seq<char>) -> Seq<char>
    decreases parts.len(),
{
    if parts.len() == 0 {
        Seq::empty()
    } else if parts.len() == 1 {
        parts[0]
    } else {
        joined(parts.drop_last(), sep) + sep + parts.last()
    }
}

/// Joins strings with a separator between neighbours.
pub fn join(parts: &Vec<String>, sep: &str) -> (r: String)
    ensures
        r@ == joined(texts(parts@), sep@),
{
    let mut out = String::new();
    let mut i: usize = 0;
    while i < parts.len()
        invariant
            i <= parts.len(),
            out@ == joined(texts(parts@).take(i as int), sep@),
        decreases parts.len() - i,
    {
        proof {
            lemma_take_step(texts(parts@), i as int);
        }
        if i > 0 {
            out.append(sep);
        }
        out.append(parts[i].as_str());
        proof {
            if i == 0 {
                assert(out@ =~= parts@[0]@);
            }
        }
        i = i + 1;
    }
    assert(texts(parts@).take(parts.len() as int) =~= texts(parts@));
    out
}

/// The characters of `s` from position `from` up to, not including, `to`.
pub(crate) fn slice(s: &Vec<char>, from: usize, to: usize) -> (r: Vec<char>)
    requires
        from <= to <= s.len(),
    ensures
        r@ == s@.subrange(from as int, to as int),
{
    let mut out: Vec<char> = Vec::new();
    let mut i: usize = from;
    while i < to
        invariant
            from <= i <= to <= s.len(),
            out@ == s@.subrange(from as int, i as int),
        decreases to - i,
    {
        out.push(s[i]);
        assert(out@ =~= s@.subrange(from as int, i + 1));
        i = i + 1;
    }
    out
}

/// Whether `p` occurs in `s` starting at position `at`.
pub open spec fn occurs_at(s: Seq<char>, at: int, p: Seq<char>) -> bool {
    0 <= at && at + p.len() <= s.len() && s.subrange(at, at + p.len()) == p
}

/// Whether `s` begins with `p`.
pub open spec fn has_prefix(s: Seq<char>, p: Seq<char>) -> bool {
    occurs_at(s, 0, p)
}

/// Whether `s` ends with `p`.
pub open spec fn has_suffix(s: Seq<char>, p: Seq<char>) -> bool {
    occurs_at(s, s.len() - p.len(), p)
}

/// Whether `p` occurs somewhere in `s`.
pub open spec fn has_infix(s: Seq<char>, p: Seq<char>) -> bool {
    exists|at: int| occurs_at(s, at, p)
}

/// Tests whether `p` occurs in `s` at position `at`.
pub fn matches_at(s: &Vec<char>, at: usize, p: &Vec<char>) -> (r: bool)
    ensures
        r == occurs_at(s@, at as int, p@),
{
    if at > s.len() || p.len() > s.len() - at {
        return false;
    }
    let mut i: usize = 0;
    while i < p.len()
        invariant
            at + p.len() <= s.len(),
            i <= p.len(),
            s@.subrange(at as int, at + i) == p@.take(i as int),
        decreases p.len() - i,
    {
        if s[at + i] != p[i] {
            proof {
                let full = s@.subrange(at as int, at + p.len());
                assert(full[i as int] == s@[at + i]);
            }
            return false;
        }
        assert(s@.subrange(at as int, at + i + 1) =~= s@.subrange(at as int, at + i).push(
            s@[at + i],
        ));
        proof {
            lemma_take_step(p@, i as int);
        }
        i = i + 1;
    }
    assert(p@.take(p.len() as int) =~= p@);
    true
}

/// Tests whether a string begins with another.
pub fn starts_with(s: &str, p: &str) -> (r: bool)
    ensures
        r == has_prefix(s@, p@),
{
    let sv = chars_of(s);
    let pv = chars_of(p);
    matches_at(&sv, 0, &pv)
}

/// Tests whether a string ends with another.
pub fn ends_with(s: &str, p: &str) -> (r: bool)
    ensures
        r == has_suffix(s@, p@),
{
    let sv = chars_of(s);
    let pv = chars_of(p);
    if pv.len() > sv.len() {
        return false;
    }
    matches_at(&sv, sv.len() - pv.len(), &pv)
}

/// Tests whether one string occurs inside another.
pub fn contains(s: &str, p: &str) -> (r: bool)
    ensures
        r == has_infix(s@, p@),
{
    let sv = chars_of(s);
    let pv = chars_of(p);
    if pv.len() > sv.len() {
        return false;
    }
    let last: usize = sv.len() - pv.len();
    let mut i: usize = 0;
    while i < last
        invariant
            last == sv.len() - pv.len(),
            i <= last,
            sv@ == s@,
            pv@ == p@,
            forall|at: int| 0 <= at < i ==> !occurs_at(s@, at, p@),
        decreases last - i,
    {
        if matches_at(&sv, i, &pv) {
            return true;
        }
        i = i + 1;
    }
    matches_at(&sv, last, &pv)
}

/// `s` with every occurrence of `pat` replaced by `rep`, scanning from the
/// left and never re-reading what was replaced. An empty `pat` replaces nothing.
pub open spec fn replaced(s: Seq<char>, pat: Seq<char>, rep: Seq<char>) -> Seq<char>
    decreases s.len(),
{
    if pat.len() == 0 || s.len() < pat.len() {
        s
    } else if occurs_at(s, 0, pat) {
        rep + replaced(s.skip(pat.len() as int), pat, rep)
    } else {
        seq![s[0]] + replaced(s.skip(1), pat, rep)
    }
}

/// Replaces every occurrence of `pat` in `s` by `rep`.
pub fn replace_all(s: &str, pat: &str, rep: &str) -> (r: String)
    ensures
        r@ == replaced(s@, pat@, rep@),
{
    let sv = chars_of(s);
    let pv = chars_of(pat);
    if pv.len() == 0 {
        return string_of(&sv);
    }
    let mut out = String::new();
    let mut i: usize = 0;
    proof {
        assert(s@.skip(0) =~= s@);
        assert(out@ + replaced(s@, pat@, rep@) =~= replaced(s@, pat@, rep@));
    }
    while i < sv.len()
        invariant
            i <= sv.len(),
            sv@ == s@,
            pv@ == pat@,
            pv.len() > 0,
            out@ + replaced(s@.skip(i as int), pat@, rep@) == replaced(s@, pat@, rep@),
        decreases sv.len() - i,
    {
        let ghost rest = s@.skip(i as int);
        if matches_at(&sv, i, &pv) {
            proof {
                assert(rest.subrange(0, pv.len() as int) =~= s@.subrange(
                    i as int,
                    i + pv.len(),
                ));
                assert(rest.skip(pv.len() as int) =~= s@.skip(i + pv.len()));
                assert((out@ + rep@) + replaced(s@.skip(i + pv.len()), pat@, rep@) =~= out@ + (
                rep@ + replaced(s@.skip(i + pv.len()), pat@, rep@)));
            }
            out.append(rep);
            i = i + pv.len();
        } else {
            proof {
                if rest.len() >= pv.len() {
                    assert(rest.subrange(0, pv.len() as int) =~= s@.subrange(
                        i as int,
                        i + pv.len(),
                    ));
                }
                assert(rest.skip(1) =~= s@.skip(i + 1));
                if rest.len() < pv.len() {
                    lemma_replaced_short(rest, pat@, rep@);
                    lemma_replaced_short(rest.skip(1), pat@, rep@);
                    assert(seq![rest[0]] + rest.skip(1) =~= rest);
                }
                assert(out@.push(sv@[i as int]) + replaced(s@.skip(i + 1), pat@, rep@) =~= out@
                    + (seq![rest[0]] + replaced(rest.skip(1), pat@, rep@)));
            }
            push_char(&mut out, sv[i]);
            i = i + 1;
        }
    }
    proof {
        assert(s@.skip(sv.len() as int) =~= Seq::<char>::empty());
        assert(out@ + Seq::<char>::empty() =~= out@);
    }
    out
}

/// A text shorter than the pattern holds no occurrence of it.
pub proof fn lemma_replaced_short(s: Seq<char>, pat: Seq<char>, rep: Seq<char>)
    requires
        s.len() < pat.len(),
    ensures
        replaced(s, pat, rep) == s,
{
}

/// Whether a character is written as `_` in a diagram identifier. The wide
/// set counts the space and the slash besides the hyphen and the dot.
pub open spec fn is_separator(c: char, wide: bool) -> bool {
    c == '-' || c == '.' || (wide && (c == ' ' || c == '/'))
}

/// A name as a diagram identifier: separators become `_`; where `strict`,
/// only alphanumeric characters and `_` are kept besides.
pub open spec fn sanitized(name: Seq<char>, wide: bool, strict: bool) -> Seq<char>
    decreases name.len(),
{
    if name.len() == 0 {
        Seq::empty()
    } else {
        let rest = sanitized(name.drop_last(), wide, strict);
        let c = name.last();
        if is_separator(c, wide) {
            rest.push('_')
        } else if !strict || alphanumeric(c) || c == '_' {
            rest.push(c)
        } else {
            rest
        }
    }
}

/// Turns a name into a diagram identifier.
pub fn sanitize(name: &str, wide: bool, strict: bool) -> (r: String)
    ensures
        r@ == sanitized(name@, wide, strict),
{
    let chars = chars_of(name);
    let mut out = String::new();
    let mut i: usize = 0;
    while i < chars.len()
        invariant
            i <= chars.len(),
            chars@ == name@,
            out@ == sanitized(name@.take(i as int), wide, strict),
        decreases chars.len() - i,
    {
        proof {
            lemma_take_step(name@, i as int);
        }
        let c = chars[i];
        if c == '-' || c == '.' || (wide && (c == ' ' || c == '/')) {
            push_char(&mut out, '_');
        } else if !strict || c == '_' || is_alphanumeric(c) {
            push_char(&mut out, c);
        }
        i = i + 1;
    }
    assert(name@.take(chars.len() as int) =~= name@);
    out
}

/// Whether `a` comes before `b` in the order of strings: at the first place
/// where they differ `a` has the smaller character, or `a` ends first.
pub open spec fn precedes(a: Seq<char>, b: Seq<char>) -> bool
    decreases a.len(),
{
    if b.len() == 0 {
        false
    } else if a.len() == 0 {
        true
    } else if a[0] != b[0] {
        (a[0] as u32) < (b[0] as u32)
    } else {
        precedes(a.skip(1), b.skip(1))
    }
}

/// Tests whether one text comes before another in the order of strings.
pub fn comes_before(a: &str, b: &str) -> (r: bool)
    ensures
        r == precedes(a@, b@),
{
    let av = chars_of(a);
    let bv = chars_of(b);
    let mut i: usize = 0;
    assert(a@.skip(0) =~= a@ && b@.skip(0) =~= b@);
    while i < av.len() && i < bv.len()
        invariant
            i <= av.len(),
            i <= bv.len(),
            av@ == a@,
            bv@ == b@,
            precedes(a@, b@) == precedes(a@.skip(i as int), b@.skip(i as int)),
        decreases av.len() - i,
    {
        let x = av[i];
        let y = bv[i];
        assert(a@.skip(i as int)[0] == x && b@.skip(i as int)[0] == y);
        if x != y {
            return (x as u32) < (y as u32);
        }
        assert(a@.skip(i as int).skip(1) =~= a@.skip(i + 1));
        assert(b@.skip(i as int).skip(1) =~= b@.skip(i + 1));
        i = i + 1;
    }
    i < bv.len()
}

/// Whether a character is one that trimming takes away: with `None` any
/// whitespace, with `Some(x)` the character `x`.
pub open spec fn is_blank(c: char, what: Option<char>) -> bool {
    match what {
        Some(x) => c == x,
        None => whitespace(c),
    }
}

/// How many blank characters stand at the start of a text.
pub open spec fn lead(s: Seq<char>, what: Option<char>) -> nat
    decreases s.len(),
{
    if s.len() > 0 && is_blank(s[0], what) {
        1 + lead(s.skip(1), what)
    } else {
        0
    }
}

/// How many blank characters stand at the end of a text.
pub open spec fn trail(s: Seq<char>, what: Option<char>) -> nat
    decreases s.len(),
{
    if s.len() > 0 && is_blank(s.last(), what) {
        1 + trail(s.drop_last(), what)
    } else {
        0
    }
}

/// A text without the blank characters at its start.
pub open spec fn trimmed_start(s: Seq<char>, what: Option<char>) -> Seq<char> {
    s.skip(lead(s, what) as int)
}

/// A text without the blank characters at its end.
pub open spec fn trimmed_end(s: Seq<char>, what: Option<char>) -> Seq<char> {
    s.take(s.len() - trail(s, what))
}

/// A text without the whitespace at its start and at its end.
pub open spec fn trimmed(s: Seq<char>) -> Seq<char> {
    trimmed_end(trimmed_start(s, None), None)
}

fn blank(c: char, what: Option<char>) -> (r: bool)
    ensures
        r == is_blank(c, what),
{
    match what {
        Some(x) => c == x,
        None => is_whitespace(c),
    }
}

/// Counts the blank characters at the start of `v[from..to]`.
fn count_lead(v: &Vec<char>, from: usize, to: usize, what: Option<char>) -> (r: usize)
    requires
        from <= to <= v.len(),
    ensures
        r == lead(v@.subrange(from as int, to as int), what),
        from + r <= to,
{
    let ghost whole = v@.subrange(from as int, to as int);
    let mut i: usize = from;
    assert(whole.skip(0) =~= whole);
    while i < to && blank(v[i], what)
        invariant
            from <= i <= to <= v.len(),
            whole == v@.subrange(from as int, to as int),
            lead(whole, what) == (i - from) + lead(whole.skip(i - from), what),
        decreases to - i,
    {
        assert(whole.skip(i - from)[0] == v@[i as int]);
        assert(whole.skip(i - from).skip(1) =~= whole.skip(i + 1 - from));
        i = i + 1;
    }
    proof {
        if i < to {
            assert(whole.skip(i - from)[0] == v@[i as int]);
        } else {
            assert(whole.skip(i - from).len() == 0);
        }
    }
    i - from
}

/// Counts the blank characters at the end of `v[from..to]`.
fn count_trail(v: &Vec<char>, from: usize, to: usize, what: Option<char>) -> (r: usize)
    requires
        from <= to <= v.len(),
    ensures
        r == trail(v@.subrange(from as int, to as int), what),
        from + r <= to,
{
    let ghost whole = v@.subrange(from as int, to as int);
    let mut i: usize = to;
    assert(whole.take(whole.len() as int) =~= whole);
    while i > from && blank(v[i - 1], what)
        invariant
            from <= i <= to <= v.len(),
            whole == v@.subrange(from as int, to as int),
            trail(whole, what) == (to - i) + trail(whole.take(i - from), what),
        decreases i,
    {
        assert(whole.take(i - from).last() == v@[i - 1]);
        assert(whole.take(i - from).drop_last() =~= whole.take(i - 1 - from));
        i = i - 1;
    }
    proof {
        if i > from {
            assert(whole.take(i - from).last() == v@[i - 1]);
        } else {
            assert(whole.take(i - from).len() == 0);
        }
    }
    to - i
}

/// Takes the whitespace at both ends of a text away.
pub fn trim(s: &str) -> (r: String)
    ensures
        r@ == trimmed(s@),
{
    let v = chars_of(s);
    assert(v@.subrange(0, v.len() as int) =~= v@);
    let a = count_lead(&v, 0, v.len(), None);
    assert(v@.subrange(a as int, v.len() as int) =~= trimmed_start(s@, None));
    let b = count_trail(&v, a, v.len(), None);
    let out = slice(&v, a, v.len() - b);
    assert(out@ =~= trimmed(s@));
    string_of(&out)
}

/// Takes every `c` at the start of a text away.
pub fn trim_start_matches(s: &str, c: char) -> (r: String)
    ensures
        r@ == trimmed_start(s@, Some(c)),
{
    let v = chars_of(s);
    assert(v@.subrange(0, v.len() as int) =~= v@);
    let a = count_lead(&v, 0, v.len(), Some(c));
    let out = slice(&v, a, v.len());
    assert(out@ =~= trimmed_start(s@, Some(c)));
    string_of(&out)
}

/// Takes every `c` at the end of a text away.
pub fn trim_end_matches(s: &str, c: char) -> (r: String)
    ensures
        r@ == trimmed_end(s@, Some(c)),
{
    let v = chars_of(s);
    assert(v@.subrange(0, v.len() as int) =~= v@);
    let b = count_trail(&v, 0, v.len(), Some(c));
    let out = slice(&v, 0, v.len() - b);
    assert(out@ =~= trimmed_end(s@, Some(c)));
    string_of(&out)
}

/// How many characters stand before the first `c`; the length of the text
/// where it holds no `c`.
pub open spec fn first_of(s: Seq<char>, c: char) -> nat
    decreases s.len(),
{
    if s.len() == 0 || s[0] == c {
        0
    } else {
        1 + first_of(s.skip(1), c)
    }
}

/// How many characters stand after the last `c`; the length of the text
/// where it holds no `c`.
pub open spec fn after_last_len(s: Seq<char>, c: char) -> nat
    decreases s.len(),
{
    if s.len() == 0 || s.last() == c {
        0
    } else {
        1 + after_last_len(s.drop_last(), c)
    }
}

/// What stands before the first `c`: the whole text where it holds no `c`.
pub open spec fn before_first(s: Seq<char>, c: char) -> Seq<char> {
    s.take(first_of(s, c) as int)
}

/// What stands after the last `c`: the whole text where it holds no `c`.
pub open spec fn after_last(s: Seq<char>, c: char) -> Seq<char> {
    s.skip(s.len() - after_last_len(s, c))
}

/// The pieces of a text between the occurrences of `c`. A text without `c`
/// is one piece.
pub open spec fn split(s: Seq<char>, c: char) -> Seq<Seq<char>>
    decreases s.len(),
{
    if first_of(s, c) >= s.len() {
        seq![s]
    } else {
        seq![before_first(s, c)] + split(s.skip(first_of(s, c) as int + 1), c)
    }
}

/// Finds the first `c` at or after `from`; gives the length where there is none.
pub(crate) fn find_char(v: &Vec<char>, from: usize, c: char) -> (r: usize)
    requires
        from <= v.len(),
    ensures
        r == from + first_of(v@.skip(from as int), c),
        from <= r <= v.len(),
{
    let ghost rest = v@.skip(from as int);
    let mut i: usize = from;
    assert(rest.skip(0) =~= rest);
    while i < v.len() && v[i] != c
        invariant
            from <= i <= v.len(),
            rest == v@.skip(from as int),
            first_of(rest, c) == (i - from) + first_of(rest.skip(i - from), c),
        decreases v.len() - i,
    {
        assert(rest.skip(i - from)[0] == v@[i as int]);
        assert(rest.skip(i - from).skip(1) =~= rest.skip(i + 1 - from));
        i = i + 1;
    }
    proof {
        if i < v.len() {
            assert(rest.skip(i - from)[0] == v@[i as int]);
        } else {
            assert(rest.skip(i - from).len() == 0);
        }
    }
    i
}

/// The part of a text before its first `c`.
pub fn take_before_first(s: &str, c: char) -> (r: String)
    ensures
        r@ == before_first(s@, c),
{
    let v = chars_of(s);
    assert(v@.skip(0) =~= v@);
    let at = find_char(&v, 0, c);
    let out = slice(&v, 0, at);
    assert(out@ =~= before_first(s@, c));
    string_of(&out)
}

/// The part of a text after its last `c`.
pub fn take_after_last(s: &str, c: char) -> (r: String)
    ensures
        r@ == after_last(s@, c),
{
    let v = chars_of(s);
    let mut i: usize = v.len();
    assert(v@.take(v.len() as int) =~= v@);
    while i > 0 && v[i - 1] != c
        invariant
            i <= v.len(),
            v@ == s@,
            after_last_len(s@, c) == (v.len() - i) + after_last_len(s@.take(i as int), c),
        decreases i,
    {
        assert(s@.take(i as int).last() == v@[i - 1]);
        assert(s@.take(i as int).drop_last() =~= s@.take(i - 1));
        i = i - 1;
    }
    proof {
        if i > 0 {
            assert(s@.take(i as int).last() == v@[i - 1]);
        } else {
            assert(s@.take(i as int).len() == 0);
        }
    }
    let out = slice(&v, i, v.len());
    assert(out@ =~= after_last(s@, c));
    string_of(&out)
}

/// Splits a text at every `c`.
pub fn split_at_char(s: &str, c: char) -> (r: Vec<String>)
    ensures
        texts(r@) == split(s@, c),
{
    let v = chars_of(s);
    let mut pieces: Vec<String> = Vec::new();
    let mut start: usize = 0;
    let mut fuel: usize = v.len();
    assert(s@.skip(0) =~= s@);
    assert(texts(pieces@) + split(s@.skip(0), c) =~= split(s@, c));
    loop
        invariant_except_break
            start <= v.len(),
            v@ == s@,
            fuel == v.len() - start,
            texts(pieces@) + split(s@.skip(start as int), c) == split(s@, c),
        ensures
            texts(pieces@) == split(s@, c),
        decreases fuel,
    {
        let ghost rest = s@.skip(start as int);
        let ghost before = texts(pieces@);
        let at = find_char(&v, start, c);
        let piece = slice(&v, start, at);
        assert(piece@ =~= before_first(rest, c));
        pieces.push(string_of(&piece));
        assert(texts(pieces@) =~= before + seq![before_first(rest, c)]);
        if at >= v.len() {
            assert(before_first(rest, c) =~= rest);
            break ;
        }
        assert(rest.skip(first_of(rest, c) as int + 1) =~= s@.skip(at + 1));
        assert(before + seq![before_first(rest, c)] + split(s@.skip(at + 1), c) =~= before + (
        seq![before_first(rest, c)] + split(s@.skip(at + 1), c)));
        fuel = v.len() - (at + 1);
        start = at + 1;
    }
    pieces
}

/// The first word of a text: what stands between the whitespace at its
/// start and the next whitespace. `None` where the text is all whitespace.
pub open spec fn first_word(s: Seq<char>) -> Option<Seq<char>> {
    let rest = trimmed_start(s, None);
    if rest.len() == 0 {
        None
    } else {
        Some(rest.take(word_len(rest) as int))
    }
}

/// How many characters stand before the first whitespace.
pub open spec fn word_len(s: Seq<char>) -> nat
    decreases s.len(),
{
    if s.len() == 0 || whitespace(s[0]) {
        0
    } else {
        1 + word_len(s.skip(1))
    }
}

/// Takes the first word of a text.
pub fn take_first_word(s: &str) -> (r: Option<String>)
    ensures
        match r {
            Some(word) => first_word(s@) == Some(word@),
            None => first_word(s@) is None,
        },
{
    let v = chars_of(s);
    assert(v@.subrange(0, v.len() as int) =~= v@);
    let a = count_lead(&v, 0, v.len(), None);
    if a >= v.len() {
        return None;
    }
    let ghost rest = trimmed_start(s@, None);
    assert(rest =~= v@.skip(a as int));
    let mut i: usize = a;
    assert(rest.skip(0) =~= rest);
    while i < v.len() && !is_whitespace(v[i])
        invariant
            a <= i <= v.len(),
            rest == v@.skip(a as int),
            word_len(rest) == (i - a) + word_len(rest.skip(i - a)),
        decreases v.len() - i,
    {
        assert(rest.skip(i - a)[0] == v@[i as int]);
        assert(rest.skip(i - a).skip(1) =~= rest.skip(i + 1 - a));
        i = i + 1;
    }
    proof {
        if i < v.len() {
            assert(rest.skip(i - a)[0] == v@[i as int]);
        } else {
            assert(rest.skip(i - a).len() == 0);
        }
    }
    let out = slice(&v, a, i);
    assert(out@ =~= rest.take(word_len(rest) as int));
    Some(string_of(&out))
}

/// A text without the prefix `p`, if it begins with `p`.
pub open spec fn without_prefix(s: Seq<char>, p: Seq<char>) -> Option<Seq<char>> {
    if has_prefix(s, p) {
        Some(s.skip(p.len() as int))
    } else {
        None
    }
}

/// Takes a prefix away, if the text begins with it.
pub fn strip_prefix(s: &str, p: &str) -> (r: Option<String>)
    ensures
        match r {
            Some(rest) => without_prefix(s@, p@) == Some(rest@),
            None => without_prefix(s@, p@) is None,
        },
{
    let v = chars_of(s);
    let pv = chars_of(p);
    if matches_at(&v, 0, &pv) {
        let out = slice(&v, pv.len(), v.len());
        assert(out@ =~= s@.skip(p@.len() as int));
        Some(string_of(&out))
    } else {
        None
    }
}

/// The first place below `n` where `p` occurs in `s`.
pub open spec fn first_hit(s: Seq<char>, p: Seq<char>, n: nat) -> Option<int>
    decreases n,
{
    if n == 0 {
        None
    } else {
        match first_hit(s, p, (n - 1) as nat) {
            Some(at) => Some(at),
            None => if occurs_at(s, n - 1, p) {
                Some(n - 1)
            } else {
                None
            },
        }
    }
}

/// The parts of a text before and after the first occurrence of `p`.
pub open spec fn split_once(s: Seq<char>, p: Seq<char>) -> Option<(Seq<char>, Seq<char>)> {
    match first_hit(s, p, s.len() + 1) {
        Some(at) => Some((s.take(at), s.skip(at + p.len()))),
        None => None,
    }
}

/// Splits a text at the first occurrence of `p`.
pub fn split_at_first(s: &str, p: &str) -> (r: Option<(String, String)>)
    ensures
        match r {
            Some(parts) => split_once(s@, p@) == Some((parts.0@, parts.1@)),
            None => split_once(s@, p@) is None,
        },
{
    let v = chars_of(s);
    let pv = chars_of(p);
    let mut found: Option<usize> = None;
    let mut i: usize = 0;
    while i < v.len()
        invariant
            i <= v.len(),
            v@ == s@,
            pv@ == p@,
            match found {
                Some(at) => first_hit(s@, p@, i as nat) == Some(at as int) && occurs_at(
                    s@,
                    at as int,
                    p@,
                ),
                None => first_hit(s@, p@, i as nat) is None,
            },
        decreases v.len() - i,
    {
        if found.is_none() && matches_at(&v, i, &pv) {
            found = Some(i);
        }
        i = i + 1;
    }
    if found.is_none() && matches_at(&v, v.len(), &pv) {
        found = Some(v.len());
    }
    match found {
        Some(at) => {
            let before = slice(&v, 0, at);
            let after = slice(&v, at + pv.len(), v.len());
            assert(before@ =~= s@.take(at as int));
            assert(after@ =~= s@.skip(at + p@.len()));
            Some((string_of(&before), string_of(&after)))
        },
        None => None,
    }
}

} // verus!
