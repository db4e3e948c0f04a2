//! Character-level text helpers shared by the parsers and builders of the crate.
//!
//! Strings are handled as sequences of `char`s; every helper states its result
//! over `Seq<char>`.

use vstd::prelude::*;
use vstd::string::StringSliceAdditionalSpecFns;

verus! {

/// `c` is an ASCII letter or digit.
pub open spec fn is_ascii_alnum(c: char) -> bool {
    ('0' <= c && c <= '9') || ('a' <= c && c <= 'z') || ('A' <= c && c <= 'Z')
}

/// `c` is an ASCII hexadecimal digit.
pub open spec fn is_ascii_hex(c: char) -> bool {
    ('0' <= c && c <= '9') || ('a' <= c && c <= 'f') || ('A' <= c && c <= 'F')
}

/// `c` carries the Unicode `White_Space` property (what `char::is_whitespace` tests).
pub open spec fn is_ws(c: char) -> bool {
    ('\u{9}' <= c && c <= '\u{d}') || c == ' ' || c == '\u{85}' || c == '\u{a0}' || c
        == '\u{1680}' || ('\u{2000}' <= c && c <= '\u{200a}') || c == '\u{2028}' || c
        == '\u{2029}' || c == '\u{202f}' || c == '\u{205f}' || c == '\u{3000}'
}

/// `c` is in the Unicode general category `Cc` (what `char::is_control` tests).
pub open spec fn is_control(c: char) -> bool {
    c <= '\u{1f}' || ('\u{7f}' <= c && c <= '\u{9f}')
}

/// The ASCII lower-case form of `c`; other characters are unchanged.
pub open spec fn ascii_lower(c: char) -> char {
    if 'A' <= c && c <= 'Z' {
        ((c as u32) + 32) as char
    } else {
        c
    }
}

/// The ASCII lower-case form of every character of `s`.
pub open spec fn ascii_lower_seq(s: Seq<char>) -> Seq<char> {
    s.map_values(|c: char| ascii_lower(c))
}

/// `t` occurs in `s` at position `i`.
pub open spec fn occurs_at(s: Seq<char>, t: Seq<char>, i: int) -> bool {
    0 <= i && i + t.len() <= s.len() && s.subrange(i, i + t.len()) == t
}

/// `t` occurs somewhere in `s`.
pub open spec fn has_sub(s: Seq<char>, t: Seq<char>) -> bool {
    exists|i: int| occurs_at(s, t, i)
}

/// `s` with its leading characters that satisfy `p` removed.
pub open spec fn trim_start_by(s: Seq<char>, p: spec_fn(char) -> bool) -> Seq<char>
    decreases s.len(),
{
    if s.len() > 0 && p(s[0]) {
        trim_start_by(s.drop_first(), p)
    } else {
        s
    }
}

/// `s` with its trailing characters that satisfy `p` removed.
pub open spec fn trim_end_by(s: Seq<char>, p: spec_fn(char) -> bool) -> Seq<char>
    decreases s.len(),
{
    if s.len() > 0 && p(s.last()) {
        trim_end_by(s.drop_last(), p)
    } else {
        s
    }
}

/// `s` with the characters that satisfy `p` removed from both ends.
pub open spec fn trim_by(s: Seq<char>, p: spec_fn(char) -> bool) -> Seq<char> {
    trim_end_by(trim_start_by(s, p), p)
}

/// `s` without leading and trailing white space (what `str::trim` gives).
pub open spec fn trim_ws(s: Seq<char>) -> Seq<char> {
    trim_by(s, |c: char| is_ws(c))
}


/// The views of a sequence of character vectors.
pub open spec fn views(v: Seq<Vec<char>>) -> Seq<Seq<char>> {
    v.map_values(|w: Vec<char>| w@)
}

/// Reading `s` from the left: the words completed so far and the word in progress.
pub open spec fn words_state(s: Seq<char>) -> (Seq<Seq<char>>, Seq<char>)
    decreases s.len(),
{
    if s.len() == 0 {
        (seq![], seq![])
    } else {
        let (done, cur) = words_state(s.drop_last());
        if is_ws(s.last()) {
            if cur.len() > 0 {
                (done.push(cur), seq![])
            } else {
                (done, cur)
            }
        } else {
            (done, cur.push(s.last()))
        }
    }
}

/// The maximal runs of non-white-space characters of `s`, in order
/// (what `str::split_whitespace` yields).
pub open spec fn words(s: Seq<char>) -> Seq<Seq<char>> {
    let (done, cur) = words_state(s);
    if cur.len() > 0 {
        done.push(cur)
    } else {
        done
    }
}

/// `l` without one trailing carriage return.
pub open spec fn strip_cr(l: Seq<char>) -> Seq<char> {
    if l.len() > 0 && l.last() == '\r' {
        l.drop_last()
    } else {
        l
    }
}

/// Reading `s` from the left: the lines ended by a line feed so far and the line in progress.
pub open spec fn lines_state(s: Seq<char>) -> (Seq<Seq<char>>, Seq<char>)
    decreases s.len(),
{
    if s.len() == 0 {
        (seq![], seq![])
    } else {
        let (done, cur) = lines_state(s.drop_last());
        if s.last() == '\n' {
            (done.push(strip_cr(cur)), seq![])
        } else {
            (done, cur.push(s.last()))
        }
    }
}

/// The lines of `s` (what `str::lines` yields): split at each line feed, one
/// carriage return before it dropped, and no empty line after a final line feed.
pub open spec fn lines(s: Seq<char>) -> Seq<Seq<char>> {
    let (done, cur) = lines_state(s);
    if cur.len() > 0 {
        done.push(cur)
    } else {
        done
    }
}

pub fn ascii_alnum(c: char) -> (b: bool)
    ensures
        b == is_ascii_alnum(c),
{
    ('0' <= c && c <= '9') || ('a' <= c && c <= 'z') || ('A' <= c && c <= 'Z')
}

pub fn ascii_hex(c: char) -> (b: bool)
    ensures
        b == is_ascii_hex(c),
{
    ('0' <= c && c <= '9') || ('a' <= c && c <= 'f') || ('A' <= c && c <= 'F')
}

pub fn whitespace(c: char) -> (b: bool)
    ensures
        b == is_ws(c),
{
    ('\u{9}' <= c && c <= '\u{d}') || c == ' ' || c == '\u{85}' || c == '\u{a0}' || c
        == '\u{1680}' || ('\u{2000}' <= c && c <= '\u{200a}') || c == '\u{2028}' || c
        == '\u{2029}' || c == '\u{202f}' || c == '\u{205f}' || c == '\u{3000}'
}

pub fn control(c: char) -> (b: bool)
    ensures
        b == is_control(c),
{
    c <= '\u{1f}' || ('\u{7f}' <= c && c <= '\u{9f}')
}

pub fn lower_char(c: char) -> (r: char)
    ensures
        r == ascii_lower(c),
{
    if 'A' <= c && c <= 'Z' {
        let u: u32 = (c as u32) + 32;
        assert(u < 128);
        char_from_ascii_code(u)
    } else {
        c
    }
}

/// The ASCII character with code `u`.
pub(crate) fn char_from_ascii_code(u: u32) -> (c: char)
    requires
        u < 128,
    ensures
        c == u as char,
{
    let b: u8 = u as u8;
    b as char
}

/// The characters of `s`, in order.
pub fn chars_of(s: &str) -> (v: Vec<char>)
    ensures
        v@ == s@,
{
    let mut v: Vec<char> = Vec::new();
    for c in it: s.chars()
        invariant
            it.seq() == s@,
            v@ == it.seq().take(it.index() as int),
    {
        v.push(c);
    }
    assert(s@.take(s@.len() as int) =~= s@);
    v
}

/// Collects the characters of `v` into a `String` (std's `FromIterator<&char>`
/// for `String`); the contract claims the string holds exactly those
/// characters, in order.
#[verifier::external_body]
pub(crate) fn string_of(v: &Vec<char>) -> (s: String)
    ensures
        s@ == v@,
{
    v.iter().collect()
}

/// The characters `v[from..to]`.
pub fn slice(v: &Vec<char>, from: usize, to: usize) -> (r: Vec<char>)
    requires
        from <= to <= v.len(),
    ensures
        r@ == v@.subrange(from as int, to as int),
{
    let mut r: Vec<char> = Vec::new();
    let mut i: usize = from;
    while i < to
        invariant
            from <= i <= to <= v.len(),
            r@ == v@.subrange(from as int, i as int),
        decreases to - i,
    {
        r.push(v[i]);
        assert(r@ =~= v@.subrange(from as int, i + 1));
        i += 1;
    }
    r
}

/// Appends the characters of `t` to `v`.
pub fn append(v: &mut Vec<char>, t: &Vec<char>)
    ensures
        final(v)@ == old(v)@ + t@,
{
    let mut i: usize = 0;
    while i < t.len()
        invariant
            i <= t.len(),
            v@ == old(v)@ + t@.subrange(0, i as int),
        decreases t.len() - i,
    {
        v.push(t[i]);
        assert(t@.subrange(0, i + 1) =~= t@.subrange(0, i as int).push(t@[i as int]));
        i += 1;
    }
    assert(t@.subrange(0, t.len() as int) =~= t@);
}

/// Appends the characters of `s` to `v`.
pub fn append_str(v: &mut Vec<char>, s: &str)
    ensures
        final(v)@ == old(v)@ + s@,
{
    let t = chars_of(s);
    append(v, &t);
}

/// The concatenation of two character sequences.
pub fn concat(a: &Vec<char>, b: &Vec<char>) -> (r: Vec<char>)
    ensures
        r@ == a@ + b@,
{
    let mut r = a.clone();
    assert(r@ == a@);
    append(&mut r, b);
    r
}

/// Equality of character sequences.
pub fn chars_eq(a: &Vec<char>, b: &Vec<char>) -> (r: bool)
    ensures
        r == (a@ == b@),
{
    if a.len() != b.len() {
        return false;
    }
    let mut i: usize = 0;
    while i < a.len()
        invariant
            a.len() == b.len(),
            i <= a.len(),
            forall|j: int| 0 <= j < i ==> a@[j] == b@[j],
        decreases a.len() - i,
    {
        if a[i] != b[i] {
            return false;
        }
        i += 1;
    }
    assert(a@ =~= b@);
    true
}

/// Equality of a character sequence and a string.
pub fn eq_str(a: &Vec<char>, s: &str) -> (r: bool)
    ensures
        r == (a@ == s@),
{
    let b = chars_of(s);
    chars_eq(a, &b)
}

/// `t` occurs in `s` at position `i`.
pub fn matches_at(s: &Vec<char>, t: &Vec<char>, i: usize) -> (r: bool)
    ensures
        r == occurs_at(s@, t@, i as int),
{
    if i > s.len() || t.len() > s.len() - i {
        return false;
    }
    let mut j: usize = 0;
    while j < t.len()
        invariant
            i + t.len() <= s.len(),
            j <= t.len(),
            forall|k: int| 0 <= k < j ==> s@[i + k] == t@[k],
        decreases t.len() - j,
    {
        if s[i + j] != t[j] {
            assert(s@.subrange(i as int, i + t.len())[j as int] != t@[j as int]);
            return false;
        }
        j += 1;
    }
    assert(s@.subrange(i as int, i + t.len()) =~= t@);
    true
}

/// `t` occurs somewhere in `s`.
pub fn contains(s: &Vec<char>, t: &Vec<char>) -> (r: bool)
    ensures
        r == has_sub(s@, t@),
{
    if t.len() > s.len() {
        return false;
    }
    let last = s.len() - t.len();
    let mut i: usize = 0;
    loop
        invariant
            t.len() <= s.len(),
            last == s.len() - t.len(),
            i <= last,
            forall|k: int| 0 <= k < i ==> !occurs_at(s@, t@, k),
        ensures
            forall|k: int| 0 <= k <= last ==> !occurs_at(s@, t@, k),
        decreases last - i,
    {
        if matches_at(s, t, i) {
            return true;
        }
        if i == last {
            break;
        }
        i += 1;
    }
    assert forall|k: int| !occurs_at(s@, t@, k) by {
        if 0 <= k && k + t@.len() <= s@.len() {
            assert(k <= last);
        }
    }
    false
}

/// `t` occurs somewhere in `s`.
pub fn contains_str(s: &Vec<char>, t: &str) -> (r: bool)
    ensures
        r == has_sub(s@, t@),
{
    let tv = chars_of(t);
    contains(s, &tv)
}

/// `s` begins with `t`.
pub fn starts_with_str(s: &Vec<char>, t: &str) -> (r: bool)
    ensures
        r == t@.is_prefix_of(s@),
{
    let tv = chars_of(t);
    let r = matches_at(s, &tv, 0);
    assert(r == t@.is_prefix_of(s@)) by {
        if t@.len() <= s@.len() {
            if r {
                assert forall|k: int| 0 <= k < t@.len() implies t@[k] == s@[k] by {
                    assert(s@.subrange(0, t@.len() as int)[k] == s@[k]);
                }
            }
            if t@.is_prefix_of(s@) {
                assert(s@.subrange(0, t@.len() as int) =~= t@);
            }
        }
    }
    r
}

/// `s` ends with `t`.
pub fn ends_with_str(s: &Vec<char>, t: &str) -> (r: bool)
    ensures
        r == t@.is_suffix_of(s@),
{
    let tv = chars_of(t);
    if tv.len() > s.len() {
        return false;
    }
    let start = s.len() - tv.len();
    let r = matches_at(s, &tv, start);
    assert(r == t@.is_suffix_of(s@)) by {
        if r {
            assert forall|k: int| 0 <= k < t@.len() implies t@[k] == s@[s@.len() - t@.len() + k] by {
                assert(s@.subrange(start as int, start + t@.len())[k] == s@[start + k]);
            }
        }
        if t@.is_suffix_of(s@) {
            assert(s@.subrange(start as int, start + t@.len()) =~= t@);
        }
    }
    r
}

/// The ASCII lower-case form of `s`.
pub fn to_ascii_lower(s: &Vec<char>) -> (r: Vec<char>)
    ensures
        r@ == ascii_lower_seq(s@),
{
    let mut r: Vec<char> = Vec::new();
    let mut i: usize = 0;
    while i < s.len()
        invariant
            i <= s.len(),
            r@ == ascii_lower_seq(s@.subrange(0, i as int)),
        decreases s.len() - i,
    {
        let c = lower_char(s[i]);
        r.push(c);
        assert(ascii_lower_seq(s@.subrange(0, i + 1)) =~= ascii_lower_seq(
            s@.subrange(0, i as int),
        ).push(ascii_lower(s@[i as int])));
        i += 1;
    }
    assert(s@.subrange(0, s.len() as int) =~= s@);
    r
}

/// `s` without leading and trailing white space.
pub fn trim(s: &Vec<char>) -> (r: Vec<char>)
    ensures
        r@ == trim_ws(s@),
{
    let ghost p = |c: char| is_ws(c);
    let n = s.len();
    let mut i: usize = 0;
    assert(s@.subrange(0, n as int) =~= s@);
    while i < n && whitespace(s[i])
        invariant
            n == s.len(),
            i <= n,
            forall|c: char| #[trigger] p(c) == is_ws(c),
            trim_start_by(s@, p) == trim_start_by(s@.subrange(i as int, n as int), p),
        decreases n - i,
    {
        let ghost sub = s@.subrange(i as int, n as int);
        assert(sub[0] == s@[i as int]);
        assert(p(sub[0]));
        assert(sub.drop_first() =~= s@.subrange(i + 1, n as int));
        assert(trim_start_by(sub, p) == trim_start_by(sub.drop_first(), p));
        i += 1;
    }
    let ghost front = s@.subrange(i as int, n as int);
    assert(trim_start_by(front, p) == front);
    let mut j: usize = n;
    while j > i && whitespace(s[j - 1])
        invariant
            n == s.len(),
            i <= j <= n,
            forall|c: char| #[trigger] p(c) == is_ws(c),
            trim_end_by(front, p) == trim_end_by(s@.subrange(i as int, j as int), p),
        decreases j,
    {
        let ghost sub = s@.subrange(i as int, j as int);
        assert(sub.last() == s@[j - 1]);
        assert(p(sub.last()));
        assert(sub.drop_last() =~= s@.subrange(i as int, j - 1));
        assert(trim_end_by(sub, p) == trim_end_by(sub.drop_last(), p));
        j -= 1;
    }
    slice(s, i, j)
}

/// `s` without leading and trailing white space, as a string.
pub fn trim_str(s: &str) -> (r: String)
    ensures
        r@ == trim_ws(s@),
{
    let v = chars_of(s);
    let t = trim(&v);
    string_of(&t)
}

/// The white-space separated words of `s`.
pub fn split_words(s: &Vec<char>) -> (r: Vec<Vec<char>>)
    ensures
        views(r@) == words(s@),
{
    let mut done: Vec<Vec<char>> = Vec::new();
    let mut cur: Vec<char> = Vec::new();
    let mut i: usize = 0;
    while i < s.len()
        invariant
            i <= s.len(),
            words_state(s@.subrange(0, i as int)) == (views(done@), cur@),
        decreases s.len() - i,
    {
        let ghost prev = s@.subrange(0, i as int);
        assert(s@.subrange(0, i + 1).drop_last() =~= prev);
        assert(s@.subrange(0, i + 1).last() == s@[i as int]);
        let c = s[i];
        if whitespace(c) {
            if cur.len() > 0 {
                let ghost d0 = done@;
                let ghost c0 = cur@;
                done.push(cur);
                cur = Vec::new();
                assert(views(done@) =~= views(d0).push(c0));
            }
        } else {
            cur.push(c);
        }
        i += 1;
    }
    assert(s@.subrange(0, s.len() as int) =~= s@);
    if cur.len() > 0 {
        let ghost d0 = done@;
        let ghost c0 = cur@;
        done.push(cur);
        assert(views(done@) =~= views(d0).push(c0));
    }
    done
}

/// `l` without one trailing carriage return.
pub fn strip_cr_vec(l: Vec<char>) -> (r: Vec<char>)
    ensures
        r@ == strip_cr(l@),
{
    if l.len() > 0 && l[l.len() - 1] == '\r' {
        let n = l.len() - 1;
        slice(&l, 0, n)
    } else {
        l
    }
}

/// The lines of `s`.
pub fn split_lines(s: &Vec<char>) -> (r: Vec<Vec<char>>)
    ensures
        views(r@) == lines(s@),
{
    let mut done: Vec<Vec<char>> = Vec::new();
    let mut cur: Vec<char> = Vec::new();
    let mut i: usize = 0;
    while i < s.len()
        invariant
            i <= s.len(),
            lines_state(s@.subrange(0, i as int)) == (views(done@), cur@),
        decreases s.len() - i,
    {
        let ghost prev = s@.subrange(0, i as int);
        assert(s@.subrange(0, i + 1).drop_last() =~= prev);
        assert(s@.subrange(0, i + 1).last() == s@[i as int]);
        let c = s[i];
        if c == '\n' {
            let ghost d0 = done@;
            let ghost c0 = cur@;
            let line = strip_cr_vec(cur);
            done.push(line);
            cur = Vec::new();
            assert(views(done@) =~= views(d0).push(strip_cr(c0)));
        } else {
            cur.push(c);
        }
        i += 1;
    }
    assert(s@.subrange(0, s.len() as int) =~= s@);
    if cur.len() > 0 {
        let ghost d0 = done@;
        let ghost c0 = cur@;
        done.push(cur);
        assert(views(done@) =~= views(d0).push(c0));
    }
    done
}

/// The string `a` followed by `b`.
pub fn join2(a: &str, b: &str) -> (r: String)
    ensures
        r@ == a@ + b@,
{
    let mut v = chars_of(a);
    append_str(&mut v, b);
    string_of(&v)
}

/// The string `a` followed by `b` and `c`.
pub fn join3(a: &str, b: &str, c: &str) -> (r: String)
    ensures
        r@ == a@ + b@ + c@,
{
    let mut v = chars_of(a);
    append_str(&mut v, b);
    append_str(&mut v, c);
    string_of(&v)
}

/// A copy of `s` as an owned string.
pub fn owned(s: &str) -> (r: String)
    ensures
        r@ == s@,
{
    String::from_str(s)
}

/// The views of a sequence of strings.
pub open spec fn str_views(v: Seq<String>) -> Seq<Seq<char>> {
    v.map_values(|w: String| w@)
}

/// Appends a copy of `s` to the list `args`.
pub fn push_str(args: &mut Vec<String>, s: &str)
    ensures
        str_views(final(args)@) == str_views(old(args)@).push(s@),
{
    let ghost a0 = args@;
    args.push(String::from_str(s));
    assert(str_views(args@) =~= str_views(a0).push(s@));
}

/// The length of `s` in UTF-8 bytes.
pub fn byte_len(s: &str) -> (n: usize)
    ensures
        n == s.spec_bytes().len(),
{
    let b = s.as_bytes();
    b.len()
}

/// The decimal digit for `d` (`0 <= d < 10`).
pub open spec fn digit_char(d: int) -> char {
    (('0' as int) + d) as char
}

/// The decimal digits of a positive number; empty for zero.
pub open spec fn dec_digits(n: nat) -> Seq<char>
    decreases n,
{
    if n == 0 {
        seq![]
    } else {
        dec_digits(n / 10).push(digit_char((n % 10) as int))
    }
}

/// The decimal text of `n` (what `Display` prints for an unsigned integer).
pub open spec fn dec_nat(n: nat) -> Seq<char> {
    if n == 0 {
        seq!['0']
    } else {
        dec_digits(n)
    }
}

/// The decimal text of `i`, with a leading minus sign when negative.
pub open spec fn dec_int(i: int) -> Seq<char> {
    if i < 0 {
        seq!['-'] + dec_nat((-i) as nat)
    } else {
        dec_nat(i as nat)
    }
}

fn digit(d: u64) -> (c: char)
    requires
        d < 10,
    ensures
        c == digit_char(d as int),
{
    let u: u32 = 48 + d as u32;
    assert(u < 128);
    char_from_ascii_code(u)
}

/// The decimal text of `n`.
pub fn u64_text(n: u64) -> (r: Vec<char>)
    ensures
        r@ == dec_nat(n as nat),
{
    if n == 0 {
        let mut z: Vec<char> = Vec::new();
        z.push('0');
        assert(z@ =~= seq!['0']);
        return z;
    }
    let mut m: u64 = n;
    let mut r: Vec<char> = Vec::new();
    while m > 0
        invariant
            dec_digits(n as nat) == dec_digits(m as nat) + r@,
        decreases m,
    {
        let d = digit(m % 10);
        let ghost r0 = r@;
        r.insert(0, d);
        assert(r@ =~= seq![d] + r0);
        assert(dec_digits(m as nat) == dec_digits((m / 10) as nat).push(digit_char((m % 10) as int)));
        assert(dec_digits((m / 10) as nat).push(d) + r0 =~= dec_digits((m / 10) as nat) + r@);
        m = m / 10;
    }
    assert(dec_digits(0) =~= Seq::<char>::empty());
    assert(r@ =~= dec_digits(n as nat));
    r
}

/// The decimal text of `i`.
pub fn i64_text(i: i64) -> (r: Vec<char>)
    ensures
        r@ == dec_int(i as int),
{
    if i < 0 {
        let magnitude: u64 = ((-(i + 1)) as u64) + 1;
        let digits = u64_text(magnitude);
        let mut r: Vec<char> = Vec::new();
        r.push('-');
        append(&mut r, &digits);
        assert(r@ =~= seq!['-'] + dec_nat((-i) as nat));
        r
    } else {
        u64_text(i as u64)
    }
}

/// Appends the characters of `t` to the list `args` as a new string.
pub fn push_chars(args: &mut Vec<String>, t: &Vec<char>)
    ensures
        str_views(final(args)@) == str_views(old(args)@).push(t@),
{
    let ghost a0 = args@;
    args.push(string_of(t));
    assert(str_views(args@) =~= str_views(a0).push(t@));
}

/// The Unicode lower-case form of `s`, as `str::to_lowercase` computes it.
pub uninterp spec fn unicode_lowercase(s: Seq<char>) -> Seq<char>;

/// Calls `str::to_lowercase`; the contract claims only that the result is
/// `unicode_lowercase` of the argument (the mapping depends on the text alone).
#[verifier::external_body]
pub(crate) fn to_lowercase(s: &str) -> (r: String)
    ensures
        r@ == unicode_lowercase(s@),
{
    s.to_lowercase()
}


/// The index of the first `c` in `s`, or -1 when `s` has none.
pub open spec fn first_index(s: Seq<char>, c: char) -> int
    decreases s.len(),
{
    if s.len() == 0 {
        -1
    } else if s[0] == c {
        0
    } else {
        let k = first_index(s.drop_first(), c);
        if k < 0 {
            -1
        } else {
            k + 1
        }
    }
}

/// `s` up to (not including) its first `c`; all of `s` when it has none.
pub open spec fn before_first(s: Seq<char>, c: char) -> Seq<char> {
    let k = first_index(s, c);
    if k < 0 {
        s
    } else {
        s.take(k)
    }
}

/// What `first_index` is: the position of a `c` with no `c` before it, or -1
/// when `c` does not occur.
pub proof fn lemma_first_index(s: Seq<char>, c: char)
    ensures
        -1 <= first_index(s, c) < s.len(),
        first_index(s, c) >= 0 ==> s[first_index(s, c)] == c,
        forall|j: int| 0 <= j < s.len() && (first_index(s, c) < 0 || j < first_index(s, c))
            ==> #[trigger] s[j] != c,
    decreases s.len(),
{
    if s.len() > 0 && s[0] != c {
        lemma_first_index(s.drop_first(), c);
        assert forall|j: int| 0 <= j < s.len() && (first_index(s, c) < 0 || j < first_index(s, c))
            implies #[trigger] s[j] != c by {
            if j > 0 {
                assert(s[j] == s.drop_first()[j - 1]);
            }
        }
    }
}

/// A `c` at `k` with none before it is the first `c`.
pub proof fn lemma_first_index_at(s: Seq<char>, c: char, k: int)
    requires
        0 <= k < s.len(),
        s[k] == c,
        forall|j: int| 0 <= j < k ==> s[j] != c,
    ensures
        first_index(s, c) == k,
    decreases k,
{
    if k > 0 {
        assert(s[0] != c);
        assert forall|j: int| 0 <= j < k - 1 implies s.drop_first()[j] != c by {
            assert(s.drop_first()[j] == s[j + 1]);
        }
        lemma_first_index_at(s.drop_first(), c, k - 1);
    }
}

/// No `c` in `s` means no first `c`.
pub proof fn lemma_first_index_none(s: Seq<char>, c: char)
    requires
        forall|j: int| 0 <= j < s.len() ==> s[j] != c,
    ensures
        first_index(s, c) == -1,
    decreases s.len(),
{
    if s.len() > 0 {
        assert forall|j: int| 0 <= j < s.len() - 1 implies s.drop_first()[j] != c by {
            assert(s.drop_first()[j] == s[j + 1]);
        }
        lemma_first_index_none(s.drop_first(), c);
    }
}

/// The position of the first `c` in `v`.
pub fn find_char(v: &Vec<char>, c: char) -> (r: Option<usize>)
    ensures
        match r {
            Some(k) => k == first_index(v@, c),
            None => first_index(v@, c) == -1,
        },
{
    let mut i: usize = 0;
    while i < v.len()
        invariant
            i <= v.len(),
            forall|j: int| 0 <= j < i ==> v@[j] != c,
        decreases v.len() - i,
    {
        if v[i] == c {
            proof {
                lemma_first_index_at(v@, c, i as int);
            }
            return Some(i);
        }
        i += 1;
    }
    proof {
        lemma_first_index_none(v@, c);
    }
    None
}

/// `v` up to its first `c` (see `before_first`).
pub fn take_before(v: &Vec<char>, c: char) -> (r: Vec<char>)
    ensures
        r@ == before_first(v@, c),
{
    proof {
        lemma_first_index(v@, c);
    }
    match find_char(v, c) {
        Some(k) => slice(v, 0, k),
        None => v.clone(),
    }
}

/// `a` and `b` hold the same text.
pub fn str_is(a: &str, b: &str) -> (r: bool)
    ensures
        r == (a@ == b@),
{
    let v = chars_of(a);
    eq_str(&v, b)
}

/// At most the first `n` characters of `s`.
pub open spec fn take_at_most(s: Seq<char>, n: nat) -> Seq<char> {
    if s.len() <= n {
        s
    } else {
        s.take(n as int)
    }
}


/// `c` is `a` or `b`.
pub open spec fn is_either(c: char, a: char, b: char) -> bool {
    c == a || c == b
}

/// `s` with the characters `a` and `b` removed from both ends.
pub open spec fn trim_pair(s: Seq<char>, a: char, b: char) -> Seq<char> {
    trim_by(s, |c: char| is_either(c, a, b))
}

/// `s` without the characters `a` and `b` at either end (see `trim_pair`).
pub fn trim_chars(s: &Vec<char>, a: char, b: char) -> (r: Vec<char>)
    ensures
        r@ == trim_pair(s@, a, b),
{
    let ghost p = |c: char| is_either(c, a, b);
    let n = s.len();
    let mut i: usize = 0;
    assert(s@.subrange(0, n as int) =~= s@);
    while i < n && (s[i] == a || s[i] == b)
        invariant
            n == s.len(),
            i <= n,
            forall|c: char| #[trigger] p(c) == is_either(c, a, b),
            trim_start_by(s@, p) == trim_start_by(s@.subrange(i as int, n as int), p),
        decreases n - i,
    {
        let ghost sub = s@.subrange(i as int, n as int);
        assert(sub[0] == s@[i as int]);
        assert(p(sub[0]));
        assert(sub.drop_first() =~= s@.subrange(i + 1, n as int));
        assert(trim_start_by(sub, p) == trim_start_by(sub.drop_first(), p));
        i += 1;
    }
    let ghost front = s@.subrange(i as int, n as int);
    assert(trim_start_by(front, p) == front);
    let mut j: usize = n;
    while j > i && (s[j - 1] == a || s[j - 1] == b)
        invariant
            n == s.len(),
            i <= j <= n,
            forall|c: char| #[trigger] p(c) == is_either(c, a, b),
            trim_end_by(front, p) == trim_end_by(s@.subrange(i as int, j as int), p),
        decreases j,
    {
        let ghost sub = s@.subrange(i as int, j as int);
        assert(sub.last() == s@[j - 1]);
        assert(p(sub.last()));
        assert(sub.drop_last() =~= s@.subrange(i as int, j - 1));
        assert(trim_end_by(sub, p) == trim_end_by(sub.drop_last(), p));
        j -= 1;
    }
    slice(s, i, j)
}

/// Whether `c` occurs in `v`.
pub fn has_char(v: &Vec<char>, c: char) -> (r: bool)
    ensures
        r == v@.contains(c),
{
    let mut i: usize = 0;
    while i < v.len()
        invariant
            i <= v.len(),
            forall|j: int| 0 <= j < i ==> v@[j] != c,
        decreases v.len() - i,
    {
        if v[i] == c {
            assert(v@[i as int] == c);
            return true;
        }
        i += 1;
    }
    false
}


/// `c` is one of `a`, `b`, `d`.
pub open spec fn is_one_of(c: char, a: char, b: char, d: char) -> bool {
    c == a || c == b || c == d
}

/// `s` with the characters `a`, `b` and `d` removed from both ends.
pub open spec fn trim_triple(s: Seq<char>, a: char, b: char, d: char) -> Seq<char> {
    trim_by(s, |c: char| is_one_of(c, a, b, d))
}

/// `s` without the characters `a`, `b` and `d` at either end (see `trim_triple`).
pub fn trim_chars3(s: &Vec<char>, a: char, b: char, d: char) -> (r: Vec<char>)
    ensures
        r@ == trim_triple(s@, a, b, d),
{
    let ghost p = |c: char| is_one_of(c, a, b, d);
    let n = s.len();
    let mut i: usize = 0;
    assert(s@.subrange(0, n as int) =~= s@);
    while i < n && (s[i] == a || s[i] == b || s[i] == d)
        invariant
            n == s.len(),
            i <= n,
            forall|c: char| #[trigger] p(c) == is_one_of(c, a, b, d),
            trim_start_by(s@, p) == trim_start_by(s@.subrange(i as int, n as int), p),
        decreases n - i,
    {
        let ghost sub = s@.subrange(i as int, n as int);
        assert(sub[0] == s@[i as int]);
        assert(p(sub[0]));
        assert(sub.drop_first() =~= s@.subrange(i + 1, n as int));
        assert(trim_start_by(sub, p) == trim_start_by(sub.drop_first(), p));
        i += 1;
    }
    let ghost front = s@.subrange(i as int, n as int);
    assert(trim_start_by(front, p) == front);
    let mut j: usize = n;
    while j > i && (s[j - 1] == a || s[j - 1] == b || s[j - 1] == d)
        invariant
            n == s.len(),
            i <= j <= n,
            forall|c: char| #[trigger] p(c) == is_one_of(c, a, b, d),
            trim_end_by(front, p) == trim_end_by(s@.subrange(i as int, j as int), p),
        decreases j,
    {
        let ghost sub = s@.subrange(i as int, j as int);
        assert(sub.last() == s@[j - 1]);
        assert(p(sub.last()));
        assert(sub.drop_last() =~= s@.subrange(i as int, j - 1));
        assert(trim_end_by(sub, p) == trim_end_by(sub.drop_last(), p));
        j -= 1;
    }
    slice(s, i, j)
}



/// Trimming the front of `s` leaves a suffix of `s` that does not begin with a
/// trimmed character.
pub proof fn lemma_trim_start(s: Seq<char>, p: spec_fn(char) -> bool)
    ensures
        trim_start_by(s, p).len() <= s.len(),
        forall|k: int|
            0 <= k < trim_start_by(s, p).len() ==> #[trigger] trim_start_by(s, p)[k] == s[s.len()
                - trim_start_by(s, p).len() + k],
        trim_start_by(s, p).len() > 0 ==> !p(trim_start_by(s, p)[0]),
    decreases s.len(),
{
    if s.len() > 0 && p(s[0]) {
        lemma_trim_start(s.drop_first(), p);
        let t = trim_start_by(s, p);
        assert forall|k: int| 0 <= k < t.len() implies #[trigger] t[k] == s[s.len() - t.len() + k] by {
            assert(s.drop_first()[s.len() - 1 - t.len() + k] == s[s.len() - t.len() + k]);
        }
    }
}

/// Trimming the end of `s` leaves a prefix of `s` that does not end with a
/// trimmed character.
pub proof fn lemma_trim_end(s: Seq<char>, p: spec_fn(char) -> bool)
    ensures
        trim_end_by(s, p).len() <= s.len(),
        forall|k: int| 0 <= k < trim_end_by(s, p).len() ==> #[trigger] trim_end_by(s, p)[k] == s[k],
        trim_end_by(s, p).len() > 0 ==> !p(trim_end_by(s, p).last()),
    decreases s.len(),
{
    if s.len() > 0 && p(s.last()) {
        lemma_trim_end(s.drop_last(), p);
    }
}

/// Every character of `trim_by(s, p)` is a character of `s`; the result is no
/// longer than `s` and neither begins nor ends with a trimmed character.
pub proof fn lemma_trim_by(s: Seq<char>, p: spec_fn(char) -> bool, q: spec_fn(char) -> bool)
    requires
        forall|i: int| 0 <= i < s.len() ==> q(#[trigger] s[i]),
    ensures
        forall|i: int| 0 <= i < trim_by(s, p).len() ==> q(#[trigger] trim_by(s, p)[i]),
        trim_by(s, p).len() <= s.len(),
        trim_by(s, p).len() > 0 ==> !p(trim_by(s, p)[0]) && !p(trim_by(s, p).last()),
{
    let a = trim_start_by(s, p);
    lemma_trim_start(s, p);
    lemma_trim_end(a, p);
    let t = trim_by(s, p);
    assert forall|i: int| 0 <= i < t.len() implies q(#[trigger] t[i]) by {
        assert(t[i] == a[i]);
        assert(a[i] == s[s.len() - a.len() + i]);
    }
    if t.len() > 0 {
        assert(t[0] == a[0]);
    }
}

/// Text that neither begins nor ends with a trimmed character is left as it is.
pub proof fn lemma_trim_by_fixed(s: Seq<char>, p: spec_fn(char) -> bool)
    requires
        s.len() == 0 || (!p(s[0]) && !p(s.last())),
    ensures
        trim_by(s, p) == s,
{
    assert(trim_start_by(s, p) == s);
}

/// Trimming twice is trimming once.
pub proof fn lemma_trim_ws_idempotent(s: Seq<char>)
    ensures
        trim_ws(trim_ws(s)) == trim_ws(s),
{
    let p = |c: char| is_ws(c);
    let q = |c: char| true;
    lemma_trim_by(s, p, q);
    lemma_trim_by_fixed(trim_ws(s), p);
}

} // verus!
