//! Character-sequence primitives shared by the grammars and the renderer.

use vstd::prelude::*;

verus! {

/// Relies on `str::chars` collected into a `Vec`: one element per character, in order.
#[verifier::external_body]
pub(crate) fn chars_of(s: &str) -> (r: Vec<char>)
    ensures
        r@ == s@,
{
    s.chars().collect()
}

/// Relies on `String: FromIterator<&char>`: the string holds the given characters in order.
#[verifier::external_body]
pub(crate) fn string_from(v: &[char]) -> (r: String)
    ensures
        r@ == v@,
{
    v.iter().collect()
}

/// `m` occurs in `t` starting at position `i`.
pub open spec fn lit_at(t: Seq<char>, i: int, m: Seq<char>) -> bool {
    0 <= i && i + m.len() <= t.len() && t.subrange(i, i + m.len()) == m
}

/// `j` is the first position at or after `i` where `m` occurs.
pub open spec fn first_at(t: Seq<char>, i: int, m: Seq<char>, j: int) -> bool {
    i <= j && lit_at(t, j, m) && forall|k: int| i <= k < j ==> !lit_at(t, k, m)
}

/// The first position at or after `i` where `m` occurs, if any.
pub open spec fn find(t: Seq<char>, i: int, m: Seq<char>) -> Option<int> {
    if exists|j: int| first_at(t, i, m, j) {
        Some(choose|j: int| first_at(t, i, m, j))
    } else {
        None
    }
}

proof fn lemma_first_at_unique(t: Seq<char>, i: int, m: Seq<char>, j1: int, j2: int)
    requires
        first_at(t, i, m, j1),
        first_at(t, i, m, j2),
    ensures
        j1 == j2,
{
    if j1 < j2 {
        assert(!lit_at(t, j1, m));
    } else if j2 < j1 {
        assert(!lit_at(t, j2, m));
    }
}

/// Whether `m` occurs in `t` at position `i`.
pub fn match_at(t: &Vec<char>, i: usize, m: &Vec<char>) -> (r: bool)
    ensures
        r == lit_at(t@, i as int, m@),
{
    if i > t.len() || m.len() > t.len() - i {
        return false;
    }
    let mut k: usize = 0;
    while k < m.len()
        invariant
            i + m.len() <= t.len(),
            k <= m.len(),
            forall|q: int| 0 <= q < k ==> t@[i + q] == m@[q],
        decreases m.len() - k,
    {
        if t[i + k] != m[k] {
            assert(t@.subrange(i as int, i + m.len())[k as int] != m@[k as int]);
            return false;
        }
        k = k + 1;
    }
    assert(t@.subrange(i as int, i + m.len()) =~= m@);
    true
}

/// The first position at or after `i` where the literal `m` occurs.
pub fn find_lit(t: &Vec<char>, i: usize, m: &str) -> (r: Option<usize>)
    requires
        i <= t.len(),
    ensures
        match find(t@, i as int, m@) {
            Some(j) => r matches Some(rj) && rj == j,
            None => r is None,
        },
        r matches Some(j) ==> first_at(t@, i as int, m@, j as int) && j + m@.len() <= t.len(),
{
    let mc = chars_of(m);
    let mut j: usize = i;
    loop
        invariant
            i <= j <= t.len(),
            mc@ == m@,
            forall|k: int| i <= k < j ==> !lit_at(t@, k, m@),
        ensures
            forall|k: int| i <= k <= t.len() ==> !lit_at(t@, k, m@),
        decreases t.len() - j,
    {
        if match_at(t, j, &mc) {
            assert(first_at(t@, i as int, m@, j as int));
            proof {
                let c = choose|c: int| first_at(t@, i as int, m@, c);
                lemma_first_at_unique(t@, i as int, m@, c, j as int);
            }
            return Some(j);
        }
        if j == t.len() {
            break;
        }
        j = j + 1;
    }
    proof {
        assert forall|c: int| !first_at(t@, i as int, m@, c) by {
            if first_at(t@, i as int, m@, c) {
                assert(lit_at(t@, c, m@));
                assert(c <= t.len());
            }
        }
    }
    None
}

pub open spec fn is_digit(c: char) -> bool {
    '0' <= c && c <= '9'
}

pub open spec fn is_letter(c: char) -> bool {
    ('a' <= c && c <= 'z') || ('A' <= c && c <= 'Z')
}

/// The end of the run of decimal digits that starts at `i`.
pub open spec fn digits_end(t: Seq<char>, i: int) -> int
    decreases t.len() - i,
{
    if 0 <= i < t.len() && is_digit(t[i]) {
        digits_end(t, i + 1)
    } else {
        i
    }
}

/// The end of the run of ASCII letters that starts at `i`.
pub open spec fn letters_end(t: Seq<char>, i: int) -> int
    decreases t.len() - i,
{
    if 0 <= i < t.len() && is_letter(t[i]) {
        letters_end(t, i + 1)
    } else {
        i
    }
}

pub open spec fn digit_value(c: char) -> nat {
    (c as nat - '0' as nat) as nat
}

/// The number written in decimal by `t[i..j]`.
pub open spec fn digits_value(t: Seq<char>, i: int, j: int) -> nat
    decreases j - i,
{
    if j <= i {
        0
    } else {
        digits_value(t, i, j - 1) * 10 + digit_value(t[j - 1])
    }
}

/// The run of digits at `i` read as a number at most `limit`.
pub open spec fn number_at(t: Seq<char>, i: int, limit: nat) -> Option<(nat, int)> {
    let e = digits_end(t, i);
    if e == i || digits_value(t, i, e) > limit {
        None
    } else {
        Some((digits_value(t, i, e), e))
    }
}

/// An unsigned byte written in decimal at `i`, and where it ends.
pub open spec fn u8_at(t: Seq<char>, i: int) -> Option<(u8, int)> {
    match number_at(t, i, 255) {
        Some((v, e)) => Some((v as u8, e)),
        None => None,
    }
}

/// A signed 16-bit integer at `i` with an optional `+` or `-` sign, and where it ends.
pub open spec fn i16_at(t: Seq<char>, i: int) -> Option<(i16, int)> {
    let neg = 0 <= i < t.len() && t[i] == '-';
    let s = if 0 <= i < t.len() && (t[i] == '-' || t[i] == '+') { i + 1 } else { i };
    if neg {
        match number_at(t, s, 32768) {
            Some((v, e)) => Some(((0 - v) as i16, e)),
            None => None,
        }
    } else {
        match number_at(t, s, 32767) {
            Some((v, e)) => Some((v as i16, e)),
            None => None,
        }
    }
}

proof fn lemma_digits_end_bounds(t: Seq<char>, i: int)
    requires
        0 <= i <= t.len(),
    ensures
        i <= digits_end(t, i) <= t.len(),
        forall|k: int| i <= k < digits_end(t, i) ==> is_digit(t[k]),
    decreases t.len() - i,
{
    if i < t.len() && is_digit(t[i]) {
        lemma_digits_end_bounds(t, i + 1);
    }
}

proof fn lemma_value_grows(t: Seq<char>, i: int, k: int, e: int)
    requires
        i <= k <= e,
    ensures
        digits_value(t, i, k) <= digits_value(t, i, e),
    decreases e - k,
{
    if k < e {
        lemma_value_grows(t, i, k, e - 1);
    }
}

/// The end of the run of digits at `i`.
pub fn scan_digits(t: &Vec<char>, i: usize) -> (e: usize)
    requires
        i <= t.len(),
    ensures
        e == digits_end(t@, i as int),
        i <= e <= t.len(),
{
    let mut j: usize = i;
    while j < t.len() && '0' <= t[j] && t[j] <= '9'
        invariant
            i <= j <= t.len(),
            digits_end(t@, i as int) == digits_end(t@, j as int),
        decreases t.len() - j,
    {
        j = j + 1;
    }
    j
}

/// The end of the run of ASCII letters at `i`.
pub fn scan_letters(t: &Vec<char>, i: usize) -> (e: usize)
    requires
        i <= t.len(),
    ensures
        e == letters_end(t@, i as int),
        i <= e <= t.len(),
{
    let mut j: usize = i;
    while j < t.len() && (('a' <= t[j] && t[j] <= 'z') || ('A' <= t[j] && t[j] <= 'Z'))
        invariant
            i <= j <= t.len(),
            letters_end(t@, i as int) == letters_end(t@, j as int),
        decreases t.len() - j,
    {
        j = j + 1;
    }
    j
}

/// Reads the run of digits at `i` as a number no greater than `limit`.
pub fn scan_number(t: &Vec<char>, i: usize, limit: u32) -> (r: Option<(u32, usize)>)
    requires
        i <= t.len(),
        limit <= 32768,
    ensures
        match number_at(t@, i as int, limit as nat) {
            Some((v, e)) => r matches Some((rv, re)) && rv == v && re == e,
            None => r is None,
        },
        r matches Some((v, e)) ==> i < e <= t.len() && v <= limit,
{
    let e = scan_digits(t, i);
    if e == i {
        return None;
    }
    proof {
        lemma_digits_end_bounds(t@, i as int);
    }
    let mut v: u32 = 0;
    let mut k: usize = i;
    while k < e
        invariant
            i <= k <= e <= t.len(),
            e == digits_end(t@, i as int),
            forall|q: int| i <= q < e ==> is_digit(t@[q]),
            v as nat == digits_value(t@, i as int, k as int),
            v <= limit,
            limit <= 32768,
        decreases e - k,
    {
        let d = t[k] as u32 - '0' as u32;
        assert(is_digit(t@[k as int]));
        let nv = v * 10 + d;
        assert(nv as nat == digits_value(t@, i as int, k + 1));
        if nv > limit {
            proof {
                lemma_value_grows(t@, i as int, k + 1, e as int);
            }
            return None;
        }
        v = nv;
        k = k + 1;
    }
    Some((v, e))
}

/// Reads an unsigned byte in decimal at `i`.
pub fn scan_u8(t: &Vec<char>, i: usize) -> (r: Option<(u8, usize)>)
    requires
        i <= t.len(),
    ensures
        match u8_at(t@, i as int) {
            Some((v, e)) => r matches Some((rv, re)) && rv == v && re == e,
            None => r is None,
        },
        r matches Some((v, e)) ==> i < e <= t.len(),
{
    match scan_number(t, i, 255) {
        Some((v, e)) => Some((v as u8, e)),
        None => None,
    }
}

/// Reads a signed 16-bit integer at `i`, with an optional sign.
pub fn scan_i16(t: &Vec<char>, i: usize) -> (r: Option<(i16, usize)>)
    requires
        i <= t.len(),
    ensures
        match i16_at(t@, i as int) {
            Some((v, e)) => r matches Some((rv, re)) && rv == v && re == e,
            None => r is None,
        },
        r matches Some((v, e)) ==> i < e <= t.len(),
{
    let neg = i < t.len() && t[i] == '-';
    let s = if i < t.len() && (t[i] == '-' || t[i] == '+') { i + 1 } else { i };
    if neg {
        match scan_number(t, s, 32768) {
            Some((v, e)) => Some(((0 - v as i32) as i16, e)),
            None => None,
        }
    } else {
        match scan_number(t, s, 32767) {
            Some((v, e)) => Some((v as i16, e)),
            None => None,
        }
    }
}

/// The character of a decimal digit.
pub open spec fn digit_char(d: nat) -> char {
    if d == 0 {
        '0'
    } else if d == 1 {
        '1'
    } else if d == 2 {
        '2'
    } else if d == 3 {
        '3'
    } else if d == 4 {
        '4'
    } else if d == 5 {
        '5'
    } else if d == 6 {
        '6'
    } else if d == 7 {
        '7'
    } else if d == 8 {
        '8'
    } else {
        '9'
    }
}

/// `n` written in decimal, without leading zeros.
pub open spec fn decimal(n: nat) -> Seq<char>
    decreases n,
{
    if n < 10 {
        seq![digit_char(n)]
    } else {
        decimal(n / 10).push(digit_char(n % 10))
    }
}

/// `v` written in decimal, with a `-` in front when it is negative.
pub open spec fn signed_decimal(v: int) -> Seq<char> {
    if v < 0 {
        seq!['-'] + decimal((-v) as nat)
    } else {
        decimal(v as nat)
    }
}

fn digit(d: u32) -> (c: char)
    requires
        d < 10,
    ensures
        c == digit_char(d as nat),
{
    if d == 0 {
        '0'
    } else if d == 1 {
        '1'
    } else if d == 2 {
        '2'
    } else if d == 3 {
        '3'
    } else if d == 4 {
        '4'
    } else if d == 5 {
        '5'
    } else if d == 6 {
        '6'
    } else if d == 7 {
        '7'
    } else if d == 8 {
        '8'
    } else {
        '9'
    }
}

/// Appends the characters of `s`.
pub fn push_str(out: &mut Vec<char>, s: &str)
    ensures
        final(out)@ == old(out)@ + s@,
{
    let mut c = chars_of(s);
    out.append(&mut c);
}

/// Appends `n` in decimal.
pub fn push_decimal(out: &mut Vec<char>, n: u32)
    ensures
        final(out)@ == old(out)@ + decimal(n as nat),
    decreases n,
{
    if n >= 10 {
        push_decimal(out, n / 10);
    }
    out.push(digit(n % 10));
    assert(out@ =~= old(out)@ + decimal(n as nat));
}

/// Appends `v` in decimal, with its sign when negative.
pub fn push_signed(out: &mut Vec<char>, v: i16)
    ensures
        final(out)@ == old(out)@ + signed_decimal(v as int),
{
    if v < 0 {
        out.push('-');
        push_decimal(out, (0 - v as i32) as u32);
        assert(out@ =~= old(out)@ + signed_decimal(v as int));
    } else {
        push_decimal(out, v as u32);
    }
}

/// Where the literal `m` ends if it stands at `i`.
pub open spec fn lit_end(t: Seq<char>, i: int, m: Seq<char>) -> Option<int> {
    if lit_at(t, i, m) {
        Some(i + m.len())
    } else {
        None
    }
}

/// The text from `i` up to the first `m`, and where that `m` ends.
pub open spec fn until_at(t: Seq<char>, i: int, m: Seq<char>) -> Option<(Seq<char>, int)> {
    match find(t, i, m) {
        Some(j) => Some((t.subrange(i, j), j + m.len())),
        None => None,
    }
}

/// `t[i..j]` as a `String`.
pub fn substring(t: &Vec<char>, i: usize, j: usize) -> (r: String)
    requires
        i <= j <= t.len(),
    ensures
        r@ == t@.subrange(i as int, j as int),
{
    let mut v: Vec<char> = Vec::new();
    let mut k: usize = i;
    while k < j
        invariant
            i <= k <= j <= t.len(),
            v@ == t@.subrange(i as int, k as int),
        decreases j - k,
    {
        v.push(t[k]);
        assert(v@ =~= t@.subrange(i as int, k + 1));
        k = k + 1;
    }
    string_from(v.as_slice())
}

/// Where the literal `m` ends if it stands at `i`.
pub fn scan_lit(t: &Vec<char>, i: usize, m: &str) -> (r: Option<usize>)
    ensures
        match lit_end(t@, i as int, m@) {
            Some(e) => r matches Some(re) && re == e,
            None => r is None,
        },
        r matches Some(e) ==> i <= e <= t.len(),
{
    let mc = chars_of(m);
    if match_at(t, i, &mc) {
        let n = mc.len();
        assert(lit_at(t@, i as int, mc@));
        assert(i + n <= t.len());
        Some(i + n)
    } else {
        None
    }
}

/// The text from `i` up to the first literal `m`, and where that `m` ends.
pub fn scan_until(t: &Vec<char>, i: usize, m: &str) -> (r: Option<(String, usize)>)
    requires
        i <= t.len(),
    ensures
        match until_at(t@, i as int, m@) {
            Some((s, e)) => r matches Some((rs, re)) && rs@ == s && re == e,
            None => r is None,
        },
        r matches Some((rs, re)) ==> i <= re <= t.len(),
{
    match find_lit(t, i, m) {
        Some(j) => {
            let mc = chars_of(m);
            Some((substring(t, i, j), j + mc.len()))
        },
        None => None,
    }
}

} // verus!
