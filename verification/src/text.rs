//! Text utilities: decimal numbers, ASCII case folding, string equality.
use vstd::prelude::*;
use vstd::string::StrSliceExecFns;
use vstd::string::StringExecFns;

verus! {

/// `c` is one of the ASCII digits `0`..`9`.
pub open spec fn is_digit_char(c: char) -> bool {
    '0' <= c && c <= '9'
}

/// Every character of `s` is an ASCII digit.
pub open spec fn all_digit_chars(s: Seq<char>) -> bool {
    forall|i: int| 0 <= i < s.len() ==> is_digit_char(#[trigger] s[i])
}

/// The number written by the decimal digits `s` (most significant first).
pub open spec fn digits_value(s: Seq<char>) -> nat
    decreases s.len(),
{
    if s.len() == 0 {
        0
    } else {
        digits_value(s.drop_last()) * 10 + ((s.last() as nat) - ('0' as nat)) as nat
    }
}

/// What `str::parse::<usize>` gives for the text `s`: an optional `+`,
/// then at least one ASCII digit and nothing else, of a value that fits.
pub open spec fn spec_parse_usize(s: Seq<char>) -> Option<usize> {
    let d = if s.len() > 0 && s[0] == '+' { s.drop_first() } else { s };
    if d.len() > 0 && all_digit_chars(d) && digits_value(d) <= usize::MAX {
        Some(digits_value(d) as usize)
    } else {
        None
    }
}

/// The ASCII digit for `d < 10`.
pub open spec fn digit_char(d: nat) -> char {
    (('0' as nat) + d) as char
}

/// The decimal text of `n`, with no leading zeros (`0` is written `0`).
pub open spec fn decimal(n: nat) -> Seq<char>
    decreases n,
{
    if n < 10 {
        seq![digit_char(n)]
    } else {
        decimal(n / 10).push(digit_char(n % 10))
    }
}

/// Pushes one character on a string.
#[verifier::external_body]
pub(crate) fn push_char(s: &mut String, c: char)
    ensures
        final(s)@ == old(s)@.push(c),
{
    s.push(c);
}

/// The decimal text of `n`, as `n.to_string()` writes it.
pub fn u64_to_text(n: u64) -> (s: String)
    ensures
        s@ == decimal(n as nat),
    decreases n,
{
    if n < 10 {
        let mut s = String::new();
        push_char(&mut s, digit_of(n));
        s
    } else {
        let mut s = u64_to_text(n / 10);
        push_char(&mut s, digit_of(n % 10));
        s
    }
}

fn digit_of(d: u64) -> (c: char)
    requires
        d < 10,
    ensures
        c == digit_char(d as nat),
{
    if d == 0 { '0' }
    else if d == 1 { '1' }
    else if d == 2 { '2' }
    else if d == 3 { '3' }
    else if d == 4 { '4' }
    else if d == 5 { '5' }
    else if d == 6 { '6' }
    else if d == 7 { '7' }
    else if d == 8 { '8' }
    else { '9' }
}

proof fn lemma_digits_value_push(s: Seq<char>, c: char)
    ensures
        digits_value(s.push(c)) == digits_value(s) * 10 + ((c as nat) - ('0' as nat)) as nat,
{
    assert(s.push(c).drop_last() =~= s);
}

/// Decimal text has only digits and reads back as the number it was made from.
pub proof fn lemma_decimal_digits(n: nat)
    ensures
        all_digit_chars(decimal(n)),
        decimal(n).len() > 0,
        digits_value(decimal(n)) == n,
        decimal(n)[0] != '+',
    decreases n,
{
    if n >= 10 {
        lemma_decimal_digits(n / 10);
        lemma_digits_value_push(decimal(n / 10), digit_char(n % 10));
        assert(decimal(n)[0] == decimal(n / 10)[0]);
        assert((digit_char(n % 10) as nat) == ('0' as nat) + n % 10);
        assert((n / 10) * 10 + n % 10 == n);
    } else {
        assert((digit_char(n) as nat) == ('0' as nat) + n);
        assert(seq![digit_char(n)].drop_last() =~= Seq::<char>::empty());
        assert(digits_value(Seq::<char>::empty()) == 0);
        assert(digits_value(seq![digit_char(n)]) == n);
    }
}

/// Parsing the decimal text of a number gives the number back.
pub proof fn lemma_parse_decimal_roundtrip(n: usize)
    ensures
        spec_parse_usize(decimal(n as nat)) == Some(n),
{
    lemma_decimal_digits(n as nat);
}

fn digit_value(c: char) -> (d: Option<usize>)
    ensures
        d == (if is_digit_char(c) { Some(((c as nat) - ('0' as nat)) as usize) } else { None::<usize> }),
{
    if '0' <= c && c <= '9' {
        Some((c as u32 - '0' as u32) as usize)
    } else {
        None
    }
}

/// The value of the text `d` when it is all ASCII digits, at least one,
/// and fits a `u64`.
pub open spec fn spec_digits_u64(d: Seq<char>) -> Option<u64> {
    if d.len() > 0 && all_digit_chars(d) && digits_value(d) <= u64::MAX {
        Some(digits_value(d) as u64)
    } else {
        None
    }
}

/// Reads the characters of `s` from `start` on as a decimal `u64`.
fn digits_u64(s: &str, start: usize) -> (r: Option<u64>)
    requires
        start <= s@.len(),
    ensures
        r == spec_digits_u64(s@.subrange(start as int, s@.len() as int)),
{
    let n = s.unicode_len();
    let ghost d = s@.subrange(start as int, n as int);
    if start >= n {
        return None;
    }
    let mut value: u64 = 0;
    let mut overflow = false;
    let mut i = start;
    while i < n
        invariant
            start <= i <= n,
            n == s@.len(),
            d == s@.subrange(start as int, n as int),
            all_digit_chars(d.take(i - start)),
            !overflow ==> value == digits_value(d.take(i - start)),
            overflow ==> digits_value(d.take(i - start)) > u64::MAX,
        decreases n - i,
    {
        let c = s.get_char(i);
        let ghost k = i - start;
        assert(d.take(k + 1) =~= d.take(k).push(c));
        proof {
            lemma_digits_value_push(d.take(k), c);
        }
        match digit_value(c) {
            None => {
                assert(!all_digit_chars(d)) by {
                    assert(d[k] == c);
                    assert(!is_digit_char(d[k]));
                }
                return None;
            }
            Some(dv) => {
                if !overflow {
                    match value.checked_mul(10) {
                        None => {
                            overflow = true;
                        }
                        Some(v10) => match v10.checked_add(dv as u64) {
                            None => {
                                overflow = true;
                            }
                            Some(v) => {
                                value = v;
                            }
                        },
                    }
                }
            }
        }
        i = i + 1;
    }
    assert(d.take(d.len() as int) =~= d);
    if overflow {
        None
    } else {
        Some(value)
    }
}

/// Reads `s` as the decimal digits of a `u64` (no sign, no other character).
pub fn parse_digits_u64(s: &str) -> (r: Option<u64>)
    ensures
        r == spec_digits_u64(s@),
{
    assert(s@.subrange(0, s@.len() as int) =~= s@);
    digits_u64(s, 0)
}

/// Parses `s` as `str::parse::<usize>` does.
pub fn parse_usize(s: &str) -> (r: Option<usize>)
    ensures
        r == spec_parse_usize(s@),
{
    let n = s.unicode_len();
    let mut start: usize = 0;
    if n > 0 && s.get_char(0) == '+' {
        start = 1;
    }
    assert(s@.drop_first() =~= s@.subrange(1, s@.len() as int));
    assert(s@ =~= s@.subrange(0, s@.len() as int));
    match digits_u64(s, start) {
        None => None,
        Some(v) => {
            if v <= usize::MAX as u64 {
                Some(v as usize)
            } else {
                None
            }
        }
    }
}

/// ASCII lower-casing of one character, as `char::to_ascii_lowercase`.
pub open spec fn ascii_lower(c: char) -> char {
    if 'A' <= c && c <= 'Z' {
        ((c as u32) + 32) as char
    } else {
        c
    }
}

/// `a` and `b` are equal when ASCII letters are compared without case,
/// as `str::eq_ignore_ascii_case` decides.
pub open spec fn eq_ignore_ascii_case_spec(a: Seq<char>, b: Seq<char>) -> bool {
    a.len() == b.len() && forall|i: int| 0 <= i < a.len() ==> ascii_lower(#[trigger] a[i]) == ascii_lower(b[i])
}

/// `c` is an ASCII letter.
pub open spec fn is_ascii_letter(c: char) -> bool {
    ('a' <= c && c <= 'z') || ('A' <= c && c <= 'Z')
}

/// `d` is `c`, or `c` with its ASCII letter case changed.
pub open spec fn same_but_case(c: char, d: char) -> bool {
    c == d || ('a' <= c && c <= 'z' && d as int == c as int - 32) || ('A' <= c && c <= 'Z' && d as int == c as int + 32)
}

/// Comparing without case: a text matches every text that differs from it
/// at most in the case of ASCII letters (itself among them); texts of
/// different lengths do not match, nor texts that differ at a character
/// that is no ASCII letter in either.
#[verifier::spinoff_prover]
#[verifier::rlimit(60)]
pub proof fn law_ignore_case(a: Seq<char>, b: Seq<char>)
    ensures
        eq_ignore_ascii_case_spec(a, a),
        (a.len() == b.len() && forall|i: int| 0 <= i < a.len() ==> same_but_case(#[trigger] a[i], b[i]))
            ==> eq_ignore_ascii_case_spec(a, b),
        a.len() != b.len() ==> !eq_ignore_ascii_case_spec(a, b),
        (exists|i: int| 0 <= i < a.len() && i < b.len() && #[trigger] a[i] != b[i] && !is_ascii_letter(a[i])
            && !is_ascii_letter(b[i])) ==> !eq_ignore_ascii_case_spec(a, b),
{
    if a.len() == b.len() && forall|i: int| 0 <= i < a.len() ==> same_but_case(#[trigger] a[i], b[i]) {
        assert forall|i: int| 0 <= i < a.len() implies ascii_lower(#[trigger] a[i]) == ascii_lower(b[i]) by {
            let c = a[i];
            let d = b[i];
            assert(same_but_case(c, d));
            if c != d {
                if 'a' <= c && c <= 'z' {
                    assert(d as int == c as int - 32);
                    assert('A' <= d && d <= 'Z');
                    assert(((d as u32) + 32) as int == c as int);
                    assert((((d as u32) + 32) as char) == c);
                } else {
                    assert(d as int == c as int + 32);
                    assert('a' <= d && d <= 'z');
                    assert(((c as u32) + 32) as int == d as int);
                    assert((((c as u32) + 32) as char) == d);
                }
            }
        }
    }
    if exists|i: int| 0 <= i < a.len() && i < b.len() && #[trigger] a[i] != b[i] && !is_ascii_letter(a[i])
        && !is_ascii_letter(b[i]) {
        let i = choose|i: int| 0 <= i < a.len() && i < b.len() && #[trigger] a[i] != b[i] && !is_ascii_letter(a[i])
            && !is_ascii_letter(b[i]);
        assert(ascii_lower(a[i]) != ascii_lower(b[i]));
    }
}

fn lower_char(c: char) -> (r: char)
    ensures
        r == ascii_lower(c),
{
    if 'A' <= c && c <= 'Z' {
        ((c as u8) + 32) as char
    } else {
        c
    }
}

/// Compares two texts with ASCII letters folded to lower case.
pub fn eq_ignore_ascii_case(a: &str, b: &str) -> (r: bool)
    ensures
        r == eq_ignore_ascii_case_spec(a@, b@),
{
    let n = a.unicode_len();
    if n != b.unicode_len() {
        return false;
    }
    let mut i: usize = 0;
    while i < n
        invariant
            i <= n,
            n == a@.len(),
            n == b@.len(),
            forall|j: int| 0 <= j < i ==> ascii_lower(#[trigger] a@[j]) == ascii_lower(b@[j]),
        decreases n - i,
    {
        if lower_char(a.get_char(i)) != lower_char(b.get_char(i)) {
            return false;
        }
        i = i + 1;
    }
    true
}

/// Compares two texts character by character.
pub fn str_eq(a: &str, b: &str) -> (r: bool)
    ensures
        r == (a@ == b@),
{
    let n = a.unicode_len();
    if n != b.unicode_len() {
        return false;
    }
    let mut i: usize = 0;
    while i < n
        invariant
            i <= n,
            n == a@.len(),
            n == b@.len(),
            forall|j: int| 0 <= j < i ==> #[trigger] a@[j] == b@[j],
        decreases n - i,
    {
        if a.get_char(i) != b.get_char(i) {
            return false;
        }
        i = i + 1;
    }
    assert(a@ =~= b@);
    true
}

/// Appends `t` to `s`.
pub fn append_str(s: &mut String, t: &str)
    ensures
        final(s)@ == old(s)@ + t@,
{
    s.append(t);
}

/// `part` appears in `text` as a run of consecutive characters.
pub open spec fn shows(text: Seq<char>, part: Seq<char>) -> bool {
    exists|k: int| 0 <= k && k + part.len() <= text.len() && #[trigger] text.subrange(k, k + part.len()) == part
}

/// A text shows itself.
pub proof fn lemma_shows_whole(p: Seq<char>)
    ensures
        shows(p, p),
{
    let k: int = 0;
    assert(p.subrange(k, k + p.len()) =~= p);
}

/// What a text shows, it still shows with more text before or after it.
pub proof fn lemma_shows_extend(s: Seq<char>, p: Seq<char>, before: Seq<char>, after: Seq<char>)
    requires
        shows(s, p),
    ensures
        shows(before + s, p),
        shows(s + after, p),
        shows(before + s + after, p),
{
    let k = choose|k: int| 0 <= k && k + p.len() <= s.len() && #[trigger] s.subrange(k, k + p.len()) == p;
    let k1 = k + before.len();
    assert((before + s).subrange(k1, k1 + p.len()) =~= p);
    assert((s + after).subrange(k, k + p.len()) =~= p);
    assert((before + s + after).subrange(k1, k1 + p.len()) =~= p);
}

/// The parts one after the other.
pub open spec fn concat_all(parts: Seq<Seq<char>>) -> Seq<char>
    decreases parts.len(),
{
    if parts.len() == 0 {
        Seq::empty()
    } else {
        concat_all(parts.drop_last()) + parts.last()
    }
}

/// Each of the parts is shown by their concatenation.
pub proof fn lemma_concat_shows_parts(parts: Seq<Seq<char>>)
    ensures
        forall|i: int| 0 <= i < parts.len() ==> shows(concat_all(parts), #[trigger] parts[i]),
    decreases parts.len(),
{
    if parts.len() > 0 {
        let init = parts.drop_last();
        lemma_concat_shows_parts(init);
        assert forall|i: int| 0 <= i < parts.len() implies shows(concat_all(parts), #[trigger] parts[i]) by {
            if i == parts.len() - 1 {
                lemma_shows_whole(parts.last());
                lemma_shows_extend(parts.last(), parts.last(), concat_all(init), Seq::empty());
            } else {
                assert(init[i] == parts[i]);
                lemma_shows_extend(concat_all(init), parts[i], Seq::empty(), parts.last());
            }
        }
    }
}

/// Compares two byte strings.
pub fn bytes_eq(a: &[u8], b: &[u8]) -> (r: bool)
    ensures
        r == (a@ == b@),
{
    let n = a.len();
    if n != b.len() {
        return false;
    }
    let mut i: usize = 0;
    while i < n
        invariant
            i <= n,
            n == a@.len(),
            n == b@.len(),
            forall|j: int| 0 <= j < i ==> #[trigger] a@[j] == b@[j],
        decreases n - i,
    {
        if a[i] != b[i] {
            return false;
        }
        i = i + 1;
    }
    assert(a@ =~= b@);
    true
}

/// Every byte of `v` is ASCII.
pub open spec fn is_ascii_bytes(v: Seq<u8>) -> bool {
    forall|i: int| 0 <= i < v.len() ==> #[trigger] v[i] < 128
}

/// The characters of an ASCII byte string.
pub open spec fn ascii_chars(v: Seq<u8>) -> Seq<char> {
    v.map_values(|b: u8| b as char)
}

/// The number written in the bytes `v`, as `str::from_utf8(v)` followed by
/// `parse::<usize>()` reads it: a number is written in ASCII only, so any
/// other byte (valid UTF-8 or not) gives no number.
pub open spec fn spec_parse_usize_bytes(v: Seq<u8>) -> Option<usize> {
    if is_ascii_bytes(v) {
        spec_parse_usize(ascii_chars(v))
    } else {
        None
    }
}

/// Reads the bytes `v` as a `usize` written in decimal.
pub fn parse_usize_bytes(v: &[u8]) -> (r: Option<usize>)
    ensures
        r == spec_parse_usize_bytes(v@),
{
    let mut s = String::new();
    let mut i: usize = 0;
    while i < v.len()
        invariant
            i <= v.len(),
            s@ == ascii_chars(v@.take(i as int)),
            is_ascii_bytes(v@.take(i as int)),
        decreases v.len() - i,
    {
        let b = v[i];
        if b >= 128 {
            assert(!is_ascii_bytes(v@)) by {
                assert(v@[i as int] >= 128);
            }
            return None;
        }
        push_char(&mut s, b as char);
        assert(v@.take(i + 1) =~= v@.take(i as int).push(b));
        assert(ascii_chars(v@.take(i + 1)) =~= ascii_chars(v@.take(i as int)).push(b as char));
        i = i + 1;
    }
    assert(v@.take(v.len() as int) =~= v@);
    parse_usize(s.as_str())
}

} // verus!
