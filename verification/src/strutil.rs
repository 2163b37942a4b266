//! Character-level string helpers: equality, decimal rendering, integer
//! parsing and whitespace trimming, each with an exact contract over the
//! character-sequence view.

use vstd::prelude::*;
use vstd::string::StrSliceExecFns;
use vstd::string::StringExecFns;

verus! {

/// Relies on std's String::push: appends exactly one character.
#[verifier::external_body]
pub fn push_char(s: &mut String, c: char)
    ensures
        final(s)@ == old(s)@.push(c),
{
    s.push(c)
}

/// Character-wise equality of two string slices.
pub fn str_eq(a: &str, b: &str) -> (r: bool)
    ensures
        r == (a@ == b@),
{
    let alen = a.unicode_len();
    let blen = b.unicode_len();
    if alen != blen {
        assert(a@ != b@) by {
            assert(a@.len() != b@.len());
        }
        return false;
    }
    let mut i: usize = 0;
    while i < alen
        invariant
            0 <= i <= alen,
            alen == a@.len() && alen == b@.len(),
            forall|j: int| 0 <= j < i ==> a@[j] == b@[j],
        decreases alen - i,
    {
        if a.get_char(i) != b.get_char(i) {
            return false;
        }
        i += 1;
    }
    assert(a@ =~= b@);
    true
}

/// The decimal digit character for one value below ten.
pub open spec fn digit_char(d: nat) -> char {
    if d == 0 { '0' }
    else if d == 1 { '1' }
    else if d == 2 { '2' }
    else if d == 3 { '3' }
    else if d == 4 { '4' }
    else if d == 5 { '5' }
    else if d == 6 { '6' }
    else if d == 7 { '7' }
    else if d == 8 { '8' }
    else { '9' }
}

/// The decimal rendering of a natural number, most significant digit first.
pub open spec fn dec_digits(n: nat) -> Seq<char>
    decreases n,
{
    if n < 10 {
        seq![digit_char(n)]
    } else {
        dec_digits(n / 10).push(digit_char(n % 10))
    }
}

fn digit_char_exec(d: u64) -> (r: char)
    requires
        d < 10,
    ensures
        r == digit_char(d as nat),
{
    match d {
        0 => '0',
        1 => '1',
        2 => '2',
        3 => '3',
        4 => '4',
        5 => '5',
        6 => '6',
        7 => '7',
        8 => '8',
        _ => '9',
    }
}

/// Renders a number in decimal.
pub fn u64_to_string(n: u64) -> (r: String)
    ensures
        r@ == dec_digits(n as nat),
    decreases n,
{
    if n < 10 {
        let mut s = String::new();
        push_char(&mut s, digit_char_exec(n));
        assert(s@ =~= dec_digits(n as nat));
        s
    } else {
        let mut s = u64_to_string(n / 10);
        push_char(&mut s, digit_char_exec(n % 10));
        s
    }
}

/// The magnitude of a signed value.
pub open spec fn spec_abs(v: int) -> nat {
    if v < 0 {
        (-v) as nat
    } else {
        v as nat
    }
}

/// The decimal rendering of a signed value.
pub open spec fn dec_digits_signed(v: int) -> Seq<char> {
    if v < 0 {
        seq!['-'] + dec_digits(spec_abs(v))
    } else {
        dec_digits(spec_abs(v))
    }
}

/// The magnitude of a signed 64-bit value, as an unsigned one.
pub fn abs_u64(v: i64) -> (r: u64)
    ensures
        r as nat == spec_abs(v as int),
{
    if v == i64::MIN {
        9223372036854775808u64
    } else if v < 0 {
        (-v) as u64
    } else {
        v as u64
    }
}

/// Renders a signed value in decimal.
pub fn i64_to_string(v: i64) -> (r: String)
    ensures
        r@ == dec_digits_signed(v as int),
{
    let mag = abs_u64(v);
    if v < 0 {
        let mut s = String::new();
        push_char(&mut s, '-');
        let digits = u64_to_string(mag);
        s.append(digits.as_str());
        assert(s@ =~= seq!['-'] + dec_digits(spec_abs(v as int)));
        s
    } else {
        u64_to_string(mag)
    }
}

/// Ten to the power k.
pub open spec fn pow10(k: nat) -> nat
    decreases k,
{
    if k == 0 {
        1
    } else {
        10 * pow10((k - 1) as nat)
    }
}

/// The decimal rendering of n, left-padded with zeros to the width.
pub open spec fn dec_digits_pad(n: nat, width: nat) -> Seq<char> {
    if dec_digits(n).len() >= width {
        dec_digits(n)
    } else {
        Seq::new((width - dec_digits(n).len()) as nat, |i: int| '0') + dec_digits(n)
    }
}

/// Renders n in decimal, left-padded with zeros to the width.
pub fn u64_to_string_pad(n: u64, width: usize) -> (r: String)
    requires
        width <= 32,
    ensures
        r@ == dec_digits_pad(n as nat, width as nat),
{
    let digits = u64_to_string(n);
    let len = digits.as_str().unicode_len();
    if len >= width {
        digits
    } else {
        let mut s = String::new();
        let mut k: usize = 0;
        while k < width - len
            invariant
                0 <= k <= width - len,
                len == dec_digits(n as nat).len(),
                len < width <= 32,
                s@ =~= Seq::new(k as nat, |i: int| '0'),
            decreases width - len - k,
        {
            push_char(&mut s, '0');
            proof {
                assert(s@ =~= Seq::new((k + 1) as nat, |i: int| '0'));
            }
            k += 1;
        }
        s.append(digits.as_str());
        s
    }
}

/// The fixed-point decimal rendering of a value held in units of
/// ten-to-the-minus-scale: sign, whole part, point, zero-padded fraction.
pub open spec fn spec_fixed_point(v: int, scale: nat) -> Seq<char> {
    let sign: Seq<char> = if v < 0 {
        seq!['-']
    } else {
        Seq::empty()
    };
    sign + dec_digits(spec_abs(v) / pow10(scale)) + seq!['.'] + dec_digits_pad(
        spec_abs(v) % pow10(scale),
        scale,
    )
}

/// Renders a value held in millionths as a decimal with six fraction
/// digits (microdegree coordinates as degrees).
pub fn fixed_e6_string(v: i64) -> (r: String)
    ensures
        r@ == spec_fixed_point(v as int, 6),
{
    let mag = abs_u64(v);
    proof {
        assert(pow10(0) == 1);
        assert(pow10(1) == 10);
        assert(pow10(2) == 100);
        assert(pow10(3) == 1000);
        assert(pow10(4) == 10000);
        assert(pow10(5) == 100000);
        assert(pow10(6) == 1000000);
    }
    let whole = u64_to_string(mag / 1000000);
    let frac = u64_to_string_pad(mag % 1000000, 6);
    let mut s = String::new();
    if v < 0 {
        push_char(&mut s, '-');
    }
    s.append(whole.as_str());
    push_char(&mut s, '.');
    s.append(frac.as_str());
    proof {
        assert(s@ =~= spec_fixed_point(v as int, 6));
    }
    s
}

/// Renders a value held in thousandths as a decimal with three fraction
/// digits.
pub fn fixed_e3_string(v: i64) -> (r: String)
    ensures
        r@ == spec_fixed_point(v as int, 3),
{
    let mag = abs_u64(v);
    proof {
        assert(pow10(0) == 1);
        assert(pow10(1) == 10);
        assert(pow10(2) == 100);
        assert(pow10(3) == 1000);
    }
    let whole = u64_to_string(mag / 1000);
    let frac = u64_to_string_pad(mag % 1000, 3);
    let mut s = String::new();
    if v < 0 {
        push_char(&mut s, '-');
    }
    s.append(whole.as_str());
    push_char(&mut s, '.');
    s.append(frac.as_str());
    proof {
        assert(s@ =~= spec_fixed_point(v as int, 3));
    }
    s
}

/// Whether `sub` occurs contiguously in `s`.
pub open spec fn spec_contains(s: Seq<char>, sub: Seq<char>) -> bool {
    exists|k: int|
        0 <= k <= s.len() - sub.len() && #[trigger] s.subrange(k, k + sub.len() as int) == sub
}

/// Substring search, as `str::contains` decides it.
pub fn str_contains(s: &str, sub: &str) -> (r: bool)
    ensures
        r == spec_contains(s@, sub@),
{
    let slen = s.unicode_len();
    let blen = sub.unicode_len();
    if blen > slen {
        return false;
    }
    let mut k: usize = 0;
    while k <= slen - blen
        invariant
            0 <= k <= slen - blen + 1,
            blen <= slen,
            slen == s@.len(),
            blen == sub@.len(),
            forall|m: int|
                0 <= m < k ==> #[trigger] s@.subrange(m, m + sub@.len() as int) != sub@,
        decreases slen - k,
    {
        let mut j: usize = 0;
        let mut matched = true;
        while j < blen
            invariant
                0 <= j <= blen,
                k + blen <= slen,
                slen == s@.len(),
                blen == sub@.len(),
                matched ==> forall|t: int| 0 <= t < j ==> s@[k + t] == sub@[t],
                !matched ==> exists|t: int| 0 <= t < blen && s@[k + t] != sub@[t],
            decreases blen - j,
        {
            if s.get_char(k + j) != sub.get_char(j) {
                matched = false;
                j = blen;
            } else {
                j += 1;
            }
        }
        if matched {
            proof {
                assert(s@.subrange(k as int, k + sub@.len() as int) =~= sub@);
            }
            return true;
        }
        proof {
            if s@.subrange(k as int, k + sub@.len() as int) == sub@ {
                assert forall|t: int| 0 <= t < blen implies s@[k + t] == sub@[t] by {
                    assert(s@.subrange(k as int, k + sub@.len() as int)[t] == s@[k + t]);
                }
                assert(false);
            }
        }
        k += 1;
    }
    false
}

/// The position of the first occurrence of `sub`, or minus one.
pub open spec fn first_sub(s: Seq<char>, sub: Seq<char>) -> int
    decreases s.len(),
{
    if s.len() < sub.len() {
        -1
    } else if s.subrange(0, sub.len() as int) == sub {
        0
    } else if s.len() == 0 {
        -1
    } else {
        let r = first_sub(s.drop_first(), sub);
        if r < 0 {
            -1
        } else {
            r + 1
        }
    }
}

pub proof fn lemma_first_sub(s: Seq<char>, sub: Seq<char>)
    requires
        sub.len() > 0,
    ensures
        first_sub(s, sub) >= -1,
        first_sub(s, sub) >= 0 ==> first_sub(s, sub) <= s.len() - sub.len(),
        first_sub(s, sub) >= 0 ==> s.subrange(
            first_sub(s, sub),
            first_sub(s, sub) + sub.len() as int,
        ) == sub,
        forall|k: int|
            0 <= k < first_sub(s, sub) ==> #[trigger] s.subrange(k, k + sub.len() as int) != sub,
        first_sub(s, sub) == -1 ==> forall|k: int|
            0 <= k <= s.len() - sub.len() ==> #[trigger] s.subrange(k, k + sub.len() as int)
                != sub,
    decreases s.len(),
{
    if s.len() >= sub.len() && s.subrange(0, sub.len() as int) != sub && s.len() > 0 {
        let t = s.drop_first();
        lemma_first_sub(t, sub);
        assert forall|k: int|
            1 <= k <= s.len() - sub.len() implies #[trigger] s.subrange(k, k + sub.len() as int)
            == t.subrange(k - 1, k - 1 + sub.len() as int) by {
            assert(s.subrange(k, k + sub.len() as int) =~= t.subrange(
                k - 1,
                k - 1 + sub.len() as int,
            ));
        }
        if first_sub(s, sub) >= 0 {
            assert(s.subrange(first_sub(s, sub), first_sub(s, sub) + sub.len() as int) == sub);
        }
    }
}

/// Finds the first occurrence of a substring.
pub fn find_sub(s: &str, sub: &str) -> (r: Option<usize>)
    requires
        sub@.len() > 0,
    ensures
        match r {
            Some(i) => first_sub(s@, sub@) == i as int,
            None => first_sub(s@, sub@) == -1,
        },
{
    let slen = s.unicode_len();
    let blen = sub.unicode_len();
    if blen > slen {
        proof {
            lemma_first_sub(s@, sub@);
        }
        return None;
    }
    let mut k: usize = 0;
    while k <= slen - blen
        invariant
            0 <= k <= slen - blen + 1,
            blen <= slen,
            blen > 0,
            slen == s@.len(),
            blen == sub@.len(),
            forall|m: int|
                0 <= m < k ==> #[trigger] s@.subrange(m, m + sub@.len() as int) != sub@,
        decreases slen - k,
    {
        let mut j: usize = 0;
        let mut matched = true;
        while j < blen
            invariant
                0 <= j <= blen,
                k + blen <= slen,
                slen == s@.len(),
                blen == sub@.len(),
                matched ==> forall|t: int| 0 <= t < j ==> s@[k + t] == sub@[t],
                !matched ==> exists|t: int| 0 <= t < blen && s@[k + t] != sub@[t],
            decreases blen - j,
        {
            if s.get_char(k + j) != sub.get_char(j) {
                matched = false;
                j = blen;
            } else {
                j += 1;
            }
        }
        if matched {
            proof {
                assert(s@.subrange(k as int, k + sub@.len() as int) =~= sub@);
                lemma_first_sub(s@, sub@);
                if first_sub(s@, sub@) < k as int {
                    if first_sub(s@, sub@) >= 0 {
                        assert(s@.subrange(
                            first_sub(s@, sub@),
                            first_sub(s@, sub@) + sub@.len() as int,
                        ) != sub@);
                    } else {
                        assert(s@.subrange(k as int, k + sub@.len() as int) != sub@);
                    }
                } else if first_sub(s@, sub@) > k as int {
                    assert(s@.subrange(k as int, k + sub@.len() as int) != sub@);
                }
            }
            return Some(k);
        }
        proof {
            if s@.subrange(k as int, k + sub@.len() as int) == sub@ {
                assert forall|t: int| 0 <= t < blen implies s@[k + t] == sub@[t] by {
                    assert(s@.subrange(k as int, k + sub@.len() as int)[t] == s@[k + t]);
                }
                assert(false);
            }
        }
        k += 1;
    }
    proof {
        lemma_first_sub(s@, sub@);
        if first_sub(s@, sub@) >= 0 {
            assert(s@.subrange(first_sub(s@, sub@), first_sub(s@, sub@) + sub@.len() as int)
                != sub@);
        }
    }
    None
}

/// The sequence with every occurrence of `pat` removed, scanning left
/// to right, as `str::replace` with an empty replacement leaves it.
pub open spec fn spec_remove_all(s: Seq<char>, pat: Seq<char>) -> Seq<char>
    decreases s.len(),
{
    if pat.len() == 0 {
        s
    } else {
        let k = first_sub(s, pat);
        if k < 0 || k + pat.len() > s.len() {
            s
        } else {
            s.subrange(0, k) + spec_remove_all(
                s.subrange(k + pat.len() as int, s.len() as int),
                pat,
            )
        }
    }
}

/// Removes every occurrence of a pattern, as `str::replace` with an
/// empty replacement does.
pub fn remove_all(s: &str, pat: &str) -> (r: String)
    requires
        pat@.len() > 0,
    ensures
        r@ == spec_remove_all(s@, pat@),
    decreases s@.len(),
{
    proof {
        lemma_first_sub(s@, pat@);
    }
    let slen = s.unicode_len();
    let plen = pat.unicode_len();
    match find_sub(s, pat) {
        None => String::from_str(s),
        Some(k) => {
            let head = s.substring_char(0, k);
            let rest = s.substring_char(k + plen, slen);
            let tail = remove_all(rest, pat);
            let mut out = String::from_str(head);
            out.append(tail.as_str());
            assert(out@ =~= spec_remove_all(s@, pat@));
            out
        },
    }
}

/// Whether a character is a decimal digit.
pub open spec fn is_digit(c: char) -> bool {
    c == '0' || c == '1' || c == '2' || c == '3' || c == '4' || c == '5' || c == '6' || c == '7'
        || c == '8' || c == '9'
}

/// The value of one decimal digit character.
pub open spec fn digit_val(c: char) -> nat {
    if c == '0' { 0 }
    else if c == '1' { 1 }
    else if c == '2' { 2 }
    else if c == '3' { 3 }
    else if c == '4' { 4 }
    else if c == '5' { 5 }
    else if c == '6' { 6 }
    else if c == '7' { 7 }
    else if c == '8' { 8 }
    else { 9 }
}

/// A nonempty run of decimal digits.
pub open spec fn all_digits(s: Seq<char>) -> bool {
    s.len() > 0 && forall|i: int| 0 <= i < s.len() ==> is_digit(#[trigger] s[i])
}

/// The value of a digit run, most significant digit first.
pub open spec fn digits_val(s: Seq<char>) -> nat
    decreases s.len(),
{
    if s.len() == 0 {
        0
    } else {
        digits_val(s.drop_last()) * 10 + digit_val(s.last())
    }
}

/// A longer digit run never has a smaller value than its prefix.
proof fn lemma_digits_val_prefix(s: Seq<char>, i: int)
    requires
        0 <= i <= s.len(),
    ensures
        digits_val(s.take(i)) <= digits_val(s),
    decreases s.len() - i,
{
    if i < s.len() {
        lemma_digits_val_prefix(s, i + 1);
        assert(s.take(i + 1).drop_last() =~= s.take(i));
        assert(digits_val(s.take(i + 1)) == digits_val(s.take(i)) * 10 + digit_val(
            s.take(i + 1).last(),
        ));
    } else {
        assert(s.take(i) =~= s);
    }
}

/// What `str::parse::<i32>` accepts: an optional sign, then one or more
/// decimal digits, with the value in range; the parsed value, or nothing.
pub open spec fn spec_parse_i32(s: Seq<char>) -> Option<int> {
    let signed = s.len() > 0 && (s[0] == '+' || s[0] == '-');
    let body = if signed { s.subrange(1, s.len() as int) } else { s };
    let neg = s.len() > 0 && s[0] == '-';
    if all_digits(body) {
        let v = if neg { -(digits_val(body) as int) } else { digits_val(body) as int };
        if -0x8000_0000 <= v <= 0x7fff_ffff { Some(v) } else { None }
    } else {
        None
    }
}

/// Parses a signed 32-bit integer, exactly as `str::parse::<i32>` does.
pub fn parse_i32(s: &str) -> (r: Option<i32>)
    ensures
        match r {
            Some(v) => spec_parse_i32(s@) == Some(v as int),
            None => spec_parse_i32(s@) is None,
        },
{
    let len = s.unicode_len();
    if len == 0 {
        return None;
    }
    let first = s.get_char(0);
    let signed = first == '+' || first == '-';
    let neg = first == '-';
    let start: usize = if signed { 1 } else { 0 };
    let ghost body = if signed { s@.subrange(1, s@.len() as int) } else { s@ };
    if start == len {
        assert(!all_digits(body));
        return None;
    }
    let mut i: usize = start;
    let mut acc: i64 = 0;
    let mut over: bool = false;
    // One past the largest magnitude a parse can still accept.
    let bound: i64 = 0x8000_0000;
    while i < len
        invariant
            start <= i <= len,
            len == s@.len(),
            start == if signed { 1int } else { 0int },
            body == if signed { s@.subrange(1, s@.len() as int) } else { s@ },
            start < len,
            signed == (s@[0] == '+' || s@[0] == '-'),
            neg == (s@[0] == '-'),
            forall|j: int| 0 <= j < i - start ==> is_digit(#[trigger] body[j]),
            0 <= acc <= bound,
            bound == 0x8000_0000,
            !over ==> acc == digits_val(body.take(i - start)),
            over ==> digits_val(body.take(i - start)) > bound as nat,
        decreases len - i,
    {
        let c = s.get_char(i);
        let d: i64 = match c {
            '0' => 0,
            '1' => 1,
            '2' => 2,
            '3' => 3,
            '4' => 4,
            '5' => 5,
            '6' => 6,
            '7' => 7,
            '8' => 8,
            '9' => 9,
            _ => {
                assert(!is_digit(body[i - start]));
                assert(!all_digits(body));
                return None;
            },
        };
        assert(is_digit(body[i - start]) && digit_val(body[i - start]) == d);
        proof {
            let pre = body.take(i - start);
            let post = body.take(i + 1 - start);
            assert(post.drop_last() =~= pre);
            assert(post.last() == body[i - start]);
            assert(digits_val(post) == digits_val(pre) * 10 + d);
        }
        if !over {
            let n = acc * 10 + d;
            if n > bound {
                over = true;
            } else {
                acc = n;
            }
        }
        i += 1;
    }
    assert(body.take(i - start) =~= body);
    assert(all_digits(body));
    if over {
        return None;
    }
    if neg {
        if acc == bound {
            return Some(-0x8000_0000i32);
        }
        let v: i64 = -acc;
        return Some(v as i32);
    }
    if acc == bound {
        return None;
    }
    Some(acc as i32)
}

/// The position of the first occurrence, or minus one.
pub open spec fn first_idx(s: Seq<char>, c: char) -> int
    decreases s.len(),
{
    if s.len() == 0 {
        -1
    } else if s[0] == c {
        0
    } else {
        let r = first_idx(s.drop_first(), c);
        if r < 0 {
            -1
        } else {
            r + 1
        }
    }
}

pub proof fn lemma_first_idx(s: Seq<char>, c: char)
    ensures
        -1 <= first_idx(s, c) < s.len(),
        first_idx(s, c) >= 0 ==> s[first_idx(s, c)] == c,
        forall|j: int| 0 <= j < first_idx(s, c) ==> s[j] != c,
        first_idx(s, c) == -1 ==> forall|j: int| 0 <= j < s.len() ==> s[j] != c,
    decreases s.len(),
{
    if s.len() > 0 && s[0] != c {
        let t = s.drop_first();
        lemma_first_idx(t, c);
        if first_idx(s, c) >= 0 {
            assert(s[first_idx(s, c)] == t[first_idx(s, c) - 1]);
        }
        assert forall|j: int| 0 <= j < first_idx(s, c) implies s[j] != c by {
            if j > 0 {
                assert(t[j - 1] == s[j]);
            }
        }
        if first_idx(s, c) == -1 {
            assert forall|j: int| 0 <= j < s.len() implies s[j] != c by {
                if j > 0 {
                    assert(t[j - 1] == s[j]);
                }
            }
        }
    }
}

/// Finds the first occurrence of a character.
pub fn find_first(s: &str, c: char) -> (r: Option<usize>)
    ensures
        match r {
            Some(i) => i < s@.len() && first_idx(s@, c) == i as int,
            None => first_idx(s@, c) == -1,
        },
{
    let len = s.unicode_len();
    let mut i: usize = 0;
    while i < len
        invariant
            0 <= i <= len,
            len == s@.len(),
            forall|j: int| 0 <= j < i ==> s@[j] != c,
        decreases len - i,
    {
        if s.get_char(i) == c {
            proof {
                lemma_first_idx(s@, c);
                if first_idx(s@, c) == -1 {
                    assert(s@[i as int] != c);
                } else if first_idx(s@, c) < i as int {
                    assert(s@[first_idx(s@, c)] != c);
                } else if first_idx(s@, c) > i as int {
                    assert(s@[i as int] != c);
                }
            }
            return Some(i);
        }
        i += 1;
    }
    proof {
        lemma_first_idx(s@, c);
        if first_idx(s@, c) >= 0 {
            assert(s@[first_idx(s@, c)] != c);
        }
    }
    None
}

/// A line without its trailing carriage return.
pub open spec fn strip_cr(l: Seq<char>) -> Seq<char> {
    if l.len() > 0 && l.last() == '\r' {
        l.drop_last()
    } else {
        l
    }
}

/// The lines of a text, as `str::lines` yields them: split at every
/// newline, a carriage return before it removed, and no empty line
/// after a terminating newline.
pub open spec fn spec_lines(s: Seq<char>) -> Seq<Seq<char>>
    decreases s.len(),
{
    if s.len() == 0 {
        Seq::empty()
    } else {
        let k = first_idx(s, '\n');
        if k < 0 || k + 1 > s.len() {
            seq![strip_cr(s)]
        } else {
            seq![strip_cr(s.subrange(0, k))] + spec_lines(s.subrange(k + 1, s.len() as int))
        }
    }
}

/// Splits a text into lines, exactly as `str::lines` does.
pub fn lines_of(s: &str) -> (r: Vec<String>)
    ensures
        r.deep_view() =~= spec_lines(s@),
    decreases s@.len(),
{
    let len = s.unicode_len();
    if len == 0 {
        return Vec::new();
    }
    proof {
        lemma_first_idx(s@, '\n');
    }
    match find_first(s, '\n') {
        None => {
            let line = if len > 0 && s.get_char(len - 1) == '\r' {
                s.substring_char(0, len - 1)
            } else {
                s.substring_char(0, len)
            };
            proof {
                if len > 0 && s@[len - 1] == '\r' {
                    assert(s@.subrange(0, len - 1) =~= s@.drop_last());
                } else {
                    assert(s@.subrange(0, len as int) =~= s@);
                }
                assert(line@ =~= strip_cr(s@));
            }
            let mut out: Vec<String> = Vec::new();
            out.push(String::from_str(line));
            assert(out.deep_view() =~= spec_lines(s@));
            out
        },
        Some(k) => {
            let line = if k > 0 && s.get_char(k - 1) == '\r' {
                s.substring_char(0, k - 1)
            } else {
                s.substring_char(0, k)
            };
            proof {
                if k > 0 && s@[k - 1] == '\r' {
                    assert(s@.subrange(0, k as int).last() == s@[k - 1]);
                    assert(s@.subrange(0, k as int).drop_last() =~= s@.subrange(0, k - 1));
                } else if k > 0 {
                    assert(s@.subrange(0, k as int).last() == s@[k - 1]);
                }
                assert(line@ =~= strip_cr(s@.subrange(0, k as int)));
            }
            let rest = s.substring_char(k + 1, len);
            let tail = lines_of(rest);
            let ghost head = strip_cr(s@.subrange(0, k as int));
            let mut out: Vec<String> = Vec::new();
            out.push(String::from_str(line));
            let mut t = tail;
            let mut i: usize = 0;
            let n = t.len();
            while i < n
                invariant
                    0 <= i <= n,
                    k < s@.len(),
                    n == t@.len(),
                    head == strip_cr(s@.subrange(0, k as int)),
                    t.deep_view() =~= spec_lines(s@.subrange(k as int + 1, s@.len() as int)),
                    out.deep_view() =~= seq![head] + t.deep_view().take(i as int),
                decreases n - i,
            {
                let item = t[i].clone();
                proof {
                    assert(item@ == t@[i as int]@);
                    assert(t.deep_view()[i as int] == t@[i as int]@);
                }
                let ghost out0 = out.deep_view();
                out.push(item);
                proof {
                    assert(out0.len() == i + 1);
                    assert(out@.len() == i + 2);
                    assert(out.deep_view().len() == i + 2);
                    assert((seq![head] + t.deep_view().take(i + 1)).len() == i + 2);
                    assert forall|j: int|
                        0 <= j < out.deep_view().len() implies out.deep_view()[j] == (seq![head]
                        + t.deep_view().take(i + 1))[j] by {
                        if j < out0.len() {
                            assert(out.deep_view()[j] == out0[j]);
                            assert(out0[j] == (seq![head] + t.deep_view().take(i as int))[j]);
                            if j >= 1 {
                                assert((seq![head] + t.deep_view().take(i as int))[j]
                                    == t.deep_view()[j - 1]);
                                assert((seq![head] + t.deep_view().take(i + 1))[j]
                                    == t.deep_view()[j - 1]);
                            }
                        } else {
                            assert(out.deep_view()[j] == item@);
                            assert((seq![head] + t.deep_view().take(i + 1))[j] == t.deep_view()[
                                i as int
                            ]);
                        }
                    }
                    assert(out.deep_view() =~= seq![head] + t.deep_view().take(i + 1));
                }
                i += 1;
            }
            proof {
                assert(t.deep_view().take(n as int) =~= t.deep_view());
                assert(out.deep_view() =~= seq![head] + spec_lines(
                    s@.subrange(k as int + 1, s@.len() as int),
                ));
            }
            out
        },
    }
}

/// Moves every string of `src` to the end of `dst`, in order.
pub fn append_all(dst: &mut Vec<String>, src: Vec<String>)
    ensures
        final(dst).deep_view() =~= old(dst).deep_view() + src.deep_view(),
{
    let t = src;
    let n = t.len();
    let mut i: usize = 0;
    while i < n
        invariant
            0 <= i <= n,
            n == t@.len(),
            dst.deep_view() =~= old(dst).deep_view() + t.deep_view().take(i as int),
        decreases n - i,
    {
        let item = t[i].clone();
        proof {
            assert(item@ == t@[i as int]@);
            assert(t.deep_view()[i as int] == t@[i as int]@);
        }
        let ghost d0 = dst.deep_view();
        dst.push(item);
        proof {
            assert(d0.len() == old(dst).deep_view().len() + i);
            assert(dst@.len() == d0.len() + 1);
            assert forall|j: int|
                0 <= j < dst.deep_view().len() implies dst.deep_view()[j] == (old(
                dst,
            ).deep_view() + t.deep_view().take(i + 1))[j] by {
                if j < d0.len() {
                    assert(dst.deep_view()[j] == d0[j]);
                } else {
                    assert(dst.deep_view()[j] == item@);
                }
            }
            assert(dst.deep_view() =~= old(dst).deep_view() + t.deep_view().take(i + 1));
        }
        i += 1;
    }
    proof {
        assert(t.deep_view().take(n as int) =~= t.deep_view());
    }
}

/// The position of the first whitespace character, or minus one.
pub open spec fn first_space(s: Seq<char>) -> int
    decreases s.len(),
{
    if s.len() == 0 {
        -1
    } else if is_space(s[0]) {
        0
    } else {
        let r = first_space(s.drop_first());
        if r < 0 {
            -1
        } else {
            r + 1
        }
    }
}

pub proof fn lemma_first_space(s: Seq<char>)
    ensures
        -1 <= first_space(s) < s.len(),
        first_space(s) >= 0 ==> is_space(s[first_space(s)]),
        forall|j: int| 0 <= j < first_space(s) ==> !is_space(s[j]),
        first_space(s) == -1 ==> forall|j: int| 0 <= j < s.len() ==> !is_space(s[j]),
    decreases s.len(),
{
    if s.len() > 0 && !is_space(s[0]) {
        let t = s.drop_first();
        lemma_first_space(t);
        if first_space(s) >= 0 {
            assert(s[first_space(s)] == t[first_space(s) - 1]);
        }
        assert forall|j: int| 0 <= j < first_space(s) implies !is_space(s[j]) by {
            if j > 0 {
                assert(t[j - 1] == s[j]);
            }
        }
        if first_space(s) == -1 {
            assert forall|j: int| 0 <= j < s.len() implies !is_space(s[j]) by {
                if j > 0 {
                    assert(t[j - 1] == s[j]);
                }
            }
        }
    }
}

fn find_first_space(s: &str) -> (r: Option<usize>)
    ensures
        match r {
            Some(i) => i < s@.len() && first_space(s@) == i as int,
            None => first_space(s@) == -1,
        },
{
    let len = s.unicode_len();
    let mut i: usize = 0;
    while i < len
        invariant
            0 <= i <= len,
            len == s@.len(),
            forall|j: int| 0 <= j < i ==> !is_space(s@[j]),
        decreases len - i,
    {
        if is_space_exec(s.get_char(i)) {
            proof {
                lemma_first_space(s@);
                if first_space(s@) == -1 {
                    assert(!is_space(s@[i as int]));
                } else if first_space(s@) < i as int {
                    assert(!is_space(s@[first_space(s@)]));
                } else if first_space(s@) > i as int {
                    assert(!is_space(s@[i as int]));
                }
            }
            return Some(i);
        }
        i += 1;
    }
    proof {
        lemma_first_space(s@);
        if first_space(s@) >= 0 {
            assert(!is_space(s@[first_space(s@)]));
        }
    }
    None
}

/// The whitespace-separated tokens of a text, as `str::split_whitespace`
/// yields them: maximal nonempty runs of non-whitespace.
pub open spec fn spec_ws_tokens(s: Seq<char>) -> Seq<Seq<char>>
    decreases s.len(),
{
    if s.len() == 0 {
        Seq::empty()
    } else if is_space(s[0]) {
        spec_ws_tokens(s.drop_first())
    } else {
        let k = first_space(s);
        if k < 1 || k > s.len() {
            seq![s]
        } else {
            seq![s.subrange(0, k)] + spec_ws_tokens(s.subrange(k, s.len() as int))
        }
    }
}

/// Splits a text into whitespace-separated tokens, exactly as
/// `str::split_whitespace` does.
pub fn ws_tokens(s: &str) -> (r: Vec<String>)
    ensures
        r.deep_view() =~= spec_ws_tokens(s@),
    decreases s@.len(),
{
    let len = s.unicode_len();
    if len == 0 {
        return Vec::new();
    }
    if is_space_exec(s.get_char(0)) {
        let rest = s.substring_char(1, len);
        proof {
            assert(rest@ =~= s@.drop_first());
        }
        return ws_tokens(rest);
    }
    proof {
        lemma_first_space(s@);
    }
    match find_first_space(s) {
        None => {
            let mut out: Vec<String> = Vec::new();
            out.push(String::from_str(s));
            assert(out.deep_view() =~= spec_ws_tokens(s@));
            out
        },
        Some(k) => {
            let head = s.substring_char(0, k);
            let rest = s.substring_char(k, len);
            let tail = ws_tokens(rest);
            let mut out: Vec<String> = Vec::new();
            out.push(String::from_str(head));
            append_all(&mut out, tail);
            assert(out.deep_view() =~= spec_ws_tokens(s@));
            out
        },
    }
}

/// The characters `str::trim` removes: Unicode whitespace.
pub open spec fn is_space(c: char) -> bool {
    c == ' ' || c == '\t' || c == '\n' || c == '\u{b}' || c == '\u{c}' || c == '\r'
        || c == '\u{85}' || c == '\u{a0}' || c == '\u{1680}' || c == '\u{2000}' || c == '\u{2001}'
        || c == '\u{2002}' || c == '\u{2003}' || c == '\u{2004}' || c == '\u{2005}'
        || c == '\u{2006}' || c == '\u{2007}' || c == '\u{2008}' || c == '\u{2009}'
        || c == '\u{200a}' || c == '\u{2028}' || c == '\u{2029}' || c == '\u{202f}'
        || c == '\u{205f}' || c == '\u{3000}'
}

fn is_space_exec(c: char) -> (r: bool)
    ensures
        r == is_space(c),
{
    match c {
        ' ' | '\t' | '\n' | '\u{b}' | '\u{c}' | '\r' | '\u{85}' | '\u{a0}' | '\u{1680}'
        | '\u{2000}' | '\u{2001}' | '\u{2002}' | '\u{2003}' | '\u{2004}' | '\u{2005}'
        | '\u{2006}' | '\u{2007}' | '\u{2008}' | '\u{2009}' | '\u{200a}' | '\u{2028}'
        | '\u{2029}' | '\u{202f}' | '\u{205f}' | '\u{3000}' => true,
        _ => false,
    }
}

/// A sequence without its leading whitespace.
pub open spec fn trim_front(s: Seq<char>) -> Seq<char>
    decreases s.len(),
{
    if s.len() > 0 && is_space(s[0]) {
        trim_front(s.drop_first())
    } else {
        s
    }
}

/// A sequence without its trailing whitespace.
pub open spec fn trim_back(s: Seq<char>) -> Seq<char>
    decreases s.len(),
{
    if s.len() > 0 && is_space(s.last()) {
        trim_back(s.drop_last())
    } else {
        s
    }
}

/// What `str::trim` leaves: the sequence without whitespace at both ends.
pub open spec fn spec_trim(s: Seq<char>) -> Seq<char> {
    trim_back(trim_front(s))
}

proof fn lemma_trim_front_range(s: Seq<char>, i: int)
    requires
        0 <= i <= s.len(),
        forall|j: int| 0 <= j < i ==> is_space(#[trigger] s[j]),
        i == s.len() || !is_space(s[i]),
    ensures
        trim_front(s) =~= s.subrange(i, s.len() as int),
    decreases i,
{
    if i == 0 {
        if s.len() > 0 {
            assert(!is_space(s[0]));
        }
        assert(trim_front(s) == s);
        assert(s =~= s.subrange(0, s.len() as int));
    } else {
        assert(is_space(s[0]));
        let t = s.drop_first();
        assert(forall|j: int| 0 <= j < i - 1 ==> is_space(#[trigger] t[j]));
        lemma_trim_front_range(t, i - 1);
        assert(t.subrange(i - 1, t.len() as int) =~= s.subrange(i, s.len() as int));
    }
}

proof fn lemma_trim_back_range(s: Seq<char>, i: int)
    requires
        0 <= i <= s.len(),
        forall|j: int| i <= j < s.len() ==> is_space(#[trigger] s[j]),
        i == 0 || !is_space(s[i - 1]),
    ensures
        trim_back(s) =~= s.subrange(0, i),
    decreases s.len() - i,
{
    if i == s.len() {
        if s.len() > 0 {
            assert(!is_space(s.last()));
        }
        assert(trim_back(s) == s);
        assert(s =~= s.subrange(0, s.len() as int));
    } else {
        assert(is_space(s.last()));
        let t = s.drop_last();
        lemma_trim_back_range(t, i);
        assert(t.subrange(0, i) =~= s.subrange(0, i));
    }
}

/// Trims whitespace from both ends, exactly as `str::trim` does.
pub fn trim_str(s: &str) -> (r: String)
    ensures
        r@ == spec_trim(s@),
{
    let len = s.unicode_len();
    let mut lo: usize = 0;
    while lo < len && is_space_exec(s.get_char(lo))
        invariant
            0 <= lo <= len,
            len == s@.len(),
            forall|j: int| 0 <= j < lo ==> is_space(#[trigger] s@[j]),
        decreases len - lo,
    {
        lo += 1;
    }
    proof {
        lemma_trim_front_range(s@, lo as int);
    }
    let mut hi: usize = len;
    while hi > lo && is_space_exec(s.get_char(hi - 1))
        invariant
            lo <= hi <= len,
            len == s@.len(),
            forall|j: int| hi <= j < len ==> is_space(#[trigger] s@[j]),
        decreases hi,
    {
        hi -= 1;
    }
    let ghost front = s@.subrange(lo as int, len as int);
    proof {
        assert(forall|j: int| hi - lo <= j < front.len() ==> is_space(#[trigger] front[j]));
        if hi > lo {
            assert(front[hi - lo - 1] == s@[hi - 1]);
        }
        lemma_trim_back_range(front, hi - lo);
    }
    let part = s.substring_char(lo, hi);
    proof {
        assert(front.subrange(0, hi - lo) =~= s@.subrange(lo as int, hi as int));
    }
    String::from_str(part)
}

} // verus!
