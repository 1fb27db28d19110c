//! Decimal text: the canonical decimal rendering of a number, the value of a
//! digit string, and the executable conversions between the two. These carry
//! the address and cidr halves of `A.B.C.D/N`, the quota values written into
//! cgroup files, and the numeric fields of a user database.

use vstd::prelude::*;

verus! {

use vstd::arithmetic::div_mod::{
    lemma_fundamental_div_mod,
    lemma_mod_division_less_than_divisor,
    lemma_div_pos_is_pos,
    lemma_div_decreases,
};

/// The characters `'0'` through `'9'`.
pub open spec fn is_digit(c: char) -> bool {
    48 <= c as int && c as int <= 57
}

/// The numeric value of a digit character; 0 on any other character.
pub open spec fn digit_val(c: char) -> nat {
    if is_digit(c) {
        (c as int - 48) as nat
    } else {
        0
    }
}

/// The digit character for a value below ten.
pub open spec fn digit_char(d: nat) -> char {
    if d == 0 {
        '0'
    } else if d == 1 {
        '1'
    } else if d == 2 {
        '2'
    } else if d == 3 {
        '3'
    } else if d == 4 {
        '4'
    } else if d == 5 {
        '5'
    } else if d == 6 {
        '6'
    } else if d == 7 {
        '7'
    } else if d == 8 {
        '8'
    } else {
        '9'
    }
}

/// The canonical decimal rendering of `n`: no sign, no leading zero.
pub open spec fn dec_str(n: nat) -> Seq<char>
    decreases n,
{
    if n < 10 {
        seq![digit_char(n)]
    } else {
        dec_str(n / 10).push(digit_char(n % 10))
    }
}

/// A non-empty string of decimal digits.
pub open spec fn is_dec_digits(s: Seq<char>) -> bool {
    s.len() > 0 && forall|i: int| 0 <= i < s.len() ==> is_digit(s[i])
}

/// The number a digit string stands for, read most significant digit first.
pub open spec fn dec_val(s: Seq<char>) -> nat
    decreases s.len(),
{
    if s.len() == 0 {
        0
    } else {
        dec_val(s.drop_last()) * 10 + digit_val(s.last())
    }
}

pub proof fn lemma_digit_char_val(d: nat)
    requires
        d < 10,
    ensures
        is_digit(digit_char(d)),
        digit_val(digit_char(d)) == d,
{
}

/// `dec_str(n)` is made of digits and never starts with a superfluous zero.
pub proof fn lemma_dec_str_wf(n: nat)
    ensures
        is_dec_digits(dec_str(n)),
        n >= 10 ==> dec_str(n)[0] != '0',
        n < 10 ==> dec_str(n).len() == 1,
        n == 0 <==> dec_str(n) == seq!['0'],
    decreases n,
{
    if n < 10 {
        lemma_digit_char_val(n);
        if n == 0 {
            assert(dec_str(n) =~= seq!['0']);
        } else {
            assert(dec_str(n)[0] == digit_char(n));
            assert(dec_str(0) =~= seq!['0']);
        }
    } else {
        lemma_div_pos_is_pos(n as int, 10);
        lemma_mod_division_less_than_divisor(n as int, 10);
        lemma_dec_str_wf(n / 10);
        lemma_digit_char_val(n % 10);
        let prefix = dec_str(n / 10);
        let whole = prefix.push(digit_char(n % 10));
        assert(forall|i: int|
            0 <= i < whole.len() ==> is_digit(#[trigger] whole[i])) by {
            assert(forall|i: int| 0 <= i < prefix.len() ==> is_digit(#[trigger] prefix[i]));
        }
        assert(whole[0] == prefix[0]);
        if n / 10 >= 10 {
            assert(prefix[0] != '0');
        } else {
            assert(n / 10 >= 1);
            assert(prefix[0] == digit_char((n / 10) as nat));
        }
        assert(dec_str(n)[0] != '0');
        assert(dec_str(n).len() >= 2);
        assert(seq!['0'].len() == 1);
    }
}

/// Reading back the canonical rendering yields the number itself.
pub proof fn lemma_dec_val_of_dec_str(n: nat)
    ensures
        dec_val(dec_str(n)) == n,
    decreases n,
{
    if n < 10 {
        lemma_digit_char_val(n);
        let s = dec_str(n);
        assert(s.drop_last() =~= Seq::<char>::empty());
        assert(s.last() == digit_char(n));
        assert(dec_val(Seq::<char>::empty()) == 0);
        assert(dec_val(s) == dec_val(s.drop_last()) * 10 + digit_val(s.last()));
        assert(dec_val(s) == digit_val(digit_char(n)));
    } else {
        lemma_div_decreases(n as int, 10);
        lemma_dec_val_of_dec_str(n / 10);
        lemma_digit_char_val(n % 10);
        lemma_mod_division_less_than_divisor(n as int, 10);
        let prefix = dec_str(n / 10);
        let whole = prefix.push(digit_char(n % 10));
        assert(whole.drop_last() =~= prefix);
        assert(whole.last() == digit_char(n % 10));
        assert(dec_val(whole) == (n / 10) * 10 + n % 10);
        lemma_fundamental_div_mod(n as int, 10);
    }
}

/// The value of a digit string only grows as more digits are read.
pub proof fn lemma_dec_val_prefix_grows(s: Seq<char>, i: int, j: int)
    requires
        0 <= i <= j <= s.len(),
    ensures
        dec_val(s.subrange(0, i)) <= dec_val(s.subrange(0, j)),
    decreases j - i,
{
    if i < j {
        lemma_dec_val_prefix_grows(s, i, j - 1);
        let shorter = s.subrange(0, j - 1);
        let longer = s.subrange(0, j);
        assert(longer.drop_last() =~= shorter);
        assert(dec_val(longer) == dec_val(shorter) * 10 + digit_val(longer.last()));
    }
}

/// A digit string read in full is read through all its prefixes.
pub proof fn lemma_dec_val_full(s: Seq<char>)
    ensures
        dec_val(s.subrange(0, s.len() as int)) == dec_val(s),
{
    assert(s.subrange(0, s.len() as int) =~= s);
}

/// The single-character string for a digit value.
pub fn digit_to_string(d: u32) -> (r: String)
    requires
        d < 10,
    ensures
        r@ =~= seq![digit_char(d as nat)],
{
    let r = if d == 0 {
        String::from_str("0")
    } else if d == 1 {
        String::from_str("1")
    } else if d == 2 {
        String::from_str("2")
    } else if d == 3 {
        String::from_str("3")
    } else if d == 4 {
        String::from_str("4")
    } else if d == 5 {
        String::from_str("5")
    } else if d == 6 {
        String::from_str("6")
    } else if d == 7 {
        String::from_str("7")
    } else if d == 8 {
        String::from_str("8")
    } else {
        String::from_str("9")
    };
    proof {
        reveal_strlit("0");
        reveal_strlit("1");
        reveal_strlit("2");
        reveal_strlit("3");
        reveal_strlit("4");
        reveal_strlit("5");
        reveal_strlit("6");
        reveal_strlit("7");
        reveal_strlit("8");
        reveal_strlit("9");
    }
    r
}

/// Renders `n` in canonical decimal.
pub fn u32_to_dec_string(n: u32) -> (r: String)
    ensures
        r@ == dec_str(n as nat),
    decreases n,
{
    if n < 10 {
        let r = digit_to_string(n);
        assert(r@ =~= dec_str(n as nat));
        r
    } else {
        let mut r = u32_to_dec_string(n / 10);
        let last = digit_to_string(n % 10);
        r.append(last.as_str());
        proof {
            assert(r@ =~= dec_str(n as nat)) by {
                assert(r@ == dec_str((n / 10) as nat) + seq![digit_char((n % 10) as nat)]);
                assert(dec_str(n as nat) == dec_str((n as nat) / 10).push(digit_char((n as nat) % 10)));
                assert(dec_str((n as nat) / 10).push(digit_char((n as nat) % 10)) =~= dec_str(
                    (n as nat) / 10,
                ) + seq![digit_char((n as nat) % 10)]);
            }
        }
        r
    }
}

/// Reads a digit string worth at most `max`; `None` on anything else.
pub fn parse_u32_digits(s: &str, max: u32) -> (r: Option<u32>)
    requires
        max <= 0xFFFF,
    ensures
        match r {
            Some(v) => is_dec_digits(s@) && dec_val(s@) == v && v <= max,
            None => !is_dec_digits(s@) || dec_val(s@) > max,
        },
{
    match parse_u64_digits(s, max as u64) {
        Some(v) => Some(v as u32),
        None => None,
    }
}

/// Reads a digit string worth at most `max`; `None` on anything else.
pub fn parse_u64_digits(s: &str, max: u64) -> (r: Option<u64>)
    requires
        max <= 0xFFFF_FFFF,
    ensures
        match r {
            Some(v) => is_dec_digits(s@) && dec_val(s@) == v && v <= max,
            None => !is_dec_digits(s@) || dec_val(s@) > max,
        },
{
    let n = s.unicode_len();
    if n == 0 {
        return None;
    }
    let mut acc: u64 = 0;
    let mut i: usize = 0;
    while i < n
        invariant
            0 <= i <= n,
            n == s@.len(),
            max <= 0xFFFF_FFFF,
            acc == dec_val(s@.subrange(0, i as int)),
            acc <= max,
            forall|j: int| 0 <= j < i ==> is_digit(s@[j]),
        decreases n - i,
    {
        let c = s.get_char(i);
        let v = c as u32;
        if v < 48 || v > 57 {
            return None;
        }
        let ghost prefix = s@.subrange(0, i as int);
        let ghost longer = s@.subrange(0, i as int + 1);
        proof {
            assert(longer.drop_last() =~= prefix);
            assert(longer.last() == s@[i as int]);
            assert(digit_val(s@[i as int]) == v - 48);
            assert(dec_val(longer) == acc * 10 + (v - 48));
        }
        let next = acc * 10 + ((v - 48) as u64);
        if next > max {
            proof {
                lemma_dec_val_prefix_grows(s@, i as int + 1, s@.len() as int);
                lemma_dec_val_full(s@);
            }
            return None;
        }
        acc = next;
        i = i + 1;
    }
    proof {
        lemma_dec_val_full(s@);
    }
    Some(acc)
}

/// The index of the first occurrence of `c` in `s`, or -1.
pub open spec fn find_char(s: Seq<char>, c: char) -> int
    decreases s.len(),
{
    if s.len() == 0 {
        -1
    } else if s[0] == c {
        0
    } else {
        let r = find_char(s.subrange(1, s.len() as int), c);
        if r < 0 {
            -1
        } else {
            r + 1
        }
    }
}

pub proof fn lemma_find_char(s: Seq<char>, c: char)
    ensures
        find_char(s, c) == -1 ==> forall|i: int| 0 <= i < s.len() ==> s[i] != c,
        find_char(s, c) != -1 ==> {
            &&& 0 <= find_char(s, c) < s.len()
            &&& s[find_char(s, c)] == c
            &&& forall|i: int| 0 <= i < find_char(s, c) ==> s[i] != c
        },
    decreases s.len(),
{
    if s.len() == 0 {
    } else if s[0] == c {
    } else {
        let tail = s.subrange(1, s.len() as int);
        lemma_find_char(tail, c);
        assert(forall|i: int| 1 <= i < s.len() ==> s[i] == tail[i - 1]);
        let r = find_char(tail, c);
        if r >= 0 {
            assert(s[r + 1] == tail[r]);
            assert forall|i: int| 0 <= i < r + 1 implies s[i] != c by {
                if i >= 1 {
                    assert(s[i] == tail[i - 1]);
                }
            }
        }
    }
}

/// Looks for the first occurrence of `c` in `s`.
pub fn find_char_in(s: &str, c: char) -> (r: Option<usize>)
    ensures
        match r {
            Some(i) => find_char(s@, c) == i,
            None => find_char(s@, c) == -1,
        },
{
    let n = s.unicode_len();
    let mut i: usize = 0;
    while i < n
        invariant
            0 <= i <= n,
            n == s@.len(),
            forall|j: int| 0 <= j < i ==> s@[j] != c,
        decreases n - i,
    {
        if s.get_char(i) == c {
            proof {
                lemma_find_char(s@, c);
            }
            return Some(i);
        }
        i = i + 1;
    }
    proof {
        lemma_find_char(s@, c);
    }
    None
}

/// `s` split at every occurrence of `c`; the separators are dropped and the
/// pieces, possibly empty, are kept in order.
pub open spec fn split_on(s: Seq<char>, c: char) -> Seq<Seq<char>>
    decreases s.len(),
{
    let i = find_char(s, c);
    if 0 <= i < s.len() {
        seq![s.subrange(0, i)] + split_on(s.subrange(i + 1, s.len() as int), c)
    } else {
        seq![s]
    }
}

/// Splits `s` at every occurrence of `c`.
pub fn split_on_char(s: &str, c: char) -> (r: Vec<String>)
    ensures
        r.deep_view() == split_on(s@, c),
{
    let mut parts: Vec<String> = Vec::new();
    let mut rest: &str = s;
    loop
        invariant
            split_on(s@, c) == parts.deep_view() + split_on(rest@, c),
        decreases rest@.len(),
    {
        proof {
            lemma_find_char(rest@, c);
        }
        match find_char_in(rest, c) {
            Some(i) => {
                let ghost old_rest = rest@;
                let ghost old_parts = parts.deep_view();
                let n = rest.unicode_len();
                let piece = rest.substring_char(0, i);
                parts.push(String::from_str(piece));
                rest = rest.substring_char(i + 1, n);
                proof {
                    assert(split_on(old_rest, c) == seq![old_rest.subrange(0, i as int)]
                        + split_on(old_rest.subrange(i + 1, old_rest.len() as int), c));
                    assert(parts.deep_view() =~= old_parts + seq![old_rest.subrange(0, i as int)]);
                    assert(parts.deep_view() + split_on(rest@, c) =~= split_on(s@, c));
                }
            },
            None => {
                let ghost old_parts = parts.deep_view();
                parts.push(String::from_str(rest));
                proof {
                    assert(split_on(rest@, c) == seq![rest@]);
                    assert(parts.deep_view() =~= old_parts + seq![rest@]);
                    assert(parts.deep_view() =~= split_on(s@, c));
                }
                return parts;
            },
        }
    }
}

/// Concatenation keeps freedom from a character.
pub proof fn lemma_concat_no_char(a: Seq<char>, b: Seq<char>, c: char)
    requires
        forall|i: int| 0 <= i < a.len() ==> a[i] != c,
        forall|i: int| 0 <= i < b.len() ==> b[i] != c,
    ensures
        forall|i: int| 0 <= i < (a + b).len() ==> (a + b)[i] != c,
{
    assert forall|i: int| 0 <= i < (a + b).len() implies (a + b)[i] != c by {
        if i < a.len() {
            assert((a + b)[i] == a[i]);
        } else {
            assert((a + b)[i] == b[i - a.len()]);
        }
    }
}

/// A string free of the separator splits into itself alone.
pub proof fn lemma_split_on_no_sep(a: Seq<char>, c: char)
    requires
        forall|i: int| 0 <= i < a.len() ==> a[i] != c,
    ensures
        split_on(a, c) == seq![a],
{
    lemma_find_char(a, c);
    if find_char(a, c) != -1 {
        assert(a[find_char(a, c)] == c);
    }
}

/// Splitting starts at the first separator when the part before it is
/// free of separators.
pub proof fn lemma_split_on_concat(a: Seq<char>, b: Seq<char>, c: char)
    requires
        forall|i: int| 0 <= i < a.len() ==> a[i] != c,
    ensures
        split_on(a + seq![c] + b, c) == seq![a] + split_on(b, c),
{
    let s = a + seq![c] + b;
    assert(s.len() == a.len() + 1 + b.len());
    assert(s[a.len() as int] == c);
    assert(forall|i: int| 0 <= i < a.len() ==> s[i] == a[i]);
    lemma_find_char(s, c);
    let fc = find_char(s, c);
    if fc == -1 {
        assert(s[a.len() as int] != c);
        assert(false);
    }
    if fc < a.len() {
        assert(s[fc] == a[fc]);
        assert(false);
    }
    if fc > a.len() {
        assert(s[a.len() as int] != c);
        assert(false);
    }
    assert(fc == a.len());
    assert(s.subrange(0, fc) =~= a);
    assert(s.subrange(fc + 1, s.len() as int) =~= b);
    assert(split_on(s, c) == seq![a] + split_on(b, c));
}

/// `p` stands at the front of `s`.
pub open spec fn has_prefix(s: Seq<char>, p: Seq<char>) -> bool {
    p.len() <= s.len() && s.subrange(0, p.len() as int) == p
}

/// Tests whether `s` starts with `p`.
pub fn starts_with(s: &str, p: &str) -> (r: bool)
    ensures
        r == has_prefix(s@, p@),
{
    let sn = s.unicode_len();
    let pn = p.unicode_len();
    if pn > sn {
        assert(!has_prefix(s@, p@));
        return false;
    }
    let mut i: usize = 0;
    while i < pn
        invariant
            0 <= i <= pn <= sn,
            sn == s@.len(),
            pn == p@.len(),
            forall|j: int| 0 <= j < i ==> s@[j] == p@[j],
        decreases pn - i,
    {
        if s.get_char(i) != p.get_char(i) {
            assert(s@.subrange(0, p@.len() as int)[i as int] != p@[i as int]);
            return false;
        }
        i = i + 1;
    }
    proof {
        assert(s@.subrange(0, p@.len() as int) =~= p@);
    }
    true
}

/// `needle` occurs somewhere inside `hay`.
pub open spec fn contains_seq(hay: Seq<char>, needle: Seq<char>) -> bool {
    exists|i: int|
        0 <= i <= hay.len() - needle.len() && #[trigger] hay.subrange(i, i + needle.len() as int)
            == needle
}

/// Tests whether `needle` occurs inside `hay`.
pub fn contains_str(hay: &str, needle: &str) -> (r: bool)
    ensures
        r == contains_seq(hay@, needle@),
{
    let hn = hay.unicode_len();
    let nn = needle.unicode_len();
    if nn > hn {
        return false;
    }
    if nn == 0 {
        proof {
            assert(contains_seq(hay@, needle@)) by {
                assert(hay@.subrange(0, 0 + needle@.len() as int) =~= needle@);
            }
        }
        return true;
    }
    let mut i: usize = 0;
    while i <= hn - nn
        invariant
            0 <= i <= hn - nn + 1,
            1 <= nn <= hn,
            hn == hay@.len(),
            nn == needle@.len(),
            forall|k: int| 0 <= k < i ==> #[trigger] hay@.subrange(k, k + needle@.len() as int) != needle@,
        decreases hn - i,
    {
        let mut j: usize = 0;
        let mut matched = true;
        while j < nn
            invariant
                0 <= j <= nn,
                0 <= i <= hn - nn,
                hn == hay@.len(),
                nn == needle@.len(),
                matched ==> forall|k: int| 0 <= k < j ==> hay@[i + k] == needle@[k],
                !matched ==> hay@.subrange(i as int, i + needle@.len() as int) != needle@,
            decreases nn - j,
        {
            if hay.get_char(i + j) != needle.get_char(j) {
                proof {
                    assert(hay@.subrange(i as int, i + needle@.len() as int)[j as int] == hay@[i
                        + j]);
                }
                matched = false;
                j = nn;
            } else {
                j = j + 1;
            }
        }
        if matched {
            proof {
                assert(hay@.subrange(i as int, i + needle@.len() as int) =~= needle@);
            }
            return true;
        }
        i = i + 1;
    }
    false
}

/// The decimal rendering of a signed value: a minus sign for a negative one.
pub open spec fn int_str(v: int) -> Seq<char> {
    if v < 0 {
        seq!['-'] + dec_str((-v) as nat)
    } else {
        dec_str(v as nat)
    }
}

/// Renders a signed value in canonical decimal.
pub fn i64_to_dec_string(v: i64) -> (r: String)
    ensures
        r@ == int_str(v as int),
{
    if v >= 0 {
        u64_to_dec_string(v as u64)
    } else {
        let magnitude: u64 = if v == i64::MIN {
            9223372036854775808u64
        } else {
            (-v) as u64
        };
        let mut r = String::from_str("-");
        let rendered = u64_to_dec_string(magnitude);
        r.append(rendered.as_str());
        proof {
            reveal_strlit("-");
            assert("-"@ =~= seq!['-']);
        }
        r
    }
}

/// Renders `n` in canonical decimal.
pub fn u64_to_dec_string(n: u64) -> (r: String)
    ensures
        r@ == dec_str(n as nat),
    decreases n,
{
    if n < 10 {
        let r = digit_to_string((n % 10) as u32);
        assert(r@ =~= dec_str(n as nat));
        r
    } else {
        let mut r = u64_to_dec_string(n / 10);
        let last = digit_to_string((n % 10) as u32);
        r.append(last.as_str());
        proof {
            assert(r@ =~= dec_str(n as nat)) by {
                assert(dec_str((n as nat) / 10).push(digit_char((n as nat) % 10)) =~= dec_str(
                    (n as nat) / 10,
                ) + seq![digit_char((n as nat) % 10)]);
            }
        }
        r
    }
}


/// What a signed 32-bit decimal may look like: an optional sign, then
/// digits, within the type's range.
pub open spec fn valid_i32_str(s: Seq<char>) -> bool {
    if s.len() > 0 && (s[0] == '-' || s[0] == '+') {
        let digits = s.subrange(1, s.len() as int);
        is_dec_digits(digits) && (if s[0] == '-' {
            dec_val(digits) <= 0x8000_0000
        } else {
            dec_val(digits) <= 0x7FFF_FFFF
        })
    } else {
        is_dec_digits(s) && dec_val(s) <= 0x7FFF_FFFF
    }
}

/// The value a signed decimal string stands for.
pub open spec fn i32_str_val(s: Seq<char>) -> int {
    if s.len() > 0 && s[0] == '-' {
        -(dec_val(s.subrange(1, s.len() as int)) as int)
    } else if s.len() > 0 && s[0] == '+' {
        dec_val(s.subrange(1, s.len() as int)) as int
    } else {
        dec_val(s) as int
    }
}

/// Reads a signed 32-bit decimal; `None` on anything else.
pub fn parse_i32(s: &str) -> (r: Option<i32>)
    ensures
        match r {
            Some(v) => valid_i32_str(s@) && i32_str_val(s@) == v,
            None => !valid_i32_str(s@),
        },
{
    let n = s.unicode_len();
    if n == 0 {
        return None;
    }
    let c0 = s.get_char(0);
    if c0 == '-' || c0 == '+' {
        let digits = s.substring_char(1, n);
        let max: u64 = if c0 == '-' {
            0x8000_0000
        } else {
            0x7FFF_FFFF
        };
        match parse_u64_digits(digits, max) {
            Some(m) => {
                if c0 == '-' {
                    if m == 0x8000_0000 {
                        Some(i32::MIN)
                    } else {
                        Some(-((m as u32) as i32))
                    }
                } else {
                    Some((m as u32) as i32)
                }
            },
            None => None,
        }
    } else {
        match parse_u64_digits(s, 0x7FFF_FFFF) {
            Some(m) => Some((m as u32) as i32),
            None => None,
        }
    }
}

/// One piece per line, the way a text file is read: a final newline ends
/// the last line rather than opening an empty one, and a carriage return
/// at the end of a line is dropped with the newline.
pub open spec fn strip_cr(l: Seq<char>) -> Seq<char> {
    if l.len() > 0 && l.last() == '\r' {
        l.drop_last()
    } else {
        l
    }
}

pub open spec fn lines_of(s: Seq<char>) -> Seq<Seq<char>> {
    let raw = split_on(s, '\n');
    let kept = if raw.len() > 0 && raw.last().len() == 0 {
        raw.drop_last()
    } else {
        raw
    };
    kept.map_values(|l: Seq<char>| strip_cr(l))
}

/// Splits `s` into its lines.
pub fn lines_of_str(s: &str) -> (r: Vec<String>)
    ensures
        r.deep_view() == lines_of(s@),
{
    let mut raw = split_on_char(s, '\n');
    let ghost raw0 = raw.deep_view();
    if raw.len() > 0 && raw[raw.len() - 1].as_str().unicode_len() == 0 {
        proof {
            assert(raw.deep_view()[raw@.len() - 1] == raw@[raw@.len() - 1]@);
        }
        raw.pop();
        proof {
            assert(raw.deep_view() =~= raw0.drop_last());
        }
    }
    let ghost kept = raw.deep_view();
    let mut out: Vec<String> = Vec::new();
    let mut i: usize = 0;
    while i < raw.len()
        invariant
            0 <= i <= raw@.len(),
            kept == raw.deep_view(),
            out.deep_view() =~= kept.subrange(0, i as int).map_values(
                |l: Seq<char>| strip_cr(l),
            ),
        decreases raw@.len() - i,
    {
        let line = &raw[i];
        let ln = line.as_str().unicode_len();
        proof {
            assert(raw.deep_view()[i as int] == raw@[i as int]@);
        }
        if ln > 0 && line.as_str().get_char(ln - 1) == '\r' {
            let stripped = line.as_str().substring_char(0, ln - 1);
            out.push(String::from_str(stripped));
            proof {
                assert(stripped@ =~= strip_cr(raw@[i as int]@));
            }
        } else {
            out.push(line.clone());
            proof {
                assert(raw@[i as int]@ =~= strip_cr(raw@[i as int]@));
            }
        }
        proof {
            assert(out.deep_view() =~= kept.subrange(0, i as int + 1).map_values(
                |l: Seq<char>| strip_cr(l),
            )) by {
                assert(kept.subrange(0, i as int + 1).map_values(|l: Seq<char>| strip_cr(l))
                    =~= kept.subrange(0, i as int).map_values(|l: Seq<char>| strip_cr(l)).push(
                    strip_cr(kept[i as int]),
                ));
            }
        }
        i = i + 1;
    }
    proof {
        assert(kept.subrange(0, kept.len() as int) =~= kept);
        assert(out.deep_view() =~= lines_of(s@));
    }
    out
}


/// Two path pieces joined with one separator.
pub open spec fn path_join(a: Seq<char>, b: Seq<char>) -> Seq<char> {
    a + seq!['/'] + b
}

/// Joins two path pieces with one separator.
pub fn join_path(a: &str, b: &str) -> (r: String)
    ensures
        r@ == path_join(a@, b@),
{
    let mut r = String::from_str(a);
    r.append("/");
    r.append(b);
    proof {
        reveal_strlit("/");
        assert("/"@ =~= seq!['/']);
        assert(r@ =~= path_join(a@, b@));
    }
    r
}

} // verus!
