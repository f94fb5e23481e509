//! Verified text helpers shared by the handle codec, the outcome model and
//! the progress renderer: ASCII-whitespace trimming, hexadecimal parsing and
//! rendering, and decimal rendering.

use vstd::prelude::*;
use vstd::string::StrSliceExecFns;

verus! {

/// The Unicode white-space class, the one `char::is_whitespace` tests.
pub open spec fn is_space_char(c: char) -> bool {
    ||| c == ' '
    ||| c == '\t'
    ||| c == '\n'
    ||| c == '\u{b}'
    ||| c == '\u{c}'
    ||| c == '\r'
    ||| c == '\u{85}'
    ||| c == '\u{a0}'
    ||| c == '\u{1680}'
    ||| (0x2000 <= c as u32 && c as u32 <= 0x200a)
    ||| c == '\u{2028}'
    ||| c == '\u{2029}'
    ||| c == '\u{202f}'
    ||| c == '\u{205f}'
    ||| c == '\u{3000}'
}

/// `s` without its leading whitespace.
pub open spec fn trim_start(s: Seq<char>) -> Seq<char>
    decreases s.len(),
{
    if s.len() > 0 && is_space_char(s[0]) {
        trim_start(s.drop_first())
    } else {
        s
    }
}

/// `s` without its trailing whitespace.
pub open spec fn trim_end(s: Seq<char>) -> Seq<char>
    decreases s.len(),
{
    if s.len() > 0 && is_space_char(s.last()) {
        trim_end(s.drop_last())
    } else {
        s
    }
}

/// `s` without leading or trailing whitespace.
pub open spec fn trimmed(s: Seq<char>) -> Seq<char> {
    trim_end(trim_start(s))
}

/// Trimming from the front keeps a suffix of the input.
proof fn lemma_trim_start_subrange(s: Seq<char>, lo: int)
    requires
        0 <= lo <= s.len(),
        forall|j: int| 0 <= j < lo ==> is_space_char(s[j]),
        lo < s.len() ==> !is_space_char(s[lo]),
    ensures
        trim_start(s) == s.subrange(lo, s.len() as int),
    decreases lo,
{
    if lo == 0 {
        if s.len() > 0 {
            assert(!is_space_char(s[0]));
        }
        assert(trim_start(s) =~= s.subrange(0, s.len() as int));
    } else {
        assert(is_space_char(s[0]));
        let d = s.drop_first();
        assert(forall|j: int| 0 <= j < lo - 1 ==> is_space_char(d[j]));
        lemma_trim_start_subrange(d, lo - 1);
        assert(d.subrange(lo - 1, d.len() as int) =~= s.subrange(lo, s.len() as int));
    }
}

/// Trimming from the back keeps a prefix of the input.
proof fn lemma_trim_end_subrange(s: Seq<char>, hi: int)
    requires
        0 <= hi <= s.len(),
        forall|j: int| hi <= j < s.len() ==> is_space_char(s[j]),
        hi > 0 ==> !is_space_char(s[hi - 1]),
    ensures
        trim_end(s) == s.subrange(0, hi),
    decreases s.len() - hi,
{
    if hi == s.len() {
        if s.len() > 0 {
            assert(!is_space_char(s.last()));
        }
        assert(trim_end(s) =~= s.subrange(0, hi));
    } else {
        assert(is_space_char(s.last()));
        let d = s.drop_last();
        assert(forall|j: int| hi <= j < d.len() ==> is_space_char(d[j]));
        lemma_trim_end_subrange(d, hi);
    }
}

/// A string with no whitespace at either end trims to itself.
pub proof fn lemma_trimmed_identity(s: Seq<char>)
    requires
        s.len() > 0 ==> !is_space_char(s[0]),
        s.len() > 0 ==> !is_space_char(s.last()),
    ensures
        trimmed(s) == s,
{
    lemma_trim_start_subrange(s, 0);
    assert(s.subrange(0, s.len() as int) =~= s);
    lemma_trim_end_subrange(s, s.len() as int);
}

/// Whether `c` is Unicode white space.
pub fn is_space(c: char) -> (r: bool)
    ensures
        r == is_space_char(c),
{
    let u = c as u32;
    c == ' ' || c == '\t' || c == '\n' || c == '\u{b}' || c == '\u{c}' || c == '\r'
        || c == '\u{85}' || c == '\u{a0}' || c == '\u{1680}' || (0x2000 <= u && u <= 0x200a)
        || c == '\u{2028}' || c == '\u{2029}' || c == '\u{202f}' || c == '\u{205f}'
        || c == '\u{3000}'
}

/// `s` with leading and trailing white space removed.
pub fn trim(s: &str) -> (r: &str)
    ensures
        r@ == trimmed(s@),
{
    let n = s.unicode_len();
    let mut lo: usize = 0;
    while lo < n && is_space(s.get_char(lo))
        invariant
            0 <= lo <= n == s@.len(),
            forall|j: int| 0 <= j < lo ==> is_space_char(s@[j]),
        decreases n - lo,
    {
        lo = lo + 1;
    }
    let mut hi: usize = n;
    while hi > lo && is_space(s.get_char(hi - 1))
        invariant
            lo <= hi <= n == s@.len(),
            forall|j: int| 0 <= j < lo ==> is_space_char(s@[j]),
            forall|j: int| hi <= j < n ==> is_space_char(s@[j]),
            lo < s@.len() ==> !is_space_char(s@[lo as int]),
        decreases hi,
    {
        hi = hi - 1;
    }
    let r = s.substring_char(lo, hi);
    proof {
        lemma_trim_start_subrange(s@, lo as int);
        let t = s@.subrange(lo as int, s@.len() as int);
        lemma_trim_end_subrange(t, hi - lo);
        assert(t.subrange(0, hi - lo) =~= s@.subrange(lo as int, hi as int));
    }
    r
}

/// Whether `c` is a hexadecimal digit in either case.
pub open spec fn is_hex_digit(c: char) -> bool {
    (48 <= c as u32 && c as u32 <= 57)  // '0' ..= '9'
    || (97 <= c as u32 && c as u32 <= 102)  // 'a' ..= 'f'
    || (65 <= c as u32 && c as u32 <= 70)  // 'A' ..= 'F'
}

/// The numeric value of a hexadecimal digit.
pub open spec fn hex_digit_value(c: char) -> int {
    if 48 <= c as u32 && c as u32 <= 57 {
        c as u32 - 48
    } else if 97 <= c as u32 && c as u32 <= 102 {
        c as u32 - 87
    } else {
        c as u32 - 55
    }
}

/// Whether every character of `s` is a hexadecimal digit.
pub open spec fn all_hex_digits(s: Seq<char>) -> bool {
    forall|i: int| 0 <= i < s.len() ==> is_hex_digit(s[i])
}

/// The number the hexadecimal digit string `s` denotes, most significant
/// digit first.
pub open spec fn hex_value(s: Seq<char>) -> int
    decreases s.len(),
{
    if s.len() == 0 {
        0
    } else {
        16 * hex_value(s.drop_last()) + hex_digit_value(s.last())
    }
}

/// A hexadecimal digit string denotes a nonnegative number.
pub proof fn lemma_hex_value_nonneg(s: Seq<char>)
    requires
        all_hex_digits(s),
    ensures
        hex_value(s) >= 0,
    decreases s.len(),
{
    if s.len() > 0 {
        let d = s.drop_last();
        assert(forall|i: int| 0 <= i < d.len() ==> is_hex_digit(#[trigger] d[i]));
        lemma_hex_value_nonneg(d);
        assert(is_hex_digit(s.last()));
    }
}

/// A hexadecimal digit string denotes at least what any of its prefixes
/// denotes.
pub proof fn lemma_hex_value_prefix(s: Seq<char>, k: int)
    requires
        all_hex_digits(s),
        0 <= k <= s.len(),
    ensures
        hex_value(s.subrange(0, k)) <= hex_value(s),
    decreases s.len() - k,
{
    if k < s.len() {
        let p = s.subrange(0, k);
        let q = s.subrange(0, k + 1);
        assert(q.drop_last() =~= p);
        assert(is_hex_digit(q.last()));
        assert(forall|i: int| 0 <= i < p.len() ==> is_hex_digit(#[trigger] p[i]));
        lemma_hex_value_nonneg(p);
        assert(hex_value(p) <= hex_value(q));
        lemma_hex_value_prefix(s, k + 1);
    } else {
        assert(s.subrange(0, k) =~= s);
    }
}

/// Parses `s` as a hexadecimal number, with no prefix and no sign.
/// `None` means empty input, a non-digit, or a value above `u32::MAX`.
pub fn parse_hex_u32(s: &str) -> (r: Option<u32>)
    ensures
        match r {
            Some(v) => s@.len() > 0 && all_hex_digits(s@) && hex_value(s@) == v,
            None => s@.len() == 0 || !all_hex_digits(s@) || hex_value(s@) > u32::MAX,
        },
{
    let n = s.unicode_len();
    if n == 0 {
        return None;
    }
    let mut acc: u32 = 0;
    let mut i: usize = 0;
    while i < n
        invariant
            0 <= i <= n == s@.len(),
            all_hex_digits(s@.subrange(0, i as int)),
            acc == hex_value(s@.subrange(0, i as int)),
        decreases n - i,
    {
        let c = s.get_char(i);
        let u = c as u32;
        let d: u32 = if u >= 48 && u <= 57 {
            u - 48
        } else if u >= 97 && u <= 102 {
            u - 87
        } else if u >= 65 && u <= 70 {
            u - 55
        } else {
            proof {
                assert(!is_hex_digit(s@[i as int]));
            }
            return None;
        };
        proof {
            assert(is_hex_digit(s@[i as int]));
            assert(hex_digit_value(s@[i as int]) == d);
        }
        if acc > 0x0FFF_FFFF {
            proof {
                if all_hex_digits(s@) {
                    let q = s@.subrange(0, i + 1);
                    assert(q.drop_last() =~= s@.subrange(0, i as int));
                    assert(hex_value(q) == 16 * acc + d);
                    lemma_hex_value_prefix(s@, i + 1);
                }
            }
            return None;
        }
        acc = acc * 16 + d;
        proof {
            let q = s@.subrange(0, i + 1);
            assert(q.drop_last() =~= s@.subrange(0, i as int));
            assert(forall|j: int| 0 <= j < q.len() ==> is_hex_digit(#[trigger] q[j]));
        }
        i = i + 1;
    }
    proof {
        assert(s@.subrange(0, n as int) =~= s@);
    }
    Some(acc)
}

/// The uppercase character of a digit value below 16.
pub open spec fn digit_char(v: int) -> char {
    if v == 0 {
        '0'
    } else if v == 1 {
        '1'
    } else if v == 2 {
        '2'
    } else if v == 3 {
        '3'
    } else if v == 4 {
        '4'
    } else if v == 5 {
        '5'
    } else if v == 6 {
        '6'
    } else if v == 7 {
        '7'
    } else if v == 8 {
        '8'
    } else if v == 9 {
        '9'
    } else if v == 10 {
        'A'
    } else if v == 11 {
        'B'
    } else if v == 12 {
        'C'
    } else if v == 13 {
        'D'
    } else if v == 14 {
        'E'
    } else {
        'F'
    }
}

/// `v` as exactly eight uppercase hexadecimal digits.
pub open spec fn u32_hex8(v: u32) -> Seq<char> {
    seq![
        digit_char(((v >> 28) & 0xF) as int),
        digit_char(((v >> 24) & 0xF) as int),
        digit_char(((v >> 20) & 0xF) as int),
        digit_char(((v >> 16) & 0xF) as int),
        digit_char(((v >> 12) & 0xF) as int),
        digit_char(((v >> 8) & 0xF) as int),
        digit_char(((v >> 4) & 0xF) as int),
        digit_char((v & 0xF) as int),
    ]
}

/// The one-character string of a digit value below 16.
fn digit_str(d: u32) -> (r: &'static str)
    requires
        d < 16,
    ensures
        r@ =~= seq![digit_char(d as int)],
{
    proof {
        reveal_strlit("0");
        reveal_strlit("1");
        reveal_strlit("2");
        reveal_strlit("3");
        reveal_strlit("4");
        reveal_strlit("5");
        reveal_strlit("6");
        reveal_strlit("7");
        reveal_strlit("8");
        reveal_strlit("9");
        reveal_strlit("A");
        reveal_strlit("B");
        reveal_strlit("C");
        reveal_strlit("D");
        reveal_strlit("E");
        reveal_strlit("F");
    }
    if d == 0 {
        "0"
    } else if d == 1 {
        "1"
    } else if d == 2 {
        "2"
    } else if d == 3 {
        "3"
    } else if d == 4 {
        "4"
    } else if d == 5 {
        "5"
    } else if d == 6 {
        "6"
    } else if d == 7 {
        "7"
    } else if d == 8 {
        "8"
    } else if d == 9 {
        "9"
    } else if d == 10 {
        "A"
    } else if d == 11 {
        "B"
    } else if d == 12 {
        "C"
    } else if d == 13 {
        "D"
    } else if d == 14 {
        "E"
    } else {
        "F"
    }
}

/// Renders `v` as exactly eight uppercase hexadecimal digits.
pub fn u32_to_hex8(v: u32) -> (r: String)
    ensures
        r@ == u32_hex8(v),
{
    proof {
        assert((v >> 28) & 0xF < 16 && (v >> 24) & 0xF < 16 && (v >> 20) & 0xF < 16 && (v >> 16)
            & 0xF < 16 && (v >> 12) & 0xF < 16 && (v >> 8) & 0xF < 16 && (v >> 4) & 0xF < 16 && v
            & 0xF < 16) by (bit_vector);
    }
    let mut out = String::new();
    out.append(digit_str((v >> 28) & 0xF));
    out.append(digit_str((v >> 24) & 0xF));
    out.append(digit_str((v >> 20) & 0xF));
    out.append(digit_str((v >> 16) & 0xF));
    out.append(digit_str((v >> 12) & 0xF));
    out.append(digit_str((v >> 8) & 0xF));
    out.append(digit_str((v >> 4) & 0xF));
    out.append(digit_str(v & 0xF));
    proof {
        assert(out@ =~= u32_hex8(v));
    }
    out
}

/// Every character the renderer emits is a hexadecimal digit that reads
/// back as the same value.
proof fn lemma_digit_char_value(v: int)
    requires
        0 <= v < 16,
    ensures
        is_hex_digit(digit_char(v)),
        hex_digit_value(digit_char(v)) == v,
{
}

/// Appending one digit multiplies the denoted value by the base.
proof fn lemma_hex_value_push(s: Seq<char>, c: char)
    ensures
        hex_value(s.push(c)) == 16 * hex_value(s) + hex_digit_value(c),
{
    assert(s.push(c).drop_last() =~= s);
    assert(s.push(c).last() == c);
}

/// Rendering eight hexadecimal digits and reading them back yields the
/// rendered value.
pub proof fn lemma_hex8_value(v: u32)
    ensures
        u32_hex8(v).len() == 8,
        all_hex_digits(u32_hex8(v)),
        hex_value(u32_hex8(v)) == v,
{
    let s = u32_hex8(v);
    let n7 = ((v >> 28) & 0xF) as int;
    let n6 = ((v >> 24) & 0xF) as int;
    let n5 = ((v >> 20) & 0xF) as int;
    let n4 = ((v >> 16) & 0xF) as int;
    let n3 = ((v >> 12) & 0xF) as int;
    let n2 = ((v >> 8) & 0xF) as int;
    let n1 = ((v >> 4) & 0xF) as int;
    let n0 = (v & 0xF) as int;
    assert((v >> 28) & 0xF < 16 && (v >> 24) & 0xF < 16 && (v >> 20) & 0xF < 16 && (v >> 16) & 0xF
        < 16 && (v >> 12) & 0xF < 16 && (v >> 8) & 0xF < 16 && (v >> 4) & 0xF < 16 && v & 0xF
        < 16) by (bit_vector);
    lemma_digit_char_value(n7);
    lemma_digit_char_value(n6);
    lemma_digit_char_value(n5);
    lemma_digit_char_value(n4);
    lemma_digit_char_value(n3);
    lemma_digit_char_value(n2);
    lemma_digit_char_value(n1);
    lemma_digit_char_value(n0);
    assert forall|i: int| 0 <= i < s.len() implies is_hex_digit(s[i]) by {
        if i == 0 {
            assert(s[i] == digit_char(n7));
        } else if i == 1 {
            assert(s[i] == digit_char(n6));
        } else if i == 2 {
            assert(s[i] == digit_char(n5));
        } else if i == 3 {
            assert(s[i] == digit_char(n4));
        } else if i == 4 {
            assert(s[i] == digit_char(n3));
        } else if i == 5 {
            assert(s[i] == digit_char(n2));
        } else if i == 6 {
            assert(s[i] == digit_char(n1));
        } else {
            assert(s[i] == digit_char(n0));
        }
    }
    let s7 = seq![digit_char(n7)];
    let s6 = seq![digit_char(n7), digit_char(n6)];
    let s5 = seq![digit_char(n7), digit_char(n6), digit_char(n5)];
    let s4 = seq![digit_char(n7), digit_char(n6), digit_char(n5), digit_char(n4)];
    let s3 = seq![digit_char(n7), digit_char(n6), digit_char(n5), digit_char(n4), digit_char(n3)];
    let s2 = seq![
        digit_char(n7),
        digit_char(n6),
        digit_char(n5),
        digit_char(n4),
        digit_char(n3),
        digit_char(n2),
    ];
    let s1 = seq![
        digit_char(n7),
        digit_char(n6),
        digit_char(n5),
        digit_char(n4),
        digit_char(n3),
        digit_char(n2),
        digit_char(n1),
    ];
    assert(s7 =~= Seq::<char>::empty().push(digit_char(n7)));
    assert(s6 =~= s7.push(digit_char(n6)));
    assert(s5 =~= s6.push(digit_char(n5)));
    assert(s4 =~= s5.push(digit_char(n4)));
    assert(s3 =~= s4.push(digit_char(n3)));
    assert(s2 =~= s3.push(digit_char(n2)));
    assert(s1 =~= s2.push(digit_char(n1)));
    assert(s =~= s1.push(digit_char(n0)));
    lemma_hex_value_push(Seq::<char>::empty(), digit_char(n7));
    lemma_hex_value_push(s7, digit_char(n6));
    lemma_hex_value_push(s6, digit_char(n5));
    lemma_hex_value_push(s5, digit_char(n4));
    lemma_hex_value_push(s4, digit_char(n3));
    lemma_hex_value_push(s3, digit_char(n2));
    lemma_hex_value_push(s2, digit_char(n1));
    lemma_hex_value_push(s1, digit_char(n0));
    assert(hex_value(s7) == n7);
    assert(hex_value(s6) == 16 * n7 + n6);
    assert(hex_value(s) == 16 * (16 * (16 * (16 * (16 * (16 * (16 * n7 + n6) + n5) + n4) + n3)
        + n2) + n1) + n0);
    assert(16 * (16 * (16 * (16 * (16 * (16 * (16 * (((v >> 28) & 0xF) as int) + (((v >> 24)
        & 0xF) as int)) + (((v >> 20) & 0xF) as int)) + (((v >> 16) & 0xF) as int)) + (((v >> 12)
        & 0xF) as int)) + (((v >> 8) & 0xF) as int)) + (((v >> 4) & 0xF) as int)) + ((v
        & 0xF) as int) == v) by (bit_vector);
}

/// `v` in decimal, most significant digit first, with no leading zeros
/// except for zero itself.
pub open spec fn dec_digits(v: nat) -> Seq<char>
    decreases v,
{
    if v < 10 {
        seq![digit_char(v as int)]
    } else {
        dec_digits(v / 10) + seq![digit_char((v % 10) as int)]
    }
}

/// The rendering of the decimal digits collected least significant first.
spec fn collected_digits(ds: Seq<u32>) -> Seq<char>
    decreases ds.len(),
{
    if ds.len() == 0 {
        Seq::empty()
    } else {
        seq![digit_char(ds.last() as int)] + collected_digits(ds.drop_last())
    }
}

/// Pointwise reading of the collected rendering: digit `j` from the end
/// comes out at position `j`.
proof fn lemma_collected_digits_index(ds: Seq<u32>)
    ensures
        collected_digits(ds).len() == ds.len(),
        forall|j: int|
            0 <= j < ds.len() ==> collected_digits(ds)[j] == digit_char(
                ds[ds.len() - 1 - j] as int,
            ),
    decreases ds.len(),
{
    if ds.len() > 0 {
        lemma_collected_digits_index(ds.drop_last());
    }
}

/// Renders `v` in decimal.
pub fn u32_to_dec(v: u32) -> (r: String)
    ensures
        r@ == dec_digits(v as nat),
{
    let mut digits: Vec<u32> = Vec::new();
    let mut x: u32 = v;
    let d0: u32 = x % 10;
    digits.push(d0);
    x = x / 10;
    proof {
        assert(digits@ =~= Seq::<u32>::empty().push(d0));
        assert(digits@.drop_last() =~= Seq::<u32>::empty());
        assert(collected_digits(Seq::<u32>::empty()) =~= Seq::<char>::empty());
        assert(collected_digits(digits@) =~= seq![digit_char(d0 as int)]);
    }
    while x > 0
        invariant
            dec_digits(v as nat) == if x > 0 {
                dec_digits(x as nat) + collected_digits(digits@)
            } else {
                collected_digits(digits@)
            },
            forall|j: int| 0 <= j < digits@.len() ==> #[trigger] digits@[j] < 10,
        decreases x,
    {
        let ghost x0 = x;
        let ghost before = digits@;
        let d: u32 = x % 10;
        digits.push(d);
        x = x / 10;
        proof {
            assert(x0 == 10 * x + d);
            assert(digits@.drop_last() =~= before);
            assert(collected_digits(digits@) =~= seq![digit_char(d as int)] + collected_digits(
                before,
            ));
            if x > 0 {
                assert(x0 >= 10);
                assert(dec_digits(x0 as nat) == dec_digits(x as nat) + seq![digit_char(d as int)]);
                assert(dec_digits(x as nat) + seq![digit_char(d as int)] + collected_digits(before)
                    =~= dec_digits(x as nat) + (seq![digit_char(d as int)] + collected_digits(
                    before,
                )));
            } else {
                assert(x0 == d && x0 < 10);
                assert(dec_digits(x0 as nat) == seq![digit_char(d as int)]);
            }
        }
    }
    let mut out = String::new();
    let n = digits.len();
    let mut i: usize = 0;
    proof {
        lemma_collected_digits_index(digits@);
    }
    while i < n
        invariant
            0 <= i <= n == digits@.len(),
            forall|j: int| 0 <= j < digits@.len() ==> #[trigger] digits@[j] < 10,
            collected_digits(digits@).len() == digits@.len(),
            forall|j: int|
                0 <= j < digits@.len() ==> collected_digits(digits@)[j] == digit_char(
                    digits@[digits@.len() - 1 - j] as int,
                ),
            out@ =~= collected_digits(digits@).subrange(0, i as int),
        decreases n - i,
    {
        out.append(digit_str(digits[n - 1 - i]));
        i = i + 1;
        proof {
            assert(out@ =~= collected_digits(digits@).subrange(0, i as int));
        }
    }
    proof {
        assert(collected_digits(digits@).subrange(0, n as int) =~= collected_digits(digits@));
    }
    out
}

/// The position of the first line feed in `s`, or the length when there
/// is none.
pub open spec fn line_break_at(s: Seq<char>) -> int
    decreases s.len(),
{
    if s.len() == 0 {
        0
    } else if s[0] == '\n' {
        0
    } else {
        1 + line_break_at(s.drop_first())
    }
}

/// The first line feed sits exactly where a scan finds it.
pub proof fn lemma_line_break_at_point(s: Seq<char>, k: int)
    requires
        0 <= k <= s.len(),
        forall|j: int| 0 <= j < k ==> s[j] != '\n',
        k < s.len() ==> s[k] == '\n',
    ensures
        line_break_at(s) == k,
    decreases k,
{
    if k == 0 {
        if s.len() > 0 {
            assert(s[0] == '\n');
        }
    } else {
        assert(s[0] != '\n');
        let d = s.drop_first();
        assert(forall|j: int| 0 <= j < k - 1 ==> d[j] != '\n');
        lemma_line_break_at_point(d, k - 1);
    }
}

/// A line without its single trailing carriage return, if it has one.
pub open spec fn strip_cr(l: Seq<char>) -> Seq<char> {
    if l.len() > 0 && l.last() == '\r' {
        l.drop_last()
    } else {
        l
    }
}

/// The lines of `s`: pieces split at line feeds, a carriage return before
/// a line feed dropped, and no empty piece after a final line feed.
pub open spec fn split_lines(s: Seq<char>) -> Seq<Seq<char>>
    decreases s.len(),
{
    if s.len() == 0 {
        Seq::empty()
    } else {
        let i = line_break_at(s);
        if 0 <= i && i < s.len() {
            seq![strip_cr(s.subrange(0, i))] + split_lines(s.subrange(i + 1, s.len() as int))
        } else {
            seq![s]
        }
    }
}

} // verus!
