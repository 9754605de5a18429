//! Text building blocks: decimal numbers, padding, substring search and
//! byte-bounded truncation.

use vstd::prelude::*;
use vstd::utf8::*;
use vstd::string::StringSliceAdditionalSpecFns;

verus! {

broadcast use vstd::utf8::encode_utf8_decode_utf8;

/// The ASCII digit for `d` (for `d < 10`).
pub open spec fn digit_char(d: nat) -> char {
    if d == 0 {
        '0'
    } else if d == 1 {
        '1'
    } else if d == 2 {
        '2'
    } else if d == 3 {
        '3'
    } else if d == 4 {
        '4'
    } else if d == 5 {
        '5'
    } else if d == 6 {
        '6'
    } else if d == 7 {
        '7'
    } else if d == 8 {
        '8'
    } else {
        '9'
    }
}

/// The decimal representation of `n`, without sign or leading zeros.
pub open spec fn decimal(n: nat) -> Seq<char>
    decreases n,
{
    if n < 10 {
        seq![digit_char(n)]
    } else {
        decimal(n / 10).push(digit_char(n % 10))
    }
}

/// `n` in decimal, zero-padded on the left to at least two characters.
pub open spec fn two_digits(n: nat) -> Seq<char> {
    if n < 10 {
        seq!['0'] + decimal(n)
    } else {
        decimal(n)
    }
}

/// `s` followed by as many spaces as bring it to `width` characters.
pub open spec fn pad_end(s: Seq<char>, width: nat) -> Seq<char> {
    if s.len() >= width {
        s
    } else {
        s + Seq::new((width - s.len()) as nat, |i: int| ' ')
    }
}

/// `pattern` occurs in `s` as a contiguous run of characters.
pub open spec fn contains_text(s: Seq<char>, pattern: Seq<char>) -> bool {
    exists|i: int|
        0 <= i && i + pattern.len() <= s.len() && #[trigger] s.subrange(i, i + pattern.len())
            == pattern
}

/// The number of bytes of the UTF-8 encoding of `s`.
pub open spec fn byte_len(s: Seq<char>) -> nat {
    encode_utf8(s).len()
}

fn digit_str(d: u64) -> (s: &'static str)
    requires
        d < 10,
    ensures
        s@ == seq![digit_char(d as nat)],
{
    if d == 0 {
        proof {
            reveal_strlit("0");
        }
        "0"
    } else if d == 1 {
        proof {
            reveal_strlit("1");
        }
        "1"
    } else if d == 2 {
        proof {
            reveal_strlit("2");
        }
        "2"
    } else if d == 3 {
        proof {
            reveal_strlit("3");
        }
        "3"
    } else if d == 4 {
        proof {
            reveal_strlit("4");
        }
        "4"
    } else if d == 5 {
        proof {
            reveal_strlit("5");
        }
        "5"
    } else if d == 6 {
        proof {
            reveal_strlit("6");
        }
        "6"
    } else if d == 7 {
        proof {
            reveal_strlit("7");
        }
        "7"
    } else if d == 8 {
        proof {
            reveal_strlit("8");
        }
        "8"
    } else {
        proof {
            reveal_strlit("9");
        }
        "9"
    }
}

/// Writes `n` in decimal.
pub fn decimal_string(n: u64) -> (s: String)
    ensures
        s@ == decimal(n as nat),
    decreases n,
{
    if n < 10 {
        String::from_str(digit_str(n))
    } else {
        let mut s = decimal_string(n / 10);
        s.append(digit_str(n % 10));
        s
    }
}

/// Writes `n` in decimal, zero-padded to two characters.
pub fn two_digit_string(n: u64) -> (s: String)
    ensures
        s@ == two_digits(n as nat),
{
    if n < 10 {
        proof {
            reveal_strlit("0");
        }
        let mut s = String::from_str("0");
        s.append(digit_str(n));
        s
    } else {
        decimal_string(n)
    }
}

/// The characters of `s`, one by one.
pub fn chars_of(s: &str) -> (v: Vec<char>)
    ensures
        v@ == s@,
{
    let n = s.unicode_len();
    let mut v: Vec<char> = Vec::new();
    let mut i: usize = 0;
    while i < n
        invariant
            n == s@.len(),
            i <= n,
            v@ == s@.subrange(0, i as int),
        decreases n - i,
    {
        v.push(s.get_char(i));
        i = i + 1;
    }
    v
}

/// Appends spaces to `s` until it is `width` characters long.
pub fn pad_end_string(s: String, width: usize) -> (r: String)
    ensures
        r@ == pad_end(s@, width as nat),
{
    let n = s.as_str().unicode_len();
    if n >= width {
        return s;
    }
    let mut r = s;
    let mut k: usize = n;
    proof {
        reveal_strlit(" ");
    }
    while k < width
        invariant
            n <= k <= width,
            n == s@.len(),
            r@ == s@ + Seq::new((k - n) as nat, |i: int| ' '),
            " "@ == seq![' '],
        decreases width - k,
    {
        r.append(" ");
        k = k + 1;
        assert(r@ =~= s@ + Seq::new((k - n) as nat, |i: int| ' '));
    }
    r
}

/// Whether `pattern` occurs in `s`.
pub fn text_contains(s: &str, pattern: &str) -> (b: bool)
    ensures
        b == contains_text(s@, pattern@),
{
    let sv = chars_of(s);
    let pv = chars_of(pattern);
    let n = sv.len();
    let m = pv.len();
    if m > n {
        return false;
    }
    let mut i: usize = 0;
    while i <= n - m
        invariant
            sv@ == s@,
            pv@ == pattern@,
            n == sv.len(),
            m == pv.len(),
            m <= n,
            i <= n - m + 1,
            forall|j: int| 0 <= j < i ==> #[trigger] sv@.subrange(j, j + m) != pv@,
        decreases n - m + 1 - i,
    {
        let mut k: usize = 0;
        let mut same = true;
        while k < m
            invariant
                sv@ == s@,
                pv@ == pattern@,
                n == sv.len(),
                m == pv.len(),
                i + m <= n,
                k <= m,
                same == (forall|t: int| 0 <= t < k ==> sv@[i + t] == pv@[t]),
            decreases m - k,
        {
            if sv[i + k] != pv[k] {
                same = false;
            }
            k = k + 1;
        }
        if same {
            assert(sv@.subrange(i as int, i + m) =~= pv@);
            return true;
        }
        assert(sv@.subrange(i as int, i + m) != pv@) by {
            let t = choose|t: int| 0 <= t < m && sv@[i + t] != pv@[t];
            assert(sv@.subrange(i as int, i + m)[t] == sv@[i + t]);
        }
        i = i + 1;
    }
    false
}

/// `s` can be cut to `max` bytes: it fits, or byte `max - 1` starts a
/// character (and `max` is at least 1).
pub open spec fn can_truncate(s: Seq<char>, max: nat) -> bool {
    &&& byte_len(s) <= usize::MAX
    &&& byte_len(s) > max ==> max >= 1 && is_char_boundary(encode_utf8(s), max - 1)
}

/// `s` cut to `max` bytes: unchanged if it fits, else its first `max - 1`
/// bytes followed by `…`.
pub open spec fn truncated(s: Seq<char>, max: nat) -> Seq<char> {
    if byte_len(s) <= max {
        s
    } else {
        decode_utf8(encode_utf8(s).subrange(0, max - 1)).push('…')
    }
}

/// Shortens `s` to at most `max` bytes: a string that fits is kept as it
/// is; a longer one is cut to its first `max - 1` bytes and ends in `…`.
pub fn truncate_str(s: &str, max: usize) -> (r: String)
    requires
        can_truncate(s@, max as nat),
    ensures
        r@ == truncated(s@, max as nat),
{
    if s.len() <= max {
        String::from_str(s)
    } else {
        let (head, _tail) = s.split_at(max - 1);
        let mut r = String::from_str(head);
        proof {
            reveal_strlit("…");
        }
        r.append("…");
        assert("…"@ =~= seq!['…']);
        assert(head.spec_bytes() =~= encode_utf8(s@).subrange(0, max - 1));
        assert(head@ == decode_utf8(head.spec_bytes()));
        assert(r@ =~= head@.push('…'));
        r
    }
}

/// A cut text keeps the beginning of the original: some proper prefix of
/// its characters, followed by `…`.
pub proof fn lemma_truncated_is_prefix(s: Seq<char>, max: nat)
    requires
        can_truncate(s, max),
        byte_len(s) > max,
    ensures
        exists|k: int| 0 <= k < s.len() && #[trigger] truncated(s, max) == s.take(k).push('…'),
{
    let bytes = encode_utf8(s);
    let cut = max - 1;
    encode_utf8_valid_utf8(s);
    decode_utf8_split(bytes, cut);
    valid_utf8_split(bytes, cut);
    let head = decode_utf8(bytes.subrange(0, cut));
    let tail_bytes = bytes.subrange(cut, bytes.len() as int);
    let tail = decode_utf8(tail_bytes);
    assert(s == head + tail);
    assert(tail.len() > 0) by {
        assert(tail_bytes.len() > 0);
        reveal_with_fuel(decode_utf8, 2);
    }
    let k = head.len() as int;
    assert(s.take(k) =~= head);
    assert(truncated(s, max) == s.take(k).push('…'));
}

/// Encoding two runs of characters one after the other gives the two
/// encodings one after the other.
proof fn lemma_encode_concat(a: Seq<char>, b: Seq<char>)
    ensures
        encode_utf8(a + b) == encode_utf8(a) + encode_utf8(b),
    decreases a.len(),
{
    if a.len() == 0 {
        assert(a + b =~= b);
        assert(encode_utf8(a) + encode_utf8(b) =~= encode_utf8(b));
    } else {
        lemma_encode_concat(a.drop_first(), b);
        assert((a + b).drop_first() =~= a.drop_first() + b);
        assert((a + b)[0] == a[0]);
        assert(encode_utf8(a + b) =~= encode_utf8(a) + encode_utf8(b));
    }
}

/// Where one valid encoding ends and another begins, a character begins.
proof fn lemma_boundary_at_join(x: Seq<u8>, y: Seq<u8>)
    requires
        valid_utf8(x),
        valid_utf8(y),
    ensures
        is_char_boundary(x + y, x.len() as int),
    decreases x.len(),
{
    valid_utf8_concat(x, y);
    if x.len() > 0 {
        let n = length_of_first_scalar(x);
        let rest = pop_first_scalar(x);
        assert(rest.len() == x.len() - n);
        assert(x[0] == (x + y)[0]);
        if x.len() >= 2 {
            assert(x[1] == (x + y)[1]);
        }
        if x.len() >= 3 {
            assert(x[2] == (x + y)[2]);
        }
        if x.len() >= 4 {
            assert(x[3] == (x + y)[3]);
        }
        assert(length_of_first_scalar(x + y) == n);
        assert(pop_first_scalar(x + y) =~= rest + y);
        lemma_boundary_at_join(rest, y);
    }
}

/// Cutting a text a second time at the same length changes nothing, and the
/// second cut is always allowed. (`max + 2` must fit in a `usize`: a cut text
/// can be two bytes longer than `max`, as `…` takes three.)
pub proof fn lemma_truncate_idempotent(s: Seq<char>, max: nat)
    requires
        can_truncate(s, max),
        max + 2 <= usize::MAX,
    ensures
        can_truncate(truncated(s, max), max),
        truncated(truncated(s, max), max) == truncated(s, max),
{
    if byte_len(s) > max {
        let bytes = encode_utf8(s);
        let cut = max - 1;
        encode_utf8_valid_utf8(s);
        valid_utf8_split(bytes, cut);
        let pre = bytes.subrange(0, cut);
        let head = decode_utf8(pre);
        let t = truncated(s, max);
        assert(t == head + seq!['…']);
        decode_utf8_encode_utf8(pre);
        lemma_encode_concat(head, seq!['…']);
        let e = encode_utf8(seq!['…']);
        encode_utf8_valid_utf8(seq!['…']);
        assert(encode_utf8(t) == pre + e);
        assert(e.len() == 3) by {
            reveal_with_fuel(encode_utf8, 2);
            assert(seq!['…'].drop_first() =~= Seq::<char>::empty());
        }
        assert(byte_len(t) == max + 2);
        lemma_boundary_at_join(pre, e);
        assert((pre + e).subrange(0, cut) =~= pre);
    }
}

/// `c` is one of the ASCII digits `0` to `9`.
pub open spec fn is_digit(c: char) -> bool {
    48 <= (c as u32) && (c as u32) <= 57
}

/// The number an ASCII digit stands for.
pub open spec fn digit_value(c: char) -> int {
    (c as u32) - 48
}

/// Every character of `s` is an ASCII digit.
pub open spec fn all_digits(s: Seq<char>) -> bool {
    forall|i: int| 0 <= i < s.len() ==> is_digit(#[trigger] s[i])
}

/// The number that a run of digits reads as, most significant first.
pub open spec fn digits_value(s: Seq<char>) -> int
    decreases s.len(),
{
    if s.len() == 0 {
        0
    } else {
        10 * digits_value(s.drop_last()) + digit_value(s.last())
    }
}

proof fn lemma_digit_char(d: nat)
    requires
        d < 10,
    ensures
        is_digit(digit_char(d)),
        digit_value(digit_char(d)) == d,
{
}

/// Reading a run of digits with one more digit at the end.
proof fn lemma_digits_value_push(s: Seq<char>, c: char)
    ensures
        digits_value(s.push(c)) == 10 * digits_value(s) + digit_value(c),
{
    assert(s.push(c).drop_last() =~= s);
}

/// `decimal(n)` is made of digits and reads back as `n`; it has one digit
/// below 10 and two from 10 to 99.
pub proof fn lemma_decimal_reads_back(n: nat)
    ensures
        all_digits(decimal(n)),
        digits_value(decimal(n)) == n,
        decimal(n).len() >= 1,
        n < 10 ==> decimal(n).len() == 1,
        10 <= n < 100 ==> decimal(n).len() == 2,
    decreases n,
{
    if n < 10 {
        lemma_digit_char(n);
        lemma_digits_value_push(Seq::empty(), digit_char(n));
        assert(seq![digit_char(n)] =~= Seq::<char>::empty().push(digit_char(n)));
    } else {
        lemma_decimal_reads_back(n / 10);
        lemma_digit_char(n % 10);
        lemma_digits_value_push(decimal(n / 10), digit_char(n % 10));
    }
}

/// `two_digits(n)` for `n` below 100 is exactly two digits reading back as `n`.
pub proof fn lemma_two_digits_reads_back(n: nat)
    requires
        n < 100,
    ensures
        two_digits(n).len() == 2,
        all_digits(two_digits(n)),
        digits_value(two_digits(n)) == n,
{
    lemma_decimal_reads_back(n);
    if n < 10 {
        let t = two_digits(n);
        assert(t =~= seq!['0'].push(decimal(n)[0]));
        lemma_digits_value_push(seq!['0'], decimal(n)[0]);
        lemma_digits_value_push(Seq::empty(), '0');
        assert(seq!['0'] =~= Seq::<char>::empty().push('0'));
        assert(decimal(n) =~= Seq::<char>::empty().push(decimal(n)[0]));
        lemma_digits_value_push(Seq::empty(), decimal(n)[0]);
    }
}

} // verus!
