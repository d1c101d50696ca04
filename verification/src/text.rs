//! Decimal rendering of numbers, as it appears in keys and error messages.

use vstd::prelude::*;

verus! {

/// The decimal digit `d`, for `d` below ten.
pub open spec fn digit(d: nat) -> char {
    if d == 0 {
        '0'
    } else if d == 1 {
        '1'
    } else if d == 2 {
        '2'
    } else if d == 3 {
        '3'
    } else if d == 4 {
        '4'
    } else if d == 5 {
        '5'
    } else if d == 6 {
        '6'
    } else if d == 7 {
        '7'
    } else if d == 8 {
        '8'
    } else {
        '9'
    }
}

/// The usual decimal notation of `n`, without leading zeros.
pub open spec fn decimal(n: nat) -> Seq<char>
    decreases n,
{
    if n < 10 {
        seq![digit(n)]
    } else {
        decimal(n / 10).push(digit(n % 10))
    }
}

/// The `width` lowest decimal digits of `n`, most significant first.
pub open spec fn padded_decimal(n: nat, width: nat) -> Seq<char>
    decreases width,
{
    if width == 0 {
        seq![]
    } else {
        padded_decimal(n / 10, (width - 1) as nat).push(digit(n % 10))
    }
}

/// The hexadecimal digit `d`, in lower case, for `d` below sixteen.
pub open spec fn hex_digit(d: nat) -> char {
    if d < 10 {
        digit(d)
    } else if d == 10 {
        'a'
    } else if d == 11 {
        'b'
    } else if d == 12 {
        'c'
    } else if d == 13 {
        'd'
    } else if d == 14 {
        'e'
    } else {
        'f'
    }
}

/// The hexadecimal notation of `bytes`: two digits for each, the higher one first.
pub open spec fn hex_of(bytes: Seq<u8>) -> Seq<char> {
    Seq::new(
        2 * bytes.len(),
        |i: int|
            hex_digit(
                if i % 2 == 0 {
                    bytes[i / 2] as nat / 16
                } else {
                    bytes[i / 2] as nat % 16
                },
            ),
    )
}

/// Ten to the power `e`.
pub open spec fn pow10(e: nat) -> nat
    decreases e,
{
    if e == 0 {
        1
    } else {
        10 * pow10((e - 1) as nat)
    }
}

/// Lexicographic order on texts, by code point. It is the order of `str`, whose
/// UTF-8 bytes sort as the code points do.
pub open spec fn text_lt(a: Seq<char>, b: Seq<char>) -> bool {
    exists|k: int| #[trigger] first_difference(a, b, k) && (k == a.len() || a[k] < b[k])
}

/// `a` and `b` agree below `k`, `b` goes on there, and `a` ends or differs there.
pub open spec fn first_difference(a: Seq<char>, b: Seq<char>, k: int) -> bool {
    &&& 0 <= k < b.len()
    &&& k <= a.len()
    &&& forall|i: int| 0 <= i < k ==> a[i] == b[i]
    &&& k < a.len() ==> a[k] != b[k]
}

/// A zero-padded number has exactly `width` characters.
pub proof fn lemma_padded_len(n: nat, width: nat)
    ensures
        padded_decimal(n, width).len() == width,
    decreases width,
{
    if width > 0 {
        lemma_padded_len(n / 10, (width - 1) as nat);
    }
}

/// Zero padding only adds zeros in front: where the notation of `n` fits into `width`
/// characters, the padded form is that notation behind as many zeros as are missing.
pub proof fn lemma_padded_is_decimal(n: nat, width: nat)
    requires
        decimal(n).len() <= width,
    ensures
        padded_decimal(n, width) == Seq::new((width - decimal(n).len()) as nat, |i: int| '0')
            + decimal(n),
    decreases width,
{
    lemma_decimal_nonempty(n);
    let shorter = (width - 1) as nat;
    if n < 10 {
        lemma_padded_zero(shorter);
        assert(n / 10 == 0 && n % 10 == n);
        assert(padded_decimal(n, width) =~= Seq::new(
            (width - decimal(n).len()) as nat,
            |i: int| '0',
        ) + decimal(n));
    } else {
        lemma_padded_is_decimal(n / 10, shorter);
        assert(padded_decimal(n, width) =~= Seq::new(
            (width - decimal(n).len()) as nat,
            |i: int| '0',
        ) + decimal(n));
    }
}

proof fn lemma_decimal_nonempty(n: nat)
    ensures
        decimal(n).len() > 0,
{
}

proof fn lemma_padded_zero(width: nat)
    ensures
        padded_decimal(0, width) == Seq::new(width, |i: int| '0'),
    decreases width,
{
    if width > 0 {
        lemma_padded_zero((width - 1) as nat);
        assert(padded_decimal(0, width) =~= Seq::new(width, |i: int| '0'));
    }
}

/// Zero-padded numbers of one width sort as the numbers do.
pub proof fn lemma_padded_order(a: nat, b: nat, width: nat)
    requires
        a < b < pow10(width),
    ensures
        text_lt(padded_decimal(a, width), padded_decimal(b, width)),
    decreases width,
{
    let shorter = (width - 1) as nat;
    let pa = padded_decimal(a, width);
    let pb = padded_decimal(b, width);
    lemma_padded_len(a, width);
    lemma_padded_len(b, width);
    lemma_padded_len(a / 10, shorter);
    lemma_padded_len(b / 10, shorter);
    if a / 10 < b / 10 {
        lemma_padded_order(a / 10, b / 10, shorter);
        let ha = padded_decimal(a / 10, shorter);
        let hb = padded_decimal(b / 10, shorter);
        let k = choose|k: int|
            #[trigger] first_difference(ha, hb, k) && (k == ha.len() || ha[k] < hb[k]);
        assert(first_difference(pa, pb, k));
    } else {
        assert(first_difference(pa, pb, shorter as int));
    }
}

/// A common prefix does not change the order of two texts.
pub proof fn lemma_text_lt_prefix(prefix: Seq<char>, a: Seq<char>, b: Seq<char>)
    requires
        text_lt(a, b),
    ensures
        text_lt(prefix + a, prefix + b),
{
    let k = choose|k: int| #[trigger] first_difference(a, b, k) && (k == a.len() || a[k] < b[k]);
    assert(first_difference(prefix + a, prefix + b, prefix.len() + k)) by {
        assert forall|i: int| 0 <= i < prefix.len() + k implies (prefix + a)[i] == (prefix + b)[i] by {
            if i >= prefix.len() {
                assert(a[i - prefix.len()] == b[i - prefix.len()]);
            }
        }
    }
}

/// A common prefix hides no order: texts that are ordered behind it are ordered without it.
pub proof fn lemma_text_lt_strip(prefix: Seq<char>, a: Seq<char>, b: Seq<char>)
    requires
        text_lt(prefix + a, prefix + b),
    ensures
        text_lt(a, b),
{
    let x = prefix + a;
    let y = prefix + b;
    let n = prefix.len() as int;
    let k = choose|k: int| #[trigger] first_difference(x, y, k) && (k == x.len() || x[k] < y[k]);
    if k < n {
        assert(x[k] == prefix[k] && y[k] == prefix[k]);
    }
    assert(first_difference(a, b, k - n)) by {
        assert forall|i: int| 0 <= i < k - n implies a[i] == b[i] by {
            assert(x[n + i] == y[n + i]);
        }
        if k < x.len() {
            assert(x[k] == a[k - n] && y[k] == b[k - n]);
        }
    }
    if k < x.len() {
        assert(x[k] == a[k - n] && y[k] == b[k - n]);
    }
}

/// Two texts are not ordered both ways, and none comes before itself.
pub proof fn lemma_text_lt_asymmetric(a: Seq<char>, b: Seq<char>)
    requires
        text_lt(a, b),
    ensures
        !text_lt(b, a),
{
    let k = choose|k: int| #[trigger] first_difference(a, b, k) && (k == a.len() || a[k] < b[k]);
    if text_lt(b, a) {
        let m = choose|m: int| #[trigger]
            first_difference(b, a, m) && (m == b.len() || b[m] < a[m]);
        if k < m {
            assert(b[k] == a[k]);
        } else if m < k {
            assert(a[m] == b[m]);
        }
    }
}

/// Zero-padded numbers of one width are different where the numbers are.
pub proof fn lemma_padded_injective(a: nat, b: nat, width: nat)
    requires
        a < pow10(width),
        b < pow10(width),
        padded_decimal(a, width) == padded_decimal(b, width),
    ensures
        a == b,
    decreases width,
{
    if width > 0 {
        let shorter = (width - 1) as nat;
        let pa = padded_decimal(a, width);
        let pb = padded_decimal(b, width);
        lemma_padded_len(a / 10, shorter);
        lemma_padded_len(b / 10, shorter);
        assert(pa.last() == digit(a % 10) && pb.last() == digit(b % 10));
        assert(pa.drop_last() =~= padded_decimal(a / 10, shorter));
        assert(pb.drop_last() =~= padded_decimal(b / 10, shorter));
        lemma_padded_injective(a / 10, b / 10, shorter);
    }
}

/// The decimal digit `d` as a text.
fn digit_text(d: u64) -> (text: &'static str)
    requires
        d < 10,
    ensures
        text@ == seq![digit(d as nat)],
{
    proof {
        reveal_strlit("0");
        reveal_strlit("1");
        reveal_strlit("2");
        reveal_strlit("3");
        reveal_strlit("4");
        reveal_strlit("5");
        reveal_strlit("6");
        reveal_strlit("7");
        reveal_strlit("8");
        reveal_strlit("9");
    }
    let text = if d == 0 {
        "0"
    } else if d == 1 {
        "1"
    } else if d == 2 {
        "2"
    } else if d == 3 {
        "3"
    } else if d == 4 {
        "4"
    } else if d == 5 {
        "5"
    } else if d == 6 {
        "6"
    } else if d == 7 {
        "7"
    } else if d == 8 {
        "8"
    } else {
        "9"
    };
    assert(text@ =~= seq![digit(d as nat)]);
    text
}

/// The usual decimal notation of `n`.
pub fn decimal_text(n: u64) -> (text: String)
    ensures
        text@ == decimal(n as nat),
    decreases n,
{
    if n < 10 {
        digit_text(n).to_owned()
    } else {
        let mut text = decimal_text(n / 10);
        text.append(digit_text(n % 10));
        assert(text@ =~= decimal(n as nat));
        text
    }
}

/// The `width` lowest decimal digits of `n`.
pub fn padded_text(n: u64, width: usize) -> (text: String)
    ensures
        text@ == padded_decimal(n as nat, width as nat),
    decreases width,
{
    if width == 0 {
        let text = String::new();
        assert(text@ =~= padded_decimal(n as nat, 0));
        text
    } else {
        let mut text = padded_text(n / 10, width - 1);
        text.append(digit_text(n % 10));
        assert(text@ =~= padded_decimal(n as nat, width as nat));
        text
    }
}

/// Hexadecimal digits are told apart.
pub proof fn lemma_hex_digit_injective(d: nat, e: nat)
    requires
        d < 16,
        e < 16,
        hex_digit(d) == hex_digit(e),
    ensures
        d == e,
{
}

/// Bytes can be read back from their hexadecimal notation.
pub proof fn lemma_hex_injective(a: Seq<u8>, b: Seq<u8>)
    requires
        hex_of(a) == hex_of(b),
    ensures
        a == b,
{
    assert(hex_of(a).len() == 2 * a.len());
    assert(hex_of(b).len() == 2 * b.len());
    assert forall|k: int| 0 <= k < a.len() implies a[k] == b[k] by {
        assert((2 * k) % 2 == 0 && (2 * k) / 2 == k);
        assert((2 * k + 1) % 2 == 1 && (2 * k + 1) / 2 == k);
        assert(hex_of(a)[2 * k] == hex_digit(a[k] as nat / 16));
        assert(hex_of(b)[2 * k] == hex_digit(b[k] as nat / 16));
        assert(hex_of(a)[2 * k + 1] == hex_digit(a[k] as nat % 16));
        assert(hex_of(b)[2 * k + 1] == hex_digit(b[k] as nat % 16));
        lemma_hex_digit_injective(a[k] as nat / 16, b[k] as nat / 16);
        lemma_hex_digit_injective(a[k] as nat % 16, b[k] as nat % 16);
    }
    assert(a =~= b);
}

/// A zero-padded number consists of decimal digits.
pub proof fn lemma_padded_digits(n: nat, width: nat, i: int)
    requires
        0 <= i < width,
    ensures
        padded_decimal(n, width).len() == width,
        exists|d: nat| d < 10 && padded_decimal(n, width)[i] == #[trigger] digit(d),
    decreases width,
{
    lemma_padded_len(n, width);
    lemma_padded_len(n / 10, (width - 1) as nat);
    if i == width - 1 {
        assert(padded_decimal(n, width)[i] == digit(n % 10));
    } else {
        lemma_padded_digits(n / 10, (width - 1) as nat, i);
        assert(padded_decimal(n, width)[i] == padded_decimal(n / 10, (width - 1) as nat)[i]);
    }
}

/// The number that a decimal digit stands for.
pub fn digit_value(c: char) -> (value: Option<u8>)
    ensures
        match value {
            Some(d) => d < 10 && c == digit(d as nat),
            None => forall|d: nat| d < 10 ==> c != #[trigger] digit(d),
        },
{
    match c {
        '0' => Some(0),
        '1' => Some(1),
        '2' => Some(2),
        '3' => Some(3),
        '4' => Some(4),
        '5' => Some(5),
        '6' => Some(6),
        '7' => Some(7),
        '8' => Some(8),
        '9' => Some(9),
        _ => None,
    }
}

} // verus!
