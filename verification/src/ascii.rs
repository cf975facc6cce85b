use vstd::prelude::*;

verus! {

/// The ASCII byte of the decimal digit `d`, for `d < 10`.
pub open spec fn digit_byte(d: int) -> u8 {
    (0x30 + d) as u8
}

/// The ASCII decimal digits of `n`, without leading zeros ("0" for zero).
pub open spec fn decimal_bytes(n: nat) -> Seq<u8>
    decreases n,
{
    if n < 10 {
        seq![digit_byte(n as int)]
    } else {
        decimal_bytes(n / 10).push(digit_byte((n % 10) as int))
    }
}

/// `text` with ASCII zeros in front up to `width` bytes.
pub open spec fn zero_padded(text: Seq<u8>, width: int) -> Seq<u8> {
    if text.len() >= width {
        text
    } else {
        Seq::new((width - text.len()) as nat, |i: int| 0x30u8) + text
    }
}

/// Ten to the power `n`.
pub open spec fn pow10(n: nat) -> nat
    decreases n,
{
    if n == 0 {
        1
    } else {
        10 * pow10((n - 1) as nat)
    }
}

/// The text of the number `value / 10^decimals` with `decimals` digits
/// after the point, padded with zeros after the sign to `width` bytes: for
/// `decimals` of at least 1, the text that Rust's `{:0width$.decimals$}`
/// writes for that number.
pub open spec fn fixed_point_bytes(value: int, decimals: nat, width: int) -> Seq<u8> {
    let magnitude = if value < 0 {
        -value
    } else {
        value
    };
    let body = decimal_bytes((magnitude / pow10(decimals) as int) as nat) + seq![0x2Eu8]
        + zero_padded(decimal_bytes((magnitude % pow10(decimals) as int) as nat), decimals as int);
    if value < 0 {
        seq![0x2Du8] + zero_padded(body, width - 1)
    } else {
        zero_padded(body, width)
    }
}

/// Powers of ten are positive and grow with the exponent.
pub proof fn lemma_pow10_monotonic(a: nat, b: nat)
    requires
        a <= b,
    ensures
        1 <= pow10(a) <= pow10(b),
    decreases b,
{
    if b > a {
        lemma_pow10_monotonic(a, (b - 1) as nat);
    } else if a > 0 {
        lemma_pow10_monotonic(0, (a - 1) as nat);
    }
}

/// A number below `10^k` has at most `k` decimal digits.
pub proof fn lemma_decimal_length_bound(n: nat, k: nat)
    requires
        k >= 1,
        n < pow10(k),
    ensures
        decimal_bytes(n).len() <= k,
    decreases n,
{
    if n >= 10 {
        if k < 2 {
            assert(pow10(1) == 10) by {
                reveal_with_fuel(pow10, 2);
            }
        } else {
            lemma_decimal_length_bound(n / 10, (k - 1) as nat);
        }
    }
}

/// Ten to the power of a sum is the product of the powers.
proof fn lemma_pow10_add(a: nat, b: nat)
    ensures
        pow10(a + b) == pow10(a) * pow10(b),
    decreases a,
{
    if a > 0 {
        let smaller = (a - 1) as nat;
        lemma_pow10_add(smaller, b);
        assert(pow10(a) == 10 * pow10(smaller));
        assert((smaller + b) as nat == (a + b - 1) as nat);
        assert(pow10(a + b) == 10 * pow10((smaller + b) as nat));
        assert(10 * (pow10(smaller) * pow10(b)) == (10 * pow10(smaller)) * pow10(b))
            by (nonlinear_arith);
    } else {
        assert(pow10(0) == 1);
        assert(a + b == b);
    }
}

/// Zero padding a text no longer than `width` makes it `width` bytes long.
pub proof fn lemma_zero_padded_len(text: Seq<u8>, width: int)
    requires
        text.len() <= width,
    ensures
        zero_padded(text, width).len() == width,
{
}

/// The fixed-point text of a value whose integer part fits is exactly
/// `width` bytes long: a value below `10^(width - 1)`, or a negative value
/// above `-10^(width - 2)`, with at least one decimal and room for the
/// point and one integer digit (and the sign).
pub proof fn lemma_fixed_point_width(value: int, decimals: nat, width: int)
    requires
        decimals >= 1,
        value >= 0 ==> width >= decimals + 2 && value < pow10((width - 1) as nat),
        value < 0 ==> width >= decimals + 3 && -value < pow10((width - 2) as nat),
    ensures
        fixed_point_bytes(value, decimals, width).len() == width,
{
    let magnitude = if value < 0 {
        -value
    } else {
        value
    };
    let body_width = if value < 0 {
        width - 1
    } else {
        width
    };
    let scale = pow10(decimals) as int;
    lemma_pow10_monotonic(0, decimals);
    let integer_part = magnitude / scale;
    let fraction = magnitude % scale;
    let integer_width = (body_width - 1 - decimals) as nat;
    lemma_pow10_add(integer_width, decimals);
    lemma_pow10_monotonic(0, integer_width);
    assert(magnitude < pow10(integer_width) * scale);
    assert(integer_part < pow10(integer_width)) by (nonlinear_arith)
        requires
            integer_part == magnitude / scale,
            magnitude < pow10(integer_width) * scale,
            scale >= 1,
            magnitude >= 0,
    ;
    lemma_decimal_length_bound(integer_part as nat, integer_width);
    lemma_decimal_length_bound(fraction as nat, decimals);
    let body = decimal_bytes(integer_part as nat) + seq![0x2Eu8] + zero_padded(
        decimal_bytes(fraction as nat),
        decimals as int,
    );
    lemma_zero_padded_len(decimal_bytes(fraction as nat), decimals as int);
    lemma_zero_padded_len(body, body_width);
}

/// Ten to the power `n`, for `n` up to 18.
pub fn power_of_ten(n: u32) -> (power: u64)
    requires
        n <= 18,
    ensures
        power == pow10(n as nat),
        power >= 1,
{
    assert(pow10(18) == 1_000_000_000_000_000_000) by {
        reveal_with_fuel(pow10, 19);
    }
    let mut power: u64 = 1;
    let mut k: u32 = 0;
    while k < n
        invariant
            k <= n <= 18,
            power == pow10(k as nat),
            pow10(18) == 1_000_000_000_000_000_000,
        decreases n - k,
    {
        proof {
            lemma_pow10_monotonic((k + 1) as nat, 18);
        }
        power = power * 10;
        k = k + 1;
    }
    proof {
        lemma_pow10_monotonic(0, n as nat);
    }
    power
}

/// The number of decimal digits of `n`.
pub fn decimal_length(n: u64) -> (length: usize)
    ensures
        length == decimal_bytes(n as nat).len(),
        1 <= length <= 20,
    decreases n,
{
    if n < 10 {
        1
    } else {
        proof {
            assert(pow10(19) == 10_000_000_000_000_000_000) by {
                reveal_with_fuel(pow10, 20);
            }
            lemma_decimal_length_bound((n / 10) as nat, 19);
        }
        decimal_length(n / 10) + 1
    }
}

/// Append the ASCII decimal digits of `n` to `out`.
pub fn push_decimal(out: &mut Vec<u8>, n: u64)
    ensures
        final(out)@ == old(out)@ + decimal_bytes(n as nat),
    decreases n,
{
    if n >= 10 {
        push_decimal(out, n / 10);
    }
    out.push(0x30 + (n % 10) as u8);
    proof {
        if n >= 10 {
            assert(final(out)@ =~= old(out)@ + decimal_bytes(n as nat));
        } else {
            assert(final(out)@ =~= old(out)@ + decimal_bytes(n as nat));
        }
    }
}

/// Append the ASCII decimal digits of `n` to `out`, with zeros in front up
/// to `width` digits.
pub fn push_zero_padded(out: &mut Vec<u8>, n: u64, width: usize)
    ensures
        final(out)@ == old(out)@ + zero_padded(decimal_bytes(n as nat), width as int),
{
    let length = decimal_length(n);
    let ghost start = out@;
    if length < width {
        let mut k: usize = 0;
        while k < width - length
            invariant
                length < width,
                k <= width - length,
                out@ == start + Seq::new(k as nat, |i: int| 0x30u8),
            decreases width - length - k,
        {
            out.push(0x30);
            k = k + 1;
            assert(out@ =~= start + Seq::new(k as nat, |i: int| 0x30u8));
        }
    }
    let ghost padded = out@;
    push_decimal(out, n);
    assert(out@ =~= start + zero_padded(decimal_bytes(n as nat), width as int));
}

/// Append the fixed-point text of `value / 10^decimals` (see
/// `fixed_point_bytes`) to `out`.
pub fn push_fixed_point(out: &mut Vec<u8>, value: i64, decimals: u32, width: usize)
    requires
        1 <= decimals <= 18,
        width >= 1,
    ensures
        final(out)@ == old(out)@ + fixed_point_bytes(value as int, decimals as nat, width as int),
{
    let magnitude: u64 = if value < 0 {
        (-(value + 1)) as u64 + 1
    } else {
        value as u64
    };
    let scale = power_of_ten(decimals);
    let integer_part = magnitude / scale;
    let fraction = magnitude % scale;
    let mut body: Vec<u8> = Vec::new();
    push_decimal(&mut body, integer_part);
    body.push(0x2E);
    push_zero_padded(&mut body, fraction, decimals as usize);
    let ghost start = out@;
    let body_width: usize = if value < 0 {
        out.push(0x2D);
        width - 1
    } else {
        width
    };
    let ghost signed = out@;
    let body_length = body.len();
    if body_length < body_width {
        let mut k: usize = 0;
        while k < body_width - body_length
            invariant
                body_length < body_width,
                k <= body_width - body_length,
                out@ == signed + Seq::new(k as nat, |i: int| 0x30u8),
            decreases body_width - body_length - k,
        {
            out.push(0x30);
            k = k + 1;
            assert(out@ =~= signed + Seq::new(k as nat, |i: int| 0x30u8));
        }
    }
    let mut i: usize = 0;
    let ghost padded = out@;
    while i < body_length
        invariant
            i <= body_length,
            body_length == body@.len(),
            out@ == padded + body@.subrange(0, i as int),
        decreases body_length - i,
    {
        out.push(body[i]);
        i = i + 1;
        assert(out@ =~= padded + body@.subrange(0, i as int));
    }
    assert(body@.subrange(0, body_length as int) =~= body@);
    assert(out@ =~= start + fixed_point_bytes(value as int, decimals as nat, width as int));
}

} // verus!
