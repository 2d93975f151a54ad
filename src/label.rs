use vstd::prelude::*;

verus! {

/// The character of the decimal digit `d`.
pub open spec fn digit_char(d: nat) -> char {
    ((d + 48) as u8) as char
}

/// The decimal digits of `n`, most significant first, without leading zeros ("0" for 0).
pub open spec fn digits(n: nat) -> Seq<char>
    decreases n,
{
    if n < 10 {
        seq![digit_char(n)]
    } else {
        digits(n / 10).push(digit_char(n % 10))
    }
}

/// The digits of `n`, with zeros in front to make at least `width` of them.
pub open spec fn padded_digits(n: nat, width: nat) -> Seq<char> {
    let d = digits(n);
    if d.len() < width {
        Seq::new((width - d.len()) as nat, |i: int| '0') + d
    } else {
        d
    }
}

/// The text of `value` units of `10^-precision`: a minus sign if it is negative, then
/// its magnitude with `precision` decimals after a point (no point for none) and at
/// least one digit before it.
pub open spec fn label_text_spec(value: int, precision: nat) -> Seq<char> {
    let m = (if value < 0 {
        -value
    } else {
        value
    }) as nat;
    let body = if precision == 0 {
        digits(m)
    } else {
        let t = padded_digits(m, precision + 1);
        t.subrange(0, t.len() - precision) + seq!['.'] + t.subrange(
            t.len() - precision,
            t.len() as int,
        )
    };
    if value < 0 {
        seq!['-'] + body
    } else {
        body
    }
}

fn digit(d: u64) -> (c: char)
    requires
        d < 10,
    ensures
        c == digit_char(d as nat),
{
    ((d as u8) + 48) as char
}

/// The text a slider's label shows for `value`, with `precision` decimals.
pub fn label_text(value: i64, precision: usize) -> (r: Vec<char>)
    requires
        precision < usize::MAX,
    ensures
        r@ == label_text_spec(value as int, precision as nat),
{
    let m: u64 = if value < 0 {
        (-(value as i128)) as u64
    } else {
        value as u64
    };
    let mut n = m;
    let mut out: Vec<char> = Vec::new();
    loop
        invariant_except_break
            digits(m as nat) == digits(n as nat) + out@,
        ensures
            out@ == digits(m as nat),
        decreases n,
    {
        let c = digit(n % 10);
        let ghost before = out@;
        out.insert(0, c);
        if n < 10 {
            assert(out@ =~= digits(n as nat) + before);
            assert(out@ =~= digits(m as nat));
            break;
        }
        assert(digits(n as nat) == digits((n / 10) as nat).push(digit_char((n % 10) as nat)));
        assert(digits((n / 10) as nat) + out@ =~= digits(n as nat) + before);
        n = n / 10;
    }
    assert(out@ =~= digits(m as nat));
    if precision > 0 {
        let ghost d = out@;
        while out.len() < precision + 1
            invariant
                out@ =~= Seq::new((out@.len() - d.len()) as nat, |i: int| '0') + d,
                out@.len() >= d.len(),
                out@.len() == d.len() || out@.len() <= precision + 1,
                precision < usize::MAX,
                d == digits(m as nat),
            decreases precision + 1 - out.len(),
        {
            out.insert(0, '0');
        }
        proof {
            if d.len() < precision + 1 {
                assert(out@.len() == precision + 1);
            } else {
                assert(out@.len() == d.len());
            }
        }
        assert(out@ =~= padded_digits(m as nat, (precision + 1) as nat));
        let ghost t = out@;
        let at = out.len() - precision;
        out.insert(at, '.');
        assert(out@ =~= t.subrange(0, t.len() - precision) + seq!['.'] + t.subrange(
            t.len() - precision,
            t.len() as int,
        ));
    }
    if value < 0 {
        out.insert(0, '-');
    }
    out
}

} // verus!
