use vstd::prelude::*;

verus! {

/// The character for one hex digit (decimal digits included), upper case.
pub open spec fn spec_hex_digit(n: int) -> char {
    if n == 0 {
        '0'
    } else if n == 1 {
        '1'
    } else if n == 2 {
        '2'
    } else if n == 3 {
        '3'
    } else if n == 4 {
        '4'
    } else if n == 5 {
        '5'
    } else if n == 6 {
        '6'
    } else if n == 7 {
        '7'
    } else if n == 8 {
        '8'
    } else if n == 9 {
        '9'
    } else if n == 10 {
        'A'
    } else if n == 11 {
        'B'
    } else if n == 12 {
        'C'
    } else if n == 13 {
        'D'
    } else if n == 14 {
        'E'
    } else {
        'F'
    }
}

/// A value in hex, four digits, zero-padded.
pub open spec fn spec_hex4(w: u16) -> Seq<char> {
    seq![
        spec_hex_digit(w as int / 0x1000),
        spec_hex_digit((w as int / 0x100) % 16),
        spec_hex_digit((w as int / 16) % 16),
        spec_hex_digit(w as int % 16),
    ]
}

/// A byte in hex, two digits, zero-padded.
pub open spec fn spec_hex2(b: u8) -> Seq<char> {
    seq![spec_hex_digit(b as int / 16), spec_hex_digit(b as int % 16)]
}

/// A value in hex at its natural width: at least one digit, no padding.
pub open spec fn spec_hex_var(n: int) -> Seq<char>
    decreases n,
{
    if n < 16 {
        seq![spec_hex_digit(n)]
    } else {
        spec_hex_var(n / 16).push(spec_hex_digit(n % 16))
    }
}

/// A value in hex, zero-padded to four digits, wider only when it needs
/// more than four.
pub open spec fn spec_hex_min4(n: int) -> Seq<char> {
    if n < 0x10000 {
        spec_hex4(n as u16)
    } else {
        spec_hex_var(n)
    }
}

/// The low `width` bits of a value in binary, zero-padded, most significant
/// bit first.
pub open spec fn spec_bin(v: int, width: nat) -> Seq<char>
    decreases width,
{
    if width == 0 {
        Seq::empty()
    } else {
        spec_bin(v / 2, (width - 1) as nat).push(spec_hex_digit(v % 2))
    }
}

/// A value in decimal, no padding.
pub open spec fn spec_dec(n: int) -> Seq<char>
    decreases n,
{
    if n < 10 {
        seq![spec_hex_digit(n)]
    } else {
        spec_dec(n / 10).push(spec_hex_digit(n % 10))
    }
}

/// The str slice holding exactly one hex digit.
pub(crate) fn hex_digit_str(n: u8) -> (s: &'static str)
    requires
        n < 16,
    ensures
        s@ == seq![spec_hex_digit(n as int)],
{
    proof {
        reveal_strlit("0");
        reveal_strlit("1");
        reveal_strlit("2");
        reveal_strlit("3");
        reveal_strlit("4");
        reveal_strlit("5");
        reveal_strlit("6");
        reveal_strlit("7");
        reveal_strlit("8");
        reveal_strlit("9");
        reveal_strlit("A");
        reveal_strlit("B");
        reveal_strlit("C");
        reveal_strlit("D");
        reveal_strlit("E");
        reveal_strlit("F");
    }
    let s = if n == 0 {
        "0"
    } else if n == 1 {
        "1"
    } else if n == 2 {
        "2"
    } else if n == 3 {
        "3"
    } else if n == 4 {
        "4"
    } else if n == 5 {
        "5"
    } else if n == 6 {
        "6"
    } else if n == 7 {
        "7"
    } else if n == 8 {
        "8"
    } else if n == 9 {
        "9"
    } else if n == 10 {
        "A"
    } else if n == 11 {
        "B"
    } else if n == 12 {
        "C"
    } else if n == 13 {
        "D"
    } else if n == 14 {
        "E"
    } else {
        "F"
    };
    proof {
        assert(s@ =~= seq![spec_hex_digit(n as int)]);
    }
    s
}

/// Appends a value in hex, four digits, zero-padded.
pub(crate) fn push_hex4(out: &mut String, w: u16)
    ensures
        final(out)@ == old(out)@ + spec_hex4(w),
{
    out.append(hex_digit_str((w / 0x1000) as u8));
    out.append(hex_digit_str(((w / 0x100) % 16) as u8));
    out.append(hex_digit_str(((w / 16) % 16) as u8));
    out.append(hex_digit_str((w % 16) as u8));
    proof {
        assert(out@ =~= old(out)@ + spec_hex4(w));
    }
}

/// Appends a byte in hex, two digits, zero-padded.
pub(crate) fn push_hex2(out: &mut String, b: u8)
    ensures
        final(out)@ == old(out)@ + spec_hex2(b),
{
    out.append(hex_digit_str(b / 16));
    out.append(hex_digit_str(b % 16));
    proof {
        assert(out@ =~= old(out)@ + spec_hex2(b));
    }
}

/// Appends a value in hex at its natural width.
pub(crate) fn push_hex_var(out: &mut String, n: usize)
    ensures
        final(out)@ == old(out)@ + spec_hex_var(n as int),
    decreases n,
{
    if n < 16 {
        out.append(hex_digit_str(n as u8));
        proof {
            assert(out@ =~= old(out)@ + spec_hex_var(n as int));
        }
    } else {
        push_hex_var(out, n / 16);
        out.append(hex_digit_str((n % 16) as u8));
        proof {
            assert(out@ =~= old(out)@ + spec_hex_var(n as int));
        }
    }
}

/// Appends the low `width` bits of a value in binary, most significant
/// bit first.
pub(crate) fn push_bin(out: &mut String, v: u16, width: u8)
    ensures
        final(out)@ == old(out)@ + spec_bin(v as int, width as nat),
    decreases width,
{
    if width == 0 {
        proof {
            assert(out@ =~= old(out)@ + spec_bin(v as int, 0));
        }
        return ;
    }
    push_bin(out, v / 2, width - 1);
    out.append(hex_digit_str((v % 2) as u8));
    proof {
        assert(out@ =~= old(out)@ + spec_bin(v as int, width as nat));
    }
}

/// Appends a value in decimal.
pub(crate) fn push_dec(out: &mut String, n: u16)
    ensures
        final(out)@ == old(out)@ + spec_dec(n as int),
    decreases n,
{
    if n < 10 {
        out.append(hex_digit_str(n as u8));
        proof {
            assert(out@ =~= old(out)@ + spec_dec(n as int));
        }
    } else {
        push_dec(out, n / 10);
        out.append(hex_digit_str((n % 10) as u8));
        proof {
            assert(out@ =~= old(out)@ + spec_dec(n as int));
        }
    }
}

} // verus!
