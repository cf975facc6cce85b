use vstd::prelude::*;

verus! {

/// The decimal digit character of `d`, for `d < 10`.
pub open spec fn digit_char(d: int) -> char {
    ('0' as int + d) as char
}

/// The decimal text of `n`, for `n < 100`, without leading zeros.
pub open spec fn decimal_text(n: u8) -> Seq<char> {
    if n < 10 {
        seq![digit_char(n as int)]
    } else {
        seq![digit_char((n / 10) as int), digit_char((n % 10) as int)]
    }
}

/// The decimal texts of the two 4-bit halves of `byte`, high half first.
pub open spec fn nibbles_text(byte: u8) -> Seq<char> {
    decimal_text(byte / 16) + decimal_text(byte % 16)
}

/// Append the decimal text of `n` to `text`.
pub fn push_decimal(text: &mut String, n: u8)
    requires
        n < 16,
    ensures
        final(text)@ == old(text)@ + decimal_text(n),
{
    match n {
        0 => {
            proof {
                reveal_strlit("0");
            }
            text.append("0");
        },
        1 => {
            proof {
                reveal_strlit("1");
            }
            text.append("1");
        },
        2 => {
            proof {
                reveal_strlit("2");
            }
            text.append("2");
        },
        3 => {
            proof {
                reveal_strlit("3");
            }
            text.append("3");
        },
        4 => {
            proof {
                reveal_strlit("4");
            }
            text.append("4");
        },
        5 => {
            proof {
                reveal_strlit("5");
            }
            text.append("5");
        },
        6 => {
            proof {
                reveal_strlit("6");
            }
            text.append("6");
        },
        7 => {
            proof {
                reveal_strlit("7");
            }
            text.append("7");
        },
        8 => {
            proof {
                reveal_strlit("8");
            }
            text.append("8");
        },
        9 => {
            proof {
                reveal_strlit("9");
            }
            text.append("9");
        },
        10 => {
            proof {
                reveal_strlit("10");
            }
            text.append("10");
        },
        11 => {
            proof {
                reveal_strlit("11");
            }
            text.append("11");
        },
        12 => {
            proof {
                reveal_strlit("12");
            }
            text.append("12");
        },
        13 => {
            proof {
                reveal_strlit("13");
            }
            text.append("13");
        },
        14 => {
            proof {
                reveal_strlit("14");
            }
            text.append("14");
        },
        15 => {
            proof {
                reveal_strlit("15");
            }
            text.append("15");
        },
        _ => {},
    }
}

/// Append the decimal texts of the two 4-bit halves of `byte` to `text`,
/// high half first.
pub fn push_nibbles(text: &mut String, byte: u8)
    ensures
        final(text)@ == old(text)@ + nibbles_text(byte),
{
    let high = byte >> 4;
    let low = byte & 0x0F;
    assert(byte >> 4 == byte / 16) by (bit_vector);
    assert(byte & 0x0F == byte % 16) by (bit_vector);
    push_decimal(text, high);
    push_decimal(text, low);
    assert(text@ =~= old(text)@ + nibbles_text(byte));
}

} // verus!
