use vstd::prelude::*;

verus! {

/// A row of the sample table, as the storage engine returns it.
pub struct MyField {
    pub id: i64,
    pub test_field: String,
}

/// The same row as the user interface sees it, with the id as text.
pub struct MyFieldTs {
    pub id: Option<String>,
    pub test_field: String,
}

/// The decimal text of `n`: a minus sign for negatives, then the digits of the
/// magnitude without leading zeros.
pub open spec fn decimal_text(n: int) -> Seq<char> {
    if n < 0 {
        seq!['-'] + digits_text(-n)
    } else {
        digits_text(n)
    }
}

/// The decimal digits of a natural number, without leading zeros.
pub open spec fn digits_text(n: int) -> Seq<char>
    decreases n,
{
    if n < 10 {
        seq![digit_char(n)]
    } else {
        digits_text(n / 10) + seq![digit_char(n % 10)]
    }
}

pub open spec fn digit_char(d: int) -> char {
    (('0' as int) + d) as char
}

/// The one-character text of a decimal digit.
fn digit_str(d: u64) -> (r: &'static str)
    requires
        d < 10,
    ensures
        r@ == seq![digit_char(d as int)],
{
    match d {
        0 => {
            proof {
                reveal_strlit("0");
            }
            "0"
        },
        1 => {
            proof {
                reveal_strlit("1");
            }
            "1"
        },
        2 => {
            proof {
                reveal_strlit("2");
            }
            "2"
        },
        3 => {
            proof {
                reveal_strlit("3");
            }
            "3"
        },
        4 => {
            proof {
                reveal_strlit("4");
            }
            "4"
        },
        5 => {
            proof {
                reveal_strlit("5");
            }
            "5"
        },
        6 => {
            proof {
                reveal_strlit("6");
            }
            "6"
        },
        7 => {
            proof {
                reveal_strlit("7");
            }
            "7"
        },
        8 => {
            proof {
                reveal_strlit("8");
            }
            "8"
        },
        _ => {
            proof {
                reveal_strlit("9");
            }
            "9"
        },
    }
}

/// The decimal digits of `m`.
fn digits_string(m: u64) -> (r: String)
    ensures
        r@ == digits_text(m as int),
    decreases m,
{
    if m < 10 {
        String::from_str(digit_str(m))
    } else {
        let mut s = digits_string(m / 10);
        s.append(digit_str(m % 10));
        s
    }
}

/// The decimal text of `n`, as `i64`'s `Display` writes it.
fn i64_text(n: i64) -> (r: String)
    ensures
        r@ == decimal_text(n as int),
{
    if n < 0 {
        let magnitude: u64 = (0i128 - n as i128) as u64;
        let mut s = String::from_str("-");
        proof {
            reveal_strlit("-");
        }
        let digits = digits_string(magnitude);
        s.append(digits.as_str());
        s
    } else {
        digits_string(n as u64)
    }
}

impl MyFieldTs {
    /// Converts a stored row into its interface form.
    pub fn from_row(value: &MyField) -> (r: MyFieldTs)
        ensures
            r.id is Some,
            r.id->Some_0@ == decimal_text(value.id as int),
            r.test_field@ == value.test_field@,
    {
        MyFieldTs { id: Some(i64_text(value.id)), test_field: value.test_field.clone() }
    }
}

} // verus!
