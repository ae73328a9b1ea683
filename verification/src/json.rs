//! The JSON subset the response encoder needs, rendered deterministically.
//!
//! Responses only ever hold string values and signed decimal numbers, so
//! this module defines exactly those two renderings and proves the
//! writers against them. Inside a string literal, the quote and the
//! backslash are escaped with a backslash and every control character is
//! written as a `\u00XX` sequence; every other character stands for
//! itself.

use vstd::prelude::*;

verus! {

/// Hexadecimal digit character of a value below sixteen.
pub open spec fn hex_char(n: int) -> char {
    if n == 0 {
        '0'
    } else if n == 1 {
        '1'
    } else if n == 2 {
        '2'
    } else if n == 3 {
        '3'
    } else if n == 4 {
        '4'
    } else if n == 5 {
        '5'
    } else if n == 6 {
        '6'
    } else if n == 7 {
        '7'
    } else if n == 8 {
        '8'
    } else if n == 9 {
        '9'
    } else if n == 10 {
        'a'
    } else if n == 11 {
        'b'
    } else if n == 12 {
        'c'
    } else if n == 13 {
        'd'
    } else if n == 14 {
        'e'
    } else {
        'f'
    }
}

/// How one character is written inside a JSON string literal.
pub open spec fn json_escape_char(c: char) -> Seq<char> {
    if c == '"' {
        seq!['\\', '"']
    } else if c == '\\' {
        seq!['\\', '\\']
    } else if (c as u32) < 32 {
        seq!['\\', 'u', '0', '0', hex_char(c as u32 as int / 16), hex_char(c as u32 as int % 16)]
    } else {
        seq![c]
    }
}

/// How a whole character sequence is written inside a JSON string
/// literal.
pub open spec fn json_escape(s: Seq<char>) -> Seq<char>
    decreases s.len(),
{
    if s.len() == 0 {
        Seq::empty()
    } else {
        json_escape_char(s[0]) + json_escape(s.skip(1))
    }
}

/// A JSON string literal holding `s`: quoted and escaped.
pub open spec fn json_string(s: Seq<char>) -> Seq<char> {
    seq!['"'] + json_escape(s) + seq!['"']
}

/// Decimal digit characters of a non-negative number, most significant
/// digit first.
pub open spec fn dec_digits(n: nat) -> Seq<char>
    decreases n,
{
    if n < 10 {
        seq![hex_char(n as int)]
    } else {
        dec_digits(n / 10).push(hex_char(n as int % 10))
    }
}

/// Decimal rendering of a signed number: a minus sign, if the number is
/// negative, followed by the digits of its magnitude.
pub open spec fn dec_str(v: int) -> Seq<char> {
    if v < 0 {
        seq!['-'] + dec_digits((-v) as nat)
    } else {
        dec_digits(v as nat)
    }
}

/// Escaping a sequence one character longer escapes the appended
/// character after the rest.
pub proof fn lemma_json_escape_push(s: Seq<char>, c: char)
    ensures
        json_escape(s.push(c)) == json_escape(s) + json_escape_char(c),
    decreases s.len(),
{
    if s.len() == 0 {
        assert(s.push(c)[0] == c);
        assert(s.push(c).skip(1) =~= Seq::<char>::empty());
        assert(json_escape(Seq::<char>::empty()) =~= Seq::<char>::empty());
        assert(json_escape(s.push(c)) == json_escape_char(c) + json_escape(
            Seq::<char>::empty(),
        ));
        assert(json_escape_char(c) + Seq::<char>::empty() =~= json_escape_char(c));
        assert(json_escape(s) =~= Seq::<char>::empty());
        assert(Seq::<char>::empty() + json_escape_char(c) =~= json_escape_char(c));
    } else {
        assert(s.push(c)[0] == s[0]);
        assert(s.push(c).skip(1) =~= s.skip(1).push(c));
        lemma_json_escape_push(s.skip(1), c);
        assert(json_escape(s.push(c)) =~= json_escape(s) + json_escape_char(c));
    }
}

/// The character of one hexadecimal digit, as a borrowed string.
fn hex_char_str(n: u64) -> (r: &'static str)
    requires
        n < 16,
    ensures
        r@ == seq![hex_char(n as int)],
{
    match n {
        0 => {
            proof {
                reveal_strlit("0");
            }
            "0"
        },
        1 => {
            proof {
                reveal_strlit("1");
            }
            "1"
        },
        2 => {
            proof {
                reveal_strlit("2");
            }
            "2"
        },
        3 => {
            proof {
                reveal_strlit("3");
            }
            "3"
        },
        4 => {
            proof {
                reveal_strlit("4");
            }
            "4"
        },
        5 => {
            proof {
                reveal_strlit("5");
            }
            "5"
        },
        6 => {
            proof {
                reveal_strlit("6");
            }
            "6"
        },
        7 => {
            proof {
                reveal_strlit("7");
            }
            "7"
        },
        8 => {
            proof {
                reveal_strlit("8");
            }
            "8"
        },
        9 => {
            proof {
                reveal_strlit("9");
            }
            "9"
        },
        10 => {
            proof {
                reveal_strlit("a");
            }
            "a"
        },
        11 => {
            proof {
                reveal_strlit("b");
            }
            "b"
        },
        12 => {
            proof {
                reveal_strlit("c");
            }
            "c"
        },
        13 => {
            proof {
                reveal_strlit("d");
            }
            "d"
        },
        14 => {
            proof {
                reveal_strlit("e");
            }
            "e"
        },
        _ => {
            proof {
                reveal_strlit("f");
            }
            "f"
        },
    }
}

/// Appends `s` to `out` with JSON string-literal escaping.
pub fn append_escaped(out: &mut String, s: &str)
    ensures
        final(out)@ == old(out)@ + json_escape(s@),
{
    let n = s.unicode_len();
    proof {
        assert(s@.subrange(0, 0) =~= Seq::<char>::empty());
        assert(old(out)@ + json_escape(s@.subrange(0, 0)) =~= old(out)@);
    }
    for i in 0..n
        invariant
            n == s@.len(),
            out@ == old(out)@ + json_escape(s@.subrange(0, i as int)),
    {
        let ghost done = s@.subrange(0, i as int);
        let c = s.get_char(i);
        proof {
            assert(done.push(c) =~= s@.subrange(0, i + 1));
            lemma_json_escape_push(done, c);
        }
        if c == '"' {
            out.append("\\\"");
            proof {
                reveal_strlit("\\\"");
                assert(out@ =~= old(out)@ + json_escape(s@.subrange(0, i + 1)));
            }
        } else if c == '\\' {
            out.append("\\\\");
            proof {
                reveal_strlit("\\\\");
                assert(out@ =~= old(out)@ + json_escape(s@.subrange(0, i + 1)));
            }
        } else if (c as u32) < 32 {
            out.append("\\u00");
            let code = c as u32;
            out.append(hex_char_str((code / 16) as u64));
            out.append(hex_char_str((code % 16) as u64));
            proof {
                reveal_strlit("\\u00");
                assert(out@ =~= old(out)@ + json_escape(s@.subrange(0, i + 1)));
            }
        } else {
            out.append(s.substring_char(i, i + 1));
            proof {
                assert(s@.subrange(i as int, i + 1) =~= seq![c]);
                assert(out@ =~= old(out)@ + json_escape(s@.subrange(0, i + 1)));
            }
        }
    }
    proof {
        assert(s@.subrange(0, n as int) =~= s@);
    }
}

/// Appends `s` to `out` as a JSON string literal.
pub fn append_json_string(out: &mut String, s: &str)
    ensures
        final(out)@ == old(out)@ + json_string(s@),
{
    out.append("\"");
    append_escaped(out, s);
    out.append("\"");
    proof {
        reveal_strlit("\"");
        assert(out@ =~= old(out)@ + json_string(s@));
    }
}

/// Appends the decimal digits of `v`, most significant first, to `out`.
fn append_u64_digits(out: &mut String, v: u64)
    ensures
        final(out)@ == old(out)@ + dec_digits(v as nat),
{
    let mut digits: Vec<u64> = Vec::new();
    let mut rem = v;
    let ghost mut tail: Seq<char> = Seq::empty();
    proof {
        assert(dec_digits(v as nat) =~= dec_digits(rem as nat) + tail);
    }
    while rem >= 10
        invariant
            dec_digits(v as nat) == dec_digits(rem as nat) + tail,
            digits@.len() == tail.len(),
            forall|j: int|
                0 <= j < tail.len() ==> digits@[j] < 10 && tail[tail.len() - 1 - j] == hex_char(
                    digits@[j] as int,
                ),
        decreases rem,
    {
        let d = rem % 10;
        proof {
            assert(dec_digits(rem as nat) == dec_digits((rem / 10) as nat).push(
                hex_char(d as int),
            ));
            assert(dec_digits((rem / 10) as nat) + (seq![hex_char(d as int)] + tail)
                =~= (dec_digits((rem / 10) as nat).push(hex_char(d as int))) + tail);
        }
        digits.push(d);
        rem = rem / 10;
        proof {
            tail = seq![hex_char(d as int)] + tail;
        }
    }
    out.append(hex_char_str(rem));
    let count = digits.len();
    proof {
        assert(dec_digits(rem as nat) =~= seq![hex_char(rem as int)]);
        assert(out@ + tail.subrange(0, 0) =~= out@);
    }
    for i in 0..count
        invariant
            count == digits@.len(),
            digits@.len() == tail.len(),
            forall|j: int|
                0 <= j < tail.len() ==> digits@[j] < 10 && tail[tail.len() - 1 - j] == hex_char(
                    digits@[j] as int,
                ),
            out@ == old(out)@ + dec_digits(rem as nat) + tail.subrange(0, i as int),
    {
        out.append(hex_char_str(digits[count - 1 - i]));
        proof {
            assert(tail.subrange(0, i as int).push(tail[i as int]) =~= tail.subrange(0, i + 1));
            assert(out@ =~= old(out)@ + dec_digits(rem as nat) + tail.subrange(0, i + 1));
        }
    }
    proof {
        assert(tail.subrange(0, tail.len() as int) =~= tail);
        assert(out@ =~= old(out)@ + dec_digits(v as nat));
    }
}

/// Appends the decimal rendering of `v` to `out`.
pub fn append_i64(out: &mut String, v: i64)
    ensures
        final(out)@ == old(out)@ + dec_str(v as int),
{
    if v < 0 {
        out.append("-");
        proof {
            reveal_strlit("-");
        }
        let magnitude: u64 = if v == i64::MIN {
            9223372036854775808u64
        } else {
            (-v) as u64
        };
        append_u64_digits(out, magnitude);
        proof {
            assert(out@ =~= old(out)@ + dec_str(v as int));
        }
    } else {
        append_u64_digits(out, v as u64);
    }
}

} // verus!
