//! Lowercase hexadecimal text of a byte sequence, two digits per byte.
use vstd::prelude::*;
use itertools::Itertools;

verus! {

/// The lowercase hexadecimal digit of `n`, for `n < 16`.
pub open spec fn hex_digit(n: u8) -> char {
    seq!['0', '1', '2', '3', '4', '5', '6', '7', '8', '9', 'a', 'b', 'c', 'd', 'e', 'f'][n as int]
}

/// The two digits of one byte, the high one first.
pub open spec fn hex_byte(b: u8) -> Seq<char> {
    seq![hex_digit(b / 16), hex_digit(b % 16)]
}

/// The digits of every byte of `s`, in order.
pub open spec fn hex_of(s: Seq<u8>) -> Seq<char>
    decreases s.len(),
{
    if s.len() == 0 {
        Seq::empty()
    } else {
        hex_byte(s[0]) + hex_of(s.drop_first())
    }
}

/// The text of one digit.
fn digit_str(n: u8) -> (r: &'static str)
    requires
        n < 16,
    ensures
        r@ == seq![hex_digit(n)],
{
    match n {
        0 => {
            proof {
                reveal_strlit("0");
            }
            "0"
        },
        1 => {
            proof {
                reveal_strlit("1");
            }
            "1"
        },
        2 => {
            proof {
                reveal_strlit("2");
            }
            "2"
        },
        3 => {
            proof {
                reveal_strlit("3");
            }
            "3"
        },
        4 => {
            proof {
                reveal_strlit("4");
            }
            "4"
        },
        5 => {
            proof {
                reveal_strlit("5");
            }
            "5"
        },
        6 => {
            proof {
                reveal_strlit("6");
            }
            "6"
        },
        7 => {
            proof {
                reveal_strlit("7");
            }
            "7"
        },
        8 => {
            proof {
                reveal_strlit("8");
            }
            "8"
        },
        9 => {
            proof {
                reveal_strlit("9");
            }
            "9"
        },
        10 => {
            proof {
                reveal_strlit("a");
            }
            "a"
        },
        11 => {
            proof {
                reveal_strlit("b");
            }
            "b"
        },
        12 => {
            proof {
                reveal_strlit("c");
            }
            "c"
        },
        13 => {
            proof {
                reveal_strlit("d");
            }
            "d"
        },
        14 => {
            proof {
                reveal_strlit("e");
            }
            "e"
        },
        _ => {
            proof {
                reveal_strlit("f");
            }
            "f"
        },
    }
}

/// The two digits of one byte.
fn byte_hex(b: u8) -> (r: String)
    ensures
        r@ == hex_byte(b),
{
    let mut s = String::new();
    s.append(digit_str(b / 16));
    s.append(digit_str(b % 16));
    assert(s@ =~= hex_byte(b));
    s
}

/// Relies on itertools' `Itertools::join`: with an empty separator it writes
/// each part's text in turn, so the result is their concatenation.
#[verifier::external_body]
fn concat_parts(parts: &Vec<String>) -> (r: String)
    ensures
        r@ == parts@.map_values(|p: String| p@).flatten(),
{
    parts.iter().join("")
}

proof fn lemma_flatten_hex(parts: Seq<Seq<char>>, bytes: Seq<u8>)
    requires
        parts.len() == bytes.len(),
        forall|i: int| 0 <= i < parts.len() ==> parts[i] == hex_byte(#[trigger] bytes[i]),
    ensures
        parts.flatten() == hex_of(bytes),
    decreases bytes.len(),
{
    if bytes.len() > 0 {
        let (p, b) = (parts.drop_first(), bytes.drop_first());
        assert forall|i: int| 0 <= i < p.len() implies p[i] == hex_byte(#[trigger] b[i]) by {
            assert(parts[i + 1] == hex_byte(bytes[i + 1]));
        }
        lemma_flatten_hex(p, b);
    }
}

/// The lowercase hexadecimal text of `bytes`, two digits per byte, with no
/// separator.
pub fn hex_string(bytes: &Vec<u8>) -> (r: String)
    ensures
        r@ == hex_of(bytes@),
{
    let mut parts: Vec<String> = Vec::new();
    let mut i: usize = 0;
    while i < bytes.len()
        invariant
            i <= bytes.len(),
            parts.len() == i,
            forall|j: int| 0 <= j < i ==> (#[trigger] parts@[j])@ == hex_byte(bytes@[j]),
        decreases bytes.len() - i,
    {
        parts.push(byte_hex(bytes[i]));
        i = i + 1;
    }
    let r = concat_parts(&parts);
    let ghost views = parts@.map_values(|p: String| p@);
    proof {
        assert forall|j: int| 0 <= j < views.len() implies views[j] == hex_byte(#[trigger] bytes@[j]) by {
            assert((parts@[j])@ == hex_byte(bytes@[j]));
        }
        lemma_flatten_hex(views, bytes@);
    }
    r
}

} // verus!
