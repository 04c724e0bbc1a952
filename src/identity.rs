//! Identities of the simulated entities: a two-character prefix followed by
//! a decimal number, shifted by the entity's index.
use vstd::prelude::*;

verus! {

pub open spec fn is_digit(c: char) -> bool {
    '0' <= c && c <= '9'
}

pub open spec fn all_digits(s: Seq<char>) -> bool {
    forall|i: int| 0 <= i < s.len() ==> is_digit(#[trigger] s[i])
}

/// The number that a string of decimal digits stands for.
pub open spec fn digits_value(s: Seq<char>) -> nat
    decreases s.len(),
{
    if s.len() == 0 {
        0
    } else {
        digits_value(s.drop_last()) * 10 + ((s.last() as int - '0' as int) as nat)
    }
}

pub open spec fn digit_char(d: nat) -> char {
    (('0' as nat) + d % 10) as char
}

/// The shortest decimal spelling of `n`.
pub open spec fn decimal(n: nat) -> Seq<char>
    decreases n,
{
    if n < 10 {
        seq![digit_char(n)]
    } else {
        decimal(n / 10).push(digit_char(n % 10))
    }
}

/// The decimal spelling of `n`, padded with zeros on the left to two places.
pub open spec fn padded2(n: nat) -> Seq<char> {
    if n < 10 {
        seq!['0', digit_char(n)]
    } else {
        decimal(n)
    }
}

/// A starting identity is well formed when it has a two-character prefix and
/// a non-empty decimal suffix.
pub open spec fn well_formed_start(s: Seq<char>) -> bool {
    s.len() >= 3 && all_digits(s.subrange(2, s.len() as int))
}

pub open spec fn start_number(s: Seq<char>) -> nat {
    digits_value(s.subrange(2, s.len() as int))
}

/// The identity of the entity at offset `n` from the starting identity `s`.
pub open spec fn derived_identity(s: Seq<char>, n: nat) -> Seq<char> {
    s.subrange(0, 2) + padded2(start_number(s) + n)
}

/// The one-character spelling of the decimal digit `d`.
fn digit_str(d: u32) -> (r: &'static str)
    requires
        d < 10,
    ensures
        r@ == seq![digit_char(d as nat)],
{
    match d {
        0 => {
            proof {
                reveal_strlit("0");
            }
            "0"
        },
        1 => {
            proof {
                reveal_strlit("1");
            }
            "1"
        },
        2 => {
            proof {
                reveal_strlit("2");
            }
            "2"
        },
        3 => {
            proof {
                reveal_strlit("3");
            }
            "3"
        },
        4 => {
            proof {
                reveal_strlit("4");
            }
            "4"
        },
        5 => {
            proof {
                reveal_strlit("5");
            }
            "5"
        },
        6 => {
            proof {
                reveal_strlit("6");
            }
            "6"
        },
        7 => {
            proof {
                reveal_strlit("7");
            }
            "7"
        },
        8 => {
            proof {
                reveal_strlit("8");
            }
            "8"
        },
        _ => {
            proof {
                reveal_strlit("9");
            }
            "9"
        },
    }
}

/// The shortest decimal spelling of `n`.
fn decimal_string(n: u32) -> (r: String)
    ensures
        r@ == decimal(n as nat),
    decreases n,
{
    if n < 10 {
        String::from_str(digit_str(n))
    } else {
        let mut r = decimal_string(n / 10);
        r.append(digit_str(n % 10));
        assert(decimal(n as nat) =~= decimal((n / 10) as nat) + seq![digit_char((n % 10) as nat)]);
        r
    }
}

/// The decimal spelling of `n`, zero-padded on the left to two places.
fn padded_string(n: u32) -> (r: String)
    ensures
        r@ == padded2(n as nat),
{
    if n < 10 {
        proof {
            reveal_strlit("0");
        }
        let mut r = String::from_str("0");
        r.append(digit_str(n));
        assert(r@ =~= padded2(n as nat));
        r
    } else {
        decimal_string(n)
    }
}

proof fn lemma_digits_value_push(s: Seq<char>, c: char)
    ensures
        digits_value(s.push(c)) == digits_value(s) * 10 + ((c as int - '0' as int) as nat),
{
    assert(s.push(c).drop_last() =~= s);
}

proof fn lemma_digits_value_grows(s: Seq<char>, i: int)
    requires
        0 <= i <= s.len(),
        all_digits(s),
    ensures
        digits_value(s.subrange(0, i)) <= digits_value(s),
    decreases s.len() - i,
{
    if i < s.len() {
        lemma_digits_value_grows(s, i + 1);
        let t = s.subrange(0, i);
        assert(s.subrange(0, i + 1) =~= t.push(s[i]));
        lemma_digits_value_push(t, s[i]);
    } else {
        assert(s.subrange(0, i) =~= s);
    }
}

/// Derives the identity of the entity at offset `n`: the first two characters
/// of `starting_id`, then the number spelled by the rest plus `n`, at least two
/// digits wide. `None` when the start is malformed or the number leaves `u32`.
pub fn generate_plane_id(starting_id: &str, n: u32) -> (r: Option<String>)
    ensures
        r is Some <==> (well_formed_start(starting_id@) && start_number(starting_id@) + n
            <= u32::MAX),
        r is Some ==> r->Some_0@ == derived_identity(starting_id@, n as nat),
{
    let s = Ghost(starting_id@);
    let len = starting_id.unicode_len();
    if len < 3 {
        return None;
    }
    let suffix = Ghost(s@.subrange(2, len as int));
    let mut value: u64 = 0;
    let mut i: usize = 2;
    while i < len
        invariant
            2 <= i <= len,
            len == s@.len(),
            starting_id@ == s@,
            suffix@ == s@.subrange(2, len as int),
            all_digits(suffix@.subrange(0, i - 2)),
            value as nat == digits_value(suffix@.subrange(0, i - 2)),
            value <= u32::MAX,
        decreases len - i,
    {
        let c = starting_id.get_char(i);
        if !('0' <= c && c <= '9') {
            assert(suffix@[i - 2] == c);
            return None;
        }
        let d = (c as u32 - '0' as u32) as u64;
        proof {
            let t = suffix@.subrange(0, i - 2);
            assert(suffix@.subrange(0, i - 1) =~= t.push(c));
            lemma_digits_value_push(t, c);
        }
        value = value * 10 + d;
        i = i + 1;
        if value > u32::MAX as u64 {
            proof {
                if all_digits(suffix@) {
                    lemma_digits_value_grows(suffix@, i - 2);
                }
            }
            return None;
        }
    }
    assert(suffix@.subrange(0, len - 2) =~= suffix@);
    if value + n as u64 > u32::MAX as u64 {
        return None;
    }
    let number = (value + n as u64) as u32;
    let prefix = starting_id.substring_char(0, 2);
    let mut id = String::from_str(prefix);
    let digits = padded_string(number);
    id.append(digits.as_str());
    Some(id)
}

} // verus!
