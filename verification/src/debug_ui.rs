//! The debug overlay's text: the player position rendered with two
//! decimals.

use vstd::prelude::*;
use vstd::string::StringExecFns;
use crate::Vec2;

verus! {

/// The character of one decimal digit.
pub open spec fn digit_char(d: int) -> char {
    if d == 0 {
        '0'
    } else if d == 1 {
        '1'
    } else if d == 2 {
        '2'
    } else if d == 3 {
        '3'
    } else if d == 4 {
        '4'
    } else if d == 5 {
        '5'
    } else if d == 6 {
        '6'
    } else if d == 7 {
        '7'
    } else if d == 8 {
        '8'
    } else {
        '9'
    }
}

/// The decimal digits of a non-negative number, most significant first.
pub open spec fn dec_digits(n: nat) -> Seq<char>
    decreases n,
{
    if n < 10 {
        seq![digit_char(n as int)]
    } else {
        dec_digits(n / 10).push(digit_char((n % 10) as int))
    }
}

/// A milli-unit value rendered with two decimals, rounded to the nearest
/// hundredth with ties away from zero, the carry running into the whole
/// part: an optional minus sign, the whole part, a point, and two fraction
/// digits.
pub open spec fn centi_text(v: int) -> Seq<char> {
    let m = if v < 0 {
        -v
    } else {
        v
    };
    let c = (m + 5) / 10;
    (if v < 0 {
        seq!['-']
    } else {
        Seq::<char>::empty()
    }) + dec_digits((c / 100) as nat) + seq!['.', digit_char(c / 10 % 10), digit_char(c % 10)]
}

/// The debug overlay's whole line for a player position.
pub open spec fn pos_text(x: int, y: int) -> Seq<char> {
    "Player Pos: "@ + centi_text(x) + ", "@ + centi_text(y)
}

/// One digit as text.
fn digit_str(d: u64) -> (s: &'static str)
    requires
        d < 10,
    ensures
        s@ =~= seq![digit_char(d as int)],
{
    if d == 0 {
        proof {
            reveal_strlit("0");
        }
        "0"
    } else if d == 1 {
        proof {
            reveal_strlit("1");
        }
        "1"
    } else if d == 2 {
        proof {
            reveal_strlit("2");
        }
        "2"
    } else if d == 3 {
        proof {
            reveal_strlit("3");
        }
        "3"
    } else if d == 4 {
        proof {
            reveal_strlit("4");
        }
        "4"
    } else if d == 5 {
        proof {
            reveal_strlit("5");
        }
        "5"
    } else if d == 6 {
        proof {
            reveal_strlit("6");
        }
        "6"
    } else if d == 7 {
        proof {
            reveal_strlit("7");
        }
        "7"
    } else if d == 8 {
        proof {
            reveal_strlit("8");
        }
        "8"
    } else {
        proof {
            reveal_strlit("9");
        }
        "9"
    }
}

/// A non-negative number as decimal text.
fn u64_dec(n: u64) -> (s: String)
    ensures
        s@ == dec_digits(n as nat),
    decreases n,
{
    if n < 10 {
        String::from_str(digit_str(n))
    } else {
        proof {
            vstd::arithmetic::div_mod::lemma_mod_bound(n as int, 10);
        }
        let mut s = u64_dec(n / 10);
        s.append(digit_str(n % 10));
        proof {
            assert(dec_digits((n / 10) as nat) + seq![digit_char((n % 10) as int)] =~= dec_digits(
                n as nat,
            ));
        }
        s
    }
}

/// A milli-unit value as text with two decimals.
fn centi_string(v: i64) -> (s: String)
    requires
        v > i64::MIN,
    ensures
        s@ == centi_text(v as int),
{
    let mut s = String::new();
    if v < 0 {
        proof {
            reveal_strlit("-");
        }
        s.append("-");
        proof {
            assert(s@ =~= seq!['-']);
        }
    }
    let m: u64 = if v < 0 {
        (-v) as u64
    } else {
        v as u64
    };
    let c: u64 = (m + 5) / 10;
    proof {
        vstd::arithmetic::div_mod::lemma_mod_bound((c as int) / 10, 10);
        vstd::arithmetic::div_mod::lemma_mod_bound(c as int, 10);
    }
    let whole = u64_dec(c / 100);
    s.append(whole.as_str());
    proof {
        reveal_strlit(".");
    }
    s.append(".");
    s.append(digit_str(c / 10 % 10));
    s.append(digit_str(c % 10));
    proof {
        assert(s@ =~= centi_text(v as int));
    }
    s
}

/// Renders the debug overlay's line for the player position, the two axes
/// with two decimals each.
pub fn debug_ui_update(player_translation: Vec2) -> (text: String)
    requires
        player_translation.x > i64::MIN,
        player_translation.y > i64::MIN,
    ensures
        text@ == pos_text(player_translation.x as int, player_translation.y as int),
{
    let mut text = String::from_str("Player Pos: ");
    let xs = centi_string(player_translation.x);
    text.append(xs.as_str());
    proof {
        reveal_strlit(", ");
    }
    text.append(", ");
    let ys = centi_string(player_translation.y);
    text.append(ys.as_str());
    proof {
        assert(text@ =~= pos_text(player_translation.x as int, player_translation.y as int));
    }
    text
}

} // verus!
