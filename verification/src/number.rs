//! Rendering of line numbers: decimal digits, right-aligned in a fixed
//! column width, followed by a tab and the line itself.

use vstd::prelude::*;
use vstd::string::StringExecFns;

verus! {

/// The column width that line numbers are right-aligned to.
pub const NUMBER_WIDTH: usize = 6;

/// The character printed for a decimal digit value.
pub open spec fn digit_char(d: nat) -> char {
    if d == 0 {
        '0'
    } else if d == 1 {
        '1'
    } else if d == 2 {
        '2'
    } else if d == 3 {
        '3'
    } else if d == 4 {
        '4'
    } else if d == 5 {
        '5'
    } else if d == 6 {
        '6'
    } else if d == 7 {
        '7'
    } else if d == 8 {
        '8'
    } else {
        '9'
    }
}

/// The decimal digit string of `n`, most significant digit first,
/// with no leading zeros (a single `'0'` for zero).
pub open spec fn dec_digits(n: nat) -> Seq<char>
    decreases n,
{
    if n < 10 {
        seq![digit_char(n)]
    } else {
        dec_digits(n / 10).push(digit_char(n % 10))
    }
}

/// A run of `k` space characters.
pub open spec fn spaces(k: nat) -> Seq<char>
    decreases k,
{
    if k == 0 {
        Seq::empty()
    } else {
        spaces((k - 1) as nat).push(' ')
    }
}

/// The decimal digits of `n`, right-aligned in `NUMBER_WIDTH` columns:
/// padded on the left with spaces when shorter, unpadded when not.
pub open spec fn padded_number(n: nat) -> Seq<char> {
    if dec_digits(n).len() >= NUMBER_WIDTH {
        dec_digits(n)
    } else {
        spaces((NUMBER_WIDTH - dec_digits(n).len()) as nat) + dec_digits(n)
    }
}

/// A numbered output line: the padded number, one tab, then the line text.
pub open spec fn numbered_line(n: nat, line: Seq<char>) -> Seq<char> {
    padded_number(n) + seq!['\t'] + line
}

/// How many decimal digits a number has, by magnitude range.
pub proof fn lemma_dec_digits_len(n: nat)
    ensures
        1 <= dec_digits(n).len(),
        n < 10 ==> dec_digits(n).len() == 1,
        10 <= n < 100 ==> dec_digits(n).len() == 2,
        100 <= n < 1000 ==> dec_digits(n).len() == 3,
        1000 <= n < 10000 ==> dec_digits(n).len() == 4,
        10000 <= n < 100000 ==> dec_digits(n).len() == 5,
        100000 <= n < 1000000 ==> dec_digits(n).len() == 6,
        1000000 <= n ==> dec_digits(n).len() >= 7,
    decreases n,
{
    if n >= 10 {
        lemma_dec_digits_len(n / 10);
    }
}

/// A run of spaces has the requested length and holds only spaces.
pub proof fn lemma_spaces(k: nat)
    ensures
        spaces(k).len() == k,
        forall|i: int| 0 <= i < k ==> spaces(k)[i] == ' ',
    decreases k,
{
    if k > 0 {
        lemma_spaces((k - 1) as nat);
    }
}

/// The one-character string for a decimal digit value.
fn digit_str(d: u64) -> (r: &'static str)
    requires
        d < 10,
    ensures
        r@ == seq![digit_char(d as nat)],
{
    if d == 0 {
        proof {
            reveal_strlit("0");
            assert("0"@ =~= seq![digit_char(d as nat)]);
        }
        "0"
    } else if d == 1 {
        proof {
            reveal_strlit("1");
            assert("1"@ =~= seq![digit_char(d as nat)]);
        }
        "1"
    } else if d == 2 {
        proof {
            reveal_strlit("2");
            assert("2"@ =~= seq![digit_char(d as nat)]);
        }
        "2"
    } else if d == 3 {
        proof {
            reveal_strlit("3");
            assert("3"@ =~= seq![digit_char(d as nat)]);
        }
        "3"
    } else if d == 4 {
        proof {
            reveal_strlit("4");
            assert("4"@ =~= seq![digit_char(d as nat)]);
        }
        "4"
    } else if d == 5 {
        proof {
            reveal_strlit("5");
            assert("5"@ =~= seq![digit_char(d as nat)]);
        }
        "5"
    } else if d == 6 {
        proof {
            reveal_strlit("6");
            assert("6"@ =~= seq![digit_char(d as nat)]);
        }
        "6"
    } else if d == 7 {
        proof {
            reveal_strlit("7");
            assert("7"@ =~= seq![digit_char(d as nat)]);
        }
        "7"
    } else if d == 8 {
        proof {
            reveal_strlit("8");
            assert("8"@ =~= seq![digit_char(d as nat)]);
        }
        "8"
    } else {
        proof {
            reveal_strlit("9");
            assert("9"@ =~= seq![digit_char(d as nat)]);
        }
        "9"
    }
}

/// The decimal digit string of `n`.
fn u64_to_dec(n: u64) -> (r: String)
    ensures
        r@ == dec_digits(n as nat),
    decreases n,
{
    if n < 10 {
        let r = digit_str(n).to_owned();
        proof {
            assert(r@ =~= dec_digits(n as nat));
        }
        r
    } else {
        let mut s = u64_to_dec(n / 10);
        let d = digit_str(n % 10);
        s.append(d);
        proof {
            assert(s@ =~= dec_digits(n as nat));
        }
        s
    }
}

/// The decimal digits of `n`, right-aligned in `NUMBER_WIDTH` columns.
pub fn render_number(n: u64) -> (r: String)
    ensures
        r@ == padded_number(n as nat),
{
    proof {
        lemma_dec_digits_len(n as nat);
    }
    let mut s = String::new();
    if n < 10 {
        proof {
            reveal_strlit("     ");
            lemma_spaces(5);
            assert("     "@ =~= spaces(5));
        }
        s.append("     ");
    } else if n < 100 {
        proof {
            reveal_strlit("    ");
            lemma_spaces(4);
            assert("    "@ =~= spaces(4));
        }
        s.append("    ");
    } else if n < 1000 {
        proof {
            reveal_strlit("   ");
            lemma_spaces(3);
            assert("   "@ =~= spaces(3));
        }
        s.append("   ");
    } else if n < 10000 {
        proof {
            reveal_strlit("  ");
            lemma_spaces(2);
            assert("  "@ =~= spaces(2));
        }
        s.append("  ");
    } else if n < 100000 {
        proof {
            reveal_strlit(" ");
            lemma_spaces(1);
            assert(" "@ =~= spaces(1));
        }
        s.append(" ");
    }
    let digits = u64_to_dec(n);
    let r = s.concat(digits.as_str());
    proof {
        assert(r@ =~= padded_number(n as nat));
    }
    r
}

/// A numbered output line: the padded number, one tab, then the line text.
pub fn render_numbered_line(n: u64, line: &str) -> (r: String)
    ensures
        r@ == numbered_line(n as nat, line@),
{
    let mut s = render_number(n);
    s.append("\t");
    s.append(line);
    proof {
        reveal_strlit("\t");
        assert(s@ =~= numbered_line(n as nat, line@));
    }
    s
}

} // verus!
