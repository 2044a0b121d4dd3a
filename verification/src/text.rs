//! Text the interface displays: decimal counters padded to a fixed width,
//! the status line, and the joining of buffer lines into one message.

use vstd::prelude::*;
use vstd::string::StringExecFns;

verus! {

/// The decimal digit character for a value below ten.
pub open spec fn digit_char(d: int) -> char {
    if d == 0 {
        '0'
    } else if d == 1 {
        '1'
    } else if d == 2 {
        '2'
    } else if d == 3 {
        '3'
    } else if d == 4 {
        '4'
    } else if d == 5 {
        '5'
    } else if d == 6 {
        '6'
    } else if d == 7 {
        '7'
    } else if d == 8 {
        '8'
    } else {
        '9'
    }
}

/// The usual decimal rendering of a natural number, most significant digit
/// first, with no leading zeros (a single zero for zero itself).
pub open spec fn dec_seq(n: nat) -> Seq<char>
    decreases n,
{
    if n < 10 {
        seq![digit_char(n as int)]
    } else {
        dec_seq(n / 10).push(digit_char((n % 10) as int))
    }
}

/// The spaces that right-align an up-to-four-digit counter in four columns;
/// wider values get no padding.
pub open spec fn pad_spaces4(n: nat) -> Seq<char> {
    if n < 10 {
        "   "@
    } else if n < 100 {
        "  "@
    } else if n < 1000 {
        " "@
    } else {
        ""@
    }
}

/// A counter as the status line shows it: right-aligned in four columns.
pub open spec fn counter_seq(n: nat) -> Seq<char> {
    pad_spaces4(n) + dec_seq(n)
}

/// The status line text for the two counters.
pub open spec fn status_seq(sent: nat, received: nat) -> Seq<char> {
    "Messages sent: "@ + counter_seq(sent) + "  Messages received: "@ + counter_seq(received)
}

/// All buffer lines joined with a line break, in order.
pub open spec fn join_seq(lines: Seq<Seq<char>>) -> Seq<char>
    decreases lines.len(),
{
    if lines.len() == 0 {
        Seq::empty()
    } else if lines.len() == 1 {
        lines[0]
    } else {
        join_seq(lines.drop_last()) + "\n"@ + lines.last()
    }
}

/// The character sequences behind a sequence of strings.
pub open spec fn seq_views(v: Seq<String>) -> Seq<Seq<char>> {
    v.map(|i: int, s: String| s@)
}

fn digit_str(d: u64) -> (r: &'static str)
    requires
        d < 10,
    ensures
        r@ == seq![digit_char(d as int)],
{
    if d == 0 {
        proof {
            reveal_strlit("0");
        }
        let r = "0";
        proof {
            assert(r@ =~= seq![digit_char(d as int)]);
        }
        r
    } else if d == 1 {
        proof {
            reveal_strlit("1");
        }
        let r = "1";
        proof {
            assert(r@ =~= seq![digit_char(d as int)]);
        }
        r
    } else if d == 2 {
        proof {
            reveal_strlit("2");
        }
        let r = "2";
        proof {
            assert(r@ =~= seq![digit_char(d as int)]);
        }
        r
    } else if d == 3 {
        proof {
            reveal_strlit("3");
        }
        let r = "3";
        proof {
            assert(r@ =~= seq![digit_char(d as int)]);
        }
        r
    } else if d == 4 {
        proof {
            reveal_strlit("4");
        }
        let r = "4";
        proof {
            assert(r@ =~= seq![digit_char(d as int)]);
        }
        r
    } else if d == 5 {
        proof {
            reveal_strlit("5");
        }
        let r = "5";
        proof {
            assert(r@ =~= seq![digit_char(d as int)]);
        }
        r
    } else if d == 6 {
        proof {
            reveal_strlit("6");
        }
        let r = "6";
        proof {
            assert(r@ =~= seq![digit_char(d as int)]);
        }
        r
    } else if d == 7 {
        proof {
            reveal_strlit("7");
        }
        let r = "7";
        proof {
            assert(r@ =~= seq![digit_char(d as int)]);
        }
        r
    } else if d == 8 {
        proof {
            reveal_strlit("8");
        }
        let r = "8";
        proof {
            assert(r@ =~= seq![digit_char(d as int)]);
        }
        r
    } else {
        proof {
            reveal_strlit("9");
        }
        let r = "9";
        proof {
            assert(r@ =~= seq![digit_char(d as int)]);
        }
        r
    }
}

/// Render a counter value in decimal.
pub fn u64_to_dec(n: u64) -> (r: String)
    ensures
        r@ == dec_seq(n as nat),
    decreases n,
{
    if n < 10 {
        digit_str(n).to_owned()
    } else {
        let mut s = u64_to_dec(n / 10);
        s.append(digit_str(n % 10));
        proof {
            assert(s@ =~= dec_seq(n as nat));
        }
        s
    }
}

/// Render a counter right-aligned in four columns, as the status line shows it.
pub fn counter_text(n: u64) -> (r: String)
    ensures
        r@ == counter_seq(n as nat),
{
    let mut s: String = if n < 10 {
        "   ".to_owned()
    } else if n < 100 {
        "  ".to_owned()
    } else if n < 1000 {
        " ".to_owned()
    } else {
        "".to_owned()
    };
    let digits = u64_to_dec(n);
    s.append(digits.as_str());
    s
}

/// Build the status line text for the two counters.
pub fn status_text(sent: u64, received: u64) -> (r: String)
    ensures
        r@ == status_seq(sent as nat, received as nat),
{
    let mut s = "Messages sent: ".to_owned();
    let sent_part = counter_text(sent);
    s.append(sent_part.as_str());
    s.append("  Messages received: ");
    let received_part = counter_text(received);
    s.append(received_part.as_str());
    proof {
        assert(s@ =~= status_seq(sent as nat, received as nat));
    }
    s
}

/// Join buffer lines with a line break, preserving their order.
pub fn join_lines(lines: &Vec<String>) -> (r: String)
    ensures
        r@ == join_seq(seq_views(lines@)),
{
    let mut s = String::new();
    let mut i: usize = 0;
    while i < lines.len()
        invariant
            i <= lines.len(),
            s@ == join_seq(seq_views(lines@).take(i as int)),
        decreases lines.len() - i,
    {
        if i > 0 {
            s.append("\n");
        }
        s.append(lines[i].as_str());
        proof {
            let views = seq_views(lines@);
            assert(views.take(i + 1).drop_last() =~= views.take(i as int));
            assert(views.take(i + 1).last() == views[i as int]);
            if i == 0 {
                assert(s@ =~= join_seq(views.take(i + 1)));
            } else {
                assert(s@ =~= join_seq(views.take(i + 1)));
            }
        }
        i = i + 1;
    }
    proof {
        assert(seq_views(lines@).take(lines@.len() as int) =~= seq_views(lines@));
    }
    s
}

} // verus!
