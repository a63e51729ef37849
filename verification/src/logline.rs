//! Rendering of the per-request timing log line: the request method, the
//! path segments joined by '/', and the elapsed time in its scaled unit.

use vstd::prelude::*;
use vstd::string::StringExecFns;
use crate::scale::{scale_mag, scale_unit, unit_label, to_number_and_unit};

verus! {

/// Character for the decimal digit `d`.
pub open spec fn digit_char(d: nat) -> char {
    if d == 0 {
        '0'
    } else if d == 1 {
        '1'
    } else if d == 2 {
        '2'
    } else if d == 3 {
        '3'
    } else if d == 4 {
        '4'
    } else if d == 5 {
        '5'
    } else if d == 6 {
        '6'
    } else if d == 7 {
        '7'
    } else if d == 8 {
        '8'
    } else {
        '9'
    }
}

/// Decimal representation of `n`, most significant digit first, with no
/// leading zeros; zero is the single digit "0".
pub open spec fn dec_str(n: nat) -> Seq<char>
    decreases n,
{
    if n < 10 {
        seq![digit_char(n)]
    } else {
        dec_str(n / 10).push(digit_char(n % 10))
    }
}

/// The one-character string for the decimal digit `d`.
fn digit_str(d: u64) -> (r: &'static str)
    requires
        d < 10,
    ensures
        r@ == seq![digit_char(d as nat)],
{
    let r: &'static str = if d == 0 {
        "0"
    } else if d == 1 {
        "1"
    } else if d == 2 {
        "2"
    } else if d == 3 {
        "3"
    } else if d == 4 {
        "4"
    } else if d == 5 {
        "5"
    } else if d == 6 {
        "6"
    } else if d == 7 {
        "7"
    } else if d == 8 {
        "8"
    } else {
        "9"
    };
    proof {
        reveal_strlit("0");
        reveal_strlit("1");
        reveal_strlit("2");
        reveal_strlit("3");
        reveal_strlit("4");
        reveal_strlit("5");
        reveal_strlit("6");
        reveal_strlit("7");
        reveal_strlit("8");
        reveal_strlit("9");
        assert(r@ =~= seq![digit_char(d as nat)]);
    }
    r
}

/// Renders `n` in decimal, most significant digit first.
pub fn decimal_string(n: u64) -> (s: String)
    ensures
        s@ == dec_str(n as nat),
    decreases n,
{
    if n < 10 {
        String::from_str(digit_str(n))
    } else {
        let mut s = decimal_string(n / 10);
        s.append(digit_str(n % 10));
        proof {
            assert(s@ =~= dec_str(n as nat));
        }
        s
    }
}

/// The segments joined by '/': empty for no segments, "a/b" for two
/// segments "a" and "b".
pub open spec fn join_path(segs: Seq<Seq<char>>) -> Seq<char>
    decreases segs.len(),
{
    if segs.len() == 0 {
        Seq::empty()
    } else if segs.len() == 1 {
        segs[0]
    } else {
        join_path(segs.drop_last()) + seq!['/'] + segs.last()
    }
}

/// The views of a sequence of strings.
pub open spec fn seg_views(segs: Seq<String>) -> Seq<Seq<char>> {
    segs.map_values(|s: String| s@)
}

/// Joins the path segments with '/'.
pub fn join_segments(segs: &Vec<String>) -> (s: String)
    ensures
        s@ == join_path(seg_views(segs@)),
{
    let mut s = String::new();
    let mut i: usize = 0;
    while i < segs.len()
        invariant
            i <= segs@.len(),
            s@ == join_path(seg_views(segs@).take(i as int)),
        decreases segs@.len() - i,
    {
        if i > 0 {
            s.append("/");
        }
        s.append(segs[i].as_str());
        proof {
            reveal_strlit("/");
            assert(seg_views(segs@).take(i + 1).drop_last() =~= seg_views(segs@).take(i as int));
            assert(seg_views(segs@).take(i + 1).last() == segs@[i as int]@);
            assert(s@ =~= join_path(seg_views(segs@).take(i + 1)));
        }
        i += 1;
    }
    proof {
        assert(seg_views(segs@).take(segs@.len() as int) =~= seg_views(segs@));
    }
    s
}

/// The full log line for one request:
/// `<METHOD> /<joined path> took: <magnitude> <unit>`.
pub open spec fn log_line(method: Seq<char>, segs: Seq<Seq<char>>, elapsed_ns: nat) -> Seq<char> {
    method + " /"@ + join_path(segs) + " took: "@ + dec_str(scale_mag(elapsed_ns)) + " "@
        + unit_label(scale_unit(elapsed_ns))
}

/// Renders the timing log line from the request method, its path
/// segments, and the elapsed nanoseconds.
pub fn format_timing_line(method: &str, segments: &Vec<String>, elapsed_ns: u64) -> (line: String)
    ensures
        line@ == log_line(method@, seg_views(segments@), elapsed_ns as nat),
{
    let scaled = to_number_and_unit(elapsed_ns);
    let mut line = String::from_str(method);
    line.append(" /");
    let path = join_segments(segments);
    line.append(path.as_str());
    line.append(" took: ");
    let num = decimal_string(scaled.0);
    line.append(num.as_str());
    line.append(" ");
    line.append(scaled.1);
    proof {
        assert(line@ =~= log_line(method@, seg_views(segments@), elapsed_ns as nat));
    }
    line
}

} // verus!
