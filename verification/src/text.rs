//! Plain-text helpers shared by the statement renderers: joining fragment
//! lists with a separator and rendering integers in decimal.

use vstd::prelude::*;

verus! {

/// The elements of `parts` laid end to end, with `sep` between each
/// neighbouring pair. An empty list joins to the empty text.
pub open spec fn join_with(parts: Seq<Seq<char>>, sep: Seq<char>) -> Seq<char>
    decreases parts.len(),
{
    if parts.len() == 0 {
        Seq::empty()
    } else if parts.len() == 1 {
        parts[0]
    } else {
        join_with(parts.drop_last(), sep) + sep + parts.last()
    }
}

/// Appends to `out` the elements of `parts` joined by `sep`.
pub fn push_joined(out: &mut String, parts: &Vec<String>, sep: &str)
    ensures
        final(out)@ == old(out)@ + join_with(parts.deep_view(), sep@),
{
    let ghost base: Seq<char> = out@;
    let ghost pv: Seq<Seq<char>> = parts.deep_view();
    let mut i: usize = 0;
    assert(base + join_with(pv.take(0), sep@) =~= base);
    while i < parts.len()
        invariant
            i <= parts.len(),
            pv == parts.deep_view(),
            pv.len() == parts.len(),
            out@ == base + join_with(pv.take(i as int), sep@),
        decreases parts.len() - i,
    {
        if i > 0 {
            out.append(sep);
        }
        out.append(parts[i].as_str());
        proof {
            assert(pv[i as int] == parts@[i as int]@);
            if i > 0 {
                assert(pv.take(i + 1) =~= pv.take(i as int).push(pv[i as int]));
                assert(pv.take(i + 1).drop_last() =~= pv.take(i as int));
            }
            assert(out@ =~= base + join_with(pv.take(i + 1), sep@));
        }
        i = i + 1;
    }
    proof {
        assert(pv.take(parts.len() as int) =~= pv);
    }
}

/// The elements of `parts` joined by `sep`, as one fresh string.
pub fn join_str_slices(parts: &[&str], sep: &str) -> (r: String)
    ensures
        r@ == join_with(parts.deep_view(), sep@),
{
    let ghost pv: Seq<Seq<char>> = parts.deep_view();
    let mut out = String::new();
    let mut i: usize = 0;
    assert(out@ =~= join_with(pv.take(0), sep@));
    while i < parts.len()
        invariant
            i <= parts.len(),
            pv == parts.deep_view(),
            pv.len() == parts.len(),
            out@ == join_with(pv.take(i as int), sep@),
        decreases parts.len() - i,
    {
        if i > 0 {
            out.append(sep);
        }
        out.append(parts[i]);
        proof {
            assert(pv[i as int] == parts@[i as int]@);
            if i > 0 {
                assert(pv.take(i + 1) =~= pv.take(i as int).push(pv[i as int]));
                assert(pv.take(i + 1).drop_last() =~= pv.take(i as int));
            }
            assert(out@ =~= join_with(pv.take(i + 1), sep@));
        }
        i = i + 1;
    }
    proof {
        assert(pv.take(parts.len() as int) =~= pv);
    }
    out
}

/// The character standing for one decimal digit.
pub open spec fn digit_char(d: int) -> char {
    if d == 0 {
        '0'
    } else if d == 1 {
        '1'
    } else if d == 2 {
        '2'
    } else if d == 3 {
        '3'
    } else if d == 4 {
        '4'
    } else if d == 5 {
        '5'
    } else if d == 6 {
        '6'
    } else if d == 7 {
        '7'
    } else if d == 8 {
        '8'
    } else {
        '9'
    }
}

/// The usual decimal rendering of a non-negative integer, most significant
/// digit first, with no leading zeros (a single `0` for zero itself).
pub open spec fn dec_text(n: nat) -> Seq<char>
    decreases n,
{
    if n < 10 {
        seq![digit_char(n as int)]
    } else {
        dec_text(n / 10) + seq![digit_char((n % 10) as int)]
    }
}

/// The decimal rendering of a signed integer: a leading `-` before the
/// rendering of the magnitude when the value is negative.
pub open spec fn int_text(n: int) -> Seq<char> {
    if n < 0 {
        seq!['-'] + dec_text((-n) as nat)
    } else {
        dec_text(n as nat)
    }
}

/// Appends the decimal rendering of `n` to `out`.
pub fn push_u64_dec(out: &mut String, n: u64)
    ensures
        final(out)@ == old(out)@ + dec_text(n as nat),
    decreases n,
{
    if n >= 10 {
        push_u64_dec(out, n / 10);
    }
    let d: u64 = n % 10;
    let ds: &str = if d == 0 {
        "0"
    } else if d == 1 {
        "1"
    } else if d == 2 {
        "2"
    } else if d == 3 {
        "3"
    } else if d == 4 {
        "4"
    } else if d == 5 {
        "5"
    } else if d == 6 {
        "6"
    } else if d == 7 {
        "7"
    } else if d == 8 {
        "8"
    } else {
        "9"
    };
    proof {
        reveal_strlit("0");
        reveal_strlit("1");
        reveal_strlit("2");
        reveal_strlit("3");
        reveal_strlit("4");
        reveal_strlit("5");
        reveal_strlit("6");
        reveal_strlit("7");
        reveal_strlit("8");
        reveal_strlit("9");
        assert(ds@ =~= seq![digit_char(d as int)]);
    }
    out.append(ds);
    proof {
        assert(out@ =~= old(out)@ + dec_text(n as nat));
    }
}

/// Appends the decimal rendering of `n` to `out`, sign included.
pub fn push_i64_dec(out: &mut String, n: i64)
    ensures
        final(out)@ == old(out)@ + int_text(n as int),
{
    if n < 0 {
        out.append("-");
        let wide: i128 = n as i128;
        let mag: u64 = (-wide) as u64;
        assert(mag == -(n as int));
        push_u64_dec(out, mag);
        proof {
            reveal_strlit("-");
            assert(out@ =~= old(out)@ + int_text(n as int));
        }
    } else {
        let mag: u64 = n as u64;
        push_u64_dec(out, mag);
    }
}

} // verus!
