use vstd::prelude::*;
use vstd::string::StringExecFns;

verus! {

/// `n` copies of the character `c`; empty when `n` is negative.
pub open spec fn repeat_char(c: char, n: int) -> Seq<char> {
    if n >= 0 {
        Seq::new(n as nat, |i: int| c)
    } else {
        Seq::<char>::empty()
    }
}

/// The decimal digit character for `d`; only meaningful for 0 <= d <= 9.
pub open spec fn dec_digit(d: int) -> char {
    if d == 1 {
        '1'
    } else if d == 2 {
        '2'
    } else if d == 3 {
        '3'
    } else if d == 4 {
        '4'
    } else if d == 5 {
        '5'
    } else if d == 6 {
        '6'
    } else if d == 7 {
        '7'
    } else if d == 8 {
        '8'
    } else if d == 9 {
        '9'
    } else {
        '0'
    }
}

/// The decimal representation of `n`, without leading zeros (a lone zero for
/// `n == 0`); only meaningful for n >= 0.
pub open spec fn dec_rep(n: int) -> Seq<char>
    decreases n,
{
    if n < 10 {
        seq![dec_digit(n)]
    } else {
        dec_rep(n / 10).push(dec_digit(n % 10))
    }
}

/// The elements of `parts` joined by `sep`.
pub open spec fn joined(parts: Seq<Seq<char>>, sep: Seq<char>) -> Seq<char>
    decreases parts.len(),
{
    if parts.len() == 0 {
        Seq::<char>::empty()
    } else if parts.len() == 1 {
        parts[0]
    } else {
        joined(parts.drop_last(), sep) + sep + parts.last()
    }
}

/// Builds a run of `n` spaces.
pub fn spaces(n: usize) -> (r: String)
    ensures
        r@ == repeat_char(' ', n as int),
{
    let mut s = String::new();
    let mut i: usize = 0;
    while i < n
        invariant
            i <= n,
            s@ =~= repeat_char(' ', i as int),
        decreases n - i,
    {
        s.append(" ");
        i = i + 1;
        proof {
            reveal_strlit(" ");
            assert(s@ =~= repeat_char(' ', i as int));
        }
    }
    s
}

/// Builds a horizontal rule of `n` box-drawing dashes.
pub fn rule(n: usize) -> (r: String)
    ensures
        r@ == repeat_char('\u{2500}', n as int),
{
    let mut s = String::new();
    let mut i: usize = 0;
    while i < n
        invariant
            i <= n,
            s@ =~= repeat_char('\u{2500}', i as int),
        decreases n - i,
    {
        s.append("\u{2500}");
        i = i + 1;
        proof {
            reveal_strlit("\u{2500}");
            assert(s@ =~= repeat_char('\u{2500}', i as int));
        }
    }
    s
}

/// Appends the digit character for `d` to `s`.
pub fn push_digit(s: &mut String, d: u8)
    requires
        d < 10,
    ensures
        final(s)@ == old(s)@ + seq![dec_digit(d as int)],
{
    proof {
        reveal_strlit("0");
        reveal_strlit("1");
        reveal_strlit("2");
        reveal_strlit("3");
        reveal_strlit("4");
        reveal_strlit("5");
        reveal_strlit("6");
        reveal_strlit("7");
        reveal_strlit("8");
        reveal_strlit("9");
    }
    if d == 0 {
        s.append("0");
    } else if d == 1 {
        s.append("1");
    } else if d == 2 {
        s.append("2");
    } else if d == 3 {
        s.append("3");
    } else if d == 4 {
        s.append("4");
    } else if d == 5 {
        s.append("5");
    } else if d == 6 {
        s.append("6");
    } else if d == 7 {
        s.append("7");
    } else if d == 8 {
        s.append("8");
    } else {
        s.append("9");
    }
    proof {
        assert(final(s)@ =~= old(s)@ + seq![dec_digit(d as int)]);
    }
}

/// Appends the decimal representation of `n` to `s`.
pub fn push_dec(s: &mut String, n: u128)
    ensures
        final(s)@ == old(s)@ + dec_rep(n as int),
    decreases n,
{
    if n >= 10 {
        push_dec(s, n / 10);
    }
    push_digit(s, (n % 10) as u8);
    proof {
        if n >= 10 {
            assert(final(s)@ =~= old(s)@ + dec_rep(n as int));
        } else {
            assert(final(s)@ =~= old(s)@ + dec_rep(n as int));
        }
    }
}

/// Builds the decimal representation of `n`.
pub fn dec_string(n: u128) -> (r: String)
    ensures
        r@ == dec_rep(n as int),
{
    let mut s = String::new();
    push_dec(&mut s, n);
    proof {
        assert(s@ =~= dec_rep(n as int));
    }
    s
}

/// Joins the strings of `parts` with a comma and a space between neighbours.
pub fn join_comma(parts: &Vec<String>) -> (r: String)
    ensures
        r@ == joined(parts.deep_view(), ", "@),
{
    let mut s = String::new();
    let mut i: usize = 0;
    while i < parts.len()
        invariant
            i <= parts.deep_view().len(),
            parts.deep_view().len() == parts@.len(),
            forall|k: int| 0 <= k < parts@.len() ==> parts.deep_view()[k] == parts@[k]@,
            s@ == joined(parts.deep_view().take(i as int), ", "@),
        decreases parts@.len() - i,
    {
        if i > 0 {
            s.append(", ");
        }
        s.append(parts[i].as_str());
        proof {
            let ghost all = parts.deep_view();
            if i == 0 {
                assert(all.take(1).len() == 1);
                assert(s@ =~= joined(all.take(1), ", "@));
            } else {
                assert(all.take(i + 1).drop_last() =~= all.take(i as int));
                assert(all.take(i + 1).last() == all[i as int]);
                assert(s@ =~= joined(all.take(i as int), ", "@) + ", "@ + all[i as int]);
            }
        }
        i = i + 1;
    }
    proof {
        assert(parts.deep_view().take(parts@.len() as int) =~= parts.deep_view());
    }
    s
}

} // verus!
