//! Verified text building blocks: substring replacement, joining with a
//! separator, and decimal rendering of integers.
use vstd::prelude::*;

verus! {

/// `text` with every leftmost, non-overlapping occurrence of `pat` replaced
/// by `rep`, scanning from the front one character at a time. An empty
/// pattern leaves the text unchanged.
pub open spec fn spec_replace(text: Seq<char>, pat: Seq<char>, rep: Seq<char>) -> Seq<char>
    decreases text.len(),
{
    if pat.len() == 0 || text.len() < pat.len() {
        text
    } else if text.subrange(0, pat.len() as int) == pat {
        rep + spec_replace(text.skip(pat.len() as int), pat, rep)
    } else {
        seq![text[0]] + spec_replace(text.skip(1), pat, rep)
    }
}

/// Relies on std's `String::push`: appends exactly one character.
#[verifier::external_body]
fn push_char(s: &mut String, c: char)
    ensures
        final(s)@ == old(s)@.push(c),
{
    s.push(c);
}

/// Whether `pat` occurs in `text` starting at character position `i`.
fn match_at(text: &str, pat: &str, i: usize) -> (r: bool)
    requires
        i + pat@.len() <= text@.len(),
        text@.len() <= usize::MAX,
    ensures
        r == (text@.subrange(i as int, i as int + pat@.len() as int) == pat@),
{
    let p: usize = pat.unicode_len();
    let mut j: usize = 0;
    while j < p
        invariant
            j <= p,
            p == pat@.len(),
            i + p <= text@.len() <= usize::MAX,
            forall|k: int| 0 <= k < j ==> text@[i + k] == pat@[k],
        decreases p - j,
    {
        if text.get_char(i + j) != pat.get_char(j) {
            proof {
                let sub = text@.subrange(i as int, i as int + pat@.len() as int);
                assert(sub[j as int] == text@[i + j]);
            }
            return false;
        }
        j += 1;
    }
    proof {
        assert(text@.subrange(i as int, i as int + pat@.len() as int) =~= pat@);
    }
    true
}

/// Replaces every leftmost, non-overlapping occurrence of `pat` in `text`
/// with `rep`.
pub fn replace_all(text: &str, pat: &str, rep: &str) -> (r: String)
    requires
        pat@.len() > 0,
    ensures
        r@ == spec_replace(text@, pat@, rep@),
{
    let n: usize = text.unicode_len();
    let p: usize = pat.unicode_len();
    let mut out = String::new();
    let mut i: usize = 0;
    proof {
        assert(text@.skip(0) =~= text@);
        assert(out@ + spec_replace(text@, pat@, rep@) =~= spec_replace(text@, pat@, rep@));
    }
    while i < n
        invariant
            i <= n,
            n == text@.len(),
            p == pat@.len(),
            0 < p,
            out@ + spec_replace(text@.skip(i as int), pat@, rep@) == spec_replace(
                text@,
                pat@,
                rep@,
            ),
        decreases n - i,
    {
        let ghost pre_out = out@;
        let ghost t = text@.skip(i as int);
        if p <= n - i && match_at(text, pat, i) {
            proof {
                assert(t.len() == n - i);
                assert(t.subrange(0, p as int) =~= text@.subrange(i as int, i as int + p as int));
                assert(t.skip(p as int) =~= text@.skip(i as int + p as int));
                assert(spec_replace(t, pat@, rep@) == rep@ + spec_replace(
                    text@.skip(i as int + p as int),
                    pat@,
                    rep@,
                ));
            }
            out.append(rep);
            proof {
                assert(out@ + spec_replace(text@.skip(i as int + p as int), pat@, rep@) =~= pre_out
                    + spec_replace(t, pat@, rep@));
            }
            i += p;
        } else {
            let c = text.get_char(i);
            proof {
                assert(t[0] == text@[i as int]);
                assert(t.skip(1) =~= text@.skip(i as int + 1));
                if p <= n - i {
                    assert(t.subrange(0, p as int) =~= text@.subrange(
                        i as int,
                        i as int + p as int,
                    ));
                    assert(spec_replace(t, pat@, rep@) == seq![t[0]] + spec_replace(
                        t.skip(1),
                        pat@,
                        rep@,
                    ));
                } else {
                    assert(t.len() < p);
                    assert(spec_replace(t, pat@, rep@) == t);
                    assert(t.skip(1).len() < p);
                    assert(spec_replace(t.skip(1), pat@, rep@) == t.skip(1));
                    assert(t =~= seq![t[0]] + t.skip(1));
                }
            }
            push_char(&mut out, c);
            proof {
                assert(out@ =~= pre_out + seq![c]);
                assert(out@ + spec_replace(text@.skip(i as int + 1), pat@, rep@) =~= pre_out + (
                seq![c] + spec_replace(t.skip(1), pat@, rep@)));
            }
            i += 1;
        }
    }
    proof {
        assert(text@.skip(n as int) =~= Seq::<char>::empty());
        assert(out@ + spec_replace(Seq::<char>::empty(), pat@, rep@) =~= out@);
    }
    out
}

/// The parts joined in order, with `sep` between consecutive parts.
pub open spec fn spec_join(parts: Seq<Seq<char>>, sep: Seq<char>) -> Seq<char>
    decreases parts.len(),
{
    if parts.len() == 0 {
        Seq::empty()
    } else if parts.len() == 1 {
        parts[0]
    } else {
        spec_join(parts.drop_last(), sep) + sep + parts.last()
    }
}

/// Joins the values with `sep` between consecutive values.
pub fn join_with(values: &Vec<String>, sep: &str) -> (r: String)
    ensures
        r@ == spec_join(values@.map_values(|s: String| s@), sep@),
{
    let ghost parts = values@.map_values(|s: String| s@);
    let mut out = String::new();
    if values.len() == 0 {
        return out;
    }
    out.append(values[0].as_str());
    proof {
        assert(parts.take(1).len() == 1);
        assert(parts.take(1)[0] == parts[0]);
        assert(out@ =~= parts[0]);
    }
    let mut i: usize = 1;
    while i < values.len()
        invariant
            1 <= i <= values@.len(),
            parts == values@.map_values(|s: String| s@),
            parts.len() == values@.len(),
            out@ == spec_join(parts.take(i as int), sep@),
        decreases values@.len() - i,
    {
        let ghost pre_out = out@;
        out.append(sep);
        out.append(values[i].as_str());
        proof {
            let tk = parts.take(i as int + 1);
            assert(tk.drop_last() =~= parts.take(i as int));
            assert(tk.last() == parts[i as int]);
            assert(out@ == pre_out + sep@ + parts[i as int]);
        }
        i += 1;
    }
    proof {
        assert(parts.take(values@.len() as int) =~= parts);
    }
    out
}

/// The decimal digit character for `d` (0 through 9).
pub open spec fn spec_digit(d: nat) -> char {
    if d == 0 {
        '0'
    } else if d == 1 {
        '1'
    } else if d == 2 {
        '2'
    } else if d == 3 {
        '3'
    } else if d == 4 {
        '4'
    } else if d == 5 {
        '5'
    } else if d == 6 {
        '6'
    } else if d == 7 {
        '7'
    } else if d == 8 {
        '8'
    } else {
        '9'
    }
}

/// The decimal digits of `n`, most significant first, with no sign and no
/// leading zero (a single `'0'` for zero).
pub open spec fn spec_udigits(n: nat) -> Seq<char>
    decreases n,
{
    if n < 10 {
        seq![spec_digit(n)]
    } else {
        spec_udigits(n / 10).push(spec_digit(n % 10))
    }
}

/// The decimal rendering of `v`, with a leading `'-'` when `v` is negative.
pub open spec fn spec_int_string(v: int) -> Seq<char> {
    if v < 0 {
        seq!['-'] + spec_udigits((-v) as nat)
    } else {
        spec_udigits(v as nat)
    }
}

fn digit_char(d: u64) -> (c: char)
    requires
        d < 10,
    ensures
        c == spec_digit(d as nat),
{
    if d == 0 {
        '0'
    } else if d == 1 {
        '1'
    } else if d == 2 {
        '2'
    } else if d == 3 {
        '3'
    } else if d == 4 {
        '4'
    } else if d == 5 {
        '5'
    } else if d == 6 {
        '6'
    } else if d == 7 {
        '7'
    } else if d == 8 {
        '8'
    } else {
        '9'
    }
}

fn u64_digits(v: u64) -> (r: Vec<char>)
    ensures
        r@ == spec_udigits(v as nat),
{
    let mut digits: Vec<char> = Vec::new();
    if v == 0 {
        digits.push('0');
        proof {
            assert(digits@ =~= seq![spec_digit(0)]);
        }
        return digits;
    }
    let mut n: u64 = v;
    proof {
        assert(spec_udigits(v as nat) + Seq::<char>::empty() =~= spec_udigits(v as nat));
    }
    while n > 0
        invariant
            (if n > 0 {
                spec_udigits(v as nat) == spec_udigits(n as nat) + digits@
            } else {
                spec_udigits(v as nat) == digits@
            }),
        decreases n,
    {
        let ghost pre = digits@;
        let ghost nn: nat = n as nat;
        let d: u64 = n % 10;
        let c = digit_char(d);
        digits.insert(0, c);
        n = n / 10;
        proof {
            assert(digits@ =~= seq![c] + pre);
            if nn >= 10 {
                assert(n as nat == nn / 10);
                assert(n >= 1);
                assert(spec_udigits(nn) == spec_udigits(nn / 10).push(spec_digit(nn % 10)));
                assert(spec_udigits(nn) + pre =~= spec_udigits(nn / 10) + (seq![c] + pre));
            } else {
                assert(n == 0);
                assert(spec_udigits(nn) == seq![spec_digit(nn)]);
                assert(spec_udigits(nn) + pre =~= seq![c] + pre);
            }
        }
    }
    digits
}

/// Renders `v` in decimal, with a leading `'-'` when negative.
pub fn i64_to_string(v: i64) -> (r: String)
    ensures
        r@ == spec_int_string(v as int),
{
    let abs: u64 = if v < 0 {
        ((-(v + 1)) as u64) + 1
    } else {
        v as u64
    };
    let mut out = String::new();
    if v < 0 {
        push_char(&mut out, '-');
    }
    let ghost prefix = out@;
    let digits = u64_digits(abs);
    proof {
        assert(prefix + digits@.take(0) =~= prefix);
    }
    let mut j: usize = 0;
    while j < digits.len()
        invariant
            j <= digits@.len(),
            digits@ == spec_udigits(abs as nat),
            prefix == (if v < 0 {
                seq!['-']
            } else {
                Seq::<char>::empty()
            }),
            out@ == prefix + digits@.take(j as int),
        decreases digits@.len() - j,
    {
        let c = digits[j];
        push_char(&mut out, c);
        proof {
            assert(out@ =~= prefix + digits@.take(j as int + 1));
        }
        j += 1;
    }
    proof {
        assert(digits@.take(digits@.len() as int) =~= digits@);
        if v < 0 {
            assert(abs as nat == (-(v as int)) as nat);
        } else {
            assert(Seq::<char>::empty() + digits@ =~= digits@);
        }
    }
    out
}

} // verus!
