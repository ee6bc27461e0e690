//! Verified building blocks for producing text: appending single characters,
//! decimal renderings of integers, JSON string escaping, joining pieces with a
//! separator, and substring replacement.

use vstd::prelude::*;

verus! {

/// Relies on String::push from std: appends the single character `c` at the
/// end of `s`.
#[verifier::external_body]
pub fn push_char(s: &mut String, c: char)
    ensures
        final(s)@ == old(s)@ + seq![c],
{
    s.push(c);
}

/// The character for a single decimal digit.
pub open spec fn digit_char(d: nat) -> char {
    if d == 0 {
        '0'
    } else if d == 1 {
        '1'
    } else if d == 2 {
        '2'
    } else if d == 3 {
        '3'
    } else if d == 4 {
        '4'
    } else if d == 5 {
        '5'
    } else if d == 6 {
        '6'
    } else if d == 7 {
        '7'
    } else if d == 8 {
        '8'
    } else {
        '9'
    }
}

/// The decimal digits of `n`, most significant first, with no sign and no
/// leading zeros (a single `'0'` for zero).
pub open spec fn dec_digits(n: nat) -> Seq<char>
    decreases n,
{
    if n < 10 {
        seq![digit_char(n)]
    } else {
        dec_digits(n / 10) + seq![digit_char(n % 10)]
    }
}

/// The decimal rendering of `v`, with a leading `'-'` when negative.
pub open spec fn dec_int(v: int) -> Seq<char> {
    if v < 0 {
        seq!['-'] + dec_digits((-v) as nat)
    } else {
        dec_digits(v as nat)
    }
}

fn exec_digit_char(d: u64) -> (c: char)
    requires
        d < 10,
    ensures
        c == digit_char(d as nat),
{
    if d == 0 {
        '0'
    } else if d == 1 {
        '1'
    } else if d == 2 {
        '2'
    } else if d == 3 {
        '3'
    } else if d == 4 {
        '4'
    } else if d == 5 {
        '5'
    } else if d == 6 {
        '6'
    } else if d == 7 {
        '7'
    } else if d == 8 {
        '8'
    } else {
        '9'
    }
}

/// Appends the decimal digits of `n` to `out`.
pub fn append_u64(out: &mut String, n: u64)
    ensures
        final(out)@ == old(out)@ + dec_digits(n as nat),
    decreases n,
{
    if n < 10 {
        let c = exec_digit_char(n);
        push_char(out, c);
    } else {
        append_u64(out, n / 10);
        let c = exec_digit_char(n % 10);
        push_char(out, c);
        proof {
            assert(old(out)@ + dec_digits((n / 10) as nat) + seq![digit_char((n % 10) as nat)]
                =~= old(out)@ + dec_digits(n as nat));
        }
    }
}

/// Appends the decimal rendering of `v`, sign included, to `out`.
pub fn append_i64(out: &mut String, v: i64)
    ensures
        final(out)@ == old(out)@ + dec_int(v as int),
{
    if v >= 0 {
        append_u64(out, v as u64);
    } else {
        push_char(out, '-');
        let m: u64 = (-(v as i128)) as u64;
        append_u64(out, m);
        proof {
            assert(old(out)@ + seq!['-'] + dec_digits(m as nat) =~= old(out)@ + dec_int(v as int));
        }
    }
}

/// The character for a single hexadecimal digit, lower case.
pub open spec fn hex_char(d: nat) -> char {
    if d < 10 {
        digit_char(d)
    } else if d == 10 {
        'a'
    } else if d == 11 {
        'b'
    } else if d == 12 {
        'c'
    } else if d == 13 {
        'd'
    } else if d == 14 {
        'e'
    } else {
        'f'
    }
}

fn exec_hex_char(d: u32) -> (c: char)
    requires
        d < 16,
    ensures
        c == hex_char(d as nat),
{
    if d < 10 {
        exec_digit_char(d as u64)
    } else if d == 10 {
        'a'
    } else if d == 11 {
        'b'
    } else if d == 12 {
        'c'
    } else if d == 13 {
        'd'
    } else if d == 14 {
        'e'
    } else {
        'f'
    }
}

/// How one character appears inside a JSON string literal: quotes and
/// backslashes get a backslash escape, the named control characters get their
/// short escapes, the remaining control characters a `\u00` escape with two
/// lower-case hex digits, and every other character stands for itself.
pub open spec fn esc_char(c: char) -> Seq<char> {
    if c == '"' {
        seq!['\\', '"']
    } else if c == '\\' {
        seq!['\\', '\\']
    } else if c == '\u{8}' {
        seq!['\\', 'b']
    } else if c == '\t' {
        seq!['\\', 't']
    } else if c == '\n' {
        seq!['\\', 'n']
    } else if c == '\u{c}' {
        seq!['\\', 'f']
    } else if c == '\r' {
        seq!['\\', 'r']
    } else if (c as u32) < 0x20 {
        seq!['\\', 'u', '0', '0', hex_char((c as u32 / 16) as nat), hex_char(
            (c as u32 % 16) as nat,
        )]
    } else {
        seq![c]
    }
}

/// The body of a JSON string literal for `s`: each character escaped as JSON
/// requires, without the surrounding quotes.
pub open spec fn json_escape(s: Seq<char>) -> Seq<char>
    decreases s.len(),
{
    if s.len() == 0 {
        Seq::empty()
    } else {
        json_escape(s.drop_last()) + esc_char(s.last())
    }
}

fn append_esc_char(out: &mut String, c: char)
    ensures
        final(out)@ == old(out)@ + esc_char(c),
{
    if c == '"' {
        push_char(out, '\\');
        push_char(out, '"');
    } else if c == '\\' {
        push_char(out, '\\');
        push_char(out, '\\');
    } else if c == '\u{8}' {
        push_char(out, '\\');
        push_char(out, 'b');
    } else if c == '\t' {
        push_char(out, '\\');
        push_char(out, 't');
    } else if c == '\n' {
        push_char(out, '\\');
        push_char(out, 'n');
    } else if c == '\u{c}' {
        push_char(out, '\\');
        push_char(out, 'f');
    } else if c == '\r' {
        push_char(out, '\\');
        push_char(out, 'r');
    } else if (c as u32) < 0x20 {
        push_char(out, '\\');
        push_char(out, 'u');
        push_char(out, '0');
        push_char(out, '0');
        let h = exec_hex_char((c as u32) / 16);
        push_char(out, h);
        let l = exec_hex_char((c as u32) % 16);
        push_char(out, l);
    } else {
        push_char(out, c);
    }
    proof {
        assert(final(out)@ =~= old(out)@ + esc_char(c));
    }
}

/// Appends `s`, escaped as the body of a JSON string literal, to `out`.
pub fn append_escaped(out: &mut String, s: &str)
    ensures
        final(out)@ == old(out)@ + json_escape(s@),
{
    let n = s.unicode_len();
    let mut i: usize = 0;
    while i < n
        invariant
            n == s@.len(),
            i <= n,
            out@ == old(out)@ + json_escape(s@.take(i as int)),
        decreases n - i,
    {
        let c = s.get_char(i);
        append_esc_char(out, c);
        proof {
            let t = s@.take(i + 1);
            assert(t.drop_last() =~= s@.take(i as int));
            assert(t.last() == c);
            assert(old(out)@ + json_escape(s@.take(i as int)) + esc_char(c) =~= old(out)@
                + json_escape(t));
        }
        i = i + 1;
    }
    proof {
        assert(s@.take(n as int) =~= s@);
    }
}

/// The pieces of `parts` concatenated, with `sep` between neighbours.
pub open spec fn joined(parts: Seq<Seq<char>>, sep: Seq<char>) -> Seq<char>
    decreases parts.len(),
{
    if parts.len() == 0 {
        Seq::empty()
    } else if parts.len() == 1 {
        parts[0]
    } else {
        joined(parts.drop_last(), sep) + sep + parts.last()
    }
}

/// Appends the pieces of `parts`, with `sep` between neighbours, to `out`.
pub fn append_joined(out: &mut String, parts: &Vec<String>, sep: &str)
    ensures
        final(out)@ == old(out)@ + joined(parts@.map_values(|p: String| p@), sep@),
{
    let ghost views = parts@.map_values(|p: String| p@);
    let mut i: usize = 0;
    while i < parts.len()
        invariant
            views == parts@.map_values(|p: String| p@),
            i <= parts.len(),
            out@ == old(out)@ + joined(views.take(i as int), sep@),
        decreases parts.len() - i,
    {
        if i > 0 {
            out.append(sep);
        }
        out.append(parts[i].as_str());
        proof {
            let t = views.take(i + 1);
            assert(t.drop_last() =~= views.take(i as int));
            assert(t.last() == views[i as int]);
            if i > 0 {
                assert(old(out)@ + joined(views.take(i as int), sep@) + sep@ + views[i as int]
                    =~= old(out)@ + joined(t, sep@));
            } else {
                assert(old(out)@ + joined(views.take(0), sep@) + views[0] =~= old(out)@ + joined(
                    t,
                    sep@,
                ));
            }
        }
        i = i + 1;
    }
    proof {
        assert(views.take(parts.len() as int) =~= views);
    }
}

/// `s` with every occurrence of `pat` replaced by `rep`, scanning from the
/// left and never rescanning replaced text, as str::replace does.
pub open spec fn replace_all(s: Seq<char>, pat: Seq<char>, rep: Seq<char>) -> Seq<char>
    recommends
        pat.len() > 0,
    decreases s.len(),
{
    if pat.len() == 0 || s.len() == 0 {
        s
    } else if s.len() >= pat.len() && s.take(pat.len() as int) == pat {
        rep + replace_all(s.skip(pat.len() as int), pat, rep)
    } else {
        seq![s[0]] + replace_all(s.skip(1), pat, rep)
    }
}

/// Whether the characters of `pat` occur in `s` starting at index `i`.
fn matches_at(s: &str, pat: &str, i: usize) -> (r: bool)
    requires
        i + pat@.len() <= s@.len(),
        s@.len() <= usize::MAX,
    ensures
        r == (s@.subrange(i as int, i + pat@.len()) == pat@),
{
    let m = pat.unicode_len();
    let mut j: usize = 0;
    while j < m
        invariant
            m == pat@.len(),
            i + m <= s@.len(),
            s@.len() <= usize::MAX,
            j <= m,
            forall|k: int| 0 <= k < j ==> s@[i + k] == pat@[k],
        decreases m - j,
    {
        if s.get_char(i + j) != pat.get_char(j) {
            proof {
                assert(s@.subrange(i as int, i + pat@.len())[j as int] == s@[i + j]);
            }
            return false;
        }
        j = j + 1;
    }
    proof {
        assert(s@.subrange(i as int, i + pat@.len()) =~= pat@);
    }
    true
}

/// `s` with every occurrence of `pat` replaced by `rep`, scanning from the
/// left.
pub fn replace_str(s: &str, pat: &str, rep: &str) -> (r: String)
    requires
        pat@.len() > 0,
    ensures
        r@ == replace_all(s@, pat@, rep@),
{
    let n = s.unicode_len();
    let m = pat.unicode_len();
    let mut out = String::new();
    let mut i: usize = 0;
    proof {
        assert(s@.skip(0) =~= s@);
    }
    while i < n
        invariant
            n == s@.len(),
            m == pat@.len(),
            m > 0,
            i <= n,
            replace_all(s@, pat@, rep@) == out@ + replace_all(s@.skip(i as int), pat@, rep@),
        decreases n - i,
    {
        let ghost rest = s@.skip(i as int);
        let ghost prev = out@;
        if m <= n - i && matches_at(s, pat, i) {
            out.append(rep);
            proof {
                assert(rest.take(m as int) =~= s@.subrange(i as int, i + m));
                assert(rest.skip(m as int) =~= s@.skip(i + m));
                assert(out@ + replace_all(s@.skip(i + m), pat@, rep@) =~= prev + (rep@
                    + replace_all(s@.skip(i + m), pat@, rep@)));
            }
            i = i + m;
        } else {
            let c = s.get_char(i);
            push_char(&mut out, c);
            proof {
                if m <= n - i {
                    assert(rest.take(m as int) =~= s@.subrange(i as int, i + m));
                }
                assert(rest[0] == s@[i as int]);
                assert(rest.skip(1) =~= s@.skip(i + 1));
                assert(out@ + replace_all(s@.skip(i + 1), pat@, rep@) =~= prev + (seq![c]
                    + replace_all(s@.skip(i + 1), pat@, rep@)));
            }
            i = i + 1;
        }
    }
    proof {
        assert(s@.skip(n as int) =~= Seq::<char>::empty());
    }
    out
}

} // verus!
