//! Small verified text utilities shared by the renderer and the record
//! builder: decimal formatting, prefix tests and token replacement over
//! character sequences.
use vstd::prelude::*;

verus! {

/// The character for one decimal digit.
pub open spec fn digit_char(d: int) -> char {
    if d == 0 {
        '0'
    } else if d == 1 {
        '1'
    } else if d == 2 {
        '2'
    } else if d == 3 {
        '3'
    } else if d == 4 {
        '4'
    } else if d == 5 {
        '5'
    } else if d == 6 {
        '6'
    } else if d == 7 {
        '7'
    } else if d == 8 {
        '8'
    } else {
        '9'
    }
}

/// Decimal digits of a non-negative number, most significant first.
pub open spec fn digits_spec(n: int) -> Seq<char>
    decreases n,
{
    if n < 10 {
        seq![digit_char(n)]
    } else {
        digits_spec(n / 10).push(digit_char(n % 10))
    }
}

/// Decimal rendering of an integer, with a leading minus sign when negative.
pub open spec fn int_text_spec(v: int) -> Seq<char> {
    if v < 0 {
        seq!['-'] + digits_spec(-v)
    } else {
        digits_spec(v)
    }
}

/// Append one digit character to a string.
fn push_digit(out: &mut String, d: u64)
    requires
        d < 10,
    ensures
        final(out)@ == old(out)@.push(digit_char(d as int)),
{
    match d {
        0 => out.append("0"),
        1 => out.append("1"),
        2 => out.append("2"),
        3 => out.append("3"),
        4 => out.append("4"),
        5 => out.append("5"),
        6 => out.append("6"),
        7 => out.append("7"),
        8 => out.append("8"),
        _ => out.append("9"),
    }
    proof {
        reveal_strlit("0");
        reveal_strlit("1");
        reveal_strlit("2");
        reveal_strlit("3");
        reveal_strlit("4");
        reveal_strlit("5");
        reveal_strlit("6");
        reveal_strlit("7");
        reveal_strlit("8");
        reveal_strlit("9");
        assert(out@ =~= old(out)@.push(digit_char(d as int)));
    }
}

/// Append the decimal digits of `n` to `out`, most significant first.
fn append_digits(out: &mut String, n: u64)
    ensures
        final(out)@ == old(out)@ + digits_spec(n as int),
    decreases n,
{
    if n < 10 {
        push_digit(out, n);
        assert(out@ =~= old(out)@ + digits_spec(n as int));
    } else {
        append_digits(out, n / 10);
        push_digit(out, n % 10);
        assert(out@ =~= old(out)@ + digits_spec(n as int));
    }
}

/// Decimal text of an integer.
pub fn int_text(v: i64) -> (r: String)
    requires
        v > i64::MIN,
    ensures
        r@ == int_text_spec(v as int),
{
    let mut out = String::new();
    if v < 0 {
        out.append("-");
        let m: u64 = (-v) as u64;
        append_digits(&mut out, m);
        proof {
            reveal_strlit("-");
            assert(out@ =~= int_text_spec(v as int));
        }
    } else {
        append_digits(&mut out, v as u64);
        assert(out@ =~= int_text_spec(v as int));
    }
    out
}

/// A run of `n` spaces, used for reply indentation.
pub open spec fn spaces_spec(n: int) -> Seq<char> {
    Seq::new(n as nat, |i: int| ' ')
}

/// Build an indent of `n` spaces.
pub fn spaces(n: usize) -> (r: String)
    ensures
        r@ == spaces_spec(n as int),
{
    let mut out = String::new();
    let mut i: usize = 0;
    while i < n
        invariant
            i <= n,
            out@ == spaces_spec(i as int),
        decreases n - i,
    {
        out.append(" ");
        i = i + 1;
        proof {
            reveal_strlit(" ");
            assert(out@ =~= spaces_spec(i as int));
        }
    }
    out
}

/// True when `p` occurs in `s` at position `at`.
pub open spec fn matches_at(s: Seq<char>, p: Seq<char>, at: int) -> bool {
    0 <= at && at + p.len() <= s.len() && s.subrange(at, at + p.len() as int) == p
}

/// True when `s` begins with `p`.
pub open spec fn starts_with_spec(s: Seq<char>, p: Seq<char>) -> bool {
    matches_at(s, p, 0)
}

/// Compare the characters of `s` at position `at` against `p`.
fn str_matches_at(s: &str, p: &str, at: usize) -> (r: bool)
    requires
        at <= s@.len(),
    ensures
        r == matches_at(s@, p@, at as int),
{
    let sl = s.unicode_len();
    let pl = p.unicode_len();
    if pl > sl - at {
        return false;
    }
    let mut j: usize = 0;
    while j < pl
        invariant
            j <= pl,
            at + pl <= sl,
            sl == s@.len(),
            pl == p@.len(),
            forall|k: int| 0 <= k < j ==> s@[at + k] == p@[k],
        decreases pl - j,
    {
        if s.get_char(at + j) != p.get_char(j) {
            proof {
                assert(s@.subrange(at as int, at + pl as int)[j as int] != p@[j as int]);
            }
            return false;
        }
        j = j + 1;
    }
    proof {
        assert(s@.subrange(at as int, at + pl as int) =~= p@);
    }
    true
}

/// True when `s` begins with `p`.
pub fn str_starts_with(s: &str, p: &str) -> (r: bool)
    ensures
        r == starts_with_spec(s@, p@),
{
    str_matches_at(s, p, 0)
}

/// Replace every occurrence of `p` from position `i` on, leftmost first and
/// without overlap, by `r`.
pub open spec fn replace_from(s: Seq<char>, p: Seq<char>, r: Seq<char>, i: int) -> Seq<char>
    decreases s.len() - i,
{
    if i < 0 || i >= s.len() || p.len() == 0 {
        Seq::empty()
    } else if matches_at(s, p, i) {
        r + replace_from(s, p, r, i + p.len())
    } else {
        seq![s[i]] + replace_from(s, p, r, i + 1)
    }
}

/// Replace every occurrence of `p` in `s` by `r`, leftmost first and without
/// overlap.
pub open spec fn replace_spec(s: Seq<char>, p: Seq<char>, r: Seq<char>) -> Seq<char> {
    replace_from(s, p, r, 0)
}

/// Past the last position where `p` could still fit, replacement copies the
/// tail unchanged.
proof fn lemma_replace_from_tail(s: Seq<char>, p: Seq<char>, r: Seq<char>, i: int)
    requires
        0 <= i <= s.len(),
        i + p.len() > s.len(),
        p.len() > 0,
    ensures
        replace_from(s, p, r, i) == s.subrange(i, s.len() as int),
    decreases s.len() - i,
{
    if i >= s.len() {
        assert(replace_from(s, p, r, i) =~= s.subrange(i, s.len() as int));
    } else {
        lemma_replace_from_tail(s, p, r, i + 1);
        assert(replace_from(s, p, r, i) =~= s.subrange(i, s.len() as int));
    }
}

/// Replace every occurrence of `p` in `s` by `r`.
pub fn replace_all(s: &str, p: &str, r: &str) -> (out: String)
    requires
        p@.len() > 0,
    ensures
        out@ == replace_spec(s@, p@, r@),
{
    let sl = s.unicode_len();
    let pl = p.unicode_len();
    let mut out = String::new();
    if pl > sl {
        out.append(s);
        proof {
            lemma_replace_from_tail(s@, p@, r@, 0);
            assert(out@ =~= replace_spec(s@, p@, r@));
        }
        return out;
    }
    let mut i: usize = 0;
    let mut seg: usize = 0;
    while i <= sl - pl
        invariant
            seg <= i,
            i <= sl,
            pl <= sl,
            sl == s@.len(),
            pl == p@.len(),
            pl > 0,
            out@ + s@.subrange(seg as int, i as int) + replace_from(s@, p@, r@, i as int)
                == replace_spec(s@, p@, r@),
        decreases sl - i,
    {
        if str_matches_at(s, p, i) {
            out.append(s.substring_char(seg, i));
            out.append(r);
            proof {
                assert(out@ + s@.subrange(i + pl as int, i + pl as int) + replace_from(
                    s@,
                    p@,
                    r@,
                    i + pl as int,
                ) =~= replace_spec(s@, p@, r@));
            }
            i = i + pl;
            seg = i;
        } else {
            proof {
                assert(s@.subrange(seg as int, i + 1) =~= s@.subrange(seg as int, i as int)
                    + seq![s@[i as int]]);
                assert(out@ + s@.subrange(seg as int, i + 1) + replace_from(s@, p@, r@, i + 1)
                    =~= out@ + s@.subrange(seg as int, i as int) + replace_from(
                    s@,
                    p@,
                    r@,
                    i as int,
                ));
            }
            i = i + 1;
        }
    }
    out.append(s.substring_char(seg, sl));
    proof {
        lemma_replace_from_tail(s@, p@, r@, i as int);
        assert(out@ =~= replace_spec(s@, p@, r@));
    }
    out
}

/// Drop one trailing newline, if the text ends with one.
pub open spec fn strip_newline_spec(s: Seq<char>) -> Seq<char> {
    if s.len() > 0 && s[s.len() - 1] == '\n' {
        s.drop_last()
    } else {
        s
    }
}

/// Drop one trailing newline, if the text ends with one.
pub fn strip_last_newline(s: &str) -> (r: String)
    ensures
        r@ == strip_newline_spec(s@),
{
    let sl = s.unicode_len();
    if sl > 0 && s.get_char(sl - 1) == '\n' {
        let head = s.substring_char(0, sl - 1);
        proof {
            assert(head@ =~= s@.drop_last());
        }
        head.to_owned()
    } else {
        s.to_owned()
    }
}

/// One line of output: the indent, the text, a newline — or nothing at all
/// when the text is empty.
pub open spec fn line_spec(s: Seq<char>, part: Seq<char>, indent: Seq<char>) -> Seq<char> {
    if part.len() == 0 {
        s
    } else {
        s + indent + part + seq!['\n']
    }
}

/// Append `part` as one indented line, or nothing when `part` is empty.
pub fn add_line(out: &mut String, part: &str, indent: &str)
    ensures
        final(out)@ == line_spec(old(out)@, part@, indent@),
{
    if !part.is_empty() {
        out.append(indent);
        out.append(part);
        out.append("\n");
        proof {
            reveal_strlit("\n");
            assert(out@ =~= line_spec(old(out)@, part@, indent@));
        }
    }
}

} // verus!
