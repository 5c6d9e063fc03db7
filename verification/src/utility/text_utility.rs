//! Successive regular expression replacements, lines and white space.

use vstd::prelude::*;
use crate::regex_engine::{CompiledRegex, regex_replace_all, replace_all};
use crate::utility::characters::{char_is_whitespace, is_white_space};

verus! {

/// Patterns and replacements, as mathematical values.
pub open spec fn replacements_view(replacements: Seq<(CompiledRegex, String)>) -> Seq<
    (Seq<char>, Seq<char>),
> {
    replacements.map_values(|r: (CompiledRegex, String)| (r.0.spec_pattern(), r.1@))
}

/// `content` after replacing every match of each pattern in turn.
pub open spec fn replace_chain(content: Seq<char>, replacements: Seq<(Seq<char>, Seq<char>)>) -> Seq<
    char,
>
    decreases replacements.len(),
{
    if replacements.len() == 0 {
        content
    } else {
        let last = replacements.last();
        regex_replace_all(last.0, replace_chain(content, replacements.drop_last()), last.1)
    }
}

/// The pieces of `s` between its `\n`s (one more than there are `\n`s).
pub open spec fn newline_pieces(s: Seq<char>) -> Seq<Seq<char>>
    decreases s.len(),
{
    if s.len() == 0 {
        seq![Seq::<char>::empty()]
    } else {
        let p = newline_pieces(s.drop_last());
        if s.last() == '\n' {
            p.push(Seq::<char>::empty())
        } else {
            p.update(p.len() - 1, p.last().push(s.last()))
        }
    }
}

/// A line ended by `\n`, without the `\r` of a `\r\n` ending.
pub open spec fn line_without_cr(piece: Seq<char>) -> Seq<char> {
    if piece.len() > 0 && piece.last() == '\r' {
        piece.drop_last()
    } else {
        piece
    }
}

/// The lines of `s`, as `str::lines` yields them: split at each `\n`, a `\r`
/// just before it belonging to the ending; the text after the last `\n` is a
/// line when it is not empty.
pub open spec fn text_lines(s: Seq<char>) -> Seq<Seq<char>> {
    let pieces = newline_pieces(s);
    pieces.drop_last().map_values(|l: Seq<char>| line_without_cr(l)) + if pieces.last().len() > 0 {
        seq![pieces.last()]
    } else {
        Seq::empty()
    }
}

/// `s` without the white space that opens it.
pub open spec fn trim_start_chars(s: Seq<char>) -> Seq<char>
    decreases s.len(),
{
    if s.len() > 0 && is_white_space(s[0]) {
        trim_start_chars(s.drop_first())
    } else {
        s
    }
}

/// `s` without the white space that closes it.
pub open spec fn trim_end_chars(s: Seq<char>) -> Seq<char>
    decreases s.len(),
{
    if s.len() > 0 && is_white_space(s.last()) {
        trim_end_chars(s.drop_last())
    } else {
        s
    }
}

/// `s` without leading and trailing white space.
pub open spec fn trim_chars(s: Seq<char>) -> Seq<char> {
    trim_end_chars(trim_start_chars(s))
}

/// The lines of `s`.
pub fn lines(s: &str) -> (r: Vec<String>)
    ensures
        r@.map_values(|l: String| l@) == text_lines(s@),
{
    let n = s.unicode_len();
    let ghost text = s@;
    let mut out: Vec<String> = Vec::new();
    let mut start: usize = 0;
    let mut i: usize = 0;
    proof {
        assert(text.take(0) =~= Seq::<char>::empty());
        assert(out@.map_values(|l: String| l@) =~= Seq::<Seq<char>>::empty());
    }
    while i < n
        invariant
            n == text.len(),
            text == s@,
            start <= i <= n,
            newline_pieces(text.take(i as int)).len() >= 1,
            newline_pieces(text.take(i as int)).last() == text.subrange(start as int, i as int),
            out@.map_values(|l: String| l@) == newline_pieces(text.take(i as int)).drop_last().map_values(
                |l: Seq<char>| line_without_cr(l),
            ),
        decreases n - i,
    {
        let c = s.get_char(i);
        let ghost p = newline_pieces(text.take(i as int));
        let ghost before = out@.map_values(|l: String| l@);
        proof {
            let u = text.take(i + 1);
            assert(u.drop_last() =~= text.take(i as int));
            assert(u.last() == c);
        }
        if c == '\n' {
            let ends_with_cr = i > start && s.get_char(i - 1) == '\r';
            let end = if ends_with_cr {
                i - 1
            } else {
                i
            };
            let line = s.substring_char(start, end);
            out.push(line.to_string());
            proof {
                let piece = text.subrange(start as int, i as int);
                assert(line@ == line_without_cr(piece)) by {
                    if ends_with_cr {
                        assert(piece.drop_last() =~= text.subrange(start as int, end as int));
                    } else {
                        assert(piece =~= text.subrange(start as int, end as int));
                    }
                }
                let q = p.push(Seq::<char>::empty());
                assert(q.drop_last() =~= p);
                assert(p.drop_last().push(p.last()) =~= p);
                assert(out@.map_values(|l: String| l@) =~= before.push(line@));
                assert(p.map_values(|l: Seq<char>| line_without_cr(l)) =~= p.drop_last().map_values(
                    |l: Seq<char>| line_without_cr(l),
                ).push(line_without_cr(p.last())));
                assert(out@.map_values(|l: String| l@) =~= p.map_values(
                    |l: Seq<char>| line_without_cr(l),
                ));
                assert(text.subrange(i + 1, i + 1) =~= Seq::<char>::empty());
            }
            start = i + 1;
        } else {
            proof {
                let q = p.update(p.len() - 1, p.last().push(c));
                assert(q.drop_last() =~= p.drop_last());
                assert(q.last() =~= text.subrange(start as int, i + 1));
            }
        }
        i = i + 1;
    }
    assert(text.take(n as int) =~= text);
    let ghost p = newline_pieces(text);
    if start < n {
        let last = s.substring_char(start, n);
        out.push(last.to_string());
        assert(out@.map_values(|l: String| l@) =~= text_lines(text));
    } else {
        assert(p.last() =~= Seq::<char>::empty());
        assert(out@.map_values(|l: String| l@) =~= text_lines(text));
    }
    out
}

/// `s` without the white space that opens it.
pub fn trim_start(s: &str) -> (r: String)
    ensures
        r@ == trim_start_chars(s@),
{
    let n = s.unicode_len();
    let mut a: usize = 0;
    assert(s@.skip(0) =~= s@);
    while a < n && char_is_whitespace(s.get_char(a))
        invariant
            n == s@.len(),
            a <= n,
            trim_start_chars(s@) == trim_start_chars(s@.skip(a as int)),
        decreases n - a,
    {
        assert(s@.skip(a as int).drop_first() =~= s@.skip(a + 1));
        a = a + 1;
    }
    let r = s.substring_char(a, n);
    assert(r@ =~= s@.skip(a as int));
    r.to_string()
}

/// `s` without the white space that closes it.
pub fn trim_end(s: &str) -> (r: String)
    ensures
        r@ == trim_end_chars(s@),
{
    let n = s.unicode_len();
    let mut b: usize = n;
    assert(s@.take(n as int) =~= s@);
    while b > 0 && char_is_whitespace(s.get_char(b - 1))
        invariant
            n == s@.len(),
            b <= n,
            trim_end_chars(s@) == trim_end_chars(s@.take(b as int)),
        decreases b,
    {
        assert(s@.take(b as int).drop_last() =~= s@.take(b - 1));
        b = b - 1;
    }
    let r = s.substring_char(0, b);
    assert(r@ =~= s@.take(b as int));
    r.to_string()
}

/// `s` without leading and trailing white space.
pub fn trim(s: &str) -> (r: String)
    ensures
        r@ == trim_chars(s@),
{
    let t = trim_start(s);
    trim_end(t.as_str())
}

/// Applies each replacement, in order, to the whole content.
pub fn replace(content: &str, replacements: &Vec<(CompiledRegex, String)>) -> (r: String)
    ensures
        r@ == replace_chain(content@, replacements_view(replacements@)),
{
    let ghost rv = replacements_view(replacements@);
    let mut result = String::from_str(content);
    let mut i: usize = 0;
    while i < replacements.len()
        invariant
            i <= replacements.len(),
            rv == replacements_view(replacements@),
            result@ == replace_chain(content@, rv.take(i as int)),
        decreases replacements.len() - i,
    {
        assert(rv.take(i + 1).drop_last() =~= rv.take(i as int));
        result = replace_all(&replacements[i].0, result.as_str(), replacements[i].1.as_str());
        i = i + 1;
    }
    assert(rv.take(replacements.len() as int) =~= rv);
    result
}

} // verus!
