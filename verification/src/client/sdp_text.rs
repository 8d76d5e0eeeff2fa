//! Line-oriented text as SDP is written: CRLF line ends, `str::lines`, joining, and
//! splitting at a multi-character pattern.

use vstd::prelude::*;
use crate::text::{chars_match_at, chars_of, has_prefix, split_char, split_on, strings_view, substring};

verus! {

/// `str::replace("\r\n", "\n")`: each `\r\n`, found left to right, becomes `\n`.
pub open spec fn crlf_to_lf(s: Seq<char>) -> Seq<char>
    decreases s.len(),
{
    if s.len() == 0 {
        Seq::empty()
    } else if s.len() >= 2 && s[0] == '\r' && s[1] == '\n' {
        seq!['\n'] + crlf_to_lf(s.skip(2))
    } else {
        seq![s[0]] + crlf_to_lf(s.skip(1))
    }
}

/// `str::replace('\n', "\r\n")`: each `\n` becomes `\r\n`.
pub open spec fn lf_to_crlf(s: Seq<char>) -> Seq<char>
    decreases s.len(),
{
    if s.len() == 0 {
        Seq::empty()
    } else if s[0] == '\n' {
        seq!['\r', '\n'] + lf_to_crlf(s.skip(1))
    } else {
        seq![s[0]] + lf_to_crlf(s.skip(1))
    }
}

/// `s` with every `\r\n` replaced by `\n`.
pub fn replace_crlf_with_lf(s: &str) -> (r: String)
    ensures
        r@ == crlf_to_lf(s@),
{
    let v = chars_of(s);
    let n = v.len();
    let mut out = String::new();
    let mut i: usize = 0;
    proof {
        reveal_strlit("\n");
        assert(s@.skip(0) =~= s@);
    }
    while i < n
        invariant
            v@ == s@,
            n == s@.len(),
            i <= n,
            out@ + crlf_to_lf(s@.skip(i as int)) == crlf_to_lf(s@),
            "\n"@ == seq!['\n'],
        decreases n - i,
    {
        let ghost before = out@;
        if i + 1 < n && v[i] == '\r' && v[i + 1] == '\n' {
            out.append("\n");
            proof {
                assert(s@.skip(i as int).skip(2) =~= s@.skip(i + 2));
                assert(out@ + crlf_to_lf(s@.skip(i + 2)) =~= before + crlf_to_lf(s@.skip(i as int)));
            }
            i = i + 2;
        } else {
            out.append(s.substring_char(i, i + 1));
            proof {
                assert(s@.subrange(i as int, i + 1) =~= seq![s@[i as int]]);
                assert(s@.skip(i as int).skip(1) =~= s@.skip(i + 1));
                assert(out@ + crlf_to_lf(s@.skip(i + 1)) =~= before + crlf_to_lf(s@.skip(i as int)));
            }
            i = i + 1;
        }
    }
    proof {
        assert(s@.skip(n as int) =~= Seq::<char>::empty());
        assert(out@ + Seq::<char>::empty() =~= out@);
    }
    out
}

/// `s` with every `\n` replaced by `\r\n`.
pub fn replace_lf_with_crlf(s: &str) -> (r: String)
    ensures
        r@ == lf_to_crlf(s@),
{
    let v = chars_of(s);
    let n = v.len();
    let mut out = String::new();
    let mut i: usize = 0;
    proof {
        reveal_strlit("\r\n");
        assert(s@.skip(0) =~= s@);
    }
    while i < n
        invariant
            v@ == s@,
            n == s@.len(),
            i <= n,
            out@ + lf_to_crlf(s@.skip(i as int)) == lf_to_crlf(s@),
            "\r\n"@ == seq!['\r', '\n'],
        decreases n - i,
    {
        let ghost before = out@;
        proof {
            assert(s@.skip(i as int).skip(1) =~= s@.skip(i + 1));
        }
        if v[i] == '\n' {
            out.append("\r\n");
            proof {
                assert(out@ + lf_to_crlf(s@.skip(i + 1)) =~= before + lf_to_crlf(s@.skip(i as int)));
            }
        } else {
            out.append(s.substring_char(i, i + 1));
            proof {
                assert(s@.subrange(i as int, i + 1) =~= seq![s@[i as int]]);
                assert(out@ + lf_to_crlf(s@.skip(i + 1)) =~= before + lf_to_crlf(s@.skip(i as int)));
            }
        }
        i = i + 1;
    }
    proof {
        assert(s@.skip(n as int) =~= Seq::<char>::empty());
        assert(out@ + Seq::<char>::empty() =~= out@);
    }
    out
}

/// A line without the `\r` of its `\r\n` ending.
pub open spec fn strip_cr(line: Seq<char>) -> Seq<char> {
    if line.len() > 0 && line.last() == '\r' {
        line.drop_last()
    } else {
        line
    }
}

/// `str::lines`: the text between `\n`s, each newline-ended line without a `\r`
/// before its `\n`; a final empty piece (after a last `\n`, or of empty text) is no line.
pub open spec fn lines(s: Seq<char>) -> Seq<Seq<char>> {
    let p = split_on(s, '\n');
    let ended = p.drop_last().map_values(|l: Seq<char>| strip_cr(l));
    if p.last().len() == 0 {
        ended
    } else {
        ended.push(p.last())
    }
}

/// The pieces with `sep` between each two, as `[&str]::join`.
pub open spec fn join(pieces: Seq<Seq<char>>, sep: Seq<char>) -> Seq<char>
    decreases pieces.len(),
{
    if pieces.len() == 0 {
        Seq::empty()
    } else if pieces.len() == 1 {
        pieces[0]
    } else {
        join(pieces.drop_last(), sep) + sep + pieces.last()
    }
}

proof fn lemma_split_on_nonempty(s: Seq<char>, sep: char)
    ensures
        split_on(s, sep).len() >= 1,
{
}

/// The lines of `s`, as `str::lines` gives them.
pub fn lines_of(s: &str) -> (r: Vec<String>)
    ensures
        strings_view(r@) == lines(s@),
{
    let pieces = split_char(s, '\n');
    let ghost p = split_on(s@, '\n');
    proof {
        lemma_split_on_nonempty(s@, '\n');
        assert(strings_view(pieces@).len() == pieces@.len());
    }
    let n = pieces.len();
    let mut out: Vec<String> = Vec::new();
    let mut i: usize = 0;
    while i + 1 < n
        invariant
            strings_view(pieces@) == p,
            n == pieces@.len(),
            n >= 1,
            i + 1 <= n,
            strings_view(out@) == p.take(i as int).map_values(|l: Seq<char>| strip_cr(l)),
        decreases n - i,
    {
        let piece = pieces[i].as_str();
        let len = piece.unicode_len();
        let line = if len > 0 && piece.get_char(len - 1) == '\r' {
            String::from_str(piece.substring_char(0, len - 1))
        } else {
            String::from_str(piece)
        };
        let ghost before = out@;
        out.push(line);
        proof {
            assert(p[i as int] == pieces@[i as int]@);
            assert(line@ == strip_cr(p[i as int])) by {
                if len > 0 && p[i as int].last() == '\r' {
                    assert(p[i as int].subrange(0, len - 1) =~= p[i as int].drop_last());
                }
            }
            assert(strings_view(out@) =~= strings_view(before).push(line@));
            assert(p.take(i + 1).map_values(|l: Seq<char>| strip_cr(l)) =~= p.take(i as int).map_values(
                |l: Seq<char>| strip_cr(l),
            ).push(strip_cr(p[i as int])));
            assert(strings_view(out@) =~= p.take(i + 1).map_values(|l: Seq<char>| strip_cr(l)));
        }
        i = i + 1;
    }
    assert(p.take(i as int) =~= p.drop_last());
    let last = pieces[n - 1].as_str();
    if last.unicode_len() > 0 {
        let ghost before = out@;
        out.push(String::from_str(last));
        assert(strings_view(out@) =~= strings_view(before).push(p.last()));
    }
    out
}

/// The strings with `sep` between each two.
pub fn join_with(pieces: &Vec<String>, sep: &str) -> (r: String)
    ensures
        r@ == join(strings_view(pieces@), sep@),
{
    let ghost p = strings_view(pieces@);
    let mut out = String::new();
    let mut i: usize = 0;
    while i < pieces.len()
        invariant
            p == strings_view(pieces@),
            i <= pieces@.len(),
            out@ == join(p.take(i as int), sep@),
        decreases pieces.len() - i,
    {
        proof {
            assert(p.take(i + 1).drop_last() =~= p.take(i as int));
            assert(p.take(i + 1).last() == pieces@[i as int]@);
        }
        if i > 0 {
            out.append(sep);
        }
        out.append(pieces[i].as_str());
        proof {
            if i == 0 {
                assert(p.take(1)[0] == pieces@[0]@);
            }
        }
        i = i + 1;
    }
    assert(p.take(pieces@.len() as int) =~= p);
    out
}

/// `str::split(pat)` for a non-empty pattern: the pieces between the matches of
/// `pat`, found left to right without overlap; empty pieces included.
pub open spec fn split_str(s: Seq<char>, pat: Seq<char>) -> Seq<Seq<char>>
    decreases s.len(),
{
    if s.len() == 0 {
        seq![Seq::empty()]
    } else if pat.len() > 0 && has_prefix(s, pat) {
        seq![Seq::<char>::empty()] + split_str(s.skip(pat.len() as int), pat)
    } else {
        let rest = split_str(s.skip(1), pat);
        rest.update(0, seq![s[0]] + rest[0])
    }
}

/// `rest` with `p` put in front of its first piece.
pub open spec fn prepend_first(p: Seq<char>, rest: Seq<Seq<char>>) -> Seq<Seq<char>> {
    rest.update(0, p + rest[0])
}

proof fn lemma_split_str_nonempty(s: Seq<char>, pat: Seq<char>)
    ensures
        split_str(s, pat).len() >= 1,
    decreases s.len(),
{
    if s.len() > 0 {
        if pat.len() > 0 && has_prefix(s, pat) {
            lemma_split_str_nonempty(s.skip(pat.len() as int), pat);
        } else {
            lemma_split_str_nonempty(s.skip(1), pat);
        }
    }
}

/// The pieces of `s` between the matches of the non-empty `pat`, as `str::split`.
pub fn split_at_pattern(s: &str, pat: &str) -> (r: Vec<String>)
    requires
        pat@.len() > 0,
    ensures
        strings_view(r@) == split_str(s@, pat@),
{
    let v = chars_of(s);
    let pv = chars_of(pat);
    let n = v.len();
    let m = pv.len();
    let mut done: Vec<String> = Vec::new();
    let mut start: usize = 0;
    let mut i: usize = 0;
    proof {
        assert(s@.skip(0) =~= s@);
        lemma_split_str_nonempty(s@, pat@);
        let r0 = split_str(s@, pat@);
        assert(prepend_first(Seq::empty(), r0) =~= r0) by {
            assert(Seq::<char>::empty() + r0[0] =~= r0[0]);
        }
        assert(strings_view(done@) + prepend_first(Seq::empty(), r0) =~= r0);
        assert(s@.subrange(0, 0) =~= Seq::<char>::empty());
    }
    while i < n
        invariant
            v@ == s@,
            pv@ == pat@,
            n == s@.len(),
            m == pat@.len(),
            m > 0,
            start <= i <= n,
            strings_view(done@) + prepend_first(s@.subrange(start as int, i as int), split_str(s@.skip(i as int), pat@))
                == split_str(s@, pat@),
        decreases n - i,
    {
        let ghost cur = s@.subrange(start as int, i as int);
        let ghost t = s@.skip(i as int);
        proof {
            assert(s@.subrange(i as int, s@.len() as int) =~= t);
        }
        if chars_match_at(&v, i, &pv) {
            let piece = substring(s, start, i);
            let ghost before = done@;
            done.push(piece);
            proof {
                let rest = split_str(t.skip(m as int), pat@);
                lemma_split_str_nonempty(t.skip(m as int), pat@);
                assert(t.skip(m as int) =~= s@.skip(i + m));
                assert(split_str(t, pat@) == seq![Seq::<char>::empty()] + rest);
                assert(prepend_first(cur, seq![Seq::<char>::empty()] + rest) =~= seq![cur] + rest) by {
                    assert(cur + Seq::<char>::empty() =~= cur);
                }
                assert(prepend_first(Seq::empty(), rest) =~= rest) by {
                    assert(Seq::<char>::empty() + rest[0] =~= rest[0]);
                }
                assert(strings_view(done@) =~= strings_view(before).push(cur));
                assert(s@.subrange(i + m, i + m) =~= Seq::<char>::empty());
                assert(strings_view(done@) + prepend_first(Seq::empty(), rest)
                    =~= strings_view(before) + prepend_first(cur, split_str(t, pat@)));
            }
            i = i + m;
            start = i;
        } else {
            proof {
                let rest = split_str(t.skip(1), pat@);
                lemma_split_str_nonempty(t.skip(1), pat@);
                assert(t.skip(1) =~= s@.skip(i + 1));
                assert(t[0] == s@[i as int]);
                assert(split_str(t, pat@) == rest.update(0, seq![t[0]] + rest[0]));
                assert(s@.subrange(start as int, i + 1) =~= cur + seq![t[0]]);
                assert(prepend_first(cur, split_str(t, pat@)) =~= prepend_first(cur + seq![t[0]], rest)) by {
                    assert(cur + (seq![t[0]] + rest[0]) =~= (cur + seq![t[0]]) + rest[0]);
                }
            }
            i = i + 1;
        }
    }
    let last = substring(s, start, n);
    let ghost before = done@;
    done.push(last);
    proof {
        let cur = s@.subrange(start as int, n as int);
        assert(s@.skip(n as int) =~= Seq::<char>::empty());
        assert(split_str(Seq::<char>::empty(), pat@) == seq![Seq::<char>::empty()]);
        assert(prepend_first(cur, seq![Seq::<char>::empty()]) =~= seq![cur]) by {
            assert(cur + Seq::<char>::empty() =~= cur);
        }
        assert(strings_view(done@) =~= strings_view(before) + seq![cur]);
    }
    done
}

} // verus!
