use vstd::prelude::*;
use vstd::string::*;

verus! {

/// `s` with every occurrence of `c` replaced by `by`.
pub open spec fn replace_char(s: Seq<char>, c: char, by: Seq<char>) -> Seq<char>
    decreases s.len(),
{
    if s.len() == 0 {
        Seq::empty()
    } else {
        (if s[0] == c {
            by
        } else {
            seq![s[0]]
        }) + replace_char(s.drop_first(), c, by)
    }
}

/// `s` made safe inside a single-quoted PowerShell string: each `'` doubled.
pub open spec fn single_quote_escaped(s: Seq<char>) -> Seq<char> {
    replace_char(s, '\'', seq!['\'', '\''])
}

/// `s` made safe inside a double-quoted argument: each `"` preceded by `\`.
pub open spec fn double_quote_escaped(s: Seq<char>) -> Seq<char> {
    replace_char(s, '"', seq!['\\', '"'])
}

/// What a single-quoted PowerShell literal whose body is `t` reads as: `''`
/// stands for one `'`, and a lone `'` would end the literal early (`None`).
pub open spec fn single_quoted_body(t: Seq<char>) -> Option<Seq<char>>
    decreases t.len(),
{
    if t.len() == 0 {
        Some(Seq::empty())
    } else if t[0] == '\'' {
        if t.len() >= 2 && t[1] == '\'' {
            match single_quoted_body(t.subrange(2, t.len() as int)) {
                Some(rest) => Some(seq!['\''] + rest),
                None => None,
            }
        } else {
            None
        }
    } else {
        match single_quoted_body(t.drop_first()) {
            Some(rest) => Some(seq![t[0]] + rest),
            None => None,
        }
    }
}

proof fn lemma_replace_push(s: Seq<char>, x: char, c: char, by: Seq<char>)
    ensures
        replace_char(s.push(x), c, by) == replace_char(s, c, by) + (if x == c {
            by
        } else {
            seq![x]
        }),
    decreases s.len(),
{
    if s.len() == 0 {
        assert(s.push(x).drop_first() =~= Seq::<char>::empty());
        assert(replace_char(s.push(x).drop_first(), c, by) =~= Seq::<char>::empty());
        assert(replace_char(s.push(x), c, by) =~= (if x == c {
            by
        } else {
            seq![x]
        }));
    } else {
        lemma_replace_push(s.drop_first(), x, c, by);
        assert(s.push(x).drop_first() =~= s.drop_first().push(x));
        assert(s.push(x)[0] == s[0]);
        let head = if s[0] == c {
            by
        } else {
            seq![s[0]]
        };
        let tail = if x == c {
            by
        } else {
            seq![x]
        };
        assert(replace_char(s.push(x), c, by) =~= head + (replace_char(s.drop_first(), c, by)
            + tail));
    }
}

/// A device name escaped with doubled single quotes always reads back, inside
/// a single-quoted literal, as exactly the name itself: no character of the
/// name can end the quoted argument early.
pub proof fn lemma_single_quote_escape_reads_back(s: Seq<char>)
    ensures
        single_quoted_body(single_quote_escaped(s)) == Some(s),
    decreases s.len(),
{
    if s.len() > 0 {
        lemma_single_quote_escape_reads_back(s.drop_first());
        let t = single_quote_escaped(s);
        let rest = single_quote_escaped(s.drop_first());
        if s[0] == '\'' {
            assert(t =~= seq!['\'', '\''] + rest);
            assert(t.subrange(2, t.len() as int) =~= rest);
            assert(seq!['\''] + s.drop_first() =~= s);
        } else {
            assert(t =~= seq![s[0]] + rest);
            assert(t.drop_first() =~= rest);
            assert(seq![s[0]] + s.drop_first() =~= s);
        }
    }
}

/// Replaces every `c` in `s` by `by`.
fn replace_char_in(s: &str, c: char, by: &str) -> (r: String)
    ensures
        r@ == replace_char(s@, c, by@),
{
    let n = s.unicode_len();
    let mut out = String::new();
    let mut i: usize = 0;
    while i < n
        invariant
            i <= n,
            n == s@.len(),
            out@ == replace_char(s@.subrange(0, i as int), c, by@),
        decreases n - i,
    {
        let ch = s.get_char(i);
        if ch == c {
            out.append(by);
        } else {
            let one = s.substring_char(i, i + 1);
            assert(one@ =~= seq![ch]);
            out.append(one);
        }
        proof {
            lemma_replace_push(s@.subrange(0, i as int), ch, c, by@);
            assert(s@.subrange(0, i as int).push(ch) =~= s@.subrange(0, i + 1));
        }
        i += 1;
    }
    assert(s@.subrange(0, n as int) =~= s@);
    out
}

/// Doubles each single quote, as a single-quoted PowerShell string needs.
pub fn escape_single_quotes(s: &str) -> (r: String)
    ensures
        r@ == single_quote_escaped(s@),
{
    proof {
        reveal_strlit("''");
        assert("''"@ =~= seq!['\'', '\'']);
    }
    replace_char_in(s, '\'', "''")
}

/// Puts a backslash before each double quote.
pub fn escape_double_quotes(s: &str) -> (r: String)
    ensures
        r@ == double_quote_escaped(s@),
{
    proof {
        reveal_strlit("\\\"");
        assert("\\\""@ =~= seq!['\\', '"']);
    }
    replace_char_in(s, '"', "\\\"")
}

} // verus!
