use vstd::prelude::*;

verus! {

/// The LIKE escape of one character: the wildcards `%` and `_` and the escape
/// character `\` itself are preceded by `\`; every other character stands as is.
pub open spec fn escape_like_char(c: char) -> Seq<char> {
    if c == '%' || c == '_' || c == '\\' {
        seq!['\\', c]
    } else {
        seq![c]
    }
}

/// The LIKE escape of a text, character by character.
pub open spec fn escape_like(s: Seq<char>) -> Seq<char>
    decreases s.len(),
{
    if s.len() == 0 {
        Seq::empty()
    } else {
        escape_like_char(s[0]) + escape_like(s.drop_first())
    }
}

/// The literal text that an escaped LIKE pattern body stands for.
pub open spec fn unescape_like(p: Seq<char>) -> Seq<char>
    decreases p.len(),
{
    if p.len() == 0 {
        Seq::empty()
    } else if p[0] == '\\' && p.len() >= 2 {
        seq![p[1]] + unescape_like(p.drop_first().drop_first())
    } else {
        seq![p[0]] + unescape_like(p.drop_first())
    }
}

/// The pattern that matches every text holding `v` as a substring: `v`
/// escaped, between two `%` wildcards.
pub open spec fn substring_pattern(v: Seq<char>) -> Seq<char> {
    seq!['%'] + escape_like(v) + seq!['%']
}

proof fn lemma_escape_push(s: Seq<char>, c: char)
    ensures
        escape_like(s.push(c)) == escape_like(s) + escape_like_char(c),
    decreases s.len(),
{
    if s.len() == 0 {
        assert(s.push(c).drop_first() =~= Seq::<char>::empty());
        assert(escape_like(s.push(c).drop_first()) == Seq::<char>::empty());
        assert(escape_like(s.push(c)) =~= escape_like(s) + escape_like_char(c));
    } else {
        lemma_escape_push(s.drop_first(), c);
        assert(s.push(c).drop_first() =~= s.drop_first().push(c));
        assert(escape_like(s.push(c)) =~= escape_like(s) + escape_like_char(c));
    }
}

/// Escaping hides nothing: the escaped body of a substring pattern stands for
/// exactly the text it was made from, so a `%` or `_` in the text matches
/// only itself.
pub proof fn lemma_unescape_escape(s: Seq<char>)
    ensures
        unescape_like(escape_like(s)) == s,
    decreases s.len(),
{
    if s.len() > 0 {
        let c = s[0];
        let rest = s.drop_first();
        lemma_unescape_escape(rest);
        let e = escape_like(s);
        assert(e == escape_like_char(c) + escape_like(rest));
        if c == '%' || c == '_' || c == '\\' {
            assert(e.drop_first().drop_first() =~= escape_like(rest));
        } else {
            assert(e.drop_first() =~= escape_like(rest));
        }
        assert(unescape_like(e) =~= s);
    }
}

/// Builds the pattern bound to a substring filter: `value` with its LIKE
/// wildcards escaped, between two `%`.
pub fn substring_pattern_text(value: &str) -> (r: String)
    ensures
        r@ == substring_pattern(value@),
{
    proof {
        reveal_strlit("%");
    }
    let n = value.unicode_len();
    let mut r = String::from_str("%");
    let mut i: usize = 0;
    while i < n
        invariant
            n == value@.len(),
            i <= n,
            r@ == seq!['%'] + escape_like(value@.subrange(0, i as int)),
        decreases n - i,
    {
        let c = value.get_char(i);
        let ghost before = r@;
        if c == '%' || c == '_' || c == '\\' {
            proof {
                reveal_strlit("\\");
            }
            r.append("\\");
        }
        let one = value.substring_char(i, i + 1);
        assert(one@ =~= seq![c]);
        r.append(one);
        assert(r@ =~= before + escape_like_char(c));
        proof {
            assert(value@.subrange(0, i + 1) =~= value@.subrange(0, i as int).push(c));
            lemma_escape_push(value@.subrange(0, i as int), c);
        }
        i = i + 1;
    }
    r.append("%");
    proof {
        assert(value@.subrange(0, n as int) =~= value@);
    }
    r
}

/// One element of a LIKE pattern: `%` matches any run of characters, `_`
/// any one character, and every other character, or one escaped by `\`,
/// itself.
#[derive(Debug, Clone, Copy, PartialEq, Eq, Structural)]
pub enum LikeToken {
    Any,
    One,
    Lit(char),
}

/// Reads a LIKE pattern, with `\` as its escape character.
pub open spec fn like_tokens(p: Seq<char>) -> Seq<LikeToken>
    decreases p.len(),
{
    if p.len() == 0 {
        Seq::empty()
    } else if p[0] == '\\' && p.len() >= 2 {
        seq![LikeToken::Lit(p[1])] + like_tokens(p.subrange(2, p.len() as int))
    } else if p[0] == '%' {
        seq![LikeToken::Any] + like_tokens(p.drop_first())
    } else if p[0] == '_' {
        seq![LikeToken::One] + like_tokens(p.drop_first())
    } else {
        seq![LikeToken::Lit(p[0])] + like_tokens(p.drop_first())
    }
}

/// The whole of `t` matches the pattern elements `ts`: `%` matches nothing
/// more, or one character and then again `%`.
pub open spec fn tokens_match(ts: Seq<LikeToken>, t: Seq<char>) -> bool
    decreases ts.len(), t.len(),
{
    if ts.len() == 0 {
        t.len() == 0
    } else {
        match ts[0] {
            LikeToken::Any => tokens_match(ts.drop_first(), t) || (t.len() >= 1 && tokens_match(
                ts,
                t.drop_first(),
            )),
            LikeToken::One => t.len() >= 1 && tokens_match(ts.drop_first(), t.drop_first()),
            LikeToken::Lit(c) => t.len() >= 1 && t[0] == c && tokens_match(
                ts.drop_first(),
                t.drop_first(),
            ),
        }
    }
}

/// `t LIKE p`, with `\` as the escape character.
pub open spec fn like_match(p: Seq<char>, t: Seq<char>) -> bool {
    tokens_match(like_tokens(p), t)
}

/// `v` occurs in `t`.
pub open spec fn contains(t: Seq<char>, v: Seq<char>) -> bool {
    exists|i: int| 0 <= i && i + v.len() <= t.len() && #[trigger] t.subrange(i, i + v.len()) == v
}

pub open spec fn literal(c: char) -> LikeToken {
    LikeToken::Lit(c)
}

pub open spec fn literals(v: Seq<char>) -> Seq<LikeToken> {
    v.map_values(|c: char| literal(c))
}

proof fn lemma_tokens_of_escaped(v: Seq<char>, rest: Seq<char>)
    ensures
        like_tokens(escape_like(v) + rest) == literals(v) + like_tokens(rest),
    decreases v.len(),
{
    if v.len() == 0 {
        assert(escape_like(v) + rest =~= rest);
        assert(literals(v) + like_tokens(rest) =~= like_tokens(rest));
    } else {
        let c = v[0];
        let tail = v.drop_first();
        lemma_tokens_of_escaped(tail, rest);
        let after = escape_like(tail) + rest;
        let whole = escape_like(v) + rest;
        assert(whole =~= escape_like_char(c) + after);
        if c == '%' || c == '_' || c == '\\' {
            assert(whole.subrange(2, whole.len() as int) =~= after);
        } else {
            assert(whole.drop_first() =~= after);
        }
        assert(literals(v) =~= seq![literal(c)] + literals(tail));
        assert(like_tokens(whole) =~= literals(v) + like_tokens(rest));
    }
}

proof fn lemma_tokens_of_pattern(v: Seq<char>)
    ensures
        like_tokens(substring_pattern(v)) == seq![LikeToken::Any] + literals(v) + seq![
            LikeToken::Any,
        ],
{
    let pct = seq!['%'];
    lemma_tokens_of_escaped(v, pct);
    assert(like_tokens(pct.drop_first()) =~= Seq::<LikeToken>::empty());
    assert(like_tokens(pct) =~= seq![LikeToken::Any]);
    let p = substring_pattern(v);
    assert(p.drop_first() =~= escape_like(v) + pct);
    assert(like_tokens(p) =~= seq![LikeToken::Any] + literals(v) + seq![LikeToken::Any]);
}

proof fn lemma_prefix_then_any(v: Seq<char>, u: Seq<char>)
    ensures
        tokens_match(literals(v) + seq![LikeToken::Any], u) <==> (v.len() <= u.len()
            && u.subrange(0, v.len() as int) == v),
    decreases v.len(),
{
    let ts = literals(v) + seq![LikeToken::Any];
    if v.len() == 0 {
        assert(ts =~= seq![LikeToken::Any]);
        assert(u.subrange(0, 0) =~= v);
        lemma_any_matches_all(u);
    } else if u.len() == 0 {
        assert(ts[0] == literal(v[0]));
        assert(!tokens_match(ts, u));
    } else {
        let tail = v.drop_first();
        let ut = u.drop_first();
        lemma_prefix_then_any(tail, ut);
        assert(ts.drop_first() =~= literals(tail) + seq![LikeToken::Any]);
        assert(ts[0] == literal(v[0]));
        assert(tokens_match(ts, u) == (u[0] == v[0] && tokens_match(ts.drop_first(), ut)));
        if v.len() <= u.len() && u.subrange(0, v.len() as int) == v {
            assert(u[0] == u.subrange(0, v.len() as int)[0]);
            assert(ut.subrange(0, tail.len() as int) =~= tail);
        }
        if tokens_match(ts, u) {
            assert(u.subrange(0, v.len() as int) =~= seq![u[0]] + ut.subrange(0, tail.len() as int));
            assert(u.subrange(0, v.len() as int) =~= v);
        }
        assert(tokens_match(ts, u) <==> (v.len() <= u.len() && u.subrange(0, v.len() as int) == v));
    }
}

proof fn lemma_any_matches_all(u: Seq<char>)
    ensures
        tokens_match(seq![LikeToken::Any], u),
    decreases u.len(),
{
    let ts = seq![LikeToken::Any];
    assert(ts.drop_first() =~= Seq::<LikeToken>::empty());
    assert(ts.len() == 1 && ts[0] == LikeToken::Any);
    if u.len() > 0 {
        lemma_any_matches_all(u.drop_first());
        assert(tokens_match(ts, u.drop_first()));
    } else {
        assert(tokens_match(ts.drop_first(), u));
    }
}

/// `v` occurs in `t` either at its start or further on.
proof fn lemma_contains_split(t: Seq<char>, v: Seq<char>)
    ensures
        contains(t, v) <==> ((v.len() <= t.len() && t.subrange(0, v.len() as int) == v) || (t.len()
            >= 1 && contains(t.drop_first(), v))),
{
    if contains(t, v) {
        let i = choose|i: int| 0 <= i && i + v.len() <= t.len() && #[trigger] t.subrange(i, i + v.len()) == v;
        if i > 0 {
            assert(t.drop_first().subrange(i - 1, i - 1 + v.len()) =~= t.subrange(i, i + v.len()));
        }
    }
    if v.len() <= t.len() && t.subrange(0, v.len() as int) == v {
        let z: int = 0;
        assert(t.subrange(z, z + v.len()) =~= v);
    }
    if t.len() >= 1 && contains(t.drop_first(), v) {
        let d = t.drop_first();
        let i = choose|i: int| 0 <= i && i + v.len() <= d.len() && #[trigger] d.subrange(i, i + v.len()) == v;
        assert(t.subrange(i + 1, i + 1 + v.len()) =~= d.subrange(i, i + v.len()));
    }
}

/// Under LIKE's rules, with `\` as the escape character, the substring
/// pattern of `v` matches exactly the texts that contain `v`. (ILIKE applies
/// the same rules with case folded.)
pub proof fn lemma_substring_pattern_matches(v: Seq<char>, t: Seq<char>)
    ensures
        like_match(substring_pattern(v), t) <==> contains(t, v),
    decreases t.len(),
{
    lemma_tokens_of_pattern(v);
    let ts = seq![LikeToken::Any] + literals(v) + seq![LikeToken::Any];
    let rest = literals(v) + seq![LikeToken::Any];
    assert(ts.drop_first() =~= rest);
    assert(ts[0] == LikeToken::Any);
    lemma_prefix_then_any(v, t);
    lemma_contains_split(t, v);
    if t.len() >= 1 {
        lemma_substring_pattern_matches(v, t.drop_first());
    }
}

} // verus!
