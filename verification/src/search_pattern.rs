//! Rewriting of search patterns for the database's own regular expressions
//! and wildcards.
use std::borrow::Cow;
use vstd::prelude::*;

use crate::text::chars_of;

verus! {

/// The text of a borrowed or owned string.
pub open spec fn cow_text(c: Cow<'_, str>) -> Seq<char> {
    match c {
        Cow::Borrowed(s) => s@,
        Cow::Owned(s) => s@,
    }
}

/// How the database spells an escape that stands outside a bracket
/// expression: `y` and `Y` for a word boundary and its opposite, `m` and `M`
/// for the start and the end of a word; any other escape is the same.
pub open spec fn boundary(c: char) -> char {
    if c == 'b' {
        'y'
    } else if c == 'B' {
        'Y'
    } else if c == '<' {
        'm'
    } else if c == '>' {
        'M'
    } else {
        c
    }
}

/// Where a reader of a pattern stands with respect to a bracket expression.
#[derive(Clone, Copy, Debug)]
pub enum Bracket {
    /// Outside of any.
    Outside,
    /// Just after the opening bracket.
    Opened,
    /// Just after the opening bracket and the `^` that negates it.
    Negated,
    /// Inside, where a closing bracket ends the expression.
    Inside,
    /// Inside, just after another opening bracket.
    Nested,
    /// Inside a named class, an equivalence class or a collating element,
    /// which its mark and a closing bracket end.
    Named(char),
    /// Inside such an element, just after its mark.
    NamedEnd(char),
}

/// Whether a character after an inner opening bracket names an element:
/// `[:..:]`, `[=..=]` and `[. .]`.
pub open spec fn is_mark(c: char) -> bool {
    c == ':' || c == '=' || c == '.'
}

/// Where a reader stands after an unescaped character. A closing bracket
/// right at the start of a bracket expression, or of a negated one, is one of
/// its members, and so are those inside a named element.
pub open spec fn bracket_after(c: char, b: Bracket) -> Bracket {
    match b {
        Bracket::Outside => if c == '[' {
            Bracket::Opened
        } else {
            Bracket::Outside
        },
        Bracket::Opened => if c == '^' {
            Bracket::Negated
        } else if c == '[' {
            Bracket::Nested
        } else {
            Bracket::Inside
        },
        Bracket::Negated => if c == '[' {
            Bracket::Nested
        } else {
            Bracket::Inside
        },
        Bracket::Inside => if c == ']' {
            Bracket::Outside
        } else if c == '[' {
            Bracket::Nested
        } else {
            Bracket::Inside
        },
        Bracket::Nested => if is_mark(c) {
            Bracket::Named(c)
        } else if c == ']' {
            Bracket::Outside
        } else if c == '[' {
            Bracket::Nested
        } else {
            Bracket::Inside
        },
        Bracket::Named(mark) => if c == mark {
            Bracket::NamedEnd(mark)
        } else {
            Bracket::Named(mark)
        },
        Bracket::NamedEnd(mark) => if c == ']' {
            Bracket::Inside
        } else if c == mark {
            Bracket::NamedEnd(mark)
        } else {
            Bracket::Named(mark)
        },
    }
}

/// Where a reader stands after an escape: it opens and closes nothing.
pub open spec fn bracket_after_escape(b: Bracket) -> Bracket {
    match b {
        Bracket::Outside => Bracket::Outside,
        Bracket::Named(mark) => Bracket::Named(mark),
        Bracket::NamedEnd(mark) => Bracket::Named(mark),
        _ => Bracket::Inside,
    }
}

impl Bracket {
    fn after(self, c: char) -> (r: Bracket)
        ensures
            r == bracket_after(c, self),
    {
        match self {
            Bracket::Outside => if c == '[' {
                Bracket::Opened
            } else {
                Bracket::Outside
            },
            Bracket::Opened => if c == '^' {
                Bracket::Negated
            } else if c == '[' {
                Bracket::Nested
            } else {
                Bracket::Inside
            },
            Bracket::Negated => if c == '[' {
                Bracket::Nested
            } else {
                Bracket::Inside
            },
            Bracket::Inside => if c == ']' {
                Bracket::Outside
            } else if c == '[' {
                Bracket::Nested
            } else {
                Bracket::Inside
            },
            Bracket::Nested => if c == ':' || c == '=' || c == '.' {
                Bracket::Named(c)
            } else if c == ']' {
                Bracket::Outside
            } else if c == '[' {
                Bracket::Nested
            } else {
                Bracket::Inside
            },
            Bracket::Named(mark) => if c == mark {
                Bracket::NamedEnd(mark)
            } else {
                Bracket::Named(mark)
            },
            Bracket::NamedEnd(mark) => if c == ']' {
                Bracket::Inside
            } else if c == mark {
                Bracket::NamedEnd(mark)
            } else {
                Bracket::Named(mark)
            },
        }
    }

    fn after_escape(self) -> (r: Bracket)
        ensures
            r == bracket_after_escape(self),
    {
        match self {
            Bracket::Outside => Bracket::Outside,
            Bracket::Named(mark) => Bracket::Named(mark),
            Bracket::NamedEnd(mark) => Bracket::Named(mark),
            _ => Bracket::Inside,
        }
    }

    fn is_outside(self) -> (r: bool)
        ensures
            r == (self is Outside),
    {
        match self {
            Bracket::Outside => true,
            _ => false,
        }
    }
}

/// A pattern with its word-boundary escapes as the database spells them, from
/// a place in or outside a bracket expression. An escape inside a bracket
/// expression stays as it is, and an escaped bracket opens or closes none.
pub open spec fn translated_from(p: Seq<char>, b: Bracket) -> Seq<char>
    decreases p.len(),
{
    if p.len() == 0 {
        Seq::empty()
    } else if p[0] == '\\' && p.len() == 1 {
        p
    } else if p[0] == '\\' {
        let c = if b is Outside {
            boundary(p[1])
        } else {
            p[1]
        };
        Seq::empty().push('\\').push(c) + translated_from(p.skip(2), bracket_after_escape(b))
    } else {
        Seq::empty().push(p[0]) + translated_from(p.skip(1), bracket_after(p[0], b))
    }
}

/// A whole pattern with its word-boundary escapes as the database spells
/// them.
pub open spec fn translated(p: Seq<char>) -> Seq<char> {
    translated_from(p, Bracket::Outside)
}

/// Whether a text, read from a place in a bracket expression, leaves it open
/// to the end, and does not end amid an escape.
pub open spec fn stays_inside(p: Seq<char>, b: Bracket) -> bool
    decreases p.len(),
{
    if p.len() == 0 {
        !(b is Outside)
    } else if p[0] == '\\' {
        !(b is Outside) && p.len() > 1 && stays_inside(p.skip(2), bracket_after_escape(b))
    } else {
        !(b is Outside) && stays_inside(p.skip(1), bracket_after(p[0], b))
    }
}

/// Where a reader stands after a text that does not end amid an escape.
pub open spec fn bracket_end(p: Seq<char>, b: Bracket) -> Bracket
    decreases p.len(),
{
    if p.len() == 0 {
        b
    } else if p[0] == '\\' && p.len() > 1 {
        bracket_end(p.skip(2), bracket_after_escape(b))
    } else {
        bracket_end(p.skip(1), bracket_after(p[0], b))
    }
}

/// The interior of a bracket expression is skipped: whatever stands in it
/// before its closing bracket is kept, and the translation goes on behind it.
pub proof fn law_bracket_interior_stays(p: Seq<char>, rest: Seq<char>, b: Bracket)
    requires
        stays_inside(p, b),
    ensures
        translated_from(p + rest, b) == p + translated_from(rest, bracket_end(p, b)),
    decreases p.len(),
{
    let whole = p + rest;
    if p.len() == 0 {
        assert(whole =~= rest);
        assert(p + translated_from(rest, b) =~= translated_from(rest, b));
    } else if p[0] == '\\' {
        law_bracket_interior_stays(p.skip(2), rest, bracket_after_escape(b));
        assert(whole.skip(2) =~= p.skip(2) + rest);
        assert(translated_from(whole, b) =~= p + translated_from(rest, bracket_end(p, b)));
    } else {
        law_bracket_interior_stays(p.skip(1), rest, bracket_after(p[0], b));
        assert(whole.skip(1) =~= p.skip(1) + rest);
        assert(translated_from(whole, b) =~= p + translated_from(rest, bracket_end(p, b)));
    }
}

/// Translation keeps the length, and changes nothing a second time: what it
/// writes means the same to it again.
pub proof fn law_translation_is_stable(p: Seq<char>, b: Bracket)
    ensures
        translated_from(p, b).len() == p.len(),
        translated_from(translated_from(p, b), b) == translated_from(p, b),
    decreases p.len(),
{
    let t = translated_from(p, b);
    if p.len() == 0 || (p[0] == '\\' && p.len() == 1) {
    } else if p[0] == '\\' {
        law_translation_is_stable(p.skip(2), bracket_after_escape(b));
        assert(t.skip(2) =~= translated_from(p.skip(2), bracket_after_escape(b)));
    } else {
        law_translation_is_stable(p.skip(1), bracket_after(p[0], b));
        assert(t.skip(1) =~= translated_from(p.skip(1), bracket_after(p[0], b)));
    }
}

/// A pattern without an escape is its own translation.
pub proof fn law_plain_pattern_stays(p: Seq<char>, b: Bracket)
    requires
        !p.contains('\\'),
    ensures
        translated_from(p, b) == p,
    decreases p.len(),
{
    if p.len() > 0 {
        assert(p[0] != '\\');
        assert(!p.skip(1).contains('\\')) by {
            if p.skip(1).contains('\\') {
                let i = choose|i: int| 0 <= i < p.skip(1).len() && p.skip(1)[i] == '\\';
                assert(p[i + 1] == '\\');
            }
        }
        law_plain_pattern_stays(p.skip(1), bracket_after(p[0], b));
        assert(Seq::empty().push(p[0]) + p.skip(1) =~= p);
    }
}

/// Rewrites the word-boundary escapes of a pattern as the database spells
/// them. A pattern without any is handed back as it came.
pub fn translate_pcre_boundaries(pattern: &str) -> (r: Cow<'_, str>)
    ensures
        cow_text(r) == translated(pattern@),
        r is Borrowed <==> translated(pattern@) == pattern@,
{
    let chars: Vec<char> = chars_of(pattern);
    let ghost p = pattern@;
    let mut out = String::new();
    let mut state: Bracket = Bracket::Outside;
    let mut changed: bool = false;
    let mut i: usize = 0;
    assert(p.skip(0) =~= p);
    assert(out@ + translated(p) =~= translated(p));
    while i < chars.len()
        invariant
            i <= chars.len(),
            chars@ == p,
            out@.len() == i,
            out@ + translated_from(p.skip(i as int), state) == translated(p),
            !changed ==> out@ == p.take(i as int),
            changed ==> exists|j: int| 0 <= j < i && out@[j] != p[j],
        decreases chars.len() - i,
    {
        let ghost before = out@;
        let ghost rest = p.skip(i as int);
        let ghost was = state;
        let c: char = chars[i];
        if c == '\\' {
            if i + 1 < chars.len() {
                let n: char = chars[i + 1];
                let mut r: char = n;
                if state.is_outside() {
                    if n == 'b' {
                        r = 'y';
                    } else if n == 'B' {
                        r = 'Y';
                    } else if n == '<' {
                        r = 'm';
                    } else if n == '>' {
                        r = 'M';
                    }
                }
                if r != n {
                    changed = true;
                }
                state = state.after_escape();
                out.push('\\');
                out.push(r);
                assert(rest.skip(2) =~= p.skip(i + 2));
                assert(out@ =~= before + Seq::empty().push('\\').push(r));
                assert(out@ + translated_from(p.skip(i + 2), state) =~= before + translated_from(
                    rest,
                    was,
                ));
                assert(out@[i + 1] == r && p[i + 1] == n);
                assert(forall|j: int| 0 <= j < i ==> out@[j] == before[j]);
                assert(!changed ==> out@ =~= p.take(i + 2));
                i = i + 2;
            } else {
                out.push('\\');
                assert(rest.skip(1) =~= p.skip(i + 1));
                assert(rest =~= seq!['\\']);
                assert(p.skip(i + 1) =~= Seq::<char>::empty());
                assert(out@ + translated_from(p.skip(i + 1), state) =~= before + translated_from(
                    rest,
                    was,
                ));
                assert(forall|j: int| 0 <= j < i ==> out@[j] == before[j]);
                assert(!changed ==> out@ =~= p.take(i + 1));
                i = i + 1;
            }
        } else {
            state = state.after(c);
            out.push(c);
            assert(rest.skip(1) =~= p.skip(i + 1));
            assert(out@ + translated_from(p.skip(i + 1), state) =~= before + translated_from(
                rest,
                was,
            ));
            assert(forall|j: int| 0 <= j < i ==> out@[j] == before[j]);
            assert(!changed ==> out@ =~= p.take(i + 1));
            i = i + 1;
        }
    }
    assert(p.skip(i as int) =~= Seq::<char>::empty());
    assert(out@ =~= translated(p));
    assert(p.take(i as int) =~= p);
    if changed {
        Cow::Owned(out)
    } else {
        Cow::Borrowed(pattern)
    }
}

/// A file pattern as a pattern of the database: `*` becomes `%` and `?` becomes
/// `_`. Every other character stays, `%`, `_` and the backslash too, with the
/// meaning that they have there.
pub open spec fn like_of_glob(g: Seq<char>) -> Seq<char> {
    g.map_values(
        |c: char|
            if c == '*' {
                '%'
            } else if c == '?' {
                '_'
            } else {
                c
            },
    )
}

/// Rewrites a file pattern as a pattern of the database.
pub fn glob_to_like(glob: &str) -> (r: String)
    ensures
        r@ == like_of_glob(glob@),
{
    let chars: Vec<char> = chars_of(glob);
    let mut out = String::new();
    let mut i: usize = 0;
    while i < chars.len()
        invariant
            i <= chars.len(),
            chars@ == glob@,
            out@ == like_of_glob(glob@).take(i as int),
        decreases chars.len() - i,
    {
        let c: char = chars[i];
        if c == '*' {
            out.push('%');
        } else if c == '?' {
            out.push('_');
        } else {
            out.push(c);
        }
        assert(like_of_glob(glob@).take(i + 1) =~= like_of_glob(glob@).take(i as int).push(
            like_of_glob(glob@)[i as int],
        ));
        i = i + 1;
    }
    assert(like_of_glob(glob@).take(i as int) =~= like_of_glob(glob@));
    out
}

/// Whether a path matches a file pattern: `*` stands for any text, `?` for any
/// character.
pub open spec fn glob_matches(g: Seq<char>, t: Seq<char>) -> bool
    decreases g.len(), t.len(),
{
    if g.len() == 0 {
        t.len() == 0
    } else if g[0] == '*' {
        glob_matches(g.skip(1), t) || (t.len() > 0 && glob_matches(g, t.skip(1)))
    } else {
        t.len() > 0 && (g[0] == '?' || g[0] == t[0]) && glob_matches(g.skip(1), t.skip(1))
    }
}

/// A file pattern without `%`, `_` and backslashes finds the same paths once it
/// is rewritten for the database.
pub proof fn law_rewritten_glob_finds_the_same(g: Seq<char>, t: Seq<char>)
    requires
        forall|i: int| 0 <= i < g.len() ==> #[trigger] g[i] != '%' && g[i] != '_' && g[i] != '\\',
    ensures
        like_matches(like_of_glob(g), t) <==> glob_matches(g, t),
    decreases g.len(), t.len(),
{
    if g.len() > 0 {
        let p = like_of_glob(g);
        assert(p.skip(1) =~= like_of_glob(g.skip(1)));
        assert(g[0] != '%' && g[0] != '_' && g[0] != '\\');
        if g[0] == '*' {
            law_rewritten_glob_finds_the_same(g.skip(1), t);
            if t.len() > 0 {
                law_rewritten_glob_finds_the_same(g, t.skip(1));
            }
        } else if t.len() > 0 {
            law_rewritten_glob_finds_the_same(g.skip(1), t.skip(1));
        }
    }
}

/// The pattern of the database for an optional file pattern.
pub open spec fn opt_like(glob: Option<&str>) -> Option<Seq<char>> {
    match glob {
        Some(g) => Some(like_of_glob(g@)),
        None => None,
    }
}

/// The pattern that finds a text anywhere.
pub open spec fn anywhere(query: Seq<char>) -> Seq<char> {
    "%"@ + query + "%"@
}

/// Makes the pattern that finds a text anywhere.
pub fn anywhere_pattern(query: &str) -> (r: String)
    ensures
        r@ == anywhere(query@),
{
    let mut m = String::from_str("%");
    m.append(query);
    m.append("%");
    m
}

/// A `LIKE` pattern that matches one character and nothing else.
pub open spec fn like_char(c: char) -> Seq<char> {
    if c == '\\' || c == '%' || c == '_' {
        seq!['\\', c]
    } else {
        seq![c]
    }
}

/// A `LIKE` pattern that matches one text and nothing else.
pub open spec fn like_literal(s: Seq<char>) -> Seq<char>
    decreases s.len(),
{
    if s.len() == 0 {
        seq![]
    } else {
        like_literal(s.drop_last()) + like_char(s.last())
    }
}

/// Escapes the wildcards of a `LIKE` pattern.
pub fn like_escape(s: &str) -> (r: String)
    ensures
        r@ == like_literal(s@),
{
    let chars = chars_of(s);
    let mut out = String::new();
    let mut i: usize = 0;
    while i < chars.len()
        invariant
            i <= chars.len(),
            chars@ == s@,
            out@ == like_literal(s@.take(i as int)),
        decreases chars.len() - i,
    {
        let c: char = chars[i];
        assert(s@.take(i + 1).drop_last() =~= s@.take(i as int));
        let ghost before = out@;
        if c == '\\' || c == '%' || c == '_' {
            out.push('\\');
        }
        out.push(c);
        assert(out@ =~= before + like_char(c));
        i = i + 1;
    }
    assert(s@.take(i as int) =~= s@);
    out
}

/// Whether a text matches a `LIKE` pattern: `%` stands for any text, `_` for
/// any character, and a backslash takes the next character literally.
pub open spec fn like_matches(p: Seq<char>, t: Seq<char>) -> bool
    decreases p.len(), t.len(),
{
    if p.len() == 0 {
        t.len() == 0
    } else if p[0] == '%' {
        like_matches(p.skip(1), t) || (t.len() > 0 && like_matches(p, t.skip(1)))
    } else if t.len() == 0 {
        false
    } else if p[0] == '_' {
        like_matches(p.skip(1), t.skip(1))
    } else if p[0] == '\\' && p.len() > 1 {
        p[1] == t[0] && like_matches(p.skip(2), t.skip(1))
    } else {
        p[0] == t[0] && like_matches(p.skip(1), t.skip(1))
    }
}

proof fn lemma_like_front(s: Seq<char>)
    requires
        s.len() > 0,
    ensures
        like_literal(s) == like_char(s[0]) + like_literal(s.skip(1)),
    decreases s.len(),
{
    if s.len() == 1 {
        assert(s.drop_last() =~= seq![]);
        assert(s.skip(1) =~= seq![]);
        reveal_with_fuel(like_literal, 2);
        assert(like_literal(s) =~= like_char(s[0]));
        assert(like_char(s[0]) + like_literal(s.skip(1)) =~= like_char(s[0]));
    } else {
        lemma_like_front(s.drop_last());
        assert(s.drop_last().skip(1) =~= s.skip(1).drop_last());
        assert(like_literal(s) =~= like_char(s[0]) + like_literal(s.skip(1)));
    }
}

/// An escaped text matches itself and nothing else.
pub proof fn law_escaped_pattern_is_literal(s: Seq<char>, t: Seq<char>)
    ensures
        like_matches(like_literal(s), t) <==> s == t,
    decreases s.len(),
{
    if s.len() == 0 {
        assert(s =~= seq![]);
        if t.len() == 0 {
            assert(t =~= s);
        }
    } else {
        lemma_like_front(s);
        let p = like_literal(s);
        let rest = like_literal(s.skip(1));
        assert(p =~= like_char(s[0]) + rest);
        if t.len() > 0 {
            law_escaped_pattern_is_literal(s.skip(1), t.skip(1));
            if s[0] == t[0] && s.skip(1) == t.skip(1) {
                assert(s =~= seq![s[0]] + s.skip(1));
                assert(t =~= seq![t[0]] + t.skip(1));
            }
            if s[0] == '\\' || s[0] == '%' || s[0] == '_' {
                assert(p[0] == '\\' && p[1] == s[0]);
                assert(p.skip(2) =~= rest);
            } else {
                assert(p[0] == s[0]);
                assert(p.skip(1) =~= rest);
            }
        } else {
            assert(p[0] != '%');
        }
    }
}

/// The pattern that finds a text at the start.
pub open spec fn starting_with(prefix: Seq<char>) -> Seq<char> {
    like_literal(prefix) + "%"@
}

/// Makes the pattern that finds a text at the start.
pub fn prefix_pattern(prefix: &str) -> (r: String)
    ensures
        r@ == starting_with(prefix@),
{
    let mut m = like_escape(prefix);
    m.append("%");
    m
}

/// A prefix finds exactly the texts that start with it.
pub proof fn law_prefix_pattern_finds_prefixes(s: Seq<char>, t: Seq<char>)
    ensures
        like_matches(starting_with(s), t) <==> s.is_prefix_of(t),
    decreases s.len(),
{
    reveal_strlit("%");
    let p = starting_with(s);
    if s.len() == 0 {
        assert(p =~= seq!['%']);
        lemma_any_text(t);
    } else {
        lemma_like_front(s);
        let rest = starting_with(s.skip(1));
        assert(p =~= like_char(s[0]) + rest);
        if t.len() > 0 {
            law_prefix_pattern_finds_prefixes(s.skip(1), t.skip(1));
            if s[0] == '\\' || s[0] == '%' || s[0] == '_' {
                assert(p[0] == '\\' && p[1] == s[0]);
                assert(p.skip(2) =~= rest);
            } else {
                assert(p[0] == s[0]);
                assert(p.skip(1) =~= rest);
            }
            if s[0] == t[0] && s.skip(1).is_prefix_of(t.skip(1)) {
                assert(t.subrange(0, s.len() as int) =~= seq![t[0]] + t.skip(1).subrange(
                    0,
                    s.len() - 1,
                ));
                assert(s =~= seq![s[0]] + s.skip(1));
            }
            if s.is_prefix_of(t) {
                assert(s[0] == t[0]);
                assert(s.skip(1) =~= t.skip(1).subrange(0, s.len() - 1));
            }
        } else {
            assert(p[0] != '%');
        }
    }
}

proof fn lemma_any_text(t: Seq<char>)
    ensures
        like_matches(seq!['%'], t),
    decreases t.len(),
{
    let p = seq!['%'];
    assert(p.skip(1) =~= Seq::<char>::empty());
    if t.len() > 0 {
        lemma_any_text(t.skip(1));
    } else {
        assert(like_matches(p.skip(1), t));
    }
}

/// The pattern that finds a text anywhere, each of its characters taken
/// literally.
pub open spec fn holding(part: Seq<char>) -> Seq<char> {
    "%"@ + starting_with(part)
}

/// Makes the pattern that finds a text anywhere, each of its characters taken
/// literally.
pub fn substring_pattern(part: &str) -> (r: String)
    ensures
        r@ == holding(part@),
{
    let tail = prefix_pattern(part);
    let mut m = String::from_str("%");
    m.append(tail.as_str());
    m
}

/// Whether a text stands in another, at any place.
pub open spec fn stands_in(part: Seq<char>, t: Seq<char>) -> bool {
    exists|i: int| 0 <= i <= t.len() && part.is_prefix_of(#[trigger] t.skip(i))
}

/// A part finds exactly the texts that it stands in.
pub proof fn law_substring_pattern_finds_substrings(part: Seq<char>, t: Seq<char>)
    ensures
        like_matches(holding(part), t) <==> stands_in(part, t),
    decreases t.len(),
{
    reveal_strlit("%");
    let p = holding(part);
    assert(p[0] == '%');
    assert(p.skip(1) =~= starting_with(part));
    law_prefix_pattern_finds_prefixes(part, t);
    assert(t.skip(0) =~= t);
    if t.len() > 0 {
        let rest = t.skip(1);
        law_substring_pattern_finds_substrings(part, rest);
        if stands_in(part, rest) {
            let i = choose|i: int| 0 <= i <= rest.len() && part.is_prefix_of(#[trigger] rest.skip(i));
            assert(t.skip(i + 1) =~= rest.skip(i));
        }
        if stands_in(part, t) {
            let i = choose|i: int| 0 <= i <= t.len() && part.is_prefix_of(#[trigger] t.skip(i));
            if i > 0 {
                assert(rest.skip(i - 1) =~= t.skip(i));
            }
        }
    } else if stands_in(part, t) {
        let i = choose|i: int| 0 <= i <= t.len() && part.is_prefix_of(#[trigger] t.skip(i));
        assert(i == 0);
    }
}

} // verus!
