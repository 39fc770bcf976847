//! The laws this library guarantees, stated and proved once for every
//! provider, key, tag and resolver.

use crate::convert::{is_absolute, localize, path_join, Holder, Localizer};
use crate::env::Enver;
use crate::grabber::grab_or;
use crate::replace::{rep_step, spec_replace, ConfError, Resolver};
use crate::{Filter, Getter};
use vstd::prelude::*;

verus! {

/// Precedence law: when the first provider of a chain holds a scalar for a
/// key and tag, the chain answers exactly that scalar, whatever the second
/// provider would have answered.
pub proof fn lemma_holder_precedence<A: Getter, B: Getter>(
    h: Holder<A, B>,
    key: Seq<char>,
    f: Filter,
    x: Seq<char>,
)
    requires
        h.a.spec_value(key, f) == Option::Some(x),
    ensures
        h.spec_value(key, f) == Option::Some(x),
{
}

/// Precedence is decided per operation: the same law holds of sequence
/// lookups, independently of what any earlier scalar lookup answered.
pub proof fn lemma_holder_precedence_values<A: Getter, B: Getter>(
    h: Holder<A, B>,
    key: Seq<char>,
    f: Filter,
    xs: Seq<Seq<char>>,
)
    requires
        h.a.spec_values(key, f) == Option::Some(xs),
    ensures
        h.spec_values(key, f) == Option::Some(xs),
{
}

/// Precedence is decided per operation: the same law holds of path
/// lookups, independently of what any other operation answered.
pub proof fn lemma_holder_precedence_local<A: Getter, B: Getter>(
    h: Holder<A, B>,
    key: Seq<char>,
    f: Filter,
    env: Enver,
    p: Seq<char>,
)
    requires
        h.a.spec_local_value(key, f, env) == Option::Some(p),
    ensures
        h.spec_local_value(key, f, env) == Option::Some(p),
{
}

/// A key absent from both sides of a chain is "not found" — an absence,
/// never an error.
pub proof fn lemma_holder_absent<A: Getter, B: Getter>(h: Holder<A, B>, key: Seq<char>, f: Filter)
    requires
        h.a.spec_value(key, f) is None,
        h.b.spec_value(key, f) is None,
    ensures
        h.spec_value(key, f) is None,
{
}

/// Localization law: an absolute path passes through a localizer
/// unchanged; a relative path is joined onto the localizer's base.
pub proof fn lemma_localizer_paths<G: Getter>(
    l: Localizer<G>,
    key: Seq<char>,
    f: Filter,
    env: Enver,
    p: Seq<char>,
)
    requires
        l.g.spec_local_value(key, f, env) == Option::Some(p),
    ensures
        is_absolute(p) ==> l.spec_local_value(key, f, env) == Option::Some(p),
        !is_absolute(p) ==> l.spec_local_value(key, f, env) == Option::Some(
            path_join(l.local@, p),
        ),
{
    assert(l.spec_local_value(key, f, env) == Option::Some(localize(l.local@, p)));
}

/// Query-builder short-circuit law: with attempts made in argument,
/// configuration, environment order, a key the argument source misses and
/// the configuration source holds is answered by the configuration source;
/// the environment attempt cannot override it, whatever it would return.
pub proof fn lemma_grab_short_circuit<H: Getter>(h: H, key: Seq<char>, x: Seq<char>)
    requires
        h.spec_value(key, Filter::Arg) is None,
        h.spec_value(key, Filter::Conf) == Option::Some(x),
    ensures
        grab_or(
            grab_or(
                grab_or(Option::None, h.spec_value(key, Filter::Arg)),
                h.spec_value(key, Filter::Conf),
            ),
            h.spec_value(key, Filter::Env),
        ) == Option::Some(x),
{
}

/// Whether a character has no special meaning in a template.
pub open spec fn plain_char(c: char) -> bool {
    c != '\\' && c != '{' && c != '}'
}

/// Whether no character of a sequence has special meaning in a template.
pub open spec fn plain(s: Seq<char>) -> bool {
    forall|k: int| 0 <= k < s.len() ==> plain_char(#[trigger] s[k])
}

proof fn lemma_rep_step_plain<R: Resolver>(
    r: &R,
    s: Seq<char>,
    i: int,
    j: int,
    stack: Seq<Seq<char>>,
    cur: Seq<char>,
)
    requires
        0 <= i <= j <= s.len(),
        forall|k: int| i <= k < j ==> plain_char(#[trigger] s[k]),
    ensures
        rep_step(r, s, i, stack, cur) == rep_step(r, s, j, stack, cur + s.subrange(i, j)),
    decreases j - i,
{
    if i < j {
        lemma_rep_step_plain(r, s, i + 1, j, stack, cur.push(s[i]));
        assert(cur.push(s[i]) + s.subrange(i + 1, j) =~= cur + s.subrange(i, j));
    } else {
        assert(cur + s.subrange(i, i) =~= cur);
    }
}

/// Substitution identity law: a template without escapes or braces is
/// returned unchanged, for every resolver.
pub proof fn lemma_replace_plain<R: Resolver>(r: &R, s: Seq<char>)
    requires
        plain(s),
    ensures
        spec_replace(r, s) == Result::<Seq<char>, ConfError>::Ok(s),
{
    lemma_rep_step_plain(r, s, 0, s.len() as int, Seq::empty(), Seq::empty());
    assert(Seq::<char>::empty() + s.subrange(0, s.len() as int) =~= s);
}

/// Unmatched-brace law: an unescaped `{` that is never closed makes the
/// whole template a syntax error, for every resolver.
pub proof fn lemma_replace_unclosed<R: Resolver>(r: &R, t: Seq<char>, u: Seq<char>)
    requires
        plain(t),
        plain(u),
    ensures
        spec_replace(r, t + seq!['{'] + u) == Result::<Seq<char>, ConfError>::Err(
            ConfError::Syntax,
        ),
{
    let s = t + seq!['{'] + u;
    assert(forall|k: int| 0 <= k < t.len() ==> plain_char(#[trigger] s[k]));
    lemma_rep_step_plain(r, s, 0, t.len() as int, Seq::empty(), Seq::empty());
    assert(s[t.len() as int] == '{');
    assert(forall|k: int| t.len() as int + 1 <= k < s.len() ==> plain_char(#[trigger] s[k]));
    lemma_rep_step_plain(
        r,
        s,
        t.len() as int + 1,
        s.len() as int,
        Seq::empty().push(Seq::<char>::empty() + s.subrange(0, t.len() as int)),
        Seq::empty(),
    );
}

/// Escape law: `\{` contributes a literal `{` to the output and opens no
/// scope, so no substitution is attempted for it, for every resolver.
pub proof fn lemma_replace_escaped_brace<R: Resolver>(r: &R, t: Seq<char>, u: Seq<char>)
    requires
        plain(t),
        plain(u),
    ensures
        spec_replace(r, t + seq!['\\', '{'] + u) == Result::<Seq<char>, ConfError>::Ok(
            t + seq!['{'] + u,
        ),
{
    let s = t + seq!['\\', '{'] + u;
    assert(forall|k: int| 0 <= k < t.len() ==> plain_char(#[trigger] s[k]));
    lemma_rep_step_plain(r, s, 0, t.len() as int, Seq::empty(), Seq::empty());
    assert(s[t.len() as int] == '\\');
    assert(s[t.len() as int + 1] == '{');
    assert(forall|k: int| t.len() as int + 2 <= k < s.len() ==> plain_char(#[trigger] s[k]));
    let cur = Seq::<char>::empty() + s.subrange(0, t.len() as int);
    lemma_rep_step_plain(r, s, t.len() as int + 2, s.len() as int, Seq::empty(), cur.push('{'));
    assert(cur.push('{') + s.subrange(t.len() as int + 2, s.len() as int) =~= t + seq!['{'] + u);
}

} // verus!
