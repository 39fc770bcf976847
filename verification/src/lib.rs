//! Unified configuration lookup across command-line arguments, environment
//! variables and a parsed configuration tree.
//!
//! Every source implements the [`Getter`] capability trait; sources are
//! composed with the combinators in [`convert`] and queried through the
//! builders in [`grabber`].

pub mod clapget;
pub mod convert;
pub mod env;
pub mod grabber;
pub mod laws;
pub mod tomlget;
pub mod replace;
pub mod text;

use vstd::prelude::*;

verus! {

/// Selects which class of source a lookup targets.  A provider answers only
/// for the tag it recognizes and reports "not found" for any other tag.
#[derive(Clone, Copy, Debug, PartialEq, Eq)]
pub enum Filter {
    Conf,
    Arg,
    Env,
    Other(char),
}

/// The view of an optional owned string as an optional character sequence.
pub open spec fn opt_view(r: Option<String>) -> Option<Seq<char>> {
    match r {
        Option::Some(s) => Option::Some(s@),
        Option::None => Option::None,
    }
}

/// The view of an optional list of owned strings as an optional sequence of
/// character sequences.
pub open spec fn opt_seq_view(r: Option<Vec<String>>) -> Option<Seq<Seq<char>>> {
    match r {
        Option::Some(v) => Option::Some(v.deep_view()),
        Option::None => Option::None,
    }
}

/// The default path semantics of a provider: the scalar value, run through
/// template substitution against the environment snapshot; a substitution
/// error is "not found".
pub open spec fn local_from(v: Option<Seq<char>>, env: env::Enver) -> Option<Seq<char>> {
    match v {
        Option::Some(t) => match replace::spec_replace(&env, t) {
            Result::Ok(p) => Option::Some(p),
            Result::Err(_) => Option::None,
        },
        Option::None => Option::None,
    }
}

/// The capability interface every configuration source implements: scalar
/// lookup, sequence lookup, presence, subcommand presence, and path lookup,
/// each answered only for the source's own tag.
pub trait Getter: Sized {
    /// What `value` returns for each key and tag.
    spec fn spec_value(&self, key: Seq<char>, f: Filter) -> Option<Seq<char>>;

    /// What `values` returns for each key and tag.
    spec fn spec_values(&self, key: Seq<char>, f: Filter) -> Option<Seq<Seq<char>>>;

    /// What `bool_flag` returns for each key and tag.
    spec fn spec_bool_flag(&self, key: Seq<char>, f: Filter) -> bool;

    /// What `sub` returns for each key and tag.
    spec fn spec_sub(&self, key: Seq<char>, f: Filter) -> bool;

    /// What `local_value` returns for each key, tag and environment snapshot.
    spec fn spec_local_value(&self, key: Seq<char>, f: Filter, env: env::Enver) -> Option<
        Seq<char>,
    >;

    /// The scalar value for a key, if this source holds one under the tag.
    fn value(&self, key: &str, f: Filter) -> (r: Option<String>)
        ensures
            opt_view(r) == self.spec_value(key@, f),
    ;

    /// The sequence of values for a key, if this source holds one under the
    /// tag.
    fn values(&self, key: &str, f: Filter) -> (r: Option<Vec<String>>)
        ensures
            opt_seq_view(r) == self.spec_values(key@, f),
    ;

    /// Whether the key is present as a boolean flag under the tag.
    fn bool_flag(&self, key: &str, f: Filter) -> (r: bool)
        ensures
            r == self.spec_bool_flag(key@, f),
    ;

    /// Whether the key names the subcommand that was actually invoked.
    fn sub(&self, key: &str, f: Filter) -> (r: bool)
        ensures
            r == self.spec_sub(key@, f),
    ;

    /// The value for a key interpreted as a filesystem path: substituted
    /// against the environment snapshot, and possibly localized.
    fn local_value(&self, key: &str, f: Filter, env: &env::Enver) -> (r: Option<String>)
        ensures
            opt_view(r) == self.spec_local_value(key@, f, *env),
    ;

}

/// Chains the environment snapshot before any other provider: environment
/// variables answer first, the given provider is the fallback.
pub fn clap_env<G: Getter>(e: env::Enver, a: G) -> (r: convert::Holder<env::Enver, G>)
    ensures
        r.a == e,
        r.b == a,
{
    convert::Holder::new(e, a)
}

/// The default body of `local_value`, applied to an already fetched scalar:
/// substitute environment references into it; any failure is "not found".
pub fn local_from_value(v: Option<String>, env: &env::Enver) -> (r: Option<String>)
    ensures
        opt_view(r) == local_from(opt_view(v), *env),
{
    match v {
        Option::Some(t) => match replace::replace(t.as_str(), env) {
            Result::Ok(p) => Option::Some(p),
            Result::Err(_) => Option::None,
        },
        Option::None => Option::None,
    }
}

} // verus!
