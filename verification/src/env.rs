//! The environment provider: a snapshot of variable names and values.
//!
//! The process environment is read once, outside this library, and handed
//! in as plain pairs; lookups against the snapshot are pure.

use crate::replace::{ConfError, Resolver};
use crate::text::str_eq;
use crate::convert::{Holder, OutMap, Wrapper};
use crate::grabber::{Grabber, LocalGrabber, MultiGrabber};
use crate::{Filter, Getter};
use vstd::prelude::*;

verus! {

/// First-match lookup in an association list of name/value pairs.
pub open spec fn assoc_get(pairs: Seq<(Seq<char>, Seq<char>)>, name: Seq<char>) -> Option<
    Seq<char>,
>
    decreases pairs.len(),
{
    if pairs.len() == 0 {
        Option::None
    } else if pairs[0].0 == name {
        Option::Some(pairs[0].1)
    } else {
        assoc_get(pairs.skip(1), name)
    }
}

/// The view of a vector of owned string pairs.
pub open spec fn pairs_view(v: Vec<(String, String)>) -> Seq<(Seq<char>, Seq<char>)> {
    Seq::new(v@.len(), |i: int| (v@[i].0@, v@[i].1@))
}

/// A provider answering `Filter::Env` lookups from a fixed snapshot of
/// environment variables.
pub struct Enver {
    vars: Vec<(String, String)>,
}

impl Enver {
    /// The snapshot, as a sequence of name/value pairs.
    pub closed spec fn pairs(self) -> Seq<(Seq<char>, Seq<char>)> {
        pairs_view(self.vars)
    }

    /// What this snapshot holds for a variable name: the value of the first
    /// pair bearing it.
    pub open spec fn env_get(self, name: Seq<char>) -> Option<Seq<char>> {
        assoc_get(self.pairs(), name)
    }

    /// Builds the provider from name/value pairs.
    pub fn new(vars: Vec<(String, String)>) -> (r: Self)
        ensures
            r.pairs() == pairs_view(vars),
    {
        Enver { vars }
    }

    /// Chains this provider before another: this one answers first, the
    /// other is the fallback.
    pub fn hold<BG: Getter>(self, b: BG) -> (r: Holder<Self, BG>)
        ensures
            r.a == self,
            r.b == b,
    {
        Holder::new(self, b)
    }

    /// Maps this provider's outputs through a pure mapping.
    pub fn wrap<FM: OutMap>(self, f: FM) -> (r: Wrapper<Self, FM>)
        ensures
            r.g == self,
            r.f == f,
    {
        Wrapper::new(self, f)
    }

    /// A fresh scalar-value query against this provider.
    pub fn grab<'q>(&'q self) -> (r: Grabber<'q, Self>)
        ensures
            r.src() == *self,
            r.res_spec() is None,
    {
        Grabber::new(self)
    }

    /// A fresh path query against this provider.
    pub fn grab_local<'q>(&'q self, env: &'q Enver) -> (r: LocalGrabber<'q, Self>)
        ensures
            r.src() == *self,
            r.env_spec() == *env,
            r.res_spec() is None,
    {
        LocalGrabber::new(self, env)
    }

    /// A fresh sequence query against this provider.
    pub fn grab_multi<'q>(&'q self) -> (r: MultiGrabber<'q, Self>)
        ensures
            r.src() == *self,
            r.res_spec() is None,
    {
        MultiGrabber::new(self)
    }

    /// Looks a variable name up in the snapshot.
    pub fn get(&self, name: &str) -> (r: Option<String>)
        ensures
            crate::opt_view(r) == self.env_get(name@),
    {
        let n = self.vars.len();
        let mut i: usize = 0;
        proof {
            assert(self.pairs().skip(0) =~= self.pairs());
        }
        while i < n
            invariant
                n == self.vars@.len(),
                i <= n,
                assoc_get(self.pairs().skip(i as int), name@) == self.env_get(name@),
            decreases n - i,
        {
            proof {
                assert(self.pairs().skip(i as int)[0] == self.pairs()[i as int]);
                assert(self.pairs().skip(i as int).skip(1) =~= self.pairs().skip(i + 1));
            }
            if str_eq(self.vars[i].0.as_str(), name) {
                return Option::Some(self.vars[i].1.clone());
            }
            i = i + 1;
        }
        proof {
            assert(self.pairs().skip(n as int) =~= Seq::<(Seq<char>, Seq<char>)>::empty());
        }
        Option::None
    }
}

impl Getter for Enver {
    /// A scalar is the variable's value, for the environment tag only.
    open spec fn spec_value(&self, key: Seq<char>, f: Filter) -> Option<Seq<char>> {
        if f == Filter::Env {
            self.env_get(key)
        } else {
            Option::None
        }
    }

    /// Under the environment tag the sequence always exists and holds at
    /// most one element: the variable's value.
    open spec fn spec_values(&self, key: Seq<char>, f: Filter) -> Option<Seq<Seq<char>>> {
        if f == Filter::Env {
            match self.env_get(key) {
                Option::Some(v) => Option::Some(seq![v]),
                Option::None => Option::Some(Seq::empty()),
            }
        } else {
            Option::None
        }
    }

    /// Presence of the variable.
    open spec fn spec_bool_flag(&self, key: Seq<char>, f: Filter) -> bool {
        self.spec_value(key, f) is Some
    }

    /// The environment has no subcommands.
    open spec fn spec_sub(&self, key: Seq<char>, f: Filter) -> bool {
        false
    }

    /// The default path semantics.
    open spec fn spec_local_value(&self, key: Seq<char>, f: Filter, env: Enver) -> Option<
        Seq<char>,
    > {
        crate::local_from(self.spec_value(key, f), env)
    }

    fn value(&self, key: &str, f: Filter) -> (r: Option<String>) {
        match f {
            Filter::Env => self.get(key),
            _ => Option::None,
        }
    }

    fn values(&self, key: &str, f: Filter) -> (r: Option<Vec<String>>) {
        match f {
            Filter::Env => {
                let mut v: Vec<String> = Vec::new();
                match self.get(key) {
                    Option::Some(s) => {
                        v.push(s);
                        proof {
                            assert(v.deep_view() =~= seq![self.env_get(key@)->Some_0]);
                        }
                    },
                    Option::None => {
                        proof {
                            assert(v.deep_view() =~= Seq::<Seq<char>>::empty());
                        }
                    },
                }
                Option::Some(v)
            },
            _ => Option::None,
        }
    }

    fn bool_flag(&self, key: &str, f: Filter) -> (r: bool) {
        match self.value(key, f) {
            Option::Some(_) => true,
            Option::None => false,
        }
    }

    fn sub(&self, key: &str, f: Filter) -> (r: bool) {
        false
    }

    fn local_value(&self, key: &str, f: Filter, env: &Enver) -> (r: Option<String>) {
        crate::local_from_value(self.value(key, f), env)
    }
}

impl Resolver for Enver {
    /// A placeholder name resolves to the variable's value; an absent
    /// variable is a `VarNotFound` error.
    open spec fn res_spec(&self, name: Seq<char>) -> Result<Seq<char>, ConfError> {
        match self.env_get(name) {
            Option::Some(v) => Result::Ok(v),
            Option::None => Result::Err(ConfError::VarNotFound),
        }
    }

    fn resolve(&self, name: &str) -> (r: Result<String, ConfError>) {
        match self.get(name) {
            Option::Some(v) => Result::Ok(v),
            Option::None => Result::Err(ConfError::VarNotFound),
        }
    }
}

} // verus!
