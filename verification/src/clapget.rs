//! The argument provider: a wrapper around a parsed command-line match set.
//!
//! A dotted key first digs through invoked subcommand scopes, one segment
//! per level; the final segment is then looked up as a flag, value or
//! subcommand name inside the innermost scope.  A segment that does not
//! name the invoked subcommand makes the whole lookup "not found".

use crate::text::{split_dots, split_dots_exec};
use crate::convert::{Holder, OutMap, Wrapper};
use crate::env::Enver;
use crate::grabber::{Grabber, LocalGrabber, MultiGrabber};
use crate::{local_from, opt_seq_view, opt_view, Filter, Getter};
use vstd::prelude::*;

verus! {

/// Lets `clap::ArgMatches` stand, opaquely, in signatures and fields.
#[verifier::external_type_specification]
#[verifier::external_body]
pub struct ExArgMatches<'a>(clap::ArgMatches<'a>);

/// What one match set holds: each recorded argument's values (empty for a
/// plain flag), and the invoked subcommand, if any, with its own model.
pub struct ArgModel {
    pub vals: Map<Seq<char>, Seq<Seq<char>>>,
    pub sub: Option<(Seq<char>, Box<ArgModel>)>,
}

impl ArgModel {
    /// The first recorded value of an argument.
    pub open spec fn value_of(self, name: Seq<char>) -> Option<Seq<char>> {
        if self.vals.contains_key(name) && self.vals[name].len() > 0 {
            Option::Some(self.vals[name][0])
        } else {
            Option::None
        }
    }

    /// All recorded values of an argument, in order.
    pub open spec fn values_of(self, name: Seq<char>) -> Option<Seq<Seq<char>>> {
        if self.vals.contains_key(name) {
            Option::Some(self.vals[name])
        } else {
            Option::None
        }
    }

    /// Whether the name was recorded as an argument or names the invoked
    /// subcommand.
    pub open spec fn is_present(self, name: Seq<char>) -> bool {
        self.vals.contains_key(name) || (self.sub matches Option::Some(p) && p.0 == name)
    }

    /// The invoked subcommand's own model, when the name is its.
    pub open spec fn sub_model(self, name: Seq<char>) -> Option<ArgModel> {
        match self.sub {
            Option::Some(p) => if p.0 == name {
                Option::Some(*p.1)
            } else {
                Option::None
            },
            Option::None => Option::None,
        }
    }
}

/// The model of a parsed match set; a function of the match set alone.
pub uninterp spec fn arg_model(m: clap::ArgMatches) -> ArgModel;

/// Relies on clap's `ArgMatches::value_of_lossy`: the first recorded value
/// of the named argument, if one was recorded.
#[verifier::external_body]
fn am_value(m: &clap::ArgMatches, name: &str) -> (r: Option<String>)
    ensures
        opt_view(r) == arg_model(*m).value_of(name@),
{
    m.value_of_lossy(name).map(|c| c.into_owned())
}

/// Relies on clap's `ArgMatches::values_of_lossy`: every recorded value of
/// the named argument, in order, when the argument was recorded at all.
#[verifier::external_body]
fn am_values(m: &clap::ArgMatches, name: &str) -> (r: Option<Vec<String>>)
    ensures
        opt_seq_view(r) == arg_model(*m).values_of(name@),
{
    m.values_of_lossy(name)
}

/// Relies on clap's `ArgMatches::is_present`: whether the name was recorded
/// as an argument or is the invoked subcommand's name.
#[verifier::external_body]
fn am_is_present(m: &clap::ArgMatches, name: &str) -> (r: bool)
    ensures
        r == arg_model(*m).is_present(name@),
{
    m.is_present(name)
}

/// Relies on clap's `ArgMatches::subcommand_matches`: the invoked
/// subcommand's own match set, when the name is the invoked subcommand's.
#[verifier::external_body]
fn am_sub_matches<'a, 'b>(m: &'a clap::ArgMatches<'b>, name: &str) -> (r: Option<
    &'a clap::ArgMatches<'b>,
>)
    ensures
        match r {
            Option::Some(sm) => arg_model(*m).sub_model(name@) == Option::Some(arg_model(*sm)),
            Option::None => arg_model(*m).sub_model(name@) is None,
        },
{
    m.subcommand_matches(name)
}

/// Digs through subcommand scopes for every segment but the last, then
/// hands back the innermost scope's model together with the last segment.
pub open spec fn arg_dig(am: ArgModel, segs: Seq<Seq<char>>) -> Option<(ArgModel, Seq<char>)>
    decreases segs.len(),
{
    if segs.len() == 0 {
        Option::None
    } else if segs.len() == 1 {
        Option::Some((am, segs[0]))
    } else {
        match am.sub_model(segs[0]) {
            Option::Some(next) => arg_dig(next, segs.skip(1)),
            Option::None => Option::None,
        }
    }
}

fn dig_matches<'a, 'b>(m: &'a clap::ArgMatches<'b>, segs: &Vec<String>, i: usize) -> (r: Option<
    &'a clap::ArgMatches<'b>,
>)
    requires
        i < segs@.len(),
    ensures
        match r {
            Option::Some(rm) => arg_dig(arg_model(*m), segs.deep_view().skip(i as int))
                == Option::Some((arg_model(*rm), segs.deep_view().last())),
            Option::None => arg_dig(arg_model(*m), segs.deep_view().skip(i as int)) is None,
        },
    decreases segs@.len() - i,
{
    proof {
        assert(segs.deep_view().skip(i as int)[0] == segs@[i as int]@);
    }
    if i == segs.len() - 1 {
        proof {
            assert(segs.deep_view().skip(i as int).len() == 1);
            assert(segs.deep_view().last() == segs@[i as int]@);
        }
        Option::Some(m)
    } else {
        proof {
            assert(segs.deep_view().skip(i as int).skip(1) =~= segs.deep_view().skip(i + 1));
        }
        match am_sub_matches(m, segs[i].as_str()) {
            Option::Some(sm) => dig_matches(sm, segs, i + 1),
            Option::None => Option::None,
        }
    }
}

/// A provider answering `Filter::Arg` lookups from a parsed match set.
#[derive(Clone, Copy)]
pub struct ArgWrap<'a> {
    pub m: &'a clap::ArgMatches<'a>,
}

impl<'a> ArgWrap<'a> {
    /// The wrapped match set's model.
    pub open spec fn model(self) -> ArgModel {
        arg_model(*self.m)
    }

    /// Wraps a parsed match set.
    pub fn new(m: &'a clap::ArgMatches<'a>) -> (r: Self)
        ensures
            r.model() == arg_model(*m),
    {
        ArgWrap { m }
    }

    /// Chains this provider before another: this one answers first, the
    /// other is the fallback.
    pub fn hold<BG: Getter>(self, b: BG) -> (r: Holder<Self, BG>)
        ensures
            r.a == self,
            r.b == b,
    {
        Holder::new(self, b)
    }

    /// Maps this provider's outputs through a pure mapping.
    pub fn wrap<FM: OutMap>(self, f: FM) -> (r: Wrapper<Self, FM>)
        ensures
            r.g == self,
            r.f == f,
    {
        Wrapper::new(self, f)
    }

    /// A fresh scalar-value query against this provider.
    pub fn grab<'q>(&'q self) -> (r: Grabber<'q, Self>)
        ensures
            r.src() == *self,
            r.res_spec() is None,
    {
        Grabber::new(self)
    }

    /// A fresh path query against this provider.
    pub fn grab_local<'q>(&'q self, env: &'q Enver) -> (r: LocalGrabber<'q, Self>)
        ensures
            r.src() == *self,
            r.env_spec() == *env,
            r.res_spec() is None,
    {
        LocalGrabber::new(self, env)
    }

    /// A fresh sequence query against this provider.
    pub fn grab_multi<'q>(&'q self) -> (r: MultiGrabber<'q, Self>)
        ensures
            r.src() == *self,
            r.res_spec() is None,
    {
        MultiGrabber::new(self)
    }
}

impl<'a> Getter for ArgWrap<'a> {
    /// The first value of the argument the dotted key reaches, for the
    /// argument tag only.
    open spec fn spec_value(&self, key: Seq<char>, f: Filter) -> Option<Seq<char>> {
        if f == Filter::Arg {
            match arg_dig(self.model(), split_dots(key)) {
                Option::Some(p) => p.0.value_of(p.1),
                Option::None => Option::None,
            }
        } else {
            Option::None
        }
    }

    /// Every value of the argument the dotted key reaches.
    open spec fn spec_values(&self, key: Seq<char>, f: Filter) -> Option<Seq<Seq<char>>> {
        if f == Filter::Arg {
            match arg_dig(self.model(), split_dots(key)) {
                Option::Some(p) => p.0.values_of(p.1),
                Option::None => Option::None,
            }
        } else {
            Option::None
        }
    }

    /// Presence of the flag the dotted key reaches, independent of any
    /// value.
    open spec fn spec_bool_flag(&self, key: Seq<char>, f: Filter) -> bool {
        f == Filter::Arg && match arg_dig(self.model(), split_dots(key)) {
            Option::Some(p) => p.0.is_present(p.1),
            Option::None => false,
        }
    }

    /// Whether the dotted key names the subcommand that was invoked.
    open spec fn spec_sub(&self, key: Seq<char>, f: Filter) -> bool {
        f == Filter::Arg && match arg_dig(self.model(), split_dots(key)) {
            Option::Some(p) => p.0.sub_model(p.1) is Some,
            Option::None => false,
        }
    }

    /// The default path semantics.
    open spec fn spec_local_value(&self, key: Seq<char>, f: Filter, env: crate::env::Enver)
        -> Option<Seq<char>> {
        local_from(self.spec_value(key, f), env)
    }

    fn value(&self, key: &str, f: Filter) -> (r: Option<String>) {
        match f {
            Filter::Arg => {
                let segs = split_dots_exec(key);
                proof {
                    assert(segs.deep_view().skip(0) =~= split_dots(key@));
                    assert(segs.deep_view().last() == segs@[segs@.len() - 1]@);
                }
                match dig_matches(self.m, &segs, 0) {
                    Option::Some(rm) => am_value(rm, segs[segs.len() - 1].as_str()),
                    Option::None => Option::None,
                }
            },
            _ => Option::None,
        }
    }

    fn values(&self, key: &str, f: Filter) -> (r: Option<Vec<String>>) {
        match f {
            Filter::Arg => {
                let segs = split_dots_exec(key);
                proof {
                    assert(segs.deep_view().skip(0) =~= split_dots(key@));
                    assert(segs.deep_view().last() == segs@[segs@.len() - 1]@);
                }
                match dig_matches(self.m, &segs, 0) {
                    Option::Some(rm) => am_values(rm, segs[segs.len() - 1].as_str()),
                    Option::None => Option::None,
                }
            },
            _ => Option::None,
        }
    }

    fn bool_flag(&self, key: &str, f: Filter) -> (r: bool) {
        match f {
            Filter::Arg => {
                let segs = split_dots_exec(key);
                proof {
                    assert(segs.deep_view().skip(0) =~= split_dots(key@));
                    assert(segs.deep_view().last() == segs@[segs@.len() - 1]@);
                }
                match dig_matches(self.m, &segs, 0) {
                    Option::Some(rm) => am_is_present(rm, segs[segs.len() - 1].as_str()),
                    Option::None => false,
                }
            },
            _ => false,
        }
    }

    fn sub(&self, key: &str, f: Filter) -> (r: bool) {
        match f {
            Filter::Arg => {
                let segs = split_dots_exec(key);
                proof {
                    assert(segs.deep_view().skip(0) =~= split_dots(key@));
                    assert(segs.deep_view().last() == segs@[segs@.len() - 1]@);
                }
                match dig_matches(self.m, &segs, 0) {
                    Option::Some(rm) => match am_sub_matches(rm, segs[segs.len() - 1].as_str()) {
                        Option::Some(_) => true,
                        Option::None => false,
                    },
                    Option::None => false,
                }
            },
            _ => false,
        }
    }

    fn local_value(&self, key: &str, f: Filter, env: &crate::env::Enver) -> (r: Option<String>) {
        crate::local_from_value(self.value(key, f), env)
    }
}

} // verus!
