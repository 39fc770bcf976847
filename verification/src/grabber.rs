//! The fluent query builders.
//!
//! A builder holds a reference to one provider and an accumulating
//! optional result.  Each attempt call is a no-op once a result is held;
//! otherwise it queries the provider and stores the outcome.  The order of
//! the attempt calls is the precedence policy.

use crate::env::Enver;
use crate::replace::{res_view, spec_replace, ConfError};
use crate::text::{parse_bool_spec, parse_i64, parse_i64_spec, parse_usize, parse_usize_spec,
    str_eq};
use crate::{opt_seq_view, opt_view, Filter, Getter};
use vstd::prelude::*;
use vstd::string::StrSliceExecFns;

verus! {

/// One attempt step: keep an already held result, else take the query's
/// outcome.
pub open spec fn grab_or<T>(cur: Option<T>, v: Option<T>) -> Option<T> {
    if cur is Some {
        cur
    } else {
        v
    }
}

/// A type with a verified parser from displayable text.
pub trait ParseText: Sized {
    /// What parsing yields on each text.
    spec fn parse_spec(s: Seq<char>) -> Option<Self>;

    /// Parses one text.
    fn parse_text(s: &str) -> (r: Option<Self>)
        ensures
            r == Self::parse_spec(s@),
    ;
}

impl ParseText for i64 {
    open spec fn parse_spec(s: Seq<char>) -> Option<i64> {
        parse_i64_spec(s)
    }

    fn parse_text(s: &str) -> (r: Option<i64>) {
        parse_i64(s)
    }
}

impl ParseText for usize {
    open spec fn parse_spec(s: Seq<char>) -> Option<usize> {
        parse_usize_spec(s)
    }

    fn parse_text(s: &str) -> (r: Option<usize>) {
        parse_usize(s)
    }
}

impl ParseText for bool {
    open spec fn parse_spec(s: Seq<char>) -> Option<bool> {
        parse_bool_spec(s)
    }

    fn parse_text(s: &str) -> (r: Option<bool>) {
        if str_eq(s, "true") {
            Option::Some(true)
        } else if str_eq(s, "false") {
            Option::Some(false)
        } else {
            Option::None
        }
    }
}

/// A source of one interactive answer per question.  Callers outside the
/// library read standard input; tests script the answers.  Nothing is
/// promised of what a read yields.
pub trait LineIn {
    /// Shows the question and reads one line.
    fn ask_line(&mut self, prompt: &str) -> Result<String, ConfError>;
}

/// A scripted input source: hands out its lines in order and fails once
/// they run out.
pub struct ScriptIn {
    lines: Vec<String>,
    at: usize,
}

impl ScriptIn {
    /// Scripts the given answers.
    pub fn new(lines: Vec<String>) -> Self {
        ScriptIn { lines, at: 0 }
    }
}

impl LineIn for ScriptIn {
    fn ask_line(&mut self, prompt: &str) -> Result<String, ConfError> {
        if self.at < self.lines.len() {
            let r = self.lines[self.at].clone();
            self.at = self.at + 1;
            Result::Ok(r)
        } else {
            Result::Err(ConfError::Mess("input exhausted"))
        }
    }
}

/// Decides a prompted answer: an empty or failed read falls back to the
/// default.
pub fn answer_or(line: Result<String, ConfError>, def: &str) -> (r: String)
    ensures
        r@ == match res_view(line) {
            Result::Ok(t) => if t.len() == 0 {
                def@
            } else {
                t
            },
            Result::Err(_) => def@,
        },
{
    match line {
        Result::Ok(t) => {
            if t.as_str().is_empty() {
                def.to_owned()
            } else {
                t
            }
        },
        Result::Err(_) => def.to_owned(),
    }
}

/// The scalar-value query builder.
pub struct Grabber<'a, H: Getter> {
    h: &'a H,
    res: Option<String>,
}

impl<'a, H: Getter> Grabber<'a, H> {
    /// The provider this builder queries.
    pub closed spec fn src(self) -> H {
        *self.h
    }

    /// The result held so far.
    pub closed spec fn res_spec(self) -> Option<Seq<char>> {
        opt_view(self.res)
    }

    /// A fresh builder holding no result yet.
    pub fn new(h: &'a H) -> (r: Self)
        ensures
            r.src() == *h,
            r.res_spec() is None,
    {
        Grabber { h, res: Option::None }
    }

    /// One attempt against the provider, under any tag.
    pub fn op(self, s: &str, f: Filter) -> (r: Self)
        ensures
            r.src() == self.src(),
            r.res_spec() == grab_or(self.res_spec(), self.src().spec_value(s@, f)),
    {
        match self.res {
            Option::Some(v) => Grabber { h: self.h, res: Option::Some(v) },
            Option::None => Grabber { h: self.h, res: self.h.value(s, f) },
        }
    }

    /// An attempt against the configuration tree.
    pub fn conf(self, s: &str) -> (r: Self)
        ensures
            r.src() == self.src(),
            r.res_spec() == grab_or(self.res_spec(), self.src().spec_value(s@, Filter::Conf)),
    {
        self.op(s, Filter::Conf)
    }

    /// An attempt against the environment.
    pub fn env(self, s: &str) -> (r: Self)
        ensures
            r.src() == self.src(),
            r.res_spec() == grab_or(self.res_spec(), self.src().spec_value(s@, Filter::Env)),
    {
        self.op(s, Filter::Env)
    }

    /// An attempt against the command-line arguments.
    pub fn arg(self, s: &str) -> (r: Self)
        ensures
            r.src() == self.src(),
            r.res_spec() == grab_or(self.res_spec(), self.src().spec_value(s@, Filter::Arg)),
    {
        self.op(s, Filter::Arg)
    }

    /// The raw optional result.
    pub fn done(self) -> (r: Option<String>)
        ensures
            opt_view(r) == self.res_spec(),
    {
        self.res
    }

    /// The result, or the given default.
    pub fn def(self, v: &str) -> (r: String)
        ensures
            r@ == match self.res_spec() {
                Option::Some(t) => t,
                Option::None => v@,
            },
    {
        match self.res {
            Option::Some(t) => t,
            Option::None => v.to_owned(),
        }
    }

    /// The result, or the "item not supplied" error.
    pub fn req(self) -> (r: Result<String, ConfError>)
        ensures
            self.res_spec() matches Option::Some(t) ==> r matches Result::Ok(v) && v@ == t,
            self.res_spec() is None ==> (r matches Result::Err(e) && e matches ConfError::Mess(
                m,
            ) && m@ == "Item not supplied"@),
    {
        match self.res {
            Option::Some(t) => Result::Ok(t),
            Option::None => Result::Err(ConfError::Mess("Item not supplied")),
        }
    }

    /// The result parsed to a target type; an unparsable or absent result
    /// is nothing.
    pub fn t_done<T: ParseText>(self) -> (r: Option<T>)
        ensures
            r == match self.res_spec() {
                Option::Some(t) => T::parse_spec(t),
                Option::None => Option::<T>::None,
            },
    {
        match self.res {
            Option::Some(t) => T::parse_text(t.as_str()),
            Option::None => Option::None,
        }
    }

    /// The result parsed to a target type; an unparsable or absent result
    /// is the default.
    pub fn t_def<T: ParseText>(self, def: T) -> (r: T)
        ensures
            r == match self.res_spec() {
                Option::Some(t) => match T::parse_spec(t) {
                    Option::Some(v) => v,
                    Option::None => def,
                },
                Option::None => def,
            },
    {
        match self.res {
            Option::Some(t) => match T::parse_text(t.as_str()) {
                Option::Some(v) => v,
                Option::None => def,
            },
            Option::None => def,
        }
    }

    /// The result with environment references substituted; an absent
    /// result is an error.
    pub fn rep_env(self, env: &Enver) -> (r: Result<String, ConfError>)
        ensures
            self.res_spec() matches Option::Some(t) ==> res_view(r) == spec_replace(env, t),
            self.res_spec() is None ==> (r matches Result::Err(e) && e matches ConfError::Mess(
                m,
            ) && m@ == "No Res"@),
    {
        match self.res {
            Option::Some(t) => crate::replace::replace(t.as_str(), env),
            Option::None => Result::Err(ConfError::Mess("No Res")),
        }
    }

    /// The result, or one interactive answer to the given question.
    pub fn ask<I: LineIn>(self, s: &str, input: &mut I) -> (r: Result<String, ConfError>)
        ensures
            self.res_spec() matches Option::Some(t) ==> r matches Result::Ok(v) && v@ == t,
    {
        match self.res {
            Option::Some(t) => Result::Ok(t),
            Option::None => input.ask_line(s),
        }
    }

    /// The result, or one interactive answer; an empty or failed answer
    /// falls back to the default.
    pub fn ask_def<I: LineIn>(self, s: &str, def: &str, input: &mut I) -> (r: String)
        ensures
            self.res_spec() matches Option::Some(t) ==> r@ == (if t.len() == 0 {
                def@
            } else {
                t
            }),
            self.res_spec() is None ==> (r@ == def@ || r@.len() > 0),
    {
        let a = self.ask(s, input);
        answer_or(a, def)
    }
}

/// The path query builder: attempts go through `local_value`.
pub struct LocalGrabber<'a, G: Getter> {
    g: &'a G,
    env: &'a Enver,
    res: Option<String>,
}

impl<'a, G: Getter> LocalGrabber<'a, G> {
    /// The provider this builder queries.
    pub closed spec fn src(self) -> G {
        *self.g
    }

    /// The environment snapshot substitution runs against.
    pub closed spec fn env_spec(self) -> Enver {
        *self.env
    }

    /// The path held so far.
    pub closed spec fn res_spec(self) -> Option<Seq<char>> {
        opt_view(self.res)
    }

    /// A fresh builder holding no path yet.
    pub fn new(g: &'a G, env: &'a Enver) -> (r: Self)
        ensures
            r.src() == *g,
            r.env_spec() == *env,
            r.res_spec() is None,
    {
        LocalGrabber { g, env, res: Option::None }
    }

    /// One attempt against the provider, under any tag.
    pub fn op(self, s: &str, f: Filter) -> (r: Self)
        ensures
            r.src() == self.src(),
            r.env_spec() == self.env_spec(),
            r.res_spec() == grab_or(
                self.res_spec(),
                self.src().spec_local_value(s@, f, self.env_spec()),
            ),
    {
        match self.res {
            Option::Some(v) => LocalGrabber { g: self.g, env: self.env, res: Option::Some(v) },
            Option::None => LocalGrabber {
                g: self.g,
                env: self.env,
                res: self.g.local_value(s, f, self.env),
            },
        }
    }

    /// An attempt against the configuration tree.
    pub fn conf(self, s: &str) -> (r: Self)
        ensures
            r.src() == self.src(),
            r.env_spec() == self.env_spec(),
            r.res_spec() == grab_or(
                self.res_spec(),
                self.src().spec_local_value(s@, Filter::Conf, self.env_spec()),
            ),
    {
        self.op(s, Filter::Conf)
    }

    /// An attempt against the environment.
    pub fn env(self, s: &str) -> (r: Self)
        ensures
            r.src() == self.src(),
            r.env_spec() == self.env_spec(),
            r.res_spec() == grab_or(
                self.res_spec(),
                self.src().spec_local_value(s@, Filter::Env, self.env_spec()),
            ),
    {
        self.op(s, Filter::Env)
    }

    /// An attempt against the command-line arguments.
    pub fn arg(self, s: &str) -> (r: Self)
        ensures
            r.src() == self.src(),
            r.env_spec() == self.env_spec(),
            r.res_spec() == grab_or(
                self.res_spec(),
                self.src().spec_local_value(s@, Filter::Arg, self.env_spec()),
            ),
    {
        self.op(s, Filter::Arg)
    }

    /// The raw optional path.
    pub fn done(self) -> (r: Option<String>)
        ensures
            opt_view(r) == self.res_spec(),
    {
        self.res
    }

    /// The path, or the "item not supplied" error.
    pub fn req(self) -> (r: Result<String, ConfError>)
        ensures
            self.res_spec() matches Option::Some(t) ==> r matches Result::Ok(v) && v@ == t,
            self.res_spec() is None ==> (r matches Result::Err(e) && e matches ConfError::Mess(
                m,
            ) && m@ == "Item not supplied"@),
    {
        match self.res {
            Option::Some(t) => Result::Ok(t),
            Option::None => Result::Err(ConfError::Mess("Item not supplied")),
        }
    }

    /// The path, or the given default.
    pub fn def(self, v: &str) -> (r: String)
        ensures
            r@ == match self.res_spec() {
                Option::Some(t) => t,
                Option::None => v@,
            },
    {
        match self.res {
            Option::Some(t) => t,
            Option::None => v.to_owned(),
        }
    }
}

/// The sequence query builder: attempts go through `values`.
pub struct MultiGrabber<'a, G: Getter> {
    g: &'a G,
    res: Option<Vec<String>>,
}

impl<'a, G: Getter> MultiGrabber<'a, G> {
    /// The provider this builder queries.
    pub closed spec fn src(self) -> G {
        *self.g
    }

    /// The sequence held so far.
    pub closed spec fn res_spec(self) -> Option<Seq<Seq<char>>> {
        opt_seq_view(self.res)
    }

    /// A fresh builder holding no sequence yet.
    pub fn new(g: &'a G) -> (r: Self)
        ensures
            r.src() == *g,
            r.res_spec() is None,
    {
        MultiGrabber { g, res: Option::None }
    }

    /// One attempt against the provider, under any tag.
    pub fn op(self, s: &str, f: Filter) -> (r: Self)
        ensures
            r.src() == self.src(),
            r.res_spec() == grab_or(self.res_spec(), self.src().spec_values(s@, f)),
    {
        match self.res {
            Option::Some(v) => MultiGrabber { g: self.g, res: Option::Some(v) },
            Option::None => MultiGrabber { g: self.g, res: self.g.values(s, f) },
        }
    }

    /// An attempt against the configuration tree.
    pub fn conf(self, s: &str) -> (r: Self)
        ensures
            r.src() == self.src(),
            r.res_spec() == grab_or(self.res_spec(), self.src().spec_values(s@, Filter::Conf)),
    {
        self.op(s, Filter::Conf)
    }

    /// An attempt against the environment.
    pub fn env(self, s: &str) -> (r: Self)
        ensures
            r.src() == self.src(),
            r.res_spec() == grab_or(self.res_spec(), self.src().spec_values(s@, Filter::Env)),
    {
        self.op(s, Filter::Env)
    }

    /// An attempt against the command-line arguments.
    pub fn arg(self, s: &str) -> (r: Self)
        ensures
            r.src() == self.src(),
            r.res_spec() == grab_or(self.res_spec(), self.src().spec_values(s@, Filter::Arg)),
    {
        self.op(s, Filter::Arg)
    }

    /// The raw optional sequence.
    pub fn done(self) -> (r: Option<Vec<String>>)
        ensures
            opt_seq_view(r) == self.res_spec(),
    {
        self.res
    }

    /// The sequence, or the "item not supplied" error.
    pub fn req(self) -> (r: Result<Vec<String>, ConfError>)
        ensures
            self.res_spec() matches Option::Some(t) ==> r matches Result::Ok(v) && v.deep_view()
                == t,
            self.res_spec() is None ==> (r matches Result::Err(e) && e matches ConfError::Mess(
                m,
            ) && m@ == "Item not supplied"@),
    {
        match self.res {
            Option::Some(t) => Result::Ok(t),
            Option::None => Result::Err(ConfError::Mess("Item not supplied")),
        }
    }
}

} // verus!
