//! Combinators over providers: ordered fallback, output mapping, and path
//! localization.

use crate::env::Enver;
use crate::grabber::{Grabber, LocalGrabber, MultiGrabber};
use crate::text::push_char;
use crate::{local_from, Filter, Getter};
use vstd::prelude::*;
use vstd::string::StrSliceExecFns;
use vstd::string::StringExecFns;

verus! {

/// Chains two providers.  Every operation tries the first provider and, on
/// absence, falls back to the second; precedence is decided per call.
#[derive(Debug)]
pub struct Holder<A, B> {
    pub a: A,
    pub b: B,
}

impl<A: Getter, B: Getter> Holder<A, B> {
    /// Chains `a` before `b`.
    pub fn new(a: A, b: B) -> (r: Self)
        ensures
            r.a == a,
            r.b == b,
    {
        Holder { a, b }
    }

    /// Chains this provider before another: this one answers first, the
    /// other is the fallback.
    pub fn hold<BG: Getter>(self, b: BG) -> (r: Holder<Self, BG>)
        ensures
            r.a == self,
            r.b == b,
    {
        Holder::new(self, b)
    }

    /// Maps this provider's outputs through a pure mapping.
    pub fn wrap<FM: OutMap>(self, f: FM) -> (r: Wrapper<Self, FM>)
        ensures
            r.g == self,
            r.f == f,
    {
        Wrapper::new(self, f)
    }

    /// A fresh scalar-value query against this provider.
    pub fn grab<'q>(&'q self) -> (r: Grabber<'q, Self>)
        ensures
            r.src() == *self,
            r.res_spec() is None,
    {
        Grabber::new(self)
    }

    /// A fresh path query against this provider.
    pub fn grab_local<'q>(&'q self, env: &'q Enver) -> (r: LocalGrabber<'q, Self>)
        ensures
            r.src() == *self,
            r.env_spec() == *env,
            r.res_spec() is None,
    {
        LocalGrabber::new(self, env)
    }

    /// A fresh sequence query against this provider.
    pub fn grab_multi<'q>(&'q self) -> (r: MultiGrabber<'q, Self>)
        ensures
            r.src() == *self,
            r.res_spec() is None,
    {
        MultiGrabber::new(self)
    }
}

impl<A: Getter, B: Getter> Getter for Holder<A, B> {
    /// The first provider's scalar when it has one, else the second's.
    open spec fn spec_value(&self, key: Seq<char>, f: Filter) -> Option<Seq<char>> {
        match self.a.spec_value(key, f) {
            Option::Some(v) => Option::Some(v),
            Option::None => self.b.spec_value(key, f),
        }
    }

    /// The first provider's sequence when it has one, else the second's.
    open spec fn spec_values(&self, key: Seq<char>, f: Filter) -> Option<Seq<Seq<char>>> {
        match self.a.spec_values(key, f) {
            Option::Some(v) => Option::Some(v),
            Option::None => self.b.spec_values(key, f),
        }
    }

    /// Present when either side has the flag.
    open spec fn spec_bool_flag(&self, key: Seq<char>, f: Filter) -> bool {
        self.a.spec_bool_flag(key, f) || self.b.spec_bool_flag(key, f)
    }

    /// True when either side invoked the subcommand.
    open spec fn spec_sub(&self, key: Seq<char>, f: Filter) -> bool {
        self.a.spec_sub(key, f) || self.b.spec_sub(key, f)
    }

    /// The first provider's path when it has one, else the second's.
    open spec fn spec_local_value(&self, key: Seq<char>, f: Filter, env: Enver) -> Option<
        Seq<char>,
    > {
        match self.a.spec_local_value(key, f, env) {
            Option::Some(v) => Option::Some(v),
            Option::None => self.b.spec_local_value(key, f, env),
        }
    }

    fn value(&self, key: &str, f: Filter) -> (r: Option<String>) {
        match self.a.value(key, f) {
            Option::Some(v) => Option::Some(v),
            Option::None => self.b.value(key, f),
        }
    }

    fn values(&self, key: &str, f: Filter) -> (r: Option<Vec<String>>) {
        match self.a.values(key, f) {
            Option::Some(v) => Option::Some(v),
            Option::None => self.b.values(key, f),
        }
    }

    fn bool_flag(&self, key: &str, f: Filter) -> (r: bool) {
        self.a.bool_flag(key, f) || self.b.bool_flag(key, f)
    }

    fn sub(&self, key: &str, f: Filter) -> (r: bool) {
        self.a.sub(key, f) || self.b.sub(key, f)
    }

    fn local_value(&self, key: &str, f: Filter, env: &Enver) -> (r: Option<String>) {
        match self.a.local_value(key, f, env) {
            Option::Some(v) => Option::Some(v),
            Option::None => self.b.local_value(key, f, env),
        }
    }
}

/// A pure, repeatable mapping from output text to output text.
pub trait OutMap {
    /// What the mapping yields on each input.
    spec fn map_spec(&self, v: Seq<char>) -> Seq<char>;

    /// Applies the mapping to one value.
    fn map(&self, v: String) -> (r: String)
        ensures
            r@ == self.map_spec(v@),
    ;
}

/// A provider whose scalar and sequence outputs are an inner provider's,
/// passed through a mapping; presence and paths are untouched.
#[derive(Debug)]
pub struct Wrapper<G, F> {
    pub g: G,
    pub f: F,
}

impl<G: Getter, F: OutMap> Wrapper<G, F> {
    /// Wraps `g`, mapping each output through `f`.
    pub fn new(g: G, f: F) -> (r: Self)
        ensures
            r.g == g,
            r.f == f,
    {
        Wrapper { g, f }
    }

    /// Chains this provider before another: this one answers first, the
    /// other is the fallback.
    pub fn hold<BG: Getter>(self, b: BG) -> (r: Holder<Self, BG>)
        ensures
            r.a == self,
            r.b == b,
    {
        Holder::new(self, b)
    }

    /// Maps this provider's outputs through a pure mapping.
    pub fn wrap<FM: OutMap>(self, f: FM) -> (r: Wrapper<Self, FM>)
        ensures
            r.g == self,
            r.f == f,
    {
        Wrapper::new(self, f)
    }

    /// A fresh scalar-value query against this provider.
    pub fn grab<'q>(&'q self) -> (r: Grabber<'q, Self>)
        ensures
            r.src() == *self,
            r.res_spec() is None,
    {
        Grabber::new(self)
    }

    /// A fresh path query against this provider.
    pub fn grab_local<'q>(&'q self, env: &'q Enver) -> (r: LocalGrabber<'q, Self>)
        ensures
            r.src() == *self,
            r.env_spec() == *env,
            r.res_spec() is None,
    {
        LocalGrabber::new(self, env)
    }

    /// A fresh sequence query against this provider.
    pub fn grab_multi<'q>(&'q self) -> (r: MultiGrabber<'q, Self>)
        ensures
            r.src() == *self,
            r.res_spec() is None,
    {
        MultiGrabber::new(self)
    }
}

impl<G: Getter, F: OutMap> Getter for Wrapper<G, F> {
    /// The inner scalar, mapped.
    open spec fn spec_value(&self, key: Seq<char>, f: Filter) -> Option<Seq<char>> {
        match self.g.spec_value(key, f) {
            Option::Some(v) => Option::Some(self.f.map_spec(v)),
            Option::None => Option::None,
        }
    }

    /// The inner sequence, mapped element by element.
    open spec fn spec_values(&self, key: Seq<char>, f: Filter) -> Option<Seq<Seq<char>>> {
        match self.g.spec_values(key, f) {
            Option::Some(vs) => Option::Some(Seq::new(vs.len(), |i: int| self.f.map_spec(vs[i]))),
            Option::None => Option::None,
        }
    }

    /// Presence passes through.
    open spec fn spec_bool_flag(&self, key: Seq<char>, f: Filter) -> bool {
        self.g.spec_bool_flag(key, f)
    }

    /// Subcommands pass through.
    open spec fn spec_sub(&self, key: Seq<char>, f: Filter) -> bool {
        self.g.spec_sub(key, f)
    }

    /// Paths pass through unmapped.
    open spec fn spec_local_value(&self, key: Seq<char>, f: Filter, env: Enver) -> Option<
        Seq<char>,
    > {
        self.g.spec_local_value(key, f, env)
    }

    fn value(&self, key: &str, f: Filter) -> (r: Option<String>) {
        match self.g.value(key, f) {
            Option::Some(v) => Option::Some(self.f.map(v)),
            Option::None => Option::None,
        }
    }

    fn values(&self, key: &str, f: Filter) -> (r: Option<Vec<String>>) {
        match self.g.values(key, f) {
            Option::Some(vs) => {
                let ghost inner = vs.deep_view();
                let n = vs.len();
                let mut out: Vec<String> = Vec::new();
                let mut i: usize = 0;
                while i < n
                    invariant
                        n == vs@.len(),
                        inner == vs.deep_view(),
                        i <= n,
                        out@.len() == i,
                        forall|j: int| 0 <= j < i ==> #[trigger] out@[j]@ == self.f.map_spec(
                            inner[j],
                        ),
                    decreases n - i,
                {
                    proof {
                        assert(inner[i as int] == vs@[i as int]@);
                    }
                    out.push(self.f.map(vs[i].clone()));
                    i = i + 1;
                }
                proof {
                    assert(out.deep_view() =~= Seq::new(inner.len(), |j: int| self.f.map_spec(
                        inner[j],
                    )));
                }
                Option::Some(out)
            },
            Option::None => Option::None,
        }
    }

    fn bool_flag(&self, key: &str, f: Filter) -> (r: bool) {
        self.g.bool_flag(key, f)
    }

    fn sub(&self, key: &str, f: Filter) -> (r: bool) {
        self.g.sub(key, f)
    }

    fn local_value(&self, key: &str, f: Filter, env: &Enver) -> (r: Option<String>) {
        self.g.local_value(key, f, env)
    }
}

/// Whether a path is absolute: it starts at the root separator.
pub open spec fn is_absolute(p: Seq<char>) -> bool {
    p.len() > 0 && p[0] == '/'
}

/// Joining a relative path onto a base directory, inserting one separator
/// where the base does not already end in one.
pub open spec fn path_join(base: Seq<char>, p: Seq<char>) -> Seq<char> {
    if base.len() == 0 {
        p
    } else if base.last() == '/' {
        base + p
    } else {
        base + seq!['/'] + p
    }
}

/// A localized path: absolute paths pass through, relative paths are
/// joined onto the base.
pub open spec fn localize(base: Seq<char>, p: Seq<char>) -> Seq<char> {
    if is_absolute(p) {
        p
    } else {
        path_join(base, p)
    }
}

/// Joins a relative path onto a base directory.
pub fn join_path(base: &str, p: &str) -> (r: String)
    ensures
        r@ == path_join(base@, p@),
{
    let n = base.unicode_len();
    if n == 0 {
        return p.to_owned();
    }
    let mut r = base.to_owned();
    if base.get_char(n - 1) != '/' {
        push_char(&mut r, '/');
        proof {
            assert(r@ =~= base@ + seq!['/']);
        }
    }
    r.append(p);
    r
}

/// Localizes one path against a base directory.
pub fn localize_path(base: &str, p: &str) -> (r: String)
    ensures
        r@ == localize(base@, p@),
{
    let pn = p.unicode_len();
    if pn > 0 && p.get_char(0) == '/' {
        p.to_owned()
    } else {
        join_path(base, p)
    }
}

/// The directory part of a path: everything before the last separator.  A
/// bare name has the empty parent; a file directly under the root keeps
/// the root separator.
pub open spec fn parent_dir(p: Seq<char>) -> Seq<char>
    decreases p.len(),
{
    if p.len() == 0 {
        Seq::empty()
    } else if p.last() == '/' {
        if p.len() == 1 {
            p
        } else {
            p.drop_last()
        }
    } else {
        parent_dir(p.drop_last())
    }
}

proof fn lemma_parent_dir_strip(p: Seq<char>, j: int)
    requires
        0 <= j <= p.len(),
        forall|k: int| j <= k < p.len() ==> p[k] != '/',
    ensures
        parent_dir(p) == parent_dir(p.take(j)),
    decreases p.len() - j,
{
    if j == p.len() {
        assert(p.take(j) =~= p);
    } else {
        lemma_parent_dir_strip(p, j + 1);
        assert(p.take(j + 1).last() == p[j]);
        assert(p.take(j + 1).drop_last() =~= p.take(j));
    }
}

/// The directory part of a path, as the localizer base for a tree loaded
/// from that path.
pub fn parent_dir_of(p: &str) -> (r: String)
    ensures
        r@ == parent_dir(p@),
{
    let n = p.unicode_len();
    let mut sep: usize = n;
    let mut i: usize = 0;
    while i < n
        invariant
            n == p@.len(),
            i <= n,
            sep == n || (sep < i && p@[sep as int] == '/'),
            forall|k: int| 0 <= k < i && #[trigger] p@[k] == '/' ==> sep != n && k <= sep,
        decreases n - i,
    {
        if p.get_char(i) == '/' {
            sep = i;
        }
        i = i + 1;
    }
    if sep == n {
        proof {
            lemma_parent_dir_strip(p@, 0);
            assert(p@.take(0) =~= Seq::<char>::empty());
        }
        String::new()
    } else {
        proof {
            lemma_parent_dir_strip(p@, sep + 1);
            assert(p@.take(sep + 1).last() == p@[sep as int]);
            assert(p@.take(sep + 1).drop_last() =~= p@.take(sep as int));
        }
        let stop: usize = if sep == 0 {
            1
        } else {
            sep
        };
        let mut r = String::new();
        let mut i: usize = 0;
        while i < stop
            invariant
                n == p@.len(),
                stop <= n,
                i <= stop,
                r@ == p@.take(i as int),
            decreases stop - i,
        {
            push_char(&mut r, p.get_char(i));
            proof {
                assert(r@ =~= p@.take(i + 1));
            }
            i = i + 1;
        }
        r
    }
}

/// A provider whose relative path results are resolved against a base
/// directory: the directory its tree was loaded from.
#[derive(Debug)]
pub struct Localizer<G> {
    pub local: String,
    pub g: G,
}

impl<G: Getter> Localizer<G> {
    /// Wraps `g`, rooting its relative paths at `p`.
    pub fn new(g: G, p: &str) -> (r: Self)
        ensures
            r.g == g,
            r.local@ == p@,
    {
        Localizer { g, local: p.to_owned() }
    }

    /// Chains this provider before another: this one answers first, the
    /// other is the fallback.
    pub fn hold<BG: Getter>(self, b: BG) -> (r: Holder<Self, BG>)
        ensures
            r.a == self,
            r.b == b,
    {
        Holder::new(self, b)
    }

    /// Maps this provider's outputs through a pure mapping.
    pub fn wrap<FM: OutMap>(self, f: FM) -> (r: Wrapper<Self, FM>)
        ensures
            r.g == self,
            r.f == f,
    {
        Wrapper::new(self, f)
    }

    /// A fresh scalar-value query against this provider.
    pub fn grab<'q>(&'q self) -> (r: Grabber<'q, Self>)
        ensures
            r.src() == *self,
            r.res_spec() is None,
    {
        Grabber::new(self)
    }

    /// A fresh path query against this provider.
    pub fn grab_local<'q>(&'q self, env: &'q Enver) -> (r: LocalGrabber<'q, Self>)
        ensures
            r.src() == *self,
            r.env_spec() == *env,
            r.res_spec() is None,
    {
        LocalGrabber::new(self, env)
    }

    /// A fresh sequence query against this provider.
    pub fn grab_multi<'q>(&'q self) -> (r: MultiGrabber<'q, Self>)
        ensures
            r.src() == *self,
            r.res_spec() is None,
    {
        MultiGrabber::new(self)
    }
}

impl<G: Getter> Getter for Localizer<G> {
    /// Scalars pass through.
    open spec fn spec_value(&self, key: Seq<char>, f: Filter) -> Option<Seq<char>> {
        self.g.spec_value(key, f)
    }

    /// Sequences pass through.
    open spec fn spec_values(&self, key: Seq<char>, f: Filter) -> Option<Seq<Seq<char>>> {
        self.g.spec_values(key, f)
    }

    /// Presence passes through.
    open spec fn spec_bool_flag(&self, key: Seq<char>, f: Filter) -> bool {
        self.g.spec_bool_flag(key, f)
    }

    /// Subcommands pass through.
    open spec fn spec_sub(&self, key: Seq<char>, f: Filter) -> bool {
        self.g.spec_sub(key, f)
    }

    /// The inner path, localized against the base when relative.
    open spec fn spec_local_value(&self, key: Seq<char>, f: Filter, env: Enver) -> Option<
        Seq<char>,
    > {
        match self.g.spec_local_value(key, f, env) {
            Option::Some(p) => Option::Some(localize(self.local@, p)),
            Option::None => Option::None,
        }
    }

    fn value(&self, key: &str, f: Filter) -> (r: Option<String>) {
        self.g.value(key, f)
    }

    fn values(&self, key: &str, f: Filter) -> (r: Option<Vec<String>>) {
        self.g.values(key, f)
    }

    fn bool_flag(&self, key: &str, f: Filter) -> (r: bool) {
        self.g.bool_flag(key, f)
    }

    fn sub(&self, key: &str, f: Filter) -> (r: bool) {
        self.g.sub(key, f)
    }

    fn local_value(&self, key: &str, f: Filter, env: &Enver) -> (r: Option<String>) {
        match self.g.local_value(key, f, env) {
            Option::Some(p) => Option::Some(localize_path(self.local.as_str(), p.as_str())),
            Option::None => Option::None,
        }
    }
}

} // verus!
