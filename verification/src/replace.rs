//! Error type and brace-template substitution.
//!
//! `replace` expands `{name}` placeholders inside a string by calling back
//! into a resolver; `\x` emits `x` literally.  An unmatched `}` at depth
//! zero, an unmatched `{` at the end of the input, or a trailing `\` is a
//! syntax error.  A failing resolution aborts the whole substitution with
//! the resolver's error.

use crate::text::push_char;
use vstd::prelude::*;
use vstd::string::StrSliceExecFns;
use vstd::string::StringExecFns;

verus! {

/// The error kinds of this library.
#[derive(Clone, Debug)]
pub enum ConfError {
    /// A malformed template string: an unmatched or unescaped brace.
    Syntax,
    /// A referenced environment variable was absent during substitution.
    VarNotFound,
    /// A file could not be read, or its text not parsed as a tree.
    LoadError(String),
    /// A generic static message.
    Mess(&'static str),
    /// A generic owned message.
    Message(String),
}

impl ConfError {
    /// The display text of each error kind.
    pub open spec fn text_spec(self) -> Seq<char> {
        match self {
            ConfError::Syntax => "Syntax Error Parsing String"@,
            ConfError::VarNotFound => "Environment variable not found"@,
            ConfError::LoadError(s) => "Could not load file "@ + s@,
            ConfError::Mess(s) => s@,
            ConfError::Message(s) => s@,
        }
    }

    /// The display text of this error, as an owned string.
    pub fn text(&self) -> (r: String)
        ensures
            r@ == self.text_spec(),
    {
        match self {
            ConfError::Syntax => "Syntax Error Parsing String".to_owned(),
            ConfError::VarNotFound => "Environment variable not found".to_owned(),
            ConfError::LoadError(s) => "Could not load file ".to_owned().concat(s.as_str()),
            ConfError::Mess(s) => (*s).to_owned(),
            ConfError::Message(s) => s.clone(),
        }
    }

    /// Wraps this error in a generic message carrying extra context text.
    pub fn with_info(self, s: &str) -> (r: Self)
        ensures
            r matches ConfError::Message(t) && t@ == self.text_spec() + " - "@ + s@,
    {
        let mut t = self.text();
        t.append(" - ");
        t.append(s);
        ConfError::Message(t)
    }
}

/// The view of a fallible owned string as a fallible character sequence.
pub open spec fn res_view(r: Result<String, ConfError>) -> Result<Seq<char>, ConfError> {
    match r {
        Result::Ok(s) => Result::Ok(s@),
        Result::Err(e) => Result::Err(e),
    }
}

/// A callback that turns a placeholder name into its replacement text.
pub trait Resolver {
    /// What this resolver answers for each placeholder name.
    spec fn res_spec(&self, name: Seq<char>) -> Result<Seq<char>, ConfError>;

    /// Resolves one placeholder name.
    fn resolve(&self, name: &str) -> (r: Result<String, ConfError>)
        ensures
            res_view(r) == self.res_spec(name@),
    ;
}

/// One left-to-right scan of the template from position `i`.  `stack` holds
/// the partial output of each enclosing scope, innermost last; `cur` is the
/// output of the current scope.  Closing a scope resolves its collected text
/// and splices the replacement into the enclosing scope's output.
pub open spec fn rep_step<R: Resolver>(
    r: &R,
    s: Seq<char>,
    i: int,
    stack: Seq<Seq<char>>,
    cur: Seq<char>,
) -> Result<Seq<char>, ConfError>
    decreases s.len() - i,
{
    if i < 0 || i >= s.len() {
        if stack.len() == 0 {
            Result::Ok(cur)
        } else {
            Result::Err(ConfError::Syntax)
        }
    } else if s[i] == '\\' {
        if i + 1 >= s.len() {
            Result::Err(ConfError::Syntax)
        } else {
            rep_step(r, s, i + 2, stack, cur.push(s[i + 1]))
        }
    } else if s[i] == '{' {
        rep_step(r, s, i + 1, stack.push(cur), Seq::empty())
    } else if s[i] == '}' {
        if stack.len() == 0 {
            Result::Err(ConfError::Syntax)
        } else {
            match r.res_spec(cur) {
                Result::Ok(v) => rep_step(r, s, i + 1, stack.drop_last(), stack.last() + v),
                Result::Err(e) => Result::Err(e),
            }
        }
    } else {
        rep_step(r, s, i + 1, stack, cur.push(s[i]))
    }
}

/// What substitution yields on a whole template.
pub open spec fn spec_replace<R: Resolver>(r: &R, s: Seq<char>) -> Result<Seq<char>, ConfError> {
    rep_step(r, s, 0, Seq::empty(), Seq::empty())
}

/// Expands every `{name}` placeholder in `s` through the resolver `f`.
pub fn replace<R: Resolver>(s: &str, f: &R) -> (res: Result<String, ConfError>)
    ensures
        res_view(res) == spec_replace(f, s@),
{
    let n = s.unicode_len();
    let mut stack: Vec<String> = Vec::new();
    let ghost mut gstack: Seq<Seq<char>> = Seq::empty();
    let mut cur: String = String::new();
    let mut i: usize = 0;
    while i < n
        invariant
            n == s@.len(),
            i <= n,
            gstack.len() == stack@.len(),
            forall|j: int| 0 <= j < gstack.len() ==> gstack[j] == #[trigger] stack@[j]@,
            rep_step(f, s@, i as int, gstack, cur@) == spec_replace(f, s@),
        decreases n - i,
    {
        let c = s.get_char(i);
        if c == '\\' {
            if i + 1 >= n {
                return Result::Err(ConfError::Syntax);
            }
            push_char(&mut cur, s.get_char(i + 1));
            i = i + 2;
        } else if c == '{' {
            stack.push(cur);
            cur = String::new();
            proof {
                gstack = gstack.push(stack@.last()@);
            }
            i = i + 1;
        } else if c == '}' {
            if stack.len() == 0 {
                return Result::Err(ConfError::Syntax);
            }
            match f.resolve(cur.as_str()) {
                Result::Ok(v) => {
                    let mut outer = stack.pop().unwrap();
                    proof {
                        assert(outer@ == gstack.last());
                        gstack = gstack.drop_last();
                    }
                    outer.append(v.as_str());
                    cur = outer;
                },
                Result::Err(e) => {
                    return Result::Err(e);
                },
            }
            i = i + 1;
        } else {
            push_char(&mut cur, c);
            i = i + 1;
        }
    }
    if stack.len() == 0 {
        Result::Ok(cur)
    } else {
        Result::Err(ConfError::Syntax)
    }
}

proof fn lemma_rep_step_infallible<R: Resolver>(
    r: &R,
    s: Seq<char>,
    i: int,
    stack: Seq<Seq<char>>,
    cur: Seq<char>,
)
    requires
        forall|n: Seq<char>| #[trigger] r.res_spec(n) is Ok,
    ensures
        rep_step(r, s, i, stack, cur) matches Result::Err(e) ==> e == ConfError::Syntax,
    decreases s.len() - i,
{
    if i < 0 || i >= s.len() {
    } else if s[i] == '\\' {
        if i + 1 < s.len() {
            lemma_rep_step_infallible(r, s, i + 2, stack, cur.push(s[i + 1]));
        }
    } else if s[i] == '{' {
        lemma_rep_step_infallible(r, s, i + 1, stack.push(cur), Seq::empty());
    } else if s[i] == '}' {
        if stack.len() > 0 {
            match r.res_spec(cur) {
                Result::Ok(v) => {
                    lemma_rep_step_infallible(r, s, i + 1, stack.drop_last(), stack.last() + v);
                },
                Result::Err(_) => {},
            }
        }
    } else {
        lemma_rep_step_infallible(r, s, i + 1, stack, cur.push(s[i]));
    }
}

/// Expands placeholders through a resolver that never fails; the only
/// error left is a malformed template.
pub fn replace_simple<R: Resolver>(s: &str, f: &R) -> (res: Result<String, ConfError>)
    requires
        forall|n: Seq<char>| #[trigger] f.res_spec(n) is Ok,
    ensures
        res_view(res) == spec_replace(f, s@),
        res matches Result::Err(e) ==> e == ConfError::Syntax,
{
    proof {
        lemma_rep_step_infallible(f, s@, 0, Seq::empty(), Seq::empty());
    }
    replace(s, f)
}

/// Expands environment-variable references in a string against a
/// snapshot of the environment.
pub fn replace_env(s: &str, env: &crate::env::Enver) -> (res: Result<String, ConfError>)
    ensures
        res_view(res) == spec_replace(env, s@),
{
    replace(s, env)
}

} // verus!
