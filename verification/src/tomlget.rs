//! The configuration-tree provider.
//!
//! A parsed document is held as a [`TreeValue`]: nested tables and arrays
//! over plain scalar leaves.  Dotted keys are resolved by the digger, one
//! segment per level; a segment that parses as a non-negative integer
//! indexes into an array.  Absence is always "not found", never an error.

use crate::replace::ConfError;
use crate::text::{i64_to_string, int_text, parse_usize, parse_usize_spec, split_dots,
    split_dots_exec, str_eq};
use crate::convert::{Holder, OutMap, Wrapper};
use crate::env::Enver;
use crate::grabber::{Grabber, LocalGrabber, MultiGrabber};
use crate::{local_from, opt_view, Filter, Getter};
use vstd::prelude::*;
use vstd::string::StringExecFns;

verus! {

/// A node of a parsed configuration tree.  Scalar leaves are plain values;
/// float and datetime leaves carry their rendered text.
#[derive(Debug)]
pub enum TreeValue {
    Text(String),
    Integer(i64),
    Boolean(bool),
    FloatText(String),
    DatetimeText(String),
    Arr(Vec<TreeValue>),
    Table(Vec<(String, TreeValue)>),
}

impl TreeValue {
    /// Chains this provider before another: this one answers first, the
    /// other is the fallback.
    pub fn hold<BG: Getter>(self, b: BG) -> (r: Holder<Self, BG>)
        ensures
            r.a == self,
            r.b == b,
    {
        Holder::new(self, b)
    }

    /// Maps this provider's outputs through a pure mapping.
    pub fn wrap<FM: OutMap>(self, f: FM) -> (r: Wrapper<Self, FM>)
        ensures
            r.g == self,
            r.f == f,
    {
        Wrapper::new(self, f)
    }

    /// A fresh scalar-value query against this provider.
    pub fn grab<'q>(&'q self) -> (r: Grabber<'q, Self>)
        ensures
            r.src() == *self,
            r.res_spec() is None,
    {
        Grabber::new(self)
    }

    /// A fresh path query against this provider.
    pub fn grab_local<'q>(&'q self, env: &'q Enver) -> (r: LocalGrabber<'q, Self>)
        ensures
            r.src() == *self,
            r.env_spec() == *env,
            r.res_spec() is None,
    {
        LocalGrabber::new(self, env)
    }

    /// A fresh sequence query against this provider.
    pub fn grab_multi<'q>(&'q self) -> (r: MultiGrabber<'q, Self>)
        ensures
            r.src() == *self,
            r.res_spec() is None,
    {
        MultiGrabber::new(self)
    }
}

/// First-match lookup of a key among a table's entries.
pub open spec fn table_get(entries: Seq<(String, TreeValue)>, key: Seq<char>) -> Option<TreeValue>
    decreases entries.len(),
{
    if entries.len() == 0 {
        Option::None
    } else if entries[0].0@ == key {
        Option::Some(entries[0].1)
    } else {
        table_get(entries.skip(1), key)
    }
}

/// Digs one segment per step: a table is entered by key, an array by a
/// numeric segment; any other node, missing key, or non-numeric segment
/// against an array is "not found".  No segments returns the node itself.
pub open spec fn spec_dig(v: TreeValue, segs: Seq<Seq<char>>) -> Option<TreeValue>
    decreases segs.len(),
{
    if segs.len() == 0 {
        Option::Some(v)
    } else {
        match v {
            TreeValue::Table(entries) => match table_get(entries@, segs[0]) {
                Option::Some(v2) => spec_dig(v2, segs.skip(1)),
                Option::None => Option::None,
            },
            TreeValue::Arr(items) => match parse_usize_spec(segs[0]) {
                Option::Some(idx) => if idx < items@.len() {
                    spec_dig(items@[idx as int], segs.skip(1))
                } else {
                    Option::None
                },
                Option::None => Option::None,
            },
            _ => Option::None,
        }
    }
}

/// The displayable text of a scalar leaf; tables and arrays have none.
pub open spec fn leaf_text(v: TreeValue) -> Option<Seq<char>> {
    match v {
        TreeValue::Text(s) => Option::Some(s@),
        TreeValue::Integer(i) => Option::Some(int_text(i as int)),
        TreeValue::Boolean(b) => Option::Some(
            if b {
                "true"@
            } else {
                "false"@
            },
        ),
        TreeValue::FloatText(t) => Option::Some(t@),
        TreeValue::DatetimeText(t) => Option::Some(t@),
        TreeValue::Arr(_) => Option::None,
        TreeValue::Table(_) => Option::None,
    }
}

/// The string elements of an array, in order; other elements are dropped.
pub open spec fn arr_strings(items: Seq<TreeValue>) -> Seq<Seq<char>>
    decreases items.len(),
{
    if items.len() == 0 {
        Seq::empty()
    } else {
        let rest = arr_strings(items.skip(1));
        match items[0] {
            TreeValue::Text(s) => seq![s@] + rest,
            _ => rest,
        }
    }
}

fn table_find<'a>(entries: &'a Vec<(String, TreeValue)>, key: &str) -> (r: Option<&'a TreeValue>)
    ensures
        match r {
            Option::Some(v) => table_get(entries@, key@) == Option::Some(*v),
            Option::None => table_get(entries@, key@) is None,
        },
{
    let n = entries.len();
    let mut i: usize = 0;
    proof {
        assert(entries@.skip(0) =~= entries@);
    }
    while i < n
        invariant
            n == entries@.len(),
            i <= n,
            table_get(entries@.skip(i as int), key@) == table_get(entries@, key@),
        decreases n - i,
    {
        proof {
            assert(entries@.skip(i as int)[0] == entries@[i as int]);
            assert(entries@.skip(i as int).skip(1) =~= entries@.skip(i + 1));
        }
        if str_eq(entries[i].0.as_str(), key) {
            return Option::Some(&entries[i].1);
        }
        i = i + 1;
    }
    proof {
        assert(entries@.skip(n as int) =~= Seq::<(String, TreeValue)>::empty());
    }
    Option::None
}

fn dig_at<'a>(v: &'a TreeValue, segs: &Vec<String>, i: usize) -> (r: Option<&'a TreeValue>)
    requires
        i <= segs@.len(),
    ensures
        match r {
            Option::Some(rv) => spec_dig(*v, segs.deep_view().skip(i as int)) == Option::Some(
                *rv,
            ),
            Option::None => spec_dig(*v, segs.deep_view().skip(i as int)) is None,
        },
    decreases segs@.len() - i,
{
    if i == segs.len() {
        proof {
            assert(segs.deep_view().skip(i as int) =~= Seq::<Seq<char>>::empty());
        }
        return Option::Some(v);
    }
    proof {
        assert(segs.deep_view().skip(i as int)[0] == segs@[i as int]@);
        assert(segs.deep_view().skip(i as int).skip(1) =~= segs.deep_view().skip(i + 1));
    }
    match v {
        TreeValue::Table(entries) => match table_find(entries, segs[i].as_str()) {
            Option::Some(v2) => dig_at(v2, segs, i + 1),
            Option::None => Option::None,
        },
        TreeValue::Arr(items) => match parse_usize(segs[i].as_str()) {
            Option::Some(idx) => if idx < items.len() {
                dig_at(&items[idx], segs, i + 1)
            } else {
                Option::None
            },
            Option::None => Option::None,
        },
        _ => Option::None,
    }
}

fn leaf_to_text(v: &TreeValue) -> (r: Option<String>)
    ensures
        opt_view(r) == leaf_text(*v),
{
    match v {
        TreeValue::Text(s) => Option::Some(s.clone()),
        TreeValue::Integer(i) => Option::Some(i64_to_string(*i)),
        TreeValue::Boolean(b) => Option::Some(
            if *b {
                "true".to_owned()
            } else {
                "false".to_owned()
            },
        ),
        TreeValue::FloatText(t) => Option::Some(t.clone()),
        TreeValue::DatetimeText(t) => Option::Some(t.clone()),
        TreeValue::Arr(_) => Option::None,
        TreeValue::Table(_) => Option::None,
    }
}

fn arr_to_strings(items: &Vec<TreeValue>) -> (r: Vec<String>)
    ensures
        r.deep_view() == arr_strings(items@),
{
    let n = items.len();
    let mut r: Vec<String> = Vec::new();
    let mut i: usize = 0;
    proof {
        assert(items@.skip(0) =~= items@);
        assert(r.deep_view() + arr_strings(items@) =~= arr_strings(items@));
    }
    while i < n
        invariant
            n == items@.len(),
            i <= n,
            r.deep_view() + arr_strings(items@.skip(i as int)) == arr_strings(items@),
        decreases n - i,
    {
        proof {
            assert(items@.skip(i as int)[0] == items@[i as int]);
            assert(items@.skip(i as int).skip(1) =~= items@.skip(i + 1));
        }
        let ghost prev = r.deep_view();
        match &items[i] {
            TreeValue::Text(s) => {
                r.push(s.clone());
                proof {
                    assert(r.deep_view() =~= prev + seq![items@[i as int]->Text_0@]);
                    assert(r.deep_view() + arr_strings(items@.skip(i + 1)) =~= arr_strings(
                        items@,
                    ));
                }
            },
            _ => {},
        }
        i = i + 1;
    }
    proof {
        assert(items@.skip(n as int) =~= Seq::<TreeValue>::empty());
        assert(r.deep_view() + arr_strings(items@.skip(n as int)) =~= r.deep_view());
    }
    r
}

impl Getter for TreeValue {
    /// A scalar is the dug leaf's display text, for the configuration tag
    /// only; tables and arrays have no scalar.
    open spec fn spec_value(&self, key: Seq<char>, f: Filter) -> Option<Seq<char>> {
        if f == Filter::Conf {
            match spec_dig(*self, split_dots(key)) {
                Option::Some(v) => leaf_text(v),
                Option::None => Option::None,
            }
        } else {
            Option::None
        }
    }

    /// A sequence exists only when the dug node is an array; it holds the
    /// array's string elements in order.
    open spec fn spec_values(&self, key: Seq<char>, f: Filter) -> Option<Seq<Seq<char>>> {
        if f == Filter::Conf {
            match spec_dig(*self, split_dots(key)) {
                Option::Some(TreeValue::Arr(items)) => Option::Some(arr_strings(items@)),
                _ => Option::None,
            }
        } else {
            Option::None
        }
    }

    /// The default presence semantics: whether the key holds a scalar
    /// value under the configuration tag.
    open spec fn spec_bool_flag(&self, key: Seq<char>, f: Filter) -> bool {
        self.spec_value(key, f) is Some
    }

    /// A tree has no subcommands.
    open spec fn spec_sub(&self, key: Seq<char>, f: Filter) -> bool {
        false
    }

    /// The default path semantics.
    open spec fn spec_local_value(&self, key: Seq<char>, f: Filter, env: crate::env::Enver)
        -> Option<Seq<char>> {
        local_from(self.spec_value(key, f), env)
    }

    fn value(&self, key: &str, f: Filter) -> (r: Option<String>) {
        match f {
            Filter::Conf => {
                let segs = split_dots_exec(key);
                proof {
                    assert(segs.deep_view().skip(0) =~= split_dots(key@));
                }
                match dig_at(self, &segs, 0) {
                    Option::Some(v) => leaf_to_text(v),
                    Option::None => Option::None,
                }
            },
            _ => Option::None,
        }
    }

    fn values(&self, key: &str, f: Filter) -> (r: Option<Vec<String>>) {
        match f {
            Filter::Conf => {
                let segs = split_dots_exec(key);
                proof {
                    assert(segs.deep_view().skip(0) =~= split_dots(key@));
                }
                match dig_at(self, &segs, 0) {
                    Option::Some(v) => match v {
                        TreeValue::Arr(items) => Option::Some(arr_to_strings(items)),
                        _ => Option::None,
                    },
                    Option::None => Option::None,
                }
            },
            _ => Option::None,
        }
    }

    fn bool_flag(&self, key: &str, f: Filter) -> (r: bool) {
        match self.value(key, f) {
            Option::Some(_) => true,
            Option::None => false,
        }
    }

    fn sub(&self, key: &str, f: Filter) -> (r: bool) {
        false
    }

    fn local_value(&self, key: &str, f: Filter, env: &crate::env::Enver) -> (r: Option<String>) {
        crate::local_from_value(self.value(key, f), env)
    }
}

/// Lets `toml::Value` stand, opaquely, in signatures and fields.
#[verifier::external_type_specification]
#[verifier::external_body]
pub struct ExTomlValue(toml::Value);

/// The tree that the conversion of a parsed document yields; a function of
/// the document alone.
pub uninterp spec fn tree_of_toml(v: toml::Value) -> TreeValue;

/// Relies on toml's `Value` enum: each variant is carried over one for one,
/// arrays and tables element by element; float and datetime leaves keep
/// their rendered text.
#[verifier::external_body]
fn from_toml(v: &toml::Value) -> (r: TreeValue)
    ensures
        r == tree_of_toml(*v),
{
    match v {
        toml::Value::String(s) => TreeValue::Text(s.clone()),
        toml::Value::Integer(i) => TreeValue::Integer(*i),
        toml::Value::Float(x) => TreeValue::FloatText(x.to_string()),
        toml::Value::Boolean(b) => TreeValue::Boolean(*b),
        toml::Value::Datetime(d) => TreeValue::DatetimeText(d.to_string()),
        toml::Value::Array(a) => TreeValue::Arr(a.iter().map(from_toml).collect()),
        toml::Value::Table(t) => TreeValue::Table(
            t.iter().map(|(k, x)| (k.clone(), from_toml(x))).collect(),
        ),
    }
}

/// The tree that parsing document text yields, when the text is in the
/// tree grammar; a function of the text alone.
pub uninterp spec fn tree_parse(s: Seq<char>) -> Option<TreeValue>;

/// Relies on toml's `FromStr` for `Value`: parses document text in the
/// tree grammar.  Which texts parse is the grammar's affair; converting a
/// parsed document gives the text's one tree, and a parse failure is
/// reported as a load error carrying the parser's reason.
#[verifier::external_body]
fn parse_toml_value(s: &str) -> (r: Result<toml::Value, ConfError>)
    ensures
        r matches Ok(v) ==> tree_parse(s@) == Option::Some(tree_of_toml(v)),
        r matches Err(e) ==> (tree_parse(s@) is None && e matches ConfError::LoadError(_)),
{
    match s.parse::<toml::Value>() {
        Ok(v) => Ok(v),
        Err(e) => Err(ConfError::LoadError(e.to_string())),
    }
}

/// Parses configuration text into a tree: exactly the text's tree under
/// the tree grammar, or a load error for text outside the grammar.
pub fn parse_tree(s: &str) -> (r: Result<TreeValue, ConfError>)
    ensures
        r matches Ok(t) ==> Option::Some(t) == tree_parse(s@),
        r matches Err(e) ==> (tree_parse(s@) is None && e matches ConfError::LoadError(_)),
{
    match parse_toml_value(s) {
        Result::Ok(v) => Result::Ok(from_toml(&v)),
        Result::Err(e) => Result::Err(e),
    }
}

} // verus!
