//! Making JSON values.
use vstd::prelude::*;

use crate::codec::string_value;
use crate::tree::{Tree, number_text, tree};

verus! {

/// `serde_json::Number`'s `FromStr`, as a `serde_json::Value`.
///
/// Trusted: it accepts a number in the form in which numbers are kept, and keeps
/// its text.
#[verifier::external_body]
fn parse_number(s: &str) -> (r: Result<serde_json::Value, serde_json::Error>)
    ensures
        number_text(s@) ==> r is Ok && tree(r->Ok_0) == Tree::Number(s@),
{
    s.parse::<serde_json::Number>().map(serde_json::Value::Number)
}

/// `From<bool>` of `serde_json::Value`.
///
/// Trusted: it makes the JSON literal.
#[verifier::external_body]
fn bool_to_value(b: bool) -> (r: serde_json::Value)
    ensures
        tree(r) == Tree::Bool(b),
{
    serde_json::Value::from(b)
}

/// `From<Vec<Value>>` of `serde_json::Value`.
///
/// Trusted: it makes an array of the values, in their order.
#[verifier::external_body]
fn vec_to_value(items: Vec<serde_json::Value>) -> (r: serde_json::Value)
    ensures
        tree(r) == Tree::Array(trees(items@)),
{
    serde_json::Value::from(items)
}

/// `FromIterator<(String, Value)>` of `serde_json::Value`.
///
/// Trusted: where no key occurs twice, it makes an object of the members, in their
/// order.
#[verifier::external_body]
fn members_to_value(members: Vec<(String, serde_json::Value)>) -> (r: serde_json::Value)
    requires
        distinct_keys(member_trees(members@)),
    ensures
        tree(r) == Tree::Object(member_trees(members@)),
{
    members.into_iter().collect()
}

/// `Clone` of `serde_json::Value`.
///
/// Trusted: the copy holds what the value holds.
#[verifier::external_body]
fn clone_value(v: &serde_json::Value) -> (r: serde_json::Value)
    ensures
        tree(r) == tree(*v),
{
    v.clone()
}

/// What each of several values holds.
pub open spec fn trees(items: Seq<serde_json::Value>) -> Seq<Tree> {
    items.map_values(|v: serde_json::Value| tree(v))
}

/// What each of several members holds.
pub open spec fn member_trees(members: Seq<(String, serde_json::Value)>) -> Seq<
    (Seq<char>, Tree),
> {
    members.map_values(|m: (String, serde_json::Value)| (m.0@, tree(m.1)))
}

/// No two members have the same key.
pub open spec fn distinct_keys(members: Seq<(Seq<char>, Tree)>) -> bool {
    forall|i: int, j: int|
        0 <= i < j < members.len() ==> (#[trigger] members[i]).0 != (#[trigger] members[j]).0
}

/// The JSON number with this text.
pub fn number_value(s: &str) -> (r: serde_json::Value)
    requires
        number_text(s@),
    ensures
        tree(r) == Tree::Number(s@),
{
    parse_number(s).unwrap()
}

/// The JSON literal `true` or `false`.
pub fn bool_value(b: bool) -> (r: serde_json::Value)
    ensures
        tree(r) == Tree::Bool(b),
{
    bool_to_value(b)
}

/// An array of `n` copies of a value.
pub fn repeated_value(v: &serde_json::Value, n: usize) -> (r: serde_json::Value)
    ensures
        tree(r) == Tree::Array(Seq::new(n as nat, |i: int| tree(*v))),
{
    let mut items: Vec<serde_json::Value> = Vec::new();
    let mut i: usize = 0;
    while i < n
        invariant
            i <= n,
            trees(items@) == Seq::new(i as nat, |k: int| tree(*v)),
        decreases n - i,
    {
        let ghost before = items@;
        items.push(clone_value(v));
        i += 1;
        assert(trees(items@) =~= trees(before).push(tree(*v)));
    }
    vec_to_value(items)
}

/// An array of two strings.
pub fn string_pair(a: &str, b: &str) -> (r: serde_json::Value)
    ensures
        tree(r) == Tree::Array(seq![Tree::Text(a@), Tree::Text(b@)]),
{
    let mut items: Vec<serde_json::Value> = Vec::new();
    items.push(string_value(a));
    items.push(string_value(b));
    assert(trees(items@) =~= seq![Tree::Text(a@), Tree::Text(b@)]);
    vec_to_value(items)
}

/// An object in the making.
pub struct Members {
    list: Vec<(String, serde_json::Value)>,
}

impl View for Members {
    type V = Seq<(Seq<char>, Tree)>;

    closed spec fn view(&self) -> Seq<(Seq<char>, Tree)> {
        member_trees(self.list@)
    }
}

impl Members {
    /// No members yet.
    pub fn new() -> (r: Members)
        ensures
            r@ == Seq::<(Seq<char>, Tree)>::empty(),
    {
        let r = Members { list: Vec::new() };
        assert(r@ =~= Seq::<(Seq<char>, Tree)>::empty());
        r
    }

    /// One member more, behind the others.
    pub fn with(self, key: &str, value: serde_json::Value) -> (r: Members)
        ensures
            r@ == self@.push((key@, tree(value))),
    {
        let mut list = self.list;
        list.push((key.to_owned(), value));
        let r = Members { list };
        assert(r@ =~= self@.push((key@, tree(value))));
        r
    }

    /// The object with these members.
    pub fn object(self) -> (r: serde_json::Value)
        requires
            distinct_keys(self@),
        ensures
            tree(r) == Tree::Object(self@),
    {
        members_to_value(self.list)
    }
}

} // verus!
