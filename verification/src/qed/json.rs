//! A JSON document tree.
use vstd::prelude::*;

verus! {

broadcast use vstd::std_specs::vec::group_vec_axioms;

/// A JSON value; an object keeps its members in the order they were given.
#[derive(Debug)]
pub enum Json {
    Null,
    Bool(bool),
    Num(u128),
    Str(String),
    Arr(Vec<Json>),
    Obj(Vec<(String, Json)>),
}

pub enum SpecJson {
    Null,
    Bool(bool),
    Num(nat),
    Str(Seq<char>),
    Arr(Seq<SpecJson>),
    Obj(Seq<(Seq<char>, SpecJson)>),
}

pub open spec fn view_json(j: Json) -> SpecJson
    decreases j,
{
    match j {
        Json::Null => SpecJson::Null,
        Json::Bool(b) => SpecJson::Bool(b),
        Json::Num(n) => SpecJson::Num(n as nat),
        Json::Str(s) => SpecJson::Str(s@),
        Json::Arr(v) => SpecJson::Arr(view_jsons(v@)),
        Json::Obj(v) => SpecJson::Obj(view_members(v@)),
    }
}

pub open spec fn view_jsons(s: Seq<Json>) -> Seq<SpecJson>
    decreases s,
{
    if s.len() == 0 {
        Seq::empty()
    } else {
        view_jsons(s.drop_last()).push(view_json(s.last()))
    }
}

pub open spec fn view_members(s: Seq<(String, Json)>) -> Seq<(Seq<char>, SpecJson)>
    decreases s,
{
    if s.len() == 0 {
        Seq::empty()
    } else {
        view_members(s.drop_last()).push((s.last().0@, view_json(s.last().1)))
    }
}

impl View for Json {
    type V = SpecJson;

    open spec fn view(&self) -> SpecJson {
        view_json(*self)
    }
}

pub proof fn lemma_view_jsons(s: Seq<Json>)
    ensures
        view_jsons(s).len() == s.len(),
        forall|i: int| 0 <= i < s.len() ==> #[trigger] view_jsons(s)[i] == view_json(s[i]),
    decreases s.len(),
{
    if s.len() > 0 {
        lemma_view_jsons(s.drop_last());
    }
}

/// `[a, b, c]` as a JSON array.
pub fn arr3(a: Json, b: Json, c: Json) -> (r: Json)
    ensures
        r@ == SpecJson::Arr(seq![a@, b@, c@]),
{
    let mut v: Vec<Json> = Vec::new();
    v.push(a);
    v.push(b);
    v.push(c);
    proof { lemma_view_jsons(v@); }
    assert(view_jsons(v@) =~= seq![view_json(v@[0]), view_json(v@[1]), view_json(v@[2])]);
    Json::Arr(v)
}

/// An object of the given members, in order.
pub fn object(members: Vec<(String, Json)>) -> (r: Json)
    ensures
        r@ == SpecJson::Obj(view_members(members@)),
{
    Json::Obj(members)
}

/// Appends a member to a member list.
pub fn member(v: &mut Vec<(String, Json)>, key: &str, value: Json)
    ensures
        view_members(final(v)@) == view_members(old(v)@).push((key@, value@)),
{
    let ghost prev = v@;
    v.push((crate::text::owned(key), value));
    assert(v@.drop_last() =~= prev);
}

impl Json {
    /// A copy of the value.
    pub fn deep_copy(&self) -> (r: Json)
        ensures
            r@ == self@,
        decreases self,
    {
        match self {
            Json::Null => Json::Null,
            Json::Bool(b) => Json::Bool(*b),
            Json::Num(n) => Json::Num(*n),
            Json::Str(s) => Json::Str(s.clone()),
            Json::Arr(v) => Json::Arr(copy_jsons(v)),
            Json::Obj(v) => Json::Obj(copy_members(v)),
        }
    }
}

#[verifier::loop_isolation(false)]
fn copy_jsons(v: &Vec<Json>) -> (r: Vec<Json>)
    ensures
        view_jsons(r@) == view_jsons(v@),
    decreases v,
{
    proof { lemma_view_jsons(v@); }
    let mut r: Vec<Json> = Vec::new();
    let mut i: usize = 0;
    while i < v.len()
        invariant
            i <= v@.len(),
            r@.len() == i,
            forall|k: int| 0 <= k < i ==> view_json(#[trigger] r@[k]) == view_json(v@[k]),
        decreases v.len() - i,
    {
        proof { assert(decreases_to!(v => v[i as int])); }
        r.push(v[i].deep_copy());
        i += 1;
    }
    proof { lemma_view_jsons(r@); }
    assert(view_jsons(r@) =~= view_jsons(v@));
    r
}

pub proof fn lemma_view_members(s: Seq<(String, Json)>)
    ensures
        view_members(s).len() == s.len(),
        forall|i: int| 0 <= i < s.len() ==> #[trigger] view_members(s)[i] == (s[i].0@, view_json(s[i].1)),
    decreases s.len(),
{
    if s.len() > 0 {
        lemma_view_members(s.drop_last());
    }
}

#[verifier::loop_isolation(false)]
fn copy_members(v: &Vec<(String, Json)>) -> (r: Vec<(String, Json)>)
    ensures
        view_members(r@) == view_members(v@),
    decreases v,
{
    proof { lemma_view_members(v@); }
    let mut r: Vec<(String, Json)> = Vec::new();
    let mut i: usize = 0;
    while i < v.len()
        invariant
            i <= v@.len(),
            r@.len() == i,
            forall|k: int| 0 <= k < i ==> (#[trigger] r@[k]).0@ == v@[k].0@ && view_json(r@[k].1) == view_json(v@[k].1),
        decreases v.len() - i,
    {
        proof { assert(decreases_to!(v => v[i as int])); }
        r.push((v[i].0.clone(), v[i].1.deep_copy()));
        i += 1;
    }
    proof { lemma_view_members(r@); }
    assert(view_members(r@) =~= view_members(v@));
    r
}

} // verus!
