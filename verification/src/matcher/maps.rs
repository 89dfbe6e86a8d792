//! Association lists that hold the matcher's bindings and column contexts.
//! Each list maps a key to the value of its last entry.
use vstd::prelude::*;
use crate::plan::{
    clone_columns, clone_exprs, clone_plan, eq_opt_string, opt_str, view_exprs, Column, Expr, Plan, SpecColumn,
    SpecExpr, SpecPlan,
};

verus! {

broadcast use vstd::std_specs::vec::group_vec_axioms;

/// One binding of a column context.
pub struct ColumnEntry {
    pub key: Column,
    pub value: Vec<Column>,
}

pub open spec fn colmap_key(e: ColumnEntry) -> SpecColumn {
    e.key@
}

pub open spec fn colmap_value(e: ColumnEntry) -> Seq<SpecColumn> {
    e.value@.map_values(|c: Column| c@)
}

pub open spec fn colmap_view(s: Seq<ColumnEntry>) -> Map<SpecColumn, Seq<SpecColumn>>
    decreases s.len(),
{
    if s.len() == 0 {
        Map::empty()
    } else {
        colmap_view(s.drop_last()).insert(colmap_key(s.last()), colmap_value(s.last()))
    }
}

/// The map view gives every key the value of its last entry.
pub proof fn lemma_colmap_last(s: Seq<ColumnEntry>, k: SpecColumn, i: int)
    requires
        0 <= i < s.len(),
        colmap_key(s[i]) == k,
        forall|j: int| i < j < s.len() ==> colmap_key(#[trigger] s[j]) != k,
    ensures
        colmap_view(s).contains_key(k),
        colmap_view(s)[k] == colmap_value(s[i]),
    decreases s.len(),
{
    if i < s.len() - 1 {
        lemma_colmap_last(s.drop_last(), k, i);
    }
}

pub proof fn lemma_colmap_absent(s: Seq<ColumnEntry>, k: SpecColumn)
    requires
        forall|j: int| 0 <= j < s.len() ==> colmap_key(#[trigger] s[j]) != k,
    ensures
        !colmap_view(s).contains_key(k),
    decreases s.len(),
{
    if s.len() > 0 {
        lemma_colmap_absent(s.drop_last(), k);
    }
}

/// The index of the last entry for `k`, if any.
pub fn colmap_find(v: &Vec<ColumnEntry>, k: &Column) -> (r: Option<usize>)
    ensures
        match r {
            Some(i) => i < v@.len() && colmap_key(v@[i as int]) == k@ && colmap_view(v@).contains_key(k@)
                && colmap_view(v@)[k@] == colmap_value(v@[i as int]),
            None => !colmap_view(v@).contains_key(k@),
        },
{
    let mut i: usize = v.len();
    while i > 0
        invariant
            i <= v@.len(),
            forall|j: int| i <= j < v@.len() ==> colmap_key(#[trigger] v@[j]) != k@,
        decreases i,
    {
        if v[i - 1].key.same_as(k) {
            proof { lemma_colmap_last(v@, k@, i - 1); }
            return Some(i - 1);
        }
        i -= 1;
    }
    proof { lemma_colmap_absent(v@, k@); }
    None
}

/// A column context: abstract column -> concrete columns that it stands for.
pub struct ColumnMap {
    pub entries: Vec<ColumnEntry>,
}

impl View for ColumnMap {
    type V = Map<SpecColumn, Seq<SpecColumn>>;

    open spec fn view(&self) -> Map<SpecColumn, Seq<SpecColumn>> {
        colmap_view(self.entries@)
    }
}

pub proof fn lemma_colmap_append(a: Seq<ColumnEntry>, b: Seq<ColumnEntry>)
    ensures
        colmap_view(a + b) == colmap_view(a).union_prefer_right(colmap_view(b)),
    decreases b.len(),
{
    if b.len() == 0 {
        assert(a + b =~= a);
        assert(colmap_view(a).union_prefer_right(colmap_view(b)) =~= colmap_view(a));
    } else {
        lemma_colmap_append(a, b.drop_last());
        assert((a + b).drop_last() =~= a + b.drop_last());
        assert(colmap_view(a + b) =~= colmap_view(a).union_prefer_right(colmap_view(b)));
    }
}

impl ColumnMap {
    pub fn new() -> (r: ColumnMap)
        ensures
            r@ == Map::<SpecColumn, Seq<SpecColumn>>::empty(),
    {
        ColumnMap { entries: Vec::new() }
    }

    /// The concrete columns bound to `k`.
    pub fn get(&self, k: &Column) -> (r: Option<&Vec<Column>>)
        ensures
            match r {
                Some(v) => self@.contains_key(k@) && self@[k@] == v@.map_values(|c: Column| c@),
                None => !self@.contains_key(k@),
            },
    {
        match colmap_find(&self.entries, k) {
            Some(i) => Some(&self.entries[i].value),
            None => None,
        }
    }

    /// Binds `k` to `v`, replacing any earlier binding.
    pub fn insert(&mut self, k: Column, v: Vec<Column>)
        ensures
            final(self)@ == old(self)@.insert(k@, v@.map_values(|c: Column| c@)),
    {
        self.entries.push(ColumnEntry { key: k, value: v });
        assert(self.entries@.drop_last() =~= old(self).entries@);
    }

    /// Adds all bindings of `other`; they take precedence.
    pub fn extend(&mut self, other: &ColumnMap)
        ensures
            final(self)@ == old(self)@.union_prefer_right(other@),
    {
        let ghost a = self@;
        let mut i: usize = 0;
        assert(colmap_view(other.entries@.take(0)) =~= Map::empty());
        assert(a.union_prefer_right(Map::empty()) =~= a);
        while i < other.entries.len()
            invariant
                i <= other.entries@.len(),
                self@ == a.union_prefer_right(colmap_view(other.entries@.take(i as int))),
            decreases other.entries.len() - i,
        {
            let e = ColumnEntry { key: other.entries[i].key.clone(), value: clone_columns(&other.entries[i].value) };
            let ghost prev = self.entries@;
            self.entries.push(e);
            proof {
                let t = other.entries@.take(i + 1);
                assert(t.drop_last() =~= other.entries@.take(i as int));
                assert(t.last() == other.entries@[i as int]);
                assert(self.entries@.drop_last() =~= prev);
                assert(colmap_key(e) == colmap_key(other.entries@[i as int]));
                assert(colmap_value(e) =~= colmap_value(other.entries@[i as int]));
                assert(self@ =~= a.union_prefer_right(colmap_view(t)));
            }
            i += 1;
        }
        assert(other.entries@.take(other.entries@.len() as int) =~= other.entries@);
    }
}

impl Clone for ColumnMap {
    fn clone(&self) -> (r: Self)
        ensures
            r@ == self@,
    {
        let mut r: Vec<ColumnEntry> = Vec::new();
        let mut i: usize = 0;
        while i < self.entries.len()
            invariant
                i <= self.entries@.len(),
                r@.len() == i,
                forall|j: int| 0 <= j < i ==> #[trigger] colmap_key(r@[j]) == colmap_key(self.entries@[j])
                    && colmap_value(r@[j]) == colmap_value(self.entries@[j]),
            decreases self.entries.len() - i,
        {
            r.push(ColumnEntry { key: self.entries[i].key.clone(), value: clone_columns(&self.entries[i].value) });
            i += 1;
        }
        proof { lemma_colmap_same(r@, self.entries@); }
        ColumnMap { entries: r }
    }
}

pub proof fn lemma_colmap_same(a: Seq<ColumnEntry>, b: Seq<ColumnEntry>)
    requires
        a.len() == b.len(),
        forall|j: int| 0 <= j < a.len() ==> #[trigger] colmap_key(a[j]) == colmap_key(b[j])
            && colmap_value(a[j]) == colmap_value(b[j]),
    ensures
        colmap_view(a) == colmap_view(b),
    decreases a.len(),
{
    if a.len() > 0 {
        lemma_colmap_same(a.drop_last(), b.drop_last());
    }
}

pub struct FunctionEntry {
    pub key: String,
    pub value: Vec<Expr>,
}

pub open spec fn funmap_key(e: FunctionEntry) -> Seq<char> {
    e.key@
}

pub open spec fn funmap_value(e: FunctionEntry) -> Seq<SpecExpr> {
    view_exprs(e.value@)
}

pub open spec fn funmap_view(s: Seq<FunctionEntry>) -> Map<Seq<char>, Seq<SpecExpr>>
    decreases s.len(),
{
    if s.len() == 0 {
        Map::empty()
    } else {
        funmap_view(s.drop_last()).insert(funmap_key(s.last()), funmap_value(s.last()))
    }
}

/// The map view gives every key the value of its last entry.
pub proof fn lemma_funmap_last(s: Seq<FunctionEntry>, k: Seq<char>, i: int)
    requires
        0 <= i < s.len(),
        funmap_key(s[i]) == k,
        forall|j: int| i < j < s.len() ==> funmap_key(#[trigger] s[j]) != k,
    ensures
        funmap_view(s).contains_key(k),
        funmap_view(s)[k] == funmap_value(s[i]),
    decreases s.len(),
{
    if i < s.len() - 1 {
        lemma_funmap_last(s.drop_last(), k, i);
    }
}

pub proof fn lemma_funmap_absent(s: Seq<FunctionEntry>, k: Seq<char>)
    requires
        forall|j: int| 0 <= j < s.len() ==> funmap_key(#[trigger] s[j]) != k,
    ensures
        !funmap_view(s).contains_key(k),
    decreases s.len(),
{
    if s.len() > 0 {
        lemma_funmap_absent(s.drop_last(), k);
    }
}

/// The index of the last entry for `k`, if any.
pub fn funmap_find(v: &Vec<FunctionEntry>, k: &String) -> (r: Option<usize>)
    ensures
        match r {
            Some(i) => i < v@.len() && funmap_key(v@[i as int]) == k@ && funmap_view(v@).contains_key(k@)
                && funmap_view(v@)[k@] == funmap_value(v@[i as int]),
            None => !funmap_view(v@).contains_key(k@),
        },
{
    let mut i: usize = v.len();
    while i > 0
        invariant
            i <= v@.len(),
            forall|j: int| i <= j < v@.len() ==> funmap_key(#[trigger] v@[j]) != k@,
        decreases i,
    {
        if v[i - 1].key == *k {
            proof { lemma_funmap_last(v@, k@, i - 1); }
            return Some(i - 1);
        }
        i -= 1;
    }
    proof { lemma_funmap_absent(v@, k@); }
    None
}

pub struct SourceEntry {
    pub key: String,
    pub value: (Plan, ColumnMap),
}

pub open spec fn srcmap_key(e: SourceEntry) -> Seq<char> {
    e.key@
}

pub open spec fn srcmap_value(e: SourceEntry) -> (SpecPlan, Map<SpecColumn, Seq<SpecColumn>>) {
    (e.value.0@, e.value.1@)
}

pub open spec fn srcmap_view(s: Seq<SourceEntry>) -> Map<Seq<char>, (SpecPlan, Map<SpecColumn, Seq<SpecColumn>>)>
    decreases s.len(),
{
    if s.len() == 0 {
        Map::empty()
    } else {
        srcmap_view(s.drop_last()).insert(srcmap_key(s.last()), srcmap_value(s.last()))
    }
}

/// The map view gives every key the value of its last entry.
pub proof fn lemma_srcmap_last(s: Seq<SourceEntry>, k: Seq<char>, i: int)
    requires
        0 <= i < s.len(),
        srcmap_key(s[i]) == k,
        forall|j: int| i < j < s.len() ==> srcmap_key(#[trigger] s[j]) != k,
    ensures
        srcmap_view(s).contains_key(k),
        srcmap_view(s)[k] == srcmap_value(s[i]),
    decreases s.len(),
{
    if i < s.len() - 1 {
        lemma_srcmap_last(s.drop_last(), k, i);
    }
}

pub proof fn lemma_srcmap_absent(s: Seq<SourceEntry>, k: Seq<char>)
    requires
        forall|j: int| 0 <= j < s.len() ==> srcmap_key(#[trigger] s[j]) != k,
    ensures
        !srcmap_view(s).contains_key(k),
    decreases s.len(),
{
    if s.len() > 0 {
        lemma_srcmap_absent(s.drop_last(), k);
    }
}

/// The index of the last entry for `k`, if any.
pub fn srcmap_find(v: &Vec<SourceEntry>, k: &String) -> (r: Option<usize>)
    ensures
        match r {
            Some(i) => i < v@.len() && srcmap_key(v@[i as int]) == k@ && srcmap_view(v@).contains_key(k@)
                && srcmap_view(v@)[k@] == srcmap_value(v@[i as int]),
            None => !srcmap_view(v@).contains_key(k@),
        },
{
    let mut i: usize = v.len();
    while i > 0
        invariant
            i <= v@.len(),
            forall|j: int| i <= j < v@.len() ==> srcmap_key(#[trigger] v@[j]) != k@,
        decreases i,
    {
        if v[i - 1].key == *k {
            proof { lemma_srcmap_last(v@, k@, i - 1); }
            return Some(i - 1);
        }
        i -= 1;
    }
    proof { lemma_srcmap_absent(v@, k@); }
    None
}

pub proof fn lemma_funmap_same(a: Seq<FunctionEntry>, b: Seq<FunctionEntry>)
    requires
        a.len() == b.len(),
        forall|j: int| 0 <= j < a.len() ==> #[trigger] funmap_key(a[j]) == funmap_key(b[j])
            && funmap_value(a[j]) == funmap_value(b[j]),
    ensures
        funmap_view(a) == funmap_view(b),
    decreases a.len(),
{
    if a.len() > 0 {
        lemma_funmap_same(a.drop_last(), b.drop_last());
    }
}

pub proof fn lemma_srcmap_same(a: Seq<SourceEntry>, b: Seq<SourceEntry>)
    requires
        a.len() == b.len(),
        forall|j: int| 0 <= j < a.len() ==> #[trigger] srcmap_key(a[j]) == srcmap_key(b[j])
            && srcmap_value(a[j]) == srcmap_value(b[j]),
    ensures
        srcmap_view(a) == srcmap_view(b),
    decreases a.len(),
{
    if a.len() > 0 {
        lemma_srcmap_same(a.drop_last(), b.drop_last());
    }
}

/// One instantiated argument, under the qualified name it is found by.
pub struct EvalEntry {
    pub relation: Option<String>,
    pub name: String,
    pub value: Expr,
}

pub open spec fn evalmap_key(e: EvalEntry) -> (Option<Seq<char>>, Seq<char>) {
    (opt_str(e.relation), e.name@)
}

pub open spec fn evalmap_view(s: Seq<EvalEntry>) -> Map<(Option<Seq<char>>, Seq<char>), SpecExpr>
    decreases s.len(),
{
    if s.len() == 0 {
        Map::empty()
    } else {
        evalmap_view(s.drop_last()).insert(evalmap_key(s.last()), s.last().value@)
    }
}

pub proof fn lemma_evalmap_last(s: Seq<EvalEntry>, k: (Option<Seq<char>>, Seq<char>), i: int)
    requires
        0 <= i < s.len(),
        evalmap_key(s[i]) == k,
        forall|j: int| i < j < s.len() ==> evalmap_key(#[trigger] s[j]) != k,
    ensures
        evalmap_view(s).contains_key(k),
        evalmap_view(s)[k] == s[i].value@,
    decreases s.len(),
{
    if i < s.len() - 1 {
        lemma_evalmap_last(s.drop_last(), k, i);
    }
}

pub proof fn lemma_evalmap_absent(s: Seq<EvalEntry>, k: (Option<Seq<char>>, Seq<char>))
    requires
        forall|j: int| 0 <= j < s.len() ==> evalmap_key(#[trigger] s[j]) != k,
    ensures
        !evalmap_view(s).contains_key(k),
    decreases s.len(),
{
    if s.len() > 0 {
        lemma_evalmap_absent(s.drop_last(), k);
    }
}

/// Instantiated arguments by qualified name; later entries take precedence.
pub struct EvalMap {
    pub entries: Vec<EvalEntry>,
}

impl View for EvalMap {
    type V = Map<(Option<Seq<char>>, Seq<char>), SpecExpr>;

    open spec fn view(&self) -> Map<(Option<Seq<char>>, Seq<char>), SpecExpr> {
        evalmap_view(self.entries@)
    }
}

impl EvalMap {
    pub fn new() -> (r: EvalMap)
        ensures
            r@ == Map::<(Option<Seq<char>>, Seq<char>), SpecExpr>::empty(),
    {
        EvalMap { entries: Vec::new() }
    }

    /// The expression found under `(relation, name)`.
    pub fn get(&self, relation: &Option<String>, name: &String) -> (r: Option<&Expr>)
        ensures
            match r {
                Some(e) => self@.contains_key((opt_str(*relation), name@)) && self@[(opt_str(*relation), name@)] == e@,
                None => !self@.contains_key((opt_str(*relation), name@)),
            },
    {
        let ghost k = (opt_str(*relation), name@);
        let mut i: usize = self.entries.len();
        while i > 0
            invariant
                i <= self.entries@.len(),
                k == (opt_str(*relation), name@),
                forall|j: int| i <= j < self.entries@.len() ==> evalmap_key(#[trigger] self.entries@[j]) != k,
            decreases i,
        {
            if eq_opt_string(&self.entries[i - 1].relation, relation) && self.entries[i - 1].name == *name {
                proof { lemma_evalmap_last(self.entries@, k, i - 1); }
                return Some(&self.entries[i - 1].value);
            }
            i -= 1;
        }
        proof { lemma_evalmap_absent(self.entries@, k); }
        None
    }

    /// Binds `(relation, name)` to `value`, replacing any earlier binding.
    pub fn insert(&mut self, relation: Option<String>, name: String, value: Expr)
        ensures
            final(self)@ == old(self)@.insert((opt_str(relation), name@), value@),
    {
        self.entries.push(EvalEntry { relation, name, value });
        assert(self.entries@.drop_last() =~= old(self).entries@);
    }
}

} // verus!
