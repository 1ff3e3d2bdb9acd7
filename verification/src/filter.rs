//! The composable filter tree over transaction attributes, its semantics, its
//! usefulness check, and the compiler to parameterized query fragments.
//!
//! A list of top-level filters is an implicit conjunction; each set-valued leaf
//! is a disjunction across its set; `Not` negates a sub-filter. Compilation
//! never interpolates user-controlled values into the query text: every value
//! goes out as a bound parameter.

use vstd::prelude::*;
use vstd::string::{StrSliceExecFns, StringExecFns};
use crate::decimal::{dec_str_int, push_dec_i64};
use crate::storage::{Transaction, TransactionModel, TransactionType, TransactionTypeMap};

verus! {

/// One end of a date range, as seconds since the Unix epoch.
#[derive(Clone, Copy, PartialEq, Eq, Structural, Debug)]
pub enum DateBound {
    /// The bound itself satisfies the range.
    Included(i64),
    /// Only instants strictly past the bound satisfy the range.
    Excluded(i64),
    /// No constraint on this end.
    Unbounded,
}

/// A range of instants, each end independently open, closed or absent.
#[derive(Clone, Copy, PartialEq, Eq, Structural, Debug)]
pub struct DateRange {
    /// The lower bound.
    pub start: DateBound,
    /// The upper bound.
    pub end: DateBound,
}

/// Types of filters usable for queries.
pub enum TransactionFilter {
    /// The transaction belongs to one of these users.
    UserId(Vec<i32>),
    /// The transaction has one of the selected types.
    Type(TransactionTypeMap<bool>),
    /// The transaction's timestamp lies in the range.
    DateRange(DateRange),
    /// The transaction is one of these rows.
    Id(Vec<i32>),
    /// The sub-filter does not hold.
    Not(Box<TransactionFilter>),
}

/// The mathematical shape of a filter: the same tree with sets in place of
/// vectors.
pub enum FilterModel {
    /// The transaction belongs to one of these users.
    UserId(Seq<i32>),
    /// The transaction has one of the selected types.
    Type(TransactionTypeMap<bool>),
    /// The transaction's timestamp lies in the range.
    DateRange(DateRange),
    /// The transaction is one of these rows.
    Id(Seq<i32>),
    /// The sub-filter does not hold.
    Not(Box<FilterModel>),
}

impl TransactionFilter {
    /// The mathematical shape of the filter.
    pub open spec fn model(self) -> FilterModel
        decreases self,
    {
        match self {
            TransactionFilter::UserId(ids) => FilterModel::UserId(ids@),
            TransactionFilter::Type(m) => FilterModel::Type(m),
            TransactionFilter::DateRange(r) => FilterModel::DateRange(r),
            TransactionFilter::Id(ids) => FilterModel::Id(ids@),
            TransactionFilter::Not(f) => FilterModel::Not(Box::new((*f).model())),
        }
    }
}

/// Whether a timestamp satisfies both ends of a range.
pub open spec fn in_date_range(r: DateRange, t: i64) -> bool {
    (match r.start {
        DateBound::Included(s) => t >= s,
        DateBound::Excluded(s) => t > s,
        DateBound::Unbounded => true,
    }) && (match r.end {
        DateBound::Included(e) => t <= e,
        DateBound::Excluded(e) => t < e,
        DateBound::Unbounded => true,
    })
}

/// What a filter means: whether a transaction satisfies it.
pub open spec fn matches_model(f: FilterModel, t: TransactionModel) -> bool
    decreases f,
{
    match f {
        FilterModel::UserId(ids) => ids.contains(t.user_id),
        FilterModel::Type(m) => m.spec_get(t.transaction_type),
        FilterModel::DateRange(r) => in_date_range(r, t.datetime),
        FilterModel::Id(ids) => ids.contains(t.trans_id),
        FilterModel::Not(g) => !matches_model(*g, t),
    }
}

/// A filter is useful unless its value set is empty or its range is fully
/// unbounded; dropping a non-useful filter cannot change a result set.
pub open spec fn useful_model(f: FilterModel) -> bool
    decreases f,
{
    match f {
        FilterModel::UserId(ids) => ids.len() > 0,
        FilterModel::Type(m) => m.other || m.character || m.mission_reward,
        FilterModel::DateRange(r) => !(r.start is Unbounded && r.end is Unbounded),
        FilterModel::Id(ids) => ids.len() > 0,
        FilterModel::Not(g) => useful_model(*g),
    }
}

fn contains_i32(v: &Vec<i32>, x: i32) -> (r: bool)
    ensures
        r == v@.contains(x),
{
    let mut i: usize = 0;
    while i < v.len()
        invariant
            i <= v@.len(),
            forall|j: int| 0 <= j < i ==> v@[j] != x,
        decreases v@.len() - i,
    {
        if v[i] == x {
            return true;
        }
        i = i + 1;
    }
    false
}

impl TransactionFilter {
    /// Whether the filter can change a result set; empty OR-sets and fully
    /// unbounded ranges cannot.
    pub fn is_useful(&self) -> (r: bool)
        ensures
            r == useful_model(self.model()),
        decreases *self,
    {
        match self {
            TransactionFilter::UserId(ids) => ids.len() > 0,
            TransactionFilter::Type(m) => m.other || m.character || m.mission_reward,
            TransactionFilter::DateRange(r) => !(matches!(r.start, DateBound::Unbounded)
                && matches!(r.end, DateBound::Unbounded)),
            TransactionFilter::Id(ids) => ids.len() > 0,
            TransactionFilter::Not(f) => f.is_useful(),
        }
    }

    /// The filter itself when it is useful, and nothing otherwise, so vacuous
    /// filters can be dropped before compilation.
    pub fn get_useful(self) -> (r: Option<TransactionFilter>)
        ensures
            useful_model(self.model()) ==> r == Some(self),
            !useful_model(self.model()) ==> r is None,
    {
        if self.is_useful() {
            Some(self)
        } else {
            None
        }
    }

    /// Whether the given transaction satisfies the filter.
    pub fn matches(&self, t: &Transaction) -> (r: bool)
        ensures
            r == matches_model(self.model(), t@),
        decreases *self,
    {
        match self {
            TransactionFilter::UserId(ids) => contains_i32(ids, t.user_id),
            TransactionFilter::Type(m) => *m.get(t.transaction_type),
            TransactionFilter::DateRange(r) => {
                let start_ok = match r.start {
                    DateBound::Included(s) => t.datetime >= s,
                    DateBound::Excluded(s) => t.datetime > s,
                    DateBound::Unbounded => true,
                };
                let end_ok = match r.end {
                    DateBound::Included(e) => t.datetime <= e,
                    DateBound::Excluded(e) => t.datetime < e,
                    DateBound::Unbounded => true,
                };
                start_ok && end_ok
            },
            TransactionFilter::Id(ids) => contains_i32(ids, t.trans_id),
            TransactionFilter::Not(f) => !f.matches(t),
        }
    }
}

fn clone_filter(f: &TransactionFilter) -> (r: TransactionFilter)
    ensures
        r.model() == f.model(),
    decreases *f,
{
    match f {
        TransactionFilter::UserId(ids) => {
            let c = clone_ids(ids);
            TransactionFilter::UserId(c)
        },
        TransactionFilter::Type(m) => TransactionFilter::Type(*m),
        TransactionFilter::DateRange(r) => TransactionFilter::DateRange(*r),
        TransactionFilter::Id(ids) => {
            let c = clone_ids(ids);
            TransactionFilter::Id(c)
        },
        TransactionFilter::Not(g) => TransactionFilter::Not(Box::new(clone_filter(g))),
    }
}

fn clone_ids(v: &Vec<i32>) -> (r: Vec<i32>)
    ensures
        r@ == v@,
{
    let mut out: Vec<i32> = Vec::new();
    let mut i: usize = 0;
    while i < v.len()
        invariant
            i <= v@.len(),
            out@ == v@.subrange(0, i as int),
        decreases v@.len() - i,
    {
        out.push(v[i]);
        proof {
            assert(out@ =~= v@.subrange(0, i + 1));
        }
        i = i + 1;
    }
    proof {
        assert(out@ =~= v@);
    }
    out
}

impl Clone for TransactionFilter {
    /// The copy has the same mathematical shape as the original.
    fn clone(&self) -> (r: Self)
        ensures
            r.model() == self.model(),
    {
        clone_filter(self)
    }
}

/// A parameterized query fragment: text with `?` placeholders, together with
/// the values bound to them, in order. User-controlled values never appear in
/// the text.
pub struct QueryFragment {
    /// The query text so far.
    pub sql: String,
    /// The values bound to the placeholders of `sql`, in order.
    pub binds: Vec<i64>,
}

impl QueryFragment {
    /// A fragment with no text and no bound values.
    pub fn new() -> (r: Self)
        ensures
            r.sql@ == Seq::<char>::empty(),
            r.binds@ == Seq::<i64>::empty(),
    {
        QueryFragment { sql: String::new(), binds: Vec::new() }
    }

    /// Appends fixed query text.
    pub fn push_sql(&mut self, part: &str)
        ensures
            final(self).sql@ == old(self).sql@ + part@,
            final(self).binds@ == old(self).binds@,
    {
        self.sql.append(part);
    }

    /// Appends one placeholder to the text and its value to the bound list.
    pub fn push_bind(&mut self, value: i64)
        ensures
            final(self).sql@ == old(self).sql@ + "?"@,
            final(self).binds@ == old(self).binds@.push(value),
    {
        self.sql.append("?");
        self.binds.push(value);
    }
}

/// `part` repeated `k` times.
pub open spec fn repeat_text(part: Seq<char>, k: nat) -> Seq<char>
    decreases k,
{
    if k == 0 {
        Seq::empty()
    } else {
        repeat_text(part, (k - 1) as nat) + part
    }
}

/// The query text of a lower bound; nothing when unbounded.
pub open spec fn start_sql(b: DateBound) -> Seq<char> {
    match b {
        DateBound::Included(_) => "datetime >= ?"@,
        DateBound::Excluded(_) => "datetime > ?"@,
        DateBound::Unbounded => Seq::empty(),
    }
}

/// The query text of an upper bound; the always-true clause when unbounded.
pub open spec fn end_sql(b: DateBound) -> Seq<char> {
    match b {
        DateBound::Included(_) => "datetime <= ?"@,
        DateBound::Excluded(_) => "datetime < ?"@,
        DateBound::Unbounded => "1=1"@,
    }
}

/// The value a bound contributes to the bound list.
pub open spec fn bound_binds(b: DateBound) -> Seq<i64> {
    match b {
        DateBound::Included(t) => seq![t],
        DateBound::Excluded(t) => seq![t],
        DateBound::Unbounded => Seq::empty(),
    }
}

/// How many transaction types a type filter selects.
pub open spec fn selected_count(m: TransactionTypeMap<bool>) -> nat {
    (if m.other {
        1nat
    } else {
        0nat
    }) + (if m.character {
        1nat
    } else {
        0nat
    }) + (if m.mission_reward {
        1nat
    } else {
        0nat
    })
}

/// The stored integers of the selected transaction types, in enumeration order.
pub open spec fn selected_reprs(m: TransactionTypeMap<bool>) -> Seq<i64> {
    (if m.other {
        seq![0i64]
    } else {
        Seq::empty()
    }) + (if m.character {
        seq![1i64]
    } else {
        Seq::empty()
    }) + (if m.mission_reward {
        seq![2i64]
    } else {
        Seq::empty()
    })
}

/// The query text a useful filter compiles to: a disjunction of `col = ?`
/// clauses for each set-valued leaf, independent comparisons for each present
/// range bound, and `NOT (...)` around a negated sub-filter.
pub open spec fn sql_of(f: FilterModel) -> Seq<char>
    decreases f,
{
    match f {
        FilterModel::UserId(ids) => "user_id = ?"@ + repeat_text(" OR user_id = ?"@, (ids.len()
            - 1) as nat),
        FilterModel::Type(m) => "type = ?"@ + repeat_text(" OR type = ?"@, (selected_count(m)
            - 1) as nat),
        FilterModel::DateRange(r) => match r.start {
            DateBound::Unbounded => end_sql(r.end),
            _ => start_sql(r.start) + " AND "@ + end_sql(r.end),
        },
        FilterModel::Id(ids) => "id = ?"@ + repeat_text(" OR id = ?"@, (ids.len() - 1) as nat),
        FilterModel::Not(g) => "NOT ("@ + sql_of(*g) + ")"@,
    }
}

/// The values a useful filter binds to its placeholders, in order.
pub open spec fn binds_of(f: FilterModel) -> Seq<i64>
    decreases f,
{
    match f {
        FilterModel::UserId(ids) => ids.map_values(|x: i32| x as i64),
        FilterModel::Type(m) => selected_reprs(m),
        FilterModel::DateRange(r) => bound_binds(r.start) + bound_binds(r.end),
        FilterModel::Id(ids) => ids.map_values(|x: i32| x as i64),
        FilterModel::Not(g) => binds_of(*g),
    }
}

proof fn lemma_sql_literals()
    ensures
        "user_id = "@ + "?"@ == "user_id = ?"@,
        " OR user_id = "@ + "?"@ == " OR user_id = ?"@,
        "id = "@ + "?"@ == "id = ?"@,
        " OR id = "@ + "?"@ == " OR id = ?"@,
        "type = "@ + "?"@ == "type = ?"@,
        " OR type = "@ + "?"@ == " OR type = ?"@,
        "datetime >= "@ + "?"@ == "datetime >= ?"@,
        "datetime > "@ + "?"@ == "datetime > ?"@,
        "datetime <= "@ + "?"@ == "datetime <= ?"@,
        "datetime < "@ + "?"@ == "datetime < ?"@,
{
    reveal_strlit("?");
    reveal_strlit("user_id = ");
    reveal_strlit("user_id = ?");
    reveal_strlit(" OR user_id = ");
    reveal_strlit(" OR user_id = ?");
    reveal_strlit("id = ");
    reveal_strlit("id = ?");
    reveal_strlit(" OR id = ");
    reveal_strlit(" OR id = ?");
    reveal_strlit("type = ");
    reveal_strlit("type = ?");
    reveal_strlit(" OR type = ");
    reveal_strlit(" OR type = ?");
    reveal_strlit("datetime >= ");
    reveal_strlit("datetime >= ?");
    reveal_strlit("datetime > ");
    reveal_strlit("datetime > ?");
    reveal_strlit("datetime <= ");
    reveal_strlit("datetime <= ?");
    reveal_strlit("datetime < ");
    reveal_strlit("datetime < ?");
    assert("user_id = "@ + "?"@ =~= "user_id = ?"@);
    assert(" OR user_id = "@ + "?"@ =~= " OR user_id = ?"@);
    assert("id = "@ + "?"@ =~= "id = ?"@);
    assert(" OR id = "@ + "?"@ =~= " OR id = ?"@);
    assert("type = "@ + "?"@ =~= "type = ?"@);
    assert(" OR type = "@ + "?"@ =~= " OR type = ?"@);
    assert("datetime >= "@ + "?"@ =~= "datetime >= ?"@);
    assert("datetime > "@ + "?"@ =~= "datetime > ?"@);
    assert("datetime <= "@ + "?"@ =~= "datetime <= ?"@);
    assert("datetime < "@ + "?"@ =~= "datetime < ?"@);
}

fn push_or_list(b: &mut QueryFragment, first_part: &str, more_part: &str, ids: &Vec<i32>)
    requires
        ids@.len() > 0,
    ensures
        final(b).sql@ == old(b).sql@ + (first_part@ + "?"@) + repeat_text(more_part@ + "?"@, (
        ids@.len() - 1) as nat),
        final(b).binds@ == old(b).binds@ + ids@.map_values(|x: i32| x as i64),
{
    b.push_sql(first_part);
    b.push_bind(ids[0] as i64);
    proof {
        assert(b.binds@ =~= old(b).binds@ + ids@.subrange(0, 1).map_values(|x: i32| x as i64));
        assert(b.sql@ =~= old(b).sql@ + (first_part@ + "?"@) + repeat_text(more_part@ + "?"@, 0));
    }
    let mut i: usize = 1;
    while i < ids.len()
        invariant
            1 <= i <= ids@.len(),
            b.sql@ == old(b).sql@ + (first_part@ + "?"@) + repeat_text(more_part@ + "?"@, (i
                - 1) as nat),
            b.binds@ == old(b).binds@ + ids@.subrange(0, i as int).map_values(|x: i32| x as i64),
        decreases ids@.len() - i,
    {
        b.push_sql(more_part);
        b.push_bind(ids[i] as i64);
        proof {
            assert(b.binds@ =~= old(b).binds@ + ids@.subrange(0, i + 1).map_values(
                |x: i32| x as i64));
            assert(b.sql@ =~= old(b).sql@ + (first_part@ + "?"@) + repeat_text(more_part@ + "?"@,
                i as nat));
        }
        i = i + 1;
    }
    proof {
        assert(ids@.subrange(0, ids@.len() as int) =~= ids@);
    }
}

impl TransactionFilter {
    /// Appends the filter's parameterized clause to the fragment. Only useful
    /// filters compile; vacuous ones must be dropped by the caller first.
    #[verifier::rlimit(60)]
    pub fn add_to_builder(&self, b: &mut QueryFragment)
        requires
            useful_model(self.model()),
        ensures
            final(b).sql@ == old(b).sql@ + sql_of(self.model()),
            final(b).binds@ == old(b).binds@ + binds_of(self.model()),
        decreases *self,
    {
        match self {
            TransactionFilter::UserId(ids) => {
                push_or_list(b, "user_id = ", " OR user_id = ", ids);
                proof {
                    lemma_sql_literals();
                    assert(b.sql@ =~= old(b).sql@ + sql_of(self.model()));
                }
            },
            TransactionFilter::Id(ids) => {
                push_or_list(b, "id = ", " OR id = ", ids);
                proof {
                    lemma_sql_literals();
                    assert(b.sql@ =~= old(b).sql@ + sql_of(self.model()));
                }
            },
            TransactionFilter::Type(m) => {
                let mut any = false;
                if m.other {
                    b.push_sql("type = ");
                    b.push_bind(0);
                    any = true;
                }
                if m.character {
                    if any {
                        b.push_sql(" OR type = ");
                    } else {
                        b.push_sql("type = ");
                    }
                    b.push_bind(1);
                    any = true;
                }
                if m.mission_reward {
                    if any {
                        b.push_sql(" OR type = ");
                    } else {
                        b.push_sql("type = ");
                    }
                    b.push_bind(2);
                    any = true;
                }
                proof {
                    lemma_sql_literals();
                    lemma_repeat_text_small(" OR type = ?"@);
                    assert(b.sql@ =~= old(b).sql@ + sql_of(self.model()));
                    assert(b.binds@ =~= old(b).binds@ + binds_of(self.model()));
                }
            },
            TransactionFilter::DateRange(r) => {
                match r.start {
                    DateBound::Included(s) => {
                        b.push_sql("datetime >= ");
                        b.push_bind(s);
                        b.push_sql(" AND ");
                    },
                    DateBound::Excluded(s) => {
                        b.push_sql("datetime > ");
                        b.push_bind(s);
                        b.push_sql(" AND ");
                    },
                    DateBound::Unbounded => {},
                }
                match r.end {
                    DateBound::Included(e) => {
                        b.push_sql("datetime <= ");
                        b.push_bind(e);
                    },
                    DateBound::Excluded(e) => {
                        b.push_sql("datetime < ");
                        b.push_bind(e);
                    },
                    DateBound::Unbounded => {
                        b.push_sql("1=1");
                    },
                }
                proof {
                    lemma_sql_literals();
                    assert(b.sql@ =~= old(b).sql@ + sql_of(self.model()));
                    assert(b.binds@ =~= old(b).binds@ + binds_of(self.model()));
                }
            },
            TransactionFilter::Not(g) => {
                b.push_sql("NOT (");
                g.add_to_builder(b);
                b.push_sql(")");
                proof {
                    assert(b.sql@ =~= old(b).sql@ + sql_of(self.model()));
                }
            },
        }
    }
}

proof fn lemma_repeat_text_small(part: Seq<char>)
    ensures
        repeat_text(part, 0) == Seq::<char>::empty(),
        repeat_text(part, 1) =~= part,
        repeat_text(part, 2) =~= part + part,
{
    assert(repeat_text(part, 1) =~= repeat_text(part, 0) + part);
    assert(repeat_text(part, 2) =~= repeat_text(part, 1) + part);
}

/// The mathematical shapes of a list of filters.
pub open spec fn models_of(fs: Seq<TransactionFilter>) -> Seq<FilterModel> {
    fs.map_values(|f: TransactionFilter| f.model())
}

/// The query text of a conjunction: each filter's clause in parentheses,
/// joined by `AND`.
pub open spec fn conj_sql(fs: Seq<FilterModel>) -> Seq<char>
    decreases fs.len(),
{
    if fs.len() == 0 {
        Seq::empty()
    } else if fs.len() == 1 {
        "("@ + sql_of(fs[0]) + ")"@
    } else {
        conj_sql(fs.drop_last()) + " AND ("@ + sql_of(fs.last()) + ")"@
    }
}

/// The bound values of a conjunction, in filter order.
pub open spec fn conj_binds(fs: Seq<FilterModel>) -> Seq<i64>
    decreases fs.len(),
{
    if fs.len() == 0 {
        Seq::empty()
    } else {
        conj_binds(fs.drop_last()) + binds_of(fs.last())
    }
}

/// Whether a transaction satisfies every filter of a list; an empty list
/// matches everything (a vacuous conjunction).
pub open spec fn matches_all(fs: Seq<FilterModel>, t: TransactionModel) -> bool {
    forall|i: int| 0 <= i < fs.len() ==> matches_model(fs[i], t)
}

/// Compiles the conjunction of a non-empty list of useful filters to one
/// parameterized fragment.
pub fn compile_conjunction(filters: &Vec<TransactionFilter>) -> (r: QueryFragment)
    requires
        filters@.len() > 0,
        forall|i: int| 0 <= i < filters@.len() ==> useful_model(#[trigger] filters@[i].model()),
    ensures
        r.sql@ == conj_sql(models_of(filters@)),
        r.binds@ == conj_binds(models_of(filters@)),
{
    let mut b = QueryFragment::new();
    b.push_sql("(");
    filters[0].add_to_builder(&mut b);
    b.push_sql(")");
    proof {
        let ms = models_of(filters@);
        assert(ms.subrange(0, 1).drop_last() =~= Seq::<FilterModel>::empty());
        assert(ms.subrange(0, 1).last() == ms[0]);
        assert(ms[0] == filters@[0].model());
        assert(conj_binds(Seq::<FilterModel>::empty()) =~= Seq::<i64>::empty());
        assert(b.sql@ =~= conj_sql(ms.subrange(0, 1)));
        assert(b.binds@ =~= conj_binds(ms.subrange(0, 1)));
    }
    let mut i: usize = 1;
    while i < filters.len()
        invariant
            1 <= i <= filters@.len(),
            forall|j: int| 0 <= j < filters@.len() ==> useful_model(
                #[trigger] filters@[j].model()),
            b.sql@ == conj_sql(models_of(filters@).subrange(0, i as int)),
            b.binds@ == conj_binds(models_of(filters@).subrange(0, i as int)),
        decreases filters@.len() - i,
    {
        b.push_sql(" AND (");
        filters[i].add_to_builder(&mut b);
        b.push_sql(")");
        proof {
            let ms = models_of(filters@);
            assert(ms.subrange(0, i + 1).drop_last() =~= ms.subrange(0, i as int));
            assert(ms.subrange(0, i + 1).last() == ms[i as int]);
            assert(b.sql@ =~= conj_sql(ms.subrange(0, i + 1)));
            assert(b.binds@ =~= conj_binds(ms.subrange(0, i + 1)));
        }
        i = i + 1;
    }
    proof {
        assert(models_of(filters@).subrange(0, filters@.len() as int) =~= models_of(filters@));
    }
    b
}

/// The useful filters of a list, in order.
pub open spec fn useful_only(fs: Seq<FilterModel>) -> Seq<FilterModel> {
    fs.filter(|f: FilterModel| useful_model(f))
}

proof fn lemma_useful_only_step(ms: Seq<FilterModel>, i: int)
    requires
        0 <= i < ms.len(),
    ensures
        useful_only(ms.subrange(0, i + 1)) == if useful_model(ms[i]) {
            useful_only(ms.subrange(0, i)).push(ms[i])
        } else {
            useful_only(ms.subrange(0, i))
        },
{
    reveal(Seq::filter);
    let whole = ms.subrange(0, i + 1);
    let prefix = ms.subrange(0, i);
    assert(whole.drop_last() =~= prefix);
    assert(whole.last() == ms[i]);
    if useful_model(ms[i]) {
        assert(useful_only(whole) =~= useful_only(prefix).push(ms[i]));
    } else {
        assert(useful_only(whole) =~= useful_only(prefix));
    }
}

/// Drops the vacuous filters of a list, keeping the useful ones in order.
pub fn keep_useful(filters: Vec<TransactionFilter>) -> (r: Vec<TransactionFilter>)
    ensures
        models_of(r@) == useful_only(models_of(filters@)),
        forall|i: int| 0 <= i < r@.len() ==> useful_model(#[trigger] r@[i].model()),
{
    let ghost ms = models_of(filters@);
    let mut r: Vec<TransactionFilter> = Vec::new();
    let mut i: usize = 0;
    proof {
        reveal(Seq::filter);
        assert(models_of(r@) =~= useful_only(ms.subrange(0, 0)));
    }
    while i < filters.len()
        invariant
            i <= filters@.len(),
            ms == models_of(filters@),
            models_of(r@) == useful_only(ms.subrange(0, i as int)),
            forall|k: int| 0 <= k < r@.len() ==> useful_model(#[trigger] r@[k].model()),
        decreases filters@.len() - i,
    {
        proof {
            lemma_useful_only_step(ms, i as int);
            assert(ms[i as int] == filters@[i as int].model());
        }
        if filters[i].is_useful() {
            let ghost before = r@;
            r.push(filters[i].clone());
            proof {
                assert(models_of(r@) =~= models_of(before).push(filters@[i as int].model()));
            }
        }
        i = i + 1;
    }
    proof {
        assert(ms.subrange(0, ms.len() as int) =~= ms);
    }
    r
}

/// A filter's set is never useful when empty, a fully unbounded range is never
/// useful, and `Not` is useful exactly when its sub-filter is.
pub proof fn lemma_usefulness(f: FilterModel)
    ensures
        !useful_model(FilterModel::UserId(Seq::empty())),
        !useful_model(FilterModel::DateRange(DateRange {
            start: DateBound::Unbounded,
            end: DateBound::Unbounded,
        })),
        useful_model(FilterModel::Not(Box::new(f))) <==> useful_model(f),
{
}

/// A type filter matches a transaction exactly when the transaction's type is
/// among the selected ones; in particular, selecting `Character` and
/// `MissionReward` matches exactly those two kinds.
pub proof fn lemma_type_filter_semantics(m: TransactionTypeMap<bool>, t: TransactionModel)
    ensures
        matches_model(FilterModel::Type(m), t) == m.spec_get(t.transaction_type),
        matches_model(FilterModel::Type(TransactionTypeMap {
            other: false,
            character: true,
            mission_reward: true,
        }), t) <==> (t.transaction_type == TransactionType::Character || t.transaction_type
            == TransactionType::MissionReward),
{
}

/// A non-useful filter never constrains anything a caller keeps: a fully
/// unbounded range matches every transaction, and an empty OR-set matches none.
pub proof fn lemma_vacuous_semantics(ids: Seq<i32>, t: TransactionModel)
    requires
        ids.len() == 0,
    ensures
        matches_model(FilterModel::DateRange(DateRange {
            start: DateBound::Unbounded,
            end: DateBound::Unbounded,
        }), t),
        !matches_model(FilterModel::UserId(ids), t),
{
}

} // verus!
