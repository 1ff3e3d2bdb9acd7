//! Textual description of filters, as the filter list shows them: a head cell
//! ("user id must be", with one "not" per negation) and a value cell (the
//! allowed values joined by "or", or the date range in interval notation).

use vstd::prelude::*;
use vstd::string::StringExecFns;
use crate::decimal::{dec_str_int, push_dec_i64};
use crate::filter::{repeat_text, DateBound, DateRange, FilterModel, TransactionFilter};
use crate::storage::TransactionTypeMap;

verus! {

/// `parts` joined by `sep`.
pub open spec fn joined(parts: Seq<Seq<char>>, sep: Seq<char>) -> Seq<char>
    decreases parts.len(),
{
    if parts.len() == 0 {
        Seq::empty()
    } else if parts.len() == 1 {
        parts[0]
    } else {
        joined(parts.drop_last(), sep) + sep + parts.last()
    }
}

/// "must ", with one "not " per negation around the filter.
pub open spec fn must_phrase(nots: nat) -> Seq<char> {
    "must "@ + repeat_text("not "@, nots)
}

/// The head cell of a filter: which attribute is constrained and whether the
/// constraint is negated. (Negations deeper than the machine can count keep
/// the count saturated.)
pub open spec fn head_text(f: FilterModel, nots: nat) -> Seq<char>
    decreases f,
{
    match f {
        FilterModel::UserId(_) => "user id "@ + must_phrase(nots) + "be"@,
        FilterModel::Type(_) => "transaction type "@ + must_phrase(nots) + "be"@,
        FilterModel::DateRange(_) => "date "@ + must_phrase(nots) + "be within"@,
        FilterModel::Id(_) => "transaction id "@ + must_phrase(nots) + "be"@,
        FilterModel::Not(g) => head_text(*g, if nots < usize::MAX {
            nots + 1
        } else {
            nots
        }),
    }
}

/// The decimal texts of a list of identifiers.
pub open spec fn dec_texts(ids: Seq<i32>) -> Seq<Seq<char>> {
    ids.map_values(|x: i32| dec_str_int(x as int))
}

/// The names of the selected transaction types, in enumeration order.
pub open spec fn selected_names(m: TransactionTypeMap<bool>) -> Seq<Seq<char>> {
    (if m.other {
        seq!["Other"@]
    } else {
        Seq::empty()
    }) + (if m.character {
        seq!["Character"@]
    } else {
        Seq::empty()
    }) + (if m.mission_reward {
        seq!["MissionReward"@]
    } else {
        Seq::empty()
    })
}

/// The opening of a range in interval notation: `[` closed, `(` open or absent.
pub open spec fn bound_open_text(b: DateBound) -> Seq<char> {
    match b {
        DateBound::Included(t) => "["@ + dec_str_int(t as int),
        DateBound::Excluded(t) => "("@ + dec_str_int(t as int),
        DateBound::Unbounded => "("@,
    }
}

/// The closing of a range in interval notation: `]` closed, `)` open or absent.
pub open spec fn bound_close_text(b: DateBound) -> Seq<char> {
    match b {
        DateBound::Included(t) => dec_str_int(t as int) + "]"@,
        DateBound::Excluded(t) => dec_str_int(t as int) + ")"@,
        DateBound::Unbounded => ")"@,
    }
}

/// A date range in interval notation, the two bounds separated by a dash.
pub open spec fn range_text(r: DateRange) -> Seq<char> {
    bound_open_text(r.start) + "-"@ + bound_close_text(r.end)
}

/// The value cell of a filter: its allowed values, negation stripped.
pub open spec fn value_text(f: FilterModel) -> Seq<char>
    decreases f,
{
    match f {
        FilterModel::UserId(ids) => joined(dec_texts(ids), " or "@),
        FilterModel::Type(m) => joined(selected_names(m), " or "@),
        FilterModel::DateRange(r) => range_text(r),
        FilterModel::Id(ids) => joined(dec_texts(ids), " or "@),
        FilterModel::Not(g) => value_text(*g),
    }
}

fn push_must(out: &mut String, nots: usize)
    ensures
        final(out)@ == old(out)@ + must_phrase(nots as nat),
{
    out.append("must ");
    let mut i: usize = 0;
    while i < nots
        invariant
            i <= nots,
            out@ == old(out)@ + "must "@ + repeat_text("not "@, i as nat),
        decreases nots - i,
    {
        out.append("not ");
        i = i + 1;
    }
}

fn push_head(f: &TransactionFilter, out: &mut String, nots: usize)
    ensures
        final(out)@ == old(out)@ + head_text(f.model(), nots as nat),
    decreases *f,
{
    match f {
        TransactionFilter::UserId(_) => {
            out.append("user id ");
            push_must(out, nots);
            out.append("be");
        },
        TransactionFilter::Type(_) => {
            out.append("transaction type ");
            push_must(out, nots);
            out.append("be");
        },
        TransactionFilter::DateRange(_) => {
            out.append("date ");
            push_must(out, nots);
            out.append("be within");
        },
        TransactionFilter::Id(_) => {
            out.append("transaction id ");
            push_must(out, nots);
            out.append("be");
        },
        TransactionFilter::Not(g) => {
            let deeper: usize = if nots < usize::MAX {
                nots + 1
            } else {
                nots
            };
            push_head(g, out, deeper);
        },
    }
}

fn push_joined_dec(out: &mut String, ids: &Vec<i32>)
    ensures
        final(out)@ == old(out)@ + joined(dec_texts(ids@), " or "@),
{
    let mut i: usize = 0;
    while i < ids.len()
        invariant
            i <= ids@.len(),
            out@ == old(out)@ + joined(dec_texts(ids@.subrange(0, i as int)), " or "@),
        decreases ids@.len() - i,
    {
        if i > 0 {
            out.append(" or ");
        }
        push_dec_i64(out, ids[i] as i64);
        proof {
            let pre = dec_texts(ids@.subrange(0, i as int));
            let cur = dec_texts(ids@.subrange(0, i + 1));
            assert(cur.drop_last() =~= pre);
            assert(cur.last() == dec_str_int(ids@[i as int] as int));
            assert(out@ =~= old(out)@ + joined(cur, " or "@));
        }
        i = i + 1;
    }
    proof {
        assert(ids@.subrange(0, ids@.len() as int) =~= ids@);
    }
}

proof fn lemma_joined_small(a: Seq<char>, b: Seq<char>, c: Seq<char>, sep: Seq<char>)
    ensures
        joined(seq![a], sep) == a,
        joined(seq![a, b], sep) == a + sep + b,
        joined(seq![a, b, c], sep) == a + sep + b + sep + c,
{
    let s1 = seq![a];
    let s2 = seq![a, b];
    let s3 = seq![a, b, c];
    assert(joined(s1, sep) == s1[0]);
    assert(s2.drop_last() =~= s1);
    assert(s2.last() == b);
    assert(joined(s2, sep) == joined(s2.drop_last(), sep) + sep + s2.last());
    assert(s3.drop_last() =~= s2);
    assert(s3.last() == c);
    assert(joined(s3, sep) == joined(s3.drop_last(), sep) + sep + s3.last());
}

fn push_type_names(out: &mut String, m: &TransactionTypeMap<bool>)
    ensures
        final(out)@ == old(out)@ + joined(selected_names(*m), " or "@),
{
    let mut any = false;
    if m.other {
        out.append("Other");
        any = true;
    }
    if m.character {
        if any {
            out.append(" or ");
        }
        out.append("Character");
        any = true;
    }
    if m.mission_reward {
        if any {
            out.append(" or ");
        }
        out.append("MissionReward");
        any = true;
    }
    proof {
        let names = selected_names(*m);
        let o = "Other"@;
        let ch = "Character"@;
        let mr = "MissionReward"@;
        let sep = " or "@;
        lemma_joined_small(o, ch, mr, sep);
        lemma_joined_small(o, mr, mr, sep);
        lemma_joined_small(ch, mr, mr, sep);
        if m.other && m.character && m.mission_reward {
            assert(names =~= seq![o, ch, mr]);
        } else if m.other && m.character {
            assert(names =~= seq![o, ch]);
        } else if m.other && m.mission_reward {
            assert(names =~= seq![o, mr]);
        } else if m.character && m.mission_reward {
            assert(names =~= seq![ch, mr]);
        } else if m.other {
            assert(names =~= seq![o]);
        } else if m.character {
            assert(names =~= seq![ch]);
        } else if m.mission_reward {
            assert(names =~= seq![mr]);
        } else {
            assert(names =~= Seq::<Seq<char>>::empty());
            assert(joined(names, sep) == Seq::<char>::empty());
        }
        assert(out@ =~= old(out)@ + joined(names, sep));
    }
}

fn push_range(out: &mut String, r: &DateRange)
    ensures
        final(out)@ == old(out)@ + range_text(*r),
{
    match r.start {
        DateBound::Included(t) => {
            out.append("[");
            push_dec_i64(out, t);
        },
        DateBound::Excluded(t) => {
            out.append("(");
            push_dec_i64(out, t);
        },
        DateBound::Unbounded => {
            out.append("(");
        },
    }
    out.append("-");
    match r.end {
        DateBound::Included(t) => {
            push_dec_i64(out, t);
            out.append("]");
        },
        DateBound::Excluded(t) => {
            push_dec_i64(out, t);
            out.append(")");
        },
        DateBound::Unbounded => {
            out.append(")");
        },
    }
    proof {
        assert(out@ =~= old(out)@ + range_text(*r));
    }
}

fn push_value(f: &TransactionFilter, out: &mut String)
    ensures
        final(out)@ == old(out)@ + value_text(f.model()),
    decreases *f,
{
    match f {
        TransactionFilter::UserId(ids) => push_joined_dec(out, ids),
        TransactionFilter::Type(m) => push_type_names(out, m),
        TransactionFilter::DateRange(r) => push_range(out, r),
        TransactionFilter::Id(ids) => push_joined_dec(out, ids),
        TransactionFilter::Not(g) => push_value(g, out),
    }
}

impl TransactionFilter {
    /// The two display cells of the filter: the constrained attribute with its
    /// negations, and the allowed values.
    pub fn describe_cells(&self) -> (r: (String, String))
        ensures
            r.0@ == head_text(self.model(), 0),
            r.1@ == value_text(self.model()),
    {
        let mut head = String::new();
        push_head(self, &mut head, 0);
        let mut value = String::new();
        push_value(self, &mut value);
        proof {
            assert(head@ =~= head_text(self.model(), 0));
            assert(value@ =~= value_text(self.model()));
        }
        (head, value)
    }
}

} // verus!
