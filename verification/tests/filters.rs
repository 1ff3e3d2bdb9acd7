//! Tests for the filter tree: usefulness, matching, the query compiler and the
//! textual descriptions.

use mantra::decimal::{i32_to_string, i64_to_string};
use mantra::filter::{compile_conjunction, keep_useful, DateBound, DateRange, QueryFragment,
    TransactionFilter};
use mantra::ledger::Ledger;
use mantra::storage::{TransactionType, TransactionTypeMap};

fn type_set(other: bool, character: bool, mission_reward: bool) -> TransactionFilter {
    TransactionFilter::Type(TransactionTypeMap::build(other, character, mission_reward))
}

#[test]
fn empty_user_id_set_is_not_useful() {
    assert!(!TransactionFilter::UserId(vec![]).is_useful());
    assert!(TransactionFilter::UserId(vec![3]).is_useful());
}

#[test]
fn empty_id_set_is_not_useful() {
    assert!(!TransactionFilter::Id(vec![]).is_useful());
    assert!(TransactionFilter::Id(vec![1, 2]).is_useful());
}

#[test]
fn fully_unbounded_range_is_not_useful() {
    let vacuous = TransactionFilter::DateRange(DateRange {
        start: DateBound::Unbounded,
        end: DateBound::Unbounded,
    });
    assert!(!vacuous.is_useful());
    let half = TransactionFilter::DateRange(DateRange {
        start: DateBound::Included(0),
        end: DateBound::Unbounded,
    });
    assert!(half.is_useful());
}

#[test]
fn empty_type_set_is_not_useful() {
    assert!(!type_set(false, false, false).is_useful());
    assert!(type_set(false, true, false).is_useful());
}

#[test]
fn not_is_useful_iff_inner_is() {
    let inner = TransactionFilter::UserId(vec![]);
    assert!(!TransactionFilter::Not(Box::new(inner)).is_useful());
    let inner = TransactionFilter::UserId(vec![1]);
    assert!(TransactionFilter::Not(Box::new(inner)).is_useful());
}

#[test]
fn get_useful_drops_vacuous_filters() {
    assert!(TransactionFilter::UserId(vec![]).get_useful().is_none());
    assert!(TransactionFilter::UserId(vec![5]).get_useful().is_some());
}

#[test]
fn keep_useful_filters_a_list() {
    let kept = keep_useful(vec![
        TransactionFilter::UserId(vec![]),
        TransactionFilter::UserId(vec![1]),
        type_set(false, false, false),
        type_set(true, false, false),
    ]);
    assert_eq!(kept.len(), 2);
    assert!(kept.iter().all(|f| f.is_useful()));
}

#[test]
fn compile_user_id_disjunction() {
    let mut b = QueryFragment::new();
    TransactionFilter::UserId(vec![1, 2, 3]).add_to_builder(&mut b);
    assert_eq!(b.sql, "user_id = ? OR user_id = ? OR user_id = ?");
    assert_eq!(b.binds, vec![1, 2, 3]);
}

#[test]
fn compile_single_id() {
    let mut b = QueryFragment::new();
    TransactionFilter::Id(vec![42]).add_to_builder(&mut b);
    assert_eq!(b.sql, "id = ?");
    assert_eq!(b.binds, vec![42]);
}

#[test]
fn compile_two_kind_type_filter() {
    let mut b = QueryFragment::new();
    type_set(false, true, true).add_to_builder(&mut b);
    assert_eq!(b.sql, "type = ? OR type = ?");
    assert_eq!(b.binds, vec![1, 2]);
}

#[test]
fn compile_date_range_bounds() {
    let mut b = QueryFragment::new();
    TransactionFilter::DateRange(DateRange {
        start: DateBound::Included(10),
        end: DateBound::Excluded(99),
    })
    .add_to_builder(&mut b);
    assert_eq!(b.sql, "datetime >= ? AND datetime < ?");
    assert_eq!(b.binds, vec![10, 99]);

    let mut b = QueryFragment::new();
    TransactionFilter::DateRange(DateRange {
        start: DateBound::Unbounded,
        end: DateBound::Included(7),
    })
    .add_to_builder(&mut b);
    assert_eq!(b.sql, "datetime <= ?");
    assert_eq!(b.binds, vec![7]);

    let mut b = QueryFragment::new();
    TransactionFilter::DateRange(DateRange {
        start: DateBound::Excluded(3),
        end: DateBound::Unbounded,
    })
    .add_to_builder(&mut b);
    assert_eq!(b.sql, "datetime > ? AND 1=1");
    assert_eq!(b.binds, vec![3]);
}

#[test]
fn compile_negation_wraps_in_not() {
    let mut b = QueryFragment::new();
    TransactionFilter::Not(Box::new(type_set(true, false, false))).add_to_builder(&mut b);
    assert_eq!(b.sql, "NOT (type = ?)");
    assert_eq!(b.binds, vec![0]);
}

#[test]
fn compile_conjunction_joins_with_and() {
    let frag = compile_conjunction(&vec![
        TransactionFilter::UserId(vec![7]),
        type_set(false, true, false),
    ]);
    assert_eq!(frag.sql, "(user_id = ?) AND (type = ?)");
    assert_eq!(frag.binds, vec![7, 1]);
}

#[test]
fn matches_respects_each_leaf() {
    let mut ledger = Ledger::new();
    ledger.create_user("ann").unwrap();
    let ann = ledger.get_user("ann").unwrap();
    ledger.add_transaction(ann.get_id(), 10, TransactionType::Other, "o", 100).unwrap();
    ledger.add_transaction(ann.get_id(), 20, TransactionType::Character, "c", 200).unwrap();
    ledger.add_transaction(ann.get_id(), 30, TransactionType::MissionReward, "m", 300).unwrap();
    let all = ledger.get_transactions(&vec![]);
    assert_eq!(all.len(), 3);

    let range = TransactionFilter::DateRange(DateRange {
        start: DateBound::Excluded(100),
        end: DateBound::Included(300),
    });
    assert!(!range.matches(&all[0]));
    assert!(range.matches(&all[1]));
    assert!(range.matches(&all[2]));

    let not_char = TransactionFilter::Not(Box::new(type_set(false, true, false)));
    assert!(not_char.matches(&all[0]));
    assert!(!not_char.matches(&all[1]));
}

#[test]
fn two_kind_filter_matches_exactly_those_kinds() {
    // A dataset covering all three kinds: the Character/MissionReward filter
    // keeps exactly those two.
    let mut ledger = Ledger::new();
    ledger.create_user("bo").unwrap();
    let bo = ledger.get_user("bo").unwrap();
    for (value, kind) in [
        (1, TransactionType::Other),
        (2, TransactionType::Character),
        (3, TransactionType::MissionReward),
        (4, TransactionType::Other),
        (5, TransactionType::Character),
    ] {
        ledger.add_transaction(bo.get_id(), value, kind, "", 0).unwrap();
    }
    let rows = ledger.get_transactions(&vec![type_set(false, true, true)]);
    let values: Vec<i32> = rows.iter().map(|t| t.value).collect();
    assert_eq!(values, vec![2, 3, 5]);
    assert!(rows.iter().all(|t| !matches!(t.transaction_type, TransactionType::Other)));
}

#[test]
fn describe_user_id_cells() {
    let (head, value) = TransactionFilter::UserId(vec![1, 2]).describe_cells();
    assert_eq!(head, "user id must be");
    assert_eq!(value, "1 or 2");
}

#[test]
fn describe_negated_type_cells() {
    let f = TransactionFilter::Not(Box::new(type_set(false, true, true)));
    let (head, value) = f.describe_cells();
    assert_eq!(head, "transaction type must not be");
    assert_eq!(value, "Character or MissionReward");
}

#[test]
fn describe_double_negation_stacks_nots() {
    let f = TransactionFilter::Not(Box::new(TransactionFilter::Not(Box::new(
        TransactionFilter::Id(vec![9]),
    ))));
    let (head, value) = f.describe_cells();
    assert_eq!(head, "transaction id must not not be");
    assert_eq!(value, "9");
}

#[test]
fn describe_date_range_cells() {
    let f = TransactionFilter::DateRange(DateRange {
        start: DateBound::Included(0),
        end: DateBound::Excluded(100),
    });
    let (head, value) = f.describe_cells();
    assert_eq!(head, "date must be within");
    assert_eq!(value, "[0-100)");

    let f = TransactionFilter::DateRange(DateRange {
        start: DateBound::Unbounded,
        end: DateBound::Included(-5),
    });
    let (_, value) = f.describe_cells();
    assert_eq!(value, "(--5]");
}

#[test]
fn decimal_rendering_is_exact() {
    assert_eq!(i32_to_string(0), "0");
    assert_eq!(i32_to_string(-5), "-5");
    assert_eq!(i32_to_string(2147483647), "2147483647");
    assert_eq!(i32_to_string(-2147483648), "-2147483648");
    assert_eq!(i64_to_string(9007199254740993), "9007199254740993");
    assert_eq!(i64_to_string(i64::MIN), "-9223372036854775808");
}

#[test]
fn transaction_type_cycles_both_ways() {
    assert!(matches!(TransactionType::Other.next(), TransactionType::Character));
    assert!(matches!(TransactionType::Character.next(), TransactionType::MissionReward));
    assert!(matches!(TransactionType::MissionReward.next(), TransactionType::Other));
    assert!(matches!(TransactionType::Other.prev(), TransactionType::MissionReward));
    assert!(matches!(TransactionType::MissionReward.prev(), TransactionType::Character));
    for t in [TransactionType::Other, TransactionType::Character, TransactionType::MissionReward] {
        assert_eq!(t.next().prev().repr(), t.repr());
    }
}

#[test]
fn transaction_type_repr_round_trip() {
    for t in [TransactionType::Other, TransactionType::Character, TransactionType::MissionReward] {
        assert_eq!(TransactionType::try_from_repr(t.repr()).unwrap().repr(), t.repr());
    }
    let err = TransactionType::try_from_repr(9).unwrap_err();
    assert_eq!(err.value, 9);
    assert_eq!(err.message(), "Missing variant for: 9");
}

#[test]
fn type_map_accessors() {
    let mut m = TransactionTypeMap::build(1, 2, 3);
    assert_eq!(*m.get(TransactionType::Character), 2);
    m.set(TransactionType::Character, 9);
    assert_eq!(*m.get(TransactionType::Character), 9);
    let vals: Vec<i32> = m.values().into_iter().copied().collect();
    assert_eq!(vals, vec![1, 9, 3]);
    let pairs = m.kv_pairs();
    assert_eq!(pairs.len(), 3);
    assert!(matches!(pairs[0].0, TransactionType::Other));
    assert_eq!(*pairs[2].1, 3);
}
