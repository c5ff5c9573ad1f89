use druid_core::diffable::apply_all;
use druid_core::diffable::ArcStrDiff;
use druid_core::diffable::BoolDiff;
use druid_core::diffable::Diffable;
use std::sync::Arc;

#[test]
fn bool_diff_sets_the_value() {
    let mut state = false;
    state.apply_diff(BoolDiff::SetTo(true));
    assert!(state);
}

#[test]
fn bool_diff_round_trip_from_either_start() {
    for start in [false, true] {
        let mut state = start;
        state.apply_diff(BoolDiff::SetTo(true));
        state.apply_diff(BoolDiff::SetTo(false));
        assert!(!state);
    }
}

#[test]
fn string_diff_replaces_the_value() {
    let mut state: Arc<str> = Arc::from("before");
    state.apply_diff(ArcStrDiff::SetTo(Arc::from("after")));
    assert_eq!(&*state, "after");
}

#[test]
fn apply_all_applies_in_order() {
    let mut state: Arc<str> = Arc::from("start");
    apply_all(
        &mut state,
        vec![
            ArcStrDiff::SetTo(Arc::from("one")),
            ArcStrDiff::SetTo(Arc::from("two")),
            ArcStrDiff::SetTo(Arc::from("three")),
        ],
    );
    assert_eq!(&*state, "three");
}

#[test]
fn apply_all_without_diffs_keeps_the_state() {
    let mut state = true;
    apply_all(&mut state, Vec::new());
    assert!(state);
}

/// A counter whose diff adds to it: applying a diff twice is not applying it once.
struct Counter(u32);

struct Add(u32);

impl Diffable for Counter {
    type Diff = Add;

    fn applied(self, diff: Add) -> Counter {
        Counter(self.0 + diff.0)
    }

    fn apply_diff(&mut self, diff: Add) {
        self.0 += diff.0;
    }
}

#[test]
fn a_diff_applied_twice_counts_twice() {
    let mut twice = Counter(1);
    apply_all(&mut twice, vec![Add(5), Add(5)]);
    let mut by_hand = Counter(1);
    by_hand.apply_diff(Add(5));
    by_hand.apply_diff(Add(5));
    assert_eq!(twice.0, 11);
    assert_eq!(twice.0, by_hand.0);
}
