use druid_core::contexts::EventCtx;
use druid_core::contexts::LayoutCtx;
use druid_core::contexts::LifeCycleCtx;
use druid_core::contexts::PaintCtx;
use druid_core::contexts::Requests;
use druid_core::contexts::UpdateCtx;
use druid_core::diffable::BoolDiff;
use druid_core::diffable::Diffable;
use druid_core::either::Either;
use druid_core::env::Env;
use druid_core::env::Value;
use druid_core::event::Event;
use druid_core::event::InternalLifeCycle;
use druid_core::event::KeyEvent;
use druid_core::event::LifeCycle;
use druid_core::event::Modifiers;
use druid_core::geometry::BoxConstraints;
use druid_core::widget::Widget;

/// A leaf that writes down the passes it gets.
struct Leaf {
    log: Vec<String>,
    size: kurbo::Size,
}

fn leaf(width: f64) -> Leaf {
    Leaf { log: Vec::new(), size: kurbo::Size::new(width, width) }
}

impl Widget<bool> for Leaf {
    fn event(&mut self, _ctx: &mut EventCtx, _event: &Event, _data: &bool, _env: &Env) {
        self.log.push("event".to_string());
    }

    fn lifecycle(&mut self, _ctx: &mut LifeCycleCtx, _event: &LifeCycle, _data: &bool, _env: &Env) {
        self.log.push("lifecycle".to_string());
    }

    fn update(&mut self, _ctx: &mut UpdateCtx, old_data: &bool, diff: &BoolDiff, _env: &Env) {
        let BoolDiff::SetTo(new) = diff;
        self.log.push(format!("update {} -> {}", old_data, new));
    }

    fn layout(&mut self, ctx: &mut LayoutCtx, _bc: &BoxConstraints, _data: &bool, _env: &Env) -> kurbo::Size {
        self.log.push("layout".to_string());
        ctx.set_paint_insets(Some(kurbo::Insets::uniform(self.size.width)));
        self.size
    }

    fn paint(&mut self, _ctx: &mut PaintCtx, _data: &bool, _env: &Env) {
        self.log.push("paint".to_string());
    }
}

/// The state after the diff, where there is one, and the state itself otherwise.
fn shows_true(data: &bool, diff: Option<&BoolDiff>, _env: &Env) -> bool {
    match diff {
        Some(BoolDiff::SetTo(new)) => *new,
        None => *data,
    }
}

fn key_down() -> Event {
    Event::KeyDown(KeyEvent { code: 1, mods: Modifiers { bits: 0 } })
}

#[test]
fn a_new_either_shows_the_false_branch() {
    let either = Either::new(shows_true, leaf(1.0), leaf(2.0));
    assert!(!either.current());
    assert!(either.true_branch().widget().log.is_empty());
    assert!(either.false_branch().widget().log.is_empty());
}

#[test]
fn widget_added_asks_the_predicate_without_a_diff() {
    let env = Env::new();
    let mut shown = Either::new(shows_true, leaf(1.0), leaf(2.0));
    shown.lifecycle(&mut LifeCycleCtx::new(), &LifeCycle::WidgetAdded, &true, &env);
    assert!(shown.current());
    let mut hidden = Either::new(shows_true, leaf(1.0), leaf(2.0));
    hidden.lifecycle(&mut LifeCycleCtx::new(), &LifeCycle::WidgetAdded, &false, &env);
    assert!(!hidden.current());
    assert_eq!(shown.true_branch().widget().log, vec!["lifecycle"]);
    assert_eq!(shown.false_branch().widget().log, vec!["lifecycle"]);
}

#[test]
fn other_lifecycle_notices_keep_the_branch() {
    let env = Env::new();
    let mut either = Either::new(shows_true, leaf(1.0), leaf(2.0));
    either.lifecycle(&mut LifeCycleCtx::new(), &LifeCycle::WidgetAdded, &true, &env);
    either.lifecycle(&mut LifeCycleCtx::new(), &LifeCycle::HotChanged(true), &false, &env);
    assert!(either.current());
    assert_eq!(either.true_branch().widget().log, vec!["lifecycle", "lifecycle"]);
    assert_eq!(either.false_branch().widget().log, vec!["lifecycle"]);
}

#[test]
fn focus_routing_reaches_the_hidden_branch() {
    let env = Env::new();
    let mut either = Either::new(shows_true, leaf(1.0), leaf(2.0));
    let notice = LifeCycle::Internal(InternalLifeCycle::RouteFocusChanged { old: None, new: None });
    either.lifecycle(&mut LifeCycleCtx::new(), &notice, &false, &env);
    assert_eq!(either.true_branch().widget().log, vec!["lifecycle"]);
    assert_eq!(either.false_branch().widget().log, vec!["lifecycle"]);
}

#[test]
fn the_shown_branch_follows_the_predicate_through_a_run_of_diffs() {
    let env = Env::new();
    let mut either = Either::new(shows_true, leaf(1.0), leaf(2.0));
    let mut data = false;
    either.lifecycle(&mut LifeCycleCtx::new(), &LifeCycle::WidgetAdded, &data, &env);
    for new in [true, true, false, true, false, false, true] {
        let diff = BoolDiff::SetTo(new);
        let mut ctx = UpdateCtx::new();
        either.update(&mut ctx, &data, &diff, &env);
        data.apply_diff(diff);
        assert_eq!(either.current(), shows_true(&data, None, &env));
        assert_eq!(either.current(), new);
    }
}

/// Lays out and paints the branch that is shown, so that it is due nothing.
fn settle(either: &mut Either<bool, fn(&bool, Option<&BoolDiff>, &Env) -> bool, Leaf, Leaf>, data: bool) {
    let env = Env::new();
    let bc = BoxConstraints::tight(kurbo::Size::new(10.0, 10.0));
    either.layout(&mut LayoutCtx::new(None), &bc, &data, &env);
    either.paint(&mut PaintCtx::new(), &data, &env);
}

#[test]
fn update_asks_for_layout_exactly_when_the_branch_changes() {
    let env = Env::new();
    let predicate: fn(&bool, Option<&BoolDiff>, &Env) -> bool = shows_true;
    let mut either = Either::new(predicate, leaf(1.0), leaf(2.0));
    settle(&mut either, false);

    let mut stays = UpdateCtx::new();
    either.update(&mut stays, &false, &BoolDiff::SetTo(false), &env);
    assert_eq!(stays.requests(), Requests { paint: false, layout: false });

    let mut switches = UpdateCtx::new();
    either.update(&mut switches, &false, &BoolDiff::SetTo(true), &env);
    assert!(switches.requests().layout);
    settle(&mut either, true);

    let mut stays_true = UpdateCtx::new();
    either.update(&mut stays_true, &true, &BoolDiff::SetTo(true), &env);
    assert_eq!(stays_true.requests(), Requests { paint: false, layout: false });

    let mut switches_back = UpdateCtx::new();
    either.update(&mut switches_back, &true, &BoolDiff::SetTo(false), &env);
    assert_eq!(switches_back.requests(), Requests { paint: false, layout: true });
}

#[test]
fn a_branch_that_was_never_laid_out_hands_up_what_it_is_due() {
    let env = Env::new();
    let mut either = Either::new(shows_true, leaf(1.0), leaf(2.0));
    let mut ctx = UpdateCtx::new();
    either.update(&mut ctx, &false, &BoolDiff::SetTo(false), &env);
    assert_eq!(ctx.requests(), Requests { paint: true, layout: true });
}

#[test]
fn the_diff_goes_to_the_branch_that_is_shown_after_the_switch() {
    let env = Env::new();
    let mut either = Either::new(shows_true, leaf(1.0), leaf(2.0));
    either.update(&mut UpdateCtx::new(), &false, &BoolDiff::SetTo(true), &env);
    assert_eq!(either.true_branch().widget().log, vec!["update false -> true"]);
    assert!(either.false_branch().widget().log.is_empty());
    either.update(&mut UpdateCtx::new(), &true, &BoolDiff::SetTo(false), &env);
    assert_eq!(either.true_branch().widget().log, vec!["update false -> true"]);
    assert_eq!(either.false_branch().widget().log, vec!["update true -> false"]);
}

#[test]
fn layout_and_paint_touch_the_shown_branch_only() {
    let env = Env::new();
    let mut either = Either::new(shows_true, leaf(1.0), leaf(2.0));
    let bc = BoxConstraints::new(kurbo::Size::ZERO, kurbo::Size::new(100.0, 100.0));

    let mut ctx = LayoutCtx::new(None);
    let size = either.layout(&mut ctx, &bc, &false, &env);
    either.paint(&mut PaintCtx::new(), &false, &env);
    assert_eq!(size, kurbo::Size::new(2.0, 2.0));
    assert!(either.true_branch().widget().log.is_empty());
    assert_eq!(either.true_branch().size(), None);
    assert_eq!(either.false_branch().widget().log, vec!["layout", "paint"]);

    either.update(&mut UpdateCtx::new(), &false, &BoolDiff::SetTo(true), &env);
    let size = either.layout(&mut ctx, &bc, &true, &env);
    either.paint(&mut PaintCtx::new(), &true, &env);
    assert_eq!(size, kurbo::Size::new(1.0, 1.0));
    assert_eq!(either.true_branch().widget().log, vec!["update false -> true", "layout", "paint"]);
    assert_eq!(either.false_branch().widget().log, vec!["layout", "paint"]);
}

#[test]
fn layout_places_the_shown_branch_at_the_origin_and_hands_on_its_insets() {
    let env = Env::new();
    let mut either = Either::new(shows_true, leaf(1.0), leaf(2.0));
    let bc = BoxConstraints::tight(kurbo::Size::new(10.0, 10.0));
    let mut ctx = LayoutCtx::new(None);
    either.layout(&mut ctx, &bc, &false, &env);
    assert_eq!(either.false_branch().origin(), Some(kurbo::Point::ORIGIN));
    assert_eq!(either.false_branch().origin(), Some(kurbo::Point::new(0.0, 0.0)));
    assert_eq!(either.false_branch().size(), Some(kurbo::Size::new(2.0, 2.0)));
    assert_eq!(either.true_branch().origin(), None);
    assert_eq!(ctx.paint_insets(), Some(kurbo::Insets::uniform(2.0)));
}

#[test]
fn input_events_go_to_the_shown_branch_only() {
    let env = Env::new();
    let mut either = Either::new(shows_true, leaf(1.0), leaf(2.0));
    either.event(&mut EventCtx::new(None), &key_down(), &false, &env);
    assert!(either.true_branch().widget().log.is_empty());
    assert_eq!(either.false_branch().widget().log, vec!["event"]);
    either.update(&mut UpdateCtx::new(), &false, &BoolDiff::SetTo(true), &env);
    either.event(&mut EventCtx::new(None), &key_down(), &true, &env);
    assert_eq!(either.true_branch().widget().log, vec!["update false -> true", "event"]);
    assert_eq!(either.false_branch().widget().log, vec!["event"]);
}

#[test]
fn events_for_everyone_go_to_both_branches() {
    let env = Env::new();
    let mut either = Either::new(shows_true, leaf(1.0), leaf(2.0));
    either.event(&mut EventCtx::new(None), &Event::WindowConnected, &false, &env);
    assert_eq!(either.true_branch().widget().log, vec!["event"]);
    assert_eq!(either.false_branch().widget().log, vec!["event"]);
    assert!(!either.current());
}

#[test]
fn the_predicate_may_read_the_environment() {
    let by_env = |_data: &bool, _diff: Option<&BoolDiff>, env: &Env| env.get(1) == Some(Value::Bool(true));
    let mut either = Either::new(by_env, leaf(1.0), leaf(2.0));
    let mut env = Env::new();
    either.update(&mut UpdateCtx::new(), &false, &BoolDiff::SetTo(false), &env);
    assert!(!either.current());
    env.set(1, Value::Bool(true));
    either.update(&mut UpdateCtx::new(), &false, &BoolDiff::SetTo(false), &env);
    assert!(either.current());
}
