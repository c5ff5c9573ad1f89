use druid_core::contexts::EventCtx;
use druid_core::contexts::LayoutCtx;
use druid_core::contexts::LifeCycleCtx;
use druid_core::contexts::PaintCtx;
use druid_core::contexts::UpdateCtx;
use druid_core::diffable::BoolDiff;
use druid_core::env::Env;
use druid_core::env::Value;
use druid_core::env_scope::EnvScope;
use druid_core::event::Event;
use druid_core::event::LifeCycle;
use druid_core::geometry::BoxConstraints;
use druid_core::widget::Widget;
use druid_core::widget_pod::WidgetPod;

const COLOUR: u64 = 1;
const SEEN_DIFF: u64 = 2;

/// A leaf that writes down, pass by pass, what it finds in the environment.
struct Leaf {
    seen: Vec<(&'static str, Option<Value>, Option<Value>)>,
}

impl Leaf {
    fn note(&mut self, pass: &'static str, env: &Env) {
        self.seen.push((pass, env.get(COLOUR), env.get(SEEN_DIFF)));
    }
}

impl Widget<bool> for Leaf {
    fn event(&mut self, _ctx: &mut EventCtx, _event: &Event, _data: &bool, env: &Env) {
        self.note("event", env);
    }

    fn lifecycle(&mut self, _ctx: &mut LifeCycleCtx, _event: &LifeCycle, _data: &bool, env: &Env) {
        self.note("lifecycle", env);
    }

    fn update(&mut self, _ctx: &mut UpdateCtx, _old_data: &bool, _diff: &BoolDiff, env: &Env) {
        self.note("update", env);
    }

    fn layout(&mut self, _ctx: &mut LayoutCtx, bc: &BoxConstraints, _data: &bool, env: &Env) -> kurbo::Size {
        self.note("layout", env);
        bc.max()
    }

    fn paint(&mut self, _ctx: &mut PaintCtx, _data: &bool, env: &Env) {
        self.note("paint", env);
    }
}

/// Sets the colour to white, and notes in the environment which diff is under way.
fn white(mut env: Env, _data: &bool, diff: Option<&BoolDiff>) -> Env {
    env.set(COLOUR, Value::UnsignedInt(0xffffffff));
    if let Some(BoolDiff::SetTo(new)) = diff {
        env.set(SEEN_DIFF, Value::Bool(*new));
    }
    env
}

fn ambient() -> Env {
    let mut env = Env::new();
    env.set(COLOUR, Value::UnsignedInt(0x000000ff));
    env
}

#[test]
fn the_child_sees_the_derived_environment_in_every_pass() {
    let env = ambient();
    let mut scope = EnvScope::new(white, Leaf { seen: Vec::new() });
    let bc = BoxConstraints::tight(kurbo::Size::new(4.0, 4.0));
    scope.event(&mut EventCtx::new(None), &Event::WindowConnected, &true, &env);
    scope.lifecycle(&mut LifeCycleCtx::new(), &LifeCycle::WidgetAdded, &true, &env);
    scope.update(&mut UpdateCtx::new(), &true, &BoolDiff::SetTo(false), &env);
    let size = scope.layout(&mut LayoutCtx::new(None), &bc, &false, &env);
    scope.paint(&mut PaintCtx::new(), &false, &env);
    let white_value = Some(Value::UnsignedInt(0xffffffff));
    assert_eq!(
        scope.child().widget().seen,
        vec![
            ("event", white_value, None),
            ("lifecycle", white_value, None),
            ("update", white_value, Some(Value::Bool(false))),
            ("layout", white_value, None),
            ("paint", white_value, None),
        ]
    );
    assert_eq!(size, kurbo::Size::new(4.0, 4.0));
}

#[test]
fn the_ambient_environment_is_as_it_was_after_the_pass() {
    let env = ambient();
    let mut scope = EnvScope::new(white, Leaf { seen: Vec::new() });
    scope.update(&mut UpdateCtx::new(), &true, &BoolDiff::SetTo(false), &env);
    scope.event(&mut EventCtx::new(None), &Event::WindowConnected, &true, &env);
    assert_eq!(env.get(COLOUR), Some(Value::UnsignedInt(0x000000ff)));
    assert_eq!(env.get(SEEN_DIFF), None);
    assert_eq!(env.len(), 1);
}

#[test]
fn a_sibling_does_not_see_what_the_scope_has_set() {
    let env = ambient();
    let mut scope = EnvScope::new(white, Leaf { seen: Vec::new() });
    let mut sibling = WidgetPod::new(Leaf { seen: Vec::new() });
    let mut ctx = UpdateCtx::new();
    scope.update(&mut ctx, &true, &BoolDiff::SetTo(true), &env);
    sibling.update(&mut ctx, &true, &BoolDiff::SetTo(true), &env);
    assert_eq!(
        scope.child().widget().seen,
        vec![("update", Some(Value::UnsignedInt(0xffffffff)), Some(Value::Bool(true)))]
    );
    assert_eq!(sibling.widget().seen, vec![("update", Some(Value::UnsignedInt(0x000000ff)), None)]);
}

#[test]
fn every_pass_derives_anew_from_the_ambient_environment() {
    let mut scope = EnvScope::new(white, Leaf { seen: Vec::new() });
    scope.update(&mut UpdateCtx::new(), &true, &BoolDiff::SetTo(true), &ambient());
    scope.event(&mut EventCtx::new(None), &Event::WindowConnected, &true, &Env::new());
    assert_eq!(
        scope.child().widget().seen,
        vec![
            ("update", Some(Value::UnsignedInt(0xffffffff)), Some(Value::Bool(true))),
            ("event", Some(Value::UnsignedInt(0xffffffff)), None),
        ]
    );
}

#[test]
fn derive_gives_the_childs_environment() {
    let env = ambient();
    let scope = EnvScope::new(white, Leaf { seen: Vec::new() });
    let derived = scope.derive(&env, &true, Some(&BoolDiff::SetTo(true)));
    assert_eq!(derived.get(COLOUR), Some(Value::UnsignedInt(0xffffffff)));
    assert_eq!(derived.get(SEEN_DIFF), Some(Value::Bool(true)));
    assert_eq!(env.get(COLOUR), Some(Value::UnsignedInt(0x000000ff)));
}

#[test]
fn layout_places_the_child_at_the_origin() {
    let env = ambient();
    let mut scope = EnvScope::new(white, Leaf { seen: Vec::new() });
    let bc = BoxConstraints::tight(kurbo::Size::new(4.0, 5.0));
    scope.layout(&mut LayoutCtx::new(None), &bc, &true, &env);
    assert_eq!(scope.child().origin(), Some(kurbo::Point::ORIGIN));
    assert_eq!(scope.child().size(), Some(kurbo::Size::new(4.0, 5.0)));
}

#[test]
fn scopes_nest_from_the_outside_in() {
    let outer = |mut env: Env, _data: &bool, _diff: Option<&BoolDiff>| {
        env.set(COLOUR, Value::UnsignedInt(1));
        env.set(SEEN_DIFF, Value::Bool(true));
        env
    };
    let inner = |mut env: Env, _data: &bool, _diff: Option<&BoolDiff>| {
        env.set(COLOUR, Value::UnsignedInt(2));
        env
    };
    let mut scope = EnvScope::new(outer, EnvScope::new(inner, Leaf { seen: Vec::new() }));
    scope.event(&mut EventCtx::new(None), &Event::WindowConnected, &true, &Env::new());
    assert_eq!(
        scope.child().widget().child().widget().seen,
        vec![("event", Some(Value::UnsignedInt(2)), Some(Value::Bool(true)))]
    );
}
