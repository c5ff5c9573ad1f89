use druid_core::backend::dnd as backend;
use druid_core::backend::dnd::ClipboardFormat;
use druid_core::contexts::EventCtx;
use druid_core::contexts::LayoutCtx;
use druid_core::contexts::LifeCycleCtx;
use druid_core::contexts::PaintCtx;
use druid_core::contexts::PaintOp;
use druid_core::contexts::UpdateCtx;
use druid_core::diffable::ArcStrDiff;
use druid_core::diffable::Diffable;
use druid_core::dnd::DropAction;
use druid_core::dnd::DropContext;
use druid_core::either::Either;
use druid_core::env::Env;
use druid_core::env::Value;
use druid_core::env_scope::EnvScope;
use druid_core::event::Event;
use druid_core::event::LifeCycle;
use druid_core::geometry::BoxConstraints;
use druid_core::widget::Widget;
use druid_core::widget_pod::WidgetPod;
use std::sync::Arc;

const THEME: u64 = 1;

/// A leaf that paints with the colour that it finds in the environment and
/// accepts files that are dragged over it.
struct Swatch {
    dropped: Option<Vec<String>>,
}

impl Widget<Arc<str>> for Swatch {
    fn event(&mut self, ctx: &mut EventCtx, event: &Event, _data: &Arc<str>, _env: &Env) {
        if let Event::DropEnter = event {
            if let Some(gesture) = ctx.drop_context() {
                match gesture.files() {
                    Some(files) => {
                        gesture.set_action(DropAction::Move);
                        self.dropped = Some(files);
                    }
                    None => gesture.deny(),
                }
            }
            ctx.set_handled();
        }
    }

    fn lifecycle(&mut self, _ctx: &mut LifeCycleCtx, _event: &LifeCycle, _data: &Arc<str>, _env: &Env) {}

    fn update(&mut self, ctx: &mut UpdateCtx, _old_data: &Arc<str>, _diff: &ArcStrDiff, _env: &Env) {
        ctx.request_paint();
    }

    fn layout(&mut self, _ctx: &mut LayoutCtx, bc: &BoxConstraints, _data: &Arc<str>, _env: &Env) -> kurbo::Size {
        bc.max()
    }

    fn paint(&mut self, ctx: &mut PaintCtx, _data: &Arc<str>, env: &Env) {
        let colour = match env.get(THEME) {
            Some(Value::UnsignedInt(colour)) => colour as u32,
            _ => 0,
        };
        ctx.fill(kurbo::Rect::new(0.0, 0.0, 1.0, 1.0), colour);
    }
}

fn is_empty(data: &Arc<str>, diff: Option<&ArcStrDiff>, _env: &Env) -> bool {
    match diff {
        Some(ArcStrDiff::SetTo(new)) => new.is_empty(),
        None => data.is_empty(),
    }
}

fn dark(mut env: Env, _data: &Arc<str>, _diff: Option<&ArcStrDiff>) -> Env {
    env.set(THEME, Value::UnsignedInt(0x202020ff));
    env
}

fn files_gesture(payload: &[u8]) -> DropContext {
    DropContext::new(backend::DropContext::new(
        backend::ACTION_COPY,
        vec![backend::URI_LIST.to_string()],
        vec![ClipboardFormat { identifier: backend::URI_LIST.to_string(), data: payload.to_vec() }],
        3,
    ))
}

fn fills(ctx: &PaintCtx) -> Vec<u32> {
    ctx.ops()
        .iter()
        .filter_map(|op| match op {
            PaintOp::Fill(_, colour) => Some(*colour),
            _ => None,
        })
        .collect()
}

#[test]
fn a_tree_goes_through_the_passes_in_order() {
    let mut env = Env::new();
    env.set(THEME, Value::UnsignedInt(0xffffffff));
    let mut data: Arc<str> = Arc::from("");
    let tree = Either::new(is_empty, Swatch { dropped: None }, EnvScope::new(dark, Swatch { dropped: None }));
    let mut root = WidgetPod::new(tree);
    let bc = BoxConstraints::tight(kurbo::Size::new(8.0, 8.0));

    root.lifecycle(&mut LifeCycleCtx::new(), &LifeCycle::WidgetAdded, &data, &env);
    assert!(root.widget().current());

    let mut layout = LayoutCtx::new(None);
    assert_eq!(root.layout(&mut layout, &bc, &data, &env), kurbo::Size::new(8.0, 8.0));
    root.set_origin(&mut layout, &data, &env, kurbo::Point::ORIGIN);
    let mut paint = PaintCtx::new();
    root.paint(&mut paint, &data, &env);
    assert_eq!(fills(&paint), vec![0xffffffff]);

    let diff = ArcStrDiff::SetTo(Arc::from("text"));
    let mut update = UpdateCtx::new();
    root.update(&mut update, &data, &diff, &env);
    data.apply_diff(diff);
    assert!(!root.widget().current());
    assert!(update.requests().layout);

    root.layout(&mut layout, &bc, &data, &env);
    let mut paint = PaintCtx::new();
    root.paint(&mut paint, &data, &env);
    assert_eq!(fills(&paint), vec![0x202020ff]);
    assert_eq!(env.get(THEME), Some(Value::UnsignedInt(0xffffffff)));
}

#[test]
fn a_node_answers_the_drag_gesture_through_its_context() {
    let env = Env::new();
    let data: Arc<str> = Arc::from("");
    let mut root = WidgetPod::new(Swatch { dropped: None });
    let mut ctx = EventCtx::new(Some(files_gesture(b"file:///tmp/a\nfile:///tmp/b\n")));
    root.event(&mut ctx, &Event::DropEnter, &data, &env);
    assert!(ctx.is_handled());
    assert_eq!(root.widget().dropped, Some(vec!["/tmp/a".to_string(), "/tmp/b".to_string()]));
    let gesture = ctx.into_drop_context().unwrap().into_inner();
    assert_eq!(gesture.status(), Some(backend::ACTION_MOVE));
    assert_eq!(gesture.time(), 3);
}

#[test]
fn a_node_denies_a_gesture_that_carries_no_files() {
    let env = Env::new();
    let data: Arc<str> = Arc::from("");
    let mut root = WidgetPod::new(Swatch { dropped: None });
    let gesture = DropContext::new(backend::DropContext::new(
        backend::ACTION_MOVE,
        vec!["text/plain".to_string()],
        vec![ClipboardFormat { identifier: "text/plain".to_string(), data: b"hello".to_vec() }],
        0,
    ));
    let mut ctx = EventCtx::new(Some(gesture));
    root.event(&mut ctx, &Event::DropEnter, &data, &env);
    assert_eq!(root.widget().dropped, None);
    assert_eq!(ctx.into_drop_context().unwrap().into_inner().status(), Some(backend::ACTION_NONE));
}

#[test]
fn without_a_gesture_there_is_no_drop_context() {
    let env = Env::new();
    let data: Arc<str> = Arc::from("");
    let mut root = WidgetPod::new(Swatch { dropped: None });
    let mut ctx = EventCtx::new(None);
    root.event(&mut ctx, &Event::DropEnter, &data, &env);
    assert!(ctx.is_handled());
    assert!(ctx.into_drop_context().is_none());
}
