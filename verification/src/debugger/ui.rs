//! What the inspector's two screens do: how the inspector starts, which
//! commands its controls send, and the node that reports the pointer coming
//! over a row.

use crate::contexts::EventCtx;
use crate::contexts::EventCtxView;
use crate::contexts::LayoutCtx;
use crate::contexts::LayoutCtxView;
use crate::contexts::LifeCycleCtx;
use crate::contexts::PaintCtx;
use crate::contexts::PaintOp;
use crate::contexts::PassCtxView;
use crate::contexts::UpdateCtx;
use crate::debugger::data;
use crate::debugger::data::DebuggerData;
use crate::debugger::data::EventData;
use crate::debugger::data::Filter;
use crate::debugger::data::Item;
use crate::debugger::data::Screen;
use crate::debugger::delegate::Delegate;
use crate::diffable::Diffable;
use crate::env::Env;
use crate::event::Command;
use crate::event::Event;
use crate::event::LifeCycle;
use crate::event::Payload;
use crate::event::Selector;
use crate::geometry::BoxConstraints;
use crate::widget::Widget;
use core::marker::PhantomData;
use vstd::prelude::*;

verus! {

/// The inspector: what it has collected, and the delegate that collects.
pub struct AppWrapper {
    pub data: DebuggerData,
    pub delegate: Delegate,
}

/// The inspector as it starts: on the list of groups, with no group, with
/// the filter that keeps commands and notifications only, and with a
/// delegate that has not seen a filter yet.
pub fn ui_builder() -> (app: AppWrapper)
    ensures
        app.data.screen == Screen::EventSelection,
        app.data.groups() == Seq::<data::EventDataView>::empty(),
        app.data.filter.unmarked(),
        app.delegate.seen_filter() is None,
{
    let app = AppWrapper {
        data: DebuggerData {
            screen: Screen::EventSelection,
            all_items: Vec::new(),
            filter: Filter::default(),
        },
        delegate: Delegate::default(),
    };
    proof {
        assert(app.data.groups() =~= Seq::<data::EventDataView>::empty());
    }
    app
}

/// The command of a click on the row of `group` in the list of groups: it
/// opens the details of the group.
pub fn select_event(group: &EventData) -> (command: Command)
    ensures
        command == (Command {
            selector: Selector { name: data::SELECT_EVENT },
            payload: Payload::Index(group.idx),
            target: None,
        }),
{
    Selector::new(data::SELECT_EVENT).with(Payload::Index(group.idx))
}

/// The command of a click on the button of the details: it goes back to the
/// list of groups.
pub fn back_home() -> (command: Command)
    ensures
        command == (Command {
            selector: Selector { name: data::BACK_HOME },
            payload: Payload::Unit,
            target: None,
        }),
{
    Selector::new(data::BACK_HOME).with(Payload::Unit)
}

/// The command of the pointer coming over the row of `item`, or leaving it:
/// it tells the node that the item came from to highlight itself, or to
/// stop.
pub fn highlight(item: &Item, hovered: bool) -> (command: Command)
    ensures
        command == (Command {
            selector: Selector { name: data::HIGHLIGHT },
            payload: Payload::Flag(hovered),
            target: Some(item.widget_id),
        }),
{
    Selector::new(data::HIGHLIGHT).with(Payload::Flag(hovered)).to(item.widget_id)
}

/// A node that tells a function when the pointer comes over its child, or
/// leaves it.
///
/// The function is handed the lifecycle context and gives it back, with
/// what it has asked for. Every pass goes on to the child.
pub struct OnHover<T, F, W> {
    callback: F,
    child: W,
    data: PhantomData<T>,
}

/// Whether `callback` can be told of every change, and gives back a context
/// that holds all that it was handed.
pub open spec fn well_behaved<T, F: Fn(LifeCycleCtx, &T, bool, &Env) -> LifeCycleCtx>(callback: F) -> bool {
    &&& forall|ctx: LifeCycleCtx, data: &T, hovered: bool, env: &Env|
        call_requires(callback, (ctx, data, hovered, env))
    &&& forall|ctx: LifeCycleCtx, data: &T, hovered: bool, env: &Env, given: LifeCycleCtx|
        call_ensures(callback, (ctx, data, hovered, env), given) ==> given@.extends(ctx@)
}

/// Whether `callback`, told that the pointer has come or gone, may make the
/// context `told` of a context that holds `ctx0`.
pub open spec fn tells<T, F: Fn(LifeCycleCtx, &T, bool, &Env) -> LifeCycleCtx>(
    callback: F,
    ctx0: PassCtxView,
    data: T,
    hovered: bool,
    env: Env,
    told: PassCtxView,
) -> bool {
    exists|handed: LifeCycleCtx, given: LifeCycleCtx|
        {
            &&& handed@ == ctx0
            &&& given@ == told
            &&& #[trigger] call_ensures(callback, (handed, &data, hovered, &env), given)
        }
}

impl<T: Diffable, F: Fn(LifeCycleCtx, &T, bool, &Env) -> LifeCycleCtx, W: Widget<T>> OnHover<
    T,
    F,
    W,
> {
    /// The function that is told.
    pub closed spec fn callback(&self) -> F {
        self.callback
    }

    /// The child.
    pub closed spec fn spec_child(&self) -> W {
        self.child
    }

    /// A node that tells `callback` when the pointer comes over `child`, or
    /// leaves it.
    pub fn new(callback: F, child: W) -> (node: OnHover<T, F, W>)
        ensures
            node.callback() == callback,
            node.spec_child() == child,
            node.inv() == (well_behaved::<T, F>(callback) && child.inv()),
    {
        OnHover { callback, child, data: PhantomData }
    }

    /// The function is well behaved, and the child is configured as its own
    /// rules ask.
    pub open spec fn valid(&self) -> bool {
        &&& well_behaved::<T, F>(self.callback())
        &&& self.spec_child().inv()
    }

    /// The child is laid out.
    pub open spec fn ready(&self) -> bool {
        self.spec_child().laid_out()
    }

    /// The event goes to the child.
    pub open spec fn event_rule(
        pre: Self,
        ctx0: EventCtxView,
        event: Event,
        data: T,
        env: Env,
        post: Self,
        ctx1: EventCtxView,
    ) -> bool {
        &&& post.callback() == pre.callback()
        &&& W::event_step(pre.spec_child(), ctx0, event, data, env, post.spec_child(), ctx1)
    }

    /// Where the notice is that the pointer has come or gone, the function
    /// is told first. Then the notice goes to the child, whatever it is.
    pub open spec fn lifecycle_rule(
        pre: Self,
        ctx0: PassCtxView,
        event: LifeCycle,
        data: T,
        env: Env,
        post: Self,
        ctx1: PassCtxView,
    ) -> bool {
        &&& post.callback() == pre.callback()
        &&& match event {
            LifeCycle::HotChanged(hovered) => exists|told: PassCtxView|
                {
                    &&& #[trigger] tells(pre.callback(), ctx0, data, hovered, env, told)
                    &&& W::lifecycle_step(
                        pre.spec_child(),
                        told,
                        event,
                        data,
                        env,
                        post.spec_child(),
                        ctx1,
                    )
                },
            _ => W::lifecycle_step(pre.spec_child(), ctx0, event, data, env, post.spec_child(), ctx1),
        }
    }

    /// The diff goes to the child.
    pub open spec fn update_rule(
        pre: Self,
        ctx0: PassCtxView,
        old_data: T,
        diff: T::Diff,
        env: Env,
        post: Self,
        ctx1: PassCtxView,
    ) -> bool {
        &&& post.callback() == pre.callback()
        &&& W::update_step(pre.spec_child(), ctx0, old_data, diff, env, post.spec_child(), ctx1)
    }

    /// The child is laid out, and its size is the node's.
    pub open spec fn layout_rule(
        pre: Self,
        ctx0: LayoutCtxView,
        bc: BoxConstraints,
        data: T,
        env: Env,
        post: Self,
        ctx1: LayoutCtxView,
        size: kurbo::Size,
    ) -> bool {
        &&& post.callback() == pre.callback()
        &&& W::layout_step(pre.spec_child(), ctx0, bc, data, env, post.spec_child(), ctx1, size)
    }

    /// The child is painted.
    pub open spec fn paint_rule(
        pre: Self,
        ctx0: Seq<PaintOp>,
        data: T,
        env: Env,
        post: Self,
        ctx1: Seq<PaintOp>,
    ) -> bool {
        &&& post.callback() == pre.callback()
        &&& W::paint_step(pre.spec_child(), ctx0, data, env, post.spec_child(), ctx1)
    }

    /// The relations of the passes are the rules of the same names: what the
    /// contracts of the passes state of this node can be read off from
    /// `event_rule`, `lifecycle_rule`, `update_rule`, `layout_rule` and
    /// `paint_rule`.
    pub proof fn lemma_rules(&self)
        ensures
            forall|node: Self| #[trigger] node.inv() == node.valid(),
            forall|node: Self| #[trigger] node.laid_out() == node.ready(),
            forall|
                pre: Self,
                ctx0: EventCtxView,
                event: Event,
                data: T,
                env: Env,
                post: Self,
                ctx1: EventCtxView,
            |
                #[trigger] <Self as Widget<T>>::event_step(pre, ctx0, event, data, env, post, ctx1)
                    == Self::event_rule(pre, ctx0, event, data, env, post, ctx1),
            forall|
                pre: Self,
                ctx0: PassCtxView,
                event: LifeCycle,
                data: T,
                env: Env,
                post: Self,
                ctx1: PassCtxView,
            |
                #[trigger] <Self as Widget<T>>::lifecycle_step(pre, ctx0, event, data, env, post, ctx1)
                    == Self::lifecycle_rule(pre, ctx0, event, data, env, post, ctx1),
            forall|
                pre: Self,
                ctx0: PassCtxView,
                old_data: T,
                diff: T::Diff,
                env: Env,
                post: Self,
                ctx1: PassCtxView,
            |
                #[trigger] <Self as Widget<T>>::update_step(pre, ctx0, old_data, diff, env, post, ctx1)
                    == Self::update_rule(pre, ctx0, old_data, diff, env, post, ctx1),
            forall|
                pre: Self,
                ctx0: LayoutCtxView,
                bc: BoxConstraints,
                data: T,
                env: Env,
                post: Self,
                ctx1: LayoutCtxView,
                size: kurbo::Size,
            |
                #[trigger] <Self as Widget<T>>::layout_step(pre, ctx0, bc, data, env, post, ctx1, size)
                    == Self::layout_rule(pre, ctx0, bc, data, env, post, ctx1, size),
            forall|
                pre: Self,
                ctx0: Seq<PaintOp>,
                data: T,
                env: Env,
                post: Self,
                ctx1: Seq<PaintOp>,
            |
                #[trigger] <Self as Widget<T>>::paint_step(pre, ctx0, data, env, post, ctx1)
                    == Self::paint_rule(pre, ctx0, data, env, post, ctx1),
    {
    }

    /// The child.
    pub fn child(&self) -> (child: &W)
        ensures
            *child == self.spec_child(),
    {
        &self.child
    }
}

impl<T: Diffable, F: Fn(LifeCycleCtx, &T, bool, &Env) -> LifeCycleCtx, W: Widget<T>> Widget<
    T,
> for OnHover<T, F, W> {
    /// See `valid`.
    open spec fn inv(&self) -> bool {
        self.valid()
    }

    /// See `ready`.
    open spec fn laid_out(&self) -> bool {
        self.ready()
    }

    /// See `event_rule`.
    open spec fn event_step(
        pre: Self,
        ctx0: EventCtxView,
        event: Event,
        data: T,
        env: Env,
        post: Self,
        ctx1: EventCtxView,
    ) -> bool {
        Self::event_rule(pre, ctx0, event, data, env, post, ctx1)
    }

    /// See `lifecycle_rule`.
    open spec fn lifecycle_step(
        pre: Self,
        ctx0: PassCtxView,
        event: LifeCycle,
        data: T,
        env: Env,
        post: Self,
        ctx1: PassCtxView,
    ) -> bool {
        Self::lifecycle_rule(pre, ctx0, event, data, env, post, ctx1)
    }

    /// See `update_rule`.
    open spec fn update_step(
        pre: Self,
        ctx0: PassCtxView,
        old_data: T,
        diff: T::Diff,
        env: Env,
        post: Self,
        ctx1: PassCtxView,
    ) -> bool {
        Self::update_rule(pre, ctx0, old_data, diff, env, post, ctx1)
    }

    /// See `layout_rule`.
    open spec fn layout_step(
        pre: Self,
        ctx0: LayoutCtxView,
        bc: BoxConstraints,
        data: T,
        env: Env,
        post: Self,
        ctx1: LayoutCtxView,
        size: kurbo::Size,
    ) -> bool {
        Self::layout_rule(pre, ctx0, bc, data, env, post, ctx1, size)
    }

    /// See `paint_rule`.
    open spec fn paint_step(
        pre: Self,
        ctx0: Seq<PaintOp>,
        data: T,
        env: Env,
        post: Self,
        ctx1: Seq<PaintOp>,
    ) -> bool {
        Self::paint_rule(pre, ctx0, data, env, post, ctx1)
    }

    fn event(&mut self, ctx: &mut EventCtx, event: &Event, data: &T, env: &Env) {
        self.child.event(ctx, event, data, env)
    }

    fn lifecycle(&mut self, ctx: &mut LifeCycleCtx, event: &LifeCycle, data: &T, env: &Env) {
        match event {
            LifeCycle::HotChanged(hovered) => {
                let mut handed = LifeCycleCtx::new();
                core::mem::swap(ctx, &mut handed);
                let given = (self.callback)(handed, data, *hovered, env);
                *ctx = given;
                proof {
                    assert(tells(self.callback(), old(ctx)@, *data, *hovered, *env, ctx@));
                }
            },
            _ => {},
        }
        let ghost told = ctx@;
        self.child.lifecycle(ctx, event, data, env);
        proof {
            crate::contexts::lemma_prefix_transitive(old(ctx)@.commands, told.commands, ctx@.commands);
        }
    }

    fn update(&mut self, ctx: &mut UpdateCtx, old_data: &T, diff: &T::Diff, env: &Env) {
        self.child.update(ctx, old_data, diff, env)
    }

    fn layout(&mut self, ctx: &mut LayoutCtx, bc: &BoxConstraints, data: &T, env: &Env) -> (size:
        kurbo::Size) {
        self.child.layout(ctx, bc, data, env)
    }

    fn paint(&mut self, ctx: &mut PaintCtx, data: &T, env: &Env) {
        self.child.paint(ctx, data, env)
    }
}

} // verus!
