//! A node that changes the environment for the node it holds.

use crate::contexts::EventCtx;
use crate::contexts::EventCtxView;
use crate::contexts::LayoutCtx;
use crate::contexts::LayoutCtxView;
use crate::contexts::LifeCycleCtx;
use crate::contexts::PaintCtx;
use crate::contexts::PaintOp;
use crate::contexts::PassCtxView;
use crate::contexts::UpdateCtx;
use crate::diffable::Diffable;
use crate::env::Env;
use crate::env::Value;
use crate::event::Event;
use crate::event::LifeCycle;
use crate::geometry::is_origin;
use crate::geometry::origin;
use crate::geometry::BoxConstraints;
use crate::widget::Widget;
use crate::widget_pod::PodView;
use crate::widget_pod::WidgetPod;
use vstd::prelude::*;

verus! {

/// A node that hands its child an environment of its own making.
///
/// In every pass the node copies the environment that it was given, lets its
/// function change the copy, and hands what the function returns to its
/// child. The environment that it was given stays as it is, for the node's
/// siblings and for all that comes after the pass.
pub struct EnvScope<T: Diffable, G, W> {
    pub(crate) f: G,
    pub(crate) child: WidgetPod<T, W>,
}

/// Whether `f` can be applied to every environment, state and diff.
pub open spec fn applicable<T: Diffable, G: Fn(Env, &T, Option<&T::Diff>) -> Env>(f: G) -> bool {
    forall|env: Env, data: &T, diff: Option<&T::Diff>| call_requires(f, (env, data, diff))
}

/// Whether `derived` is an environment that `f` makes of a copy of
/// `ambient`, for the state `data` and the diff `diff`.
pub open spec fn derives<T: Diffable, G: Fn(Env, &T, Option<&T::Diff>) -> Env>(
    f: G,
    ambient: Env,
    data: T,
    diff: Option<&T::Diff>,
    derived: Env,
) -> bool {
    exists|copy: Env| copy@ == ambient@ && #[trigger] call_ensures(f, (copy, &data, diff), derived)
}

impl<T: Diffable, G: Fn(Env, &T, Option<&T::Diff>) -> Env, W: Widget<T>> EnvScope<T, G, W> {
    /// The function that changes the environment.
    pub closed spec fn function(&self) -> G {
        self.f
    }

    /// The handle of the child.
    pub closed spec fn child_pod(&self) -> PodView<W> {
        self.child@
    }

    /// A node that changes the environment for `child` and what is below
    /// it: `f` sets the values that they are to see.
    pub fn new(f: G, child: W) -> (scope: EnvScope<T, G, W>)
        ensures
            scope.function() == f,
            scope.child_pod() == WidgetPod::<T, W>::new_view(child),
            scope.inv() == (applicable(f) && child.inv()),
    {
        EnvScope { f, child: WidgetPod::new(child) }
    }

    /// The function can be applied to everything, and the child is
    /// configured as its own rules ask.
    pub open spec fn valid(&self) -> bool {
        &&& applicable(self.function())
        &&& self.child_pod().inner.inv()
    }

    /// The child has its size and its origin and is laid out.
    pub open spec fn ready(&self) -> bool {
        &&& self.child_pod().size is Some
        &&& self.child_pod().origin is Some
        &&& self.child_pod().inner.laid_out()
    }

    /// The event goes to the child, with an environment that the function
    /// made of the node's.
    pub open spec fn event_rule(
        pre: Self,
        ctx0: EventCtxView,
        event: Event,
        data: T,
        env: Env,
        post: Self,
        ctx1: EventCtxView,
    ) -> bool {
        &&& post.function() == pre.function()
        &&& exists|derived: Env|
            {
                &&& #[trigger] derives(pre.function(), env, data, None, derived)
                &&& WidgetPod::<T, W>::event_step(
                    pre.child_pod(),
                    ctx0,
                    event,
                    data,
                    derived,
                    post.child_pod(),
                    ctx1,
                )
            }
    }

    /// The notice goes to the child, with an environment that the function
    /// made of the node's.
    pub open spec fn lifecycle_rule(
        pre: Self,
        ctx0: PassCtxView,
        event: LifeCycle,
        data: T,
        env: Env,
        post: Self,
        ctx1: PassCtxView,
    ) -> bool {
        &&& post.function() == pre.function()
        &&& exists|derived: Env|
            {
                &&& #[trigger] derives(pre.function(), env, data, None, derived)
                &&& WidgetPod::<T, W>::lifecycle_step(
                    pre.child_pod(),
                    ctx0,
                    event,
                    data,
                    derived,
                    post.child_pod(),
                    ctx1,
                )
            }
    }

    /// The diff goes to the child, with an environment that the function,
    /// which is given the diff too, made of the node's.
    pub open spec fn update_rule(
        pre: Self,
        ctx0: PassCtxView,
        old_data: T,
        diff: T::Diff,
        env: Env,
        post: Self,
        ctx1: PassCtxView,
    ) -> bool {
        &&& post.function() == pre.function()
        &&& exists|derived: Env|
            {
                &&& #[trigger] derives(pre.function(), env, old_data, Some(&diff), derived)
                &&& WidgetPod::<T, W>::update_step(
                    pre.child_pod(),
                    ctx0,
                    old_data,
                    diff,
                    derived,
                    post.child_pod(),
                    ctx1,
                )
            }
    }

    /// The child is laid out within the same constraints, with an
    /// environment that the function made of the node's, and placed at the
    /// origin. Its size is the node's size.
    pub open spec fn layout_rule(
        pre: Self,
        ctx0: LayoutCtxView,
        bc: BoxConstraints,
        data: T,
        env: Env,
        post: Self,
        ctx1: LayoutCtxView,
        size: kurbo::Size,
    ) -> bool {
        &&& post.function() == pre.function()
        &&& ctx1 == ctx0
        &&& post.child_pod().origin is Some
        &&& is_origin(post.child_pod().origin.unwrap())
        &&& exists|derived: Env|
            {
                &&& #[trigger] derives(pre.function(), env, data, None, derived)
                &&& WidgetPod::<T, W>::layout_step(
                    pre.child_pod(),
                    bc,
                    data,
                    derived,
                    PodView { origin: pre.child_pod().origin, ..post.child_pod() },
                    size,
                )
            }
    }

    /// The child is painted, with an environment that the function made of
    /// the node's.
    pub open spec fn paint_rule(
        pre: Self,
        ctx0: Seq<PaintOp>,
        data: T,
        env: Env,
        post: Self,
        ctx1: Seq<PaintOp>,
    ) -> bool {
        &&& post.function() == pre.function()
        &&& exists|derived: Env|
            {
                &&& #[trigger] derives(pre.function(), env, data, None, derived)
                &&& WidgetPod::<T, W>::paint_step(
                    pre.child_pod(),
                    ctx0,
                    data,
                    derived,
                    post.child_pod(),
                    ctx1,
                )
            }
    }

    /// The relations of the passes are the rules of the same names: what the
    /// contracts of the passes state of a scope can be read off from
    /// `event_rule`, `lifecycle_rule`, `update_rule`, `layout_rule` and
    /// `paint_rule`.
    pub proof fn lemma_rules(&self)
        ensures
            forall|node: Self| #[trigger] node.inv() == node.valid(),
            forall|node: Self| #[trigger] node.laid_out() == node.ready(),
            forall|
                pre: Self,
                ctx0: EventCtxView,
                event: Event,
                data: T,
                env: Env,
                post: Self,
                ctx1: EventCtxView,
            |
                #[trigger] <Self as Widget<T>>::event_step(pre, ctx0, event, data, env, post, ctx1)
                    == Self::event_rule(pre, ctx0, event, data, env, post, ctx1),
            forall|
                pre: Self,
                ctx0: PassCtxView,
                event: LifeCycle,
                data: T,
                env: Env,
                post: Self,
                ctx1: PassCtxView,
            |
                #[trigger] <Self as Widget<T>>::lifecycle_step(pre, ctx0, event, data, env, post, ctx1)
                    == Self::lifecycle_rule(pre, ctx0, event, data, env, post, ctx1),
            forall|
                pre: Self,
                ctx0: PassCtxView,
                old_data: T,
                diff: T::Diff,
                env: Env,
                post: Self,
                ctx1: PassCtxView,
            |
                #[trigger] <Self as Widget<T>>::update_step(pre, ctx0, old_data, diff, env, post, ctx1)
                    == Self::update_rule(pre, ctx0, old_data, diff, env, post, ctx1),
            forall|
                pre: Self,
                ctx0: LayoutCtxView,
                bc: BoxConstraints,
                data: T,
                env: Env,
                post: Self,
                ctx1: LayoutCtxView,
                size: kurbo::Size,
            |
                #[trigger] <Self as Widget<T>>::layout_step(pre, ctx0, bc, data, env, post, ctx1, size)
                    == Self::layout_rule(pre, ctx0, bc, data, env, post, ctx1, size),
            forall|
                pre: Self,
                ctx0: Seq<PaintOp>,
                data: T,
                env: Env,
                post: Self,
                ctx1: Seq<PaintOp>,
            |
                #[trigger] <Self as Widget<T>>::paint_step(pre, ctx0, data, env, post, ctx1)
                    == Self::paint_rule(pre, ctx0, data, env, post, ctx1),
    {
    }

    /// The handle of the child.
    pub fn child(&self) -> (pod: &WidgetPod<T, W>)
        ensures
            pod@ == self.child_pod(),
    {
        &self.child
    }

    /// The environment that the child is to see where the node was given
    /// `env`: what the function makes of a copy of it. `env` stays as it is.
    pub fn derive(&self, env: &Env, data: &T, diff: Option<&T::Diff>) -> (derived: Env)
        requires
            applicable(self.function()),
        ensures
            derives(self.function(), *env, *data, diff, derived),
    {
        (self.f)(env.clone(), data, diff)
    }
}

impl<T: Diffable, G: Fn(Env, &T, Option<&T::Diff>) -> Env, W: Widget<T>> Widget<T> for EnvScope<
    T,
    G,
    W,
> {
    /// See `valid`.
    open spec fn inv(&self) -> bool {
        self.valid()
    }

    /// See `ready`.
    open spec fn laid_out(&self) -> bool {
        self.ready()
    }

    /// See `event_rule`.
    open spec fn event_step(
        pre: Self,
        ctx0: EventCtxView,
        event: Event,
        data: T,
        env: Env,
        post: Self,
        ctx1: EventCtxView,
    ) -> bool {
        Self::event_rule(pre, ctx0, event, data, env, post, ctx1)
    }

    /// See `lifecycle_rule`.
    open spec fn lifecycle_step(
        pre: Self,
        ctx0: PassCtxView,
        event: LifeCycle,
        data: T,
        env: Env,
        post: Self,
        ctx1: PassCtxView,
    ) -> bool {
        Self::lifecycle_rule(pre, ctx0, event, data, env, post, ctx1)
    }

    /// See `update_rule`.
    open spec fn update_step(
        pre: Self,
        ctx0: PassCtxView,
        old_data: T,
        diff: T::Diff,
        env: Env,
        post: Self,
        ctx1: PassCtxView,
    ) -> bool {
        Self::update_rule(pre, ctx0, old_data, diff, env, post, ctx1)
    }

    /// See `layout_rule`.
    open spec fn layout_step(
        pre: Self,
        ctx0: LayoutCtxView,
        bc: BoxConstraints,
        data: T,
        env: Env,
        post: Self,
        ctx1: LayoutCtxView,
        size: kurbo::Size,
    ) -> bool {
        Self::layout_rule(pre, ctx0, bc, data, env, post, ctx1, size)
    }

    /// See `paint_rule`.
    open spec fn paint_step(
        pre: Self,
        ctx0: Seq<PaintOp>,
        data: T,
        env: Env,
        post: Self,
        ctx1: Seq<PaintOp>,
    ) -> bool {
        Self::paint_rule(pre, ctx0, data, env, post, ctx1)
    }

    fn event(&mut self, ctx: &mut EventCtx, event: &Event, data: &T, env: &Env) {
        let new_env = self.derive(env, data, None);
        self.child.event(ctx, event, data, &new_env);
    }

    fn lifecycle(&mut self, ctx: &mut LifeCycleCtx, event: &LifeCycle, data: &T, env: &Env) {
        let new_env = self.derive(env, data, None);
        self.child.lifecycle(ctx, event, data, &new_env);
    }

    fn update(&mut self, ctx: &mut UpdateCtx, old_data: &T, diff: &T::Diff, env: &Env) {
        let new_env = self.derive(env, old_data, Some(diff));
        self.child.update(ctx, old_data, diff, &new_env);
    }

    fn layout(&mut self, ctx: &mut LayoutCtx, bc: &BoxConstraints, data: &T, env: &Env) -> (size:
        kurbo::Size) {
        let new_env = self.derive(env, data, None);
        let size = self.child.layout(ctx, bc, data, &new_env);
        let ghost laid = self.child@;
        self.child.set_origin(ctx, data, env, origin());
        proof {
            assert(laid == (PodView { origin: old(self).child_pod().origin, ..self.child_pod() }));
        }
        size
    }

    fn paint(&mut self, ctx: &mut PaintCtx, data: &T, env: &Env) {
        let new_env = self.derive(env, data, None);
        self.child.paint(ctx, data, &new_env);
    }
}

/// What the function does to the environment is what the child sees: where
/// the function turns every mapping `m` into `effect(m)`, the environment
/// that the child is handed holds `effect` of the ambient mapping. The
/// function is given a copy, so the ambient environment is out of its
/// reach.
pub proof fn lemma_child_sees_what_the_function_sets<
    T: Diffable,
    G: Fn(Env, &T, Option<&T::Diff>) -> Env,
>(
    f: G,
    ambient: Env,
    data: T,
    diff: Option<&T::Diff>,
    derived: Env,
    effect: spec_fn(Map<u64, Value>) -> Map<u64, Value>,
)
    requires
        derives(f, ambient, data, diff, derived),
        forall|copy: Env, made: Env| #[trigger]
            call_ensures(f, (copy, &data, diff), made) ==> made@ == effect(copy@),
    ensures
        derived@ == effect(ambient@),
{
}

} // verus!
