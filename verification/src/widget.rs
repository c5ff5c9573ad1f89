//! The contract of a node.

use crate::contexts::EventCtx;
use crate::contexts::EventCtxView;
use crate::contexts::LayoutCtx;
use crate::contexts::LayoutCtxView;
use crate::contexts::LifeCycleCtx;
use crate::contexts::PaintCtx;
use crate::contexts::PaintOp;
use crate::contexts::PassCtxView;
use crate::contexts::UpdateCtx;
use crate::diffable::Diffable;
use crate::env::Env;
use crate::event::Event;
use crate::event::LifeCycle;
use crate::geometry::BoxConstraints;
use vstd::prelude::*;

verus! {

/// A node of the tree: what takes part in the five passes.
///
/// A node keeps its own state, reads the application's state and never owns
/// it. What a pass may do to a node is the node's own affair, and it says
/// so in a relation for each pass: `event_step`, `lifecycle_step`,
/// `update_step`, `layout_step`, `paint_step`. The relation holds between
/// the node and the context before the pass and after it. A node that holds
/// other nodes states its relations over theirs, so that what the tree does
/// can be read off from what its leaves do. A node that states no relation
/// for a pass promises nothing of it.
pub trait Widget<T: Diffable>: Sized {
    /// Whether the node is configured as its own rules ask.
    open spec fn inv(&self) -> bool {
        true
    }

    /// Whether the node has chosen its size, and placed what it holds, since
    /// the last pass that could have changed either. A node is painted only
    /// then.
    open spec fn laid_out(&self) -> bool {
        true
    }

    /// What an event pass may do.
    open spec fn event_step(
        pre: Self,
        ctx0: EventCtxView,
        event: Event,
        data: T,
        env: Env,
        post: Self,
        ctx1: EventCtxView,
    ) -> bool {
        true
    }

    /// What a lifecycle pass may do.
    open spec fn lifecycle_step(
        pre: Self,
        ctx0: PassCtxView,
        event: LifeCycle,
        data: T,
        env: Env,
        post: Self,
        ctx1: PassCtxView,
    ) -> bool {
        true
    }

    /// What an update pass may do.
    open spec fn update_step(
        pre: Self,
        ctx0: PassCtxView,
        old_data: T,
        diff: T::Diff,
        env: Env,
        post: Self,
        ctx1: PassCtxView,
    ) -> bool {
        true
    }

    /// What a layout pass may do, and the size that it may return.
    open spec fn layout_step(
        pre: Self,
        ctx0: LayoutCtxView,
        bc: BoxConstraints,
        data: T,
        env: Env,
        post: Self,
        ctx1: LayoutCtxView,
        size: kurbo::Size,
    ) -> bool {
        true
    }

    /// What a paint pass may do.
    open spec fn paint_step(
        pre: Self,
        ctx0: Seq<PaintOp>,
        data: T,
        env: Env,
        post: Self,
        ctx1: Seq<PaintOp>,
    ) -> bool {
        true
    }

    /// Takes an external occurrence. The node may change its own state and
    /// ask for what is to follow; it does not change the application's state.
    fn event(&mut self, ctx: &mut EventCtx, event: &Event, data: &T, env: &Env)
        requires
            old(self).inv(),
        ensures
            final(self).inv(),
            final(ctx)@.extends(old(ctx)@),
            Self::event_step(*old(self), old(ctx)@, *event, *data, *env, *final(self), final(ctx)@),
    ;

    /// Takes notice of a structural occurrence.
    fn lifecycle(&mut self, ctx: &mut LifeCycleCtx, event: &LifeCycle, data: &T, env: &Env)
        requires
            old(self).inv(),
        ensures
            final(self).inv(),
            final(ctx)@.extends(old(ctx)@),
            Self::lifecycle_step(
                *old(self),
                old(ctx)@,
                *event,
                *data,
                *env,
                *final(self),
                final(ctx)@,
            ),
    ;

    /// Reacts to a change of the application's state: `diff` is about to
    /// lead from `old_data` to the next state.
    fn update(&mut self, ctx: &mut UpdateCtx, old_data: &T, diff: &T::Diff, env: &Env)
        requires
            old(self).inv(),
        ensures
            final(self).inv(),
            final(ctx)@.extends(old(ctx)@),
            Self::update_step(
                *old(self),
                old(ctx)@,
                *old_data,
                *diff,
                *env,
                *final(self),
                final(ctx)@,
            ),
    ;

    /// Chooses the node's size among those that `bc` admits, and places what
    /// the node holds.
    fn layout(&mut self, ctx: &mut LayoutCtx, bc: &BoxConstraints, data: &T, env: &Env) -> (size:
        kurbo::Size)
        requires
            old(self).inv(),
        ensures
            final(self).inv(),
            final(self).laid_out(),
            Self::layout_step(
                *old(self),
                old(ctx)@,
                *bc,
                *data,
                *env,
                *final(self),
                final(ctx)@,
                size,
            ),
    ;

    /// Paints the node. What was painted before stays as it is.
    fn paint(&mut self, ctx: &mut PaintCtx, data: &T, env: &Env)
        requires
            old(self).inv(),
            old(self).laid_out(),
        ensures
            final(self).inv(),
            final(self).laid_out(),
            old(ctx)@.is_prefix_of(final(ctx)@),
            Self::paint_step(*old(self), old(ctx)@, *data, *env, *final(self), final(ctx)@),
    ;
}

} // verus!
