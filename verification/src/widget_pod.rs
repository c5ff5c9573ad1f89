//! The handle by which a node holds another.

use crate::contexts::EventCtx;
use crate::contexts::EventCtxView;
use crate::contexts::LayoutCtx;
use crate::contexts::LayoutCtxView;
use crate::contexts::LifeCycleCtx;
use crate::contexts::PaintCtx;
use crate::contexts::PaintOp;
use crate::contexts::PassCtxView;
use crate::contexts::Requests;
use crate::contexts::UpdateCtx;
use crate::diffable::Diffable;
use crate::env::Env;
use crate::event::Event;
use crate::event::LifeCycle;
use crate::geometry::BoxConstraints;
use crate::widget::Widget;
use core::marker::PhantomData;
use vstd::prelude::*;

verus! {

/// What a handle holds: its node, the geometry that the last layout left,
/// and what the node has asked for and not got yet.
pub struct PodView<W> {
    pub inner: W,
    pub size: Option<kurbo::Size>,
    pub origin: Option<kurbo::Point>,
    pub paint_insets: Option<kurbo::Insets>,
    pub requests: Requests,
}

/// The handle of one node. It owns the node, and a parent reaches the node's
/// passes through it alone.
pub struct WidgetPod<T, W> {
    inner: W,
    size: Option<kurbo::Size>,
    origin: Option<kurbo::Point>,
    paint_insets: Option<kurbo::Insets>,
    requests: Requests,
    data: PhantomData<T>,
}

impl<T, W> View for WidgetPod<T, W> {
    type V = PodView<W>;

    closed spec fn view(&self) -> PodView<W> {
        PodView {
            inner: self.inner,
            size: self.size,
            origin: self.origin,
            paint_insets: self.paint_insets,
            requests: self.requests,
        }
    }
}

impl<T: Diffable, W: Widget<T>> WidgetPod<T, W> {
    /// Whether the node is configured as its own rules ask.
    pub open spec fn inv(&self) -> bool {
        self@.inner.inv()
    }

    /// Whether the handle can be painted: it has the size that its node
    /// chose and the origin that its parent gave, and the node is laid out.
    pub open spec fn laid_out(&self) -> bool {
        &&& self@.size is Some
        &&& self@.origin is Some
        &&& self@.inner.laid_out()
    }

    /// An event pass through the handle. The node sees the context with its
    /// own requests in place of the context's. What the node asks for stays
    /// with the handle and is added to what the context held.
    pub open spec fn event_step(
        pre: PodView<W>,
        ctx0: EventCtxView,
        event: Event,
        data: T,
        env: Env,
        post: PodView<W>,
        ctx1: EventCtxView,
    ) -> bool {
        &&& W::event_step(
            pre.inner,
            EventCtxView { requests: pre.requests, ..ctx0 },
            event,
            data,
            env,
            post.inner,
            EventCtxView { requests: post.requests, ..ctx1 },
        )
        &&& ctx1.requests == ctx0.requests.spec_union(post.requests)
        &&& pre.requests.within(post.requests)
        &&& post.size == pre.size
        &&& post.origin == pre.origin
        &&& post.paint_insets == pre.paint_insets
    }

    /// A lifecycle pass through the handle.
    pub open spec fn lifecycle_step(
        pre: PodView<W>,
        ctx0: PassCtxView,
        event: LifeCycle,
        data: T,
        env: Env,
        post: PodView<W>,
        ctx1: PassCtxView,
    ) -> bool {
        &&& W::lifecycle_step(
            pre.inner,
            PassCtxView { requests: pre.requests, ..ctx0 },
            event,
            data,
            env,
            post.inner,
            PassCtxView { requests: post.requests, ..ctx1 },
        )
        &&& ctx1.requests == ctx0.requests.spec_union(post.requests)
        &&& pre.requests.within(post.requests)
        &&& post.size == pre.size
        &&& post.origin == pre.origin
        &&& post.paint_insets == pre.paint_insets
    }

    /// An update pass through the handle.
    pub open spec fn update_step(
        pre: PodView<W>,
        ctx0: PassCtxView,
        old_data: T,
        diff: T::Diff,
        env: Env,
        post: PodView<W>,
        ctx1: PassCtxView,
    ) -> bool {
        &&& W::update_step(
            pre.inner,
            PassCtxView { requests: pre.requests, ..ctx0 },
            old_data,
            diff,
            env,
            post.inner,
            PassCtxView { requests: post.requests, ..ctx1 },
        )
        &&& ctx1.requests == ctx0.requests.spec_union(post.requests)
        &&& pre.requests.within(post.requests)
        &&& post.size == pre.size
        &&& post.origin == pre.origin
        &&& post.paint_insets == pre.paint_insets
    }

    /// A layout pass through the handle. The node lays itself out in a
    /// context of its own; the handle keeps the size that the node chose and
    /// the paint insets that it declared, and the request for a layout is
    /// met.
    pub open spec fn layout_step(
        pre: PodView<W>,
        bc: BoxConstraints,
        data: T,
        env: Env,
        post: PodView<W>,
        size: kurbo::Size,
    ) -> bool {
        &&& W::layout_step(
            pre.inner,
            LayoutCtxView { paint_insets: pre.paint_insets },
            bc,
            data,
            env,
            post.inner,
            LayoutCtxView { paint_insets: post.paint_insets },
            size,
        )
        &&& post.size == Some(size)
        &&& post.origin == pre.origin
        &&& post.requests == (Requests { layout: false, ..pre.requests })
    }

    /// A paint pass through the handle. The node paints between a `Save` and
    /// a `Restore`, with the origin moved to the handle's and painting
    /// confined to the handle's size; the request for a repaint is met.
    pub open spec fn paint_step(
        pre: PodView<W>,
        ctx0: Seq<PaintOp>,
        data: T,
        env: Env,
        post: PodView<W>,
        ctx1: Seq<PaintOp>,
    ) -> bool {
        &&& pre.size is Some
        &&& pre.origin is Some
        &&& ctx1.len() > 0
        &&& ctx1.last() == PaintOp::Restore
        &&& W::paint_step(
            pre.inner,
            ctx0.push(PaintOp::Save).push(PaintOp::Translate(pre.origin.unwrap())).push(
                PaintOp::Clip(pre.size.unwrap()),
            ),
            data,
            env,
            post.inner,
            ctx1.drop_last(),
        )
        &&& post.size == pre.size
        &&& post.origin == pre.origin
        &&& post.paint_insets == pre.paint_insets
        &&& post.requests == (Requests { paint: false, ..pre.requests })
    }

    /// What a handle holds when it is made: its node, no geometry, and the
    /// requests for a first layout and a first paint.
    pub open spec fn new_view(inner: W) -> PodView<W> {
        PodView {
            inner,
            size: None,
            origin: None,
            paint_insets: None,
            requests: Requests { paint: true, layout: true },
        }
    }

    /// The handle of `inner`. The node has no geometry yet, and is due a
    /// layout and a paint.
    pub fn new(inner: W) -> (pod: WidgetPod<T, W>)
        ensures
            pod@ == Self::new_view(inner),
    {
        WidgetPod {
            inner,
            size: None,
            origin: None,
            paint_insets: None,
            requests: Requests { paint: true, layout: true },
            data: PhantomData,
        }
    }

    /// The node.
    pub fn widget(&self) -> (inner: &W)
        ensures
            *inner == self@.inner,
    {
        &self.inner
    }

    /// The size that the node chose in the last layout.
    pub fn size(&self) -> (size: Option<kurbo::Size>)
        ensures
            size == self@.size,
    {
        self.size
    }

    /// The origin that the parent gave.
    pub fn origin(&self) -> (origin: Option<kurbo::Point>)
        ensures
            origin == self@.origin,
    {
        self.origin
    }

    /// How far the node paints beyond its box, where it has said so.
    pub fn paint_insets(&self) -> (paint_insets: Option<kurbo::Insets>)
        ensures
            paint_insets == self@.paint_insets,
    {
        self.paint_insets
    }

    /// What the node has asked for and not got yet.
    pub fn requests(&self) -> (requests: Requests)
        ensures
            requests == self@.requests,
    {
        self.requests
    }

    /// Hands the event to the node.
    pub fn event(&mut self, ctx: &mut EventCtx, event: &Event, data: &T, env: &Env)
        requires
            old(self).inv(),
        ensures
            final(self).inv(),
            final(ctx)@.extends(old(ctx)@),
            Self::event_step(old(self)@, old(ctx)@, *event, *data, *env, final(self)@, final(ctx)@),
    {
        let outer = ctx.replace_requests(self.requests);
        self.inner.event(ctx, event, data, env);
        self.requests = ctx.replace_requests(outer);
        ctx.add_requests(self.requests);
    }

    /// Hands the notice to the node.
    pub fn lifecycle(&mut self, ctx: &mut LifeCycleCtx, event: &LifeCycle, data: &T, env: &Env)
        requires
            old(self).inv(),
        ensures
            final(self).inv(),
            final(ctx)@.extends(old(ctx)@),
            Self::lifecycle_step(
                old(self)@,
                old(ctx)@,
                *event,
                *data,
                *env,
                final(self)@,
                final(ctx)@,
            ),
    {
        let outer = ctx.replace_requests(self.requests);
        self.inner.lifecycle(ctx, event, data, env);
        self.requests = ctx.replace_requests(outer);
        ctx.add_requests(self.requests);
    }

    /// Hands the diff to the node.
    pub fn update(&mut self, ctx: &mut UpdateCtx, old_data: &T, diff: &T::Diff, env: &Env)
        requires
            old(self).inv(),
        ensures
            final(self).inv(),
            final(ctx)@.extends(old(ctx)@),
            Self::update_step(
                old(self)@,
                old(ctx)@,
                *old_data,
                *diff,
                *env,
                final(self)@,
                final(ctx)@,
            ),
    {
        let outer = ctx.replace_requests(self.requests);
        self.inner.update(ctx, old_data, diff, env);
        self.requests = ctx.replace_requests(outer);
        ctx.add_requests(self.requests);
    }

    /// Lets the node choose its size, and keeps it. The parent's context is
    /// left as it was.
    pub fn layout(&mut self, ctx: &mut LayoutCtx, bc: &BoxConstraints, data: &T, env: &Env) -> (size:
        kurbo::Size)
        requires
            old(self).inv(),
        ensures
            final(self).inv(),
            final(self)@.inner.laid_out(),
            final(ctx)@ == old(ctx)@,
            Self::layout_step(old(self)@, *bc, *data, *env, final(self)@, size),
    {
        let mut child_ctx = LayoutCtx::new(self.paint_insets);
        let size = self.inner.layout(&mut child_ctx, bc, data, env);
        self.size = Some(size);
        self.paint_insets = child_ctx.paint_insets();
        self.requests.layout = false;
        size
    }

    /// Places the node at `origin`, in the coordinates of its parent.
    pub fn set_origin(&mut self, ctx: &mut LayoutCtx, data: &T, env: &Env, origin: kurbo::Point)
        ensures
            final(self)@ == (PodView { origin: Some(origin), ..old(self)@ }),
            final(ctx)@ == old(ctx)@,
    {
        self.origin = Some(origin);
    }

    /// Lets the node paint, at the handle's origin and within its size.
    pub fn paint(&mut self, ctx: &mut PaintCtx, data: &T, env: &Env)
        requires
            old(self).inv(),
            old(self).laid_out(),
        ensures
            final(self).inv(),
            final(self).laid_out(),
            old(ctx)@.is_prefix_of(final(ctx)@),
            Self::paint_step(old(self)@, old(ctx)@, *data, *env, final(self)@, final(ctx)@),
    {
        let origin = self.origin.unwrap();
        let size = self.size.unwrap();
        ctx.save();
        ctx.translate(origin);
        ctx.clip(size);
        let ghost opened = ctx@;
        self.inner.paint(ctx, data, env);
        let ghost painted = ctx@;
        ctx.restore();
        self.requests.paint = false;
        proof {
            assert(ctx@.drop_last() == painted);
            assert(old(ctx)@.is_prefix_of(opened));
            assert(opened.is_prefix_of(painted));
            assert(painted.is_prefix_of(ctx@));
            assert(old(ctx)@ =~= ctx@.subrange(0, old(ctx)@.len() as int));
        }
    }
}

} // verus!
