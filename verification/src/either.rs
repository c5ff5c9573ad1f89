//! A node that shows one of two nodes.

use crate::contexts::lemma_prefix_transitive;
use crate::contexts::EventCtx;
use crate::contexts::EventCtxView;
use crate::contexts::LayoutCtx;
use crate::contexts::LayoutCtxView;
use crate::contexts::LifeCycleCtx;
use crate::contexts::PaintCtx;
use crate::contexts::PaintOp;
use crate::contexts::PassCtxView;
use crate::contexts::Requests;
use crate::contexts::UpdateCtx;
use crate::diffable::applied_all;
use crate::diffable::Diffable;
use crate::env::Env;
use crate::event::Event;
use crate::event::LifeCycle;
use crate::geometry::is_origin;
use crate::geometry::origin;
use crate::geometry::BoxConstraints;
use crate::widget::Widget;
use crate::widget_pod::PodView;
use crate::widget_pod::WidgetPod;
use vstd::prelude::*;

verus! {

/// A node that switches between two nodes.
///
/// A predicate over the state, the diff that is under way and the
/// environment says which of the two is shown: the true branch where it
/// holds, the false branch where it does not. It is asked when the node is
/// added to the tree, and once in every update pass.
pub struct Either<T: Diffable, F, A, B> {
    closure: F,
    true_branch: WidgetPod<T, A>,
    false_branch: WidgetPod<T, B>,
    current: bool,
}

/// Whether `predicate` can be asked of every state, diff and environment.
pub open spec fn total<T: Diffable, F: Fn(&T, Option<&T::Diff>, &Env) -> bool>(predicate: F) -> bool {
    forall|data: &T, diff: Option<&T::Diff>, env: &Env| call_requires(predicate, (data, diff, env))
}

impl<T: Diffable, F: Fn(&T, Option<&T::Diff>, &Env) -> bool, A: Widget<T>, B: Widget<T>> Either<
    T,
    F,
    A,
    B,
> {
    /// The predicate.
    pub closed spec fn predicate(&self) -> F {
        self.closure
    }

    /// The handle of the node that is shown where the predicate holds.
    pub closed spec fn true_pod(&self) -> PodView<A> {
        self.true_branch@
    }

    /// The handle of the node that is shown where the predicate does not hold.
    pub closed spec fn false_pod(&self) -> PodView<B> {
        self.false_branch@
    }

    /// Whether the true branch is the one that is shown.
    pub closed spec fn spec_current(&self) -> bool {
        self.current
    }

    /// A node that switches between two nodes.
    ///
    /// The predicate is asked on every change of the state. Where it holds
    /// `true_branch` is shown, else `false_branch`. Until the node is added to
    /// the tree the false branch counts as shown.
    pub fn new(closure: F, true_branch: A, false_branch: B) -> (either: Either<T, F, A, B>)
        ensures
            either.predicate() == closure,
            either.true_pod() == WidgetPod::<T, A>::new_view(true_branch),
            either.false_pod() == WidgetPod::<T, B>::new_view(false_branch),
            !either.spec_current(),
            either.inv() == (total(closure) && true_branch.inv() && false_branch.inv()),
    {
        Either {
            closure,
            true_branch: WidgetPod::new(true_branch),
            false_branch: WidgetPod::new(false_branch),
            current: false,
        }
    }

    /// The predicate can be asked of everything, and both branches are
    /// configured as their own rules ask.
    pub open spec fn valid(&self) -> bool {
        &&& total(self.predicate())
        &&& self.true_pod().inner.inv()
        &&& self.false_pod().inner.inv()
    }

    /// The branch that is shown has its size and its origin and is laid out.
    pub open spec fn ready(&self) -> bool {
        if self.spec_current() {
            &&& self.true_pod().size is Some
            &&& self.true_pod().origin is Some
            &&& self.true_pod().inner.laid_out()
        } else {
            &&& self.false_pod().size is Some
            &&& self.false_pod().origin is Some
            &&& self.false_pod().inner.laid_out()
        }
    }

    /// An event that a hidden node must see goes to the true branch and then
    /// to the false branch. Any other goes to the branch that is shown, and
    /// the other branch stays as it was. The choice of the branch stays.
    pub open spec fn event_rule(
        pre: Self,
        ctx0: EventCtxView,
        event: Event,
        data: T,
        env: Env,
        post: Self,
        ctx1: EventCtxView,
    ) -> bool {
        &&& post.predicate() == pre.predicate()
        &&& post.spec_current() == pre.spec_current()
        &&& if event.spec_should_propagate_to_hidden() {
            exists|mid: EventCtxView|
                {
                    &&& #[trigger] WidgetPod::<T, A>::event_step(
                        pre.true_pod(),
                        ctx0,
                        event,
                        data,
                        env,
                        post.true_pod(),
                        mid,
                    )
                    &&& WidgetPod::<T, B>::event_step(
                        pre.false_pod(),
                        mid,
                        event,
                        data,
                        env,
                        post.false_pod(),
                        ctx1,
                    )
                }
        } else if pre.spec_current() {
            &&& WidgetPod::<T, A>::event_step(
                pre.true_pod(),
                ctx0,
                event,
                data,
                env,
                post.true_pod(),
                ctx1,
            )
            &&& post.false_pod() == pre.false_pod()
        } else {
            &&& WidgetPod::<T, B>::event_step(
                pre.false_pod(),
                ctx0,
                event,
                data,
                env,
                post.false_pod(),
                ctx1,
            )
            &&& post.true_pod() == pre.true_pod()
        }
    }

    /// When the node is added to the tree the predicate is asked, without a
    /// diff, and its answer is the branch that is shown; any other notice
    /// leaves the choice as it was. A notice that a hidden node must see
    /// goes to the true branch and then to the false branch. Any other goes
    /// to the branch that is shown, and the other branch stays as it was.
    pub open spec fn lifecycle_rule(
        pre: Self,
        ctx0: PassCtxView,
        event: LifeCycle,
        data: T,
        env: Env,
        post: Self,
        ctx1: PassCtxView,
    ) -> bool {
        &&& post.predicate() == pre.predicate()
        &&& if event is WidgetAdded {
            call_ensures(pre.predicate(), (&data, None::<&T::Diff>, &env), post.spec_current())
        } else {
            post.spec_current() == pre.spec_current()
        }
        &&& if event.spec_should_propagate_to_hidden() {
            exists|mid: PassCtxView|
                {
                    &&& #[trigger] WidgetPod::<T, A>::lifecycle_step(
                        pre.true_pod(),
                        ctx0,
                        event,
                        data,
                        env,
                        post.true_pod(),
                        mid,
                    )
                    &&& WidgetPod::<T, B>::lifecycle_step(
                        pre.false_pod(),
                        mid,
                        event,
                        data,
                        env,
                        post.false_pod(),
                        ctx1,
                    )
                }
        } else if post.spec_current() {
            &&& WidgetPod::<T, A>::lifecycle_step(
                pre.true_pod(),
                ctx0,
                event,
                data,
                env,
                post.true_pod(),
                ctx1,
            )
            &&& post.false_pod() == pre.false_pod()
        } else {
            &&& WidgetPod::<T, B>::lifecycle_step(
                pre.false_pod(),
                ctx0,
                event,
                data,
                env,
                post.false_pod(),
                ctx1,
            )
            &&& post.true_pod() == pre.true_pod()
        }
    }

    /// The predicate is asked with the diff, and its answer is the branch
    /// that is shown from then on. Where that is another branch than before,
    /// a layout is asked for. The diff goes to the branch that is shown now,
    /// and to no other.
    pub open spec fn update_rule(
        pre: Self,
        ctx0: PassCtxView,
        old_data: T,
        diff: T::Diff,
        env: Env,
        post: Self,
        ctx1: PassCtxView,
    ) -> bool {
        let asked = if post.spec_current() != pre.spec_current() {
            PassCtxView { requests: Requests { layout: true, ..ctx0.requests }, ..ctx0 }
        } else {
            ctx0
        };
        &&& post.predicate() == pre.predicate()
        &&& call_ensures(pre.predicate(), (&old_data, Some(&diff), &env), post.spec_current())
        &&& if post.spec_current() {
            &&& WidgetPod::<T, A>::update_step(
                pre.true_pod(),
                asked,
                old_data,
                diff,
                env,
                post.true_pod(),
                ctx1,
            )
            &&& post.false_pod() == pre.false_pod()
        } else {
            &&& WidgetPod::<T, B>::update_step(
                pre.false_pod(),
                asked,
                old_data,
                diff,
                env,
                post.false_pod(),
                ctx1,
            )
            &&& post.true_pod() == pre.true_pod()
        }
    }

    /// The branch that is shown is laid out within the same constraints and
    /// placed at the origin; its size is the node's size, and its paint
    /// insets are the node's. The other branch stays as it was.
    pub open spec fn layout_rule(
        pre: Self,
        ctx0: LayoutCtxView,
        bc: BoxConstraints,
        data: T,
        env: Env,
        post: Self,
        ctx1: LayoutCtxView,
        size: kurbo::Size,
    ) -> bool {
        &&& post.predicate() == pre.predicate()
        &&& post.spec_current() == pre.spec_current()
        &&& if pre.spec_current() {
            &&& WidgetPod::<T, A>::layout_step(
                pre.true_pod(),
                bc,
                data,
                env,
                PodView { origin: pre.true_pod().origin, ..post.true_pod() },
                size,
            )
            &&& post.true_pod().origin is Some
            &&& is_origin(post.true_pod().origin.unwrap())
            &&& ctx1 == (LayoutCtxView { paint_insets: post.true_pod().paint_insets })
            &&& post.false_pod() == pre.false_pod()
        } else {
            &&& WidgetPod::<T, B>::layout_step(
                pre.false_pod(),
                bc,
                data,
                env,
                PodView { origin: pre.false_pod().origin, ..post.false_pod() },
                size,
            )
            &&& post.false_pod().origin is Some
            &&& is_origin(post.false_pod().origin.unwrap())
            &&& ctx1 == (LayoutCtxView { paint_insets: post.false_pod().paint_insets })
            &&& post.true_pod() == pre.true_pod()
        }
    }

    /// The branch that is shown is painted. The other branch stays as it
    /// was.
    pub open spec fn paint_rule(
        pre: Self,
        ctx0: Seq<PaintOp>,
        data: T,
        env: Env,
        post: Self,
        ctx1: Seq<PaintOp>,
    ) -> bool {
        &&& post.predicate() == pre.predicate()
        &&& post.spec_current() == pre.spec_current()
        &&& if pre.spec_current() {
            &&& WidgetPod::<T, A>::paint_step(pre.true_pod(), ctx0, data, env, post.true_pod(), ctx1)
            &&& post.false_pod() == pre.false_pod()
        } else {
            &&& WidgetPod::<T, B>::paint_step(
                pre.false_pod(),
                ctx0,
                data,
                env,
                post.false_pod(),
                ctx1,
            )
            &&& post.true_pod() == pre.true_pod()
        }
    }

    /// The relations of the passes are the rules of the same names: what the
    /// contracts of the passes state of a conditional node can be read off
    /// from `event_rule`, `lifecycle_rule`, `update_rule`, `layout_rule` and
    /// `paint_rule`.
    pub proof fn lemma_rules(&self)
        ensures
            forall|node: Self| #[trigger] node.inv() == node.valid(),
            forall|node: Self| #[trigger] node.laid_out() == node.ready(),
            forall|
                pre: Self,
                ctx0: EventCtxView,
                event: Event,
                data: T,
                env: Env,
                post: Self,
                ctx1: EventCtxView,
            |
                #[trigger] <Self as Widget<T>>::event_step(pre, ctx0, event, data, env, post, ctx1)
                    == Self::event_rule(pre, ctx0, event, data, env, post, ctx1),
            forall|
                pre: Self,
                ctx0: PassCtxView,
                event: LifeCycle,
                data: T,
                env: Env,
                post: Self,
                ctx1: PassCtxView,
            |
                #[trigger] <Self as Widget<T>>::lifecycle_step(pre, ctx0, event, data, env, post, ctx1)
                    == Self::lifecycle_rule(pre, ctx0, event, data, env, post, ctx1),
            forall|
                pre: Self,
                ctx0: PassCtxView,
                old_data: T,
                diff: T::Diff,
                env: Env,
                post: Self,
                ctx1: PassCtxView,
            |
                #[trigger] <Self as Widget<T>>::update_step(pre, ctx0, old_data, diff, env, post, ctx1)
                    == Self::update_rule(pre, ctx0, old_data, diff, env, post, ctx1),
            forall|
                pre: Self,
                ctx0: LayoutCtxView,
                bc: BoxConstraints,
                data: T,
                env: Env,
                post: Self,
                ctx1: LayoutCtxView,
                size: kurbo::Size,
            |
                #[trigger] <Self as Widget<T>>::layout_step(pre, ctx0, bc, data, env, post, ctx1, size)
                    == Self::layout_rule(pre, ctx0, bc, data, env, post, ctx1, size),
            forall|
                pre: Self,
                ctx0: Seq<PaintOp>,
                data: T,
                env: Env,
                post: Self,
                ctx1: Seq<PaintOp>,
            |
                #[trigger] <Self as Widget<T>>::paint_step(pre, ctx0, data, env, post, ctx1)
                    == Self::paint_rule(pre, ctx0, data, env, post, ctx1),
    {
    }

    /// Whether the true branch is the one that is shown.
    #[verifier::when_used_as_spec(spec_current)]
    pub fn current(&self) -> (current: bool)
        ensures
            current == self.spec_current(),
    {
        self.current
    }

    /// The handle of the true branch.
    pub fn true_branch(&self) -> (pod: &WidgetPod<T, A>)
        ensures
            pod@ == self.true_pod(),
    {
        &self.true_branch
    }

    /// The handle of the false branch.
    pub fn false_branch(&self) -> (pod: &WidgetPod<T, B>)
        ensures
            pod@ == self.false_pod(),
    {
        &self.false_branch
    }
}

impl<T: Diffable, F: Fn(&T, Option<&T::Diff>, &Env) -> bool, A: Widget<T>, B: Widget<T>> Widget<
    T,
> for Either<T, F, A, B> {
    /// See `valid`.
    open spec fn inv(&self) -> bool {
        self.valid()
    }

    /// See `ready`.
    open spec fn laid_out(&self) -> bool {
        self.ready()
    }

    /// See `event_rule`.
    open spec fn event_step(
        pre: Self,
        ctx0: EventCtxView,
        event: Event,
        data: T,
        env: Env,
        post: Self,
        ctx1: EventCtxView,
    ) -> bool {
        Self::event_rule(pre, ctx0, event, data, env, post, ctx1)
    }

    /// See `lifecycle_rule`.
    open spec fn lifecycle_step(
        pre: Self,
        ctx0: PassCtxView,
        event: LifeCycle,
        data: T,
        env: Env,
        post: Self,
        ctx1: PassCtxView,
    ) -> bool {
        Self::lifecycle_rule(pre, ctx0, event, data, env, post, ctx1)
    }

    /// See `update_rule`.
    open spec fn update_step(
        pre: Self,
        ctx0: PassCtxView,
        old_data: T,
        diff: T::Diff,
        env: Env,
        post: Self,
        ctx1: PassCtxView,
    ) -> bool {
        Self::update_rule(pre, ctx0, old_data, diff, env, post, ctx1)
    }

    /// See `layout_rule`.
    open spec fn layout_step(
        pre: Self,
        ctx0: LayoutCtxView,
        bc: BoxConstraints,
        data: T,
        env: Env,
        post: Self,
        ctx1: LayoutCtxView,
        size: kurbo::Size,
    ) -> bool {
        Self::layout_rule(pre, ctx0, bc, data, env, post, ctx1, size)
    }

    /// See `paint_rule`.
    open spec fn paint_step(
        pre: Self,
        ctx0: Seq<PaintOp>,
        data: T,
        env: Env,
        post: Self,
        ctx1: Seq<PaintOp>,
    ) -> bool {
        Self::paint_rule(pre, ctx0, data, env, post, ctx1)
    }

    fn event(&mut self, ctx: &mut EventCtx, event: &Event, data: &T, env: &Env) {
        if event.should_propagate_to_hidden() {
            self.true_branch.event(ctx, event, data, env);
            let ghost mid = ctx@;
            self.false_branch.event(ctx, event, data, env);
            proof {
                assert(WidgetPod::<T, A>::event_step(
                    old(self).true_pod(),
                    old(ctx)@,
                    *event,
                    *data,
                    *env,
                    self.true_pod(),
                    mid,
                ));
                lemma_prefix_transitive(old(ctx)@.commands, mid.commands, ctx@.commands);
            }
        } else if self.current {
            self.true_branch.event(ctx, event, data, env);
        } else {
            self.false_branch.event(ctx, event, data, env);
        }
    }

    fn lifecycle(&mut self, ctx: &mut LifeCycleCtx, event: &LifeCycle, data: &T, env: &Env) {
        if let LifeCycle::WidgetAdded = event {
            self.current = (self.closure)(data, None, env);
        }
        if event.should_propagate_to_hidden() {
            self.true_branch.lifecycle(ctx, event, data, env);
            let ghost mid = ctx@;
            self.false_branch.lifecycle(ctx, event, data, env);
            proof {
                assert(WidgetPod::<T, A>::lifecycle_step(
                    old(self).true_pod(),
                    old(ctx)@,
                    *event,
                    *data,
                    *env,
                    self.true_pod(),
                    mid,
                ));
                lemma_prefix_transitive(old(ctx)@.commands, mid.commands, ctx@.commands);
            }
        } else if self.current {
            self.true_branch.lifecycle(ctx, event, data, env);
        } else {
            self.false_branch.lifecycle(ctx, event, data, env);
        }
    }

    fn update(&mut self, ctx: &mut UpdateCtx, old_data: &T, diff: &T::Diff, env: &Env) {
        let current = (self.closure)(old_data, Some(diff), env);
        if current != self.current {
            self.current = current;
            ctx.request_layout();
        }
        let ghost asked = ctx@;
        if self.current {
            self.true_branch.update(ctx, old_data, diff, env);
        } else {
            self.false_branch.update(ctx, old_data, diff, env);
        }
        proof {
            lemma_prefix_transitive(old(ctx)@.commands, asked.commands, ctx@.commands);
        }
    }

    fn layout(&mut self, ctx: &mut LayoutCtx, bc: &BoxConstraints, data: &T, env: &Env) -> (size:
        kurbo::Size) {
        if self.current {
            let size = self.true_branch.layout(ctx, bc, data, env);
            let ghost laid = self.true_branch@;
            self.true_branch.set_origin(ctx, data, env, origin());
            ctx.set_paint_insets(self.true_branch.paint_insets());
            proof {
                assert(laid == (PodView { origin: old(self).true_pod().origin, ..self.true_pod() }));
            }
            size
        } else {
            let size = self.false_branch.layout(ctx, bc, data, env);
            let ghost laid = self.false_branch@;
            self.false_branch.set_origin(ctx, data, env, origin());
            ctx.set_paint_insets(self.false_branch.paint_insets());
            proof {
                assert(laid == (PodView { origin: old(self).false_pod().origin, ..self.false_pod() }));
            }
            size
        }
    }

    fn paint(&mut self, ctx: &mut PaintCtx, data: &T, env: &Env) {
        if self.current {
            self.true_branch.paint(ctx, data, env);
        } else {
            self.false_branch.paint(ctx, data, env);
        }
    }
}

/// The passes of a run of updates: the context before and after each pass,
/// and the environment of each.
pub struct UpdatePass {
    pub ctx0: PassCtxView,
    pub ctx1: PassCtxView,
    pub env: Env,
}

/// Whether `states` are the states of a conditional node through a run of
/// update passes: the state starts at `start`, the diffs `diffs` are applied
/// to it one after the other, and each is handed to the node, with the state
/// that it is applied to, in the pass of the same place.
pub open spec fn update_run<
    T: Diffable,
    F: Fn(&T, Option<&T::Diff>, &Env) -> bool,
    A: Widget<T>,
    B: Widget<T>,
>(states: Seq<Either<T, F, A, B>>, passes: Seq<UpdatePass>, start: T, diffs: Seq<T::Diff>) -> bool {
    &&& states.len() == diffs.len() + 1
    &&& passes.len() == diffs.len()
    &&& forall|i: int|
        0 <= i < diffs.len() ==> Either::<T, F, A, B>::update_step(
            #[trigger] states[i],
            passes[i].ctx0,
            applied_all(start, diffs.take(i)),
            diffs[i],
            passes[i].env,
            states[i + 1],
            passes[i].ctx1,
        )
}

/// Through any run of update passes, the branch that is shown after each
/// pass is the one that the predicate names for the state and the diff of
/// that pass, and the branch that is not shown was left as it was.
pub proof fn lemma_shown_branch_follows_predicate<
    T: Diffable,
    F: Fn(&T, Option<&T::Diff>, &Env) -> bool,
    A: Widget<T>,
    B: Widget<T>,
>(states: Seq<Either<T, F, A, B>>, passes: Seq<UpdatePass>, start: T, diffs: Seq<T::Diff>, at: int)
    requires
        update_run(states, passes, start, diffs),
        0 <= at < diffs.len(),
    ensures
        states[at + 1].predicate() == states[0].predicate(),
        call_ensures(
            states[0].predicate(),
            (&applied_all(start, diffs.take(at)), Some(&diffs[at]), &passes[at].env),
            states[at + 1].spec_current(),
        ),
        states[at + 1].spec_current() ==> states[at + 1].false_pod() == states[at].false_pod(),
        !states[at + 1].spec_current() ==> states[at + 1].true_pod() == states[at].true_pod(),
    decreases at,
{
    let now = states[at];
    assert(Either::<T, F, A, B>::update_step(
        now,
        passes[at].ctx0,
        applied_all(start, diffs.take(at)),
        diffs[at],
        passes[at].env,
        states[at + 1],
        passes[at].ctx1,
    ));
    if at > 0 {
        lemma_shown_branch_follows_predicate(states, passes, start, diffs, at - 1);
    }
}

/// A layout pass keeps the choice of the branch, and leaves the branch that
/// is not shown as it was.
pub proof fn lemma_layout_keeps_hidden_branch<
    T: Diffable,
    F: Fn(&T, Option<&T::Diff>, &Env) -> bool,
    A: Widget<T>,
    B: Widget<T>,
>(
    pre: Either<T, F, A, B>,
    ctx0: LayoutCtxView,
    bc: BoxConstraints,
    data: T,
    env: Env,
    post: Either<T, F, A, B>,
    ctx1: LayoutCtxView,
    size: kurbo::Size,
)
    requires
        Either::<T, F, A, B>::layout_step(pre, ctx0, bc, data, env, post, ctx1, size),
    ensures
        post.spec_current() == pre.spec_current(),
        pre.spec_current() ==> post.false_pod() == pre.false_pod(),
        !pre.spec_current() ==> post.true_pod() == pre.true_pod(),
{
}

/// A paint pass keeps the choice of the branch, and leaves the branch that
/// is not shown as it was.
pub proof fn lemma_paint_keeps_hidden_branch<
    T: Diffable,
    F: Fn(&T, Option<&T::Diff>, &Env) -> bool,
    A: Widget<T>,
    B: Widget<T>,
>(
    pre: Either<T, F, A, B>,
    ctx0: Seq<PaintOp>,
    data: T,
    env: Env,
    post: Either<T, F, A, B>,
    ctx1: Seq<PaintOp>,
)
    requires
        Either::<T, F, A, B>::paint_step(pre, ctx0, data, env, post, ctx1),
    ensures
        post.spec_current() == pre.spec_current(),
        pre.spec_current() ==> post.false_pod() == pre.false_pod(),
        !pre.spec_current() ==> post.true_pod() == pre.true_pod(),
{
}

} // verus!
