//! The contexts of the passes.
//!
//! A node gets one with each pass. Through it the node asks for what is to
//! follow (a repaint, a new layout, a command); it cannot take a request
//! back, and it cannot reach the tree.

use crate::dnd::DropContext;
use crate::event::Command;
use vstd::prelude::*;

verus! {

/// What a node has asked for.
#[derive(Clone, Copy, Debug, PartialEq, Eq, Structural)]
pub struct Requests {
    pub paint: bool,
    pub layout: bool,
}

impl Requests {
    /// Whether every request of `self` is one of `other`.
    pub open spec fn within(self, other: Requests) -> bool {
        (self.paint ==> other.paint) && (self.layout ==> other.layout)
    }

    /// The requests of both.
    pub open spec fn spec_union(self, other: Requests) -> Requests {
        Requests { paint: self.paint || other.paint, layout: self.layout || other.layout }
    }

    /// No request.
    pub fn none() -> (requests: Requests)
        ensures
            requests == (Requests { paint: false, layout: false }),
    {
        Requests { paint: false, layout: false }
    }

    /// The requests of both.
    #[verifier::when_used_as_spec(spec_union)]
    pub fn union(self, other: Requests) -> (both: Requests)
        ensures
            both == self.spec_union(other),
    {
        Requests { paint: self.paint || other.paint, layout: self.layout || other.layout }
    }
}

/// What the context of an event pass holds.
pub struct EventCtxView {
    pub requests: Requests,
    pub commands: Seq<Command>,
    pub drop_context: Option<DropContext>,
    pub is_handled: bool,
}

impl EventCtxView {
    /// Whether `self` holds all that `earlier` held: its requests, its
    /// commands as the first ones, and its mark that the event was handled.
    pub open spec fn extends(self, earlier: EventCtxView) -> bool {
        &&& earlier.requests.within(self.requests)
        &&& earlier.commands.is_prefix_of(self.commands)
        &&& earlier.is_handled ==> self.is_handled
        &&& earlier.drop_context is Some == self.drop_context is Some
    }
}

/// The context of an event pass.
pub struct EventCtx {
    requests: Requests,
    commands: Vec<Command>,
    drop_context: Option<DropContext>,
    is_handled: bool,
}

impl View for EventCtx {
    type V = EventCtxView;

    closed spec fn view(&self) -> EventCtxView {
        EventCtxView {
            requests: self.requests,
            commands: self.commands@,
            drop_context: self.drop_context,
            is_handled: self.is_handled,
        }
    }
}

impl EventCtx {
    /// A context in which nothing was asked for yet. It holds the drag
    /// gesture that is under way, if there is one.
    pub fn new(drop_context: Option<DropContext>) -> (ctx: EventCtx)
        ensures
            ctx@ == (EventCtxView {
                requests: Requests { paint: false, layout: false },
                commands: Seq::empty(),
                drop_context,
                is_handled: false,
            }),
    {
        EventCtx { requests: Requests::none(), commands: Vec::new(), drop_context, is_handled: false }
    }

    /// Asks for a repaint.
    pub fn request_paint(&mut self)
        ensures
            final(self)@ == (EventCtxView {
                requests: Requests { paint: true, ..old(self)@.requests },
                ..old(self)@
            }),
    {
        self.requests.paint = true;
    }

    /// Asks for a new layout.
    pub fn request_layout(&mut self)
        ensures
            final(self)@ == (EventCtxView {
                requests: Requests { layout: true, ..old(self)@.requests },
                ..old(self)@
            }),
    {
        self.requests.layout = true;
    }

    /// Sends `command` to the tree, after those that were sent before.
    pub fn submit_command(&mut self, command: Command)
        ensures
            final(self)@ == (EventCtxView {
                commands: old(self)@.commands.push(command),
                ..old(self)@
            }),
    {
        self.commands.push(command);
    }

    /// Marks the event as handled.
    pub fn set_handled(&mut self)
        ensures
            final(self)@ == (EventCtxView { is_handled: true, ..old(self)@ }),
    {
        self.is_handled = true;
    }

    /// Whether the event was marked as handled.
    pub fn is_handled(&self) -> (handled: bool)
        ensures
            handled == self@.is_handled,
    {
        self.is_handled
    }

    /// What was asked for.
    pub fn requests(&self) -> (requests: Requests)
        ensures
            requests == self@.requests,
    {
        self.requests
    }

    /// The commands that were sent, in their order.
    pub fn commands(&self) -> (commands: &Vec<Command>)
        ensures
            commands@ == self@.commands,
    {
        &self.commands
    }

    /// The drag gesture that is under way, if there is one. What the node
    /// answers through it stays with the context.
    pub fn drop_context(&mut self) -> (gesture: Option<&mut DropContext>)
        ensures
            match old(self)@.drop_context {
                None => gesture is None && final(self)@ == old(self)@,
                Some(before) => gesture is Some && *gesture.unwrap() == before && final(self)@ == (
                EventCtxView { drop_context: Some(*final(gesture.unwrap())), ..old(self)@ }),
            },
    {
        self.drop_context.as_mut()
    }

    /// Ends the pass: gives up the drag gesture, with its answer.
    pub fn into_drop_context(self) -> (gesture: Option<DropContext>)
        ensures
            gesture == self@.drop_context,
    {
        self.drop_context
    }

    /// Puts `requests` in place of what was asked for, and returns that.
    pub(crate) fn replace_requests(&mut self, requests: Requests) -> (before: Requests)
        ensures
            before == old(self)@.requests,
            final(self)@ == (EventCtxView { requests, ..old(self)@ }),
    {
        let before = self.requests;
        self.requests = requests;
        before
    }

    /// Adds `requests` to what was asked for.
    pub(crate) fn add_requests(&mut self, requests: Requests)
        ensures
            final(self)@ == (EventCtxView {
                requests: old(self)@.requests.spec_union(requests),
                ..old(self)@
            }),
    {
        self.requests = self.requests.union(requests);
    }
}

/// What the context of a lifecycle pass or of an update pass holds.
pub struct PassCtxView {
    pub requests: Requests,
    pub commands: Seq<Command>,
}

impl PassCtxView {
    /// Whether `self` holds all that `earlier` held: its requests, and its
    /// commands as the first ones.
    pub open spec fn extends(self, earlier: PassCtxView) -> bool {
        &&& earlier.requests.within(self.requests)
        &&& earlier.commands.is_prefix_of(self.commands)
    }
}

/// The context of a lifecycle pass.
pub struct LifeCycleCtx {
    requests: Requests,
    commands: Vec<Command>,
}

impl View for LifeCycleCtx {
    type V = PassCtxView;

    closed spec fn view(&self) -> PassCtxView {
        PassCtxView { requests: self.requests, commands: self.commands@ }
    }
}

impl LifeCycleCtx {
    /// A context in which nothing was asked for yet.
    pub fn new() -> (ctx: LifeCycleCtx)
        ensures
            ctx@ == (PassCtxView {
                requests: Requests { paint: false, layout: false },
                commands: Seq::empty(),
            }),
    {
        LifeCycleCtx { requests: Requests::none(), commands: Vec::new() }
    }

    /// Asks for a repaint.
    pub fn request_paint(&mut self)
        ensures
            final(self)@ == (PassCtxView {
                requests: Requests { paint: true, ..old(self)@.requests },
                ..old(self)@
            }),
    {
        self.requests.paint = true;
    }

    /// Asks for a new layout.
    pub fn request_layout(&mut self)
        ensures
            final(self)@ == (PassCtxView {
                requests: Requests { layout: true, ..old(self)@.requests },
                ..old(self)@
            }),
    {
        self.requests.layout = true;
    }

    /// Sends `command` to the tree, after those that were sent before.
    pub fn submit_command(&mut self, command: Command)
        ensures
            final(self)@ == (PassCtxView {
                commands: old(self)@.commands.push(command),
                ..old(self)@
            }),
    {
        self.commands.push(command);
    }

    /// What was asked for.
    pub fn requests(&self) -> (requests: Requests)
        ensures
            requests == self@.requests,
    {
        self.requests
    }

    /// The commands that were sent, in their order.
    pub fn commands(&self) -> (commands: &Vec<Command>)
        ensures
            commands@ == self@.commands,
    {
        &self.commands
    }

    /// Puts `requests` in place of what was asked for, and returns that.
    pub(crate) fn replace_requests(&mut self, requests: Requests) -> (before: Requests)
        ensures
            before == old(self)@.requests,
            final(self)@ == (PassCtxView { requests, ..old(self)@ }),
    {
        let before = self.requests;
        self.requests = requests;
        before
    }

    /// Adds `requests` to what was asked for.
    pub(crate) fn add_requests(&mut self, requests: Requests)
        ensures
            final(self)@ == (PassCtxView {
                requests: old(self)@.requests.spec_union(requests),
                ..old(self)@
            }),
    {
        self.requests = self.requests.union(requests);
    }
}

/// The context of an update pass.
pub struct UpdateCtx {
    requests: Requests,
    commands: Vec<Command>,
}

impl View for UpdateCtx {
    type V = PassCtxView;

    closed spec fn view(&self) -> PassCtxView {
        PassCtxView { requests: self.requests, commands: self.commands@ }
    }
}

impl UpdateCtx {
    /// A context in which nothing was asked for yet.
    pub fn new() -> (ctx: UpdateCtx)
        ensures
            ctx@ == (PassCtxView {
                requests: Requests { paint: false, layout: false },
                commands: Seq::empty(),
            }),
    {
        UpdateCtx { requests: Requests::none(), commands: Vec::new() }
    }

    /// Asks for a repaint.
    pub fn request_paint(&mut self)
        ensures
            final(self)@ == (PassCtxView {
                requests: Requests { paint: true, ..old(self)@.requests },
                ..old(self)@
            }),
    {
        self.requests.paint = true;
    }

    /// Asks for a new layout.
    pub fn request_layout(&mut self)
        ensures
            final(self)@ == (PassCtxView {
                requests: Requests { layout: true, ..old(self)@.requests },
                ..old(self)@
            }),
    {
        self.requests.layout = true;
    }

    /// Sends `command` to the tree, after those that were sent before.
    pub fn submit_command(&mut self, command: Command)
        ensures
            final(self)@ == (PassCtxView {
                commands: old(self)@.commands.push(command),
                ..old(self)@
            }),
    {
        self.commands.push(command);
    }

    /// What was asked for.
    pub fn requests(&self) -> (requests: Requests)
        ensures
            requests == self@.requests,
    {
        self.requests
    }

    /// The commands that were sent, in their order.
    pub fn commands(&self) -> (commands: &Vec<Command>)
        ensures
            commands@ == self@.commands,
    {
        &self.commands
    }

    /// Puts `requests` in place of what was asked for, and returns that.
    pub(crate) fn replace_requests(&mut self, requests: Requests) -> (before: Requests)
        ensures
            before == old(self)@.requests,
            final(self)@ == (PassCtxView { requests, ..old(self)@ }),
    {
        let before = self.requests;
        self.requests = requests;
        before
    }

    /// Adds `requests` to what was asked for.
    pub(crate) fn add_requests(&mut self, requests: Requests)
        ensures
            final(self)@ == (PassCtxView {
                requests: old(self)@.requests.spec_union(requests),
                ..old(self)@
            }),
    {
        self.requests = self.requests.union(requests);
    }
}

/// What the context of a layout pass holds.
pub struct LayoutCtxView {
    /// How far the node paints beyond its box, where it has said so.
    pub paint_insets: Option<kurbo::Insets>,
}

/// The context of a layout pass.
pub struct LayoutCtx {
    paint_insets: Option<kurbo::Insets>,
}

impl View for LayoutCtx {
    type V = LayoutCtxView;

    closed spec fn view(&self) -> LayoutCtxView {
        LayoutCtxView { paint_insets: self.paint_insets }
    }
}

impl LayoutCtx {
    /// The context of a node whose paint insets are `paint_insets`.
    pub fn new(paint_insets: Option<kurbo::Insets>) -> (ctx: LayoutCtx)
        ensures
            ctx@ == (LayoutCtxView { paint_insets }),
    {
        LayoutCtx { paint_insets }
    }

    /// Says how far the node paints beyond its box.
    pub fn set_paint_insets(&mut self, paint_insets: Option<kurbo::Insets>)
        ensures
            final(self)@ == (LayoutCtxView { paint_insets }),
    {
        self.paint_insets = paint_insets;
    }

    /// How far the node paints beyond its box, where it has said so.
    pub fn paint_insets(&self) -> (paint_insets: Option<kurbo::Insets>)
        ensures
            paint_insets == self@.paint_insets,
    {
        self.paint_insets
    }
}

/// One instruction to the paint surface.
#[derive(Clone, Copy)]
pub enum PaintOp {
    /// Keeps the surface's state, to be brought back by `Restore`.
    Save,
    /// Brings back the state that the last open `Save` kept.
    Restore,
    /// Moves the origin to the given point.
    Translate(kurbo::Point),
    /// Confines painting to a box of the given size at the origin.
    Clip(kurbo::Size),
    /// Fills the given rectangle with the given colour.
    Fill(kurbo::Rect, u32),
}

/// The context of a paint pass: the instructions that go to the paint
/// surface, in their order.
pub struct PaintCtx {
    ops: Vec<PaintOp>,
}

impl View for PaintCtx {
    type V = Seq<PaintOp>;

    closed spec fn view(&self) -> Seq<PaintOp> {
        self.ops@
    }
}

impl PaintCtx {
    /// A context without instructions.
    pub fn new() -> (ctx: PaintCtx)
        ensures
            ctx@ == Seq::<PaintOp>::empty(),
    {
        PaintCtx { ops: Vec::new() }
    }

    /// Keeps the surface's state.
    pub fn save(&mut self)
        ensures
            final(self)@ == old(self)@.push(PaintOp::Save),
    {
        self.ops.push(PaintOp::Save);
    }

    /// Brings back the state that was kept last.
    pub fn restore(&mut self)
        ensures
            final(self)@ == old(self)@.push(PaintOp::Restore),
    {
        self.ops.push(PaintOp::Restore);
    }

    /// Moves the origin to `to`.
    pub fn translate(&mut self, to: kurbo::Point)
        ensures
            final(self)@ == old(self)@.push(PaintOp::Translate(to)),
    {
        self.ops.push(PaintOp::Translate(to));
    }

    /// Confines painting to a box of the size `size` at the origin.
    pub fn clip(&mut self, size: kurbo::Size)
        ensures
            final(self)@ == old(self)@.push(PaintOp::Clip(size)),
    {
        self.ops.push(PaintOp::Clip(size));
    }

    /// Fills `rect` with `colour`.
    pub fn fill(&mut self, rect: kurbo::Rect, colour: u32)
        ensures
            final(self)@ == old(self)@.push(PaintOp::Fill(rect, colour)),
    {
        self.ops.push(PaintOp::Fill(rect, colour));
    }

    /// The instructions that were given, in their order.
    pub fn ops(&self) -> (ops: &Vec<PaintOp>)
        ensures
            ops@ == self@,
    {
        &self.ops
    }
}

/// What begins what begins a sequence begins the sequence.
pub proof fn lemma_prefix_transitive<E>(a: Seq<E>, b: Seq<E>, c: Seq<E>)
    requires
        a.is_prefix_of(b),
        b.is_prefix_of(c),
    ensures
        a.is_prefix_of(c),
{
    assert(a =~= c.subrange(0, a.len() as int));
}

} // verus!
