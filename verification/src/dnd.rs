//! Drag and drop, as nodes and applications see it.

use crate::backend::dnd as backend;
use crate::backend::dnd::FormatId;
use crate::event::Modifiers;
use vstd::prelude::*;

verus! {

/// That something was dropped, and where.
#[derive(Clone, Copy)]
pub struct DropEvent {
    pub modifiers: Modifiers,
    pub position: kurbo::Point,
}

/// What a drop does with what is dragged.
#[derive(Clone, Copy, Debug, PartialEq, Eq, Structural)]
pub enum DropAction {
    Copy,
    Move,
}

/// The drag gesture that is under way. There is one for each gesture, and
/// it is gone when the gesture ends.
pub struct DropContext(pub(crate) backend::DropContext);

impl DropContext {
    /// The backend's state of the gesture.
    pub closed spec fn gesture(&self) -> backend::DropContext {
        self.0
    }

    /// The context of the gesture that the backend holds.
    pub fn new(gesture: backend::DropContext) -> (ctx: DropContext)
        ensures
            ctx.gesture() == gesture,
    {
        DropContext(gesture)
    }

    /// The backend's state of the gesture, with the answer that was given.
    pub fn into_inner(self) -> (gesture: backend::DropContext)
        ensures
            gesture == self.gesture(),
    {
        self.0
    }

    /// Refuses the gesture: no drop is acceptable. A later answer replaces
    /// this one.
    pub fn deny(&mut self)
        ensures
            old(self).gesture().answered(final(self).gesture(), backend::ACTION_NONE),
    {
        self.0.deny()
    }

    /// The action that the backend suggests: a copy unless it is exactly a
    /// move.
    pub fn action(&self) -> (action: DropAction)
        ensures
            action == backend::action_of(self.gesture().suggested()),
    {
        self.0.action()
    }

    /// Answers with `action`, in place of any earlier answer.
    pub fn set_action(&mut self, action: DropAction)
        ensures
            old(self).gesture().answered(final(self).gesture(), backend::bits_of(action)),
    {
        self.0.set_action(action)
    }

    /// The payload under `format`, and nothing where none is offered.
    pub fn get_format(&self, format: FormatId) -> (payload: Option<Vec<u8>>)
        ensures
            payload is Some == backend::payload_of(self.gesture().clipboard(), format@) is Some,
            payload matches Some(data) ==> Some(data@) == backend::payload_of(
                self.gesture().clipboard(),
                format@,
            ),
    {
        self.0.get_format(format)
    }

    /// The paths of the files that are dragged. A line that names no file is
    /// left out; there is no result only where no list of files came, or
    /// where what came is not text.
    pub fn files(&self) -> (paths: Option<Vec<String>>)
        ensures
            paths is Some == backend::files_of(self.gesture().clipboard()) is Some,
            paths matches Some(list) ==> Some(list.deep_view()) == backend::files_of(
                self.gesture().clipboard(),
            ),
    {
        self.0.files()
    }

    /// The first of `formats`, in the caller's order, that the drag source
    /// offers.
    pub fn preferred_format(&self, formats: &[FormatId]) -> (choice: Option<FormatId>)
        ensures
            match choice {
                Some(format) => exists|at: int|
                    backend::first_offered_at(self.gesture().targets(), formats@, at) && format
                        == formats@[at],
                None => forall|i: int|
                    0 <= i < formats@.len() ==> !backend::offers(
                        self.gesture().targets(),
                        #[trigger] formats@[i]@,
                    ),
            },
    {
        self.0.preferred_format(formats)
    }
}

} // verus!
