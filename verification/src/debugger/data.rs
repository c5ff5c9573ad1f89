//! What the inspector holds.

use crate::event::EventId;
use crate::event::EventKind;
use crate::event::Selector;
use crate::event::WidgetId;
use crate::text::same_text;
use vstd::prelude::*;

verus! {

/// The selector of the command that reports an event that a node saw.
pub const EVENT: &'static str = "druid.dbg.event";

/// The selector of the command that reports a command that a node saw.
pub const COMMAND: &'static str = "druid.dbg.command";

/// The selector of the command that highlights a node, or ends the highlight.
pub const HIGHLIGHT: &'static str = "druid.dbg.highlight";

/// The selector of the command that opens the details of a group.
pub const SELECT_EVENT: &'static str = "druid-debugger.select-event";

/// The selector of the command that goes back to the list of groups.
pub const BACK_HOME: &'static str = "druid-debugger.back-home";

/// The selector of the command that asks for the items to be filtered anew.
pub const REFILTER: &'static str = "druid-debugger.refilter";

/// The screen that the inspector shows.
#[derive(Clone, Copy, Debug, PartialEq, Eq, Structural)]
pub enum Screen {
    /// The list of the groups.
    EventSelection,
    /// The items of the group at the given place.
    EventDetails(usize),
}

/// Which items the inspector keeps, by category.
#[derive(Debug)]
pub struct Filter {
    /// The text of the field for the nodes that are to be passed over.
    pub widget_ids: String,
    pub timer: bool,
    pub mouse: bool,
    pub mouse_move: bool,
    pub key: bool,
    pub window: bool,
    pub anim: bool,
    pub internal: bool,
    pub requests: bool,
}

impl Filter {
    /// Whether the filter has no text and no mark.
    pub open spec fn unmarked(&self) -> bool {
        &&& self.widget_ids@ == Seq::<char>::empty()
        &&& !self.timer
        &&& !self.mouse
        &&& !self.mouse_move
        &&& !self.key
        &&& !self.window
        &&& !self.anim
        &&& !self.internal
        &&& !self.requests
    }

    /// Whether the two filters hold the same text and the same marks.
    pub open spec fn spec_same(&self, other: &Filter) -> bool {
        &&& self.widget_ids@ == other.widget_ids@
        &&& self.timer == other.timer
        &&& self.mouse == other.mouse
        &&& self.mouse_move == other.mouse_move
        &&& self.key == other.key
        &&& self.window == other.window
        &&& self.anim == other.anim
        &&& self.internal == other.internal
        &&& self.requests == other.requests
    }

    /// Whether the two filters hold the same text and the same marks.
    #[verifier::when_used_as_spec(spec_same)]
    pub fn same(&self, other: &Filter) -> (same: bool)
        ensures
            same == self.spec_same(other),
    {
        same_text(self.widget_ids.as_str(), other.widget_ids.as_str()) && self.timer == other.timer
            && self.mouse == other.mouse && self.mouse_move == other.mouse_move && self.key
            == other.key && self.window == other.window && self.anim == other.anim && self.internal
            == other.internal && self.requests == other.requests
    }
}

impl Clone for Filter {
    fn clone(&self) -> (copy: Filter)
        ensures
            copy.spec_same(self),
    {
        Filter {
            widget_ids: self.widget_ids.clone(),
            timer: self.timer,
            mouse: self.mouse,
            mouse_move: self.mouse_move,
            key: self.key,
            window: self.window,
            anim: self.anim,
            internal: self.internal,
            requests: self.requests,
        }
    }
}

impl Default for Filter {
    /// The filter with no text and no mark: it keeps commands and
    /// notifications only.
    fn default() -> (filter: Filter)
        ensures
            filter.unmarked(),
    {
        Filter {
            widget_ids: String::new(),
            timer: false,
            mouse: false,
            mouse_move: false,
            key: false,
            window: false,
            anim: false,
            internal: false,
            requests: false,
        }
    }
}

/// What a node saw.
#[derive(Clone, Copy, Debug)]
pub enum ItemInner {
    /// An event of the given kind.
    Event(EventKind),
    /// A command with the given selector.
    Command(Selector),
}

/// What one node saw.
#[derive(Clone, Copy, Debug)]
pub struct Item {
    pub widget_id: WidgetId,
    pub inner: ItemInner,
}

/// What a group holds.
pub struct EventDataView {
    pub idx: usize,
    pub event_id: EventId,
    pub all_items: Seq<Item>,
}

/// A group: the items that were seen while one occurrence was handled, in
/// the order in which they came.
#[derive(Debug)]
pub struct EventData {
    /// The place of the group among the groups.
    pub idx: usize,
    pub event_id: EventId,
    pub all_items: Vec<Item>,
}

impl View for EventData {
    type V = EventDataView;

    open spec fn view(&self) -> EventDataView {
        EventDataView { idx: self.idx, event_id: self.event_id, all_items: self.all_items@ }
    }
}

/// The state of the inspector.
#[derive(Debug)]
pub struct DebuggerData {
    pub screen: Screen,
    pub all_items: Vec<EventData>,
    pub filter: Filter,
}

impl DebuggerData {
    /// The groups, in the order in which they were opened.
    pub open spec fn groups(&self) -> Seq<EventDataView> {
        self.all_items@.map_values(|group: EventData| group@)
    }
}

/// The names of the six selectors have six different lengths, so that no two
/// of them are the same token.
pub proof fn lemma_selector_lengths()
    ensures
        EVENT@.len() == 15,
        COMMAND@.len() == 17,
        HIGHLIGHT@.len() == 19,
        SELECT_EVENT@.len() == 27,
        BACK_HOME@.len() == 24,
        REFILTER@.len() == 23,
{
    reveal_strlit("druid.dbg.event");
    reveal_strlit("druid.dbg.command");
    reveal_strlit("druid.dbg.highlight");
    reveal_strlit("druid-debugger.select-event");
    reveal_strlit("druid-debugger.back-home");
    reveal_strlit("druid-debugger.refilter");
}

} // verus!
