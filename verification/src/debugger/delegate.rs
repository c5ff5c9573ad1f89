//! What the inspector does with what reaches it.

use crate::contexts::EventCtx;
use crate::contexts::PassCtxView;
use crate::contexts::UpdateCtx;
use crate::debugger::data;
use crate::debugger::data::DebuggerData;
use crate::debugger::data::EventData;
use crate::debugger::data::EventDataView;
use crate::debugger::data::Filter;
use crate::debugger::data::Item;
use crate::debugger::data::ItemInner;
use crate::debugger::data::Screen;
use crate::event::Command;
use crate::event::Event;
use crate::event::EventId;
use crate::event::EventKind;
use crate::event::Payload;
use crate::event::Selector;
use crate::event::WidgetId;
use vstd::prelude::*;

verus! {

/// The part of the inspector that takes the commands: it fills the groups
/// and switches between the two screens.
#[derive(Debug)]
pub struct Delegate {
    filter: Option<Filter>,
}

/// Whether `filter` keeps an item that holds `inner`.
///
/// An event is kept where the mark of its category is set: the window's
/// events under `window`, the pointer's buttons, wheel and drags under
/// `mouse`, the pointer's moves under `mouse_move`, the keyboard's, a paste
/// and a zoom under `key`, a timer under `timer`, an animation frame under
/// `anim`, the framework's own under `internal`. Commands and
/// notifications are always kept.
pub open spec fn retains(filter: &Filter, inner: ItemInner) -> bool {
    match inner {
        ItemInner::Event(kind) => match kind {
            EventKind::WindowConnected
            | EventKind::WindowCloseRequested
            | EventKind::WindowDisconnected
            | EventKind::WindowSize => filter.window,
            EventKind::MouseDown
            | EventKind::MouseUp
            | EventKind::Wheel
            | EventKind::DropEnter
            | EventKind::DropLeave => filter.mouse,
            EventKind::MouseMove => filter.mouse_move,
            EventKind::KeyDown | EventKind::KeyUp | EventKind::Paste | EventKind::Zoom => filter.key,
            EventKind::Timer => filter.timer,
            EventKind::AnimFrame => filter.anim,
            EventKind::Command | EventKind::Notification => true,
            EventKind::Internal => filter.internal,
        },
        ItemInner::Command(_) => true,
    }
}

/// The groups after `item` has come for the occurrence `event_id`.
///
/// The item joins the last group where that is the group of `event_id`.
/// Otherwise it opens a new group at the end, also where an earlier group
/// has the same identifier: a group that is no longer the last one is never
/// opened again.
pub open spec fn with_item(groups: Seq<EventDataView>, event_id: EventId, item: Item) -> Seq<
    EventDataView,
> {
    if groups.len() > 0 && groups.last().event_id == event_id {
        groups.update(
            groups.len() - 1,
            EventDataView { all_items: groups.last().all_items.push(item), ..groups.last() },
        )
    } else {
        groups.push(
            EventDataView { idx: groups.len() as usize, event_id, all_items: seq![item] },
        )
    }
}

/// The groups after `item` has come, where only what the filter keeps gets in.
pub open spec fn with_kept_item(
    groups: Seq<EventDataView>,
    filter: &Filter,
    event_id: EventId,
    widget_id: WidgetId,
    inner: ItemInner,
) -> Seq<EventDataView> {
    if retains(filter, inner) {
        with_item(groups, event_id, Item { widget_id, inner })
    } else {
        groups
    }
}

/// The groups after `cmd` has been taken: a report of an event or of a
/// command adds its item, any other command leaves the groups as they are.
pub open spec fn groups_after(groups: Seq<EventDataView>, filter: &Filter, cmd: Command) -> Seq<
    EventDataView,
> {
    let seen = match cmd.spec_get(Selector { name: data::EVENT }) {
        Some(Payload::SeenEvent(event_id, widget_id, kind)) => with_kept_item(
            groups,
            filter,
            event_id,
            widget_id,
            ItemInner::Event(kind),
        ),
        _ => groups,
    };
    match cmd.spec_get(Selector { name: data::COMMAND }) {
        Some(Payload::SeenCommand(event_id, widget_id, selector)) => with_kept_item(
            seen,
            filter,
            event_id,
            widget_id,
            ItemInner::Command(selector),
        ),
        _ => seen,
    }
}

/// The screen after `cmd` has been taken: the details of a group where the
/// command selects one, the list of groups where it goes back, the same
/// screen otherwise.
pub open spec fn screen_after(screen: Screen, cmd: Command) -> Screen {
    let selected = match cmd.spec_get(Selector { name: data::SELECT_EVENT }) {
        Some(Payload::Index(idx)) => Screen::EventDetails(idx),
        _ => screen,
    };
    if cmd.spec_is(Selector { name: data::BACK_HOME }) {
        Screen::EventSelection
    } else {
        selected
    }
}

impl Default for Delegate {
    /// A delegate that has not seen a filter yet.
    fn default() -> (delegate: Delegate)
        ensures
            delegate.seen_filter() is None,
    {
        Delegate { filter: None }
    }
}

impl Delegate {
    /// The filter that the delegate saw in the last update pass.
    pub closed spec fn seen_filter(&self) -> Option<Filter> {
        self.filter
    }

    /// Events go past the delegate: it changes nothing.
    pub fn event(&mut self, _ctx: &mut EventCtx, _event: &Event, _data: &mut DebuggerData)
        ensures
            *final(self) == *old(self),
            *final(_ctx) == *old(_ctx),
            *final(_data) == *old(_data),
    {
    }

    /// Takes notice of the filter. Where the delegate has seen a filter
    /// before and this one differs from it, the delegate asks for the items
    /// to be filtered anew.
    pub fn update(&mut self, ctx: &mut UpdateCtx, data: &DebuggerData)
        ensures
            final(self).seen_filter() matches Some(seen) && seen.spec_same(&data.filter),
            final(ctx)@ == (if old(self).seen_filter() matches Some(before) && !before.spec_same(
                &data.filter,
            ) {
                PassCtxView {
                    commands: old(ctx)@.commands.push(
                        Command {
                            selector: Selector { name: data::REFILTER },
                            payload: Payload::Unit,
                            target: None,
                        },
                    ),
                    ..old(ctx)@
                }
            } else {
                old(ctx)@
            }),
    {
        let changed = match &self.filter {
            Some(before) => !before.same(&data.filter),
            None => false,
        };
        if changed {
            ctx.submit_command(Selector::new(data::REFILTER).with(Payload::Unit));
        }
        self.filter = Some(data.filter.clone());
    }

    /// Whether `filter` keeps `item`.
    pub fn filter_item(&mut self, filter: &Filter, item: &Item) -> (show: bool)
        ensures
            show == retains(filter, item.inner),
            *final(self) == *old(self),
    {
        match item.inner {
            ItemInner::Event(kind) => match kind {
                EventKind::WindowConnected => filter.window,
                EventKind::WindowCloseRequested => filter.window,
                EventKind::WindowDisconnected => filter.window,
                EventKind::WindowSize => filter.window,
                EventKind::MouseDown => filter.mouse,
                EventKind::MouseUp => filter.mouse,
                EventKind::MouseMove => filter.mouse_move,
                EventKind::Wheel => filter.mouse,
                EventKind::DropEnter => filter.mouse,
                EventKind::DropLeave => filter.mouse,
                EventKind::KeyDown => filter.key,
                EventKind::KeyUp => filter.key,
                EventKind::Paste => filter.key,
                EventKind::Zoom => filter.key,
                EventKind::Timer => filter.timer,
                EventKind::AnimFrame => filter.anim,
                EventKind::Command => true,
                EventKind::Notification => true,
                EventKind::Internal => filter.internal,
            },
            ItemInner::Command(_) => true,
        }
    }

    /// Leaves what was collected as it is, whatever the filter has become.
    ///
    /// What a change of the filter is to do to the items that are there is
    /// not settled. Until it is, nothing is done to them.
    pub fn re_filter(&mut self, data: &mut DebuggerData)
        ensures
            *final(self) == *old(self),
            *final(data) == *old(data),
    {
    }

    /// Puts an item into the group of the occurrence `event_id`, if the
    /// filter keeps it.
    pub fn add_item(
        &mut self,
        data: &mut DebuggerData,
        event_id: EventId,
        widget_id: WidgetId,
        item: ItemInner,
    )
        ensures
            *final(self) == *old(self),
            final(data).screen == old(data).screen,
            final(data).filter == old(data).filter,
            final(data).groups() == with_kept_item(
                old(data).groups(),
                &old(data).filter,
                event_id,
                widget_id,
                item,
            ),
            well_grouped(old(data).groups()) ==> well_grouped(final(data).groups()),
    {
        let item = Item { widget_id, inner: item };
        let show = self.filter_item(&data.filter, &item);
        if !show {
            return ;
        }
        let ghost before = data.groups();
        let n = data.all_items.len();
        if n == 0 || data.all_items[n - 1].event_id != event_id {
            let mut all_items: Vec<Item> = Vec::new();
            all_items.push(item);
            let event_data = EventData { idx: n, event_id, all_items };
            data.all_items.push(event_data);
            let opened = data.all_items.len();
            proof {
                assert(data.groups() =~= with_item(before, event_id, item));
                assert(opened == n + 1);
                if well_grouped(before) {
                    lemma_groups_grow_at_the_end(before, event_id, item);
                }
            }
        } else {
            let mut event_data = data.all_items.pop().unwrap();
            event_data.all_items.push(item);
            data.all_items.push(event_data);
            proof {
                assert(data.groups() =~= with_item(before, event_id, item));
                if well_grouped(before) {
                    lemma_groups_grow_at_the_end(before, event_id, item);
                }
            }
        }
    }

    /// Takes a command. A report of what a node saw goes into its group;
    /// the command that selects a group opens its details; the command that
    /// goes back opens the list of groups.
    pub fn command(&mut self, _ctx: &mut EventCtx, cmd: &Command, data: &mut DebuggerData)
        ensures
            *final(self) == *old(self),
            *final(_ctx) == *old(_ctx),
            final(data).filter == old(data).filter,
            final(data).groups() == groups_after(old(data).groups(), &old(data).filter, *cmd),
            final(data).screen == screen_after(old(data).screen, *cmd),
            well_grouped(old(data).groups()) ==> well_grouped(final(data).groups()),
    {
        if let Some(Payload::SeenEvent(event_id, widget_id, ev)) = cmd.get(Selector::new(data::EVENT)) {
            self.add_item(data, event_id, widget_id, ItemInner::Event(ev));
        }
        if let Some(Payload::SeenCommand(event_id, widget_id, sent)) = cmd.get(
            Selector::new(data::COMMAND),
        ) {
            self.add_item(data, event_id, widget_id, ItemInner::Command(sent));
        }
        if let Some(Payload::Index(idx)) = cmd.get(Selector::new(data::SELECT_EVENT)) {
            data.screen = Screen::EventDetails(idx);
        }
        if cmd.is(Selector::new(data::BACK_HOME)) {
            data.screen = Screen::EventSelection;
        }
        if cmd.is(Selector::new(data::REFILTER)) {
            self.re_filter(data);
        }
    }
}

/// Whether `groups` are as the delegate leaves them: every group knows its
/// place and holds an item, and no group follows a group of the same
/// occurrence.
pub open spec fn well_grouped(groups: Seq<EventDataView>) -> bool {
    &&& forall|i: int| 0 <= i < groups.len() ==> (#[trigger] groups[i]).idx == i
    &&& forall|i: int| 0 <= i < groups.len() ==> (#[trigger] groups[i]).all_items.len() > 0
    &&& forall|i: int|
        0 < i < groups.len() ==> (#[trigger] groups[i]).event_id != groups[i - 1].event_id
}

/// The groups only grow, and only at their end: an item that comes leaves
/// every group but the last as it was, and is itself the last item of the last
/// group. It opens a new group exactly where the last group is not the group
/// of its occurrence, be there an earlier group of that occurrence or not.
pub proof fn lemma_groups_grow_at_the_end(groups: Seq<EventDataView>, event_id: EventId, item: Item)
    requires
        well_grouped(groups),
        groups.len() < usize::MAX || (groups.len() > 0 && groups.last().event_id == event_id),
    ensures
        well_grouped(with_item(groups, event_id, item)),
        with_item(groups, event_id, item).last().event_id == event_id,
        with_item(groups, event_id, item).last().all_items.last() == item,
        groups.len() > 0 && groups.last().event_id == event_id ==> {
            &&& with_item(groups, event_id, item).len() == groups.len()
            &&& with_item(groups, event_id, item).drop_last() == groups.drop_last()
            &&& with_item(groups, event_id, item).last().all_items == groups.last().all_items.push(
                item,
            )
        },
        !(groups.len() > 0 && groups.last().event_id == event_id) ==> {
            &&& with_item(groups, event_id, item).len() == groups.len() + 1
            &&& with_item(groups, event_id, item).drop_last() == groups
            &&& with_item(groups, event_id, item).last().all_items == seq![item]
        },
{
    let after = with_item(groups, event_id, item);
    if groups.len() > 0 && groups.last().event_id == event_id {
        assert(after.drop_last() =~= groups.drop_last());
        assert forall|i: int| 0 < i < after.len() implies (#[trigger] after[i]).event_id != after[i
            - 1].event_id by {
            assert(groups[i].event_id != groups[i - 1].event_id);
        }
    } else {
        assert(after.drop_last() =~= groups);
        assert forall|i: int| 0 < i < after.len() implies (#[trigger] after[i]).event_id != after[i
            - 1].event_id by {
            if i < groups.len() {
                assert(groups[i].event_id != groups[i - 1].event_id);
            }
        }
    }
}

/// The command that selects a group opens the details of that group, and
/// the command that goes back opens the list of groups; neither touches the
/// groups.
pub proof fn lemma_screens_follow_their_commands(
    groups: Seq<EventDataView>,
    filter: &Filter,
    screen: Screen,
    idx: usize,
)
    ensures
        screen_after(
            screen,
            Command {
                selector: Selector { name: data::SELECT_EVENT },
                payload: Payload::Index(idx),
                target: None,
            },
        ) == Screen::EventDetails(idx),
        screen_after(
            screen,
            Command {
                selector: Selector { name: data::BACK_HOME },
                payload: Payload::Unit,
                target: None,
            },
        ) == Screen::EventSelection,
        groups_after(
            groups,
            filter,
            Command {
                selector: Selector { name: data::SELECT_EVENT },
                payload: Payload::Index(idx),
                target: None,
            },
        ) == groups,
        groups_after(
            groups,
            filter,
            Command {
                selector: Selector { name: data::BACK_HOME },
                payload: Payload::Unit,
                target: None,
            },
        ) == groups,
{
    data::lemma_selector_lengths();
}

/// A report of what a node saw leaves the screen as it is.
pub proof fn lemma_reports_keep_the_screen(screen: Screen, payload: Payload, target: Option<WidgetId>)
    ensures
        screen_after(screen, Command { selector: Selector { name: data::EVENT }, payload, target })
            == screen,
        screen_after(screen, Command { selector: Selector { name: data::COMMAND }, payload, target })
            == screen,
{
    data::lemma_selector_lengths();
}

} // verus!
