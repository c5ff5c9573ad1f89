use druid_core::event::Command;
use druid_core::event::Event;
use druid_core::event::EventKind;
use druid_core::event::InternalEvent;
use druid_core::event::InternalLifeCycle;
use druid_core::event::KeyEvent;
use druid_core::event::LifeCycle;
use druid_core::event::Modifiers;
use druid_core::event::MouseEvent;
use druid_core::event::Notification;
use druid_core::event::Payload;
use druid_core::event::Selector;
use druid_core::event::TimerToken;
use druid_core::event::WidgetId;

const SAVE: &str = "app.save";
const OPEN: &str = "app.open";

fn mouse() -> MouseEvent {
    MouseEvent { pos: kurbo::Point::new(1.0, 2.0), mods: Modifiers { bits: 0 }, button: 1 }
}

fn key() -> KeyEvent {
    KeyEvent { code: 13, mods: Modifiers { bits: 0 } }
}

#[test]
fn a_command_is_recognised_by_its_selector() {
    let command = Selector::new(SAVE).with(Payload::Flag(true));
    assert!(command.is(Selector::new(SAVE)));
    assert!(!command.is(Selector::new(OPEN)));
    assert!(matches!(command.get(Selector::new(SAVE)), Some(Payload::Flag(true))));
    assert!(command.get(Selector::new(OPEN)).is_none());
    assert!(command.target.is_none());
}

#[test]
fn selectors_are_compared_by_name() {
    let name = String::from("app.") + "save";
    let leaked: &'static str = Box::leak(name.into_boxed_str());
    assert!(Selector::new(SAVE).same(&Selector::new(leaked)));
    assert!(!Selector::new(SAVE).same(&Selector::new(OPEN)));
}

#[test]
fn a_command_can_be_addressed_to_a_node() {
    let command = Command::new(Selector::new(SAVE), Payload::Unit).to(WidgetId { raw: 9 });
    assert_eq!(command.target, Some(WidgetId { raw: 9 }));
    assert!(command.is(Selector::new(SAVE)));
    assert!(matches!(command.payload, Payload::Unit));
}

#[test]
fn identifiers_give_their_raw_value() {
    assert_eq!(WidgetId { raw: 3 }.as_raw(), 3);
    assert_eq!(druid_core::event::EventId { raw: 8 }.as_raw(), 8);
}

#[test]
fn input_events_stay_with_what_is_shown() {
    for event in [
        Event::MouseDown(mouse()),
        Event::MouseUp(mouse()),
        Event::MouseMove(mouse()),
        Event::Wheel(mouse()),
        Event::KeyDown(key()),
        Event::KeyUp(key()),
        Event::Paste,
        Event::Zoom,
        Event::DropEnter,
        Event::DropLeave,
    ] {
        assert!(!event.should_propagate_to_hidden());
    }
}

#[test]
fn other_events_reach_hidden_nodes() {
    let command = Selector::new(SAVE).with(Payload::Unit);
    let notification =
        Notification { selector: Selector::new(SAVE), payload: Payload::Unit, source: WidgetId { raw: 1 } };
    for event in [
        Event::WindowConnected,
        Event::WindowCloseRequested,
        Event::WindowDisconnected,
        Event::WindowSize(kurbo::Size::new(10.0, 10.0)),
        Event::Timer(TimerToken { raw: 1 }),
        Event::AnimFrame(16),
        Event::Command(command),
        Event::Notification(notification),
        Event::Internal(InternalEvent::MouseLeave),
    ] {
        assert!(event.should_propagate_to_hidden());
    }
}

#[test]
fn lifecycle_notices_that_reach_hidden_nodes() {
    assert!(LifeCycle::WidgetAdded.should_propagate_to_hidden());
    assert!(LifeCycle::Internal(InternalLifeCycle::RouteWidgetAdded).should_propagate_to_hidden());
    assert!(LifeCycle::Internal(InternalLifeCycle::RouteFocusChanged {
        old: Some(WidgetId { raw: 1 }),
        new: None
    })
    .should_propagate_to_hidden());
    assert!(!LifeCycle::Internal(InternalLifeCycle::ParentWindowOrigin).should_propagate_to_hidden());
    assert!(!LifeCycle::Size(kurbo::Size::new(1.0, 1.0)).should_propagate_to_hidden());
    assert!(!LifeCycle::HotChanged(true).should_propagate_to_hidden());
    assert!(!LifeCycle::FocusChanged(false).should_propagate_to_hidden());
}

#[test]
fn every_event_has_its_kind() {
    assert_eq!(Event::WindowConnected.kind(), EventKind::WindowConnected);
    assert_eq!(Event::WindowCloseRequested.kind(), EventKind::WindowCloseRequested);
    assert_eq!(Event::WindowDisconnected.kind(), EventKind::WindowDisconnected);
    assert_eq!(Event::WindowSize(kurbo::Size::new(1.0, 1.0)).kind(), EventKind::WindowSize);
    assert_eq!(Event::MouseDown(mouse()).kind(), EventKind::MouseDown);
    assert_eq!(Event::MouseUp(mouse()).kind(), EventKind::MouseUp);
    assert_eq!(Event::MouseMove(mouse()).kind(), EventKind::MouseMove);
    assert_eq!(Event::Wheel(mouse()).kind(), EventKind::Wheel);
    assert_eq!(Event::KeyDown(key()).kind(), EventKind::KeyDown);
    assert_eq!(Event::KeyUp(key()).kind(), EventKind::KeyUp);
    assert_eq!(Event::Paste.kind(), EventKind::Paste);
    assert_eq!(Event::Zoom.kind(), EventKind::Zoom);
    assert_eq!(Event::Timer(TimerToken { raw: 1 }).kind(), EventKind::Timer);
    assert_eq!(Event::AnimFrame(1).kind(), EventKind::AnimFrame);
    assert_eq!(Event::DropEnter.kind(), EventKind::DropEnter);
    assert_eq!(Event::DropLeave.kind(), EventKind::DropLeave);
    assert_eq!(Event::Command(Selector::new(SAVE).with(Payload::Unit)).kind(), EventKind::Command);
    assert_eq!(Event::Internal(InternalEvent::MouseLeave).kind(), EventKind::Internal);
}
