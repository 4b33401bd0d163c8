use iced_sctk::{initial_window, next_operation, select_output, KeyboardInteractivity, Layer, Margin, Outcome, ANCHOR_TOP};
use iced_sctk::{
    Action, Configure, Dispatch, Event, Frame, Id, Instant, Key, KeyboardEvent, LayerEvent, MouseEvent,
    Point, PointerEvent, PointerKind, RedrawRequest, SeatModifiers, Shell, Size, TimeoutAction, TouchEvent,
    UiState, WindowEvent, InputMethod, Button, SHIFT,
};

type TestShell = Shell<u32, u32, u32>;

/// A shell with window `id` open on surface key `alias`.
fn with_window(is_daemon: bool, id: u64, alias: u64) -> TestShell {
    let mut shell = TestShell::new(is_daemon);
    shell.open_layer(alias, Id(id), 7);
    match shell.configure(alias, Size::new(400, 400)) {
        Configure::Open(p) => {
            assert_eq!(p.id, Id(id));
            assert!(shell.open_window(p.id, alias, p.raw, Size::new(400, 400), String::from("t"), 0));
        },
        _ => panic!("the pending window must open"),
    }
    shell.set_compositor_ready();
    shell
}

#[test]
fn opened_window_is_announced() {
    let mut shell = with_window(false, 1, 100);
    let events = shell.drain_events();
    assert_eq!(events, vec![(Id(1), Event::Layer(LayerEvent::Opened { size: Size::new(400, 400) }))]);
    let w = shell.window_manager().get(Id(1)).unwrap();
    assert_eq!(w.redraw_at, RedrawRequest::NextFrame);
    assert_eq!(w.raw, 7);
}

#[test]
fn resize_queues_one_event_and_bumps_version() {
    let mut shell = with_window(false, 1, 100);
    let _ = shell.drain_events();
    let before = shell.window_manager().get(Id(1)).unwrap().state.viewport_version();
    match shell.configure(100, Size::new(800, 600)) {
        Configure::Resized { id, .. } => assert_eq!(id, Id(1)),
        _ => panic!("an open window is resized"),
    }
    let events = shell.drain_events();
    assert_eq!(events, vec![(Id(1), Event::Window(WindowEvent::Resized(Size::new(800, 600))))]);
    let w = shell.window_manager().get(Id(1)).unwrap();
    assert_eq!(w.state.viewport_version(), before + 1);
    assert_eq!(w.size(), Size::new(800, 600));
}

#[test]
fn unknown_surface_configure() {
    let mut shell = with_window(false, 1, 100);
    assert!(matches!(shell.configure(555, Size::new(1, 1)), Configure::Unknown));
}

#[test]
fn key_press_goes_to_focused_window() {
    let mut shell = with_window(false, 1, 100);
    let _ = shell.drain_events();
    shell.enter(5, 100);
    assert_eq!(shell.keyboard_focus(5), Some(Id(1)));
    let mut m = SeatModifiers::none();
    m.shift = true;
    shell.update_modifiers(5, m);
    shell.press_key(5, 0x61, 38, Some(String::from("a")));
    let events = shell.drain_events();
    assert_eq!(events.len(), 3);
    assert_eq!(events[0], (Id(1), Event::Window(WindowEvent::Focused)));
    match &events[2] {
        (id, Event::Keyboard(KeyboardEvent::KeyPressed { key, modifiers, text, .. })) => {
            assert_eq!(*id, Id(1));
            assert_eq!(*key, Key::Character('a'));
            assert_eq!(modifiers.bits, SHIFT);
            assert_eq!(text.as_deref(), Some("a"));
        },
        other => panic!("expected a key press, got {:?}", other),
    }
}

#[test]
fn keys_without_focus_are_dropped() {
    let mut shell = with_window(false, 1, 100);
    let _ = shell.drain_events();
    shell.press_key(9, 0x61, 38, None);
    shell.release_key(9, 0x61, 38);
    assert_eq!(shell.pending_events(), 0);
}

#[test]
fn leaving_resets_modifiers() {
    let mut shell = with_window(false, 1, 100);
    shell.enter(5, 100);
    let _ = shell.drain_events();
    shell.leave(5, 100);
    assert_eq!(shell.keyboard_focus(5), None);
    let events = shell.drain_events();
    assert_eq!(events.len(), 2);
    assert!(matches!(events[0].1, Event::Keyboard(KeyboardEvent::ModifiersChanged(m)) if m.bits == 0));
    assert_eq!(events[1], (Id(1), Event::Window(WindowEvent::Unfocused)));
}

#[test]
fn touch_down_then_up() {
    let mut shell = with_window(false, 1, 100);
    let _ = shell.drain_events();
    let position = Point::new(10 * 256, 20 * 256);
    shell.down(8, 100, 3, position);
    assert_eq!(shell.touch_contact(8, 3), Some((Id(1), position)));
    shell.up(8, 3);
    assert_eq!(shell.touch_contact(8, 3), None);
    let events = shell.drain_events();
    assert_eq!(
        events,
        vec![
            (Id(1), Event::Touch(TouchEvent::FingerPressed { id: 3, position })),
            (Id(1), Event::Touch(TouchEvent::FingerLifted { id: 3, position })),
        ]
    );
}

#[test]
fn touch_motion_and_cancel() {
    let mut shell = with_window(false, 1, 100);
    let _ = shell.drain_events();
    shell.down(8, 100, 1, Point::new(0, 0));
    shell.down(8, 100, 2, Point::new(5, 5));
    shell.motion(8, 1, Point::new(9, 9));
    assert_eq!(shell.touch_contact(8, 1), Some((Id(1), Point::new(9, 9))));
    let _ = shell.drain_events();
    shell.cancel(8);
    assert_eq!(shell.touch_contact(8, 1), None);
    assert_eq!(shell.touch_contact(8, 2), None);
    let mut lost = shell.drain_events();
    lost.sort_by_key(|(_, e)| match e {
        Event::Touch(TouchEvent::FingerLost { id, .. }) => *id,
        _ => u64::MAX,
    });
    assert_eq!(
        lost,
        vec![
            (Id(1), Event::Touch(TouchEvent::FingerLost { id: 1, position: Point::new(9, 9) })),
            (Id(1), Event::Touch(TouchEvent::FingerLost { id: 2, position: Point::new(5, 5) })),
        ]
    );
}

#[test]
fn pointer_frame_routes_events() {
    let mut shell = with_window(false, 1, 100);
    let _ = shell.drain_events();
    let p = Point::new(3, 4);
    let frame = vec![
        PointerEvent { surface: 100, position: p, kind: PointerKind::Enter },
        PointerEvent { surface: 999, position: p, kind: PointerKind::Motion },
        PointerEvent { surface: 100, position: p, kind: PointerKind::Press(0x110) },
        PointerEvent { surface: 100, position: p, kind: PointerKind::Leave },
    ];
    shell.pointer_frame(&frame);
    let events = shell.drain_events();
    assert_eq!(
        events,
        vec![
            (Id(1), Event::Mouse(MouseEvent::CursorEntered)),
            (Id(1), Event::Mouse(MouseEvent::ButtonPressed(Button::Left))),
            (Id(1), Event::Mouse(MouseEvent::CursorLeft)),
        ]
    );
    assert_eq!(shell.window_manager().get(Id(1)).unwrap().state.cursor(), None);
}

#[test]
fn closing_last_window_stops_the_loop() {
    let mut shell = with_window(false, 1, 100);
    let _ = shell.drain_events();
    shell.closed(100);
    assert!(shell.is_exiting());
    assert!(shell.window_manager().is_empty());
    assert_eq!(shell.drain_events(), vec![(Id(1), Event::Window(WindowEvent::Closed))]);
}

#[test]
fn daemon_keeps_running() {
    let mut shell = with_window(true, 1, 100);
    shell.closed(100);
    assert!(!shell.is_exiting());
    assert!(shell.window_manager().is_empty());
}

#[test]
fn closing_one_of_two_windows_keeps_running() {
    let mut shell = with_window(false, 1, 100);
    shell.open_layer(200, Id(2), 8);
    if let Configure::Open(p) = shell.configure(200, Size::new(5, 5)) {
        shell.open_window(p.id, 200, p.raw, Size::new(5, 5), String::from("b"), 0);
    }
    let r = shell.run_action(Action::Close(Id(1)));
    assert!(matches!(r, Dispatch::Done));
    assert!(!shell.is_exiting());
    assert!(shell.window_manager().get(Id(2)).is_some());
}

#[test]
fn idle_pass_without_work_is_a_no_op() {
    let mut shell = with_window(false, 1, 100);
    let _ = shell.drain_events();
    assert!(matches!(shell.frame(100), Frame::Draw { .. }));
    assert!(!shell.begin_idle_pass());
    assert_eq!(shell.pending_events(), 0);
    assert_eq!(shell.pending_messages(), 0);
    assert!(shell.window_manager().is_idle());
}

#[test]
fn idle_pass_with_a_message_commits() {
    let mut shell = with_window(false, 1, 100);
    let _ = shell.drain_events();
    let _ = shell.frame(100);
    assert!(matches!(shell.run_action(Action::Output(42)), Dispatch::Done));
    assert!(shell.begin_idle_pass());
    let batch = shell.window_batch(Id(1));
    assert_eq!(batch, Some(vec![]));
    assert!(!shell.interface_updated(Id(1), UiState::Updated {
        redraw_request: RedrawRequest::Wait,
        input_method: InputMethod::Disabled,
    }));
    assert!(shell.needs_commit());
    let messages = shell.begin_commit();
    assert_eq!(messages, vec![42]);
    shell.synchronize(Id(1), String::from("new title"), false);
    let asks = shell.finish_commit();
    assert_eq!(asks, vec![Id(1)]);
    assert_eq!(shell.window_manager().get(Id(1)).unwrap().redraw_at, RedrawRequest::NextFrame);
    assert_eq!(shell.window_manager().get(Id(1)).unwrap().state.title, "new title");
    assert!(!shell.needs_commit());
}

#[test]
fn events_are_batched_per_window_in_order() {
    let mut shell = with_window(false, 1, 100);
    shell.enter(5, 100);
    shell.press_key(5, 0x62, 56, None);
    let _ = shell.frame(100);
    assert!(shell.begin_idle_pass());
    let batch = shell.window_batch(Id(1)).unwrap();
    assert_eq!(batch.len(), 3);
    assert!(matches!(batch[0], Event::Layer(LayerEvent::Opened { .. })));
    assert!(matches!(batch[1], Event::Window(WindowEvent::Focused)));
    assert!(matches!(batch[2], Event::Keyboard(KeyboardEvent::KeyPressed { key: Key::Character('b'), .. })));
    assert_eq!(shell.window_batch(Id(1)), None);
}

#[test]
fn timer_promotes_due_windows() {
    let mut shell = with_window(false, 1, 100);
    let _ = shell.frame(100);
    let i = shell.window_manager().index_of(Id(1)).unwrap();
    let _ = shell.frame_drawn(i, UiState::Updated {
        redraw_request: RedrawRequest::At(Instant(100)),
        input_method: InputMethod::Disabled,
    });
    assert_eq!(shell.schedule_wake_if_needed(), Some(Instant(100)));
    assert_eq!(shell.deadline(), Some(Instant(100)));
    // A later deadline never moves the timer.
    assert_eq!(shell.schedule_wake_if_needed(), None);
    let (asks, next) = shell.on_timer_wake(Instant(50));
    assert!(asks.is_empty());
    assert_eq!(next, TimeoutAction::ToInstant(Instant(100)));
    let (asks, next) = shell.on_timer_wake(Instant(100));
    assert_eq!(asks, vec![Id(1)]);
    assert_eq!(next, TimeoutAction::Drop);
    assert_eq!(shell.window_manager().get(Id(1)).unwrap().redraw_at, RedrawRequest::NextFrame);
}

#[test]
fn frame_relayouts_after_resize() {
    let mut shell = with_window(false, 1, 100);
    assert_eq!(shell.frame(100), Frame::Draw { id: Id(1), index: 0, relayout: None });
    let _ = shell.configure(100, Size::new(800, 600));
    assert_eq!(shell.frame(100), Frame::Draw { id: Id(1), index: 0, relayout: Some(Size::new(800, 600)) });
    assert_eq!(shell.window_manager().get(Id(1)).unwrap().redraw_at, RedrawRequest::Wait);
    assert_eq!(shell.frame(555), Frame::Skip);
    let _ = shell.configure(100, Size::new(0, 600));
    assert_eq!(shell.frame(100), Frame::Skip);
}

#[test]
fn frame_without_renderer_is_skipped() {
    let mut shell = TestShell::new(false);
    shell.open_layer(100, Id(1), 7);
    if let Configure::Open(p) = shell.configure(100, Size::new(4, 4)) {
        shell.open_window(p.id, 100, p.raw, Size::new(4, 4), String::from("t"), 0);
    }
    assert_eq!(shell.frame(100), Frame::Skip);
}

#[test]
fn present_failure_policy() {
    let mut shell = with_window(false, 1, 100);
    let _ = shell.frame(100);
    assert!(shell.present_failed(true).is_none());
    assert_eq!(shell.window_manager().get(Id(1)).unwrap().redraw_at, RedrawRequest::Wait);
    assert_eq!(shell.present_failed(false), Some(vec![Id(1)]));
    assert_eq!(shell.window_manager().get(Id(1)).unwrap().redraw_at, RedrawRequest::NextFrame);
}

#[test]
fn actions_are_dispatched() {
    let mut shell = with_window(false, 1, 100);
    assert!(matches!(shell.run_action(Action::QueryInformation), Dispatch::QueryInformation));
    assert!(matches!(shell.run_action(Action::LoadFont(vec![1, 2])), Dispatch::LoadFont(ref b) if b == &vec![1, 2]));
    assert!(matches!(shell.run_action(Action::Widget), Dispatch::ApplyWidgetOperation));
    let _ = shell.frame(100);
    assert!(matches!(shell.run_action(Action::Reload), Dispatch::AskFrames(ref ids) if ids == &vec![Id(1)]));
    let mut fresh = TestShell::new(true);
    assert!(matches!(fresh.run_action(Action::LoadFont(vec![])), Dispatch::Done));
    assert!(matches!(fresh.run_action(Action::Exit), Dispatch::Done));
    assert!(fresh.is_exiting());
}

#[test]
fn output_is_chosen_by_name() {
    let outputs = vec![None, Some(String::from("DP-1")), Some(String::from("HDMI-A-1")), Some(String::from("DP-1"))];
    assert_eq!(select_output(&outputs, &Some(String::from("DP-1"))), Some(1));
    assert_eq!(select_output(&outputs, &Some(String::from("HDMI-A-1"))), Some(2));
    assert_eq!(select_output(&outputs, &Some(String::from("eDP-1"))), None);
    assert_eq!(select_output(&outputs, &None), None);
}

#[test]
fn startup_settings() {
    use_startup();
}

fn use_startup() {
    let (daemon, settings) = initial_window(false);
    assert!(daemon);
    assert!(settings.is_none());
    let (daemon, settings) = initial_window(true);
    assert!(!daemon);
    let s = settings.unwrap();
    assert_eq!(s.layer, Layer::Top);
    assert_eq!(s.size, Size::new(400, 400));
    assert_eq!(s.anchor, ANCHOR_TOP);
    assert_eq!(s.margin, Margin { top: 200, right: 0, bottom: 0, left: 0 });
    assert_eq!(s.keyboard_interactivity, KeyboardInteractivity::OnDemand);
    assert!(s.output.is_none() && s.namespace.is_none());
}

#[test]
fn widget_operations_chain() {
    assert_eq!(next_operation(Outcome::Chain(5u32)), Some(5));
    assert_eq!(next_operation::<u32>(Outcome::Finished), None);
    assert_eq!(next_operation::<u32>(Outcome::Output), None);
}

#[test]
fn pointer_moves_cursor() {
    let mut shell = with_window(false, 1, 100);
    let frame = vec![
        PointerEvent { surface: 100, position: Point::new(1, 1), kind: PointerKind::Enter },
        PointerEvent { surface: 100, position: Point::new(7, 8), kind: PointerKind::Motion },
        PointerEvent { surface: 100, position: Point::new(0, 0), kind: PointerKind::Press(0x111) },
    ];
    shell.pointer_frame(&frame);
    assert_eq!(shell.window_manager().get(Id(1)).unwrap().state.cursor(), Some(Point::new(7, 8)));
}
