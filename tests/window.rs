use iced_sctk::{
    InputMethod, Point, PreeditRequest, Purpose, RedrawRequest, Instant, Size, Span, SpanText, State, Window,
};

fn window() -> Window<()> {
    Window::new((), State::new(String::from("w"), Size::new(800, 600)))
}

#[test]
fn next_frame_is_not_downgraded() {
    let mut w = window();
    assert!(w.request_redraw(RedrawRequest::NextFrame));
    assert!(!w.request_redraw(RedrawRequest::At(Instant(5))));
    assert_eq!(w.redraw_at, RedrawRequest::NextFrame);
    assert!(!w.request_redraw(RedrawRequest::NextFrame));
    assert!(!w.request_redraw(RedrawRequest::Wait));
    assert_eq!(w.redraw_at, RedrawRequest::NextFrame);
}

#[test]
fn scheduled_redraw_is_replaced() {
    let mut w = window();
    assert!(!w.request_redraw(RedrawRequest::At(Instant(5))));
    assert!(!w.request_redraw(RedrawRequest::At(Instant(9))));
    assert_eq!(w.redraw_at, RedrawRequest::At(Instant(9)));
    assert!(w.request_redraw(RedrawRequest::NextFrame));
}

#[test]
fn resize_moves_version_on() {
    let mut s = State::new(String::from("w"), Size::new(1, 1));
    assert_eq!(s.viewport_version(), 0);
    s.resize(Size::new(800, 600));
    assert_eq!(s.viewport_version(), 1);
    assert_eq!(s.physical_size(), Size::new(800, 600));
    s.rescale();
    assert_eq!(s.viewport_version(), 2);
    s.synchronize(String::from("other"), false);
    assert_eq!(s.viewport_version(), 2);
    assert_eq!(s.title, "other");
    s.synchronize(String::from("other"), true);
    assert_eq!(s.viewport_version(), 3);
}

fn enabled(content: &str, selection: Option<(usize, usize)>) -> InputMethod {
    InputMethod::Enabled {
        position: Point::new(1, 2),
        purpose: Purpose::Normal,
        preedit: Some(PreeditRequest { content: String::from(content), selection }),
    }
}

#[test]
fn preedit_spans() {
    let mut w = window();
    assert!(w.request_input_method(enabled("hello", Some((1, 3)))));
    let p = w.preedit.as_ref().unwrap();
    assert_eq!(
        p.spans(),
        vec![
            Span { text: SpanText::Range { start: 0, end: 1 }, highlighted: false },
            Span { text: SpanText::Range { start: 1, end: 3 }, highlighted: true },
            Span { text: SpanText::Rest { start: 3 }, highlighted: false },
        ]
    );
    assert_eq!(w.ime_state, Some((Point::new(1, 2), Purpose::Normal)));
    // The same text needs no new shaping.
    assert!(!w.request_input_method(enabled("hello", Some((1, 3)))));
    assert!(w.request_input_method(enabled("hello", Some((2, 2)))));
    assert_eq!(w.preedit.as_ref().unwrap().spans()[1], Span { text: SpanText::HairSpace, highlighted: true });
    assert!(w.request_input_method(enabled("help", None)));
    assert_eq!(w.preedit.as_ref().unwrap().spans(), vec![Span { text: SpanText::Rest { start: 0 }, highlighted: false }]);
}

#[test]
fn empty_preedit_and_disabled() {
    let mut w = window();
    assert!(w.request_input_method(enabled("x", None)));
    assert!(!w.request_input_method(enabled("", None)));
    assert!(w.preedit.is_none());
    assert!(w.ime_state.is_some());
    assert!(w.request_input_method(enabled("x", None)));
    assert!(!w.request_input_method(InputMethod::Disabled));
    assert!(w.preedit.is_none());
    assert!(w.ime_state.is_none());
}
