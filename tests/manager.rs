use iced_sctk::{Id, Instant, RedrawRequest, Size, State, Window, WindowManager};

fn window(tag: u32) -> Window<u32> {
    Window::new(tag, State::new(String::from("w"), Size::new(10, 10)))
}

fn ids(m: &WindowManager<u32>) -> Vec<u64> {
    (0..m.len()).map(|i| m.id_at(i).0).collect()
}

#[test]
fn insert_keeps_identifier_order() {
    let mut m = WindowManager::new();
    m.insert(Id(3), 30, window(3));
    m.insert(Id(1), 10, window(1));
    m.insert(Id(2), 20, window(2));
    assert_eq!(ids(&m), vec![1, 2, 3]);
    assert_eq!(m.first().map(|w| w.raw), Some(1));
    assert_eq!(m.index_of_alias(20), Some((Id(2), 1)));
    assert_eq!(m.get(Id(3)).map(|w| w.raw), Some(3));
}

#[test]
fn both_maps_stay_consistent() {
    let mut m = WindowManager::new();
    m.insert(Id(1), 10, window(1));
    m.insert(Id(2), 20, window(2));
    // Same identifier under a new key: the old key goes.
    m.insert(Id(1), 11, window(5));
    assert_eq!(m.index_of_alias(10), None);
    assert_eq!(m.index_of_alias(11), Some((Id(1), 0)));
    // Same key for a new identifier: the window that had it goes.
    m.insert(Id(4), 20, window(4));
    assert!(m.get(Id(2)).is_none());
    assert_eq!(m.index_of_alias(20), Some((Id(4), 1)));
    assert_eq!(ids(&m), vec![1, 4]);
    let removed = m.remove(Id(1));
    assert_eq!(removed.map(|w| w.raw), Some(5));
    assert_eq!(m.index_of_alias(11), None);
    assert!(m.remove(Id(1)).is_none());
    assert_eq!(ids(&m), vec![4]);
}

#[test]
fn unknown_identifier_is_absent() {
    let mut m: WindowManager<u32> = WindowManager::new();
    assert!(m.get(Id(9)).is_none());
    assert!(m.get_mut(Id(9)).is_none());
    assert!(m.remove(Id(9)).is_none());
    assert!(m.is_empty());
    assert!(m.is_idle());
    assert_eq!(m.redraw_at(), None);
}

#[test]
fn earliest_scheduled_redraw() {
    let mut m = WindowManager::new();
    m.insert(Id(1), 10, window(1));
    m.insert(Id(2), 20, window(2));
    m.insert(Id(3), 30, window(3));
    assert!(m.is_idle());
    assert!(!m.request_redraw(0, RedrawRequest::At(Instant(50))));
    assert!(!m.request_redraw(2, RedrawRequest::At(Instant(20))));
    assert!(m.request_redraw(1, RedrawRequest::NextFrame));
    assert_eq!(m.redraw_at(), Some(Instant(20)));
    assert!(!m.is_idle());
    m.reset_redraw(2);
    assert_eq!(m.redraw_at(), Some(Instant(50)));
    m.reset_redraw(0);
    assert_eq!(m.redraw_at(), None);
    m.reset_redraw(1);
    assert!(m.is_idle());
}
