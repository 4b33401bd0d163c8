use iced_sctk::{into_cache, Id, Interfaces, Ui};

#[test]
fn cache_round_trip_on_unchanged_program() {
    let mut uis: Interfaces<String> = Interfaces::new();
    uis.build(Id(1), String::from("layout"));
    assert!(uis.contains(Id(1)));
    uis.rebuild(Id(1));
    match uis.remove(Id(1)) {
        Some(Ui::Tree { cache, revision }) => {
            assert_eq!(cache, "layout");
            assert_eq!(revision, 0);
        },
        _ => panic!("the tree must come back"),
    }
    assert!(!uis.contains(Id(1)));
}

#[test]
fn update_tears_down_and_rebuilds() {
    let mut uis: Interfaces<u32> = Interfaces::new();
    uis.build(Id(1), 10);
    uis.build(Id(2), 20);
    uis.begin_update();
    assert!(uis.is_updating());
    uis.finish_update(&vec![Id(2)]);
    assert!(!uis.is_updating());
    assert!(!uis.contains(Id(1)));
    match uis.remove(Id(2)) {
        Some(Ui::Tree { cache, revision }) => {
            assert_eq!(cache, 20);
            assert_eq!(revision, 1);
        },
        _ => panic!("the kept window gets a new tree"),
    }
}

#[test]
fn cache_of_both_forms() {
    assert_eq!(into_cache(Ui::Tree { cache: 3u32, revision: 9 }), 3);
    assert_eq!(into_cache(Ui::Cached(4u32)), 4);
}
