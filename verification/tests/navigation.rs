use hdfs_proxy_tui::state::{
    AppState, ContentState, FetchError, FetchOutcome, Item,
};

fn entry(name: &str, size: i64) -> Item {
    Item { name: String::from(name), size }
}

fn base_listing() -> FetchOutcome {
    FetchOutcome::Listing(vec![entry("dir", -1), entry("f1.txt", 120)])
}

#[test]
fn initialize_directory_listing() {
    let state = AppState::initialized(String::from("/a/"), base_listing());
    assert!(state.is_initialized());
    assert_eq!(state.rows().len(), 2);
    assert_eq!(state.get_index(), 0);
    assert_eq!(state.get_frame(), (0, 0));
    assert_eq!(state.duration(), Some(1));
    assert_eq!(state.current_path(), Some(String::from("/a/")));
    assert!(matches!(state.get_state(), ContentState::ItemList));
}

#[test]
fn initialize_failure_stays_uninitialized() {
    let state = AppState::initialized(
        String::from("/a/"),
        FetchOutcome::Failed(FetchError::Transport),
    );
    assert!(!state.is_initialized());
    // A mismatched content kind is a failure too: a directory path cannot
    // hold file text.
    let state = AppState::initialized(String::from("/a/"), FetchOutcome::Text(String::new()));
    assert!(!state.is_initialized());
    let state = AppState::initialized(
        String::from("/a/f1.txt"),
        FetchOutcome::Listing(Vec::new()),
    );
    assert!(!state.is_initialized());
}

#[test]
fn move_down_clamps_at_last_row() {
    let mut state = AppState::initialized(
        String::from("/a/"),
        FetchOutcome::Listing(vec![entry("x", 1), entry("y", 2), entry("z", -1)]),
    );
    // n - 1 moves from the top reach the last row...
    state.move_down();
    state.move_down();
    assert_eq!(state.get_index(), 2);
    assert_eq!(state.get_last_index(), 1);
    // ...and one more clamps instead of wrapping.
    state.move_down();
    assert_eq!(state.get_index(), 2);
    state.move_up();
    assert_eq!(state.get_index(), 1);
    state.move_up();
    state.move_up();
    assert_eq!(state.get_index(), 0);
}

#[test]
fn moves_on_empty_listing_are_noops() {
    let mut state = AppState::initialized(String::from("/a/"), FetchOutcome::Listing(Vec::new()));
    assert!(state.is_initialized());
    state.move_down();
    assert_eq!(state.get_index(), 0);
    state.move_up();
    assert_eq!(state.get_index(), 0);
    assert_eq!(state.rows().len(), 0);
}

#[test]
fn moves_on_uninitialized_state_are_noops() {
    let mut state = AppState::default();
    state.move_down();
    state.move_up();
    assert_eq!(state.get_index(), -1);
    assert_eq!(state.get_last_index(), -1);
}

#[test]
fn step_into_directory_appends_separator() {
    let mut state = AppState::initialized(String::from("/a/"), base_listing());
    let req = state.step_into_request().expect("a target under the cursor");
    assert_eq!(req.url, "/a/dir/");
    assert!(matches!(req.kind, ContentState::ItemList));
    state.step_into(FetchOutcome::Listing(vec![entry("inner.txt", 3)]));
    assert_eq!(state.current_path(), Some(String::from("/a/dir/")));
    assert!(matches!(state.get_state(), ContentState::ItemList));
    assert_eq!(state.get_index(), 0);
    assert_eq!(state.get_frame(), (0, 0));
    assert_eq!(state.rows().len(), 1);
}

#[test]
fn step_into_file_yields_text() {
    let mut state = AppState::initialized(String::from("/a/"), base_listing());
    state.move_down();
    let req = state.step_into_request().expect("a target under the cursor");
    assert_eq!(req.url, "/a/f1.txt");
    assert!(matches!(req.kind, ContentState::FileChunk));
    state.step_into(FetchOutcome::Text(String::from("l1\nl2")));
    assert_eq!(state.current_path(), Some(String::from("/a/f1.txt")));
    assert!(matches!(state.get_state(), ContentState::FileChunk));
    assert_eq!(state.get_file_chunk(), "l1\nl2");
    assert_eq!(state.get_index(), 0);
}

#[test]
fn step_into_failure_leaves_state_unchanged() {
    let mut state = AppState::initialized(String::from("/a/"), base_listing());
    state.move_down();
    state.step_into(FetchOutcome::Failed(FetchError::Transport));
    assert_eq!(state.current_path(), Some(String::from("/a/")));
    assert_eq!(state.get_index(), 1);
    assert_eq!(state.rows().len(), 2);
}

#[test]
fn step_into_on_text_view_is_noop() {
    let mut state = AppState::initialized(String::from("/a/f1.txt"), FetchOutcome::Text(
        String::from("body"),
    ));
    assert!(state.step_into_request().is_none());
    state.step_into(FetchOutcome::Text(String::from("other")));
    assert_eq!(state.get_file_chunk(), "body");
}

#[test]
fn ascend_restores_previous_path() {
    let mut state = AppState::initialized(String::from("/a/"), base_listing());
    state.step_into(FetchOutcome::Listing(vec![entry("inner.txt", 3)]));
    assert_eq!(state.current_path(), Some(String::from("/a/dir/")));
    let req = state.back_request().expect("a parent above /a/dir/");
    assert_eq!(req.url, "/a/");
    assert!(matches!(req.kind, ContentState::ItemList));
    state.back_to_previours(base_listing());
    assert_eq!(state.current_path(), Some(String::from("/a/")));
    assert_eq!(state.get_index(), 0);
    assert_eq!(state.get_frame(), (0, 0));
    assert_eq!(state.rows().len(), 2);
}

#[test]
fn ascend_from_file_view_returns_to_listing() {
    let mut state = AppState::initialized(
        String::from("/a/f1.txt"),
        FetchOutcome::Text(String::from("body")),
    );
    let req = state.back_request().expect("a parent above /a/f1.txt");
    assert_eq!(req.url, "/a/");
    assert!(matches!(req.kind, ContentState::ItemList));
    state.back_to_previours(base_listing());
    assert!(matches!(state.get_state(), ContentState::ItemList));
    assert_eq!(state.current_path(), Some(String::from("/a/")));
}

#[test]
fn ascend_at_root_is_noop() {
    let mut state = AppState::initialized(String::from("/"), FetchOutcome::Listing(Vec::new()));
    assert!(state.back_request().is_none());
    state.back_to_previours(FetchOutcome::Listing(vec![entry("ghost", 1)]));
    assert_eq!(state.current_path(), Some(String::from("/")));
    assert_eq!(state.rows().len(), 0);

    let mut no_separator = AppState::initialized(
        String::from("file.txt"),
        FetchOutcome::Text(String::new()),
    );
    assert!(no_separator.back_request().is_none());
    no_separator.back_to_previours(FetchOutcome::Listing(Vec::new()));
    assert_eq!(no_separator.current_path(), Some(String::from("file.txt")));
}

#[test]
fn delay_is_clamped_between_one_and_ten() {
    let mut state = AppState::initialized(String::from("/a/"), base_listing());
    for _ in 0..12 {
        state.increment_delay();
        let d = state.duration().unwrap();
        assert!((1..=10).contains(&d));
    }
    assert_eq!(state.duration(), Some(10));
    for _ in 0..15 {
        state.decrement_delay();
        let d = state.duration().unwrap();
        assert!((1..=10).contains(&d));
    }
    assert_eq!(state.duration(), Some(1));
}

#[test]
fn text_view_cursor_moves_over_lines() {
    let mut state = AppState::initialized(
        String::from("/a/f1.txt"),
        FetchOutcome::Text(String::from("l1\nl2\nl3\n")),
    );
    // Three lines: the trailing newline closes the last line, it does not
    // open a fourth.
    state.move_down();
    state.move_down();
    assert_eq!(state.get_index(), 2);
    state.move_down();
    assert_eq!(state.get_index(), 2);
}

#[test]
fn viewport_slides_with_the_cursor() {
    let mut state = AppState::initialized(
        String::from("/a/"),
        FetchOutcome::Listing(vec![
            entry("a", 1),
            entry("b", 2),
            entry("c", 3),
            entry("d", 4),
            entry("e", 5),
        ]),
    );
    state.fit_frame(2);
    assert_eq!(state.get_frame(), (0, 2));
    // Sizing a second time changes nothing: the window is already sized.
    state.fit_frame(4);
    assert_eq!(state.get_frame(), (0, 2));
    state.move_down();
    assert_eq!(state.get_frame(), (0, 2));
    state.move_down();
    assert_eq!((state.get_index(), state.get_frame()), (2, (1, 3)));
    state.move_down();
    state.move_down();
    assert_eq!((state.get_index(), state.get_frame()), (4, (3, 5)));
    // Clamped at the bottom: no further shift.
    state.move_down();
    assert_eq!((state.get_index(), state.get_frame()), (4, (3, 5)));
    state.move_up();
    assert_eq!((state.get_index(), state.get_frame()), (3, (3, 5)));
    state.move_up();
    assert_eq!((state.get_index(), state.get_frame()), (2, (2, 4)));
    state.move_up();
    assert_eq!((state.get_index(), state.get_frame()), (1, (1, 3)));
}

#[test]
fn fit_frame_on_short_content_covers_it() {
    let mut state = AppState::initialized(String::from("/a/"), base_listing());
    state.fit_frame(25);
    assert_eq!(state.get_frame(), (0, 2));
}

#[test]
fn reset_frame_rewinds_cursor_and_window() {
    let mut state = AppState::initialized(String::from("/a/"), base_listing());
    state.fit_frame(2);
    state.move_down();
    state.reset_frame();
    assert_eq!(state.get_index(), 0);
    assert_eq!(state.get_frame(), (0, 0));
}

#[test]
fn counters_tick_independently() {
    let mut state = AppState::initialized(String::from("/a/"), base_listing());
    assert_eq!(state.count_tick(), Some(0));
    assert_eq!(state.count_sleep(), Some(0));
    state.incr_tick();
    state.incr_tick();
    state.incr_sleep();
    assert_eq!(state.count_tick(), Some(2));
    assert_eq!(state.count_sleep(), Some(1));

    let mut uninit = AppState::default();
    uninit.incr_tick();
    uninit.incr_sleep();
    assert_eq!(uninit.count_tick(), None);
    assert_eq!(uninit.count_sleep(), None);
    assert_eq!(uninit.duration(), None);
}

#[test]
fn update_state_refreshes_in_place() {
    let mut state = AppState::initialized(String::from("/a/"), base_listing());
    state.move_down();
    state.increment_delay();
    let req = state.refetch_request().expect("a located state refetches");
    assert_eq!(req.url, "/a/");
    state.update_state(FetchOutcome::Listing(vec![entry("only", 9)]));
    assert_eq!(state.current_path(), Some(String::from("/a/")));
    assert_eq!(state.rows().len(), 1);
    assert_eq!(state.get_index(), 0);
    // A refresh starts the delay over.
    assert_eq!(state.duration(), Some(1));
    // A failed refresh keeps everything.
    state.update_state(FetchOutcome::Failed(FetchError::Decode));
    assert_eq!(state.rows().len(), 1);
}
