use hdfs_proxy_tui::app::{App, AppCommand, AppReturn};
use hdfs_proxy_tui::io::IoEvent;
use hdfs_proxy_tui::key::Key;
use hdfs_proxy_tui::state::{ContentState, FetchOutcome, Item};

fn entry(name: &str, size: i64) -> Item {
    Item { name: String::from(name), size }
}

fn base_listing() -> FetchOutcome {
    FetchOutcome::Listing(vec![entry("dir", -1), entry("f1.txt", 120)])
}

#[test]
fn fresh_app_only_quits() {
    let mut app = App::new();
    assert!(!app.is_loading());
    assert!(!app.state().is_initialized());
    // Only Quit is bound before initialization.
    let (ret, cmd) = app.do_action(Key::Char('q'));
    assert_eq!(ret, AppReturn::Exit);
    assert!(cmd.is_none());
    let (ret, cmd) = app.do_action(Key::Char('j'));
    assert_eq!(ret, AppReturn::Continue);
    assert!(cmd.is_none());
}

#[test]
fn busy_flag_follows_dispatch_and_completion() {
    let mut app = App::new();
    app.dispatching();
    assert!(app.is_loading());
    app.handle_io_event(IoEvent::Initialize(String::from("/a/")), Some(base_listing()));
    assert!(!app.is_loading());
    assert!(app.state().is_initialized());
}

#[test]
fn end_to_end_descend_and_ascend() {
    let mut app = App::new();
    app.handle_io_event(IoEvent::Initialize(String::from("/a/")), Some(base_listing()));
    let state = app.state();
    assert_eq!(state.rows().len(), 2);
    assert_eq!(state.get_index(), 0);

    // StepIn while the cursor is on the directory entry: the dispatcher
    // fetches /a/dir/'s listing and the cursor resets.
    let req = app
        .io_request(&IoEvent::StepIn)
        .expect("a directory entry under the cursor");
    assert_eq!(req.url, "/a/dir/");
    assert!(matches!(req.kind, ContentState::ItemList));
    app.handle_io_event(
        IoEvent::StepIn,
        Some(FetchOutcome::Listing(vec![entry("inner.txt", 3)])),
    );
    assert_eq!(app.state().current_path(), Some(String::from("/a/dir/")));
    assert_eq!(app.state().get_index(), 0);
    assert_eq!(app.state().get_frame(), (0, 0));

    // StepOut re-fetches /a/ and restores cursor 0.
    let req = app.io_request(&IoEvent::StepOut).expect("a parent above /a/dir/");
    assert_eq!(req.url, "/a/");
    app.handle_io_event(IoEvent::StepOut, Some(base_listing()));
    assert_eq!(app.state().current_path(), Some(String::from("/a/")));
    assert_eq!(app.state().get_index(), 0);
    assert_eq!(app.state().get_frame(), (0, 0));
    assert_eq!(app.state().rows().len(), 2);
}

#[test]
fn end_to_end_file_view_moves_by_line() {
    let mut app = App::new();
    app.handle_io_event(
        IoEvent::Initialize(String::from("/a/f1.txt")),
        Some(FetchOutcome::Text(String::from("one\ntwo\nthree"))),
    );
    assert!(app.state().is_initialized());
    assert!(matches!(app.state().get_state(), ContentState::FileChunk));
    assert_eq!(app.state().get_index(), 0);
    app.handle_io_event(IoEvent::MoveDown, None);
    assert_eq!(app.state().get_index(), 1);
    app.handle_io_event(IoEvent::MoveDown, None);
    app.handle_io_event(IoEvent::MoveDown, None);
    // Clamped at lines_count - 1.
    assert_eq!(app.state().get_index(), 2);
    app.handle_io_event(IoEvent::MoveUp, None);
    assert_eq!(app.state().get_index(), 1);
}

#[test]
fn key_presses_map_to_commands_after_initialization() {
    let mut app = App::new();
    app.handle_io_event(IoEvent::Initialize(String::from("/a/")), Some(base_listing()));
    let (ret, cmd) = app.do_action(Key::Char('j'));
    assert_eq!(ret, AppReturn::Continue);
    assert!(matches!(cmd, Some(AppCommand::Io(IoEvent::MoveDown))));
    let (_, cmd) = app.do_action(Key::Up);
    assert!(matches!(cmd, Some(AppCommand::Io(IoEvent::MoveUp))));
    let (_, cmd) = app.do_action(Key::Enter);
    assert!(matches!(cmd, Some(AppCommand::Io(IoEvent::StepIn))));
    let (_, cmd) = app.do_action(Key::Esc);
    assert!(matches!(cmd, Some(AppCommand::Io(IoEvent::StepOut))));
    let (_, cmd) = app.do_action(Key::Char('s'));
    assert!(matches!(cmd, Some(AppCommand::SaveFile)));
    // The delay keys are not in the session set, so they fall through.
    let (ret, cmd) = app.do_action(Key::Char('+'));
    assert_eq!(ret, AppReturn::Continue);
    assert!(cmd.is_none());
    let (ret, _) = app.do_action(Key::Ctrl('c'));
    assert_eq!(ret, AppReturn::Exit);
}

#[test]
fn sleep_command_counts_and_clears_busy() {
    let mut app = App::new();
    app.handle_io_event(IoEvent::Initialize(String::from("/a/")), Some(base_listing()));
    app.dispatching();
    app.handle_io_event(IoEvent::Sleep(1), None);
    assert!(!app.is_loading());
    assert_eq!(app.state().count_sleep(), Some(1));
    app.slept();
    assert_eq!(app.state().count_sleep(), Some(2));
}

#[test]
fn failed_initialize_is_fatal_to_the_session() {
    let mut app = App::new();
    app.handle_io_event(
        IoEvent::Initialize(String::from("/a/")),
        Some(FetchOutcome::Failed(hdfs_proxy_tui::state::FetchError::Transport)),
    );
    assert!(!app.state().is_initialized());
}

#[test]
fn update_on_tick_counts() {
    let mut app = App::new();
    app.handle_io_event(IoEvent::Initialize(String::from("/a/")), Some(base_listing()));
    assert_eq!(app.update_on_tick(), AppReturn::Continue);
    assert_eq!(app.update_on_tick(), AppReturn::Continue);
    assert_eq!(app.state().count_tick(), Some(2));
}
