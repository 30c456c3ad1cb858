use crossbeam_channel::{bounded, Receiver};
use tsiangt::app::{App, Message, Panel, Request, Tab};
use tsiangt::channel::DEFAULT_INTERVAL;
use tsiangt::events::Key;
use tsiangt::library::ScanEntry;
use tsiangt::list::ListState;
use tsiangt::track::{TagInfo, Track};

struct Ends {
    dispatch: Receiver<Track>,
    transport: Receiver<bool>,
    telemetry: crossbeam_channel::Sender<bool>,
    autoplay: Receiver<Track>,
}

fn tag(title: &str, number: u32) -> TagInfo {
    TagInfo {
        title: Some(title.to_string()),
        artist: None,
        album: None,
        album_artist: None,
        year: None,
        track: Some(number),
        duration: None,
    }
}

fn track(path: &str, number: u32) -> Track {
    Track::new(path.to_string(), Some(tag(path, number))).unwrap()
}

fn app_with(capacity: usize) -> (App<'static>, Ends) {
    let (track_x, dispatch) = bounded::<Track>(capacity);
    let (track_p_x, transport) = bounded::<bool>(capacity);
    let (telemetry, track_i_rx) = bounded::<bool>(capacity);
    let (track_atp_x, autoplay) = bounded::<Track>(capacity);
    let app = App::new("/tsiangt/", track_x, track_p_x, track_i_rx, track_atp_x);
    (app, Ends { dispatch, transport, telemetry, autoplay })
}

fn app() -> (App<'static>, Ends) {
    app_with(1)
}

fn strings(items: &[&str]) -> Vec<String> {
    items.iter().map(|s| s.to_string()).collect()
}

fn playlist_of(app: &mut App, paths: &[&str]) {
    for (at, path) in paths.iter().enumerate() {
        app.playlist.items.push(track(path, at as u32));
    }
}

#[test]
fn new_app_is_on_the_playlist_tab_and_plays_nothing() {
    let (app, _ends) = app();
    assert_eq!(app.title, "/tsiangt/");
    assert_eq!(app.tabs.get_current_title(), "playlist");
    assert_eq!(app.tabs.panels.get_title(), "Directory");
    assert_eq!(app.tabs.titles, vec!["playlist", "library", "search"]);
    assert_eq!(app.tabs.panels.titles, vec!["Directory", "Files"]);
    assert_eq!(app.current_tab(), Tab::Playlist);
    assert_eq!(app.current_panel(), Panel::Directory);
    assert!(app.playlist.items.is_empty());
    assert!(app.directory.items.is_empty());
    assert!(app.directory_files.items.is_empty());
    assert_eq!(app.playing_track_index, None);
    assert!(!app.is_quit);
    assert!(!app.is_playing);
    assert!(!app.is_playlist_added);
    assert!(!app.should_select);
    assert_eq!(app.interval, DEFAULT_INTERVAL);
    assert_eq!(DEFAULT_INTERVAL, 250);
}

#[test]
fn play_key_on_an_empty_playlist_sends_nothing() {
    let (mut app, ends) = app();
    let outcome = app.on_key('\n');
    assert!(outcome.attempt.is_none());
    assert!(matches!(outcome.request, Request::Idle));
    assert!(ends.dispatch.try_recv().is_err());
    assert!(ends.transport.try_recv().is_err());
    assert!(ends.autoplay.try_recv().is_err());
    assert!(!app.is_playing);
    assert_eq!(app.playing_track_index, None);
}

#[test]
fn play_key_dispatches_the_selected_track() {
    let (mut app, ends) = app();
    playlist_of(&mut app, &["/m/a.mp3", "/m/b.mp3", "/m/c.mp3"]);
    app.on_key('j');
    assert_eq!(app.playlist.selected, 1);
    let outcome = app.on_key('\n');
    let attempt = outcome.attempt.unwrap();
    assert!(attempt.delivered);
    assert!(matches!(attempt.message, Message::Dispatch(ref t) if t.file_path == "/m/b.mp3"));
    assert!(matches!(outcome.request, Request::Idle));
    assert_eq!(ends.dispatch.try_recv().unwrap().file_path, "/m/b.mp3");
    assert!(ends.dispatch.try_recv().is_err());
    assert!(ends.autoplay.try_recv().is_err());
    assert!(app.is_playing);
    assert_eq!(app.playing_track_index, Some(1));
}

#[test]
fn on_select_playing_dispatches_once() {
    let (mut app, ends) = app();
    playlist_of(&mut app, &["/m/a.mp3"]);
    let attempt = app.on_select_playing();
    assert!(attempt.delivered);
    assert!(matches!(attempt.message, Message::Dispatch(ref t) if t.file_path == "/m/a.mp3"));
    assert_eq!(ends.dispatch.try_recv().unwrap().file_path, "/m/a.mp3");
    assert!(ends.dispatch.try_recv().is_err());
    assert_eq!(app.playing_track_index, Some(0));
    assert!(app.is_playing);
}

#[test]
fn dispatch_that_nobody_takes_is_dropped() {
    let (mut app, _ends) = app_with(0);
    app.set_interval(5);
    playlist_of(&mut app, &["/m/a.mp3"]);
    let outcome = app.on_key('\n');
    let attempt = outcome.attempt.unwrap();
    assert!(!attempt.delivered);
    assert!(matches!(attempt.message, Message::Dispatch(ref t) if t.file_path == "/m/a.mp3"));
    assert!(app.is_playing);
    assert_eq!(app.playing_track_index, Some(0));
}

#[test]
fn finished_track_advances_to_the_next_of_two() {
    let (mut app, ends) = app();
    playlist_of(&mut app, &["/m/a.mp3", "/m/b.mp3"]);
    app.on_key('\n');
    assert_eq!(app.playing_track_index, Some(0));
    let attempt = app.on_telemetry(Some(true)).unwrap();
    assert!(attempt.delivered);
    assert!(matches!(attempt.message, Message::Autoplay(ref t) if t.file_path == "/m/b.mp3"));
    assert_eq!(app.playing_track_index, Some(1));
    assert_eq!(ends.autoplay.try_recv().unwrap().file_path, "/m/b.mp3");
    assert!(ends.autoplay.try_recv().is_err());
}

#[test]
fn playing_index_advances_even_if_the_autoplay_offer_times_out() {
    let (mut app, _ends) = app_with(0);
    app.set_interval(5);
    playlist_of(&mut app, &["/m/a.mp3", "/m/b.mp3", "/m/c.mp3"]);
    app.on_key('\n');
    assert_eq!(app.playing_track_index, Some(0));
    let attempt = app.on_telemetry(Some(true)).unwrap();
    assert!(!attempt.delivered);
    assert!(matches!(attempt.message, Message::Autoplay(ref t) if t.file_path == "/m/b.mp3"));
    assert_eq!(app.playing_track_index, Some(1));
}

#[test]
fn advance_decides_without_sending() {
    let (mut app, ends) = app();
    playlist_of(&mut app, &["/m/a.mp3", "/m/b.mp3"]);
    app.playing_track_index = Some(0);
    app.is_playing = true;
    let message = app.advance(Some(true));
    assert!(matches!(message, Some(Message::Autoplay(ref t)) if t.file_path == "/m/b.mp3"));
    assert_eq!(app.playing_track_index, Some(1));
    assert!(ends.autoplay.try_recv().is_err());
}

#[test]
fn unfinished_or_missing_report_changes_nothing() {
    let (mut app, ends) = app();
    playlist_of(&mut app, &["/m/a.mp3", "/m/b.mp3"]);
    app.on_key('\n');
    ends.dispatch.try_recv().unwrap();
    assert!(app.on_telemetry(Some(false)).is_none());
    assert!(app.on_telemetry(None).is_none());
    assert_eq!(app.playing_track_index, Some(0));
    assert!(ends.autoplay.try_recv().is_err());
}

#[test]
fn no_autoplay_while_not_playing() {
    let (mut app, ends) = app();
    playlist_of(&mut app, &["/m/a.mp3", "/m/b.mp3"]);
    app.playing_track_index = Some(0);
    assert!(app.on_telemetry(Some(true)).is_none());
    assert_eq!(app.playing_track_index, Some(0));
    assert!(ends.autoplay.try_recv().is_err());
}

#[test]
fn no_autoplay_from_a_playlist_of_one() {
    let (mut app, ends) = app();
    playlist_of(&mut app, &["/m/a.mp3"]);
    app.on_key('\n');
    assert!(app.on_telemetry(Some(true)).is_none());
    assert_eq!(app.playing_track_index, Some(0));
    assert!(ends.autoplay.try_recv().is_err());
}

#[test]
fn no_autoplay_after_the_last_track() {
    let (mut app, ends) = app();
    playlist_of(&mut app, &["/m/a.mp3", "/m/b.mp3"]);
    app.on_key('j');
    app.on_key('\n');
    assert_eq!(app.playing_track_index, Some(1));
    assert!(app.on_telemetry(Some(true)).is_none());
    assert_eq!(app.playing_track_index, Some(1));
    assert!(ends.autoplay.try_recv().is_err());
}

#[test]
fn no_autoplay_when_nothing_was_dispatched() {
    let (mut app, ends) = app();
    playlist_of(&mut app, &["/m/a.mp3", "/m/b.mp3"]);
    app.on_key(' ');
    assert!(app.is_playing);
    assert!(app.on_telemetry(Some(true)).is_none());
    assert_eq!(app.playing_track_index, None);
    assert!(ends.autoplay.try_recv().is_err());
}

#[test]
fn tick_polls_the_telemetry_channel() {
    let (mut app, ends) = app();
    app.set_interval(5);
    playlist_of(&mut app, &["/m/a.mp3", "/m/b.mp3"]);
    app.on_key('\n');
    assert!(app.tick().is_none());
    assert_eq!(app.playing_track_index, Some(0));
    ends.telemetry.send(false).unwrap();
    assert!(app.tick().is_none());
    assert_eq!(app.playing_track_index, Some(0));
    ends.telemetry.send(true).unwrap();
    let attempt = app.tick().unwrap();
    assert!(matches!(attempt.message, Message::Autoplay(ref t) if t.file_path == "/m/b.mp3"));
    assert_eq!(app.playing_track_index, Some(1));
    assert_eq!(ends.autoplay.try_recv().unwrap().file_path, "/m/b.mp3");
}

#[test]
fn poll_telemetry_hands_the_report_on() {
    let (mut app, ends) = app();
    app.set_interval(5);
    assert_eq!(app.poll_telemetry(), None);
    ends.telemetry.send(true).unwrap();
    assert_eq!(app.poll_telemetry(), Some(true));
    ends.telemetry.send(false).unwrap();
    assert_eq!(app.poll_telemetry(), Some(false));
}

#[test]
fn set_next_queue_playing_index_moves_on_by_one() {
    let (mut app, _ends) = app();
    playlist_of(&mut app, &["/m/a.mp3", "/m/b.mp3", "/m/c.mp3"]);
    app.set_next_queue_playing_index();
    assert_eq!(app.playing_track_index, None);
    app.playing_track_index = Some(0);
    app.set_next_queue_playing_index();
    assert_eq!(app.playing_track_index, Some(1));
    app.set_next_queue_playing_index();
    assert_eq!(app.playing_track_index, Some(2));
}

#[test]
fn space_toggles_playing_and_sends_pause() {
    let (mut app, ends) = app();
    playlist_of(&mut app, &["/m/a.mp3"]);
    let outcome = app.on_key(' ');
    assert!(matches!(outcome.attempt.unwrap().message, Message::Transport(true)));
    assert!(app.is_playing);
    assert_eq!(ends.transport.try_recv(), Ok(true));
    let outcome = app.on_key(' ');
    assert!(matches!(outcome.attempt.unwrap().message, Message::Transport(true)));
    assert!(!app.is_playing);
    assert_eq!(ends.transport.try_recv(), Ok(true));
}

#[test]
fn s_toggles_playing_and_sends_stop() {
    let (mut app, ends) = app();
    playlist_of(&mut app, &["/m/a.mp3"]);
    app.on_key('\n');
    assert!(app.is_playing);
    let outcome = app.on_key('s');
    assert!(matches!(outcome.attempt.unwrap().message, Message::Transport(false)));
    assert!(!app.is_playing);
    assert_eq!(ends.transport.try_recv(), Ok(false));
    assert!(ends.transport.try_recv().is_err());
}

#[test]
fn keys_are_disabled_while_the_list_on_show_is_empty() {
    let (mut app, ends) = app();
    for c in ['\n', 'b', ' ', 's', 'j', 'k', 'h', 'l', 'x'] {
        let outcome = app.on_key(c);
        assert!(outcome.attempt.is_none());
        assert!(matches!(outcome.request, Request::Idle));
    }
    assert!(!app.is_playing);
    assert_eq!(app.tabs.panels.index, 0);
    assert_eq!(app.playlist.selected, 0);
    assert!(ends.transport.try_recv().is_err());
    assert!(ends.dispatch.try_recv().is_err());
}

#[test]
fn digits_switch_tabs_even_with_empty_lists() {
    let (mut app, _ends) = app();
    app.on_key('2');
    assert_eq!(app.tabs.index, 1);
    assert_eq!(app.current_tab(), Tab::Library);
    assert_eq!(app.tabs.get_current_title(), "library");
    app.on_key('3');
    assert_eq!(app.current_tab(), Tab::Search);
    app.on_key('1');
    assert_eq!(app.current_tab(), Tab::Playlist);
    app.on_key('5');
    assert_eq!(app.tabs.index, 4);
    assert_eq!(app.current_tab(), Tab::Library);
    app.on_key('0');
    assert_eq!(app.tabs.index, usize::MAX);
    assert_eq!(app.current_tab(), Tab::Playlist);
    assert_eq!(app.tabs.get_current_title(), "playlist");
}

#[test]
fn handle_tab_is_one_based() {
    let (mut app, _ends) = app();
    app.handle_tab(3);
    assert_eq!(app.tabs.index, 2);
    assert_eq!(app.tabs.get_current_title(), "search");
}

#[test]
fn q_and_escape_quit() {
    let (mut app, _ends) = app();
    app.on_key('q');
    assert!(app.is_quit);
    let (mut app, _ends) = self::app();
    let outcome = app.on_input(Key::Esc);
    assert!(app.is_quit);
    assert!(outcome.attempt.is_none());
}

#[test]
fn j_and_k_move_the_playlist_selection() {
    let (mut app, _ends) = app();
    playlist_of(&mut app, &["/m/a.mp3", "/m/b.mp3", "/m/c.mp3"]);
    app.is_playlist_added = true;
    app.on_key('j');
    assert_eq!(app.playlist.selected, 1);
    assert!(!app.is_playlist_added);
    app.on_key('j');
    app.on_key('j');
    assert_eq!(app.playlist.selected, 2);
    app.on_key('k');
    assert_eq!(app.playlist.selected, 1);
    app.on_key('k');
    app.on_key('k');
    assert_eq!(app.playlist.selected, 0);
}

#[test]
fn arrows_move_the_list_on_show() {
    let (mut app, _ends) = app();
    playlist_of(&mut app, &["/m/a.mp3", "/m/b.mp3"]);
    app.on_input(Key::Down);
    assert_eq!(app.playlist.selected, 1);
    app.on_input(Key::Up);
    assert_eq!(app.playlist.selected, 0);
}

#[test]
fn arrows_on_an_empty_list_do_nothing() {
    let (mut app, _ends) = app();
    app.on_input(Key::Down);
    app.on_input(Key::Up);
    app.on_key_down();
    app.on_key_up();
    assert_eq!(app.playlist.selected, 0);
    app.on_key('2');
    app.on_input(Key::Down);
    assert_eq!(app.directory.selected, 0);
    app.on_input(Key::Right);
    app.on_input(Key::Down);
    assert_eq!(app.directory_files.selected, 0);
}

#[test]
fn left_and_right_switch_panels_on_the_library_tab_only() {
    let (mut app, _ends) = app();
    app.on_input(Key::Right);
    assert_eq!(app.tabs.panels.index, 0);
    app.on_key('2');
    app.on_input(Key::Right);
    assert_eq!(app.tabs.panels.index, 1);
    assert_eq!(app.current_panel(), Panel::Files);
    app.on_input(Key::Right);
    assert_eq!(app.tabs.panels.index, 1);
    app.on_input(Key::Left);
    assert_eq!(app.tabs.panels.index, 0);
    app.on_key('3');
    app.on_input(Key::Right);
    assert_eq!(app.tabs.panels.index, 0);
}

#[test]
fn other_keys_do_nothing() {
    let (mut app, ends) = app();
    playlist_of(&mut app, &["/m/a.mp3"]);
    let outcome = app.on_input(Key::Other);
    assert!(outcome.attempt.is_none());
    assert!(matches!(outcome.request, Request::Idle));
    let outcome = app.on_input(Key::Char('x'));
    assert!(outcome.attempt.is_none());
    assert!(!app.is_quit);
    assert!(!app.is_playing);
    assert!(ends.dispatch.try_recv().is_err());
}

#[test]
fn h_and_l_switch_panels() {
    let (mut app, _ends) = app();
    playlist_of(&mut app, &["/m/a.mp3"]);
    app.on_key('l');
    assert_eq!(app.tabs.panels.index, 1);
    app.on_key('h');
    assert_eq!(app.tabs.panels.index, 0);
}

#[test]
fn library_navigation_follows_the_panel() {
    let (mut app, _ends) = app();
    app.set_init_directory(ListState::new(strings(&["/m/rock", "/m/jazz"])));
    app.set_init_directory_files(ListState::new(vec![track("/m/a.mp3", 1), track("/m/b.mp3", 2)]));
    app.on_key('2');
    assert_eq!(app.get_current_item_lists(), 2);
    app.on_key('j');
    assert_eq!(app.directory.selected, 1);
    assert_eq!(app.directory_files.selected, 0);
    app.on_key('l');
    app.on_key('j');
    assert_eq!(app.directory_files.selected, 1);
    app.on_key('k');
    assert_eq!(app.directory_files.selected, 0);
    assert_eq!(app.directory.selected, 1);
    app.handle_panel_select_prev();
    assert_eq!(app.directory_files.selected, 1);
    app.handle_panel_select_next();
    assert_eq!(app.directory_files.selected, 0);
}

#[test]
fn current_list_size_depends_on_tab_and_panel() {
    let (mut app, _ends) = app();
    playlist_of(&mut app, &["/m/a.mp3"]);
    app.set_init_directory(ListState::new(strings(&["/m/rock", "/m/jazz"])));
    app.set_init_directory_files(ListState::new(vec![
        track("/m/a.mp3", 1),
        track("/m/b.mp3", 2),
        track("/m/c.mp3", 3),
    ]));
    assert_eq!(app.get_current_item_lists(), 1);
    app.handle_tab(2);
    assert_eq!(app.get_current_item_lists(), 2);
    app.tabs.panels.next_panel();
    assert_eq!(app.get_current_item_lists(), 3);
    app.handle_tab(3);
    assert_eq!(app.get_current_item_lists(), 0);
}

#[test]
fn playing_track_index_follows_the_raw_tab_index() {
    let (mut app, _ends) = app();
    playlist_of(&mut app, &["/m/a.mp3", "/m/b.mp3"]);
    app.set_init_directory_files(ListState::new(vec![track("/m/a.mp3", 1), track("/m/b.mp3", 2)]));
    app.on_key('j');
    assert_eq!(app.get_playing_track_index(), Some(1));
    app.handle_tab(2);
    assert_eq!(app.get_playing_track_index(), Some(0));
    app.handle_tab(3);
    assert_eq!(app.get_playing_track_index(), None);
    app.handle_tab(4);
    assert_eq!(app.get_playing_track_index(), None);
}

#[test]
fn enter_on_a_file_appends_it_to_the_playlist() {
    let (mut app, ends) = app();
    app.set_init_directory_files(ListState::new(vec![track("/m/a.mp3", 1), track("/m/b.mp3", 2)]));
    app.on_key('2');
    app.on_input(Key::Right);
    app.on_key('j');
    let outcome = app.on_key('\n');
    assert!(outcome.attempt.is_none());
    assert!(matches!(outcome.request, Request::Idle));
    assert!(app.is_playlist_added);
    assert!(app.should_select);
    assert_eq!(app.playlist.items.len(), 1);
    assert_eq!(app.playlist.items[0].file_path, "/m/b.mp3");
    assert_eq!(app.playlist.selected, 0);
    app.on_key('\n');
    assert_eq!(app.playlist.items.len(), 2);
    assert_eq!(app.playlist.items[1].file_path, "/m/b.mp3");
    assert!(ends.dispatch.try_recv().is_err());
}

#[test]
fn on_select_directory_files_playing_appends_the_selected_file() {
    let (mut app, _ends) = app();
    app.set_init_directory_files(ListState::new(vec![track("/m/a.mp3", 1)]));
    app.on_select_directory_files_playing();
    assert!(app.is_playlist_added);
    assert_eq!(app.playlist.items.len(), 1);
    assert_eq!(app.playlist.items[0].file_path, "/m/a.mp3");
}

#[test]
fn enter_on_a_directory_asks_for_its_listing() {
    let (mut app, _ends) = app();
    app.set_init_directory(ListState::new(strings(&["/m/rock", "/m/jazz"])));
    app.on_key('2');
    app.on_key('j');
    let outcome = app.on_key('\n');
    assert!(outcome.attempt.is_none());
    assert!(matches!(outcome.request, Request::List(ref path) if path == "/m/jazz"));
    assert_eq!(app.directory.items, strings(&["/m/rock", "/m/jazz"]));
}

#[test]
fn entering_a_directory_lists_it_and_asks_for_a_scan() {
    let (mut app, _ends) = app();
    app.set_init_directory(ListState::new(strings(&["/m/rock", "/m/jazz"])));
    app.on_key('2');
    app.on_key('j');
    let request = app.on_select_directory(Some(strings(&[
        "/m/jazz/.hidden",
        "/m/jazz/trio",
        "/m/jazz/solo",
    ])));
    assert_eq!(app.directory.items, strings(&["/m/jazz/trio", "/m/jazz/solo"]));
    assert_eq!(app.directory.selected, 0);
    assert!(matches!(request, Request::Scan(ref path) if path == "/m/jazz/trio"));
}

#[test]
fn entering_an_unreadable_directory_keeps_the_list() {
    let (mut app, _ends) = app();
    app.set_init_directory(ListState::new(strings(&["/m/rock", "/m/jazz"])));
    app.on_key('2');
    app.on_key('j');
    let request = app.on_select_directory(None);
    assert_eq!(app.directory.items, strings(&["/m/rock", "/m/jazz"]));
    assert_eq!(app.directory.selected, 1);
    assert!(matches!(request, Request::Scan(ref path) if path == "/m/jazz"));
    let request = app.on_select_directory(Some(Vec::new()));
    assert_eq!(app.directory.items, strings(&["/m/rock", "/m/jazz"]));
    assert!(matches!(request, Request::Scan(ref path) if path == "/m/jazz"));
}

#[test]
fn entering_a_directory_of_hidden_entries_asks_for_nothing() {
    let (mut app, _ends) = app();
    app.set_init_directory(ListState::new(strings(&["/m/rock"])));
    let request = app.on_select_directory(Some(strings(&["/m/rock/.a", "/m/rock/.b"])));
    assert!(app.directory.items.is_empty());
    assert!(matches!(request, Request::Idle));
}

#[test]
fn scan_with_tracks_replaces_the_files() {
    let (mut app, _ends) = app();
    app.set_init_directory_files(ListState::new(vec![track("/m/old.mp3", 1), track("/m/older.mp3", 2)]));
    app.on_key('2');
    app.on_input(Key::Right);
    app.on_key('j');
    assert_eq!(app.directory_files.selected, 1);
    app.on_select_directory_files(vec![
        ScanEntry { path: "/m/jazz/a.mp3".to_string(), is_dir: false, tag: Some(tag("a", 2)) },
        ScanEntry { path: "/m/jazz/cover.png".to_string(), is_dir: false, tag: None },
        ScanEntry { path: "/m/jazz/b.ogg".to_string(), is_dir: false, tag: Some(tag("b", 1)) },
    ]);
    assert_eq!(app.directory_files.items.len(), 2);
    assert_eq!(app.directory_files.items[0].file_path, "/m/jazz/a.mp3");
    assert_eq!(app.directory_files.items[1].file_path, "/m/jazz/b.ogg");
    assert_eq!(app.directory_files.selected, 0);
}

#[test]
fn scan_without_tracks_keeps_the_files() {
    let (mut app, _ends) = app();
    app.set_init_directory_files(ListState::new(vec![track("/m/old.mp3", 1)]));
    app.handle_get_directory_files(vec![ScanEntry {
        path: "/m/jazz/cover.png".to_string(),
        is_dir: false,
        tag: None,
    }]);
    assert_eq!(app.directory_files.items.len(), 1);
    assert_eq!(app.directory_files.items[0].file_path, "/m/old.mp3");
    app.handle_get_directory_files(Vec::new());
    assert_eq!(app.directory_files.items.len(), 1);
}

#[test]
fn b_asks_for_the_directory_two_levels_up() {
    let (mut app, _ends) = app();
    app.set_init_directory(ListState::new(strings(&["/home/me/Music/rock", "/home/me/Music/jazz"])));
    app.on_key('2');
    let outcome = app.on_key('b');
    assert!(outcome.attempt.is_none());
    assert!(matches!(outcome.request, Request::Ascend(ref path) if path == "/home/me"));
    app.redirect_parent_path(Some(strings(&["/home/me/Music", "/home/me/.cache", "/home/me/Docs"])));
    assert_eq!(app.directory.items, strings(&["/home/me/Music", "/home/me/Docs"]));
    assert_eq!(app.directory.selected, 0);
}

#[test]
fn b_asks_nothing_on_the_files_panel_or_at_the_top() {
    let (mut app, _ends) = app();
    app.set_init_directory(ListState::new(strings(&["/rock"])));
    app.set_init_directory_files(ListState::new(vec![track("/m/a.mp3", 1)]));
    app.on_key('2');
    assert!(matches!(app.on_key('b').request, Request::Idle));
    assert!(matches!(app.parent_request(), Request::Idle));
    app.set_init_directory(ListState::new(strings(&["/home/me/Music/rock"])));
    app.on_key('l');
    assert!(matches!(app.on_key('b').request, Request::Idle));
}

#[test]
fn unreadable_parent_keeps_the_list() {
    let (mut app, _ends) = app();
    app.set_init_directory(ListState::new(strings(&["/home/me/Music/rock"])));
    app.redirect_parent_path(None);
    assert_eq!(app.directory.items, strings(&["/home/me/Music/rock"]));
}

#[test]
fn set_directory_filters_hidden_entries() {
    let (mut app, _ends) = app();
    app.set_init_directory(ListState::new(strings(&["/m/a", "/m/b"])));
    app.on_key('2');
    app.on_key('j');
    app.set_directory(strings(&["/n/.x", "/n/y", "/n/z"]));
    assert_eq!(app.directory.items, strings(&["/n/y", "/n/z"]));
    assert_eq!(app.directory.selected, 0);
}

#[test]
fn handle_get_directory_takes_in_a_listing() {
    let (mut app, _ends) = app();
    app.handle_get_directory(Some(strings(&["/n/y", "/n/.z"])));
    assert_eq!(app.directory.items, strings(&["/n/y"]));
    app.handle_get_directory(None);
    assert_eq!(app.directory.items, strings(&["/n/y"]));
}

#[test]
fn set_directory_files_selects_the_first() {
    let (mut app, _ends) = app();
    app.set_init_directory_files(ListState::new(vec![track("/m/a.mp3", 1), track("/m/b.mp3", 2)]));
    app.on_key('2');
    app.on_input(Key::Right);
    app.on_key('j');
    assert_eq!(app.directory_files.selected, 1);
    app.set_directory_files(vec![track("/m/c.mp3", 3)]);
    assert_eq!(app.directory_files.selected, 0);
    assert_eq!(app.directory_files.items.len(), 1);
}

#[test]
fn set_should_select_sets_the_flag() {
    let (mut app, _ends) = app();
    app.set_should_select(true);
    assert!(app.should_select);
    app.set_should_select(false);
    assert!(!app.should_select);
}

#[test]
fn press_decides_without_sending() {
    let (mut app, ends) = app();
    playlist_of(&mut app, &["/m/a.mp3"]);
    let step = app.press('\n');
    assert!(matches!(step.message, Some(Message::Dispatch(ref t)) if t.file_path == "/m/a.mp3"));
    assert!(matches!(step.request, Request::Idle));
    assert!(ends.dispatch.try_recv().is_err());
    let outcome = app.carry_out(step);
    assert!(outcome.attempt.unwrap().delivered);
    assert_eq!(ends.dispatch.try_recv().unwrap().file_path, "/m/a.mp3");
}

#[test]
fn each_message_goes_to_the_channel_of_its_kind() {
    let (app, ends) = app();
    assert!(app.deliver(Message::Autoplay(track("/m/a.mp3", 1))).delivered);
    assert!(ends.dispatch.try_recv().is_err());
    assert!(ends.transport.try_recv().is_err());
    assert_eq!(ends.autoplay.try_recv().unwrap().file_path, "/m/a.mp3");
    assert!(app.deliver(Message::Transport(false)).delivered);
    assert_eq!(ends.transport.try_recv(), Ok(false));
    assert!(app.deliver(Message::Dispatch(track("/m/b.mp3", 1))).delivered);
    assert_eq!(ends.dispatch.try_recv().unwrap().file_path, "/m/b.mp3");
    assert!(ends.autoplay.try_recv().is_err());
}

#[test]
fn panel_keys_are_disabled_while_the_directory_list_is_empty() {
    let (mut app, _ends) = app();
    app.set_init_directory_files(ListState::new(vec![track("/m/a.mp3", 1)]));
    app.on_key('2');
    app.on_key('l');
    assert_eq!(app.tabs.panels.index, 0);
}

#[test]
fn channel_ends_stay_the_same_through_keys_and_reports() {
    let (track_x, dispatch) = bounded::<Track>(1);
    let (track_p_x, transport) = bounded::<bool>(1);
    let (telemetry, track_i_rx) = bounded::<bool>(1);
    let (track_atp_x, autoplay) = bounded::<Track>(1);
    let mut app = App::new(
        "/tsiangt/",
        track_x.clone(),
        track_p_x.clone(),
        track_i_rx.clone(),
        track_atp_x.clone(),
    );
    app.set_interval(5);
    playlist_of(&mut app, &["/m/a.mp3", "/m/b.mp3"]);
    for c in ['j', 'k', '\n', ' ', 's', '2', 'l', 'h', 'b', '1', 'x'] {
        app.on_key(c);
        dispatch.try_recv().ok();
        transport.try_recv().ok();
    }
    app.on_input(Key::Down);
    app.on_telemetry(Some(true));
    autoplay.try_recv().ok();
    app.tick();
    app.handle_get_directory(None);
    app.set_directory(Vec::new());
    assert!(app.track_x.same_channel(&track_x));
    assert!(app.track_p_x.same_channel(&track_p_x));
    assert!(app.track_i_rx.same_channel(&track_i_rx));
    assert!(app.track_atp_x.same_channel(&track_atp_x));
    telemetry.send(false).unwrap();
    assert_eq!(app.poll_telemetry(), Some(false));
}
