//! The control side: what a key press or a telemetry report does to the
//! navigation state, and what it asks of the render side and of the caller.

use crate::channel::{await_message, offer, DEFAULT_INTERVAL};
use crate::events::Key;
use crate::library::{
    get_list_of_paths, get_tracks_from_path, keep_visible, lemma_shown_idempotent, scanned,
    shown, views, ScanEntry,
};
use crate::list::{ListState, Selection};
use crate::paths::{ascend, grandparent};
use crate::tabs::{index_of_tab, ControlState, TabState};
use crate::track::Track;
use crossbeam_channel::{Receiver, Sender};
use vstd::prelude::*;

verus! {

/// The top-level tabs.
#[derive(Clone, Copy, Debug, PartialEq, Eq, Structural)]
pub enum Tab {
    Playlist,
    Library,
    Search,
}

/// The panels of a tab.
#[derive(Clone, Copy, Debug, PartialEq, Eq, Structural)]
pub enum Panel {
    Directory,
    Files,
}

/// The tab that a tab index stands for: the index is read modulo three.
pub open spec fn tab_at(index: nat) -> Tab {
    if index % 3 == 0 {
        Tab::Playlist
    } else if index % 3 == 1 {
        Tab::Library
    } else {
        Tab::Search
    }
}

/// The panel that a panel index stands for.
pub open spec fn panel_at(index: nat) -> Panel {
    if index == 0 {
        Panel::Directory
    } else {
        Panel::Files
    }
}

/// A key that names a tab: a decimal digit.
pub open spec fn is_digit(c: char) -> bool {
    '0' <= c && c <= '9'
}

/// The number that a digit stands for.
pub open spec fn digit_of(c: char) -> usize {
    (c as u32 - '0' as u32) as usize
}

/// What the control side sends to the render side.
#[derive(Debug)]
pub enum Message {
    /// Start playing this track now, in place of whatever is loaded.
    Dispatch(Track),
    /// `true` toggles pause; `false` stops and clears.
    Transport(bool),
    /// Load and play this track as the successor of the one that ended.
    Autoplay(Track),
}

impl Clone for Message {
    fn clone(&self) -> (copy: Message)
        ensures
            copy == *self,
    {
        match self {
            Message::Dispatch(track) => Message::Dispatch(track.clone()),
            Message::Transport(flag) => Message::Transport(*flag),
            Message::Autoplay(track) => Message::Autoplay(track.clone()),
        }
    }
}

/// File-system work that the control side asks of its caller.
#[derive(Debug)]
pub enum Request {
    /// Nothing is asked.
    Idle,
    /// Read this directory and hand the outcome to `on_select_directory`.
    List(String),
    /// Walk this tree and hand the outcome to `on_select_directory_files`.
    Scan(String),
    /// Read this directory and hand the outcome to `redirect_parent_path`.
    Ascend(String),
}

/// The mathematical content of a [`Request`].
pub enum Ask {
    Idle,
    List(Seq<char>),
    Scan(Seq<char>),
    Ascend(Seq<char>),
}

impl View for Request {
    type V = Ask;

    open spec fn view(&self) -> Ask {
        match self {
            Request::Idle => Ask::Idle,
            Request::List(path) => Ask::List(path@),
            Request::Scan(path) => Ask::Scan(path@),
            Request::Ascend(path) => Ask::Ascend(path@),
        }
    }
}

/// What a key press decides: at most one message for the render side, and at
/// most one request to the caller.
#[derive(Debug)]
pub struct Step {
    pub message: Option<Message>,
    pub request: Request,
}

/// One message that was offered to the render side, and whether it was taken
/// within the waiting time.
#[derive(Debug)]
pub struct Attempt {
    pub message: Message,
    pub delivered: bool,
}

/// What a key press did: the message it offered, if any, and its request.
#[derive(Debug)]
pub struct Outcome {
    pub attempt: Option<Attempt>,
    pub request: Request,
}

/// The message of an attempt, if there was one.
pub open spec fn offered(attempt: Option<Attempt>) -> Option<Message> {
    match attempt {
        Some(made) => Some(made.message),
        None => None,
    }
}

/// The mathematical content of an [`App`]: everything but its channel ends,
/// which [`App::same_ends`] speaks of, and the names of its tabs and panels,
/// which [`App::wf`] fixes.
#[verifier::ext_equal]
pub struct Model {
    pub title: Seq<char>,
    pub directory: Selection<String>,
    pub files: Selection<Track>,
    pub playlist: Selection<Track>,
    pub tab: nat,
    pub panel: nat,
    pub playing: Option<nat>,
    pub quit: bool,
    pub is_playing: bool,
    pub added: bool,
    pub should_select: bool,
    pub interval: u32,
}

impl Model {
    /// The panel is one of the two, every list has its selection in range,
    /// and the playing position, if there is one, is a position of the
    /// playlist.
    pub open spec fn wf(self) -> bool {
        &&& self.panel < 2
        &&& self.directory.wf()
        &&& self.files.wf()
        &&& self.playlist.wf()
        &&& self.playing matches Some(at) ==> at < self.playlist.items.len()
    }

    /// The number of items in the list that is on show.
    pub open spec fn visible_len(self) -> nat {
        match tab_at(self.tab) {
            Tab::Playlist => self.playlist.items.len(),
            Tab::Library => match panel_at(self.panel) {
                Panel::Directory => self.directory.items.len(),
                Panel::Files => self.files.items.len(),
            },
            Tab::Search => 0,
        }
    }

    /// The list of the panel on show, moved one step towards zero.
    pub open spec fn panel_next(self) -> Model {
        if self.panel == 0 {
            Model { directory: self.directory.next(), ..self }
        } else if self.panel == 1 {
            Model { files: self.files.next(), ..self }
        } else {
            self
        }
    }

    /// The list of the panel on show, moved one step towards the end.
    pub open spec fn panel_prev(self) -> Model {
        if self.panel == 0 {
            Model { directory: self.directory.prev(), ..self }
        } else if self.panel == 1 {
            Model { files: self.files.prev(), ..self }
        } else {
            self
        }
    }

    /// The state after "up": the list on show moves one step towards zero.
    pub open spec fn key_up(self) -> Model {
        match tab_at(self.tab) {
            Tab::Playlist => Model { playlist: self.playlist.next(), ..self },
            Tab::Library => self.panel_next(),
            Tab::Search => self,
        }
    }

    /// The state after "down": the list on show moves one step towards the
    /// end.
    pub open spec fn key_down(self) -> Model {
        match tab_at(self.tab) {
            Tab::Playlist => Model { playlist: self.playlist.prev(), ..self },
            Tab::Library => self.panel_prev(),
            Tab::Search => self,
        }
    }

    /// The state after the selected track of the playlist was dispatched.
    pub open spec fn dispatched(self) -> Model {
        Model { is_playing: true, playing: Some(self.playlist.selected), ..self }
    }

    /// The state after the selected file was appended to the playlist.
    pub open spec fn appended(self) -> Model {
        Model {
            added: true,
            playlist: Selection {
                items: self.playlist.items.push(self.files.current()),
                selected: self.playlist.selected,
            },
            ..self
        }
    }

    /// The state after "enter", which depends on the tab and panel on show.
    pub open spec fn entered(self) -> Model {
        match tab_at(self.tab) {
            Tab::Playlist => self.dispatched(),
            Tab::Library => match panel_at(self.panel) {
                Panel::Directory => self,
                Panel::Files => Model { should_select: true, ..self }.appended(),
            },
            Tab::Search => self,
        }
    }

    /// The state after a character key. A digit jumps to a tab and `q`
    /// quits; every other key does nothing while the list on show is empty.
    pub open spec fn pressed(self, c: char) -> Model {
        if is_digit(c) {
            Model { tab: index_of_tab(digit_of(c)) as nat, ..self }
        } else if c == 'q' {
            Model { quit: true, ..self }
        } else if self.visible_len() > 0 {
            if c == '\n' {
                self.entered()
            } else if c == ' ' || c == 's' {
                Model { is_playing: !self.is_playing, ..self }
            } else if c == 'j' {
                Model { added: false, ..self }.key_down()
            } else if c == 'k' {
                Model { added: false, ..self }.key_up()
            } else if c == 'h' {
                Model { panel: 0, ..self }
            } else if c == 'l' {
                Model { panel: 1, ..self }
            } else {
                self
            }
        } else {
            self
        }
    }

    /// The message that a character key sends to the render side.
    pub open spec fn message_for(self, c: char) -> Option<Message> {
        if is_digit(c) || c == 'q' || self.visible_len() == 0 {
            None
        } else if c == '\n' && tab_at(self.tab) == Tab::Playlist {
            Some(Message::Dispatch(self.playlist.current()))
        } else if c == ' ' {
            Some(Message::Transport(true))
        } else if c == 's' {
            Some(Message::Transport(false))
        } else {
            None
        }
    }

    /// The directory that "go up" leads to: two levels above the selected
    /// entry, where the directory panel is active and has an entry.
    pub open spec fn ascent(self) -> Option<Seq<char>> {
        if self.panel == 0 && self.directory.items.len() > 0 {
            grandparent(self.directory.current()@)
        } else {
            None
        }
    }

    /// The request that a character key makes of the caller.
    pub open spec fn ask_for(self, c: char) -> Ask {
        if is_digit(c) || c == 'q' || self.visible_len() == 0 {
            Ask::Idle
        } else if c == '\n' && tab_at(self.tab) == Tab::Library && self.panel == 0 {
            Ask::List(self.directory.current()@)
        } else if c == 'b' {
            match self.ascent() {
                Some(path) => Ask::Ascend(path),
                None => Ask::Idle,
            }
        } else {
            Ask::Idle
        }
    }

    /// The state after a key event.
    pub open spec fn keyed(self, key: Key) -> Model {
        match key {
            Key::Char(c) => self.pressed(c),
            Key::Esc => Model { quit: true, ..self },
            Key::Up => self.key_up(),
            Key::Down => self.key_down(),
            Key::Left => if tab_at(self.tab) == Tab::Library {
                Model { panel: 0, ..self }
            } else {
                self
            },
            Key::Right => if tab_at(self.tab) == Tab::Library {
                Model { panel: 1, ..self }
            } else {
                self
            },
            Key::Other => self,
        }
    }

    /// The playlist position that autoplay moves to: the one after the
    /// playing position, while the player is playing, the playlist has more
    /// than one track and the playing track is not its last.
    pub open spec fn successor(self) -> Option<nat> {
        match self.playing {
            Some(at) => if self.is_playing && self.playlist.items.len() > 1 && at + 1
                < self.playlist.items.len() {
                Some(at + 1)
            } else {
                None
            },
            None => None,
        }
    }

    /// Whether a telemetry report makes autoplay fire: the render side says
    /// that it has finished, and there is a successor.
    pub open spec fn autoplay_due(self, report: Option<bool>) -> bool {
        report == Some(true) && self.successor() is Some
    }

    /// The state after a telemetry report.
    pub open spec fn reported(self, report: Option<bool>) -> Model {
        if self.autoplay_due(report) {
            Model { playing: self.successor(), ..self }
        } else {
            self
        }
    }

    /// The message that a telemetry report sends to the render side.
    pub open spec fn autoplay_for(self, report: Option<bool>) -> Option<Message> {
        if self.autoplay_due(report) {
            Some(Message::Autoplay(self.playlist.items[self.successor()->0 as int]))
        } else {
            None
        }
    }

    /// The state after the outcome of reading a directory was taken in: a
    /// directory with entries replaces the directory list by its visible
    /// children, any other leaves it.
    pub open spec fn listed(self, listing: Option<Seq<String>>) -> Model {
        match listing {
            Some(read) => if read.len() > 0 {
                Model { directory: Selection::fresh(shown(read)), ..self }
            } else {
                self
            },
            None => self,
        }
    }

    /// The tree to walk once a directory was entered: the selected entry.
    pub open spec fn scan_target(self) -> Ask {
        if self.directory.items.len() > 0 {
            Ask::Scan(self.directory.current()@)
        } else {
            Ask::Idle
        }
    }
}

/// The control side of the player.
pub struct App<'a> {
    pub title: &'a str,
    pub directory: ListState<String>,
    pub directory_files: ListState<Track>,
    pub playlist: ListState<Track>,
    pub tabs: TabState<'a>,
    pub playing_track_index: Option<usize>,
    pub is_quit: bool,
    pub is_playing: bool,
    pub is_playlist_added: bool,
    pub should_select: bool,
    /// The waiting time of each channel operation, in milliseconds.
    pub interval: u32,
    pub track_x: Sender<Track>,
    pub track_p_x: Sender<bool>,
    pub track_i_rx: Receiver<bool>,
    pub track_atp_x: Sender<Track>,
}

/// The position held in an optional index.
pub open spec fn position_of(index: Option<usize>) -> Option<nat> {
    match index {
        Some(at) => Some(at as nat),
        None => None,
    }
}

impl<'a> View for App<'a> {
    type V = Model;

    open spec fn view(&self) -> Model {
        Model {
            title: self.title@,
            directory: self.directory@,
            files: self.directory_files@,
            playlist: self.playlist@,
            tab: self.tabs.index as nat,
            panel: self.tabs.panels.index as nat,
            playing: position_of(self.playing_track_index),
            quit: self.is_quit,
            is_playing: self.is_playing,
            added: self.is_playlist_added,
            should_select: self.should_select,
            interval: self.interval,
        }
    }
}

impl<'a> App<'a> {
    /// The tabs are "playlist", "library" and "search", the panels are
    /// "Directory" and "Files", and the state is well formed.
    pub open spec fn wf(&self) -> bool {
        &&& self.tabs.titles@.len() == 3
        &&& self.tabs.titles@[0]@ == "playlist"@
        &&& self.tabs.titles@[1]@ == "library"@
        &&& self.tabs.titles@[2]@ == "search"@
        &&& self.tabs.panels.titles@.len() == 2
        &&& self.tabs.panels.titles@[0]@ == "Directory"@
        &&& self.tabs.panels.titles@[1]@ == "Files"@
        &&& self@.wf()
    }

    /// The four channel ends are those of `before`.
    pub open spec fn same_ends(&self, before: &App<'a>) -> bool {
        &&& self.track_x == before.track_x
        &&& self.track_p_x == before.track_p_x
        &&& self.track_i_rx == before.track_i_rx
        &&& self.track_atp_x == before.track_atp_x
    }

    /// A player with empty lists, on the playlist tab, that plays nothing,
    /// over these four channel ends.
    pub fn new(
        title: &'a str,
        track_x: Sender<Track>,
        track_p_x: Sender<bool>,
        track_i_rx: Receiver<bool>,
        track_atp_x: Sender<Track>,
    ) -> (app: App<'a>)
        ensures
            app.wf(),
            app.track_x == track_x,
            app.track_p_x == track_p_x,
            app.track_i_rx == track_i_rx,
            app.track_atp_x == track_atp_x,
            app@ == (Model {
                title: title@,
                directory: Selection::fresh(Seq::empty()),
                files: Selection::fresh(Seq::empty()),
                playlist: Selection::fresh(Seq::empty()),
                tab: 0,
                panel: 0,
                playing: None,
                quit: false,
                is_playing: false,
                added: false,
                should_select: false,
                interval: DEFAULT_INTERVAL,
            }),
    {
        let panels = ControlState::new(vec!["Directory", "Files"]);
        let tabs = TabState::new(vec!["playlist", "library", "search"], panels);
        App {
            title,
            playlist: ListState::new(Vec::new()),
            directory: ListState::new(Vec::new()),
            directory_files: ListState::new(Vec::new()),
            playing_track_index: None,
            tabs,
            is_quit: false,
            is_playing: false,
            is_playlist_added: false,
            should_select: false,
            interval: DEFAULT_INTERVAL,
            track_x,
            track_p_x,
            track_i_rx,
            track_atp_x,
        }
    }

    /// Sets the waiting time of the channel operations, in milliseconds.
    pub fn set_interval(&mut self, millis: u32)
        requires
            old(self).wf(),
        ensures
            final(self).wf(),
            final(self).same_ends(old(self)),
            final(self)@ == (Model { interval: millis, ..old(self)@ }),
    {
        self.interval = millis;
    }

    /// Says whether the tables mark the selected row.
    pub fn set_should_select(&mut self, state: bool)
        requires
            old(self).wf(),
        ensures
            final(self).wf(),
            final(self).same_ends(old(self)),
            final(self)@ == (Model { should_select: state, ..old(self)@ }),
    {
        self.should_select = state;
    }

    /// The tab on show.
    pub fn current_tab(&self) -> (tab: Tab)
        ensures
            tab == tab_at(self@.tab),
    {
        let at = self.tabs.index % 3;
        if at == 0 {
            Tab::Playlist
        } else if at == 1 {
            Tab::Library
        } else {
            Tab::Search
        }
    }

    /// The panel on show.
    pub fn current_panel(&self) -> (panel: Panel)
        ensures
            panel == panel_at(self@.panel),
    {
        if self.tabs.panels.index == 0 {
            Panel::Directory
        } else {
            Panel::Files
        }
    }

    /// The number of items in the list that is on show.
    pub fn get_current_item_lists(&self) -> (size: usize)
        ensures
            size == self@.visible_len(),
    {
        match self.current_tab() {
            Tab::Playlist => self.playlist.items.len(),
            Tab::Library => match self.current_panel() {
                Panel::Directory => self.directory.items.len(),
                Panel::Files => self.directory_files.items.len(),
            },
            Tab::Search => 0,
        }
    }

    /// The selected index of the list that the tab with this raw index
    /// shows: the playlist for index zero, the files for index one.
    pub fn get_playing_track_index(&self) -> (index: Option<usize>)
        ensures
            index == if self.tabs.index == 0 {
                Some(self.playlist.selected)
            } else if self.tabs.index == 1 {
                Some(self.directory_files.selected)
            } else {
                None
            },
    {
        if self.tabs.index == 0 {
            Some(self.playlist.selected)
        } else if self.tabs.index == 1 {
            Some(self.directory_files.selected)
        } else {
            None
        }
    }

    /// Jumps to the tab with this one-based number.
    pub fn handle_tab(&mut self, i: usize)
        requires
            old(self).wf(),
        ensures
            final(self).wf(),
            final(self).same_ends(old(self)),
            final(self)@ == (Model { tab: index_of_tab(i) as nat, ..old(self)@ }),
    {
        self.tabs.set_tab_index(i);
    }

    /// Moves the list of the panel on show one step towards the end. An
    /// empty list stays as it is.
    pub fn handle_panel_select_prev(&mut self)
        requires
            old(self).wf(),
        ensures
            final(self).wf(),
            final(self).same_ends(old(self)),
            final(self)@ == old(self)@.panel_prev(),
    {
        if self.tabs.panels.index == 0 {
            if self.directory.items.len() > 0 {
                self.directory.select_prev();
            }
        } else if self.tabs.panels.index == 1 {
            if self.directory_files.items.len() > 0 {
                self.directory_files.select_prev();
            }
        }
    }

    /// Moves the list of the panel on show one step towards zero. An empty
    /// list stays as it is.
    pub fn handle_panel_select_next(&mut self)
        requires
            old(self).wf(),
        ensures
            final(self).wf(),
            final(self).same_ends(old(self)),
            final(self)@ == old(self)@.panel_next(),
    {
        if self.tabs.panels.index == 0 {
            if self.directory.items.len() > 0 {
                self.directory.select_next();
            }
        } else if self.tabs.panels.index == 1 {
            if self.directory_files.items.len() > 0 {
                self.directory_files.select_next();
            }
        }
    }

    /// Handles "up": the list on show moves one step towards zero. An
    /// empty list, or a tab without a list, stays as it is.
    pub fn on_key_up(&mut self)
        requires
            old(self).wf(),
        ensures
            final(self).wf(),
            final(self).same_ends(old(self)),
            final(self)@ == old(self)@.key_up(),
    {
        match self.current_tab() {
            Tab::Playlist => {
                if self.playlist.items.len() > 0 {
                    self.playlist.select_next();
                }
            },
            Tab::Library => {
                self.handle_panel_select_next();
            },
            Tab::Search => {},
        }
    }

    /// Handles "down": the list on show moves one step towards the end. An
    /// empty list, or a tab without a list, stays as it is.
    pub fn on_key_down(&mut self)
        requires
            old(self).wf(),
        ensures
            final(self).wf(),
            final(self).same_ends(old(self)),
            final(self)@ == old(self)@.key_down(),
    {
        match self.current_tab() {
            Tab::Playlist => {
                if self.playlist.items.len() > 0 {
                    self.playlist.select_prev();
                }
            },
            Tab::Library => {
                self.handle_panel_select_prev();
            },
            Tab::Search => {},
        }
    }

    /// Offers a message to the render side on the channel of its kind, for
    /// at most the waiting time.
    pub fn deliver(&self, message: Message) -> (attempt: Attempt)
        ensures
            attempt.message == message,
    {
        let delivered = match &message {
            Message::Dispatch(track) => offer(&self.track_x, track.clone(), self.interval),
            Message::Transport(flag) => offer(&self.track_p_x, *flag, self.interval),
            Message::Autoplay(track) => offer(&self.track_atp_x, track.clone(), self.interval),
        };
        Attempt { message, delivered }
    }

    /// Marks the selected track of the playlist as the playing one and hands
    /// it back for dispatch.
    pub fn select_playing(&mut self) -> (track: Track)
        requires
            old(self).wf(),
            old(self).playlist.items@.len() > 0,
        ensures
            final(self).wf(),
            final(self).same_ends(old(self)),
            final(self)@ == old(self)@.dispatched(),
            track == old(self)@.playlist.current(),
    {
        self.is_playing = true;
        let track = self.playlist.get_selected_item().clone();
        self.playing_track_index = Some(self.playlist.selected);
        track
    }

    /// Dispatches the selected track of the playlist to the render side.
    pub fn on_select_playing(&mut self) -> (attempt: Attempt)
        requires
            old(self).wf(),
            old(self).playlist.items@.len() > 0,
        ensures
            final(self).wf(),
            final(self).same_ends(old(self)),
            final(self)@ == old(self)@.dispatched(),
            attempt.message == Message::Dispatch(old(self)@.playlist.current()),
    {
        let track = self.select_playing();
        self.deliver(Message::Dispatch(track))
    }

    /// Moves the playing position to the next one of the playlist. The
    /// playing track must not be the last.
    pub fn set_next_queue_playing_index(&mut self)
        requires
            old(self).wf(),
            old(self).playing_track_index matches Some(at) ==> at + 1 < old(
                self,
            ).playlist.items.len(),
        ensures
            final(self).wf(),
            final(self).same_ends(old(self)),
            final(self)@ == (Model {
                playing: match old(self)@.playing {
                    Some(at) => Some(at + 1),
                    None => None,
                },
                ..old(self)@
            }),
    {
        match self.playing_track_index {
            Some(at) => {
                self.playing_track_index = Some(at + 1);
            },
            None => {},
        }
    }

    /// Appends the selected file to the playlist.
    pub fn on_select_directory_files_playing(&mut self)
        requires
            old(self).wf(),
            old(self).directory_files.items@.len() > 0,
        ensures
            final(self).wf(),
            final(self).same_ends(old(self)),
            final(self)@ == old(self)@.appended(),
    {
        self.is_playlist_added = true;
        let track = self.directory_files.get_selected_item().clone();
        self.playlist.items.push(track);
    }

    /// Replaces the directory list.
    pub fn set_init_directory(&mut self, p: ListState<String>)
        requires
            old(self).wf(),
            p.wf(),
        ensures
            final(self).wf(),
            final(self).same_ends(old(self)),
            final(self)@ == (Model { directory: p@, ..old(self)@ }),
    {
        self.directory = p
    }

    /// Replaces the list of files.
    pub fn set_init_directory_files(&mut self, f: ListState<Track>)
        requires
            old(self).wf(),
            f.wf(),
        ensures
            final(self).wf(),
            final(self).same_ends(old(self)),
            final(self)@ == (Model { files: f@, ..old(self)@ }),
    {
        self.directory_files = f
    }

    /// Replaces the directory list by the visible paths among these.
    pub fn set_directory(&mut self, lists: Vec<String>)
        requires
            old(self).wf(),
        ensures
            final(self).wf(),
            final(self).same_ends(old(self)),
            final(self)@ == (Model { directory: Selection::fresh(shown(lists@)), ..old(self)@ }),
    {
        self.directory = ListState::new(keep_visible(lists));
    }

    /// Replaces the list of files by these tracks.
    pub fn set_directory_files(&mut self, lists: Vec<Track>)
        requires
            old(self).wf(),
        ensures
            final(self).wf(),
            final(self).same_ends(old(self)),
            final(self)@ == (Model { files: Selection::fresh(lists@), ..old(self)@ }),
    {
        self.directory_files = ListState::new(lists);
    }

    /// Takes in the outcome of reading a directory, `None` where it could
    /// not be read.
    pub fn handle_get_directory(&mut self, listing: Option<Vec<String>>)
        requires
            old(self).wf(),
        ensures
            final(self).wf(),
            final(self).same_ends(old(self)),
            final(self)@ == old(self)@.listed(
                match listing {
                    Some(read) => Some(read@),
                    None => None,
                },
            ),
    {
        let ghost given = listing;
        if let Some(res) = get_list_of_paths(listing) {
            proof {
                lemma_shown_idempotent(given->0@);
            }
            self.set_directory(res);
        }
    }

    /// Takes in the outcome of walking a tree: if it holds any track, its
    /// tracks replace the list of files.
    pub fn handle_get_directory_files(&mut self, entries: Vec<ScanEntry>)
        requires
            old(self).wf(),
        ensures
            final(self).wf(),
            final(self).same_ends(old(self)),
            final(self)@ == (Model { files: final(self)@.files, ..old(self)@ }),
            scanned(entries@).len() == 0 ==> final(self)@.files == old(self)@.files,
            scanned(entries@).len() > 0 ==> final(self)@.files.selected == 0 && views(
                final(self)@.files.items,
            ) == scanned(entries@),
    {
        let files = get_tracks_from_path(entries);
        assert(views(files@).len() == files@.len());
        if files.len() > 0 {
            self.set_directory_files(files);
        }
    }

    /// Enters the directory whose reading gave `listing`, and asks for the
    /// tree under the entry that is then selected to be walked.
    pub fn on_select_directory(&mut self, listing: Option<Vec<String>>) -> (request: Request)
        requires
            old(self).wf(),
        ensures
            final(self).wf(),
            final(self).same_ends(old(self)),
            final(self)@ == old(self)@.listed(
                match listing {
                    Some(read) => Some(read@),
                    None => None,
                },
            ),
            request@ == final(self)@.scan_target(),
    {
        self.handle_get_directory(listing);
        if self.directory.items.len() > 0 {
            Request::Scan(self.directory.get_selected_item().clone())
        } else {
            Request::Idle
        }
    }

    /// Takes in the walk that `on_select_directory` asked for.
    pub fn on_select_directory_files(&mut self, entries: Vec<ScanEntry>)
        requires
            old(self).wf(),
        ensures
            final(self).wf(),
            final(self).same_ends(old(self)),
            final(self)@ == (Model { files: final(self)@.files, ..old(self)@ }),
            scanned(entries@).len() == 0 ==> final(self)@.files == old(self)@.files,
            scanned(entries@).len() > 0 ==> final(self)@.files.selected == 0 && views(
                final(self)@.files.items,
            ) == scanned(entries@),
    {
        self.handle_get_directory_files(entries);
    }

    /// Takes in the reading of the directory that "go up" asked for.
    pub fn redirect_parent_path(&mut self, listing: Option<Vec<String>>)
        requires
            old(self).wf(),
        ensures
            final(self).wf(),
            final(self).same_ends(old(self)),
            final(self)@ == old(self)@.listed(
                match listing {
                    Some(read) => Some(read@),
                    None => None,
                },
            ),
    {
        self.handle_get_directory(listing);
    }

    /// The request that "go up" makes: the directory two levels above the
    /// selected entry, if the directory panel is active and there is one.
    pub fn parent_request(&self) -> (request: Request)
        requires
            self.wf(),
        ensures
            request@ == match self@.ascent() {
                Some(path) => Ask::Ascend(path),
                None => Ask::Idle,
            },
    {
        if self.tabs.panels.index == 0 && self.directory.items.len() > 0 {
            match ascend(self.directory.get_selected_item()) {
                Some(path) => Request::Ascend(path),
                None => Request::Idle,
            }
        } else {
            Request::Idle
        }
    }

    /// What "enter" decides, which depends on the tab and panel on show:
    /// dispatch the selected track of the playlist, enter the selected
    /// directory, or append the selected file to the playlist.
    pub fn enter(&mut self) -> (step: Step)
        requires
            old(self).wf(),
            old(self)@.visible_len() > 0,
        ensures
            final(self).wf(),
            final(self).same_ends(old(self)),
            final(self)@ == old(self)@.entered(),
            step.message == old(self)@.message_for('\n'),
            step.request@ == old(self)@.ask_for('\n'),
    {
        match self.current_tab() {
            Tab::Playlist => {
                let track = self.select_playing();
                Step { message: Some(Message::Dispatch(track)), request: Request::Idle }
            },
            Tab::Library => match self.current_panel() {
                Panel::Directory => {
                    let path = self.directory.get_selected_item().clone();
                    Step { message: None, request: Request::List(path) }
                },
                Panel::Files => {
                    self.set_should_select(true);
                    self.on_select_directory_files_playing();
                    Step { message: None, request: Request::Idle }
                },
            },
            Tab::Search => Step { message: None, request: Request::Idle },
        }
    }

    /// What a character key decides: the next state, the message for the
    /// render side and the request to the caller. Nothing is sent.
    pub fn press(&mut self, c: char) -> (step: Step)
        requires
            old(self).wf(),
        ensures
            final(self).wf(),
            final(self).same_ends(old(self)),
            final(self)@ == old(self)@.pressed(c),
            step.message == old(self)@.message_for(c),
            step.request@ == old(self)@.ask_for(c),
    {
        if '0' <= c && c <= '9' {
            self.handle_tab((c as u32 - '0' as u32) as usize);
            Step { message: None, request: Request::Idle }
        } else if c == 'q' {
            self.is_quit = true;
            Step { message: None, request: Request::Idle }
        } else if self.get_current_item_lists() > 0 {
            if c == '\n' {
                self.enter()
            } else if c == 'b' {
                Step { message: None, request: self.parent_request() }
            } else if c == ' ' {
                self.is_playing = !self.is_playing;
                Step { message: Some(Message::Transport(true)), request: Request::Idle }
            } else if c == 's' {
                self.is_playing = !self.is_playing;
                Step { message: Some(Message::Transport(false)), request: Request::Idle }
            } else if c == 'j' {
                self.is_playlist_added = false;
                self.on_key_down();
                Step { message: None, request: Request::Idle }
            } else if c == 'k' {
                self.is_playlist_added = false;
                self.on_key_up();
                Step { message: None, request: Request::Idle }
            } else if c == 'h' {
                self.tabs.panels.prev_panel();
                Step { message: None, request: Request::Idle }
            } else if c == 'l' {
                self.tabs.panels.next_panel();
                Step { message: None, request: Request::Idle }
            } else {
                Step { message: None, request: Request::Idle }
            }
        } else {
            Step { message: None, request: Request::Idle }
        }
    }

    /// Carries out a decision: offers its message, if any, to the render
    /// side and passes its request on.
    pub fn carry_out(&self, step: Step) -> (outcome: Outcome)
        ensures
            offered(outcome.attempt) == step.message,
            outcome.request == step.request,
    {
        let attempt = match step.message {
            Some(message) => Some(self.deliver(message)),
            None => None,
        };
        Outcome { attempt, request: step.request }
    }

    /// Handles a character key: decides as [`App::press`] does, and offers
    /// the message, if any, to the render side.
    pub fn on_key(&mut self, c: char) -> (outcome: Outcome)
        requires
            old(self).wf(),
        ensures
            final(self).wf(),
            final(self).same_ends(old(self)),
            final(self)@ == old(self)@.pressed(c),
            offered(outcome.attempt) == old(self)@.message_for(c),
            outcome.request@ == old(self)@.ask_for(c),
    {
        let step = self.press(c);
        self.carry_out(step)
    }

    /// Handles a key event. A character goes to [`App::on_key`]; escape
    /// quits; the arrows move the list on show and, on the library tab,
    /// switch the panel.
    pub fn on_input(&mut self, key: Key) -> (outcome: Outcome)
        requires
            old(self).wf(),
        ensures
            final(self).wf(),
            final(self).same_ends(old(self)),
            final(self)@ == old(self)@.keyed(key),
            key matches Key::Char(c) ==> offered(outcome.attempt) == old(self)@.message_for(c)
                && outcome.request@ == old(self)@.ask_for(c),
            !(key is Char) ==> outcome.attempt is None && outcome.request@ == Ask::Idle,
    {
        match key {
            Key::Char(c) => {
                return self.on_key(c);
            },
            Key::Esc => {
                self.is_quit = true;
            },
            Key::Up => {
                self.on_key_up();
            },
            Key::Down => {
                self.on_key_down();
            },
            Key::Left => {
                if self.current_tab() == Tab::Library {
                    self.tabs.panels.prev_panel();
                }
            },
            Key::Right => {
                if self.current_tab() == Tab::Library {
                    self.tabs.panels.next_panel();
                }
            },
            Key::Other => {},
        }
        Outcome { attempt: None, request: Request::Idle }
    }

    /// What a telemetry report decides: where the render side has finished,
    /// the player is playing, the playlist has more than one track and the
    /// playing track has a successor, the playing position moves on and the
    /// successor is handed back for autoplay. Nothing is sent.
    pub fn advance(&mut self, report: Option<bool>) -> (message: Option<Message>)
        requires
            old(self).wf(),
        ensures
            final(self).wf(),
            final(self).same_ends(old(self)),
            final(self)@ == old(self)@.reported(report),
            message == old(self)@.autoplay_for(report),
    {
        match report {
            Some(true) => {},
            _ => {
                return None;
            },
        }
        if self.playlist.items.len() > 1 && self.is_playing {
            match self.playing_track_index {
                Some(at) => {
                    if at < self.playlist.items.len() - 1 {
                        let track = self.playlist.items[at + 1].clone();
                        self.set_next_queue_playing_index();
                        return Some(Message::Autoplay(track));
                    }
                },
                None => {},
            }
        }
        None
    }

    /// Handles a telemetry report: decides as [`App::advance`] does, and
    /// offers the successor, if any, to the render side. The playing
    /// position moves on whether or not the offer is taken.
    pub fn on_telemetry(&mut self, report: Option<bool>) -> (attempt: Option<Attempt>)
        requires
            old(self).wf(),
        ensures
            final(self).wf(),
            final(self).same_ends(old(self)),
            final(self)@ == old(self)@.reported(report),
            offered(attempt) == old(self)@.autoplay_for(report),
    {
        match self.advance(report) {
            Some(message) => Some(self.deliver(message)),
            None => None,
        }
    }

    /// Waits for a telemetry report for at most the waiting time.
    pub fn poll_telemetry(&self) -> (report: Option<bool>) {
        await_message(&self.track_i_rx, self.interval)
    }

    /// One telemetry poll of the control loop: waits for a report and
    /// handles what came, if anything. Either nothing changes and nothing is
    /// offered, or autoplay fires as it does on a report of "finished".
    pub fn tick(&mut self) -> (attempt: Option<Attempt>)
        requires
            old(self).wf(),
        ensures
            final(self).wf(),
            final(self).same_ends(old(self)),
            attempt is None ==> final(self)@ == old(self)@,
            attempt is Some ==> final(self)@ == old(self)@.reported(Some(true)) && offered(attempt)
                == old(self)@.autoplay_for(Some(true)),
    {
        let report = self.poll_telemetry();
        self.on_telemetry(report)
    }
}

/// A report of "finished", while the player is playing a track of a playlist
/// that has a successor for it, makes exactly one offer, of that successor,
/// and moves the playing position on by exactly one; nothing else changes.
pub proof fn lemma_finished_advances_once(state: Model, at: nat)
    requires
        state.is_playing,
        state.playlist.items.len() > 1,
        state.playing == Some(at),
        at + 1 < state.playlist.items.len(),
    ensures
        state.autoplay_for(Some(true)) == Some(
            Message::Autoplay(state.playlist.items[at as int + 1]),
        ),
        state.reported(Some(true)) == (Model { playing: Some(at + 1), ..state }),
{
}

/// A report that is missing, or that says "not finished", changes nothing
/// and offers nothing.
pub proof fn lemma_unfinished_changes_nothing(state: Model, report: Option<bool>)
    requires
        report != Some(true),
    ensures
        state.autoplay_for(report) is None,
        state.reported(report) == state,
{
}

/// With an empty list on show, a key other than a digit or `q` changes
/// nothing, sends nothing and asks nothing.
pub proof fn lemma_empty_list_disables_keys(state: Model, c: char)
    requires
        state.visible_len() == 0,
        !is_digit(c),
        c != 'q',
    ensures
        state.pressed(c) == state,
        state.message_for(c) is None,
        state.ask_for(c) == Ask::Idle,
{
}

/// A well-formed state stays well formed under every key event and every
/// telemetry report.
pub proof fn lemma_wf_preserved(state: Model, key: Key, report: Option<bool>)
    requires
        state.wf(),
    ensures
        state.keyed(key).wf(),
        state.reported(report).wf(),
{
}

} // verus!
