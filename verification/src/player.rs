//! The render side: what the messages of the control side do to the audio
//! sink. The sink itself belongs to the caller, who carries out the
//! operations decided here and reports whether the sink has run empty.

use crate::channel::{offer, take_message, DEFAULT_INTERVAL};
use crate::paths::text_of;
use crate::track::Track;
use crossbeam_channel::{Receiver, Sender};
use vstd::prelude::*;

verus! {

/// One operation on the audio sink.
#[derive(Debug)]
pub enum SinkOp {
    /// Replace the sink by a fresh one and load the file at this path.
    Load(String),
    /// Go on playing.
    Resume,
    /// Hold playing.
    Suspend,
    /// Replace the sink by a fresh, empty one.
    Clear,
}

/// The mathematical content of a [`SinkOp`].
pub enum Act {
    Load(Seq<char>),
    Resume,
    Suspend,
    Clear,
}

impl View for SinkOp {
    type V = Act;

    open spec fn view(&self) -> Act {
        match self {
            SinkOp::Load(path) => Act::Load(path@),
            SinkOp::Resume => Act::Resume,
            SinkOp::Suspend => Act::Suspend,
            SinkOp::Clear => Act::Clear,
        }
    }
}

/// The content of each operation of a sequence.
pub open spec fn acts(ops: Seq<SinkOp>) -> Seq<Act> {
    ops.map_values(|op: SinkOp| op@)
}

/// What the render side knows of its sink: the path that was loaded last, if
/// the sink was not cleared since, and whether playing is held.
#[verifier::ext_equal]
pub struct Deck {
    pub loaded: Option<Seq<char>>,
    pub paused: bool,
}

impl Deck {
    /// The deck after a track was loaded: it takes the place of whatever was
    /// loaded, and plays.
    pub open spec fn played(self, path: Seq<char>) -> Deck {
        Deck { loaded: Some(path), paused: false }
    }

    /// The deck after pause was toggled.
    pub open spec fn toggled(self) -> Deck {
        Deck { loaded: self.loaded, paused: !self.paused }
    }

    /// The deck after a stop.
    pub open spec fn stopped(self) -> Deck {
        Deck { loaded: None, paused: false }
    }

    /// The deck after a transport message: `true` toggles pause, `false`
    /// stops.
    pub open spec fn transported(self, flag: bool) -> Deck {
        if flag {
            self.toggled()
        } else {
            self.stopped()
        }
    }

    /// The operation that a transport message asks of the sink.
    pub open spec fn transport_act(self, flag: bool) -> Act {
        if !flag {
            Act::Clear
        } else if self.paused {
            Act::Resume
        } else {
            Act::Suspend
        }
    }

    /// The deck after a track that may have arrived.
    pub open spec fn maybe_played(self, track: Option<Track>) -> Deck {
        match track {
            Some(track) => self.played(track.file_path@),
            None => self,
        }
    }

    /// The deck after what one tick received: a dispatched track, then an
    /// autoplay track, then a transport message, each if it arrived.
    pub open spec fn applied(
        self,
        dispatch: Option<Track>,
        autoplay: Option<Track>,
        transport: Option<bool>,
    ) -> Deck {
        let loaded = self.maybe_played(dispatch).maybe_played(autoplay);
        match transport {
            Some(flag) => loaded.transported(flag),
            None => loaded,
        }
    }

    /// The operations that one tick asks of the sink, in order.
    pub open spec fn acts_for(
        self,
        dispatch: Option<Track>,
        autoplay: Option<Track>,
        transport: Option<bool>,
    ) -> Seq<Act> {
        let first = match dispatch {
            Some(track) => seq![Act::Load(track.file_path@)],
            None => Seq::empty(),
        };
        let second = match autoplay {
            Some(track) => seq![Act::Load(track.file_path@)],
            None => Seq::empty(),
        };
        let third = match transport {
            Some(flag) => seq![
                self.maybe_played(dispatch).maybe_played(autoplay).transport_act(flag),
            ],
            None => Seq::empty(),
        };
        first + second + third
    }
}

/// A track that is loaded takes the place of the one loaded before it:
/// after two loads in a row, only the second is loaded, and it plays.
pub proof fn lemma_dispatch_supersedes(deck: Deck, first: Seq<char>, second: Seq<char>)
    ensures
        deck.played(first).played(second).loaded == Some(second),
        deck.played(first).played(second) == deck.played(second),
        !deck.played(first).played(second).paused,
{
}

/// A stop clears the deck whatever was loaded, so that the next load starts
/// clean.
pub proof fn lemma_stop_clears(deck: Deck, path: Seq<char>)
    ensures
        deck.stopped().loaded is None,
        deck.stopped().played(path) == deck.played(path),
{
}

/// Toggling pause twice gives the deck back.
pub proof fn lemma_toggle_twice(deck: Deck)
    ensures
        deck.toggled().toggled() == deck,
{
}

/// The render side of the player.
pub struct Player {
    /// The path that was loaded last, if the sink was not cleared since.
    pub loaded: Option<String>,
    pub paused: bool,
    /// The waiting time of the telemetry offer, in milliseconds.
    pub interval: u32,
    pub track_rx: Receiver<Track>,
    pub track_p_rx: Receiver<bool>,
    pub track_i_x: Sender<bool>,
    pub track_atp_rx: Receiver<Track>,
}

impl View for Player {
    type V = Deck;

    open spec fn view(&self) -> Deck {
        Deck { loaded: text_of(self.loaded), paused: self.paused }
    }
}

impl Player {
    /// The four channel ends are those of `before`.
    pub open spec fn same_ends(&self, before: &Player) -> bool {
        &&& self.track_rx == before.track_rx
        &&& self.track_p_rx == before.track_p_rx
        &&& self.track_i_x == before.track_i_x
        &&& self.track_atp_rx == before.track_atp_rx
    }

    /// A render side with nothing loaded, over these four channel ends.
    pub fn new(
        track_rx: Receiver<Track>,
        track_p_rx: Receiver<bool>,
        track_i_x: Sender<bool>,
        track_atp_rx: Receiver<Track>,
    ) -> (player: Player)
        ensures
            player@ == (Deck { loaded: None, paused: false }),
            player.interval == DEFAULT_INTERVAL,
            player.track_rx == track_rx,
            player.track_p_rx == track_p_rx,
            player.track_i_x == track_i_x,
            player.track_atp_rx == track_atp_rx,
    {
        Player {
            loaded: None,
            paused: false,
            interval: DEFAULT_INTERVAL,
            track_rx,
            track_p_rx,
            track_i_x,
            track_atp_rx,
        }
    }

    /// Sets the waiting time of the telemetry offer, in milliseconds.
    pub fn set_interval(&mut self, millis: u32)
        ensures
            final(self)@ == old(self)@,
            final(self).interval == millis,
            final(self).same_ends(old(self)),
    {
        self.interval = millis;
    }

    /// Loads a track in place of whatever is loaded.
    pub fn play(&mut self, track: Track) -> (op: SinkOp)
        ensures
            final(self)@ == old(self)@.played(track.file_path@),
            final(self).interval == old(self).interval,
            final(self).same_ends(old(self)),
            op@ == Act::Load(track.file_path@),
    {
        let path = track.file_path;
        self.loaded = Some(path.clone());
        self.paused = false;
        SinkOp::Load(path)
    }

    /// Toggles pause: resumes if playing is held, holds it otherwise.
    pub fn pause(&mut self) -> (op: SinkOp)
        ensures
            final(self)@ == old(self)@.toggled(),
            final(self).interval == old(self).interval,
            final(self).same_ends(old(self)),
            op@ == old(self)@.transport_act(true),
    {
        if self.paused {
            self.paused = false;
            SinkOp::Resume
        } else {
            self.paused = true;
            SinkOp::Suspend
        }
    }

    /// Stops: the sink is cleared, so that the next load starts clean.
    pub fn stop(&mut self) -> (op: SinkOp)
        ensures
            final(self)@ == old(self)@.stopped(),
            final(self).interval == old(self).interval,
            final(self).same_ends(old(self)),
            op@ == Act::Clear,
    {
        self.loaded = None;
        self.paused = false;
        SinkOp::Clear
    }

    /// Takes note that the file of the last load could not be opened or
    /// decoded: nothing is loaded, and the track is passed over.
    pub fn load_failed(&mut self)
        ensures
            final(self)@ == (Deck { loaded: None, paused: old(self)@.paused }),
            final(self).interval == old(self).interval,
            final(self).same_ends(old(self)),
    {
        self.loaded = None;
    }

    /// What one tick decides, given what it received: a dispatched track is
    /// loaded, then an autoplay track, then a transport message is obeyed.
    pub fn apply(
        &mut self,
        dispatch: Option<Track>,
        autoplay: Option<Track>,
        transport: Option<bool>,
    ) -> (ops: Vec<SinkOp>)
        ensures
            final(self)@ == old(self)@.applied(dispatch, autoplay, transport),
            final(self).interval == old(self).interval,
            final(self).same_ends(old(self)),
            acts(ops@) == old(self)@.acts_for(dispatch, autoplay, transport),
    {
        let mut ops: Vec<SinkOp> = Vec::new();
        if let Some(track) = dispatch {
            let op = self.play(track);
            ops.push(op);
        }
        if let Some(track) = autoplay {
            let op = self.play(track);
            ops.push(op);
        }
        if let Some(flag) = transport {
            let op = if flag {
                self.pause()
            } else {
                self.stop()
            };
            ops.push(op);
        }
        assert(acts(ops@) =~= old(self)@.acts_for(dispatch, autoplay, transport));
        ops
    }

    /// One tick of receiving: takes what is waiting on the three channels,
    /// without waiting itself, and decides as [`Player::apply`] does.
    pub fn receive(&mut self) -> (ops: Vec<SinkOp>)
        ensures
            final(self).interval == old(self).interval,
            final(self).same_ends(old(self)),
            exists|dispatch: Option<Track>, autoplay: Option<Track>, transport: Option<bool>|
                final(self)@ == #[trigger] old(self)@.applied(dispatch, autoplay, transport)
                    && acts(ops@) == old(self)@.acts_for(dispatch, autoplay, transport),
    {
        let dispatch = take_message(&self.track_rx);
        let autoplay = take_message(&self.track_atp_rx);
        let transport = take_message(&self.track_p_rx);
        self.apply(dispatch, autoplay, transport)
    }

    /// Offers the control side a telemetry report, `true` for a sink that
    /// has run empty, for at most the waiting time.
    pub fn report(&self, finished: bool) -> (delivered: bool) {
        offer(&self.track_i_x, finished, self.interval)
    }
}

} // verus!
