//! The playback context: what audio comes out right now.
//!
//! The context holds the playlist, what is known of the active decoder, and the
//! play state. It never touches a file or a sample. Where a file has to be
//! opened it names the path and waits for the answer: `activate_module` when
//! the file opened, `open_failed` when it did not. Until one of the two
//! arrives, a scan is in progress.

use vstd::prelude::*;
use crate::event::{option_event, PlayerEvent, PlayerEventView};
use crate::metadata::{duplicate_tags, tags_of, Metadata, MetadataView};
use crate::playlist::{
    listing_files,
    option_path,
    DirEntry,
    Playlist,
    PlaylistReadMode,
    PlaylistView,
};
use crate::time::Seconds;

verus! {

/// Frames of audio between two position events: half a second at 48 kHz.
pub const POSITION_INTERVAL: usize = 24_000;

/// Whether audio is being produced.
#[derive(Clone, Copy, Debug, PartialEq, Eq, Structural)]
pub enum AudioContextState {
    Stopped,
    Playing,
}

/// The way a scan for a playable entry moves through the playlist.
#[derive(Clone, Copy, Debug, PartialEq, Eq, Structural)]
pub enum ScanDirection {
    Forward,
    Backward,
}

/// What a decoder reports of a module right after opening it.
#[derive(Clone, Debug, PartialEq, Eq)]
pub struct TrackInfo {
    pub duration: Seconds,
    pub metadata: Vec<Metadata>,
}

/// A decoder's report as a plain value.
pub struct TrackView {
    pub duration: Seconds,
    pub metadata: Seq<MetadataView>,
}

impl View for TrackInfo {
    type V = TrackView;

    open spec fn view(&self) -> TrackView {
        TrackView { duration: self.duration, metadata: tags_of(self.metadata@) }
    }
}

/// An optional report as a plain value.
pub open spec fn option_track(track: Option<TrackInfo>) -> Option<TrackView> {
    match track {
        Some(t) => Some(t@),
        None => None,
    }
}

/// What the audio callback has to do with its buffer.
#[derive(Clone, Debug, PartialEq, Eq)]
pub enum ReadAction {
    /// Fill the buffer with silence.
    Silence,
    /// Let the active decoder fill the buffer, then report with
    /// `block_decoded`.
    Decode,
    /// Fill the buffer with silence, try to open this file, and report with
    /// `activate_module` or `open_failed`.
    Open(String),
}

/// A read action as a plain value.
pub enum ReadActionView {
    Silence,
    Decode,
    Open(Seq<char>),
}

impl View for ReadAction {
    type V = ReadActionView;

    open spec fn view(&self) -> ReadActionView {
        match *self {
            ReadAction::Silence => ReadActionView::Silence,
            ReadAction::Decode => ReadActionView::Decode,
            ReadAction::Open(path) => ReadActionView::Open(path@),
        }
    }
}

/// What a transition leaves to its caller.
#[derive(Clone, Debug, PartialEq, Eq)]
pub struct Outcome {
    /// The event to publish, if there is one.
    pub event: Option<PlayerEvent>,
    /// The file to try to open, if the context waits for one. The answer is
    /// `activate_module` or `open_failed`.
    pub open: Option<String>,
}

/// What a read leaves to the audio callback.
#[derive(Clone, Debug, PartialEq, Eq)]
pub struct ReadOutcome {
    pub action: ReadAction,
    /// The event to publish, if there is one.
    pub event: Option<PlayerEvent>,
}

/// What `std::path::Path::file_name` gives for a path, as text: its final
/// component by the path rules of the platform the library is built for, and
/// `None` where the path has none.
pub uninterp spec fn file_name_of(path: Seq<char>) -> Option<Seq<char>>;

/// The name under which a file is shown: the final component of its path, or
/// the whole path where it has none.
pub open spec fn display_name(path: Seq<char>) -> Seq<char> {
    match file_name_of(path) {
        Some(name) => name,
        None => path,
    }
}

/// The event that announces a freshly opened module.
pub open spec fn loaded_event(path: Seq<char>, track: TrackView) -> PlayerEventView {
    PlayerEventView::Loaded {
        filename: display_name(path),
        filepath: path,
        metadata: track.metadata,
        duration: track.duration,
    }
}

/// The context as a plain value.
pub struct AudioContextView {
    pub playlist: PlaylistView,
    /// The report of the active decoder; `None` while no decoder is active.
    pub track: Option<TrackView>,
    pub state: AudioContextState,
    /// Frames played since the last position event.
    pub samples: nat,
    /// A module was activated and its first block has not been played yet.
    pub position_due: bool,
    /// The scan in progress, if a file is being opened.
    pub scan: Option<ScanDirection>,
}

impl AudioContextView {
    /// The invariant of a context. A decoder is active only with a known
    /// report, which holds its duration. While a file is being opened no
    /// decoder is active and the cursor is on that file.
    pub open spec fn wf(self) -> bool {
        &&& self.playlist.wf()
        &&& self.samples < POSITION_INTERVAL
        &&& self.scan.is_some() ==> self.track.is_none() && self.playlist.candidate().is_some()
        &&& self.track.is_none() ==> !self.position_due
    }

    /// Nothing plays, no decoder is active, no file is being opened.
    pub open spec fn idle(self) -> bool {
        &&& self.state == AudioContextState::Stopped
        &&& self.track.is_none()
        &&& self.scan.is_none()
    }

    /// `Stopped`, where the context has just ended a scan for want of entries
    /// and so has stopped by itself.
    pub open spec fn halt_event(self) -> Option<PlayerEventView> {
        if self.scan.is_none() {
            Some(PlayerEventView::Stopped)
        } else {
            None
        }
    }

    /// The file that has to be opened now, if any.
    pub open spec fn request(self) -> Option<Seq<char>> {
        if self.scan.is_some() {
            self.playlist.candidate()
        } else {
            None
        }
    }

    pub open spec fn played(self) -> AudioContextView {
        AudioContextView { state: AudioContextState::Playing, ..self }
    }

    pub open spec fn paused(self) -> AudioContextView {
        AudioContextView { state: AudioContextState::Stopped, ..self }
    }

    pub open spec fn stopped(self) -> AudioContextView {
        AudioContextView {
            state: AudioContextState::Stopped,
            track: None,
            position_due: false,
            scan: None,
            ..self
        }
    }

    /// The context after its playlist moved to `playlist`: with an entry
    /// `found` there, that entry is the one to open; with none, the context
    /// stops.
    pub open spec fn probing(
        self,
        playlist: PlaylistView,
        found: bool,
        direction: ScanDirection,
    ) -> AudioContextView {
        if found {
            AudioContextView {
                playlist,
                track: None,
                position_due: false,
                scan: Some(direction),
                ..self
            }
        } else {
            AudioContextView { playlist, ..self }.stopped()
        }
    }

    /// The context after a scan moved one entry on in its direction.
    pub open spec fn advanced(self, direction: ScanDirection) -> AudioContextView {
        match direction {
            ScanDirection::Forward => self.probing(
                self.playlist.forward(),
                self.playlist.has_next(),
                direction,
            ),
            ScanDirection::Backward => self.probing(
                self.playlist.backward(),
                self.playlist.has_previous(),
                direction,
            ),
        }
    }

    /// After `load` with these files.
    pub open spec fn loaded(self, files: Seq<Seq<char>>) -> AudioContextView {
        self.stopped().probing(
            PlaylistView { files, cursor: 0 },
            files.len() > 0,
            ScanDirection::Forward,
        )
    }

    /// After `next`.
    pub open spec fn skipped_forward(self) -> AudioContextView {
        self.stopped().advanced(ScanDirection::Forward)
    }

    /// After `previous`.
    pub open spec fn skipped_backward(self) -> AudioContextView {
        self.stopped().advanced(ScanDirection::Backward)
    }

    /// After `activate_module`: the awaited file opened.
    pub open spec fn activated(self, track: TrackView) -> AudioContextView {
        if self.scan.is_some() {
            AudioContextView {
                track: Some(track),
                state: AudioContextState::Playing,
                position_due: true,
                scan: None,
                ..self
            }
        } else {
            self
        }
    }

    /// The event of `activate_module`.
    pub open spec fn activation_event(self, track: TrackView) -> Option<PlayerEventView> {
        match self.request() {
            Some(path) => Some(loaded_event(path, track)),
            None => None,
        }
    }

    /// After `open_failed`: the awaited file did not open.
    pub open spec fn failed(self) -> AudioContextView {
        match self.scan {
            Some(direction) => self.advanced(direction),
            None => self,
        }
    }

    /// The event of `open_failed`.
    pub open spec fn failure_event(self) -> Option<PlayerEventView> {
        if self.scan.is_some() {
            self.failed().halt_event()
        } else {
            None
        }
    }

    /// The callback has a block to decode.
    pub open spec fn decoding(self) -> bool {
        &&& self.state == AudioContextState::Playing
        &&& self.track.is_some()
        &&& self.scan.is_none()
    }

    /// After `read`.
    pub open spec fn reading(self) -> AudioContextView {
        if self.state == AudioContextState::Playing && self.scan.is_none()
            && self.track.is_none() {
            self.probing(
                self.playlist,
                self.playlist.candidate().is_some(),
                ScanDirection::Forward,
            )
        } else {
            self
        }
    }

    /// The event of `read`.
    pub open spec fn read_event(self) -> Option<PlayerEventView> {
        if self.state == AudioContextState::Playing && self.scan.is_none()
            && self.track.is_none() {
            self.reading().halt_event()
        } else {
            None
        }
    }

    /// The action of `read`.
    pub open spec fn read_action(self) -> ReadActionView {
        if self.decoding() {
            ReadActionView::Decode
        } else if self.state == AudioContextState::Playing && self.scan.is_none() {
            match self.playlist.candidate() {
                Some(path) => ReadActionView::Open(path),
                None => ReadActionView::Silence,
            }
        } else {
            ReadActionView::Silence
        }
    }

    /// A position event is due after a block of `samples` samples.
    pub open spec fn position_event_due(self, samples: nat) -> bool {
        self.position_due || self.samples + samples / 2 >= POSITION_INTERVAL
    }

    /// After `block_decoded`.
    pub open spec fn decoded(self, written: nat, samples: nat) -> AudioContextView {
        if !self.decoding() {
            self
        } else if written == 0 {
            self.advanced(ScanDirection::Forward)
        } else if self.position_event_due(samples) {
            AudioContextView { samples: 0, position_due: false, ..self }
        } else {
            AudioContextView { samples: self.samples + samples / 2, ..self }
        }
    }

    /// The event of `block_decoded`.
    pub open spec fn decoded_event(self, written: nat, samples: nat, position: Seconds) -> Option<
        PlayerEventView,
    > {
        if !self.decoding() {
            None
        } else if written == 0 {
            self.decoded(written, samples).halt_event()
        } else if self.position_event_due(samples) {
            Some(
                PlayerEventView::PositionUpdated {
                    position,
                    duration: self.track.unwrap().duration,
                },
            )
        } else {
            None
        }
    }

    /// The duration that a seek reports: that of the active module, or zero
    /// while none is active.
    pub open spec fn seek_duration(self) -> Seconds {
        match self.track {
            Some(track) => track.duration,
            None => Seconds { bits: 0 },
        }
    }
}

/// The final component of a path, by `std::path::Path::file_name`: the result
/// is whatever that function gives for the path, taken as text. It is `None`
/// where the path has no final component, as for one that ends in `..`.
#[verifier::external_body]
fn file_name(path: &String) -> (name: Option<String>)
    ensures
        option_path(name) == file_name_of(path@),
{
    match std::path::Path::new(path).file_name() {
        Some(name) => match name.to_str() {
            Some(text) => Some(text.to_string()),
            None => None,
        },
        None => None,
    }
}

/// The playback context.
pub struct AudioContext {
    playlist: Playlist,
    track: Option<TrackInfo>,
    state: AudioContextState,
    samples_since_last_position_update: usize,
    position_due: bool,
    scan: Option<ScanDirection>,
}

impl View for AudioContext {
    type V = AudioContextView;

    closed spec fn view(&self) -> AudioContextView {
        AudioContextView {
            playlist: self.playlist@,
            track: option_track(self.track),
            state: self.state,
            samples: self.samples_since_last_position_update as nat,
            position_due: self.position_due,
            scan: self.scan,
        }
    }
}

impl AudioContext {
    /// The invariant of a context: see [`AudioContextView::wf`].
    pub open spec fn wf(&self) -> bool {
        self@.wf()
    }

    /// A stopped context with an empty playlist.
    pub fn new() -> (context: AudioContext)
        ensures
            context.wf(),
            context@.idle(),
            context@.playlist.files.len() == 0,
            context@.samples == 0,
            !context@.position_due,
    {
        AudioContext {
            playlist: Playlist::default(),
            track: None,
            state: AudioContextState::Stopped,
            samples_since_last_position_update: 0,
            position_due: false,
            scan: None,
        }
    }

    pub fn state(&self) -> (state: AudioContextState)
        ensures
            state == self@.state,
    {
        self.state
    }

    /// Whether a decoder is active.
    pub fn is_active(&self) -> (active: bool)
        ensures
            active == self@.track.is_some(),
    {
        self.track.is_some()
    }

    /// Whether a file is being opened.
    pub fn is_scanning(&self) -> (scanning: bool)
        ensures
            scanning == self@.scan.is_some(),
    {
        self.scan.is_some()
    }

    /// The duration of the active module.
    pub fn duration(&self) -> (duration: Option<Seconds>)
        ensures
            duration == match self@.track {
                Some(track) => Some(track.duration),
                None => None,
            },
    {
        match &self.track {
            Some(track) => Some(track.duration),
            None => None,
        }
    }

    /// The tags of the active module, as read when it was opened.
    pub fn metadata(&self) -> (tags: Option<Vec<Metadata>>)
        ensures
            match tags {
                Some(t) => self@.track.is_some() && tags_of(t@) == self@.track.unwrap().metadata,
                None => self@.track.is_none(),
            },
    {
        match &self.track {
            Some(track) => Some(duplicate_tags(&track.metadata)),
            None => None,
        }
    }

    pub fn playlist(&self) -> (playlist: &Playlist)
        ensures
            playlist@ == self@.playlist,
    {
        &self.playlist
    }

    /// Frames played since the last position event.
    pub fn samples_since_last_position_update(&self) -> (samples: usize)
        ensures
            samples == self@.samples,
    {
        self.samples_since_last_position_update
    }

    /// Starts playing. With no active decoder the next `read` opens the
    /// current entry.
    pub fn play(&mut self)
        ensures
            final(self)@ == old(self)@.played(),
    {
        self.state = AudioContextState::Playing;
    }

    /// Stops producing audio and keeps the decoder where it is.
    pub fn pause(&mut self)
        ensures
            final(self)@ == old(self)@.paused(),
    {
        if self.state == AudioContextState::Playing {
            self.state = AudioContextState::Stopped;
        }
    }

    /// Stops and lets go of the active decoder, its duration and its tags. A
    /// scan in progress is given up.
    pub fn stop(&mut self)
        ensures
            final(self)@ == old(self)@.stopped(),
    {
        self.state = AudioContextState::Stopped;
        self.track = None;
        self.position_due = false;
        self.scan = None;
    }

    /// Takes the answer of one playlist step: with a candidate the scan goes
    /// on with it, with none the context stops.
    fn probe(&mut self, candidate: Option<String>, direction: ScanDirection) -> (outcome: Outcome)
        requires
            old(self)@.playlist.wf(),
            option_path(candidate).is_some() ==> option_path(candidate) == old(
                self,
            )@.playlist.candidate(),
        ensures
            final(self)@ == old(self)@.probing(
                old(self)@.playlist,
                candidate.is_some(),
                direction,
            ),
            outcome.open == candidate,
            option_event(outcome.event) == final(self)@.halt_event(),
    {
        match candidate {
            Some(path) => {
                self.track = None;
                self.position_due = false;
                self.scan = Some(direction);
                Outcome { event: None, open: Some(path) }
            },
            None => {
                self.stop();
                Outcome { event: Some(PlayerEvent::Stopped), open: None }
            },
        }
    }

    /// Moves the scan one entry on.
    fn advance(&mut self, direction: ScanDirection) -> (outcome: Outcome)
        requires
            old(self)@.playlist.wf(),
        ensures
            final(self)@ == old(self)@.advanced(direction),
            option_path(outcome.open) == final(self)@.request(),
            option_event(outcome.event) == final(self)@.halt_event(),
    {
        let candidate = match direction {
            ScanDirection::Forward => self.playlist.next(),
            ScanDirection::Backward => self.playlist.previous(),
        };
        self.probe(candidate, direction)
    }

    /// Replaces the playlist by the files of a directory, read recursively,
    /// and starts with its first entry, which is the file to open. With no
    /// file in the listing the context ends stopped and says so.
    pub fn load(&mut self, listing: &Vec<DirEntry>) -> (outcome: Outcome)
        requires
            old(self).wf(),
        ensures
            final(self).wf(),
            final(self)@ == old(self)@.loaded(
                listing_files(*listing, listing.len() as nat, PlaylistReadMode::RECURSIVE),
            ),
            option_path(outcome.open) == final(self)@.request(),
            option_event(outcome.event) == final(self)@.halt_event(),
    {
        self.stop();
        self.playlist.load_directory(listing, PlaylistReadMode::RECURSIVE);
        let candidate = self.playlist.current();
        self.probe(candidate, ScanDirection::Forward)
    }

    /// Stops and goes on to the entry after the current one, which is the
    /// file to open. At the last entry the context ends stopped and says so.
    pub fn next(&mut self) -> (outcome: Outcome)
        requires
            old(self).wf(),
        ensures
            final(self).wf(),
            final(self)@ == old(self)@.skipped_forward(),
            option_path(outcome.open) == final(self)@.request(),
            option_event(outcome.event) == final(self)@.halt_event(),
    {
        self.stop();
        self.advance(ScanDirection::Forward)
    }

    /// Stops and goes back to the entry before the current one, which is the
    /// file to open. At the first entry the context ends stopped and says so.
    pub fn previous(&mut self) -> (outcome: Outcome)
        requires
            old(self).wf(),
        ensures
            final(self).wf(),
            final(self)@ == old(self)@.skipped_backward(),
            option_path(outcome.open) == final(self)@.request(),
            option_event(outcome.event) == final(self)@.halt_event(),
    {
        self.stop();
        self.advance(ScanDirection::Backward)
    }

    /// The awaited file opened: its decoder becomes the active one, its
    /// duration and tags are kept, the context plays, and the result is the
    /// `Loaded` event. With no file awaited nothing changes and the result is
    /// `None`: the caller lets go of the decoder it opened.
    pub fn activate_module(&mut self, info: TrackInfo) -> (event: Option<PlayerEvent>)
        requires
            old(self).wf(),
        ensures
            final(self).wf(),
            final(self)@ == old(self)@.activated(info@),
            option_event(event) == old(self)@.activation_event(info@),
    {
        if self.scan.is_none() {
            return None;
        }
        match self.playlist.current() {
            Some(filepath) => {
                let filename = match file_name(&filepath) {
                    Some(name) => name,
                    None => filepath.clone(),
                };
                let event = PlayerEvent::Loaded {
                    filename,
                    filepath,
                    metadata: duplicate_tags(&info.metadata),
                    duration: info.duration,
                };
                self.track = Some(info);
                self.state = AudioContextState::Playing;
                self.position_due = true;
                self.scan = None;
                Some(event)
            },
            None => None,
        }
    }

    /// The awaited file did not open: it is passed over, the scan moves one
    /// entry on in its direction, and that entry is the next file to open.
    /// With no entry left the context ends stopped and says so. With no file
    /// awaited nothing changes.
    pub fn open_failed(&mut self) -> (outcome: Outcome)
        requires
            old(self).wf(),
        ensures
            final(self).wf(),
            final(self)@ == old(self)@.failed(),
            option_path(outcome.open) == final(self)@.request(),
            option_event(outcome.event) == old(self)@.failure_event(),
    {
        match self.scan {
            Some(direction) => self.advance(direction),
            None => Outcome { event: None, open: None },
        }
    }

    /// The audio callback asks what to do with its buffer. A stopped context
    /// gives silence, and so does one that waits for a file. A playing one
    /// with an active decoder decodes. A playing one without a decoder asks
    /// for the current entry to be opened; on an empty playlist it stops,
    /// says so, and gives silence.
    pub fn read(&mut self) -> (outcome: ReadOutcome)
        requires
            old(self).wf(),
        ensures
            final(self).wf(),
            final(self)@ == old(self)@.reading(),
            outcome.action@ == old(self)@.read_action(),
            option_event(outcome.event) == old(self)@.read_event(),
    {
        if self.state == AudioContextState::Stopped || self.scan.is_some() {
            return ReadOutcome { action: ReadAction::Silence, event: None };
        }
        if self.track.is_some() {
            return ReadOutcome { action: ReadAction::Decode, event: None };
        }
        let candidate = self.playlist.current();
        let probed = self.probe(candidate, ScanDirection::Forward);
        match probed.open {
            Some(path) => ReadOutcome { action: ReadAction::Open(path), event: probed.event },
            None => ReadOutcome { action: ReadAction::Silence, event: probed.event },
        }
    }

    /// The active decoder wrote `written` frames into a buffer of `samples`
    /// samples and now stands at `position`. With nothing written the module
    /// has ended: the decoder is let go and the scan for the next entry
    /// begins, or the context stops at the end of the playlist. Else the
    /// frames of the buffer are counted, and a position event is due on the
    /// first block of a module and whenever half a second of audio has been
    /// counted since the last one. A report that no decoding block awaited
    /// changes nothing.
    pub fn block_decoded(&mut self, written: usize, samples: usize, position: Seconds) -> (outcome:
        Outcome)
        requires
            old(self).wf(),
        ensures
            final(self).wf(),
            final(self)@ == old(self)@.decoded(written as nat, samples as nat),
            option_event(outcome.event) == old(self)@.decoded_event(
                written as nat,
                samples as nat,
                position,
            ),
            option_path(outcome.open) == if old(self)@.decoding() {
                final(self)@.request()
            } else {
                None
            },
    {
        if self.state != AudioContextState::Playing || self.scan.is_some() {
            return Outcome { event: None, open: None };
        }
        let duration = match &self.track {
            Some(track) => track.duration,
            None => {
                return Outcome { event: None, open: None };
            },
        };
        if written == 0 {
            return self.advance(ScanDirection::Forward);
        }
        let counted: usize = self.samples_since_last_position_update + samples / 2;
        if self.position_due || counted >= POSITION_INTERVAL {
            self.samples_since_last_position_update = 0;
            self.position_due = false;
            Outcome { event: Some(PlayerEvent::PositionUpdated { position, duration }), open: None }
        } else {
            self.samples_since_last_position_update = counted;
            Outcome { event: None, open: None }
        }
    }

    /// A seek to `position`. With an active decoder the result is `None`: the
    /// decoder has to be moved there, and `seeked` gives the event for the
    /// position it then stands at. With none, nothing can be moved, and the
    /// result is the event at once: it carries the position asked for and a
    /// duration of zero.
    pub fn seek(&self, position: Seconds) -> (event: Option<PlayerEvent>)
        ensures
            option_event(event) == if self@.track.is_some() {
                None
            } else {
                Some(PlayerEventView::Seeked { position, duration: Seconds { bits: 0 } })
            },
    {
        match &self.track {
            Some(_) => None,
            None => Some(PlayerEvent::Seeked { position, duration: Seconds::zero() }),
        }
    }

    /// The event that answers a seek, once the decoder stands at `position`:
    /// it carries that position and the duration of the active module, or
    /// zero while none is active.
    pub fn seeked(&self, position: Seconds) -> (event: PlayerEvent)
        ensures
            event@ == (PlayerEventView::Seeked { position, duration: self@.seek_duration() }),
    {
        let duration = match &self.track {
            Some(track) => track.duration,
            None => Seconds::zero(),
        };
        PlayerEvent::Seeked { position, duration }
    }
}

impl AudioContextView {
    /// How many entries a scan can still try, the awaited one included.
    pub open spec fn remaining(self) -> nat {
        match self.scan {
            Some(ScanDirection::Forward) => (self.playlist.files.len() - self.playlist.cursor) as nat,
            Some(ScanDirection::Backward) => self.playlist.cursor + 1,
            None => 0,
        }
    }

    /// The context after every file that its scan asks for failed to open.
    pub open spec fn abandoned(self) -> AudioContextView
        decreases self.remaining(),
    {
        if self.wf() && self.scan.is_some() {
            self.failed().abandoned()
        } else {
            self
        }
    }

    /// The context after its scan has run to its end, where of the entries it
    /// asks for exactly those at the indices in `playable` open, each with
    /// the report `track`.
    pub open spec fn settled(self, playable: Set<nat>, track: TrackView) -> AudioContextView
        decreases self.remaining(),
    {
        if self.wf() && self.scan.is_some() {
            if playable.contains(self.playlist.cursor) {
                self.activated(track)
            } else {
                self.failed().settled(playable, track)
            }
        } else {
            self
        }
    }

    /// The cursor positions at which `Loaded` is announced while the playlist
    /// plays through from a forward scan: each answer in turn is given to the
    /// awaited file, and each module that opened plays to its end before the
    /// next answer arrives.
    pub open spec fn loaded_cursors(self, answers: Seq<Option<TrackView>>) -> Seq<nat>
        decreases answers.len(),
    {
        if answers.len() == 0 || self.scan != Some(ScanDirection::Forward) {
            Seq::empty()
        } else {
            match answers[0] {
                Some(track) => seq![self.playlist.cursor] + self.activated(track).decoded(
                    0,
                    0,
                ).loaded_cursors(answers.drop_first()),
                None => self.failed().loaded_cursors(answers.drop_first()),
            }
        }
    }

    /// The context after decoding blocks of these sizes, each with audio in it.
    pub open spec fn played_blocks(self, blocks: Seq<nat>) -> AudioContextView
        decreases blocks.len(),
    {
        if blocks.len() == 0 {
            self
        } else {
            self.played_blocks(blocks.drop_last()).decoded(1, blocks.last())
        }
    }

    /// No block of these raised a position event.
    pub open spec fn quiet(self, blocks: Seq<nat>) -> bool
        decreases blocks.len(),
    {
        if blocks.len() == 0 {
            true
        } else {
            &&& self.quiet(blocks.drop_last())
            &&& !self.played_blocks(blocks.drop_last()).position_event_due(blocks.last())
        }
    }
}

/// The frames in blocks of these sizes: two samples make a frame.
pub open spec fn frames_of(blocks: Seq<nat>) -> nat
    decreases blocks.len(),
{
    if blocks.len() == 0 {
        0
    } else {
        frames_of(blocks.drop_last()) + blocks.last() / 2
    }
}

/// Every transition keeps the invariant of the context.
pub proof fn lemma_transitions_keep_invariant(
    c: AudioContextView,
    files: Seq<Seq<char>>,
    track: TrackView,
    written: nat,
    samples: nat,
)
    requires
        c.wf(),
    ensures
        c.played().wf(),
        c.paused().wf(),
        c.stopped().wf(),
        c.loaded(files).wf(),
        c.skipped_forward().wf(),
        c.skipped_backward().wf(),
        c.activated(track).wf(),
        c.failed().wf(),
        c.reading().wf(),
        c.decoded(written, samples).wf(),
{
}

/// A stopped context gives the audio callback silence, and so does one that
/// waits for a file to be opened: the read changes nothing and says nothing,
/// and a block report that arrives then is passed over.
pub proof fn lemma_silence_while_stopped_or_scanning(
    c: AudioContextView,
    written: nat,
    samples: nat,
    position: Seconds,
)
    requires
        c.wf(),
        c.state == AudioContextState::Stopped || c.scan.is_some(),
    ensures
        c.read_action() == ReadActionView::Silence,
        c.read_event() is None,
        c.reading() == c,
        c.decoded(written, samples) == c,
        c.decoded_event(written, samples, position) is None,
{
}

/// Pausing and playing again leaves the context as it was: the decoder stays
/// active where it stands, nothing is opened and nothing is moved, and the
/// next block is decoded by the same decoder.
pub proof fn lemma_pause_then_play_resumes(c: AudioContextView)
    requires
        c.wf(),
        c.decoding(),
    ensures
        c.paused().read_action() == ReadActionView::Silence,
        c.paused().reading() == c.paused(),
        c.paused().track == c.track,
        c.paused().played() == c,
        c.paused().played().read_action() == ReadActionView::Decode,
{
}

/// Stopping and playing again starts the current entry anew: the decoder is
/// let go, the cursor stays, and the next read asks for the file under the
/// cursor to be opened, which is announced when it opens.
pub proof fn lemma_stop_then_play_restarts_current(c: AudioContextView, track: TrackView)
    requires
        c.wf(),
        c.playlist.files.len() > 0,
    ensures
        c.stopped().track.is_none(),
        c.stopped().played().playlist == c.playlist,
        c.stopped().played().read_action() == ReadActionView::Open(
            c.playlist.files[c.playlist.cursor as int],
        ),
        c.stopped().played().reading().playlist == c.playlist,
        c.stopped().played().reading().activation_event(track) == Some(
            loaded_event(c.playlist.files[c.playlist.cursor as int], track),
        ),
        c.stopped().played().reading().activated(track).decoding(),
{
}

/// A scan in which no file opens ends with the context stopped, no decoder
/// active and nothing asked for.
pub proof fn lemma_abandoned_scan_stops(c: AudioContextView)
    requires
        c.wf(),
        c.scan.is_some(),
    ensures
        c.abandoned().idle(),
        c.abandoned().wf(),
        c.abandoned().playlist.files == c.playlist.files,
    decreases c.remaining(),
{
    let next = c.failed();
    if next.scan.is_some() {
        lemma_abandoned_scan_stops(next);
    } else {
        assert(next.abandoned() == next);
    }
}

/// A scan ends on the nearest playable entry in its direction, counted from
/// the awaited one: that entry's decoder is active, the context plays, and
/// every entry passed on the way failed to open. Where no entry in that
/// direction is playable, the context ends stopped, with the cursor on the
/// last entry after a forward scan and on the first after a backward one.
pub proof fn lemma_scan_settles_on_nearest_playable(
    c: AudioContextView,
    playable: Set<nat>,
    track: TrackView,
)
    requires
        c.wf(),
        c.scan.is_some(),
    ensures
        ({
            let end = c.settled(playable, track);
            let from = c.playlist.cursor;
            let to = end.playlist.cursor;
            &&& end.wf()
            &&& end.scan.is_none()
            &&& end.playlist.files == c.playlist.files
            &&& match c.scan {
                Some(ScanDirection::Forward) => {
                    &&& from <= to
                    &&& forall|i: nat| from <= i < to ==> !playable.contains(i)
                    &&& if playable.contains(to) {
                        end.track == Some(track) && end.state == AudioContextState::Playing
                    } else {
                        end.idle() && to + 1 == c.playlist.files.len()
                    }
                },
                _ => {
                    &&& to <= from
                    &&& forall|i: nat| to < i <= from ==> !playable.contains(i)
                    &&& if playable.contains(to) {
                        end.track == Some(track) && end.state == AudioContextState::Playing
                    } else {
                        end.idle() && to == 0
                    }
                },
            }
        }),
    decreases c.remaining(),
{
    if !playable.contains(c.playlist.cursor) {
        let next = c.failed();
        if next.scan.is_some() {
            lemma_scan_settles_on_nearest_playable(next, playable, track);
        } else {
            assert(next.settled(playable, track) == next);
        }
    }
}

/// `next` with no playable entry after the current one leaves the context
/// stopped without a decoder: at the last entry at once, with `Stopped` as
/// its event, and else once every entry that follows failed to open. Only an
/// opened file is announced, so none is. The same holds of `previous`.
pub proof fn lemma_next_without_playable_entry_stops(c: AudioContextView)
    requires
        c.wf(),
    ensures
        !c.playlist.has_next() ==> {
            &&& c.skipped_forward().idle()
            &&& c.skipped_forward().request() is None
            &&& c.skipped_forward().halt_event() == Some(PlayerEventView::Stopped)
        },
        c.skipped_forward().abandoned().idle(),
        c.skipped_backward().abandoned().idle(),
{
    if c.skipped_forward().scan.is_some() {
        lemma_abandoned_scan_stops(c.skipped_forward());
    }
    if c.skipped_backward().scan.is_some() {
        lemma_abandoned_scan_stops(c.skipped_backward());
    }
}

/// While a playlist plays through, `Loaded` is announced for entries in the
/// order of the playlist, for none twice, and for no more entries than lie
/// between the cursor and the end: after a load, for no more than the
/// playlist has.
pub proof fn lemma_loaded_in_playlist_order(c: AudioContextView, answers: Seq<Option<TrackView>>)
    requires
        c.wf(),
    ensures
        forall|i: int|
            0 <= i < c.loaded_cursors(answers).len() ==> c.playlist.cursor <= (
            #[trigger] c.loaded_cursors(answers)[i]) < c.playlist.files.len(),
        forall|i: int, j: int|
            0 <= i < j < c.loaded_cursors(answers).len() ==> c.loaded_cursors(answers)[i]
                < c.loaded_cursors(answers)[j],
        c.loaded_cursors(answers).len() + c.playlist.cursor <= c.playlist.files.len()
            || c.loaded_cursors(answers).len() == 0,
        c.loaded_cursors(answers).len() <= c.playlist.files.len(),
    decreases answers.len(),
{
    if answers.len() == 0 || c.scan != Some(ScanDirection::Forward) {
    } else {
        let rest = answers.drop_first();
        match answers[0] {
            Some(track) => {
                let next = c.activated(track).decoded(0, 0);
                lemma_loaded_in_playlist_order(next, rest);
                let tail = next.loaded_cursors(rest);
                assert(c.loaded_cursors(answers) == seq![c.playlist.cursor] + tail);
                assert(tail.len() > 0 ==> next.playlist.cursor == c.playlist.cursor + 1) by {
                    if !c.playlist.has_next() {
                        assert(next.scan.is_none());
                    }
                }
                assert forall|i: int, j: int|
                    0 <= i < j < c.loaded_cursors(answers).len() implies c.loaded_cursors(
                    answers,
                )[i] < c.loaded_cursors(answers)[j] by {
                    assert(c.loaded_cursors(answers)[j] == tail[j - 1]);
                    if i > 0 {
                        assert(c.loaded_cursors(answers)[i] == tail[i - 1]);
                    }
                }
                assert forall|i: int| 0 <= i < c.loaded_cursors(answers).len() implies c.playlist.cursor
                    <= (#[trigger] c.loaded_cursors(answers)[i]) < c.playlist.files.len() by {
                    if i > 0 {
                        assert(c.loaded_cursors(answers)[i] == tail[i - 1]);
                    }
                }
            },
            None => {
                let next = c.failed();
                lemma_loaded_in_playlist_order(next, rest);
                let tail = next.loaded_cursors(rest);
                assert(c.loaded_cursors(answers) == tail);
                assert(tail.len() > 0 ==> next.playlist.cursor == c.playlist.cursor + 1) by {
                    if !c.playlist.has_next() {
                        assert(next.scan.is_none());
                    }
                }
            },
        }
    }
}

/// The first block of a freshly activated module raises a position event,
/// whatever was counted before.
pub proof fn lemma_position_event_after_activation(
    c: AudioContextView,
    track: TrackView,
    written: nat,
    samples: nat,
    position: Seconds,
)
    requires
        c.wf(),
        c.scan.is_some(),
        written > 0,
    ensures
        c.activated(track).decoded_event(written, samples, position) == Some(
            PlayerEventView::PositionUpdated { position, duration: track.duration },
        ),
        !c.activated(track).decoded(written, samples).position_due,
        c.activated(track).decoded(written, samples).samples == 0,
{
}

/// In steady playback the counter holds the frames played since the last
/// position event, so the next event comes only once half a second of audio
/// has been played since the last.
pub proof fn lemma_position_events_half_a_second_apart(
    c: AudioContextView,
    blocks: Seq<nat>,
    samples: nat,
)
    requires
        c.wf(),
        c.decoding(),
        !c.position_due,
        c.samples == 0,
        c.quiet(blocks),
    ensures
        c.played_blocks(blocks).decoding(),
        !c.played_blocks(blocks).position_due,
        c.played_blocks(blocks).samples == frames_of(blocks),
        c.played_blocks(blocks).position_event_due(samples) ==> frames_of(blocks) + samples / 2
            >= POSITION_INTERVAL,
    decreases blocks.len(),
{
    if blocks.len() > 0 {
        lemma_position_events_half_a_second_apart(c, blocks.drop_last(), blocks.last());
    }
}

} // verus!
