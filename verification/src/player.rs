//! The playback loop: commands in, events and outside work out.
//!
//! A command is handled in steps. Each step returns the events to publish and
//! the work that the loop's surroundings have to do before the next step:
//! list a directory, open a file, move the decoder. The answer to that work
//! is the input of the next step. A step that returns `Idle` has finished its
//! command.

use vstd::prelude::*;
use crate::context::{option_track, AudioContext, AudioContextView, Outcome, TrackInfo, TrackView};
use crate::event::{events_of, option_event, PlayerEvent, PlayerEventView};
use crate::playlist::{listing_files, DirEntry, PlaylistReadMode};
use crate::time::Seconds;

verus! {

/// What a caller can ask of the player.
#[derive(Clone, Debug, PartialEq, Eq)]
pub enum PlayerCommand {
    /// Play the files of this directory.
    Load(String),
    Play,
    Pause,
    Stop,
    Previous,
    Next,
    Seek(Seconds),
    /// End the playback loop. Nothing is handled after it.
    Terminate,
}

/// Where the playback loop is in its life.
#[derive(Clone, Copy, Debug, PartialEq, Eq, Structural)]
pub enum PlayerState {
    /// Made, and not started yet.
    Spawned,
    /// Started with an output stream: commands are acted on.
    Running,
    /// Started without an output stream: only `Terminate` is acted on.
    Failed,
    /// Ended by `Terminate`. Nothing follows.
    Terminated,
}

/// The work that a step leaves to the loop's surroundings.
#[derive(Clone, Debug, PartialEq, Eq)]
pub enum Effect {
    /// Nothing: the command is done.
    Idle,
    /// List this directory and answer with `directory_read`.
    ReadDirectory(String),
    /// Try to open this file and answer with `opened`.
    Open(String),
    /// Move the active decoder to this position and answer with
    /// `repositioned`.
    Reposition(Seconds),
    /// Leave the loop.
    Exit,
}

/// An effect as a plain value.
pub enum EffectView {
    Idle,
    ReadDirectory(Seq<char>),
    Open(Seq<char>),
    Reposition(Seconds),
    Exit,
}

impl View for Effect {
    type V = EffectView;

    open spec fn view(&self) -> EffectView {
        match *self {
            Effect::Idle => EffectView::Idle,
            Effect::ReadDirectory(path) => EffectView::ReadDirectory(path@),
            Effect::Open(path) => EffectView::Open(path@),
            Effect::Reposition(position) => EffectView::Reposition(position),
            Effect::Exit => EffectView::Exit,
        }
    }
}

/// What one step of the loop gives back.
#[derive(Clone, Debug, PartialEq, Eq)]
pub struct Reaction {
    /// The events to publish, in this order.
    pub events: Vec<PlayerEvent>,
    pub effect: Effect,
}

/// A reaction as a plain value.
pub struct ReactionView {
    pub events: Seq<PlayerEventView>,
    pub effect: EffectView,
}

impl View for Reaction {
    type V = ReactionView;

    open spec fn view(&self) -> ReactionView {
        ReactionView { events: events_of(self.events@), effect: self.effect@ }
    }
}

/// A command as a plain value.
pub enum PlayerCommandView {
    Load(Seq<char>),
    Play,
    Pause,
    Stop,
    Previous,
    Next,
    Seek(Seconds),
    Terminate,
}

impl View for PlayerCommand {
    type V = PlayerCommandView;

    open spec fn view(&self) -> PlayerCommandView {
        match *self {
            PlayerCommand::Load(path) => PlayerCommandView::Load(path@),
            PlayerCommand::Play => PlayerCommandView::Play,
            PlayerCommand::Pause => PlayerCommandView::Pause,
            PlayerCommand::Stop => PlayerCommandView::Stop,
            PlayerCommand::Previous => PlayerCommandView::Previous,
            PlayerCommand::Next => PlayerCommandView::Next,
            PlayerCommand::Seek(position) => PlayerCommandView::Seek(position),
            PlayerCommand::Terminate => PlayerCommandView::Terminate,
        }
    }
}

/// The effect that asks for the file a context waits for.
pub open spec fn open_effect(context: AudioContextView) -> EffectView {
    match context.request() {
        Some(path) => EffectView::Open(path),
        None => EffectView::Idle,
    }
}

/// No event, or one.
pub open spec fn events_from(event: Option<PlayerEventView>) -> Seq<PlayerEventView> {
    match event {
        Some(e) => seq![e],
        None => Seq::empty(),
    }
}

/// The loop as a plain value, together with the context it drives.
pub struct LoopView {
    pub state: PlayerState,
    /// A load is in progress and owes `Playing` once a file has opened.
    pub announce: bool,
    /// A seek is in progress and owes its `Seeked`.
    pub seeking: bool,
    pub context: AudioContextView,
}

/// One step of the loop as a plain value: what it leaves and what it gives.
pub struct StepView {
    pub after: LoopView,
    pub reaction: ReactionView,
}

impl LoopView {
    /// The step that changes nothing and says nothing.
    pub open spec fn rest(self) -> StepView {
        StepView {
            after: self,
            reaction: ReactionView {
                events: Seq::empty(),
                effect: if self.state == PlayerState::Terminated {
                    EffectView::Exit
                } else {
                    EffectView::Idle
                },
            },
        }
    }

    /// The step of a scan: it ends in `context`, publishes `events` and asks
    /// for the file that `context` waits for.
    pub open spec fn step(
        self,
        context: AudioContextView,
        announce: bool,
        events: Seq<PlayerEventView>,
    ) -> StepView {
        StepView {
            after: LoopView { state: self.state, announce, seeking: false, context },
            reaction: ReactionView { events, effect: open_effect(context) },
        }
    }

    /// The step that ends in `context`, publishes `event` and finishes its
    /// command.
    pub open spec fn say(self, context: AudioContextView, event: PlayerEventView) -> StepView {
        StepView {
            after: LoopView { seeking: false, context, ..self },
            reaction: ReactionView { events: seq![event], effect: EffectView::Idle },
        }
    }

    /// What `started` leaves of the loop.
    pub open spec fn begun(self, stream_ready: bool) -> LoopView {
        if self.state == PlayerState::Spawned {
            LoopView {
                state: if stream_ready {
                    PlayerState::Running
                } else {
                    PlayerState::Failed
                },
                ..self
            }
        } else {
            self
        }
    }

    /// What `handle` does with a command.
    pub open spec fn handled(self, command: PlayerCommandView) -> StepView {
        if self.state == PlayerState::Terminated {
            self.rest()
        } else if command is Terminate {
            StepView {
                after: LoopView {
                    state: PlayerState::Terminated,
                    announce: false,
                    seeking: false,
                    ..self
                },
                reaction: ReactionView {
                    events: seq![PlayerEventView::Terminated],
                    effect: EffectView::Exit,
                },
            }
        } else if self.state != PlayerState::Running {
            self.rest()
        } else {
            match command {
                PlayerCommandView::Load(path) => StepView {
                    after: LoopView { seeking: false, ..self },
                    reaction: ReactionView {
                        events: Seq::empty(),
                        effect: EffectView::ReadDirectory(path),
                    },
                },
                PlayerCommandView::Play => self.say(
                    self.context.played(),
                    PlayerEventView::Playing,
                ),
                PlayerCommandView::Pause => self.say(
                    self.context.paused(),
                    PlayerEventView::Paused,
                ),
                PlayerCommandView::Stop => LoopView { announce: false, ..self }.say(
                    self.context.stopped(),
                    PlayerEventView::Stopped,
                ),
                PlayerCommandView::Previous => self.step(
                    self.context.skipped_backward(),
                    false,
                    events_from(self.context.skipped_backward().halt_event()),
                ),
                PlayerCommandView::Next => self.step(
                    self.context.skipped_forward(),
                    false,
                    events_from(self.context.skipped_forward().halt_event()),
                ),
                PlayerCommandView::Seek(position) => if self.context.track.is_some() {
                    StepView {
                        after: LoopView { seeking: true, ..self },
                        reaction: ReactionView {
                            events: Seq::empty(),
                            effect: EffectView::Reposition(position),
                        },
                    }
                } else {
                    self.say(
                        self.context,
                        PlayerEventView::Seeked { position, duration: Seconds { bits: 0 } },
                    )
                },
                PlayerCommandView::Terminate => self.rest(),
            }
        }
    }

    /// What `directory_read` does with the files of a listing.
    pub open spec fn listed(self, files: Seq<Seq<char>>) -> StepView {
        if self.state != PlayerState::Running {
            self.rest()
        } else {
            let context = self.context.loaded(files);
            self.step(context, context.scan.is_some(), events_from(context.halt_event()))
        }
    }

    /// What `opened` does with the answer to an `Open` effect.
    pub open spec fn answered(self, answer: Option<TrackView>) -> StepView {
        if self.state != PlayerState::Running || self.context.scan.is_none() {
            self.rest()
        } else {
            match answer {
                Some(track) => self.step(
                    self.context.activated(track),
                    false,
                    events_from(self.context.activation_event(track)) + if self.announce {
                        seq![PlayerEventView::Playing]
                    } else {
                        Seq::empty()
                    },
                ),
                None => {
                    let context = self.context.failed();
                    self.step(
                        context,
                        self.announce && context.scan.is_some(),
                        events_from(context.halt_event()),
                    )
                },
            }
        }
    }

    /// What `repositioned` does once the decoder stands at `position`.
    pub open spec fn moved(self, position: Seconds) -> StepView {
        if self.state != PlayerState::Running || !self.seeking {
            self.rest()
        } else {
            self.say(
                self.context,
                PlayerEventView::Seeked { position, duration: self.context.seek_duration() },
            )
        }
    }
}

/// The playback loop's own state. The context it drives is shared with the
/// audio callback and handed to each step.
pub struct PlaybackLoop {
    pub state: PlayerState,
    /// A load is in progress and owes `Playing` once a file has opened.
    pub announce: bool,
    /// A seek is in progress and owes its `Seeked`.
    pub seeking: bool,
}

/// A reaction with at most one event.
fn react(event: Option<PlayerEvent>, effect: Effect) -> (reaction: Reaction)
    ensures
        reaction.effect == effect,
        reaction@.events == events_from(option_event(event)),
{
    let mut events: Vec<PlayerEvent> = Vec::new();
    match event {
        Some(e) => {
            events.push(e);
        },
        None => {},
    }
    let reaction = Reaction { events, effect };
    assert(reaction@.events =~= events_from(option_event(event)));
    reaction
}

/// The reaction that hands on what a transition of the context left.
fn relay(outcome: Outcome) -> (reaction: Reaction)
    ensures
        reaction@.events == events_from(option_event(outcome.event)),
        reaction@.effect == match outcome.open {
            Some(path) => EffectView::Open(path@),
            None => EffectView::Idle,
        },
{
    let effect = match outcome.open {
        Some(path) => Effect::Open(path),
        None => Effect::Idle,
    };
    react(outcome.event, effect)
}

impl PlaybackLoop {
    /// The loop together with a context, as a plain value.
    pub open spec fn with(self, context: AudioContextView) -> LoopView {
        LoopView {
            state: self.state,
            announce: self.announce,
            seeking: self.seeking,
            context,
        }
    }

    /// A loop that has not started yet.
    pub fn new() -> (playback: PlaybackLoop)
        ensures
            playback.state == PlayerState::Spawned,
            !playback.announce,
            !playback.seeking,
    {
        PlaybackLoop { state: PlayerState::Spawned, announce: false, seeking: false }
    }

    /// Starts the loop. With an output stream it runs. Without one it has
    /// failed for good: every command but `Terminate` is then a no-op.
    pub fn started(&mut self, stream_ready: bool)
        ensures
            final(self).announce == old(self).announce,
            final(self).seeking == old(self).seeking,
            final(self).state == old(self).with(arbitrary()).begun(stream_ready).state,
    {
        if self.state == PlayerState::Spawned {
            self.state = if stream_ready {
                PlayerState::Running
            } else {
                PlayerState::Failed
            };
        }
    }

    /// Whether `Terminate` has been handled.
    pub fn is_terminated(&self) -> (terminated: bool)
        ensures
            terminated == (self.state == PlayerState::Terminated),
    {
        self.state == PlayerState::Terminated
    }

    /// The reaction of a step that does nothing.
    fn resting(&self) -> (reaction: Reaction)
        ensures
            reaction@.events == Seq::<PlayerEventView>::empty(),
            reaction@.effect == if self.state == PlayerState::Terminated {
                EffectView::Exit
            } else {
                EffectView::Idle
            },
    {
        if self.state == PlayerState::Terminated {
            react(None, Effect::Exit)
        } else {
            react(None, Effect::Idle)
        }
    }

    /// Handles one command. `Terminate` ends the loop with the `Terminated`
    /// event, and a terminated loop handles nothing more. A running loop acts
    /// on the other commands: `Play`, `Pause` and `Stop` change the context
    /// and say so; `Next` and `Previous` stop and ask for the neighbouring
    /// entry to be opened, or say `Stopped` where there is none; `Seek` asks
    /// for the decoder to be moved, or answers at once where none is active;
    /// `Load` asks for the directory to be listed. A loop that is not running
    /// publishes nothing and leaves the context alone.
    pub fn handle(&mut self, context: &mut AudioContext, command: PlayerCommand) -> (reaction:
        Reaction)
        requires
            old(context).wf(),
        ensures
            final(context).wf(),
            (StepView { after: final(self).with(final(context)@), reaction: reaction@ }) == old(
                self,
            ).with(old(context)@).handled(command@),
    {
        if self.state == PlayerState::Terminated {
            return self.resting();
        }
        if let PlayerCommand::Terminate = command {
            self.state = PlayerState::Terminated;
            self.announce = false;
            self.seeking = false;
            return react(Some(PlayerEvent::Terminated), Effect::Exit);
        }
        if self.state != PlayerState::Running {
            return self.resting();
        }
        self.seeking = false;
        match command {
            PlayerCommand::Load(path) => react(None, Effect::ReadDirectory(path)),
            PlayerCommand::Play => {
                context.play();
                react(Some(PlayerEvent::Playing), Effect::Idle)
            },
            PlayerCommand::Pause => {
                context.pause();
                react(Some(PlayerEvent::Paused), Effect::Idle)
            },
            PlayerCommand::Stop => {
                context.stop();
                self.announce = false;
                react(Some(PlayerEvent::Stopped), Effect::Idle)
            },
            PlayerCommand::Previous => {
                self.announce = false;
                relay(context.previous())
            },
            PlayerCommand::Next => {
                self.announce = false;
                relay(context.next())
            },
            PlayerCommand::Seek(position) => {
                match context.seek(position) {
                    Some(event) => react(Some(event), Effect::Idle),
                    None => {
                        self.seeking = true;
                        react(None, Effect::Reposition(position))
                    },
                }
            },
            PlayerCommand::Terminate => react(None, Effect::Idle),
        }
    }

    /// Takes the listing that a `ReadDirectory` effect asked for: the context
    /// loads it, and the first file is to be opened. With no file in the
    /// listing the load is over at once, and `Stopped` says so.
    pub fn directory_read(&mut self, context: &mut AudioContext, listing: &Vec<DirEntry>) -> (reaction:
        Reaction)
        requires
            old(context).wf(),
        ensures
            final(context).wf(),
            (StepView { after: final(self).with(final(context)@), reaction: reaction@ }) == old(
                self,
            ).with(old(context)@).listed(
                listing_files(*listing, listing.len() as nat, PlaylistReadMode::RECURSIVE),
            ),
    {
        if self.state != PlayerState::Running {
            return self.resting();
        }
        let outcome = context.load(listing);
        self.announce = outcome.open.is_some();
        self.seeking = false;
        relay(outcome)
    }

    /// Takes the answer to an `Open` effect: the decoder's report where the
    /// file opened, `None` where it did not. An opened file is announced with
    /// `Loaded`, and with `Playing` after it where a load was in progress. A
    /// file that did not open is passed over: the next one in the scan's
    /// direction is asked for, and with none left `Stopped` ends the command.
    /// An answer that no file awaited changes nothing: the caller lets go of
    /// what it opened.
    pub fn opened(&mut self, context: &mut AudioContext, answer: Option<TrackInfo>) -> (reaction:
        Reaction)
        requires
            old(context).wf(),
        ensures
            final(context).wf(),
            (StepView { after: final(self).with(final(context)@), reaction: reaction@ }) == old(
                self,
            ).with(old(context)@).answered(option_track(answer)),
    {
        if self.state != PlayerState::Running || !context.is_scanning() {
            return self.resting();
        }
        self.seeking = false;
        match answer {
            Some(info) => {
                let mut events: Vec<PlayerEvent> = Vec::new();
                match context.activate_module(info) {
                    Some(event) => {
                        events.push(event);
                    },
                    None => {},
                }
                let ghost announced = events_of(events@);
                if self.announce {
                    events.push(PlayerEvent::Playing);
                }
                self.announce = false;
                let reaction = Reaction { events, effect: Effect::Idle };
                assert(announced =~= events_from(old(context)@.activation_event(info@)));
                assert(reaction@.events =~= announced + if old(self).announce {
                    seq![PlayerEventView::Playing]
                } else {
                    Seq::empty()
                });
                reaction
            },
            None => {
                let outcome = context.open_failed();
                self.announce = self.announce && outcome.open.is_some();
                relay(outcome)
            },
        }
    }

    /// Takes the answer to a `Reposition` effect: the position at which the
    /// decoder stands after the move. `Seeked` carries it, with the duration
    /// of the active module. Without a seek in progress nothing is said.
    pub fn repositioned(&mut self, context: &AudioContext, position: Seconds) -> (reaction:
        Reaction)
        ensures
            (StepView { after: final(self).with(context@), reaction: reaction@ }) == old(
                self,
            ).with(context@).moved(position),
    {
        if self.state != PlayerState::Running || !self.seeking {
            return self.resting();
        }
        self.seeking = false;
        react(Some(context.seeked(position)), Effect::Idle)
    }
}

/// What the loop is given, one step at a time.
pub enum LoopInput {
    /// The output stream was opened, or could not be.
    Started(bool),
    Command(PlayerCommandView),
    /// The files of the directory that a `ReadDirectory` effect asked for.
    Listing(Seq<Seq<char>>),
    /// The answer to an `Open` effect.
    Answer(Option<TrackView>),
    /// The answer to a `Reposition` effect.
    Position(Seconds),
}

impl LoopView {
    /// The step that an input causes.
    pub open spec fn fed(self, input: LoopInput) -> StepView {
        match input {
            LoopInput::Started(ready) => self.begun(ready).rest(),
            LoopInput::Command(command) => self.handled(command),
            LoopInput::Listing(files) => self.listed(files),
            LoopInput::Answer(answer) => self.answered(answer),
            LoopInput::Position(position) => self.moved(position),
        }
    }

    /// The loop after these inputs.
    pub open spec fn run(self, inputs: Seq<LoopInput>) -> LoopView
        decreases inputs.len(),
    {
        if inputs.len() == 0 {
            self
        } else {
            self.run(inputs.drop_last()).fed(inputs.last()).after
        }
    }

    /// Everything that the loop publishes on these inputs, in order.
    pub open spec fn published(self, inputs: Seq<LoopInput>) -> Seq<PlayerEventView>
        decreases inputs.len(),
    {
        if inputs.len() == 0 {
            Seq::empty()
        } else {
            self.published(inputs.drop_last()) + self.run(inputs.drop_last()).fed(
                inputs.last(),
            ).reaction.events
        }
    }

    /// How many times the loop has terminated: once or never.
    pub open spec fn ended(self) -> nat {
        if self.state == PlayerState::Terminated {
            1
        } else {
            0
        }
    }
}

/// How many of these events are `Terminated`.
pub open spec fn terminations(events: Seq<PlayerEventView>) -> nat
    decreases events.len(),
{
    if events.len() == 0 {
        0
    } else {
        terminations(events.drop_last()) + if events.last() is Terminated {
            1nat
        } else {
            0nat
        }
    }
}

/// Counting `Terminated` in two runs of events, one after the other.
proof fn lemma_terminations_add(a: Seq<PlayerEventView>, b: Seq<PlayerEventView>)
    ensures
        terminations(a + b) == terminations(a) + terminations(b),
    decreases b.len(),
{
    if b.len() == 0 {
        assert(a + b =~= a);
    } else {
        assert((a + b).drop_last() =~= a + b.drop_last());
        lemma_terminations_add(a, b.drop_last());
    }
}

/// One step publishes `Terminated` exactly when it ends the loop.
proof fn lemma_step_terminations(l: LoopView, input: LoopInput)
    ensures
        terminations(l.fed(input).reaction.events) + l.ended() == l.fed(input).after.ended(),
{
    let events = l.fed(input).reaction.events;
    if events.len() == 1 {
        assert(events.drop_last().len() == 0);
    } else if events.len() == 2 {
        assert(events.drop_last().len() == 1);
        assert(events.drop_last().drop_last().len() == 0);
    }
    reveal_with_fuel(terminations, 3);
}

/// The events of a run hold `Terminated` once if the run ended the loop, and
/// not at all if it did not.
pub proof fn lemma_terminated_at_most_once(l: LoopView, inputs: Seq<LoopInput>)
    ensures
        terminations(l.published(inputs)) + l.ended() == l.run(inputs).ended(),
    decreases inputs.len(),
{
    if inputs.len() > 0 {
        let before = inputs.drop_last();
        lemma_terminated_at_most_once(l, before);
        lemma_step_terminations(l.run(before), inputs.last());
        lemma_terminations_add(
            l.published(before),
            l.run(before).fed(inputs.last()).reaction.events,
        );
    }
}

/// Whatever a loop that has not ended is given, if the last of it is the
/// command `Terminate`, the loop has published `Terminated` exactly once, has
/// ended, and has told its surroundings to leave.
pub proof fn lemma_terminate_ends_the_loop_once(l: LoopView, inputs: Seq<LoopInput>)
    requires
        l.state != PlayerState::Terminated,
        inputs.len() > 0,
        inputs.last() == LoopInput::Command(PlayerCommandView::Terminate),
    ensures
        terminations(l.published(inputs)) == 1,
        l.run(inputs).state == PlayerState::Terminated,
        l.run(inputs.drop_last()).fed(inputs.last()).reaction.effect == EffectView::Exit,
{
    lemma_terminated_at_most_once(l, inputs);
}

/// A seek is answered by `Seeked` exactly once: at once where no decoder is
/// active, and else when the decoder has been moved, with the position at
/// which it then stands and the duration of the active module.
pub proof fn lemma_seek_is_answered_once(l: LoopView, position: Seconds, resulting: Seconds)
    requires
        l.state == PlayerState::Running,
    ensures
        l.context.track.is_none() ==> l.handled(PlayerCommandView::Seek(position)).reaction == (
        ReactionView {
            events: seq![PlayerEventView::Seeked { position, duration: Seconds { bits: 0 } }],
            effect: EffectView::Idle,
        }),
        l.context.track.is_some() ==> {
            let asked = l.handled(PlayerCommandView::Seek(position));
            &&& asked.reaction == (ReactionView {
                events: Seq::empty(),
                effect: EffectView::Reposition(position),
            })
            &&& asked.after.context == l.context
            &&& asked.after.moved(resulting).reaction == (ReactionView {
                events: seq![
                    PlayerEventView::Seeked {
                        position: resulting,
                        duration: l.context.track.unwrap().duration,
                    },
                ],
                effect: EffectView::Idle,
            })
            &&& asked.after.moved(resulting).after.moved(resulting).reaction.events.len() == 0
        },
{
}

} // verus!
