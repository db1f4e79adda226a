//! What the engine tells its subscribers.

use vstd::prelude::*;
use crate::metadata::{duplicate_tags, tags_of, Metadata, MetadataView};
use crate::time::Seconds;

verus! {

/// A change of the engine's state that subscribers learn of.
#[derive(Clone, Debug, PartialEq, Eq)]
pub enum PlayerEvent {
    /// A module was opened and is now the active one.
    Loaded { filename: String, filepath: String, metadata: Vec<Metadata>, duration: Seconds },
    Playing,
    Paused,
    Stopped,
    /// Where the active module is, sent at most twice a second.
    PositionUpdated { position: Seconds, duration: Seconds },
    /// The answer to a seek.
    Seeked { position: Seconds, duration: Seconds },
    /// The last event of an engine.
    Terminated,
}

/// An event as a plain value.
pub enum PlayerEventView {
    Loaded {
        filename: Seq<char>,
        filepath: Seq<char>,
        metadata: Seq<MetadataView>,
        duration: Seconds,
    },
    Playing,
    Paused,
    Stopped,
    PositionUpdated { position: Seconds, duration: Seconds },
    Seeked { position: Seconds, duration: Seconds },
    Terminated,
}

impl View for PlayerEvent {
    type V = PlayerEventView;

    open spec fn view(&self) -> PlayerEventView {
        match *self {
            PlayerEvent::Loaded { filename, filepath, metadata, duration } => {
                PlayerEventView::Loaded {
                    filename: filename@,
                    filepath: filepath@,
                    metadata: tags_of(metadata@),
                    duration,
                }
            },
            PlayerEvent::Playing => PlayerEventView::Playing,
            PlayerEvent::Paused => PlayerEventView::Paused,
            PlayerEvent::Stopped => PlayerEventView::Stopped,
            PlayerEvent::PositionUpdated { position, duration } => {
                PlayerEventView::PositionUpdated { position, duration }
            },
            PlayerEvent::Seeked { position, duration } => {
                PlayerEventView::Seeked { position, duration }
            },
            PlayerEvent::Terminated => PlayerEventView::Terminated,
        }
    }
}

/// The events held by a vector, in order.
pub open spec fn events_of(events: Seq<PlayerEvent>) -> Seq<PlayerEventView> {
    Seq::new(events.len(), |i: int| events[i]@)
}

/// An optional event as a plain value.
pub open spec fn option_event(event: Option<PlayerEvent>) -> Option<PlayerEventView> {
    match event {
        Some(e) => Some(e@),
        None => None,
    }
}

impl PlayerEvent {
    /// An equal event that shares nothing with this one: each subscriber gets
    /// a copy of its own.
    pub fn duplicate(&self) -> (copy: PlayerEvent)
        ensures
            copy@ == self@,
    {
        match self {
            PlayerEvent::Loaded { filename, filepath, metadata, duration } => PlayerEvent::Loaded {
                filename: filename.clone(),
                filepath: filepath.clone(),
                metadata: duplicate_tags(metadata),
                duration: *duration,
            },
            PlayerEvent::Playing => PlayerEvent::Playing,
            PlayerEvent::Paused => PlayerEvent::Paused,
            PlayerEvent::Stopped => PlayerEvent::Stopped,
            PlayerEvent::PositionUpdated { position, duration } => PlayerEvent::PositionUpdated {
                position: *position,
                duration: *duration,
            },
            PlayerEvent::Seeked { position, duration } => PlayerEvent::Seeked {
                position: *position,
                duration: *duration,
            },
            PlayerEvent::Terminated => PlayerEvent::Terminated,
        }
    }

    /// Whether this is the last event of an engine.
    pub fn is_terminated(&self) -> (last: bool)
        ensures
            last == (self@ == PlayerEventView::Terminated),
    {
        match self {
            PlayerEvent::Terminated => true,
            _ => false,
        }
    }
}

} // verus!
