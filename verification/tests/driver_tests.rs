use crossbeam::channel::{unbounded, Receiver, Sender};
use retropulse::context::{AudioContext, AudioContextState, ReadAction, TrackInfo};
use retropulse::event::PlayerEvent;
use retropulse::metadata::Metadata;
use retropulse::player::{Effect, PlaybackLoop, PlayerCommand, Reaction};
use retropulse::playlist::DirEntry;
use retropulse::subscribers::SubscriberRegistry;
use retropulse::time::Seconds;
use std::sync::{Arc, Mutex};

/// A decoder that plays a fixed number of blocks and then ends.
struct FakeModule {
    blocks_left: usize,
    position: f64,
}

impl FakeModule {
    fn read(&mut self, data: &mut [f32]) -> usize {
        if self.blocks_left == 0 {
            return 0;
        }
        self.blocks_left -= 1;
        self.position += data.len() as f64 / 2.0 / 48_000.0;
        data.fill(0.5);
        data.len() / 2
    }

    fn info(&self) -> TrackInfo {
        TrackInfo {
            duration: Seconds::from_bits(2.0f64.to_bits()),
            metadata: vec![Metadata::Type("mod".to_string())],
        }
    }
}

/// Files whose path ends in `.mod` open, and play three blocks.
fn try_open(path: &str) -> Option<FakeModule> {
    if path.ends_with(".mod") {
        Some(FakeModule { blocks_left: 3, position: 0.0 })
    } else {
        None
    }
}

fn listing() -> Vec<DirEntry> {
    vec![
        DirEntry::File { path: "/d/readme.txt".to_string() },
        DirEntry::File { path: "/d/a.mod".to_string() },
        DirEntry::Directory {
            entries: vec![
                DirEntry::File { path: "/d/sub/cover.png".to_string() },
                DirEntry::File { path: "/d/sub/b.mod".to_string() },
            ],
        },
    ]
}

struct Shared {
    context: AudioContext,
    module: Option<FakeModule>,
}

impl Shared {
    fn release_unused(&mut self) {
        if !self.context.is_active() {
            self.module = None;
        }
    }
}

fn scan(shared: &mut Shared, events: &Sender<PlayerEvent>, first: Option<String>) -> bool {
    let mut open = first;
    while let Some(path) = open {
        match try_open(&path) {
            Some(module) => {
                return match shared.context.activate_module(module.info()) {
                    Some(event) => {
                        shared.module = Some(module);
                        events.send(event).unwrap();
                        true
                    }
                    None => false,
                };
            }
            None => {
                let outcome = shared.context.open_failed();
                if let Some(event) = outcome.event {
                    events.send(event).unwrap();
                }
                open = outcome.open;
            }
        }
    }
    shared.release_unused();
    false
}

/// One audio callback. Says whether the buffer holds audio.
fn render(shared: &mut Shared, events: &Sender<PlayerEvent>, data: &mut [f32]) -> bool {
    let mut outcome = shared.context.read();
    loop {
        if let Some(event) = outcome.event {
            events.send(event).unwrap();
        }
        match outcome.action {
            ReadAction::Silence => {
                shared.release_unused();
                data.fill(0.0);
                return false;
            }
            ReadAction::Open(path) => {
                data.fill(0.0);
                if !scan(shared, events, Some(path)) {
                    return false;
                }
                outcome = shared.context.read();
            }
            ReadAction::Decode => {
                let module = shared.module.as_mut().unwrap();
                let written = module.read(data);
                let position = Seconds::from_bits(module.position.to_bits());
                let outcome = shared.context.block_decoded(written, data.len(), position);
                if written == 0 {
                    data.fill(0.0);
                }
                if let Some(event) = outcome.event {
                    events.send(event).unwrap();
                }
                shared.release_unused();
                if outcome.open.is_some() {
                    scan(shared, events, outcome.open);
                }
                return written > 0;
            }
        }
    }
}

fn run_command(
    playback: &mut PlaybackLoop,
    shared: &Arc<Mutex<Shared>>,
    events: &Sender<PlayerEvent>,
    command: PlayerCommand,
) -> bool {
    let mut reaction: Reaction = playback.handle(&mut shared.lock().unwrap().context, command);
    loop {
        for event in reaction.events.drain(..) {
            events.send(event).unwrap();
        }
        shared.lock().unwrap().release_unused();
        reaction = match reaction.effect {
            Effect::Idle => return true,
            Effect::Exit => return false,
            Effect::Reposition(position) => {
                let mut guard = shared.lock().unwrap();
                let resulting = match guard.module.as_mut() {
                    Some(module) => {
                        module.position = f64::from_bits(position.to_bits()).clamp(0.0, 2.0);
                        Seconds::from_bits(module.position.to_bits())
                    }
                    None => position,
                };
                playback.repositioned(&guard.context, resulting)
            }
            Effect::ReadDirectory(_) => {
                playback.directory_read(&mut shared.lock().unwrap().context, &listing())
            }
            Effect::Open(path) => {
                let module = try_open(&path);
                let answer = module.as_ref().map(|module| module.info());
                let mut guard = shared.lock().unwrap();
                let reaction = playback.opened(&mut guard.context, answer);
                if matches!(reaction.events.first(), Some(PlayerEvent::Loaded { .. })) {
                    guard.module = module;
                }
                reaction
            }
        };
    }
}

type Subscribers = Arc<Mutex<SubscriberRegistry<Sender<PlayerEvent>>>>;

/// The engine with its channels, driven from one thread: what the playback
/// loop and the audio callback publish is fanned out by `pump`.
struct Host {
    playback: PlaybackLoop,
    shared: Arc<Mutex<Shared>>,
    event_sender: Sender<PlayerEvent>,
    event_receiver: Receiver<PlayerEvent>,
    subscribers: Subscribers,
    running: bool,
    fanning_out: bool,
}

fn spawn_host() -> Host {
    let (event_sender, event_receiver) = unbounded();
    let mut playback = PlaybackLoop::new();
    playback.started(true);
    Host {
        playback,
        shared: Arc::new(Mutex::new(Shared { context: AudioContext::new(), module: None })),
        event_sender,
        event_receiver,
        subscribers: Arc::new(Mutex::new(SubscriberRegistry::new())),
        running: true,
        fanning_out: true,
    }
}

/// Hands every published event to every subscriber, until `Terminated`.
fn pump(host: &mut Host) {
    while host.fanning_out {
        let Ok(event) = host.event_receiver.try_recv() else {
            return;
        };
        let subscribers = host.subscribers.lock().unwrap();
        let copies = subscribers.copies(&event);
        for (index, copy) in copies.into_iter().enumerate() {
            subscribers.sink(index).send(copy).unwrap();
        }
        if event.is_terminated() {
            host.fanning_out = false;
        }
    }
}

fn send(host: &mut Host, command: PlayerCommand) {
    if host.running {
        host.running = run_command(&mut host.playback, &host.shared, &host.event_sender, command);
    }
    pump(host);
}

fn subscribe(host: &Host) -> (String, Receiver<PlayerEvent>) {
    let (sink, inbox) = unbounded();
    let id = host.subscribers.lock().unwrap().subscribe_to_events(sink);
    (id, inbox)
}

fn callback(host: &mut Host) -> bool {
    let mut data = vec![1.0f32; 1024];
    let audible = render(&mut host.shared.lock().unwrap(), &host.event_sender, &mut data);
    pump(host);
    audible
}

fn shut_down(mut host: Host) {
    send(&mut host, PlayerCommand::Terminate);
    assert!(!host.running);
    assert!(!host.fanning_out);
    assert!(host.playback.is_terminated());
}

fn loaded_paths(events: &[PlayerEvent]) -> Vec<String> {
    events
        .iter()
        .filter_map(|event| match event {
            PlayerEvent::Loaded { filepath, .. } => Some(filepath.clone()),
            _ => None,
        })
        .collect()
}

#[test]
fn every_command_sequence_ends_with_one_terminated_event() {
    let mut host = spawn_host();
    let (_id, inbox) = subscribe(&host);
    for command in [
        PlayerCommand::Play,
        PlayerCommand::Load("/d".to_string()),
        PlayerCommand::Seek(Seconds::from_bits(1.0f64.to_bits())),
        PlayerCommand::Pause,
        PlayerCommand::Next,
        PlayerCommand::Previous,
        PlayerCommand::Stop,
    ] {
        send(&mut host, command);
    }
    send(&mut host, PlayerCommand::Terminate);
    send(&mut host, PlayerCommand::Play);
    shut_down(host);
    let events: Vec<PlayerEvent> = inbox.try_iter().collect();
    assert_eq!(events.iter().filter(|event| event.is_terminated()).count(), 1);
    assert_eq!(events.last(), Some(&PlayerEvent::Terminated));
    let seeked: Vec<&PlayerEvent> =
        events.iter().filter(|event| matches!(event, PlayerEvent::Seeked { .. })).collect();
    assert_eq!(
        seeked,
        vec![&PlayerEvent::Seeked {
            position: Seconds::from_bits(1.0f64.to_bits()),
            duration: Seconds::from_bits(2.0f64.to_bits()),
        }]
    );
}

#[test]
fn subscribers_get_the_same_events_in_the_same_order() {
    let mut host = spawn_host();
    let (first_id, first) = subscribe(&host);
    let (_second_id, second) = subscribe(&host);
    send(&mut host, PlayerCommand::Play);
    send(&mut host, PlayerCommand::Load("/d".to_string()));
    send(&mut host, PlayerCommand::Pause);
    assert!(host.subscribers.lock().unwrap().unsubscribe_from_events(first_id));
    send(&mut host, PlayerCommand::Play);
    shut_down(host);
    let first: Vec<PlayerEvent> = first.try_iter().collect();
    let second: Vec<PlayerEvent> = second.try_iter().collect();
    assert_eq!(first.len(), 4);
    assert_eq!(first[0], PlayerEvent::Playing);
    assert_eq!(loaded_paths(&first), vec!["/d/a.mod".to_string()]);
    assert_eq!(first[2], PlayerEvent::Playing);
    assert_eq!(first[3], PlayerEvent::Paused);
    assert_eq!(second[..4], first[..]);
    assert_eq!(second[4..], [PlayerEvent::Playing, PlayerEvent::Terminated]);
}

#[test]
fn callbacks_play_the_playlist_through_and_stop() {
    let mut host = spawn_host();
    let (_id, inbox) = subscribe(&host);
    assert!(!callback(&mut host));
    send(&mut host, PlayerCommand::Load("/d".to_string()));
    send(&mut host, PlayerCommand::Pause);
    assert!(!callback(&mut host));
    send(&mut host, PlayerCommand::Play);
    let mut audible = 0;
    for _ in 0..20 {
        if callback(&mut host) {
            audible += 1;
        }
    }
    assert_eq!(audible, 6);
    {
        let guard = host.shared.lock().unwrap();
        assert_eq!(guard.context.state(), AudioContextState::Stopped);
        assert!(guard.module.is_none());
        assert_eq!(guard.context.playlist().len(), 4);
        assert_eq!(guard.context.playlist().current_index(), 3);
    }
    shut_down(host);
    let events: Vec<PlayerEvent> = inbox.try_iter().collect();
    assert_eq!(loaded_paths(&events), vec!["/d/a.mod".to_string(), "/d/sub/b.mod".to_string()]);
    let positions = events
        .iter()
        .filter(|event| matches!(event, PlayerEvent::PositionUpdated { .. }))
        .count();
    assert_eq!(positions, 2);
    assert_eq!(events[events.len() - 2..], [PlayerEvent::Stopped, PlayerEvent::Terminated]);
    assert_eq!(events.iter().filter(|event| **event == PlayerEvent::Stopped).count(), 1);
}

#[test]
fn stop_then_play_starts_the_same_entry_again() {
    let mut host = spawn_host();
    let (_id, inbox) = subscribe(&host);
    send(&mut host, PlayerCommand::Load("/d".to_string()));
    assert!(callback(&mut host));
    send(&mut host, PlayerCommand::Stop);
    assert!(!callback(&mut host));
    send(&mut host, PlayerCommand::Play);
    assert!(callback(&mut host));
    {
        let guard = host.shared.lock().unwrap();
        assert_eq!(guard.context.playlist().current_index(), 1);
        assert_eq!(guard.module.as_ref().map(|module| module.blocks_left), Some(2));
    }
    shut_down(host);
    let events: Vec<PlayerEvent> = inbox.try_iter().collect();
    assert_eq!(loaded_paths(&events), vec!["/d/a.mod".to_string(), "/d/a.mod".to_string()]);
}
