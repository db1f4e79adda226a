use retropulse::playlist::{DirEntry, Playlist, PlaylistReadMode};

fn file(path: &str) -> DirEntry {
    DirEntry::File { path: path.to_string() }
}

fn sample_listing() -> Vec<DirEntry> {
    vec![
        file("/music/a.mod"),
        DirEntry::Directory {
            entries: vec![
                file("/music/sub/b.xm"),
                DirEntry::Directory { entries: vec![file("/music/sub/deep/c.it")] },
                DirEntry::Other,
                file("/music/sub/d.s3m"),
            ],
        },
        DirEntry::Other,
        file("/music/e.mod"),
    ]
}

fn flat_three() -> Playlist {
    Playlist::from_directory(
        &vec![file("/m/1.mod"), file("/m/2.mod"), file("/m/3.mod")],
        PlaylistReadMode::FLAT,
    )
}

#[test]
fn read_directory_flat_keeps_only_top_level_files() {
    let files = Playlist::read_directory(&sample_listing(), PlaylistReadMode::FLAT);
    assert_eq!(files, vec!["/music/a.mod".to_string(), "/music/e.mod".to_string()]);
}

#[test]
fn read_directory_recursive_is_depth_first() {
    let files = Playlist::read_directory(&sample_listing(), PlaylistReadMode::RECURSIVE);
    assert_eq!(
        files,
        vec![
            "/music/a.mod".to_string(),
            "/music/sub/b.xm".to_string(),
            "/music/sub/deep/c.it".to_string(),
            "/music/sub/d.s3m".to_string(),
            "/music/e.mod".to_string(),
        ]
    );
}

#[test]
fn from_directory_starts_at_the_first_file() {
    let playlist = Playlist::from_directory(&sample_listing(), PlaylistReadMode::RECURSIVE);
    assert_eq!(playlist.len(), 5);
    assert_eq!(playlist.current_index(), 0);
    assert_eq!(playlist.current(), Some("/music/a.mod".to_string()));
}

#[test]
fn from_directory_of_nothing_is_empty() {
    let playlist = Playlist::from_directory(&Vec::new(), PlaylistReadMode::RECURSIVE);
    assert_eq!(playlist.len(), 0);
    assert_eq!(playlist.current_index(), 0);
    assert_eq!(playlist.current(), None);
}

#[test]
fn default_playlist_is_empty() {
    let mut playlist = Playlist::default();
    assert_eq!(playlist.len(), 0);
    assert_eq!(playlist.current(), None);
    assert_eq!(playlist.next(), None);
    assert_eq!(playlist.previous(), None);
    assert_eq!(playlist.current_index(), 0);
}

#[test]
fn load_directory_replaces_the_files_and_resets_the_cursor() {
    let mut playlist = flat_three();
    assert_eq!(playlist.next(), Some("/m/2.mod".to_string()));
    assert_eq!(playlist.current_index(), 1);
    playlist.load_directory(&sample_listing(), PlaylistReadMode::FLAT);
    assert_eq!(playlist.len(), 2);
    assert_eq!(playlist.current_index(), 0);
    assert_eq!(playlist.current(), Some("/music/a.mod".to_string()));
}

#[test]
fn next_steps_forward_until_the_last_entry() {
    let mut playlist = flat_three();
    assert_eq!(playlist.next(), Some("/m/2.mod".to_string()));
    assert_eq!(playlist.next(), Some("/m/3.mod".to_string()));
    assert_eq!(playlist.current_index(), 2);
    assert_eq!(playlist.next(), None);
    assert_eq!(playlist.current_index(), 2);
    assert_eq!(playlist.current(), Some("/m/3.mod".to_string()));
}

#[test]
fn previous_steps_back_until_the_first_entry() {
    let mut playlist = flat_three();
    assert_eq!(playlist.previous(), None);
    assert_eq!(playlist.current_index(), 0);
    playlist.next();
    playlist.next();
    assert_eq!(playlist.previous(), Some("/m/2.mod".to_string()));
    assert_eq!(playlist.previous(), Some("/m/1.mod".to_string()));
    assert_eq!(playlist.current_index(), 0);
    assert_eq!(playlist.previous(), None);
}

#[test]
fn directories_without_files_give_nothing() {
    let listing = vec![
        DirEntry::Directory { entries: vec![DirEntry::Directory { entries: Vec::new() }] },
        DirEntry::Other,
    ];
    assert_eq!(Playlist::read_directory(&listing, PlaylistReadMode::RECURSIVE).len(), 0);
    assert_eq!(Playlist::read_directory(&listing, PlaylistReadMode::FLAT).len(), 0);
}
