use retropulse::config::AppConfig;
use retropulse::audio::{select_config, SampleFormat, StreamConfigRange, CHANNELS, SAMPLE_RATE};
use retropulse::metadata::{
    duplicate_tags, parse_metadata, split_names, unreadable_pair, Metadata, MetadataKey,
};
use retropulse::playlist::{DirEntry, Playlist, PlaylistReadMode};
use retropulse::time::Seconds;

fn pair(key: &str, value: &str) -> (String, String) {
    (key.to_string(), value.to_string())
}

#[test]
fn every_known_name_has_its_key() {
    assert_eq!(MetadataKey::from_name("type"), Some(MetadataKey::Type));
    assert_eq!(MetadataKey::from_name("type_long"), Some(MetadataKey::TypeLong));
    assert_eq!(MetadataKey::from_name("originaltype"), Some(MetadataKey::OriginalType));
    assert_eq!(MetadataKey::from_name("originaltype_long"), Some(MetadataKey::OriginalTypeLong));
    assert_eq!(MetadataKey::from_name("container"), Some(MetadataKey::Container));
    assert_eq!(MetadataKey::from_name("container_long"), Some(MetadataKey::ContainerLong));
    assert_eq!(MetadataKey::from_name("tracker"), Some(MetadataKey::Tracker));
    assert_eq!(MetadataKey::from_name("artist"), Some(MetadataKey::Artist));
    assert_eq!(MetadataKey::from_name("title"), Some(MetadataKey::Title));
    assert_eq!(MetadataKey::from_name("date"), Some(MetadataKey::Date));
    assert_eq!(MetadataKey::from_name("message"), Some(MetadataKey::Message));
    assert_eq!(MetadataKey::from_name("message_raw"), Some(MetadataKey::MessageRaw));
    assert_eq!(MetadataKey::from_name("warnings"), Some(MetadataKey::Warnings));
}

#[test]
fn other_names_have_no_key() {
    assert_eq!(MetadataKey::from_name(""), None);
    assert_eq!(MetadataKey::from_name("Type"), None);
    assert_eq!(MetadataKey::from_name("title "), None);
    assert_eq!(MetadataKey::from_name("album"), None);
}

#[test]
fn tag_holds_key_and_text() {
    let tag = Metadata::new(MetadataKey::Artist, "Purple Motion".to_string());
    assert_eq!(tag, Metadata::Artist("Purple Motion".to_string()));
    assert_eq!(tag.key(), MetadataKey::Artist);
    assert_eq!(tag.value(), "Purple Motion");
    assert_eq!(tag.duplicate(), tag);
}

#[test]
fn parse_metadata_keeps_order_and_leaves_out_empty_values() {
    let pairs = vec![
        pair("type", "mod"),
        pair("artist", ""),
        pair("title", "Space Debris"),
        pair("unknown_key", ""),
        pair("tracker", "ProTracker"),
    ];
    let tags = parse_metadata(&pairs);
    assert_eq!(
        tags,
        vec![
            Metadata::Type("mod".to_string()),
            Metadata::Title("Space Debris".to_string()),
            Metadata::Tracker("ProTracker".to_string()),
        ]
    );
}

#[test]
fn parse_metadata_of_nothing_is_empty() {
    assert_eq!(parse_metadata(&Vec::new()), Vec::<Metadata>::new());
}

#[test]
fn duplicate_tags_copies_every_tag() {
    let tags = vec![Metadata::Date("1991".to_string()), Metadata::Warnings("w".to_string())];
    assert_eq!(duplicate_tags(&tags), tags);
}

#[test]
fn seconds_keep_their_bits() {
    let time = Seconds::from_bits(1.5f64.to_bits());
    assert_eq!(f64::from_bits(time.to_bits()), 1.5);
    assert_eq!(f64::from_bits(Seconds::zero().to_bits()), 0.0);
    assert_eq!(Seconds::zero().to_bits(), 0);
}

#[test]
fn default_config_uses_no_skin() {
    let config = AppConfig::default();
    assert!(!config.use_winamp_skin);
    assert_eq!(config.winamp_skin_path, None);
}

#[test]
fn split_names_cuts_at_every_semicolon() {
    assert_eq!(split_names("type;title;artist"), vec!["type", "title", "artist"]);
    assert_eq!(split_names("title"), vec!["title"]);
    assert_eq!(split_names(""), vec![""]);
    assert_eq!(split_names(";"), vec!["", ""]);
    assert_eq!(split_names("a;;b;"), vec!["a", "", "b", ""]);
    assert_eq!(split_names("träcker;日付"), vec!["träcker", "日付"]);
    let keys = "type;type_long;originaltype;originaltype_long;container;container_long;tracker;artist;title;date;message;message_raw;warnings";
    let expected: Vec<String> = keys.split(';').map(|key| key.to_string()).collect();
    assert_eq!(split_names(keys), expected);
}

#[test]
fn unreadable_pair_finds_the_first_unknown_name_with_a_value() {
    let pairs = vec![
        pair("title", "x"),
        pair("album", ""),
        pair("genre", "chip"),
        pair("year", "1990"),
    ];
    assert_eq!(unreadable_pair(&pairs), Some(2));
    assert_eq!(unreadable_pair(&pairs[..2].to_vec()), None);
    assert_eq!(unreadable_pair(&Vec::new()), None);
}

#[test]
fn stream_configuration_is_chosen_by_channels_format_and_rate() {
    assert_eq!(SAMPLE_RATE, 48_000);
    assert_eq!(CHANNELS, 2);
    let range = |channels, sample_format, max_sample_rate| StreamConfigRange {
        channels,
        sample_format,
        min_sample_rate: 8_000,
        max_sample_rate,
    };
    let ranges = vec![
        range(1, SampleFormat::F32, 96_000),
        range(2, SampleFormat::Other, 96_000),
        range(2, SampleFormat::F32, 44_100),
        range(2, SampleFormat::F32, 48_000),
        range(2, SampleFormat::F32, 192_000),
    ];
    assert!(!ranges[0].desired_config());
    assert!(!ranges[1].desired_config());
    assert!(!ranges[2].desired_config());
    assert!(ranges[3].desired_config());
    assert!(ranges[4].desired_config());
    assert_eq!(select_config(&ranges), Some(3));
    let above = StreamConfigRange {
        channels: 2,
        sample_format: SampleFormat::F32,
        min_sample_rate: 88_200,
        max_sample_rate: 192_000,
    };
    assert!(!above.desired_config());
    assert_eq!(select_config(&vec![above, ranges[4]]), Some(1));
    assert_eq!(select_config(&ranges[..3].to_vec()), None);
    assert_eq!(select_config(&Vec::new()), None);
}

#[test]
fn playlist_files_are_the_listed_paths() {
    let listing = vec![DirEntry::File { path: "/a".to_string() }, DirEntry::File { path: "/b".to_string() }];
    let playlist = Playlist::from_directory(&listing, PlaylistReadMode::FLAT);
    assert_eq!(playlist.files(), &vec!["/a".to_string(), "/b".to_string()]);
}
