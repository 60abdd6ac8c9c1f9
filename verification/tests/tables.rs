use terraria_decode::strings;
use terraria_decode::strings::lookup_string;
use terraria_decode::utf8check::is_valid_utf8;

fn text(v: &[u8]) -> String {
    String::from_utf8(v.to_vec()).unwrap()
}

#[test]
fn dotted_lookup_hits() {
    let strings = strings::get();
    assert_eq!(
        "{0} has awoken!",
        text(&lookup_string(b"Announcement.HasAwoken", &strings).unwrap())
    );
    assert_eq!(
        "A solar eclipse is happening!",
        text(&lookup_string(b"LegacyMisc.20", &strings).unwrap())
    );
    assert_eq!(
        "{0} by {1}'s {2}.",
        text(&lookup_string(b"DeathSource.Player", &strings).unwrap())
    );
    assert_eq!(
        "{0} has joined.",
        text(&lookup_string(b"LegacyMultiplayer.19", &strings).unwrap())
    );
}

#[test]
fn dotted_lookup_misses() {
    let strings = strings::get();
    assert!(lookup_string(b"NoSuchCategory.X", &strings).is_none());
    assert!(lookup_string(b"Announcement.NoSuchKey", &strings).is_none());
    assert!(lookup_string(b"NoDotInHere", &strings).is_none());
    // Only the first dot splits: the rest belongs to the key.
    assert!(lookup_string(b"Announcement.Has.Awoken", &strings).is_none());
}

#[test]
fn category_tables_built_in_order() {
    let announcements = strings::announcement::get();
    assert_eq!(4, announcements.len());
    assert_eq!(b"HasBeenDefeated_Single".to_vec(), announcements[0].key);
    assert_eq!(b"{0} has been defeated!".to_vec(), announcements[0].text);

    let sources = strings::death_source::get();
    assert_eq!(3, sources.len());
    assert_eq!(b"Player".to_vec(), sources[0].key);

    assert_eq!(27, strings::death_text::get().len());
    assert_eq!(26, strings::death_text_generic::get().len());
    assert_eq!(44, strings::game::get().len());
    assert_eq!(106, strings::legacy_misc::get().len());
    assert_eq!(2, strings::legacy_multiplayer::get().len());
    assert_eq!(32, strings::misc::get().len());
}

#[test]
fn utf8_validation_agrees_with_std() {
    let cases: Vec<Vec<u8>> = vec![
        b"".to_vec(),
        b"plain ascii".to_vec(),
        vec![0xc3, 0xa9],
        vec![0xe2, 0x82, 0xac],
        vec![0xf0, 0x9f, 0x92, 0x80],
        vec![0x80],
        vec![0xc0, 0xaf],
        vec![0xc2],
        vec![0xe0, 0x80, 0x80],
        vec![0xe0, 0xa0, 0x80],
        vec![0xed, 0xa0, 0x80],
        vec![0xed, 0x9f, 0xbf],
        vec![0xf0, 0x80, 0x80, 0x80],
        vec![0xf0, 0x90, 0x80, 0x80],
        vec![0xf4, 0x8f, 0xbf, 0xbf],
        vec![0xf4, 0x90, 0x80, 0x80],
        vec![0xf8, 0x88, 0x80, 0x80, 0x80],
        vec![0x41, 0xc3],
        vec![0x41, 0xc3, 0xa9, 0x42],
    ];
    for bytes in cases {
        assert_eq!(
            std::str::from_utf8(&bytes).is_ok(),
            is_valid_utf8(&bytes),
            "disagreement on {:?}",
            bytes
        );
    }
}
