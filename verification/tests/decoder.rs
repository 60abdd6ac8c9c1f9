use terraria_decode::generic;
use terraria_decode::strings;

fn decoded(r: Option<(Vec<u8>, usize)>) -> Option<(String, usize)> {
    r.map(|(v, n)| (String::from_utf8(v).unwrap(), n))
}

#[test]
fn try_generic() {
    let strings = strings::get();

    let flesh = vec![
        0x02, 0x16, 0x41, 0x6e, 0x6e, 0x6f, 0x75, 0x6e, 0x63, 0x65, 0x6d, 0x65, 0x6e, 0x74, 0x2e,
        0x48, 0x61, 0x73, 0x41, 0x77, 0x6f, 0x6b, 0x65, 0x6e, 0x01, 0x02, 0x13, 0x4e, 0x50, 0x43,
        0x4e, 0x61, 0x6d, 0x65, 0x2e, 0x57, 0x61, 0x6c, 0x6c, 0x6f, 0x66, 0x46, 0x6c, 0x65, 0x73,
        0x68, 0x00, 0xaf, 0x4b, 0xff,
    ];
    assert_eq!(
        Some(("Wall of Flesh has awoken!".to_string(), 47)),
        decoded(generic::try_generic(&flesh, &strings))
    );

    let eclipse = vec![
        0x02, 0x0d, 0x4c, 0x65, 0x67, 0x61, 0x63, 0x79, 0x4d, 0x69, 0x73, 0x63, 0x2e, 0x32, 0x30,
        0x00, 0x32, 0xff, 0x82,
    ];
    assert_eq!(
        Some(("A solar eclipse is happening!".to_string(), 16)),
        decoded(generic::try_generic(&eclipse, &strings))
    );

    let merchant = vec![
        2, 23, 65, 110, 110, 111, 117, 110, 99, 101, 109, 101, 110, 116, 46, 72, 97, 115, 65, 114,
        114, 105, 118, 101, 100, 1, 2, 13, 71, 97, 109, 101, 46, 78, 80, 67, 84, 105, 116, 108,
        101, 2, 0, 5, 87, 105, 108, 108, 121, 2, 26, 78, 80, 67, 78, 97, 109, 101, 46, 84, 114,
        97, 118, 101, 108, 108, 105, 110, 103, 77, 101, 114, 99, 104, 97, 110, 116, 0, 50, 125,
        255,
    ];
    assert_eq!(
        Some(("Willy the Traveling Merchant has arrived!".to_string(), 78)),
        decoded(generic::try_generic(&merchant, &strings))
    );

    let n_slime = vec![
        2, 34, 71, 97, 109, 101, 46, 69, 110, 101, 109, 105, 101, 115, 68, 101, 102, 101, 97, 116,
        101, 100, 66, 121, 65, 110, 110, 111, 117, 110, 99, 101, 109, 101, 110, 116, 3, 0, 8, 104,
        101, 121, 100, 97, 98, 111, 112, 0, 3, 50, 48, 48, 2, 17, 78, 80, 67, 78, 97, 109, 101,
        46, 66, 108, 117, 101, 83, 108, 105, 109, 101, 0, 250, 250, 0,
    ];
    assert_eq!(
        Some(("heydabop has defeated the 200th Blue Slime!".to_string(), 72)),
        decoded(generic::try_generic(&n_slime, &strings))
    );

    let kill = vec![
        0x02, 0x12, 0x44, 0x65, 0x61, 0x74, 0x68, 0x53, 0x6f, 0x75, 0x72, 0x63, 0x65, 0x2e, 0x50,
        0x6c, 0x61, 0x79, 0x65, 0x72, 0x03, 0x02, 0x22, 0x44, 0x65, 0x61, 0x74, 0x68, 0x54, 0x65,
        0x78, 0x74, 0x47, 0x65, 0x6e, 0x65, 0x72, 0x69, 0x63, 0x2e, 0x45, 0x6e, 0x74, 0x72, 0x61,
        0x69, 0x6c, 0x73, 0x52, 0x69, 0x70, 0x70, 0x65, 0x64, 0x4f, 0x75, 0x74, 0x02, 0x00, 0x05,
        0x62, 0x6f, 0x74, 0x74, 0x79, 0x00, 0x04, 0x74, 0x65, 0x73, 0x74, 0x00, 0x10, 0x73, 0x70,
        0x61, 0x63, 0x65, 0x20, 0x69, 0x6e, 0x20, 0x6d, 0x79, 0x20, 0x6e, 0x61, 0x6d, 0x65, 0x02,
        0x19, 0x49, 0x74, 0x65, 0x6d, 0x4e, 0x61, 0x6d, 0x65, 0x2e, 0x43, 0x6f, 0x70, 0x70, 0x65,
        0x72, 0x53, 0x68, 0x6f, 0x72, 0x74, 0x73, 0x77, 0x6f, 0x72, 0x64, 0x00, 0xe1, 0x19, 0x19,
    ];
    assert_eq!(
        Some((
            "botty's entrails were ripped out by space in my name's Copper Shortsword."
                .to_string(),
            117
        )),
        decoded(generic::try_generic(&kill, &strings))
    );
}

#[test]
fn literal_node_round_trip() {
    let strings = strings::get();
    let mut node = vec![0x00, 0x05];
    node.extend_from_slice(b"hello");
    node.extend_from_slice(&[0xff, 0xff]);
    assert_eq!(
        Some(("hello".to_string(), 7)),
        decoded(generic::try_generic(&node, &strings))
    );
}

#[test]
fn awoken_announcement_from_parts() {
    let strings = strings::get();
    let mut node = vec![0x02, 0x16];
    node.extend_from_slice(b"Announcement.HasAwoken");
    node.push(0x01);
    node.push(0x02);
    node.push(0x13);
    node.extend_from_slice(b"NPCName.WallofFlesh");
    node.push(0x00);
    assert_eq!(
        Some(("Wall of Flesh has awoken!".to_string(), 47)),
        decoded(generic::try_generic(&node, &strings))
    );
}

#[test]
fn filtered_keys_yield_nothing() {
    let strings = strings::get();

    let mut cli = vec![0x02, 0x08];
    cli.extend_from_slice(b"CLI.Help");
    cli.push(0x00);
    assert_eq!(None, generic::try_generic(&cli, &strings));

    let mut greeting = vec![0x02, 0x11];
    greeting.extend_from_slice(b"Game.JoinGreeting");
    greeting.push(0x01);
    greeting.extend_from_slice(&[0x00, 0x01, 0x33]);
    assert_eq!(None, generic::try_generic(&greeting, &strings));

    let mut legacy = vec![0x02, 0x14];
    legacy.extend_from_slice(b"LegacyMultiplayer.19");
    legacy.push(0x01);
    legacy.extend_from_slice(&[0x00, 0x03, 0x62, 0x6f, 0x62]);
    assert_eq!(None, generic::try_generic(&legacy, &strings));
}

#[test]
fn unknown_key_yields_nothing() {
    let strings = strings::get();
    let mut node = vec![0x02, 0x0c];
    node.extend_from_slice(b"Nonsense.Key");
    node.push(0x00);
    assert_eq!(None, generic::try_generic(&node, &strings));
}

#[test]
fn undotted_key_yields_nothing() {
    let strings = strings::get();
    let mut node = vec![0x02, 0x07];
    node.extend_from_slice(b"NoDotAt");
    node.push(0x00);
    assert_eq!(None, generic::try_generic(&node, &strings));
}

#[test]
fn truncated_node_yields_nothing() {
    let strings = strings::get();
    assert_eq!(None, generic::try_generic(&[], &strings));
    assert_eq!(None, generic::try_generic(&[0x02], &strings));
    // Length byte promises more text than the payload holds.
    assert_eq!(None, generic::try_generic(&[0x02, 0x20, 0x41], &strings));
    // Missing substitution count byte after the key.
    let mut node = vec![0x02, 0x16];
    node.extend_from_slice(b"Announcement.HasAwoken");
    assert_eq!(None, generic::try_generic(&node, &strings));
    // Missing child node.
    node.push(0x01);
    assert_eq!(None, generic::try_generic(&node, &strings));
}

#[test]
fn invalid_utf8_key_yields_nothing() {
    let strings = strings::get();
    // 0xc0 0xaf is an overlong encoding, rejected by UTF-8 validation.
    assert_eq!(None, generic::try_generic(&[0x02, 0x02, 0xc0, 0xaf, 0x00], &strings));
    // A literal node with a broken continuation byte is no better.
    assert_eq!(None, generic::try_generic(&[0x00, 0x02, 0xe2, 0x28], &strings));
}

#[test]
fn solar_eclipse_with_zero_substitutions() {
    let strings = strings::get();
    let mut node = vec![0x02, 0x0d];
    node.extend_from_slice(b"LegacyMisc.20");
    node.push(0x00);
    assert_eq!(
        Some(("A solar eclipse is happening!".to_string(), 16)),
        decoded(generic::try_generic(&node, &strings))
    );
}

#[test]
fn decode_is_deterministic() {
    let strings = strings::get();
    let mut node = vec![0x02, 0x16];
    node.extend_from_slice(b"Announcement.HasAwoken");
    node.push(0x01);
    node.extend_from_slice(&[0x02, 0x13]);
    node.extend_from_slice(b"NPCName.WallofFlesh");
    node.push(0x00);
    let first = generic::try_generic(&node, &strings);
    let second = generic::try_generic(&node, &strings);
    assert_eq!(first, second);
    assert!(first.is_some());
}

#[test]
fn unresolvable_child_key_aborts_whole_node() {
    let strings = strings::get();
    let mut node = vec![0x02, 0x16];
    node.extend_from_slice(b"Announcement.HasAwoken");
    node.push(0x01);
    node.extend_from_slice(&[0x02, 0x0c]);
    node.extend_from_slice(b"NPCName.Nope");
    node.push(0x00);
    assert_eq!(None, generic::try_generic(&node, &strings));
}
