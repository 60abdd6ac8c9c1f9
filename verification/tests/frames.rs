use terraria_decode::pipeline::{
    annotate_death, classify_frame, history_decision, process_frame, DedupCache, FrameClass,
    FrameOutcome, HistoryDecision,
};
use terraria_decode::strings;

fn text(v: &[u8]) -> String {
    String::from_utf8(v.to_vec()).unwrap()
}

/// Wraps a generic payload (starting with its mode byte) into a full
/// frame: declared length, protocol signature sharing its last byte with
/// the payload's mode byte, then the rest of the payload.
fn generic_frame(node: &[u8]) -> Vec<u8> {
    assert_eq!(0x02, node[0]);
    let total = 6 + node.len();
    let mut f = vec![(total % 256) as u8, (total / 256) as u8, 0x52, 0x01, 0x00, 0xff];
    f.extend_from_slice(node);
    f
}

fn flesh_node() -> Vec<u8> {
    let mut node = vec![0x02, 0x16];
    node.extend_from_slice(b"Announcement.HasAwoken");
    node.push(0x01);
    node.extend_from_slice(&[0x02, 0x13]);
    node.extend_from_slice(b"NPCName.WallofFlesh");
    node.push(0x00);
    node
}

/// A full death frame for a drowning: the payload starts one byte before
/// the generic offset, so its key string begins at byte 8 with "Death".
fn drowned_frame() -> Vec<u8> {
    let mut payload = vec![0x13];
    payload.extend_from_slice(b"DeathText.Drowned_3");
    payload.extend_from_slice(&[0x01, 0x00]);
    payload.push(0x03);
    payload.extend_from_slice(b"bob");
    let total = 7 + payload.len();
    let mut f = vec![(total % 256) as u8, (total / 256) as u8, 0x52, 0x01, 0x00, 0xff, 0x02];
    f.extend_from_slice(&payload);
    f
}

#[test]
fn classification_rules() {
    let good = generic_frame(&flesh_node());
    assert_eq!(FrameClass::Generic, classify_frame(&good));

    // Too short.
    assert_eq!(FrameClass::Reject, classify_frame(&good[..13]));

    // Declared length disagrees with the actual byte count.
    let mut bad_len = good.clone();
    bad_len.push(0x00);
    assert_eq!(FrameClass::Reject, classify_frame(&bad_len));

    // Broken signature byte.
    let mut bad_sig = good.clone();
    bad_sig[4] = 0x01;
    assert_eq!(FrameClass::Reject, classify_frame(&bad_sig));

    assert_eq!(FrameClass::Death, classify_frame(&drowned_frame()));
}

#[test]
fn generic_frame_is_announced_once_per_window() {
    let strings = strings::get();
    let mut dedup = DedupCache::new();
    let frame = generic_frame(&flesh_node());

    match process_frame(&frame, &strings, &mut dedup, 1000) {
        FrameOutcome::Announce(v) => assert_eq!("Wall of Flesh has awoken!", text(&v)),
        _ => panic!("expected an announcement"),
    }
    // A capture retransmission two seconds later is suppressed.
    assert!(matches!(
        process_frame(&frame, &strings, &mut dedup, 1002),
        FrameOutcome::Silent
    ));
    // Well past the window the same message goes out again.
    match process_frame(&frame, &strings, &mut dedup, 1012) {
        FrameOutcome::Announce(v) => assert_eq!("Wall of Flesh has awoken!", text(&v)),
        _ => panic!("expected an announcement"),
    }
}

#[test]
fn rejected_frame_stays_silent() {
    let strings = strings::get();
    let mut dedup = DedupCache::new();
    let mut frame = generic_frame(&flesh_node());
    frame[0] = frame[0].wrapping_add(1);
    assert!(matches!(
        process_frame(&frame, &strings, &mut dedup, 1000),
        FrameOutcome::Silent
    ));
}

#[test]
fn death_frame_decodes_to_event() {
    let strings = strings::get();
    let mut dedup = DedupCache::new();
    match process_frame(&drowned_frame(), &strings, &mut dedup, 1000) {
        FrameOutcome::DeathEvent(d) => {
            assert_eq!("**bob** drowned.", text(&d.msg));
            assert_eq!("bob", text(&d.victim));
        },
        _ => panic!("expected a death event"),
    }
}

#[test]
fn three_records() {
    // Two captures of the same death nine seconds apart minus one: the
    // first is announced and recorded, the second dropped entirely.
    let strings = strings::get();
    let mut dedup = DedupCache::new();
    let mut history: Option<i64> = None;
    let mut announced: Vec<String> = Vec::new();
    let mut writes: usize = 0;

    for now in [1000i64, 1003] {
        let outcome = process_frame(&drowned_frame(), &strings, &mut dedup, now as u32);
        let death = match outcome {
            FrameOutcome::DeathEvent(d) => d,
            _ => panic!("expected a death event"),
        };
        match history_decision(history, now) {
            HistoryDecision::Duplicate => {},
            HistoryDecision::Record { elapsed } => {
                let msg = annotate_death(&death.msg, elapsed);
                history = Some(now);
                writes += 1;
                if dedup.note(&msg, now as u32) {
                    announced.push(text(&msg));
                }
            },
        }
    }

    assert_eq!(1, writes);
    assert_eq!(vec!["**bob** drowned.".to_string()], announced);
}

#[test]
fn history_decision_rules() {
    assert_eq!(
        HistoryDecision::Record { elapsed: None },
        history_decision(None, 1000)
    );
    assert_eq!(HistoryDecision::Duplicate, history_decision(Some(1000), 1008));
    assert_eq!(
        HistoryDecision::Record { elapsed: Some(9) },
        history_decision(Some(1000), 1009)
    );
    assert_eq!(
        HistoryDecision::Record { elapsed: Some(3600) },
        history_decision(Some(1000), 4600)
    );
    // An elapsed time too large for the annotation is left off.
    assert_eq!(
        HistoryDecision::Record { elapsed: None },
        history_decision(Some(0), 3_000_000_000)
    );
}

#[test]
fn annotation_appends_duration() {
    assert_eq!("a death", text(&annotate_death(b"a death", None)));
    assert_eq!(
        "a death  *(45 seconds since last death)*",
        text(&annotate_death(b"a death", Some(45)))
    );
    assert_eq!(
        "a death  *(25 minutes since last death)*",
        text(&annotate_death(b"a death", Some(1500)))
    );
}

#[test]
fn dedup_refreshes_timestamp_even_when_suppressed() {
    let mut dedup = DedupCache::new();
    assert!(dedup.note(b"hello", 100));
    assert!(!dedup.note(b"hello", 104));
    // The suppressed attempt still moved the stored second to 104.
    assert!(!dedup.note(b"hello", 108));
    assert!(dedup.note(b"hello", 113));
    // Another message is independent.
    assert!(dedup.note(b"other", 104));
}
