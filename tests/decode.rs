use spacenav::{decode, encode_i32, Event, BUTTON_PRESS, BUTTON_RELEASE, FRAME_LEN, MOTION};

fn frame_from_words(words: [i32; 8]) -> Vec<u8> {
    let mut f = Vec::new();
    for w in words {
        f.extend_from_slice(&w.to_le_bytes());
    }
    f
}

#[test]
fn motion_scenario() {
    let f: Vec<u8> = vec![
        0x00, 0x00, 0x00, 0x00, 0x05, 0x00, 0x00, 0x00, 0x0A, 0x00, 0x00, 0x00, 0x00, 0x00,
        0x00, 0x00, 0x00, 0x00, 0x00, 0x00, 0x00, 0x00, 0x00, 0x00, 0x00, 0x00, 0x00, 0x00,
        0xE8, 0x03, 0x00, 0x00,
    ];
    assert_eq!(
        decode(&f),
        Some(Event::Motion { x: 5, y: 10, z: 0, rx: 0, ry: 0, rz: 0, period: 1000 })
    );
}

#[test]
fn button_press_scenario() {
    let mut f: Vec<u8> = vec![0x01, 0x00, 0x00, 0x00, 0x03, 0x00, 0x00, 0x00];
    f.extend((0..24u8).map(|i| i.wrapping_mul(37).wrapping_add(11)));
    assert_eq!(decode(&f), Some(Event::ButtonPress(3)));
}

#[test]
fn unknown_tag_scenario() {
    let mut f: Vec<u8> = vec![0x99, 0x00, 0x00, 0x00];
    f.extend((0..28u8).map(|i| i.wrapping_mul(91)));
    assert_eq!(decode(&f), None);
}

#[test]
fn nothing_available_gives_none() {
    assert_eq!(decode(&[]), None);
}

#[test]
fn motion_negative_axes() {
    let mut f = frame_from_words([MOTION, 1, 2, 3, 4, 5, 6, 7]);
    f[4..8].copy_from_slice(&[0xFF, 0xFF, 0xFF, 0xFF]);
    f[16..20].copy_from_slice(&[0x00, 0x00, 0x00, 0x80]);
    assert_eq!(
        decode(&f),
        Some(Event::Motion { x: -1, y: 2, z: 3, rx: i32::MIN, ry: 5, rz: 6, period: 7 })
    );
}

#[test]
fn motion_fields_in_order() {
    let f = frame_from_words([MOTION, -350, 120, i32::MAX, -7, 0, 42, 16]);
    assert_eq!(
        decode(&f),
        Some(Event::Motion { x: -350, y: 120, z: i32::MAX, rx: -7, ry: 0, rz: 42, period: 16 })
    );
}

#[test]
fn button_press_ignores_tail() {
    let a = frame_from_words([BUTTON_PRESS, 12, 0, 0, 0, 0, 0, 0]);
    let b = frame_from_words([BUTTON_PRESS, 12, -1, 99, 7, i32::MIN, 3, 1]);
    assert_eq!(decode(&a), Some(Event::ButtonPress(12)));
    assert_eq!(decode(&b), Some(Event::ButtonPress(12)));
}

#[test]
fn button_release_decodes_id() {
    let f = frame_from_words([BUTTON_RELEASE, -2, 5, 5, 5, 5, 5, 5]);
    assert_eq!(decode(&f), Some(Event::ButtonRelease(-2)));
}

#[test]
fn other_tags_give_none() {
    for tag in [3, 4, -1, 0x99, i32::MAX, i32::MIN] {
        let f = frame_from_words([tag, 1, 2, 3, 4, 5, 6, 7]);
        assert_eq!(decode(&f), None);
    }
}

#[test]
fn short_frame_gives_none() {
    let f = frame_from_words([BUTTON_PRESS, 3, 0, 0, 0, 0, 0, 0]);
    for n in 0..FRAME_LEN {
        assert_eq!(decode(&f[..n]), None);
    }
    assert_eq!(decode(&f), Some(Event::ButtonPress(3)));
}

#[test]
fn long_buffer_gives_none() {
    let mut f = frame_from_words([BUTTON_PRESS, 3, 0, 0, 0, 0, 0, 0]);
    f.push(0);
    assert_eq!(decode(&f), None);
}

#[test]
fn round_trip_events() {
    let events = [
        Event::ButtonPress(0),
        Event::ButtonPress(-17),
        Event::ButtonRelease(i32::MAX),
        Event::Motion { x: 5, y: 10, z: 0, rx: 0, ry: 0, rz: 0, period: 1000 },
        Event::Motion { x: -1, y: i32::MIN, z: i32::MAX, rx: -300, ry: 299, rz: 1, period: 0 },
    ];
    for e in events {
        let f = e.to_frame();
        assert_eq!(f.len(), FRAME_LEN);
        assert_eq!(decode(&f), Some(e));
    }
}

#[test]
fn to_frame_layout() {
    let f = Event::ButtonRelease(-2).to_frame();
    assert_eq!(f, frame_from_words([BUTTON_RELEASE, -2, 0, 0, 0, 0, 0, 0]));
    let m = Event::Motion { x: 5, y: 10, z: 0, rx: 0, ry: 0, rz: 0, period: 1000 }.to_frame();
    assert_eq!(m, frame_from_words([MOTION, 5, 10, 0, 0, 0, 0, 1000]));
}

#[test]
fn encode_i32_bytes() {
    assert_eq!(encode_i32(1000), vec![0xE8, 0x03, 0x00, 0x00]);
    assert_eq!(encode_i32(-1), vec![0xFF, 0xFF, 0xFF, 0xFF]);
    assert_eq!(encode_i32(i32::MIN), vec![0x00, 0x00, 0x00, 0x80]);
    assert_eq!(encode_i32(0x0102_0304), vec![0x04, 0x03, 0x02, 0x01]);
}

#[test]
fn event_words() {
    assert_eq!(Event::ButtonPress(9).words(), vec![BUTTON_PRESS, 9, 0, 0, 0, 0, 0, 0]);
    assert_eq!(
        Event::Motion { x: 1, y: 2, z: 3, rx: 4, ry: 5, rz: 6, period: 7 }.words(),
        vec![MOTION, 1, 2, 3, 4, 5, 6, 7]
    );
}
