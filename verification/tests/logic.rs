use vfd_marquee::bridge::Bridge;
use vfd_marquee::connect::{ConnectionStage, Connector};
use vfd_marquee::message::{contains_chars, device_id_from_mac, handle_message, set_text_topic};
use vfd_marquee::render::RenderLoop;
use vfd_marquee::scroll::Scroller;
use vfd_marquee::text::{is_blank, pad_text, FRAME_WIDTH};

fn chars(s: &str) -> Vec<char> {
    s.chars().collect()
}

fn string(v: &[char]) -> String {
    v.iter().collect()
}

#[test]
fn pad_short_text() {
    assert_eq!(string(&pad_text(&chars("HELLO"))), "HELLO.......");
    assert_eq!(string(&pad_text(&chars("X"))), "X...........");
}

#[test]
fn pad_empty_text() {
    assert_eq!(string(&pad_text(&chars(""))), "............");
}

#[test]
fn pad_full_text_unchanged() {
    assert_eq!(string(&pad_text(&chars("HELLO WORLD!"))), "HELLO WORLD!");
    assert_eq!(string(&pad_text(&chars("HELLO, WORLD!"))), "HELLO, WORLD!");
}

#[test]
fn blank_classification() {
    assert!(is_blank(&chars(" .,")));
    assert!(is_blank(&chars("   ")));
    assert!(is_blank(&chars("")));
    assert!(!is_blank(&chars("a")));
    assert!(!is_blank(&chars(" x.")));
    assert!(!is_blank(&chars("HELLO")));
}

#[test]
fn scroller_emits_fixed_width_frames() {
    let mut s = Scroller::new(chars("HELLO......."));
    for _ in 0..30 {
        assert_eq!(s.next_frame().len(), FRAME_WIDTH);
    }
}

#[test]
fn scroller_first_frames() {
    let mut s = Scroller::new(chars("HELLO......."));
    assert_eq!(string(&s.next_frame()), "HELLO.......");
    assert_eq!(string(&s.next_frame()), "ELLO.......H");
    assert_eq!(string(&s.next_frame()), "LLO.......HE");
}

#[test]
fn scroller_period_equals_source_length() {
    let text = chars("ABCDEFGHIJKLM");
    let len = text.len();
    let mut s = Scroller::new(text);
    let mut frames: Vec<String> = Vec::new();
    for _ in 0..len + 1 {
        frames.push(string(&s.next_frame()));
    }
    assert_eq!(frames[len], frames[0]);
    assert_ne!(frames[1], frames[0]);
}

#[test]
fn scroller_wraps_short_source() {
    let mut s = Scroller::new(chars("AB"));
    assert_eq!(string(&s.next_frame()), "ABABABABABAB");
    assert_eq!(string(&s.next_frame()), "BABABABABABA");
    assert_eq!(string(&s.next_frame()), "ABABABABABAB");
}

#[test]
fn bridge_preserves_order() {
    let mut b = Bridge::new();
    b.send(chars("A"));
    b.send(chars("B"));
    b.send(chars("C"));
    assert_eq!(b.len(), 3);
    assert_eq!(string(&b.receive().unwrap()), "A");
    assert_eq!(string(&b.receive().unwrap()), "B");
    assert_eq!(string(&b.receive().unwrap()), "C");
    assert!(b.receive().is_none());
}

#[test]
fn bridge_empty_receive_is_none() {
    let mut b = Bridge::new();
    assert!(b.receive().is_none());
    assert_eq!(b.len(), 0);
}

#[test]
fn duplicate_payload_is_discarded() {
    let mut rl = RenderLoop::new();
    let first = rl.tick(Some(chars("HI")));
    assert_eq!(first.power, Some(true));
    assert_eq!(string(&first.frame), "HI..........");
    let second = rl.tick(Some(chars("HI")));
    assert_eq!(second.power, None);
    assert_eq!(string(&second.frame), "I..........H");
}

#[test]
fn blank_payload_powers_off() {
    let mut rl = RenderLoop::new();
    let out = rl.tick(Some(chars(" ")));
    assert_eq!(out.power, Some(false));
    assert_eq!(string(&out.frame), " ...........");
}

#[test]
fn nonblank_payload_powers_on() {
    let mut rl = RenderLoop::new();
    let out = rl.tick(Some(chars("X,")));
    assert_eq!(out.power, Some(true));
}

#[test]
fn quiet_tick_keeps_scrolling() {
    let mut rl = RenderLoop::new();
    rl.tick(Some(chars("HELLO")));
    let a = rl.tick(None);
    assert_eq!(a.power, None);
    assert_eq!(string(&a.frame), "ELLO.......H");
    let b = rl.tick(None);
    assert_eq!(b.power, None);
    assert_eq!(string(&b.frame), "LLO.......HE");
}

#[test]
fn progress_indicator_advances_and_wraps() {
    let mut c = Connector::new();
    c.configure();
    let f0 = c.poll(false).unwrap();
    assert_eq!(string(&f0), "*OOOOOOOOOOO");
    let f1 = c.poll(false).unwrap();
    assert_eq!(string(&f1), "O*OOOOOOOOOO");
    for _ in 2..FRAME_WIDTH {
        c.poll(false).unwrap();
    }
    let wrapped = c.poll(false).unwrap();
    assert_eq!(string(&wrapped), "*OOOOOOOOOOO");
}

#[test]
fn connector_advances_through_stages() {
    let mut c = Connector::new();
    c.configure();
    assert!(!c.done());
    assert!(c.poll(true).is_none());
    assert!(!c.done());
    assert!(c.poll(true).is_none());
    assert!(!c.done());
    assert!(c.poll(true).is_none());
    assert!(c.done());
    assert_eq!(string(&c.connected_frame()), "connected   ");
}

#[test]
fn connector_ready_poll_keeps_progress_slot() {
    let mut c = Connector::new();
    c.configure();
    c.poll(false).unwrap();
    c.poll(true);
    let f = c.poll(false).unwrap();
    assert_eq!(string(&f), "O*OOOOOOOOOO");
}

#[test]
fn connection_stage_values() {
    assert_ne!(ConnectionStage::Disconnected, ConnectionStage::NetifUp);
    assert_eq!(ConnectionStage::Started, ConnectionStage::Started);
}

#[test]
fn device_id_from_lower_octets() {
    let mac: Vec<u8> = vec![0x10, 0x20, 0x30, 0xAB, 0x01, 0xFF];
    assert_eq!(string(&device_id_from_mac(&mac)), "AB01FF");
}

#[test]
fn topic_built_from_device_id() {
    let id = chars("AB01FF");
    assert_eq!(string(&set_text_topic(&id)), "vfd-AB01FF/set-text");
}

#[test]
fn contains_finds_substring() {
    assert!(contains_chars(&chars("vfd-AB01FF/set-text"), &chars("set-text")));
    assert!(contains_chars(&chars("set-text"), &chars("set-text")));
    assert!(!contains_chars(&chars("vfd-AB01FF/status"), &chars("set-text")));
    assert!(!contains_chars(&chars("set"), &chars("set-text")));
    assert!(contains_chars(&chars("anything"), &chars("")));
}

#[test]
fn message_on_matching_topic_is_forwarded() {
    let topic = chars("vfd-AB01FF/set-text");
    let data: Vec<u8> = b"HELLO".to_vec();
    let payload = handle_message(&topic, &data).unwrap();
    assert_eq!(string(&payload), "HELLO");
}

#[test]
fn message_on_other_topic_is_ignored() {
    let topic = chars("vfd-AB01FF/status");
    let data: Vec<u8> = b"HELLO".to_vec();
    assert!(handle_message(&topic, &data).is_none());
}

#[test]
fn malformed_payload_is_replaced_not_rejected() {
    let topic = chars("vfd-AB01FF/set-text");
    let data: Vec<u8> = vec![0xFF, b'A'];
    let payload = handle_message(&topic, &data).unwrap();
    assert_eq!(string(&payload), "\u{FFFD}A");
}
