use rea_rs::midi_message::MidiMessage;
use rea_rs::midi_text::{Notation, NotationMessage, TextMessage};

#[test]
fn text_message_reads_back_written_text() {
    let mut msg = TextMessage::from_raw(vec![0xf0, 0x01, b'h', b'i']).unwrap();
    assert_eq!(msg.text(), "hi");
    msg.set_text(String::from("größe ♪"));
    assert_eq!(msg.text(), "größe ♪");
    let mut expected = vec![0xf0u8, 0x01];
    expected.extend_from_slice("größe ♪".as_bytes());
    assert_eq!(msg.get_raw(), expected);
}

#[test]
fn text_message_from_raw_kinds() {
    assert!(TextMessage::from_raw(vec![0x90, 60, 100]).is_none());
    assert!(TextMessage::from_raw(vec![0xf0, 0x02, 65]).is_none());
    assert!(TextMessage::from_raw(vec![0xff, 0x01]).is_some());
}

#[test]
fn notation_message_parses_note_notation() {
    let mut buf = vec![0xffu8, 0x0f];
    buf.extend_from_slice(b"NOTE 0 60 articulation staccato");
    let msg = NotationMessage::from_raw(buf).unwrap();
    assert_eq!(
        msg.notation(),
        Notation::Note {
            channel: 1,
            note: 60,
            tokens: vec![String::from("articulation"), String::from("staccato")],
        }
    );
}

#[test]
fn notation_message_parses_signed_and_padded_numbers() {
    let mut buf = vec![0xffu8, 0x0f];
    buf.extend_from_slice(b"NOTE +3 007");
    let msg = NotationMessage::from_raw(buf).unwrap();
    assert_eq!(msg.notation(), Notation::Note { channel: 4, note: 7, tokens: vec![] });
}

#[test]
fn notation_message_parses_track_and_unknown() {
    let mut buf = vec![0xffu8, 0x0f];
    buf.extend_from_slice(b"TRAC clef treble");
    let msg = NotationMessage::from_raw(buf).unwrap();
    assert_eq!(
        msg.notation(),
        Notation::Track(vec![String::from("clef"), String::from("treble")])
    );
    let mut buf = vec![0xffu8, 0x0f];
    buf.extend_from_slice(b"note  x");
    let msg = NotationMessage::from_raw(buf).unwrap();
    assert_eq!(
        msg.notation(),
        Notation::Unknown(vec![String::from("note"), String::new(), String::from("x")])
    );
}

#[test]
fn notation_roundtrip_through_message() {
    let notations = vec![
        Notation::Note { channel: 16, note: 127, tokens: vec![String::from("voice"), String::from("2")] },
        Notation::Note { channel: 1, note: 0, tokens: vec![] },
        Notation::Track(vec![]),
        Notation::Track(vec![String::from("key"), String::from("-2")]),
        Notation::Unknown(vec![String::from("CUSTOM"), String::from("thing")]),
    ];
    for n in notations {
        let msg = NotationMessage::from_notation(n.clone());
        assert_eq!(msg.notation(), n);
        let mut other = NotationMessage::from_raw(vec![0xff, 0x0f]).unwrap();
        other.set_notation(n.clone());
        assert_eq!(other.get_raw(), msg.get_raw());
    }
}

#[test]
fn notation_written_as_tokens() {
    let msg = NotationMessage::from_notation(Notation::Note {
        channel: 10,
        note: 64,
        tokens: vec![String::from("a")],
    });
    let mut expected = vec![0xffu8, 0x0f];
    expected.extend_from_slice(b"NOTE 9 64 a");
    assert_eq!(msg.get_raw(), expected);
    let msg = NotationMessage::from_notation(Notation::Unknown(vec![]));
    assert_eq!(msg.get_raw(), vec![0xff, 0x0f]);
}

#[test]
fn notation_message_from_raw_kinds() {
    assert!(NotationMessage::from_raw(vec![0xf0, 0x0f]).is_none());
    assert!(NotationMessage::from_raw(vec![0xff, 0x01]).is_none());
    assert!(NotationMessage::from_raw(vec![0x80, 1, 2]).is_none());
}
