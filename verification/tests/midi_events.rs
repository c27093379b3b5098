use rea_rs::midi_event::{MidiEvent, MidiNoteEvent};
use rea_rs::midi_flatten::{sorted_by_ppq, to_raw_midi_events, flatten_midi_notes};
use rea_rs::midi_message::{
    AfterTouchMessage, AllSysMessage, CCMessage, ChannelPressureMessage, HasBeizer, MidiMessage,
    NoteOffMessage, NoteOnMessage, PitchBendMessage, ProgramChangeMessage, RawMidiMessage,
};
use rea_rs::midi_raw::{MidiEventBuilder, MidiEventConsumer};
use rea_rs::midi_shape::CcShapeKind;

#[test]
fn builder_reads_records() {
    let buf = vec![
        10, 0, 0, 0, 1, 3, 0, 0, 0, 0x90, 60, 100, //
        5, 0, 0, 0, 2, 3, 0, 0, 0, 0x80, 60, 0, //
    ];
    let mut b = MidiEventBuilder::new(buf);
    let e1 = b.next().unwrap();
    assert_eq!(e1.ppq_position(), 10);
    assert!(e1.selected());
    assert!(!e1.muted());
    assert_eq!(e1.message().get_raw(), vec![0x90, 60, 100]);
    let e2 = b.next().unwrap();
    assert_eq!(e2.ppq_position(), 15);
    assert!(e2.muted());
    assert!(b.next().is_none());
}

#[test]
fn note_on_filter_roundtrip() {
    let buf = [
        0, 0, 0, 0, 0, 3, 0, 0, 0, 0x91, 60, 100, //
        7, 0, 0, 0, 0, 3, 0, 0, 0, 0x92, 62, 90, //
        0, 0, 0, 0, 0, 3, 0, 0, 0, 0x91, 64, 80, //
    ];
    let ons: Vec<MidiEvent<NoteOnMessage>> =
        MidiEventBuilder::new(buf.to_vec()).filter_note_on().collect();
    assert_eq!(ons.len(), 3);
    assert_eq!(ons[1].message().channel(), 3);
    assert_eq!(ons[1].message().note(), 62);
    assert_eq!(ons[2].message().velocity(), 80);
    let out: Vec<u8> =
        MidiEventConsumer::new(sorted_by_ppq(to_raw_midi_events(ons))).collect();
    assert_eq!(out, buf.to_vec());
}

#[test]
fn filters_pick_their_kind() {
    let buf = vec![
        0, 0, 0, 0, 0, 3, 0, 0, 0, 0x90, 60, 100, //
        1, 0, 0, 0, 0, 3, 0, 0, 0, 0xe0, 0, 64, //
        1, 0, 0, 0, 0, 3, 0, 0, 0, 0xa0, 60, 33, //
        1, 0, 0, 0, 0, 2, 0, 0, 0, 0xc5, 12, //
        1, 0, 0, 0, 0, 3, 0, 0, 0, 0x80, 60, 0, //
        1, 0, 0, 0, 0, 4, 0, 0, 0, 0xff, 0x01, 65, 66, //
    ];
    let b = MidiEventBuilder::new(buf);
    let pb: Vec<MidiEvent<PitchBendMessage>> = b.clone().filter_pitch_bend().collect();
    assert_eq!(pb.len(), 1);
    assert_eq!(pb[0].message().raw_value(), 8192);
    assert_eq!(pb[0].ppq_position(), 1);
    let at: Vec<MidiEvent<AfterTouchMessage>> = b.clone().filter_after_touch().collect();
    assert_eq!(at[0].message().pressure(), 33);
    let pc: Vec<MidiEvent<ProgramChangeMessage>> = b.clone().filter_program_change().collect();
    assert_eq!(pc[0].message().program(), 12);
    assert_eq!(pc[0].message().channel(), 6);
    let offs: Vec<MidiEvent<NoteOffMessage>> = b.clone().filter_note_off().collect();
    assert_eq!(offs.len(), 1);
    assert_eq!(offs[0].ppq_position(), 4);
    let sys: Vec<MidiEvent<AllSysMessage>> = b.clone().filter_all_sys().collect();
    assert_eq!(sys.len(), 1);
    assert_eq!(sys[0].message().get_raw(), vec![0xff, 0x01, 65, 66]);
    let notes: Vec<MidiNoteEvent> = b.filter_notes().collect();
    assert_eq!(notes.len(), 1);
    assert_eq!((notes[0].start_in_ppq, notes[0].end_in_ppq), (0, 4));
}

#[test]
fn unmatched_note_off_gets_a_note_on_at_zero() {
    let buf = vec![5, 0, 0, 0, 0, 3, 0, 0, 0, 0x83, 61, 7];
    let notes: Vec<MidiNoteEvent> = MidiEventBuilder::new(buf).filter_notes().collect();
    assert_eq!(
        notes,
        vec![MidiNoteEvent::new(0, 5, false, false, 4, 61, 7, 7)]
    );
}

#[test]
fn notes_with_distinct_positions_roundtrip() {
    let buf = [
        10, 0, 0, 0, 1, 3, 0, 0, 0, 0x90, 60, 100, //
        5, 0, 0, 0, 1, 3, 0, 0, 0, 0x90, 62, 90, //
        5, 0, 0, 0, 1, 3, 0, 0, 0, 0x80, 62, 1, //
        5, 0, 0, 0, 1, 3, 0, 0, 0, 0x80, 60, 2, //
    ];
    let notes: Vec<MidiNoteEvent> = MidiEventBuilder::new(buf.to_vec()).filter_notes().collect();
    assert_eq!(notes[0], MidiNoteEvent::new(15, 20, true, false, 1, 62, 90, 1));
    let raw = flatten_midi_notes(notes);
    let out: Vec<u8> = MidiEventConsumer::new(sorted_by_ppq(raw)).collect();
    assert_eq!(out, buf.to_vec());
}

#[test]
fn note_parts_roundtrip() {
    let n = MidiNoteEvent::new(3, 9, true, true, 2, 70, 11, 12);
    let (on, off) = n.to_raw_parts();
    assert_eq!(on.message().get_raw(), vec![0x91, 70, 11]);
    assert_eq!(off.message().get_raw(), vec![0x81, 70, 12]);
    assert_eq!(MidiNoteEvent::from_raw_parts(on, off), n);
}

#[test]
fn pitch_bend_value_roundtrip() {
    let mut pb = PitchBendMessage::from_raw(vec![0xe3, 0, 0]).unwrap();
    for v in [0u16, 1, 127, 128, 8641, 16383, 16384, 32767] {
        pb.set_raw_value(v);
        assert_eq!(pb.raw_value(), v);
    }
    assert_eq!(pb.channel(), 4);
    pb.set_channel(1);
    assert_eq!(pb.get_raw()[0], 0xe0);
}

#[test]
fn beizer_tension_bytes_roundtrip() {
    let mut cc = CCMessage::from_raw(vec![0xb0, 1, 42]).unwrap();
    assert!(cc.beizer_tension_bytes().is_none());
    let data = (-0.55f32).to_le_bytes();
    cc.set_beizer_tension_bytes(data);
    assert_eq!(cc.beizer_tension_bytes(), Some(data));
    assert_eq!(f32::from_le_bytes(cc.beizer_tension_bytes().unwrap()), -0.55f32);
    assert_eq!(cc.get_raw()[..11].to_vec(), vec![0xb0, 1, 42, 255, 15, 67, 67, 66, 90, 32, 0]);
    let mut cp = ChannelPressureMessage::from_raw(vec![0xd2, 64]).unwrap();
    cp.set_beizer_tension_bytes([1, 2, 3, 4]);
    assert_eq!(cp.beizer_tension_bytes(), Some([1, 2, 3, 4]));
    assert_eq!(cp.pressure(), 64);
}

#[test]
fn event_setters() {
    let mut e = MidiEvent::new(1, false, false, CcShapeKind::Square, RawMidiMessage::new(vec![0xb0, 7, 100]));
    e.set_ppq_position(99);
    e.set_selected(true);
    e.set_muted(true);
    e.set_cc_shape_kind(CcShapeKind::Linear);
    assert_eq!(e.ppq_position(), 99);
    assert!(e.selected() && e.muted());
    assert_eq!(e.cc_shape_kind(), CcShapeKind::Linear);
    e.set_message(RawMidiMessage::new(vec![0xb0, 7, 1]));
    assert_eq!(e.message().get_raw(), vec![0xb0, 7, 1]);
    let cc = MidiEvent::with_new_message(e, CCMessage::from_raw(vec![0xb0, 7, 1]).unwrap());
    assert_eq!(cc.message().cc_num(), 7);
    assert_eq!(cc.ppq_position(), 99);
}

#[test]
fn note_filter_keeps_waiting_note_ons_when_done() {
    let buf = vec![
        0, 0, 0, 0, 0, 3, 0, 0, 0, 0x90, 60, 100, //
        4, 0, 0, 0, 0, 3, 0, 0, 0, 0x91, 62, 90, //
        4, 0, 0, 0, 0, 3, 0, 0, 0, 0x80, 60, 0, //
    ];
    let mut notes = MidiEventBuilder::new(buf).filter_notes();
    let first = notes.next().unwrap();
    assert_eq!((first.start_in_ppq, first.end_in_ppq), (0, 8));
    assert!(notes.next().is_none());
    assert!(notes.next().is_none());
}
