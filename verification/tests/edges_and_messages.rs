use std::time::Duration;

use rea_rs::errors::ReaperError;
use rea_rs::midi_event::MidiEvent;
use rea_rs::midi_flatten::{sorted_by_ppq, to_raw_midi_events};
use rea_rs::midi_message::{
    AllSysMessage, ChannelPressureMessage, MidiMessage, NoteOnMessage, RawMidiMessage,
};
use rea_rs::midi_raw::MidiEventBuilder;
use rea_rs::midi_shape::CcShapeKind;
use rea_rs::midi_text::Notation;
use rea_rs::misc_types::{Position, SampleAmount};
use rea_rs::source_offset::SourceOffset;

#[test]
fn note_on_of_channel_sixteen_is_kept() {
    let buf = vec![0, 0, 0, 0, 0, 3, 0, 0, 0, 159, 60, 100];
    let ons: Vec<MidiEvent<NoteOnMessage>> = MidiEventBuilder::new(buf).filter_note_on().collect();
    assert_eq!(ons.len(), 1);
    assert_eq!(ons[0].ppq_position(), 0);
    assert_eq!(ons[0].message().get_raw(), vec![159, 60, 100]);
    assert_eq!(ons[0].message().channel(), 16);
}

#[test]
fn channel_pressure_of_channel_sixteen_is_kept() {
    let buf = vec![
        4, 0, 0, 0, 0, 2, 0, 0, 0, 0xdf, 77, //
        1, 0, 0, 0, 0, 2, 0, 0, 0, 0xd0, 5, //
    ];
    let cps: Vec<MidiEvent<ChannelPressureMessage>> =
        MidiEventBuilder::new(buf).filter_channel_pressure().collect();
    assert_eq!(cps.len(), 2);
    assert_eq!(cps[0].message().channel(), 16);
    assert_eq!(cps[0].message().pressure(), 77);
    assert_eq!(cps[1].message().channel(), 1);
    assert_eq!(cps[1].ppq_position(), 5);
}

#[test]
fn short_system_events_are_kept() {
    let buf = vec![
        0, 0, 0, 0, 0, 3, 0, 0, 0, 0x90, 60, 100, //
        9, 0, 0, 0, 0, 3, 0, 0, 0, 255, 47, 0, //
    ];
    let sys: Vec<MidiEvent<AllSysMessage>> = MidiEventBuilder::new(buf).filter_all_sys().collect();
    assert_eq!(sys.len(), 1);
    assert_eq!(sys[0].ppq_position(), 9);
    assert_eq!(sys[0].message().get_raw(), vec![255, 47, 0]);
}

#[test]
fn sorting_keeps_order_at_one_position() {
    let e = |ppq: u32, b: u8| {
        MidiEvent::new(ppq, false, false, CcShapeKind::Square, RawMidiMessage::new(vec![0x90, b, 1]))
    };
    let events = vec![e(5, 1), e(0, 2), e(5, 3), e(0, 4), e(5, 5)];
    let sorted: Vec<MidiEvent<RawMidiMessage>> = sorted_by_ppq(events);
    let keys: Vec<(u32, u8)> =
        sorted.iter().map(|ev| (ev.ppq_position(), ev.message().get_raw()[1])).collect();
    assert_eq!(keys, vec![(0, 2), (0, 4), (5, 1), (5, 3), (5, 5)]);
    let again: Vec<MidiEvent<RawMidiMessage>> = sorted_by_ppq(to_raw_midi_events(sorted.clone()));
    assert_eq!(again, sorted);
}

#[test]
fn sample_time_values_and_roundtrip() {
    assert_eq!(SampleAmount::new(44100).as_time(44100), Duration::from_secs(1));
    assert_eq!(SampleAmount::from_time(Duration::from_secs(1), 44100).get(), 44100);
    for (amount, rate) in [(44100u32, 44100u32), (1, 48000), (12345, 96000), (7, 3)] {
        let s = SampleAmount::new(amount);
        let back = SampleAmount::from_time(s.as_time(rate), rate).get();
        assert!(back <= amount);
    }
    assert_eq!(SampleAmount::from_time(Duration::from_micros(999), 1000).get(), 0);
}

#[test]
fn notation_as_tokens_string_values() {
    let n = Notation::Note { channel: 10, note: 64, tokens: vec![String::from("a")] };
    assert_eq!(n.as_tokens_string(), "NOTE 9 64 a");
    let t = Notation::Track(vec![String::from("x"), String::from("y")]);
    assert_eq!(t.as_tokens_string(), "TRAC x y");
    assert_eq!(Notation::Unknown(vec![]).as_tokens_string(), "");
}

#[test]
fn reaper_error_messages() {
    assert_eq!(ReaperError::Unexpected.message(), "Unexpected error happened.");
    assert_eq!(ReaperError::UserAborted.message(), "User aborted operation.");
    assert_eq!(ReaperError::InvalidObject("track").message(), "Invalid object: track");
    assert_eq!(ReaperError::UnsuccessfulOperation("save").message(), "Unsuccessful operation: save");
    assert_eq!(ReaperError::NullPtr.message(), "NullPtr!");
    assert_eq!(ReaperError::Str("plain").message(), "plain");
}

#[test]
fn source_offset_arithmetic_and_conversions() {
    let two = SourceOffset::from_duration(Duration::from_secs(2));
    assert_eq!(two.get(), 2_000_000_000);
    let back = SourceOffset::from_nanos(-2_543_000_000).unwrap();
    assert_eq!(back.as_duration(), Duration::from_millis(2543));
    assert_eq!(back.as_position(), Position::new(Duration::from_millis(2543)));
    let sum = two.add_offset(back);
    assert_eq!(sum.get(), -543_000_000);
    assert_eq!(sum.sub_offset(back), two);
    assert_eq!(two.add_duration(Duration::from_millis(500)).get(), 2_500_000_000);
    assert_eq!(two.sub_duration(Duration::from_secs(3)).get(), -1_000_000_000);
    assert_eq!(SourceOffset::from_position(Position::new(Duration::from_micros(7))).get(), 7_000);
    assert!(back < two);
    let max: i128 = 9_223_372_036_854_775_807_000_000;
    assert!(SourceOffset::from_nanos(max).is_some());
    assert!(SourceOffset::from_nanos(-max).is_some());
    assert!(SourceOffset::from_nanos(max + 1).is_none());
    assert!(SourceOffset::from_nanos(-max - 1).is_none());
    assert!(SourceOffset::checked_from_duration(Duration::from_secs(u64::MAX)).is_none());
    assert_eq!(
        SourceOffset::checked_from_duration(Duration::new(5, 7)).map(|o| o.get()),
        Some(5_000_000_007)
    );
}
