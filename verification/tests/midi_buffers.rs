use rea_rs::midi_event::{MidiEvent, MidiNoteEvent};
use rea_rs::midi_flatten::{flatten_events_with_beizer_curve, flatten_midi_notes, sorted_by_ppq, to_raw_midi_events};
use rea_rs::midi_message::{CCMessage, ChannelPressureMessage, MidiMessage, PitchBendMessage};
use rea_rs::midi_raw::{MidiEventBuilder, MidiEventConsumer};

#[test]
fn test_pb_values() {
    let mut pb = PitchBendMessage::from_raw(vec![224, 65, 67]).unwrap();
    assert_eq!(pb.msg2(), 65);
    assert_eq!(pb.msg3(), 67);
    assert_eq!(pb.raw_value(), 8641);
    assert_eq!(pb.normalized_value_steps() as f64 / 8192.0, 0.0548095703125);
    pb.set_raw_value(8192);
    assert_eq!(pb.raw_value(), 8192);
    assert_eq!(pb.normalized_value_steps() as f64 / 8192.0, 0.0);
    pb.set_raw_value(16384);
    assert_eq!(pb.raw_value(), 16384);
    assert_eq!(pb.normalized_value_steps() as f64 / 8192.0, 1.0);
    pb.set_raw_value((-0.5f64 * 8192.0 + 8192.0) as u16);
    assert_eq!(pb.raw_value(), 4096);
}

#[test]
fn test_flatten_notes() {
    let notes_buf = [
        30, 0, 0, 0, 0, 3, 0, 0, 0, 144, 61, 96, //
        30, 0, 0, 0, 0, 3, 0, 0, 0, 144, 57, 96, //
        80, 0, 0, 0, 0, 3, 0, 0, 0, 128, 61, 0, //
        30, 0, 0, 0, 0, 3, 0, 0, 0, 144, 64, 96, //
        57, 0, 0, 0, 0, 3, 0, 0, 0, 128, 57, 0, //
        0, 0, 0, 0, 0, 3, 0, 0, 0, 128, 64, 0, //
        120, 0, 0, 0, 0, 3, 0, 0, 0, 144, 59, 96, //
        0, 0, 0, 0, 0, 3, 0, 0, 0, 128, 59, 0,
    ];
    let events = MidiEventBuilder::new(notes_buf.clone().to_vec());
    println!("not_filtered events: {:?}", events.clone().collect());
    println!("\n----NOTE EVENTS----");
    let note_events: Vec<MidiNoteEvent> = events.clone().filter_notes().collect();
    for event in note_events.iter() {
        println!("{:?}", event);
    }
    let raw_events = to_raw_midi_events(flatten_midi_notes(note_events));
    let raw_buf: Vec<u8> = MidiEventConsumer::new(sorted_by_ppq(raw_events)).collect();
    println!("{:?}", raw_buf);
    assert_eq!(notes_buf.len(), raw_buf.len(), "No equal length!");
    for (idx, (left, right)) in notes_buf.into_iter().zip(raw_buf).enumerate() {
        println!("[{}], left: {}, right: {}", idx, left, right);
        assert_eq!(left, right, "assert failed at index: {}", idx);
    }
}

#[test]
fn test_flatten_beizer_at_cc() {
    let cc_buf = [
        56, 4, 0, 0, 0, 3, 0, 0, 0, 176, 1, 42, //
        120, 0, 0, 0, 0, 3, 0, 0, 0, 176, 1, 76, //
        120, 0, 0, 0, 80, 3, 0, 0, 0, 176, 1, 78, //
        0, 0, 0, 0, 0, 12, 0, 0, 0, 255, 15, 67, 67, 66, 90, 32, 0, 205, 204, 12, 191, 120, //
        0, 0, 0, 0, 3, 0, 0, 0, 176, 2, 74, //
    ];
    let events = MidiEventBuilder::new(cc_buf.clone().to_vec());
    println!("\n----CC EVENTS----");
    let cc_events: Vec<MidiEvent<CCMessage>> = events.clone().filter_cc().collect();
    for event in cc_events.iter() {
        println!("{:?}", event);
    }
    let raw_events = to_raw_midi_events(flatten_events_with_beizer_curve(cc_events));
    let raw_buf: Vec<u8> = MidiEventConsumer::new(sorted_by_ppq(raw_events)).collect();
    println!("{:?}", raw_buf);
    assert_eq!(cc_buf.len(), raw_buf.len(), "No equal length!");
    for (idx, (left, right)) in cc_buf.into_iter().zip(raw_buf).enumerate() {
        println!("[{}], left: {}, right: {}", idx, left, right);
        assert_eq!(left, right, "assert failed at index: {}", idx);
    }
}

#[test]
fn test_flatten_beizer_at_ch_pr() {
    let ch_pr_buf = [
        0, 0, 0, 0, 48, 2, 0, 0, 0, 208, 64, //
        120, 0, 0, 0, 80, 2, 0, 0, 0, 208, 104, //
        0, 0, 0, 0, 0, 12, 0, 0, 0, 255, 15, 67, 67, 66, 90, 32, 0, 133, 235, 81, 63, //
        3, 0, 0, 0, 48, 2, 0, 0, 0, 208, 64,
    ];
    let events = MidiEventBuilder::new(ch_pr_buf.clone().to_vec());
    println!("not_filtered events: {:?}", events.clone().collect());
    println!("\n----ChannelPressure EVENTS----");
    let cc_events: Vec<MidiEvent<ChannelPressureMessage>> =
        events.clone().filter_channel_pressure().collect();
    for event in cc_events.iter() {
        println!("{:?}", event);
    }
    let raw_events = to_raw_midi_events(flatten_events_with_beizer_curve(cc_events));
    let raw_buf: Vec<u8> = MidiEventConsumer::new(sorted_by_ppq(raw_events)).collect();
    println!("{:?}", raw_buf);
    assert_eq!(ch_pr_buf.len(), raw_buf.len(), "No equal length!");
    for (idx, (left, right)) in ch_pr_buf.into_iter().zip(raw_buf).enumerate() {
        println!("[{}], left: {}, right: {}", idx, left, right);
        assert_eq!(left, right, "assert failed at index: {}", idx);
    }
}

#[test]
fn test_flatten_beizer_both() {
    let ch_pr_buf = [
        56, 4, 0, 0, 0, 3, 0, 0, 0, 176, 1, 42, //
        120, 0, 0, 0, 0, 3, 0, 0, 0, 176, 1, 76, //
        1, 0, 0, 0, 48, 2, 0, 0, 0, 208, 64, //
        120, 0, 0, 0, 80, 2, 0, 0, 0, 208, 104, //
        0, 0, 0, 0, 0, 12, 0, 0, 0, 255, 15, 67, 67, 66, 90, 32, 0, 133, 235, 81, 63, //
        120, 0, 0, 0, 80, 3, 0, 0, 0, 176, 1, 78, //
        0, 0, 0, 0, 0, 12, 0, 0, 0, 255, 15, 67, 67, 66, 90, 32, 0, 205, 204, 12, 191, 120, //
        0, 0, 0, 0, 3, 0, 0, 0, 176, 2, 74, //
        3, 0, 0, 0, 48, 2, 0, 0, 0, 208, //
        64, 120, 0, 0, 0, 80, 3, 0, 0, 0, 176, 1, 74, //
        0, 0, 0, 0, 0, 12, 0, 0, 0, 255, 15, 67, 67, 66, 90, 32, 0, 205, 204, 12, 191, //
        10, 0, 0, 0, 48, 2, 0, 0, 0, 208, 64,
    ];
    let events = MidiEventBuilder::new(ch_pr_buf.clone().to_vec());
    println!("not_filtered events: {:?}", events.clone().collect());
    println!("\n----ChannelPressure EVENTS----");
    let ch_pr_events: Vec<MidiEvent<ChannelPressureMessage>> =
        events.clone().filter_channel_pressure().collect();
    for event in ch_pr_events.iter() {
        println!("{:?}", event);
    }
    println!("\n----CC EVENTS----");
    let cc_events: Vec<MidiEvent<CCMessage>> = events.clone().filter_cc().collect();
    for event in cc_events.iter() {
        println!("{:?}", event);
    }
    let mut flat = flatten_events_with_beizer_curve(ch_pr_events);
    flat.extend(flatten_events_with_beizer_curve(cc_events));
    let raw_events = to_raw_midi_events(flat);
    let raw_buf: Vec<u8> = MidiEventConsumer::new(sorted_by_ppq(raw_events)).collect();
    println!("{:?}", raw_buf);
    assert_eq!(ch_pr_buf.len(), raw_buf.len(), "No equal length!");
    for (idx, (left, right)) in ch_pr_buf.into_iter().zip(raw_buf).enumerate() {
        println!("[{}], left: {}, right: {}", idx, left, right);
        assert_eq!(left, right, "assert failed at index: {}", idx);
    }
}
