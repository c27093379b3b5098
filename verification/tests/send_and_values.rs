use rea_rs::misc_types::{HardwareSocket, PositionPixel, DimensionsPixel, RectPixel, SampleAmount, TimeSignature, Position, PanLawMode, GetLength};
use rea_rs::send::{EnvelopeChunk, SendDestChannels, SendMIDIProps, SendMode, SendSourceChannels};
use rea_rs::take::{TakeChannelMode, TakePitchMode};
use rea_rs::render::{RenderMode, RenderSettings, RenderTailFlags, BoundsMode, render_targets};
use std::time::Duration;

#[test]
fn send_mode_raw_values() {
    assert_eq!(SendMode::PostFader.to_raw(), 0);
    assert_eq!(SendMode::PreFx.to_raw(), 1);
    assert_eq!(SendMode::PostFx.to_raw(), 3);
    assert_eq!(SendMode::from_raw(2), SendMode::PostFx);
    for m in [SendMode::PostFader, SendMode::PreFx, SendMode::PostFx] {
        assert_eq!(SendMode::from_raw(m.to_raw()), m);
    }
}

#[test]
fn send_channels_bits() {
    let ch = SendSourceChannels::new(2, true);
    assert_eq!(ch.to_bits(), 1026);
    assert_eq!(SendSourceChannels::from_bits(1026), ch);
    assert_eq!(SendSourceChannels::from_bits(5), SendSourceChannels::new(5, false));
    let d = SendDestChannels::new(4, true, true);
    assert_eq!(d.to_bits(), 4 | 1024 | 512);
    assert_eq!(SendDestChannels::from_bits(d.to_bits()), d);
    assert_eq!(SendDestChannels::from(ch), SendDestChannels::new(2, true, false));
    let back: SendSourceChannels = d.into();
    assert_eq!(back, SendSourceChannels::new(4, true));
}

#[test]
fn send_midi_props_bits() {
    let properties = SendMIDIProps::new(2, 5, 16, 16);
    let bits = properties.to_bits();
    assert_eq!(bits, (2 << 14) | 5 | (16 << 22) | (16 << 5));
    assert_eq!(SendMIDIProps::from_bits(bits), properties);
    assert_eq!(SendMIDIProps::from_bits(0), SendMIDIProps::new(0, 0, 0, 0));
}

#[test]
fn envelope_chunk_names() {
    assert_eq!(EnvelopeChunk::Volume.to_string(), "<VOLENV2");
    assert_eq!(EnvelopeChunk::VolumePreFx.to_string(), "<VOLENV");
    assert_eq!(EnvelopeChunk::TrimVolume.to_string(), "<VOLENV3");
}

#[test]
fn pitch_mode_raw_values() {
    let m = TakePitchMode::new(6, 1234);
    assert_eq!(m.as_raw(), (6 << 15) | 1234);
    let back = TakePitchMode::from_raw(m.as_raw());
    assert_eq!(back.shifter(), 6);
    assert_eq!(back.parameter(), 1234);
    // an odd shifter's low bit lands in the parameter's bit 15
    let odd = TakePitchMode::from_raw(TakePitchMode::new(7, 1).as_raw());
    assert_eq!(odd.shifter(), 7);
    assert_eq!(odd.parameter(), 0x8001);
}

#[test]
fn int_enums_convert_both_ways() {
    assert_eq!(TakeChannelMode::from_int(4), Some(TakeChannelMode::Right));
    assert_eq!(TakeChannelMode::from_int(5), None);
    assert_eq!(TakeChannelMode::DownMix.int_value(), 2);
    assert_eq!(PanLawMode::from_int(3), Some(PanLawMode::HybridTaper));
    assert_eq!(BoundsMode::SelectedRegions.int_value(), 5);
    assert_eq!(RenderMode::from_int(32), Some(RenderMode::SelectedItems));
    assert_eq!(RenderMode::from_int(16), None);
}

#[test]
fn render_settings_raw_values() {
    let s = RenderSettings::new(RenderMode::Stems, true, true);
    assert_eq!(s.to_raw(), 2 | 16);
    assert_eq!(RenderSettings::from_raw(s.to_raw()), RenderSettings::new(RenderMode::Stems, true, false));
    let f = RenderTailFlags::from_bits(RenderTailFlags::IN_TIME_SELECTION | RenderTailFlags::IN_ALL_REGIONS).unwrap();
    assert_eq!(f.bits(), 12);
    assert!(RenderTailFlags::from_bits(64).is_none());
    assert_eq!(RenderTailFlags::from_bits_truncate(64 | 1).bits(), 1);
    assert!(f.contains(RenderTailFlags::from_bits_truncate(4)));
}

#[test]
fn sample_amount_conversions() {
    assert_eq!(SampleAmount::from_time(Duration::from_millis(2500), 48000).get(), 120000);
    assert_eq!(SampleAmount::from_micros(1_000_000, 44100).get(), 44100);
    assert_eq!(SampleAmount::new(44100).as_micros(44100), 1_000_000);
    assert_eq!(SampleAmount::new(22050).as_time(44100), Duration::from_millis(500));
}

#[test]
fn socket_and_geometry() {
    let s = HardwareSocket::new(3, String::from("Out 3"));
    assert_eq!(s.index(), 3);
    assert_eq!(s.name(), "Out 3");
    let r = RectPixel::new(10, 20, 30, 40);
    assert_eq!((r.left(), r.top(), r.right(), r.bot()), (10, 20, 40, 60));
    assert_eq!(r.position(), PositionPixel { x: 10, y: 20 });
    assert_eq!(r.dimensions(), DimensionsPixel { width: 30, height: 40 });
    assert_eq!(TimeSignature::new(7, 8).get(), (7, 8));
    let p = Position::new(Duration::from_secs(3));
    assert_eq!(p.as_duration(), Duration::from_secs(3));
    assert_eq!(Duration::from_secs(2).get_length(p), Duration::from_secs(2));
}

#[test]
fn render_targets_split_at_semicolons() {
    assert_eq!(render_targets("a.wav;b.wav"), vec![String::from("a.wav"), String::from("b.wav")]);
    assert_eq!(render_targets(""), vec![String::new()]);
    assert_eq!(render_targets("x;;y;"), vec!["x", "", "y", ""]);
    assert_eq!(render_targets("ünï.wav"), vec![String::from("ünï.wav")]);
}
