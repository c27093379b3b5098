use rea_rs::color::ThemeColor;
use rea_rs::envelope::automation_item_idx;
use rea_rs::errors::ReaperError;
use rea_rs::keys::{FVirt, KeyBinding, KeyStroke};
use rea_rs::midi_shape::CcShapeKind;
use rea_rs::misc_enums::{RecInput, RecOutMode, TrackFolderState, VUMode, AutomationMode, TimeMode};
use rea_rs::misc_types::HardwareSocket;
use rea_rs::reaper::{CommandId, SectionId};
use rea_rs::track::TrackGroupParam;
use rea_rs::utils::{project_info_string, string_from_buf, WithNull};

#[test]
fn string_from_buf_reads_up_to_terminator() {
    let buf: Vec<i8> = vec![104, 105, 0, 0, 0];
    assert_eq!(string_from_buf(&buf), Ok(String::from("hi")));
    let buf: Vec<i8> = "é".bytes().map(|b| b as i8).chain([0i8, 0]).collect();
    assert_eq!(string_from_buf(&buf), Ok(String::from("é")));
}

#[test]
fn string_from_buf_errors() {
    assert_eq!(
        string_from_buf(&[0i8]),
        Err(ReaperError::InvalidObject("buffer size must be at least 2"))
    );
    assert_eq!(
        string_from_buf(&[1i8, 2, 3]),
        Err(ReaperError::InvalidObject("Can not get value string terminator"))
    );
    assert_eq!(
        string_from_buf(&[65i8, 66, 0]),
        Err(ReaperError::UnsuccessfulOperation("Buffer is too small for value"))
    );
    assert_eq!(
        string_from_buf(&[-1i8, 0, 0]),
        Err(ReaperError::InvalidObject("Can not decode value as UTF-8"))
    );
}

#[test]
fn project_info_string_results() {
    assert_eq!(project_info_string(true, &[104i8, 105, 0, 0]), Ok(String::from("hi")));
    assert_eq!(
        project_info_string(true, &[0i8]),
        Err(ReaperError::InvalidObject("Project string buffer size must be at least 2."))
    );
    assert_eq!(
        project_info_string(false, &[104i8, 105, 0, 0]),
        Err(ReaperError::InvalidObject("Can not get Project info."))
    );
    assert_eq!(
        project_info_string(true, &[65i8, 66, 0]),
        Err(ReaperError::InvalidObject(
            "Project info string is too long for buffer. Increase it with set_string_param_size."
        ))
    );
    assert_eq!(
        project_info_string(true, &[1i8, 2, 3]),
        Err(ReaperError::InvalidObject("Can not get value string terminator"))
    );
    assert_eq!(
        project_info_string(true, &[-1i8, 0, 0]),
        Err(ReaperError::InvalidObject("Can not decode value as UTF-8"))
    );
}

#[test]
fn with_null_appends_once() {
    assert_eq!(String::from("abc").with_null(), "abc\0");
    assert_eq!(String::from("abc\0").with_null(), "abc\0");
    assert_eq!(String::new().with_null(), "\0");
}

#[test]
fn cc_shape_raw_values() {
    assert_eq!(CcShapeKind::from_raw(48), Ok(CcShapeKind::FastStart));
    assert_eq!(CcShapeKind::from_raw(80), Ok(CcShapeKind::Beizer));
    assert_eq!(CcShapeKind::Linear.to_raw(), 16);
    assert_eq!(CcShapeKind::from_raw(7), Err(String::from("not a cc shape: 7")));
    assert_eq!(CcShapeKind::from_raw(17), Err(String::from("not a cc shape: 17")));
    assert_eq!(CcShapeKind::from_raw(255), Err(String::from("not a cc shape: 255")));
    assert_eq!(CcShapeKind::from_raw(100), Err(String::from("not a cc shape: 100")));
}

#[test]
fn fvirt_flags() {
    let f = FVirt::from_bits(FVirt::FALT | FVirt::FVIRTKEY).unwrap();
    assert_eq!(f.bits(), 0x11);
    assert!(FVirt::from_bits(0x20).is_none());
    assert_eq!(FVirt::from_bits_truncate(0xff).bits(), 0x1f);
    assert!(f.contains(FVirt::from_bits_truncate(FVirt::FALT)));
    let mut g = FVirt::empty();
    g.insert(f);
    g.remove(FVirt::from_bits_truncate(FVirt::FVIRTKEY));
    assert_eq!(g.bits(), 0x10);
    assert!(FVirt::empty().is_empty());
    assert_eq!(FVirt::all().bits(), 0x1f);
    let k = KeyBinding::new(f, 65);
    assert_eq!(k.key, 65);
    assert_eq!(KeyStroke::from(-1isize).raw, u32::MAX);
}

#[test]
fn ids_convert_both_ways() {
    assert_eq!(CommandId::new(40001).get(), 40001);
    assert_eq!(CommandId::from(7).get(), 7);
    let raw: u32 = SectionId::new(32060).into();
    assert_eq!(raw, 32060);
}

#[test]
fn track_group_param_names() {
    assert_eq!(TrackGroupParam::VolumeLead.as_str(), "VOLUME_LEAD");
    assert_eq!(TrackGroupParam::VolumeVcaFollowIsprefx.as_str(), "VOLUME_VCA_FOLLOW_ISPREFX");
}

#[test]
fn rec_input_raw_values() {
    assert_eq!(RecInput::Mono(0, false).to_raw(), 0);
    assert_eq!(RecInput::from_raw(0, None), RecInput::Mono(0, false));
    let st = RecInput::Stereo(2, true);
    assert_eq!(st.clone().to_raw(), 1538);
    assert_eq!(RecInput::from_raw(1538, None), st);
    let multi = RecInput::Multichannel(4, true);
    assert_eq!(RecInput::from_raw(multi.clone().to_raw(), None), multi);
    // MIDI: channel in bits 0..5, device index in bits 5..11
    assert_eq!(RecInput::MIDI(0, None).to_raw(), 6112);
    assert_eq!(RecInput::from_raw(6112, None), RecInput::MIDI(0, None));
    assert_eq!(RecInput::from_raw(RecInput::MIDI(5, None).to_raw(), None), RecInput::MIDI(5, None));
    let kb = RecInput::from_raw(4096 | (62 << 5) | 16, None);
    assert_eq!(kb, RecInput::MIDI(16, Some(HardwareSocket::new(62, String::from("Virtual Keyboard")))));
    // a MIDI value whose index is neither 62 nor 63 takes the looked-up socket
    let sock = HardwareSocket::new(3, String::from("MIDI In"));
    let raw = RecInput::MIDI(2, Some(sock.clone())).to_raw();
    assert_eq!(raw, 4096 | (3 << 5) | 2);
    assert_eq!(RecInput::midi_hw_index(raw), 3);
    assert_eq!(RecInput::from_raw(raw, Some(sock.clone())), RecInput::MIDI(2, Some(sock)));
}

#[test]
fn track_modes_raw_values() {
    assert_eq!(RecOutMode::from_raw(2), Some(RecOutMode::PostFX));
    assert_eq!(RecOutMode::from_raw(9), None);
    assert_eq!(VUMode::from_raw(1), VUMode::Disabled);
    assert_eq!(VUMode::from_raw(12), VUMode::LUFS_M);
    assert_eq!(VUMode::LUFS_M.to_raw(), 12);
    for m in [
        VUMode::Disabled,
        VUMode::StereoPeaks,
        VUMode::MultichannelPeaks,
        VUMode::StereoRMS,
        VUMode::CombinedRMS,
        VUMode::LUFS_M,
        VUMode::LUFS_S_ReadoutMax,
        VUMode::LUFS_S_ReadoutCurrent,
        VUMode::LUFS_OnChannels_1_2,
    ] {
        assert_eq!(VUMode::from_raw(m.to_raw()), m);
    }
    assert_eq!(TrackFolderState::from_raw(1, 2), TrackFolderState::IsFolder(2));
    assert_eq!(TrackFolderState::from_raw(-2, 0), TrackFolderState::Last(2));
    assert_eq!(AutomationMode::from_int(-1), Some(AutomationMode::Off));
    assert_eq!(TimeMode::Default.int_value(), -1);
}

#[test]
fn automation_item_index_flags() {
    assert_eq!(automation_item_idx(true, None), -1);
    assert_eq!(automation_item_idx(false, None), -1);
    assert_eq!(automation_item_idx(true, Some(3)), 3);
    assert_eq!(automation_item_idx(false, Some(3)), 3 | 0x10000000);
}

#[test]
fn theme_color_names() {
    assert_eq!(ThemeColor::col_main_bg2.name(), "col_main_bg2");
    assert_eq!(ThemeColor::group_63.name(), "group_63");
}
