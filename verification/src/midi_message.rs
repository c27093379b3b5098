//! MIDI message types of the raw take-MIDI format.
use vstd::prelude::*;
use crate::bytes::{copy_bytes, copy_range, extend_bytes};

verus! {

/// Basic MIDI Message functionality.
pub trait MidiMessage: Sized {
    /// The bytes of the whole message, as `get_raw` hands them out.
    spec fn raw_view(&self) -> Seq<u8>;

    /// The bytes that `borrow_raw` lends: the message without any
    /// trailing curve data.
    spec fn borrowed_view(&self) -> Seq<u8>;

    /// `from_raw` is defined on `buf` (it reads only bytes that exist).
    spec fn parse_defined(buf: Seq<u8>) -> bool;

    /// `from_raw` accepts `buf` as a message of this type.
    spec fn accepts(buf: Seq<u8>) -> bool;

    /// How many bytes of an accepted `buf` `borrow_raw` lends.
    spec fn borrowed_len(buf: Seq<u8>) -> int;

    /// Check if raw message is of `Self` type.
    fn from_raw(buf: Vec<u8>) -> (r: Option<Self>)
        requires
            Self::parse_defined(buf@),
        ensures
            r is Some <==> Self::accepts(buf@),
            r matches Some(m) ==> m.raw_view() == buf@ && m.borrowed_view() == buf@.subrange(
                0,
                Self::borrowed_len(buf@),
            ),
    ;

    /// Copy and return raw `Vec`
    fn get_raw(&self) -> (r: Vec<u8>)
        ensures
            r@ == self.raw_view(),
    ;

    /// Borrow raw `Vec`
    fn borrow_raw(&self) -> (r: &Vec<u8>)
        ensures
            r@ == self.borrowed_view(),
    ;
}

/// The raw representation of a message of any type.
pub fn as_raw_message<T: MidiMessage>(msg: &T) -> (r: RawMidiMessage)
    ensures
        r.raw_view() == msg.raw_view(),
{
    RawMidiMessage { buf: msg.get_raw() }
}

/// A message of any kind, held as its raw bytes.
#[derive(Clone, PartialEq, Eq, Debug, Default)]
pub struct RawMidiMessage {
    buf: Vec<u8>,
}

impl MidiMessage for RawMidiMessage {
    closed spec fn raw_view(&self) -> Seq<u8> {
        self.buf@
    }

    closed spec fn borrowed_view(&self) -> Seq<u8> {
        self.buf@
    }

    open spec fn parse_defined(buf: Seq<u8>) -> bool {
        true
    }

    open spec fn accepts(buf: Seq<u8>) -> bool {
        true
    }

    open spec fn borrowed_len(buf: Seq<u8>) -> int {
        buf.len() as int
    }

    /// Always Some.
    fn from_raw(buf: Vec<u8>) -> (r: Option<Self>) {
        Some(RawMidiMessage { buf })
    }

    fn get_raw(&self) -> (r: Vec<u8>) {
        crate::bytes::copy_bytes(&self.buf)
    }

    fn borrow_raw(&self) -> (r: &Vec<u8>) {
        &self.buf
    }
}

impl RawMidiMessage {
    /// The raw message with the given bytes.
    pub fn new(buf: Vec<u8>) -> (r: Self)
        ensures
            r.raw_view() == buf@,
    {
        RawMidiMessage { buf }
    }

    /// Construct a new `RawMidiMessage` from any other message type.
    pub fn from_msg<T: MidiMessage>(value: T) -> (r: Self)
        ensures
            r.raw_view() == value.raw_view(),
    {
        RawMidiMessage { buf: value.get_raw() }
    }
}

/// A message of at most three bytes whose status byte is `status` on one
/// of the sixteen channels: from `status` to `status + 15`.
pub open spec fn short_accepts(buf: Seq<u8>, status: u8) -> bool {
    buf.len() <= 3 && status <= buf[0] && buf[0] <= status + 15
}

fn short_from(buf: &Vec<u8>, status: u8) -> (r: bool)
    requires
        buf@.len() > 0,
        status <= 0xe0,
    ensures
        r == short_accepts(buf@, status),
{
    if buf.len() > 3 {
        return false;
    }
    status <= buf[0] && buf[0] <= status + 15
}

fn channel_in(buf: &Vec<u8>, status: u8) -> (r: u8)
    requires
        buf@.len() >= 1,
        buf@[0] >= status,
        status >= 1,
    ensures
        r == buf@[0] - status + 1,
{
    buf[0] - status + 1
}

fn set_channel_in(buf: &mut Vec<u8>, status: u8, channel: u8)
    requires
        old(buf)@.len() >= 1,
        1 <= channel,
        channel - 1 + status <= 255,
    ensures
        final(buf)@ == old(buf)@.update(0, (channel - 1 + status) as u8),
{
    buf.set(0, channel - 1 + status);
}

/// The 14-bit pitch-bend value of the two data bytes.
pub open spec fn pitch_value(lsb: u8, msb: u8) -> u16 {
    ((msb as u16) << 7u16) | (lsb as u16)
}

/// A value below `0x8000` written into the two data bytes is read back
/// unchanged (the byte boundaries overlap at bit 7, which both hold).
pub proof fn law_pitch_value_roundtrip(value: u16)
    requires
        value < 0x8000,
    ensures
        pitch_value(value as u8, (value >> 7u16) as u8) == value,
{
    assert((((((value >> 7u16) as u8) as u16) << 7u16) | ((value as u8) as u16)) == value)
        by (bit_vector)
        requires
            value < 0x8000,
    ;
}

/// The tension bytes written into the curve data are read back from it.
pub proof fn law_beizer_tension_roundtrip(data: Seq<u8>)
    requires
        data.len() == 4,
    ensures
        (beizer_header() + data).len() >= 12,
        (beizer_header() + data).subrange(8, 12) == data,
{
    assert((beizer_header() + data).subrange(8, 12) =~= data);
}

/// Note-on message of one channel.
#[derive(Clone, PartialEq, Debug, Default)]
pub struct NoteOnMessage {
    buf: Vec<u8>,
}

impl MidiMessage for NoteOnMessage {
    closed spec fn raw_view(&self) -> Seq<u8> {
        self.buf@
    }

    closed spec fn borrowed_view(&self) -> Seq<u8> {
        self.buf@
    }

    open spec fn parse_defined(buf: Seq<u8>) -> bool {
        buf.len() > 0
    }

    open spec fn accepts(buf: Seq<u8>) -> bool {
        short_accepts(buf, 0x90)
    }

    open spec fn borrowed_len(buf: Seq<u8>) -> int {
        buf.len() as int
    }

    fn from_raw(buf: Vec<u8>) -> (r: Option<Self>) {
        if short_from(&buf, 0x90) {
            Some(NoteOnMessage { buf })
        } else {
            None
        }
    }

    fn get_raw(&self) -> (r: Vec<u8>) {
        copy_bytes(&self.buf)
    }

    fn borrow_raw(&self) -> (r: &Vec<u8>) {
        &self.buf
    }
}

impl NoteOnMessage {
    /// The message for a 1-based channel.
    pub fn new(channel: u8, note: u8, velocity: u8) -> (r: Self)
        requires
            0x90 + channel <= 255,
        ensures
            r.raw_view() == seq![(0x90 + channel - 1) as u8, note, velocity],
    {
        let mut buf: Vec<u8> = Vec::new();
        buf.push(0x90 + channel - 1);
        buf.push(note);
        buf.push(velocity);
        NoteOnMessage { buf }
    }

    /// Return raw representation of self.
    pub fn as_raw_message(&self) -> (r: RawMidiMessage)
        ensures
            r.raw_view() == self.raw_view(),
    {
        as_raw_message(self)
    }

    /// The 1-based channel.
    pub fn channel(&self) -> (r: u8)
        requires
            self.raw_view().len() >= 1,
            self.raw_view()[0] >= 0x90,
        ensures
            r == self.raw_view()[0] - 0x90 + 1,
    {
        channel_in(&self.buf, 0x90)
    }

    /// Sets the 1-based channel.
    pub fn set_channel(&mut self, channel: u8)
        requires
            old(self).raw_view().len() >= 1,
            1 <= channel,
            channel - 1 + 0x90 <= 255,
        ensures
            final(self).raw_view() == old(self).raw_view().update(0, (channel - 1 + 0x90) as u8),
    {
        set_channel_in(&mut self.buf, 0x90, channel)
    }

    pub fn note(&self) -> (r: u8)
        requires
            self.raw_view().len() > 1,
        ensures
            r == self.raw_view()[1],
    {
        self.buf[1]
    }

    pub fn velocity(&self) -> (r: u8)
        requires
            self.raw_view().len() > 2,
        ensures
            r == self.raw_view()[2],
    {
        self.buf[2]
    }

    pub fn set_note(&mut self, value: u8)
        requires
            old(self).raw_view().len() > 1,
        ensures
            final(self).raw_view() == old(self).raw_view().update(1, value),
    {
        self.buf.set(1, value);
    }

    pub fn set_velocity(&mut self, value: u8)
        requires
            old(self).raw_view().len() > 2,
        ensures
            final(self).raw_view() == old(self).raw_view().update(2, value),
    {
        self.buf.set(2, value);
    }

}

/// Note-off message of one channel.
#[derive(Clone, PartialEq, Debug, Default)]
pub struct NoteOffMessage {
    buf: Vec<u8>,
}

impl MidiMessage for NoteOffMessage {
    closed spec fn raw_view(&self) -> Seq<u8> {
        self.buf@
    }

    closed spec fn borrowed_view(&self) -> Seq<u8> {
        self.buf@
    }

    open spec fn parse_defined(buf: Seq<u8>) -> bool {
        buf.len() > 0
    }

    open spec fn accepts(buf: Seq<u8>) -> bool {
        short_accepts(buf, 0x80)
    }

    open spec fn borrowed_len(buf: Seq<u8>) -> int {
        buf.len() as int
    }

    fn from_raw(buf: Vec<u8>) -> (r: Option<Self>) {
        if short_from(&buf, 0x80) {
            Some(NoteOffMessage { buf })
        } else {
            None
        }
    }

    fn get_raw(&self) -> (r: Vec<u8>) {
        copy_bytes(&self.buf)
    }

    fn borrow_raw(&self) -> (r: &Vec<u8>) {
        &self.buf
    }
}

impl NoteOffMessage {
    /// The message for a 1-based channel.
    pub fn new(channel: u8, note: u8, velocity: u8) -> (r: Self)
        requires
            0x80 + channel <= 255,
        ensures
            r.raw_view() == seq![(0x80 + channel - 1) as u8, note, velocity],
    {
        let mut buf: Vec<u8> = Vec::new();
        buf.push(0x80 + channel - 1);
        buf.push(note);
        buf.push(velocity);
        NoteOffMessage { buf }
    }

    /// Return raw representation of self.
    pub fn as_raw_message(&self) -> (r: RawMidiMessage)
        ensures
            r.raw_view() == self.raw_view(),
    {
        as_raw_message(self)
    }

    /// The 1-based channel.
    pub fn channel(&self) -> (r: u8)
        requires
            self.raw_view().len() >= 1,
            self.raw_view()[0] >= 0x80,
        ensures
            r == self.raw_view()[0] - 0x80 + 1,
    {
        channel_in(&self.buf, 0x80)
    }

    /// Sets the 1-based channel.
    pub fn set_channel(&mut self, channel: u8)
        requires
            old(self).raw_view().len() >= 1,
            1 <= channel,
            channel - 1 + 0x80 <= 255,
        ensures
            final(self).raw_view() == old(self).raw_view().update(0, (channel - 1 + 0x80) as u8),
    {
        set_channel_in(&mut self.buf, 0x80, channel)
    }

    pub fn note(&self) -> (r: u8)
        requires
            self.raw_view().len() > 1,
        ensures
            r == self.raw_view()[1],
    {
        self.buf[1]
    }

    pub fn velocity(&self) -> (r: u8)
        requires
            self.raw_view().len() > 2,
        ensures
            r == self.raw_view()[2],
    {
        self.buf[2]
    }

    pub fn set_note(&mut self, value: u8)
        requires
            old(self).raw_view().len() > 1,
        ensures
            final(self).raw_view() == old(self).raw_view().update(1, value),
    {
        self.buf.set(1, value);
    }

    pub fn set_velocity(&mut self, value: u8)
        requires
            old(self).raw_view().len() > 2,
        ensures
            final(self).raw_view() == old(self).raw_view().update(2, value),
    {
        self.buf.set(2, value);
    }

}

/// Pitch-bend message of one channel.
#[derive(Clone, PartialEq, Debug, Default)]
pub struct PitchBendMessage {
    buf: Vec<u8>,
}

impl MidiMessage for PitchBendMessage {
    closed spec fn raw_view(&self) -> Seq<u8> {
        self.buf@
    }

    closed spec fn borrowed_view(&self) -> Seq<u8> {
        self.buf@
    }

    open spec fn parse_defined(buf: Seq<u8>) -> bool {
        buf.len() > 0
    }

    open spec fn accepts(buf: Seq<u8>) -> bool {
        short_accepts(buf, 0xe0)
    }

    open spec fn borrowed_len(buf: Seq<u8>) -> int {
        buf.len() as int
    }

    fn from_raw(buf: Vec<u8>) -> (r: Option<Self>) {
        if short_from(&buf, 0xe0) {
            Some(PitchBendMessage { buf })
        } else {
            None
        }
    }

    fn get_raw(&self) -> (r: Vec<u8>) {
        copy_bytes(&self.buf)
    }

    fn borrow_raw(&self) -> (r: &Vec<u8>) {
        &self.buf
    }
}

impl PitchBendMessage {
    /// Return raw representation of self.
    pub fn as_raw_message(&self) -> (r: RawMidiMessage)
        ensures
            r.raw_view() == self.raw_view(),
    {
        as_raw_message(self)
    }

    /// The 1-based channel.
    pub fn channel(&self) -> (r: u8)
        requires
            self.raw_view().len() >= 1,
            self.raw_view()[0] >= 0xe0,
        ensures
            r == self.raw_view()[0] - 0xe0 + 1,
    {
        channel_in(&self.buf, 0xe0)
    }

    /// Sets the 1-based channel.
    pub fn set_channel(&mut self, channel: u8)
        requires
            old(self).raw_view().len() >= 1,
            1 <= channel,
            channel - 1 + 0xe0 <= 255,
        ensures
            final(self).raw_view() == old(self).raw_view().update(0, (channel - 1 + 0xe0) as u8),
    {
        set_channel_in(&mut self.buf, 0xe0, channel)
    }

    /// The second byte: the low seven bits of the value.
    pub fn msg2(&self) -> (r: u8)
        requires
            self.raw_view().len() > 1,
        ensures
            r == self.raw_view()[1],
    {
        self.buf[1]
    }

    /// The third byte: the high seven bits of the value.
    pub fn msg3(&self) -> (r: u8)
        requires
            self.raw_view().len() > 2,
        ensures
            r == self.raw_view()[2],
    {
        self.buf[2]
    }

    /// combined MSB\LSB values
    pub fn raw_value(&self) -> (r: u16)
        requires
            self.raw_view().len() > 2,
        ensures
            r == pitch_value(self.raw_view()[1], self.raw_view()[2]),
    {
        (self.buf[2] as u16) << 7u16 | self.buf[1] as u16
    }

    /// The distance of the value from the middle (8192), in steps of
    /// 1/8192 of the full range.
    pub fn normalized_value_steps(&self) -> (r: i32)
        requires
            self.raw_view().len() > 2,
        ensures
            r == pitch_value(self.raw_view()[1], self.raw_view()[2]) - 8192,
    {
        self.raw_value() as i32 - 8192
    }

    /// Set u16 as combined MSB\LSB. 8192 is the middle.
    pub fn set_raw_value(&mut self, value: u16)
        requires
            old(self).raw_view().len() > 2,
        ensures
            final(self).raw_view() == old(self).raw_view().update(2, (value >> 7u16) as u8).update(
                1,
                value as u8,
            ),
    {
        self.buf.set(2, (value >> 7u16) as u8);
        self.buf.set(1, value as u8);
    }

}

/// Polyphonic after-touch message of one channel.
#[derive(Clone, PartialEq, Debug, Default)]
pub struct AfterTouchMessage {
    buf: Vec<u8>,
}

impl MidiMessage for AfterTouchMessage {
    closed spec fn raw_view(&self) -> Seq<u8> {
        self.buf@
    }

    closed spec fn borrowed_view(&self) -> Seq<u8> {
        self.buf@
    }

    open spec fn parse_defined(buf: Seq<u8>) -> bool {
        buf.len() > 0
    }

    open spec fn accepts(buf: Seq<u8>) -> bool {
        short_accepts(buf, 0xa0)
    }

    open spec fn borrowed_len(buf: Seq<u8>) -> int {
        buf.len() as int
    }

    fn from_raw(buf: Vec<u8>) -> (r: Option<Self>) {
        if short_from(&buf, 0xa0) {
            Some(AfterTouchMessage { buf })
        } else {
            None
        }
    }

    fn get_raw(&self) -> (r: Vec<u8>) {
        copy_bytes(&self.buf)
    }

    fn borrow_raw(&self) -> (r: &Vec<u8>) {
        &self.buf
    }
}

impl AfterTouchMessage {
    /// Return raw representation of self.
    pub fn as_raw_message(&self) -> (r: RawMidiMessage)
        ensures
            r.raw_view() == self.raw_view(),
    {
        as_raw_message(self)
    }

    /// The 1-based channel.
    pub fn channel(&self) -> (r: u8)
        requires
            self.raw_view().len() >= 1,
            self.raw_view()[0] >= 0xa0,
        ensures
            r == self.raw_view()[0] - 0xa0 + 1,
    {
        channel_in(&self.buf, 0xa0)
    }

    /// Sets the 1-based channel.
    pub fn set_channel(&mut self, channel: u8)
        requires
            old(self).raw_view().len() >= 1,
            1 <= channel,
            channel - 1 + 0xa0 <= 255,
        ensures
            final(self).raw_view() == old(self).raw_view().update(0, (channel - 1 + 0xa0) as u8),
    {
        set_channel_in(&mut self.buf, 0xa0, channel)
    }

    pub fn note(&self) -> (r: u8)
        requires
            self.raw_view().len() > 1,
        ensures
            r == self.raw_view()[1],
    {
        self.buf[1]
    }

    pub fn pressure(&self) -> (r: u8)
        requires
            self.raw_view().len() > 2,
        ensures
            r == self.raw_view()[2],
    {
        self.buf[2]
    }

    pub fn set_note(&mut self, value: u8)
        requires
            old(self).raw_view().len() > 1,
        ensures
            final(self).raw_view() == old(self).raw_view().update(1, value),
    {
        self.buf.set(1, value);
    }

    pub fn set_pressure(&mut self, value: u8)
        requires
            old(self).raw_view().len() > 2,
        ensures
            final(self).raw_view() == old(self).raw_view().update(2, value),
    {
        self.buf.set(2, value);
    }

}

/// Program-change message of one channel.
#[derive(Clone, PartialEq, Debug, Default)]
pub struct ProgramChangeMessage {
    buf: Vec<u8>,
}

impl MidiMessage for ProgramChangeMessage {
    closed spec fn raw_view(&self) -> Seq<u8> {
        self.buf@
    }

    closed spec fn borrowed_view(&self) -> Seq<u8> {
        self.buf@
    }

    open spec fn parse_defined(buf: Seq<u8>) -> bool {
        buf.len() > 0
    }

    open spec fn accepts(buf: Seq<u8>) -> bool {
        short_accepts(buf, 0xc0)
    }

    open spec fn borrowed_len(buf: Seq<u8>) -> int {
        buf.len() as int
    }

    fn from_raw(buf: Vec<u8>) -> (r: Option<Self>) {
        if short_from(&buf, 0xc0) {
            Some(ProgramChangeMessage { buf })
        } else {
            None
        }
    }

    fn get_raw(&self) -> (r: Vec<u8>) {
        copy_bytes(&self.buf)
    }

    fn borrow_raw(&self) -> (r: &Vec<u8>) {
        &self.buf
    }
}

impl ProgramChangeMessage {
    /// Return raw representation of self.
    pub fn as_raw_message(&self) -> (r: RawMidiMessage)
        ensures
            r.raw_view() == self.raw_view(),
    {
        as_raw_message(self)
    }

    /// The 1-based channel.
    pub fn channel(&self) -> (r: u8)
        requires
            self.raw_view().len() >= 1,
            self.raw_view()[0] >= 0xc0,
        ensures
            r == self.raw_view()[0] - 0xc0 + 1,
    {
        channel_in(&self.buf, 0xc0)
    }

    /// Sets the 1-based channel.
    pub fn set_channel(&mut self, channel: u8)
        requires
            old(self).raw_view().len() >= 1,
            1 <= channel,
            channel - 1 + 0xc0 <= 255,
        ensures
            final(self).raw_view() == old(self).raw_view().update(0, (channel - 1 + 0xc0) as u8),
    {
        set_channel_in(&mut self.buf, 0xc0, channel)
    }

    pub fn program(&self) -> (r: u8)
        requires
            self.raw_view().len() > 1,
        ensures
            r == self.raw_view()[1],
    {
        self.buf[1]
    }

    pub fn set_program(&mut self, value: u8)
        requires
            old(self).raw_view().len() > 1,
        ensures
            final(self).raw_view() == old(self).raw_view().update(1, value),
    {
        self.buf.set(1, value);
    }

}

/// The header of the system message that carries the tension of a
/// Bezier curve: 0xff 0x0f "CCBZ " and the curve type 0.
pub open spec fn beizer_header() -> Seq<u8> {
    seq![255u8, 15u8, 67u8, 67u8, 66u8, 90u8, 32u8, 0u8]
}

/// Unifies interface for events that support a Bezier CC shape.
///
/// Currently, supports [CCMessage] and [ChannelPressureMessage].
pub trait HasBeizer: MidiMessage {
    /// The bytes of the curve-data message that follows the message.
    spec fn beizer_view(&self) -> Seq<u8>;

    /// basic message buffer,
    fn msg_buf(&self) -> (r: &Vec<u8>)
        ensures
            r@ == self.borrowed_view(),
            self.raw_view() == self.borrowed_view() + self.beizer_view(),
    ;

    /// Raw Sys message for Beizer tension.
    fn beizer_buf(&self) -> (r: &Vec<u8>)
        ensures
            r@ == self.beizer_view(),
            self.raw_view() == self.borrowed_view() + self.beizer_view(),
    ;

    /// Set raw buffer message.
    fn set_beizer_buf(&mut self, buf: Vec<u8>)
        ensures
            final(self).beizer_view() == buf@,
            final(self).borrowed_view() == old(self).borrowed_view(),
            final(self).raw_view() == final(self).borrowed_view() + buf@,
    ;

    /// The four bytes of the curve tension (a little-endian `f32`), if
    /// there is curve data.
    fn beizer_tension_bytes(&self) -> (r: Option<[u8; 4]>)
        requires
            self.beizer_view().len() == 0 || self.beizer_view().len() >= 12,
        ensures
            r is None <==> self.beizer_view().len() == 0,
            r matches Some(b) ==> b@ == self.beizer_view().subrange(8, 12),
    {
        let b = self.beizer_buf();
        if b.len() == 0 {
            return None;
        }
        let out = [b[8], b[9], b[10], b[11]];
        assert(out@ =~= self.beizer_view().subrange(8, 12));
        Some(out)
    }

    /// Set the curve tension from the four bytes of a little-endian `f32`.
    fn set_beizer_tension_bytes(&mut self, data: [u8; 4])
        ensures
            final(self).beizer_view() == beizer_header() + data@,
            final(self).borrowed_view() == old(self).borrowed_view(),
    {
        let mut tension: Vec<u8> = Vec::new();
        tension.push(255);
        tension.push(15);
        tension.push(67);
        tension.push(67);
        tension.push(66);
        tension.push(90);
        tension.push(32);
        tension.push(0);
        tension.push(data[0]);
        tension.push(data[1]);
        tension.push(data[2]);
        tension.push(data[3]);
        assert(tension@ =~= beizer_header() + data@);
        self.set_beizer_buf(tension)
    }
}

/// ControlChange Message
#[derive(Clone, PartialEq, Debug, Default)]
pub struct CCMessage {
    msg_buf: Vec<u8>,
    beizer_buf: Vec<u8>,
}

impl MidiMessage for CCMessage {
    closed spec fn raw_view(&self) -> Seq<u8> {
        self.msg_buf@ + self.beizer_buf@
    }

    closed spec fn borrowed_view(&self) -> Seq<u8> {
        self.msg_buf@
    }

    open spec fn parse_defined(buf: Seq<u8>) -> bool {
        buf.len() > 0 && (0xb0 <= buf[0] < 0xb0 + 16 ==> buf.len() >= 3)
    }

    open spec fn accepts(buf: Seq<u8>) -> bool {
        0xb0 <= buf[0] < 0xb0 + 16
    }

    open spec fn borrowed_len(buf: Seq<u8>) -> int {
        3
    }

    fn from_raw(buf: Vec<u8>) -> (r: Option<Self>)
        ensures
            r matches Some(m) ==> m.borrowed_view() == buf@.subrange(0, 3) && m.beizer_view()
                == buf@.skip(3),
    {
        if !(0xb0 <= buf[0] && buf[0] < 0xb0 + 16) {
            return None;
        }
        let beizer_buf = if buf.len() == 3 {
            Vec::new()
        } else {
            copy_range(&buf, 3, buf.len())
        };
        let msg_buf = copy_range(&buf, 0, 3);
        assert(msg_buf@ + beizer_buf@ =~= buf@);
        assert(beizer_buf@ =~= buf@.skip(3));
        Some(CCMessage { msg_buf, beizer_buf })
    }

    fn get_raw(&self) -> (r: Vec<u8>) {
        let mut buf = copy_bytes(&self.msg_buf);
        extend_bytes(&mut buf, &self.beizer_buf);
        buf
    }

    fn borrow_raw(&self) -> (r: &Vec<u8>) {
        &self.msg_buf
    }
}

impl HasBeizer for CCMessage {
    closed spec fn beizer_view(&self) -> Seq<u8> {
        self.beizer_buf@
    }

    fn msg_buf(&self) -> (r: &Vec<u8>) {
        &self.msg_buf
    }

    fn beizer_buf(&self) -> (r: &Vec<u8>) {
        &self.beizer_buf
    }

    fn set_beizer_buf(&mut self, buf: Vec<u8>) {
        self.beizer_buf = buf;
    }
}

impl CCMessage {
    /// Return raw representation of self.
    pub fn as_raw_message(&self) -> (r: RawMidiMessage)
        ensures
            r.raw_view() == self.raw_view(),
    {
        as_raw_message(self)
    }

    /// The 1-based channel.
    pub fn channel(&self) -> (r: u8)
        requires
            self.borrowed_view().len() >= 1,
            self.borrowed_view()[0] >= 0xb0,
        ensures
            r == self.borrowed_view()[0] - 0xb0 + 1,
    {
        channel_in(&self.msg_buf, 0xb0)
    }

    /// Sets the 1-based channel.
    pub fn set_channel(&mut self, channel: u8)
        requires
            old(self).borrowed_view().len() >= 1,
            1 <= channel,
            channel - 1 + 0xb0 <= 255,
        ensures
            final(self).borrowed_view() == old(self).borrowed_view().update(
                0,
                (channel - 1 + 0xb0) as u8,
            ),
            final(self).beizer_view() == old(self).beizer_view(),
    {
        set_channel_in(&mut self.msg_buf, 0xb0, channel)
    }

    pub fn cc_num(&self) -> (r: u8)
        requires
            self.borrowed_view().len() > 1,
        ensures
            r == self.borrowed_view()[1],
    {
        self.msg_buf[1]
    }

    pub fn set_cc_num(&mut self, value: u8)
        requires
            old(self).borrowed_view().len() > 1,
        ensures
            final(self).borrowed_view() == old(self).borrowed_view().update(1, value),
            final(self).beizer_view() == old(self).beizer_view(),
    {
        self.msg_buf.set(1, value);
    }

    pub fn cc_val(&self) -> (r: u8)
        requires
            self.borrowed_view().len() > 2,
        ensures
            r == self.borrowed_view()[2],
    {
        self.msg_buf[2]
    }

    pub fn set_cc_val(&mut self, value: u8)
        requires
            old(self).borrowed_view().len() > 2,
        ensures
            final(self).borrowed_view() == old(self).borrowed_view().update(2, value),
            final(self).beizer_view() == old(self).beizer_view(),
    {
        self.msg_buf.set(2, value);
    }

}

/// Channel-pressure message, with optional curve data.
#[derive(Clone, PartialEq, Debug, Default)]
pub struct ChannelPressureMessage {
    msg_buf: Vec<u8>,
    beizer_buf: Vec<u8>,
}

impl MidiMessage for ChannelPressureMessage {
    closed spec fn raw_view(&self) -> Seq<u8> {
        self.msg_buf@ + self.beizer_buf@
    }

    closed spec fn borrowed_view(&self) -> Seq<u8> {
        self.msg_buf@
    }

    open spec fn parse_defined(buf: Seq<u8>) -> bool {
        buf.len() > 0 && (0xd0 <= buf[0] <= 0xd0 + 15 ==> buf.len() >= 2)
    }

    open spec fn accepts(buf: Seq<u8>) -> bool {
        0xd0 <= buf[0] <= 0xd0 + 15
    }

    open spec fn borrowed_len(buf: Seq<u8>) -> int {
        2
    }

    fn from_raw(buf: Vec<u8>) -> (r: Option<Self>)
        ensures
            r matches Some(m) ==> m.borrowed_view() == buf@.subrange(0, 2) && m.beizer_view()
                == buf@.skip(2),
    {
        if !(0xd0 <= buf[0] && buf[0] <= 0xd0 + 15) {
            return None;
        }
        let beizer_buf = if buf.len() == 2 {
            Vec::new()
        } else {
            copy_range(&buf, 2, buf.len())
        };
        let msg_buf = copy_range(&buf, 0, 2);
        assert(msg_buf@ + beizer_buf@ =~= buf@);
        assert(beizer_buf@ =~= buf@.skip(2));
        Some(ChannelPressureMessage { msg_buf, beizer_buf })
    }

    fn get_raw(&self) -> (r: Vec<u8>) {
        let mut buf = copy_bytes(&self.msg_buf);
        extend_bytes(&mut buf, &self.beizer_buf);
        buf
    }

    fn borrow_raw(&self) -> (r: &Vec<u8>) {
        &self.msg_buf
    }
}

impl HasBeizer for ChannelPressureMessage {
    closed spec fn beizer_view(&self) -> Seq<u8> {
        self.beizer_buf@
    }

    fn msg_buf(&self) -> (r: &Vec<u8>) {
        &self.msg_buf
    }

    fn beizer_buf(&self) -> (r: &Vec<u8>) {
        &self.beizer_buf
    }

    fn set_beizer_buf(&mut self, buf: Vec<u8>) {
        self.beizer_buf = buf;
    }
}

impl ChannelPressureMessage {
    /// Return raw representation of self.
    pub fn as_raw_message(&self) -> (r: RawMidiMessage)
        ensures
            r.raw_view() == self.raw_view(),
    {
        as_raw_message(self)
    }

    /// The 1-based channel.
    pub fn channel(&self) -> (r: u8)
        requires
            self.borrowed_view().len() >= 1,
            self.borrowed_view()[0] >= 0xd0,
        ensures
            r == self.borrowed_view()[0] - 0xd0 + 1,
    {
        channel_in(&self.msg_buf, 0xd0)
    }

    /// Sets the 1-based channel.
    pub fn set_channel(&mut self, channel: u8)
        requires
            old(self).borrowed_view().len() >= 1,
            1 <= channel,
            channel - 1 + 0xd0 <= 255,
        ensures
            final(self).borrowed_view() == old(self).borrowed_view().update(
                0,
                (channel - 1 + 0xd0) as u8,
            ),
            final(self).beizer_view() == old(self).beizer_view(),
    {
        set_channel_in(&mut self.msg_buf, 0xd0, channel)
    }

    pub fn pressure(&self) -> (r: u8)
        requires
            self.borrowed_view().len() > 1,
        ensures
            r == self.borrowed_view()[1],
    {
        self.msg_buf[1]
    }

    pub fn set_pressure(&mut self, value: u8)
        requires
            old(self).borrowed_view().len() > 1,
        ensures
            final(self).borrowed_view() == old(self).borrowed_view().update(1, value),
            final(self).beizer_view() == old(self).beizer_view(),
    {
        self.msg_buf.set(1, value);
    }

}

/// Represents all types of Sys messages, starting from `0xf0`
#[derive(Clone, PartialEq, Debug, Default)]
pub struct AllSysMessage {
    buf: Vec<u8>,
}

impl MidiMessage for AllSysMessage {
    closed spec fn raw_view(&self) -> Seq<u8> {
        self.buf@
    }

    closed spec fn borrowed_view(&self) -> Seq<u8> {
        self.buf@
    }

    open spec fn parse_defined(buf: Seq<u8>) -> bool {
        buf.len() > 0
    }

    open spec fn accepts(buf: Seq<u8>) -> bool {
        buf[0] >= 0xf0
    }

    open spec fn borrowed_len(buf: Seq<u8>) -> int {
        buf.len() as int
    }

    fn from_raw(buf: Vec<u8>) -> (r: Option<Self>)
        ensures
            r matches Some(m) ==> m.borrowed_view() == buf@,
    {
        if buf[0] < 0xf0 {
            return None;
        }
        Some(AllSysMessage { buf })
    }

    fn get_raw(&self) -> (r: Vec<u8>) {
        copy_bytes(&self.buf)
    }

    fn borrow_raw(&self) -> (r: &Vec<u8>) {
        &self.buf
    }
}

impl AllSysMessage {
    /// Return raw representation of self.
    pub fn as_raw_message(&self) -> (r: RawMidiMessage)
        ensures
            r.raw_view() == self.raw_view(),
    {
        as_raw_message(self)
    }
}

/// Which raw messages each kind takes, by its status byte, channel 1 to
/// 16 in the low four bits: note-off `0x8_`, note-on `0x9_`, aftertouch
/// `0xA_`, control change `0xB_`, program change `0xC_`, channel pressure
/// `0xD_`, pitch bend `0xE_`, and system messages from `0xF0` on. Note,
/// aftertouch, program change and pitch-bend messages are at most three
/// bytes long.
pub proof fn law_message_kinds_by_status(buf: Seq<u8>)
    ensures
        NoteOffMessage::accepts(buf) <==> (buf.len() <= 3 && 0x80 <= buf[0] <= 0x8f),
        NoteOnMessage::accepts(buf) <==> (buf.len() <= 3 && 0x90 <= buf[0] <= 0x9f),
        AfterTouchMessage::accepts(buf) <==> (buf.len() <= 3 && 0xa0 <= buf[0] <= 0xaf),
        CCMessage::accepts(buf) <==> 0xb0 <= buf[0] <= 0xbf,
        ProgramChangeMessage::accepts(buf) <==> (buf.len() <= 3 && 0xc0 <= buf[0] <= 0xcf),
        ChannelPressureMessage::accepts(buf) <==> 0xd0 <= buf[0] <= 0xdf,
        PitchBendMessage::accepts(buf) <==> (buf.len() <= 3 && 0xe0 <= buf[0] <= 0xef),
        AllSysMessage::accepts(buf) <==> buf[0] >= 0xf0,
        RawMidiMessage::accepts(buf),
{
}

/// The pitch-bend value is the two data bytes read as one 14-bit number,
/// the second byte high: 128 times the second plus the first.
pub proof fn law_pitch_value_is_14_bit(lsb: u8, msb: u8)
    requires
        lsb < 128,
        msb < 128,
    ensures
        pitch_value(lsb, msb) == msb * 128 + lsb,
{
    assert(((msb as u16) << 7u16) | (lsb as u16) == msb * 128 + lsb) by (bit_vector)
        requires
            lsb < 128,
            msb < 128,
    ;
}

} // verus!
