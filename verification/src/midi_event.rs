//! Timed MIDI events of a take.
use vstd::prelude::*;
use crate::midi_message::{MidiMessage, NoteOffMessage, NoteOnMessage, RawMidiMessage};
use crate::midi_shape::CcShapeKind;

verus! {

/// What an event is, in the model: its position, flags, shape and the
/// bytes of its message.
pub struct EventView {
    pub ppq: u32,
    pub selected: bool,
    pub muted: bool,
    pub shape: CcShapeKind,
    pub msg: Seq<u8>,
}

impl EventView {
    /// The same event carrying other message bytes.
    pub open spec fn with_msg(self, msg: Seq<u8>) -> EventView {
        EventView { msg, ..self }
    }
}

/// Generic Midi event, that easily converted to the binary format.
#[derive(Clone, PartialEq, Debug, Default)]
pub struct MidiEvent<T: MidiMessage> {
    position_in_ppq: u32,
    is_selected: bool,
    is_muted: bool,
    cc_shape_kind: CcShapeKind,
    message: T,
}

impl<T: MidiMessage> View for MidiEvent<T> {
    type V = EventView;

    closed spec fn view(&self) -> EventView {
        EventView {
            ppq: self.position_in_ppq,
            selected: self.is_selected,
            muted: self.is_muted,
            shape: self.cc_shape_kind,
            msg: self.message.raw_view(),
        }
    }
}

impl<T: MidiMessage> MidiEvent<T> {
    /// The message the event carries.
    pub closed spec fn spec_message(&self) -> T {
        self.message
    }

    /// The message bytes of an event are those of its message.
    pub proof fn lemma_view_msg(&self)
        ensures
            self@.msg == self.spec_message().raw_view(),
    {
    }

    /// Position in ppq depends on Take.
    pub fn new(
        position_in_ppq: u32,
        is_selected: bool,
        is_muted: bool,
        cc_shape_kind: CcShapeKind,
        message: T,
    ) -> (r: Self)
        ensures
            r@ == (EventView {
                ppq: position_in_ppq,
                selected: is_selected,
                muted: is_muted,
                shape: cc_shape_kind,
                msg: message.raw_view(),
            }),
            r.spec_message() == message,
    {
        MidiEvent { position_in_ppq, is_selected, is_muted, cc_shape_kind, message }
    }

    /// Morph Event to be of other type, replacing its message. Other
    /// contents are moved and copied.
    pub fn with_new_message<S: MidiMessage>(event: MidiEvent<S>, message: T) -> (r: Self)
        ensures
            r@ == event@.with_msg(message.raw_view()),
            r.spec_message() == message,
    {
        MidiEvent {
            position_in_ppq: event.ppq_position(),
            is_selected: event.selected(),
            is_muted: event.muted(),
            cc_shape_kind: event.cc_shape_kind(),
            message,
        }
    }

    pub fn ppq_position(&self) -> (r: u32)
        ensures
            r == self@.ppq,
    {
        self.position_in_ppq
    }

    pub fn set_ppq_position(&mut self, position: u32)
        ensures
            final(self)@ == (EventView { ppq: position, ..old(self)@ }),
            final(self).spec_message() == old(self).spec_message(),
    {
        self.position_in_ppq = position;
    }

    pub fn selected(&self) -> (r: bool)
        ensures
            r == self@.selected,
    {
        self.is_selected
    }

    pub fn set_selected(&mut self, selected: bool)
        ensures
            final(self)@ == (EventView { selected, ..old(self)@ }),
            final(self).spec_message() == old(self).spec_message(),
    {
        self.is_selected = selected;
    }

    pub fn muted(&self) -> (r: bool)
        ensures
            r == self@.muted,
    {
        self.is_muted
    }

    pub fn set_muted(&mut self, muted: bool)
        ensures
            final(self)@ == (EventView { muted, ..old(self)@ }),
            final(self).spec_message() == old(self).spec_message(),
    {
        self.is_muted = muted;
    }

    pub fn cc_shape_kind(&self) -> (r: CcShapeKind)
        ensures
            r == self@.shape,
    {
        self.cc_shape_kind
    }

    pub fn set_cc_shape_kind(&mut self, cc_shape_kind: CcShapeKind)
        ensures
            final(self)@ == (EventView { shape: cc_shape_kind, ..old(self)@ }),
            final(self).spec_message() == old(self).spec_message(),
    {
        self.cc_shape_kind = cc_shape_kind;
    }

    pub fn message(&self) -> (r: &T)
        ensures
            *r == self.spec_message(),
            r.raw_view() == self@.msg,
    {
        &self.message
    }

    pub fn message_mut(&mut self) -> (r: &mut T)
        ensures
            *r == old(self).spec_message(),
            final(self).spec_message() == *final(r),
            final(self)@ == old(self)@.with_msg(final(r).raw_view()),
    {
        &mut self.message
    }

    pub fn set_message(&mut self, message: T)
        ensures
            final(self)@ == old(self)@.with_msg(message.raw_view()),
            final(self).spec_message() == message,
    {
        self.message = message;
    }
}

/// Special Event type, holds Midi Notes, representing 2 raw Events
#[derive(Clone, Copy, PartialEq, Eq, Structural, Debug, Default)]
pub struct MidiNoteEvent {
    pub start_in_ppq: u32,
    pub end_in_ppq: u32,
    pub is_selected: bool,
    pub is_muted: bool,
    /// 1-based
    pub channel: u8,
    pub note: u8,
    pub on_velocity: u8,
    pub off_velocity: u8,
}

/// The note event made of a note-on and a note-off event.
pub open spec fn note_of(on: EventView, off: EventView) -> MidiNoteEvent {
    MidiNoteEvent {
        start_in_ppq: on.ppq,
        end_in_ppq: off.ppq,
        is_selected: on.selected,
        is_muted: on.muted,
        channel: (on.msg[0] - 0x90 + 1) as u8,
        note: on.msg[1],
        on_velocity: on.msg[2],
        off_velocity: off.msg[2],
    }
}

/// The note-on event of a note.
pub open spec fn note_on_view(n: MidiNoteEvent) -> EventView {
    EventView {
        ppq: n.start_in_ppq,
        selected: n.is_selected,
        muted: n.is_muted,
        shape: CcShapeKind::Square,
        msg: seq![(0x90 + n.channel - 1) as u8, n.note, n.on_velocity],
    }
}

/// The note-off event of a note.
pub open spec fn note_off_view(n: MidiNoteEvent) -> EventView {
    EventView {
        ppq: n.end_in_ppq,
        selected: n.is_selected,
        muted: n.is_muted,
        shape: CcShapeKind::Square,
        msg: seq![(0x80 + n.channel - 1) as u8, n.note, n.off_velocity],
    }
}

impl MidiNoteEvent {
    pub fn new(
        start_in_ppq: u32,
        end_in_ppq: u32,
        is_selected: bool,
        is_muted: bool,
        channel: u8,
        note: u8,
        on_velocity: u8,
        off_velocity: u8,
    ) -> (r: Self)
        ensures
            r == (MidiNoteEvent {
                start_in_ppq,
                end_in_ppq,
                is_selected,
                is_muted,
                channel,
                note,
                on_velocity,
                off_velocity,
            }),
    {
        MidiNoteEvent {
            start_in_ppq,
            end_in_ppq,
            is_selected,
            is_muted,
            channel,
            note,
            on_velocity,
            off_velocity,
        }
    }

    /// The note made of a note-on and a note-off of the same channel and
    /// note.
    pub fn from_raw_parts(
        note_on: MidiEvent<NoteOnMessage>,
        note_off: MidiEvent<NoteOffMessage>,
    ) -> (r: Self)
        requires
            note_on@.msg.len() == 3,
            note_off@.msg.len() == 3,
            note_on@.msg[0] >= 0x90,
            note_off@.msg[0] >= 0x80,
            note_on@.msg[0] - 0x90 == note_off@.msg[0] - 0x80,
            note_on@.msg[1] == note_off@.msg[1],
        ensures
            r == note_of(note_on@, note_off@),
    {
        let on = note_on.message();
        let off = note_off.message();
        MidiNoteEvent::new(
            note_on.ppq_position(),
            note_off.ppq_position(),
            note_on.selected(),
            note_on.muted(),
            on.channel(),
            on.note(),
            on.velocity(),
            off.velocity(),
        )
    }

    /// The note-on and note-off events of the note.
    pub fn to_raw_parts(&self) -> (r: (MidiEvent<NoteOnMessage>, MidiEvent<NoteOffMessage>))
        requires
            0x90 + self.channel <= 255,
        ensures
            r.0@ == note_on_view(*self),
            r.1@ == note_off_view(*self),
    {
        let on = MidiEvent::new(
            self.start_in_ppq,
            self.is_selected,
            self.is_muted,
            CcShapeKind::Square,
            NoteOnMessage::new(self.channel, self.note, self.on_velocity),
        );
        let off = MidiEvent::new(
            self.end_in_ppq,
            self.is_selected,
            self.is_muted,
            CcShapeKind::Square,
            NoteOffMessage::new(self.channel, self.note, self.off_velocity),
        );
        (on, off)
    }
}

/// Splitting a note into its note-on and note-off events and joining
/// them again gives the same note.
pub proof fn law_note_parts_roundtrip(n: MidiNoteEvent)
    requires
        1 <= n.channel,
        0x90 + n.channel <= 255,
    ensures
        note_of(note_on_view(n), note_off_view(n)) == n,
{
}

} // verus!
