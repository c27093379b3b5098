//! Pairing note-on and note-off events of a raw take-MIDI buffer into
//! notes.
use vstd::prelude::*;
use crate::bytes::copy_bytes;
use crate::midi_event::{note_of, EventView, MidiEvent, MidiNoteEvent};
use crate::midi_filter::lemma_builder_next_events;
use crate::midi_message::{MidiMessage, NoteOffMessage, NoteOnMessage};
use crate::midi_raw::{stream_ok, views, MidiEventBuilder};

verus! {

/// The message is a note-on.
pub open spec fn is_note_on(msg: Seq<u8>) -> bool {
    NoteOnMessage::accepts(msg)
}

/// The message is a note-off.
pub open spec fn is_note_off(msg: Seq<u8>) -> bool {
    NoteOffMessage::accepts(msg)
}

/// Every message has a status byte, and every note message has its three
/// bytes. A note-on shorter than that is refused even where no note-off
/// would ever pair it, since whether one does depends on the events after
/// it; paired, its velocity could not be read.
pub open spec fn notes_defined(es: Seq<EventView>) -> bool {
    forall|i: int|
        0 <= i < es.len() ==> (#[trigger] es[i].msg).len() > 0 && (is_note_on(es[i].msg)
            || is_note_off(es[i].msg) ==> es[i].msg.len() == 3)
}

/// Every waiting event is a full note-on.
pub open spec fn pending_ok(pending: Seq<EventView>) -> bool {
    forall|i: int|
        0 <= i < pending.len() ==> is_note_on((#[trigger] pending[i]).msg) && pending[i].msg.len()
            == 3
}

/// A note-on and a note-off of the same channel and note.
pub open spec fn matches_off(on: EventView, off: EventView) -> bool {
    on.msg[1] == off.msg[1] && on.msg[0] - 0x90 + 1 == off.msg[0] - 0x80 + 1
}

/// The first waiting note-on, from `i` on, that a note-off ends.
pub open spec fn first_match_from(pending: Seq<EventView>, off: EventView, i: int) -> Option<int>
    decreases pending.len() - i,
{
    if i < 0 || i >= pending.len() {
        None
    } else if matches_off(pending[i], off) {
        Some(i)
    } else {
        first_match_from(pending, off, i + 1)
    }
}

/// The note-on that stands in for a note-off that no waiting note-on
/// matches: the same channel, note and velocity, at position 0.
pub open spec fn stand_in_on(off: EventView) -> EventView {
    EventView { ppq: 0, msg: seq![(off.msg[0] + 0x10) as u8, off.msg[1], off.msg[2]], ..off }
}

/// The waiting note-ons after the one at `j` is taken out: the last one
/// takes its place.
pub open spec fn take_out(pending: Seq<EventView>, j: int) -> Seq<EventView> {
    pending.update(j, pending.last()).drop_last()
}

/// The next note read from `es` with `pending` note-ons waiting; the
/// events after it; and the note-ons then waiting.
pub open spec fn notes_next(es: Seq<EventView>, pending: Seq<EventView>) -> (
    Option<MidiNoteEvent>,
    Seq<EventView>,
    Seq<EventView>,
)
    decreases es.len(),
{
    if es.len() == 0 {
        (None, es, pending)
    } else {
        let e = es[0];
        let rest = es.drop_first();
        if is_note_on(e.msg) {
            notes_next(rest, pending.push(e))
        } else if is_note_off(e.msg) {
            match first_match_from(pending, e, 0) {
                Some(j) => (Some(note_of(pending[j], e)), rest, take_out(pending, j)),
                None => (Some(note_of(stand_in_on(e), e)), rest, pending),
            }
        } else {
            notes_next(rest, pending)
        }
    }
}

/// All the notes read from `es` with `pending` note-ons waiting.
pub open spec fn notes_all(es: Seq<EventView>, pending: Seq<EventView>) -> Seq<MidiNoteEvent>
    decreases es.len(),
{
    if es.len() == 0 {
        seq![]
    } else {
        let e = es[0];
        let rest = es.drop_first();
        if is_note_on(e.msg) {
            notes_all(rest, pending.push(e))
        } else if is_note_off(e.msg) {
            match first_match_from(pending, e, 0) {
                Some(j) => seq![note_of(pending[j], e)] + notes_all(rest, take_out(pending, j)),
                None => seq![note_of(stand_in_on(e), e)] + notes_all(rest, pending),
            }
        } else {
            notes_all(rest, pending)
        }
    }
}

proof fn lemma_first_match(pending: Seq<EventView>, off: EventView, i: int)
    requires
        0 <= i,
    ensures
        first_match_from(pending, off, i) matches Some(j) ==> i <= j < pending.len()
            && matches_off(pending[j], off),
    decreases pending.len() - i,
{
    if i < pending.len() && !matches_off(pending[i], off) {
        lemma_first_match(pending, off, i + 1);
    }
}

/// Where a note-off ends a waiting note-on, that one is of the same
/// channel and note.
pub proof fn lemma_first_match_pub(pending: Seq<EventView>, off: EventView, i: int)
    requires
        0 <= i,
    ensures
        first_match_from(pending, off, i) matches Some(j) ==> i <= j < pending.len()
            && matches_off(pending[j], off),
{
    lemma_first_match(pending, off, i);
}

/// A note-off ends the earliest waiting note-on, in the order they wait,
/// of its own channel and note: none before it is of that channel and
/// note. Where none waits, it ends none.
pub proof fn law_note_off_ends_earliest_waiting(pending: Seq<EventView>, off: EventView, i: int)
    requires
        0 <= i,
    ensures
        match first_match_from(pending, off, i) {
            Some(j) => {
                &&& i <= j < pending.len()
                &&& pending[j].msg[1] == off.msg[1]
                &&& pending[j].msg[0] - 0x90 == off.msg[0] - 0x80
                &&& forall|k: int|
                    i <= k < j ==> !(#[trigger] pending[k].msg[1] == off.msg[1] && pending[k].msg[0]
                        - 0x90 == off.msg[0] - 0x80)
            },
            None => forall|k: int|
                i <= k < pending.len() ==> !(#[trigger] pending[k].msg[1] == off.msg[1]
                    && pending[k].msg[0] - 0x90 == off.msg[0] - 0x80),
        },
    decreases pending.len() - i,
{
    if i < pending.len() {
        law_note_off_ends_earliest_waiting(pending, off, i + 1);
    }
}

/// The note a note-off gives when it is read: it ends at the note-off, has
/// its channel, note and release velocity, and starts where the earliest
/// waiting note-on of that channel and note stands, with that note-on's
/// velocity, selection and mute. With none waiting, it starts at position
/// 0 and takes the note-off's velocity for both.
pub proof fn law_note_ended_by_note_off(es: Seq<EventView>, pending: Seq<EventView>, j: int)
    requires
        es.len() > 0,
        es[0].msg.len() == 3,
        0x80 <= es[0].msg[0] <= 0x8f,
    ensures
        notes_next(es, pending).0 is Some,
        ({
            let n = notes_next(es, pending).0.unwrap();
            let off = es[0];
            &&& n.end_in_ppq == off.ppq
            &&& n.note == off.msg[1]
            &&& n.channel == off.msg[0] - 0x80 + 1
            &&& n.off_velocity == off.msg[2]
            &&& (0 <= j < pending.len() && pending[j].msg.len() == 3 && pending[j].msg[1]
                == off.msg[1] && pending[j].msg[0] - 0x90 == off.msg[0] - 0x80 && (forall|k: int|
                0 <= k < j ==> !(#[trigger] pending[k].msg[1] == off.msg[1] && pending[k].msg[0]
                - 0x90 == off.msg[0] - 0x80))) ==> {
                &&& n.start_in_ppq == pending[j].ppq
                &&& n.on_velocity == pending[j].msg[2]
                &&& n.is_selected == pending[j].selected
                &&& n.is_muted == pending[j].muted
            }
            &&& (forall|k: int|
                0 <= k < pending.len() ==> !(#[trigger] pending[k].msg[1] == off.msg[1]
                    && pending[k].msg[0] - 0x90 == off.msg[0] - 0x80)) ==> {
                &&& n.start_in_ppq == 0
                &&& n.on_velocity == off.msg[2]
                &&& n.is_selected == off.selected
                &&& n.is_muted == off.muted
            }
        }),
{
    let off = es[0];
    assert(!is_note_on(off.msg));
    assert(is_note_off(off.msg));
    law_note_off_ends_earliest_waiting(pending, off, 0);
    match first_match_from(pending, off, 0) {
        Some(m) => {
            if 0 <= j < pending.len() && pending[j].msg[1] == off.msg[1] && pending[j].msg[0]
                - 0x90 == off.msg[0] - 0x80 && (forall|k: int|
                0 <= k < j ==> !(#[trigger] pending[k].msg[1] == off.msg[1] && pending[k].msg[0]
                - 0x90 == off.msg[0] - 0x80)) {
                assert(m == j);
            }
        },
        None => {},
    }
}

proof fn lemma_notes_next(es: Seq<EventView>, pending: Seq<EventView>)
    requires
        notes_defined(es),
        pending_ok(pending),
    ensures
        ({
            let (h, rest, p2) = notes_next(es, pending);
            &&& notes_defined(rest)
            &&& pending_ok(p2)
            &&& (h is Some ==> rest.len() < es.len())
            &&& match h {
                Some(n) => notes_all(es, pending) == seq![n] + notes_all(rest, p2),
                None => notes_all(es, pending) == Seq::<MidiNoteEvent>::empty(),
            }
        }),
    decreases es.len(),
{
    if es.len() > 0 {
        let e = es[0];
        let rest = es.drop_first();
        assert(notes_defined(rest)) by {
            assert forall|i: int| 0 <= i < rest.len() implies (#[trigger] rest[i].msg).len() > 0
                && (is_note_on(rest[i].msg) || is_note_off(rest[i].msg) ==> rest[i].msg.len() == 3) by {
                assert(rest[i] == es[i + 1]);
            }
        }
        if is_note_on(e.msg) {
            assert(es[0].msg.len() > 0);
            assert(pending_ok(pending.push(e))) by {
                assert forall|i: int| 0 <= i < pending.push(e).len() implies is_note_on(
                    (#[trigger] pending.push(e)[i]).msg,
                ) && pending.push(e)[i].msg.len() == 3 by {
                    if i < pending.len() {
                        assert(pending.push(e)[i] == pending[i]);
                    }
                }
            }
            lemma_notes_next(rest, pending.push(e));
        } else if is_note_off(e.msg) {
            lemma_first_match(pending, e, 0);
            match first_match_from(pending, e, 0) {
                Some(j) => {
                    assert(pending_ok(take_out(pending, j))) by {
                        let t = take_out(pending, j);
                        assert forall|i: int| 0 <= i < t.len() implies is_note_on(
                            (#[trigger] t[i]).msg,
                        ) && t[i].msg.len() == 3 by {
                            if i == j {
                                assert(t[i] == pending[pending.len() - 1]);
                            } else {
                                assert(t[i] == pending[i]);
                            }
                        }
                    }
                },
                None => {},
            }
        } else {
            lemma_notes_next(rest, pending);
        }
    }
}

/// Iterates through Note events.
pub struct FilterNotes {
    midi_events: MidiEventBuilder,
    note_ons: Vec<MidiEvent<NoteOnMessage>>,
}

impl FilterNotes {
    /// The builder the events are read from.
    pub closed spec fn source(self) -> MidiEventBuilder {
        self.midi_events
    }

    /// The note-ons read and waiting for their note-offs.
    pub closed spec fn pending(self) -> Seq<EventView> {
        views(self.note_ons@)
    }

    /// Everything can be read: every read of the buffer is defined, note
    /// messages have their three bytes, and the waiting events are full
    /// note-ons.
    pub open spec fn ready(self) -> bool {
        stream_ok(self.source().rest(), self.source().ppq()) && notes_defined(
            self.source().events(),
        ) && pending_ok(self.pending())
    }

    pub fn new(events: MidiEventBuilder) -> (r: Self)
        ensures
            r.source() == events,
            r.pending() == Seq::<EventView>::empty(),
    {
        let r = FilterNotes { midi_events: events, note_ons: Vec::new() };
        assert(views(r.note_ons@) =~= Seq::<EventView>::empty());
        r
    }

    fn find_on(&self, off: &MidiEvent<NoteOffMessage>) -> (r: Option<usize>)
        requires
            pending_ok(self.pending()),
            off@.msg.len() == 3,
            is_note_off(off@.msg),
        ensures
            match r {
                Some(j) => first_match_from(self.pending(), off@, 0) == Some(j as int),
                None => first_match_from(self.pending(), off@, 0) is None,
            },
    {
        let ghost pend = self.pending();
        let note = off.message().note();
        let channel = off.message().channel();
        let mut j: usize = 0;
        while j < self.note_ons.len()
            invariant
                pend == views(self.note_ons@),
                pending_ok(pend),
                j <= pend.len(),
                off@.msg.len() == 3,
                is_note_off(off@.msg),
                note == off@.msg[1],
                channel == off@.msg[0] - 0x80 + 1,
                first_match_from(pend, off@, 0) == first_match_from(pend, off@, j as int),
            decreases pend.len() - j,
        {
            let on = &self.note_ons[j];
            assert(on@ == pend[j as int]);
            assert(pend[j as int].msg.len() == 3 && is_note_on(pend[j as int].msg));
            if on.message().note() == note && on.message().channel() == channel {
                return Some(j);
            }
            j = j + 1;
        }
        None
    }

    /// Reads events until a note-off ends a note, and gives that note.
    pub fn next(&mut self) -> (r: Option<MidiNoteEvent>)
        requires
            old(self).ready(),
        ensures
            r is Some <==> notes_next(old(self).source().events(), old(self).pending()).0 is Some,
            r is Some ==> final(self).ready() && (
            r,
            final(self).source().events(),
            final(self).pending(),
            ) == notes_next(old(self).source().events(), old(self).pending()),
            r is None ==> final(self).pending() == notes_next(
                old(self).source().events(),
                old(self).pending(),
            ).2,
    {
        loop
            invariant
                self.ready(),
                notes_next(self.source().events(), self.pending()) == notes_next(
                    old(self).source().events(),
                    old(self).pending(),
                ),
            decreases self.midi_events.rest().len(),
        {
            let ghost s = self.midi_events.rest();
            let ghost p = self.midi_events.ppq();
            let ghost es = self.midi_events.events();
            let ghost pend = self.pending();
            match self.midi_events.next() {
                None => {
                    assert(es =~= Seq::<EventView>::empty());
                    return None;
                },
                Some(item) => {
                    proof {
                        lemma_builder_next_events(s, p);
                        assert(es.drop_first() =~= self.midi_events.events());
                        assert(notes_defined(self.midi_events.events())) by {
                            let r = self.midi_events.events();
                            assert forall|i: int| 0 <= i < r.len() implies (#[trigger] r[i].msg).len()
                                > 0 && (is_note_on(r[i].msg) || is_note_off(r[i].msg) ==> r[i].msg.len()
                                == 3) by {
                                assert(r[i] == es[i + 1]);
                            }
                        }
                        assert(es[0].msg.len() > 0);
                    }
                    let raw = item.message().get_raw();
                    match NoteOnMessage::from_raw(copy_bytes(&raw)) {
                        Some(msg) => {
                            let ghost before = self.note_ons@;
                            self.note_ons.push(MidiEvent::with_new_message(item, msg));
                            proof {
                                assert(views(self.note_ons@) =~= views(before).push(es[0]));
                                assert(pending_ok(self.pending())) by {
                                    let q = self.pending();
                                    assert forall|i: int| 0 <= i < q.len() implies is_note_on(
                                        (#[trigger] q[i]).msg,
                                    ) && q[i].msg.len() == 3 by {
                                        if i < pend.len() {
                                            assert(q[i] == pend[i]);
                                        }
                                    }
                                }
                            }
                        },
                        None => {
                            match NoteOffMessage::from_raw(raw) {
                                None => {},
                                Some(msg) => {
                                    let off = MidiEvent::with_new_message(item, msg);
                                    assert(off@ == es[0]);
                                    let found = self.find_on(&off);
                                    let on = match found {
                                        Some(j) => {
                                            proof {
                                                lemma_first_match(pend, off@, 0);
                                            }
                                            let ghost before = self.note_ons@;
                                            let on = self.note_ons.swap_remove(j);
                                            proof {
                                                assert(views(self.note_ons@) =~= take_out(
                                                    pend,
                                                    j as int,
                                                ));
                                                assert(on@ == pend[j as int]);
                                                let t = take_out(pend, j as int);
                                                assert(pending_ok(t)) by {
                                                    assert forall|i: int| 0 <= i < t.len() implies is_note_on(
                                                        (#[trigger] t[i]).msg,
                                                    ) && t[i].msg.len() == 3 by {
                                                        if i == j {
                                                            assert(t[i] == pend[pend.len() - 1]);
                                                        } else {
                                                            assert(t[i] == pend[i]);
                                                        }
                                                    }
                                                }
                                            }
                                            on
                                        },
                                        None => {
                                            let m = off.message();
                                            let stand_in = NoteOnMessage::new(
                                                m.channel(),
                                                m.note(),
                                                m.velocity(),
                                            );
                                            let on = MidiEvent::new(
                                                0,
                                                off.selected(),
                                                off.muted(),
                                                off.cc_shape_kind(),
                                                stand_in,
                                            );
                                            assert(on@.msg =~= stand_in_on(off@).msg);
                                            on
                                        },
                                    };
                                    return Some(MidiNoteEvent::from_raw_parts(on, off));
                                },
                            }
                        },
                    }
                },
            }
        }
    }

    /// All the notes.
    pub fn collect(self) -> (r: Vec<MidiNoteEvent>)
        requires
            self.ready(),
        ensures
            r@ == notes_all(self.source().events(), self.pending()),
    {
        let mut me = self;
        let mut out: Vec<MidiNoteEvent> = Vec::new();
        let ghost all = notes_all(me.source().events(), me.pending());
        loop
            invariant_except_break
                me.ready(),
                out@ + notes_all(me.source().events(), me.pending()) == all,
            ensures
                out@ == all,
            decreases me.source().events().len(),
        {
            proof {
                lemma_notes_next(me.source().events(), me.pending());
            }
            match me.next() {
                None => {
                    assert(out@ =~= all);
                    break;
                },
                Some(n) => {
                    let ghost old_out = out@;
                    out.push(n);
                    assert(out@ + notes_all(me.source().events(), me.pending()) =~= all);
                },
            }
        }
        out
    }
}

impl MidiEventBuilder {
    /// Iter only through [MidiNoteEvent]
    pub fn filter_notes(self) -> (r: FilterNotes)
        ensures
            r.source() == self,
            r.pending() == Seq::<EventView>::empty(),
    {
        FilterNotes::new(self)
    }
}

} // verus!
