//! Reading only the events of one kind out of a raw take-MIDI buffer.
use vstd::prelude::*;
use crate::midi_event::{EventView, MidiEvent};
use crate::midi_message::{
    AfterTouchMessage, AllSysMessage, CCMessage, ChannelPressureMessage, MidiMessage,
    NoteOffMessage, NoteOnMessage, PitchBendMessage, ProgramChangeMessage, RawMidiMessage,
};
use crate::midi_raw::{parse_all, step, stream_ok, views, MidiEventBuilder};
use crate::midi_shape::CcShapeKind;

verus! {

/// The view of an optional event.
pub open spec fn opt_view<T: MidiMessage>(r: Option<MidiEvent<T>>) -> Option<EventView> {
    match r {
        Some(e) => Some(e@),
        None => None,
    }
}

/// Every message in `es` can be handed to `T::from_raw`.
pub open spec fn all_defined<T: MidiMessage>(es: Seq<EventView>) -> bool {
    forall|i: int| 0 <= i < es.len() ==> T::parse_defined(#[trigger] es[i].msg)
}

/// The first event of `es` whose message is a `T`, and the events after
/// it.
pub open spec fn next_accepted<T: MidiMessage>(es: Seq<EventView>) -> (Option<EventView>, Seq<
    EventView,
>)
    decreases es.len(),
{
    if es.len() == 0 {
        (None, es)
    } else if T::accepts(es[0].msg) {
        (Some(es[0]), es.drop_first())
    } else {
        next_accepted::<T>(es.drop_first())
    }
}

/// The events of `es` whose messages are `T`s, in order.
pub open spec fn filter_accepted<T: MidiMessage>(es: Seq<EventView>) -> Seq<EventView>
    decreases es.len(),
{
    if es.len() == 0 {
        seq![]
    } else if T::accepts(es[0].msg) {
        seq![es[0]] + filter_accepted::<T>(es.drop_first())
    } else {
        filter_accepted::<T>(es.drop_first())
    }
}

/// Taking the first accepted event off, then filtering the rest, filters
/// the whole.
pub proof fn lemma_filter_accepted_next<T: MidiMessage>(es: Seq<EventView>)
    ensures
        ({
            let (h, rest) = next_accepted::<T>(es);
            &&& rest.len() <= es.len()
            &&& (h is Some ==> rest.len() < es.len())
            &&& (forall|i: int| 0 <= i < rest.len() ==> #[trigger] rest[i] == es[es.len() - rest.len() + i])
            &&& match h {
                Some(e) => filter_accepted::<T>(es) == seq![e] + filter_accepted::<T>(rest),
                None => filter_accepted::<T>(es) == Seq::<EventView>::empty(),
            }
        }),
    decreases es.len(),
{
    if es.len() > 0 && !T::accepts(es[0].msg) {
        lemma_filter_accepted_next::<T>(es.drop_first());
    }
}

/// The events still to come in a builder: every read is defined, and
/// every message can be handed to `T::from_raw`.
pub open spec fn builder_ready<T: MidiMessage>(b: MidiEventBuilder) -> bool {
    stream_ok(b.rest(), b.ppq()) && all_defined::<T>(b.events())
}

/// A read from a builder that gives an event leaves the events after it.
pub proof fn lemma_builder_next_events(s: Seq<u8>, p: u32)
    requires
        stream_ok(s, p),
        step(s, p).event is Some,
        0 < step(s, p).consumed <= s.len(),
    ensures
        parse_all(s, p) == seq![step(s, p).event.unwrap()] + parse_all(
            s.skip(step(s, p).consumed),
            step(s, p).ppq,
        ),
        stream_ok(s.skip(step(s, p).consumed), step(s, p).ppq),
{
}

/// Reads events until one is a `T`.
fn next_of<T: MidiMessage>(b: &mut MidiEventBuilder) -> (r: Option<MidiEvent<T>>)
    requires
        builder_ready::<T>(*old(b)),
    ensures
        r is Some <==> next_accepted::<T>(old(b).events()).0 is Some,
        r is Some ==> builder_ready::<T>(*final(b)) && (opt_view(r), final(b).events())
            == next_accepted::<T>(old(b).events()),
{
    loop
        invariant
            builder_ready::<T>(*b),
            next_accepted::<T>(b.events()) == next_accepted::<T>(old(b).events()),
        decreases b.rest().len(),
    {
        let ghost s = b.rest();
        let ghost p = b.ppq();
        let ghost es = b.events();
        match b.next() {
            None => {
                assert(es =~= Seq::<EventView>::empty());
                return None;
            },
            Some(item) => {
                proof {
                    lemma_builder_next_events(s, p);
                    assert(es.drop_first() =~= b.events());
                    assert(all_defined::<T>(b.events())) by {
                        assert forall|i: int| 0 <= i < b.events().len() implies T::parse_defined(
                            #[trigger] b.events()[i].msg,
                        ) by {
                            assert(b.events()[i] == es[i + 1]);
                        }
                    }
                    assert(T::parse_defined(es[0].msg));
                }
                let raw = item.message().get_raw();
                match T::from_raw(raw) {
                    None => {},
                    Some(m) => {
                        return Some(MidiEvent::with_new_message(item, m));
                    },
                }
            },
        }
    }
}

/// Reads all the events that are `T`s.
fn collect_of<T: MidiMessage>(b: MidiEventBuilder) -> (r: Vec<MidiEvent<T>>)
    requires
        builder_ready::<T>(b),
    ensures
        views(r@) == filter_accepted::<T>(b.events()),
{
    let mut b = b;
    let mut out: Vec<MidiEvent<T>> = Vec::new();
    let ghost all = filter_accepted::<T>(b.events());
    loop
        invariant_except_break
            builder_ready::<T>(b),
            views(out@) + filter_accepted::<T>(b.events()) == all,
        ensures
            views(out@) == all,
        decreases b.events().len(),
    {
        let ghost es = b.events();
        proof {
            lemma_filter_accepted_next::<T>(es);
        }
        match next_of::<T>(&mut b) {
            None => {
                assert(views(out@) =~= all);
                break;
            },
            Some(e) => {
                let ghost old_out = out@;
                out.push(e);
                assert(views(out@) =~= views(old_out).push(e@));
                assert(views(out@) + filter_accepted::<T>(b.events()) =~= all);
            },
        }
    }
    out
}

/// Iterates through Note On events.
pub struct FilterNoteOn {
    midi_events: MidiEventBuilder,
}

impl FilterNoteOn {
    /// The builder the events are read from.
    pub closed spec fn source(self) -> MidiEventBuilder {
        self.midi_events
    }

    /// Reads events until one is a Note On message.
    pub fn next(&mut self) -> (r: Option<MidiEvent<NoteOnMessage>>)
        requires
            builder_ready::<NoteOnMessage>(old(self).source()),
        ensures
            r is Some <==> next_accepted::<NoteOnMessage>(old(self).source().events()).0 is Some,
            r is Some ==> builder_ready::<NoteOnMessage>(final(self).source()) && (
            opt_view(r),
            final(self).source().events(),
            ) == next_accepted::<NoteOnMessage>(old(self).source().events()),
    {
        next_of::<NoteOnMessage>(&mut self.midi_events)
    }

    /// All the Note On events.
    pub fn collect(self) -> (r: Vec<MidiEvent<NoteOnMessage>>)
        requires
            builder_ready::<NoteOnMessage>(self.source()),
        ensures
            views(r@) == filter_accepted::<NoteOnMessage>(self.source().events()),
    {
        collect_of::<NoteOnMessage>(self.midi_events)
    }
}

/// Iterates through Note Off events.
pub struct FilterNoteOff {
    midi_events: MidiEventBuilder,
}

impl FilterNoteOff {
    /// The builder the events are read from.
    pub closed spec fn source(self) -> MidiEventBuilder {
        self.midi_events
    }

    /// Reads events until one is a Note Off message.
    pub fn next(&mut self) -> (r: Option<MidiEvent<NoteOffMessage>>)
        requires
            builder_ready::<NoteOffMessage>(old(self).source()),
        ensures
            r is Some <==> next_accepted::<NoteOffMessage>(old(self).source().events()).0 is Some,
            r is Some ==> builder_ready::<NoteOffMessage>(final(self).source()) && (
            opt_view(r),
            final(self).source().events(),
            ) == next_accepted::<NoteOffMessage>(old(self).source().events()),
    {
        next_of::<NoteOffMessage>(&mut self.midi_events)
    }

    /// All the Note Off events.
    pub fn collect(self) -> (r: Vec<MidiEvent<NoteOffMessage>>)
        requires
            builder_ready::<NoteOffMessage>(self.source()),
        ensures
            views(r@) == filter_accepted::<NoteOffMessage>(self.source().events()),
    {
        collect_of::<NoteOffMessage>(self.midi_events)
    }
}

/// Iterates through Pitch Bend events.
pub struct FilterPitchBend {
    midi_events: MidiEventBuilder,
}

impl FilterPitchBend {
    /// The builder the events are read from.
    pub closed spec fn source(self) -> MidiEventBuilder {
        self.midi_events
    }

    /// Reads events until one is a Pitch Bend message.
    pub fn next(&mut self) -> (r: Option<MidiEvent<PitchBendMessage>>)
        requires
            builder_ready::<PitchBendMessage>(old(self).source()),
        ensures
            r is Some <==> next_accepted::<PitchBendMessage>(old(self).source().events()).0 is Some,
            r is Some ==> builder_ready::<PitchBendMessage>(final(self).source()) && (
            opt_view(r),
            final(self).source().events(),
            ) == next_accepted::<PitchBendMessage>(old(self).source().events()),
    {
        next_of::<PitchBendMessage>(&mut self.midi_events)
    }

    /// All the Pitch Bend events.
    pub fn collect(self) -> (r: Vec<MidiEvent<PitchBendMessage>>)
        requires
            builder_ready::<PitchBendMessage>(self.source()),
        ensures
            views(r@) == filter_accepted::<PitchBendMessage>(self.source().events()),
    {
        collect_of::<PitchBendMessage>(self.midi_events)
    }
}

/// Iterates through After Touch events.
pub struct FilterAfterTouch {
    midi_events: MidiEventBuilder,
}

impl FilterAfterTouch {
    /// The builder the events are read from.
    pub closed spec fn source(self) -> MidiEventBuilder {
        self.midi_events
    }

    /// Reads events until one is a After Touch message.
    pub fn next(&mut self) -> (r: Option<MidiEvent<AfterTouchMessage>>)
        requires
            builder_ready::<AfterTouchMessage>(old(self).source()),
        ensures
            r is Some <==> next_accepted::<AfterTouchMessage>(old(self).source().events()).0 is Some,
            r is Some ==> builder_ready::<AfterTouchMessage>(final(self).source()) && (
            opt_view(r),
            final(self).source().events(),
            ) == next_accepted::<AfterTouchMessage>(old(self).source().events()),
    {
        next_of::<AfterTouchMessage>(&mut self.midi_events)
    }

    /// All the After Touch events.
    pub fn collect(self) -> (r: Vec<MidiEvent<AfterTouchMessage>>)
        requires
            builder_ready::<AfterTouchMessage>(self.source()),
        ensures
            views(r@) == filter_accepted::<AfterTouchMessage>(self.source().events()),
    {
        collect_of::<AfterTouchMessage>(self.midi_events)
    }
}

/// Iterates through Program Change events.
pub struct FilterProgramChange {
    midi_events: MidiEventBuilder,
}

impl FilterProgramChange {
    /// The builder the events are read from.
    pub closed spec fn source(self) -> MidiEventBuilder {
        self.midi_events
    }

    /// Reads events until one is a Program Change message.
    pub fn next(&mut self) -> (r: Option<MidiEvent<ProgramChangeMessage>>)
        requires
            builder_ready::<ProgramChangeMessage>(old(self).source()),
        ensures
            r is Some <==> next_accepted::<ProgramChangeMessage>(old(self).source().events()).0 is Some,
            r is Some ==> builder_ready::<ProgramChangeMessage>(final(self).source()) && (
            opt_view(r),
            final(self).source().events(),
            ) == next_accepted::<ProgramChangeMessage>(old(self).source().events()),
    {
        next_of::<ProgramChangeMessage>(&mut self.midi_events)
    }

    /// All the Program Change events.
    pub fn collect(self) -> (r: Vec<MidiEvent<ProgramChangeMessage>>)
        requires
            builder_ready::<ProgramChangeMessage>(self.source()),
        ensures
            views(r@) == filter_accepted::<ProgramChangeMessage>(self.source().events()),
    {
        collect_of::<ProgramChangeMessage>(self.midi_events)
    }
}

impl MidiEventBuilder {
    /// Iter only through `MidiEvent<NoteOnMessage>`
    pub fn filter_note_on(self) -> (r: FilterNoteOn)
        ensures
            r.source() == self,
    {
        FilterNoteOn { midi_events: self }
    }

    /// Iter only through `MidiEvent<NoteOffMessage>`
    pub fn filter_note_off(self) -> (r: FilterNoteOff)
        ensures
            r.source() == self,
    {
        FilterNoteOff { midi_events: self }
    }

    /// Iter only through `MidiEvent<PitchBendMessage>`
    pub fn filter_pitch_bend(self) -> (r: FilterPitchBend)
        ensures
            r.source() == self,
    {
        FilterPitchBend { midi_events: self }
    }

    /// Iter only through `MidiEvent<AfterTouchMessage>`
    pub fn filter_after_touch(self) -> (r: FilterAfterTouch)
        ensures
            r.source() == self,
    {
        FilterAfterTouch { midi_events: self }
    }

    /// Iter only through `MidiEvent<ProgramChangeMessage>`
    pub fn filter_program_change(self) -> (r: FilterProgramChange)
        ensures
            r.source() == self,
    {
        FilterProgramChange { midi_events: self }
    }

}

/// Each message lends, as `borrow_raw`, the first bytes of the event's
/// message, as many as `T::borrowed_len` names.
pub open spec fn messages_split<T: MidiMessage>(v: Seq<MidiEvent<T>>) -> bool {
    forall|i: int|
        0 <= i < v.len() ==> (#[trigger] v[i]).spec_message().borrowed_view() == v[i]@.msg.subrange(
            0,
            T::borrowed_len(v[i]@.msg),
        )
}

/// The first raw item of `es`: an event, joined with the event after it
/// when it has a Bezier shape (that event carries the curve data).
pub open spec fn merged_head(es: Seq<EventView>) -> EventView {
    if es[0].shape == CcShapeKind::Beizer {
        es[0].with_msg(es[0].msg + es[1].msg)
    } else {
        es[0]
    }
}

/// How many events the first raw item of `es` takes.
pub open spec fn merged_len(es: Seq<EventView>) -> int {
    if es[0].shape == CcShapeKind::Beizer {
        2
    } else {
        1
    }
}

/// Every event with a Bezier shape is followed by another event, and
/// every joined item can be handed to `T::from_raw`.
pub open spec fn merge_ready<T: MidiMessage>(es: Seq<EventView>) -> bool
    decreases es.len(),
{
    es.len() == 0 || ((es[0].shape == CcShapeKind::Beizer ==> es.len() >= 2) && T::parse_defined(
        merged_head(es).msg,
    ) && merge_ready::<T>(es.skip(merged_len(es))))
}

/// The first joined item of `es` that is a `T`, and the events after it.
pub open spec fn next_merged<T: MidiMessage>(es: Seq<EventView>) -> (Option<EventView>, Seq<
    EventView,
>)
    decreases es.len(),
{
    if es.len() == 0 || (es[0].shape == CcShapeKind::Beizer && es.len() < 2) {
        (None, es)
    } else if T::accepts(merged_head(es).msg) {
        (Some(merged_head(es)), es.skip(merged_len(es)))
    } else {
        next_merged::<T>(es.skip(merged_len(es)))
    }
}

/// The joined items of `es` that are `T`s, in order.
pub open spec fn filter_merged<T: MidiMessage>(es: Seq<EventView>) -> Seq<EventView>
    decreases es.len(),
{
    if es.len() == 0 || (es[0].shape == CcShapeKind::Beizer && es.len() < 2) {
        seq![]
    } else if T::accepts(merged_head(es).msg) {
        seq![merged_head(es)] + filter_merged::<T>(es.skip(merged_len(es)))
    } else {
        filter_merged::<T>(es.skip(merged_len(es)))
    }
}

/// Taking the first joined item off, then filtering the rest, filters
/// the whole.
pub proof fn lemma_filter_merged_next<T: MidiMessage>(es: Seq<EventView>)
    requires
        merge_ready::<T>(es),
    ensures
        ({
            let (h, rest) = next_merged::<T>(es);
            &&& merge_ready::<T>(rest)
            &&& (h is Some ==> rest.len() < es.len())
            &&& match h {
                Some(e) => filter_merged::<T>(es) == seq![e] + filter_merged::<T>(rest),
                None => filter_merged::<T>(es) == Seq::<EventView>::empty(),
            }
        }),
    decreases es.len(),
{
    if es.len() > 0 && !T::accepts(merged_head(es).msg) {
        lemma_filter_merged_next::<T>(es.skip(merged_len(es)));
    }
}

/// The events still to come in a builder: every read is defined, and the
/// joined items can be handed to `T::from_raw`.
pub open spec fn builder_merge_ready<T: MidiMessage>(b: MidiEventBuilder) -> bool {
    stream_ok(b.rest(), b.ppq()) && merge_ready::<T>(b.events())
}

/// Reads raw items, joining curve data, until one is a `T`.
fn next_merged_of<T: MidiMessage>(b: &mut MidiEventBuilder) -> (r: Option<MidiEvent<T>>)
    requires
        builder_merge_ready::<T>(*old(b)),
    ensures
        r is Some <==> next_merged::<T>(old(b).events()).0 is Some,
        r is Some ==> builder_merge_ready::<T>(*final(b)) && (opt_view(r), final(b).events())
            == next_merged::<T>(old(b).events()),
        r matches Some(e) ==> e.spec_message().borrowed_view() == e@.msg.subrange(
            0,
            T::borrowed_len(e@.msg),
        ),
{
    loop
        invariant
            builder_merge_ready::<T>(*b),
            next_merged::<T>(b.events()) == next_merged::<T>(old(b).events()),
        decreases b.rest().len(),
    {
        let ghost s = b.rest();
        let ghost p = b.ppq();
        let ghost es = b.events();
        match b.next() {
            None => {
                assert(es =~= Seq::<EventView>::empty());
                return None;
            },
            Some(item) => {
                proof {
                    lemma_builder_next_events(s, p);
                    assert(es.drop_first() =~= b.events());
                }
                let mut buf = item.message().get_raw();
                if item.cc_shape_kind() == CcShapeKind::Beizer {
                    let ghost s2 = b.rest();
                    let ghost p2 = b.ppq();
                    match b.next() {
                        None => {
                            assert(false);
                            return None;
                        },
                        Some(beizer) => {
                            proof {
                                lemma_builder_next_events(s2, p2);
                                assert(es.skip(2) =~= b.events());
                            }
                            let tail = beizer.message().get_raw();
                            crate::bytes::extend_bytes(&mut buf, &tail);
                        },
                    }
                } else {
                    assert(es.skip(1) =~= b.events());
                }
                assert(buf@ == merged_head(es).msg);
                match T::from_raw(buf) {
                    None => {},
                    Some(m) => {
                        return Some(MidiEvent::with_new_message(item, m));
                    },
                }
            },
        }
    }
}

/// Reads all the joined items that are `T`s.
fn collect_merged_of<T: MidiMessage>(b: MidiEventBuilder) -> (r: Vec<MidiEvent<T>>)
    requires
        builder_merge_ready::<T>(b),
    ensures
        views(r@) == filter_merged::<T>(b.events()),
        messages_split(r@),
{
    let mut b = b;
    let mut out: Vec<MidiEvent<T>> = Vec::new();
    let ghost all = filter_merged::<T>(b.events());
    loop
        invariant_except_break
            builder_merge_ready::<T>(b),
            views(out@) + filter_merged::<T>(b.events()) == all,
            messages_split(out@),
        ensures
            views(out@) == all,
            messages_split(out@),
        decreases b.events().len(),
    {
        let ghost es = b.events();
        proof {
            lemma_filter_merged_next::<T>(es);
        }
        match next_merged_of::<T>(&mut b) {
            None => {
                assert(views(out@) =~= all);
                break;
            },
            Some(e) => {
                let ghost old_out = out@;
                out.push(e);
                assert(views(out@) =~= views(old_out).push(e@));
                assert(views(out@) + filter_merged::<T>(b.events()) =~= all);
                assert(messages_split(out@)) by {
                    assert forall|i: int| 0 <= i < out@.len() implies (#[trigger] out@[i]).spec_message().borrowed_view()
                        == out@[i]@.msg.subrange(0, T::borrowed_len(out@[i]@.msg)) by {
                        if i < old_out.len() {
                            assert(out@[i] == old_out[i]);
                        }
                    }
                }
            },
        }
    }
    out
}

/// Iterates through CC events, each joined with its curve data.
pub struct FilterCC {
    midi_events: MidiEventBuilder,
}

impl FilterCC {
    /// The builder the events are read from.
    pub closed spec fn source(self) -> MidiEventBuilder {
        self.midi_events
    }

    /// Reads raw items until one is a CC message.
    pub fn next(&mut self) -> (r: Option<MidiEvent<CCMessage>>)
        requires
            builder_merge_ready::<CCMessage>(old(self).source()),
        ensures
            r is Some <==> next_merged::<CCMessage>(old(self).source().events()).0 is Some,
            r is Some ==> builder_merge_ready::<CCMessage>(final(self).source()) && (
            opt_view(r),
            final(self).source().events(),
            ) == next_merged::<CCMessage>(old(self).source().events()),
    {
        next_merged_of::<CCMessage>(&mut self.midi_events)
    }

    /// All the CC events.
    pub fn collect(self) -> (r: Vec<MidiEvent<CCMessage>>)
        requires
            builder_merge_ready::<CCMessage>(self.source()),
        ensures
            views(r@) == filter_merged::<CCMessage>(self.source().events()),
            messages_split(r@),
    {
        collect_merged_of::<CCMessage>(self.midi_events)
    }
}

/// Iterates through Channel Pressure events, each joined with its curve data.
pub struct FilterChannelPressure {
    midi_events: MidiEventBuilder,
}

impl FilterChannelPressure {
    /// The builder the events are read from.
    pub closed spec fn source(self) -> MidiEventBuilder {
        self.midi_events
    }

    /// Reads raw items until one is a Channel Pressure message.
    pub fn next(&mut self) -> (r: Option<MidiEvent<ChannelPressureMessage>>)
        requires
            builder_merge_ready::<ChannelPressureMessage>(old(self).source()),
        ensures
            r is Some <==> next_merged::<ChannelPressureMessage>(old(self).source().events()).0 is Some,
            r is Some ==> builder_merge_ready::<ChannelPressureMessage>(final(self).source()) && (
            opt_view(r),
            final(self).source().events(),
            ) == next_merged::<ChannelPressureMessage>(old(self).source().events()),
    {
        next_merged_of::<ChannelPressureMessage>(&mut self.midi_events)
    }

    /// All the Channel Pressure events.
    pub fn collect(self) -> (r: Vec<MidiEvent<ChannelPressureMessage>>)
        requires
            builder_merge_ready::<ChannelPressureMessage>(self.source()),
        ensures
            views(r@) == filter_merged::<ChannelPressureMessage>(self.source().events()),
            messages_split(r@),
    {
        collect_merged_of::<ChannelPressureMessage>(self.midi_events)
    }
}

impl MidiEventBuilder {
    /// Iter only through `MidiEvent<CCMessage>`, each joined with the curve
    /// data that follows it.
    pub fn filter_cc(self) -> (r: FilterCC)
        ensures
            r.source() == self,
    {
        FilterCC { midi_events: self }
    }

    /// Iter only through `MidiEvent<ChannelPressureMessage>`, each joined with the curve
    /// data that follows it.
    pub fn filter_channel_pressure(self) -> (r: FilterChannelPressure)
        ensures
            r.source() == self,
    {
        FilterChannelPressure { midi_events: self }
    }

}

/// The first six bytes of the system message that carries curve data.
pub open spec fn ccbz_prefix() -> Seq<u8> {
    seq![255u8, 15u8, 67u8, 67u8, 66u8, 90u8]
}

/// The message is curve data: it starts with the curve-data header.
pub open spec fn is_curve_data(msg: Seq<u8>) -> bool {
    msg.len() >= 6 && msg.subrange(0, 6) == ccbz_prefix()
}

/// A system message other than curve data; one shorter than the header
/// is no curve data.
pub open spec fn sys_keeps(msg: Seq<u8>) -> bool {
    msg[0] >= 0xf0 && !is_curve_data(msg)
}

/// The message can be read by the system filter: it has a status byte.
pub open spec fn sys_defined(msg: Seq<u8>) -> bool {
    msg.len() > 0
}

/// The first system message of `es` other than curve data, and the
/// events after it.
pub open spec fn next_sys(es: Seq<EventView>) -> (Option<EventView>, Seq<EventView>)
    decreases es.len(),
{
    if es.len() == 0 {
        (None, es)
    } else if sys_keeps(es[0].msg) {
        (Some(es[0]), es.drop_first())
    } else {
        next_sys(es.drop_first())
    }
}

/// The system messages of `es` other than curve data, in order.
pub open spec fn filter_sys(es: Seq<EventView>) -> Seq<EventView>
    decreases es.len(),
{
    if es.len() == 0 {
        seq![]
    } else if sys_keeps(es[0].msg) {
        seq![es[0]] + filter_sys(es.drop_first())
    } else {
        filter_sys(es.drop_first())
    }
}

/// The events still to come in a builder can be read by the system
/// filter.
pub open spec fn builder_sys_ready(b: MidiEventBuilder) -> bool {
    stream_ok(b.rest(), b.ppq()) && forall|i: int|
        0 <= i < b.events().len() ==> sys_defined(#[trigger] b.events()[i].msg)
}

proof fn lemma_filter_sys_next(es: Seq<EventView>)
    ensures
        ({
            let (h, rest) = next_sys(es);
            &&& rest.len() <= es.len()
            &&& (h is Some ==> rest.len() < es.len())
            &&& (forall|i: int| 0 <= i < rest.len() ==> #[trigger] rest[i] == es[es.len() - rest.len() + i])
            &&& match h {
                Some(e) => filter_sys(es) == seq![e] + filter_sys(rest),
                None => filter_sys(es) == Seq::<EventView>::empty(),
            }
        }),
    decreases es.len(),
{
    if es.len() > 0 && !sys_keeps(es[0].msg) {
        lemma_filter_sys_next(es.drop_first());
    }
}

/// An event the system filter passes: its status byte is `0xF0` or more,
/// and it does not begin with the curve-data header `FF 0F 'C' 'C' 'B' 'Z'`.
pub open spec fn system_event_kept() -> spec_fn(EventView) -> bool {
    |e: EventView|
        e.msg[0] >= 0xf0 && !(e.msg.len() >= 6 && e.msg.subrange(0, 6) == seq![
            0xffu8,
            0x0fu8,
            0x43u8,
            0x43u8,
            0x42u8,
            0x5au8,
        ])
}

/// The system filter gives every system event, SysEx and meta events
/// alike, short ones too, but for curve data, in the order they come.
pub proof fn law_filter_sys_keeps_system_events(es: Seq<EventView>)
    ensures
        filter_sys(es) == es.filter(system_event_kept()),
    decreases es.len(),
{
    let p = system_event_kept();
    if es.len() == 0 {
        reveal(Seq::filter);
    } else {
        let rest = es.drop_first();
        law_filter_sys_keeps_system_events(rest);
        assert(es =~= seq![es[0]] + rest);
        rest.lemma_filter_prepend(es[0], p);
        assert(ccbz_prefix() =~= seq![0xffu8, 0x0fu8, 0x43u8, 0x43u8, 0x42u8, 0x5au8]);
        assert(p(es[0]) == sys_keeps(es[0].msg));
        if sys_keeps(es[0].msg) {
            assert(filter_sys(es) =~= seq![es[0]] + filter_sys(rest));
        } else {
            assert(seq![]+ rest.filter(p) =~= rest.filter(p));
        }
    }
}

fn is_ccbz(buf: &Vec<u8>) -> (r: bool)
    requires
        buf@.len() >= 6,
    ensures
        r == (buf@.subrange(0, 6) == ccbz_prefix()),
{
    let r = buf[0] == 255 && buf[1] == 15 && buf[2] == 67 && buf[3] == 67 && buf[4] == 66
        && buf[5] == 90;
    proof {
        if r {
            assert(buf@.subrange(0, 6) =~= ccbz_prefix());
        } else {
            let t = buf@.subrange(0, 6);
            if t == ccbz_prefix() {
                assert(t[0] == 255 && t[1] == 15 && t[2] == 67 && t[3] == 67 && t[4] == 66 && t[5]
                    == 90);
            }
        }
    }
    r
}

/// Iterates through Sys events, leaving out curve data.
pub struct FilterAllSys {
    midi_events: MidiEventBuilder,
}

impl FilterAllSys {
    /// The builder the events are read from.
    pub closed spec fn source(self) -> MidiEventBuilder {
        self.midi_events
    }

    /// Reads events until one is a system message other than curve data.
    pub fn next(&mut self) -> (r: Option<MidiEvent<AllSysMessage>>)
        requires
            builder_sys_ready(old(self).source()),
        ensures
            r is Some <==> next_sys(old(self).source().events()).0 is Some,
            r is Some ==> builder_sys_ready(final(self).source()) && (
            opt_view(r),
            final(self).source().events(),
            ) == next_sys(old(self).source().events()),
    {
        loop
            invariant
                builder_sys_ready(self.midi_events),
                next_sys(self.midi_events.events()) == next_sys(old(self).midi_events.events()),
            decreases self.midi_events.rest().len(),
        {
            let ghost s = self.midi_events.rest();
            let ghost p = self.midi_events.ppq();
            let ghost es = self.midi_events.events();
            match self.midi_events.next() {
                None => {
                    assert(es =~= Seq::<EventView>::empty());
                    return None;
                },
                Some(item) => {
                    proof {
                        lemma_builder_next_events(s, p);
                        assert(es.drop_first() =~= self.midi_events.events());
                        assert forall|i: int|
                            0 <= i < self.midi_events.events().len() implies sys_defined(
                            #[trigger] self.midi_events.events()[i].msg,
                        ) by {
                            assert(self.midi_events.events()[i] == es[i + 1]);
                        }
                        assert(sys_defined(es[0].msg));
                    }
                    let raw = item.message().get_raw();
                    match AllSysMessage::from_raw(raw) {
                        None => {},
                        Some(m) => {
                            let b = m.borrow_raw();
                            if !(b.len() >= 6 && is_ccbz(b)) {
                                return Some(MidiEvent::with_new_message(item, m));
                            }
                        },
                    }
                },
            }
        }
    }

    /// All the system events other than curve data.
    pub fn collect(self) -> (r: Vec<MidiEvent<AllSysMessage>>)
        requires
            builder_sys_ready(self.source()),
        ensures
            views(r@) == filter_sys(self.source().events()),
    {
        let mut me = self;
        let mut out: Vec<MidiEvent<AllSysMessage>> = Vec::new();
        let ghost all = filter_sys(me.source().events());
        loop
            invariant_except_break
                builder_sys_ready(me.source()),
                views(out@) + filter_sys(me.source().events()) == all,
            ensures
                views(out@) == all,
            decreases me.source().events().len(),
        {
            let ghost es = me.source().events();
            proof {
                lemma_filter_sys_next(es);
            }
            match me.next() {
                None => {
                    assert(views(out@) =~= all);
                    break;
                },
                Some(e) => {
                    let ghost old_out = out@;
                    out.push(e);
                    assert(views(out@) =~= views(old_out).push(e@));
                    assert(views(out@) + filter_sys(me.source().events()) =~= all);
                },
            }
        }
        out
    }
}

impl MidiEventBuilder {
    /// Iter only through `MidiEvent<AllSysMessage>`, leaving out curve data.
    pub fn filter_all_sys(self) -> (r: FilterAllSys)
        ensures
            r.source() == self,
    {
        FilterAllSys { midi_events: self }
    }
}

} // verus!
