//! The raw take-MIDI buffer: reading it into events and writing events
//! back into it.
//!
//! A buffer is a run of records. Each record holds, in order: the offset
//! in ppq from the previous event (`u32`, little endian), one flag byte
//! (bit 0 selected, bit 1 muted, bits 4..7 the CC shape), the length of
//! the message (`u32`, little endian) and the message bytes.
use vstd::prelude::*;
use crate::bytes::{le_u32_at, u32_le_bytes, read_le_u32, copy_range, push_le_u32, lemma_le_u32_of_bytes, lemma_bytes_of_le_u32};
use crate::midi_event::{EventView, MidiEvent};
use crate::midi_message::{MidiMessage, RawMidiMessage};
use crate::midi_shape::CcShapeKind;

verus! {

/// The views of a sequence of events.
pub open spec fn views<T: MidiMessage>(v: Seq<MidiEvent<T>>) -> Seq<EventView> {
    v.map_values(|e: MidiEvent<T>| e@)
}

/// The offset field of the record at the start of `s`.
pub open spec fn record_offset(s: Seq<u8>) -> u32 {
    le_u32_at(s, 0)
}

/// The flag byte of the record at the start of `s`.
pub open spec fn record_flag(s: Seq<u8>) -> u8 {
    s[4]
}

/// The length field of the record at the start of `s`.
pub open spec fn record_length(s: Seq<u8>) -> u32 {
    le_u32_at(s, 5)
}

/// Whether a flag byte marks its event selected.
pub open spec fn flag_selected(flag: u8) -> bool {
    flag & 1u8 != 0
}

/// Whether a flag byte marks its event muted.
pub open spec fn flag_muted(flag: u8) -> bool {
    flag & 2u8 != 0
}

/// The CC shape bits of a flag byte.
pub open spec fn flag_shape_bits(flag: u8) -> u8 {
    flag & 0xf0u8
}

/// The flag byte written for an event.
pub open spec fn event_flag(e: EventView) -> u8 {
    (if e.selected { 1u8 } else { 0u8 }) | (if e.muted { 2u8 } else { 0u8 }) | e.shape.spec_raw()
}

/// What one read from a buffer gives: an event, or none; how many bytes
/// were consumed; and the position reached.
pub struct Step {
    pub event: Option<EventView>,
    pub consumed: int,
    pub ppq: u32,
}

/// One read of the record at the start of `s`, at position `ppq`.
pub open spec fn step(s: Seq<u8>, ppq: u32) -> Step {
    if s.len() < 9 {
        Step { event: None, consumed: s.len() as int, ppq }
    } else if record_length(s) == 0 {
        Step { event: None, consumed: 9, ppq }
    } else {
        let n = if record_length(s) <= s.len() - 9 {
            record_length(s) as int
        } else {
            s.len() - 9
        };
        let p = (ppq + record_offset(s)) as u32;
        Step {
            event: Some(
                EventView {
                    ppq: p,
                    selected: flag_selected(record_flag(s)),
                    muted: flag_muted(record_flag(s)),
                    shape: CcShapeKind::spec_from_raw(flag_shape_bits(record_flag(s))).unwrap(),
                    msg: s.subrange(9, 9 + n),
                },
            ),
            consumed: 9 + n,
            ppq: p,
        }
    }
}

/// One read of the record at the start of `s` is defined: the buffer
/// ends before a record starts, or the record has its flag and length,
/// and a record with a message names a CC shape and keeps the position
/// within `u32`.
pub open spec fn step_ok(s: Seq<u8>, ppq: u32) -> bool {
    s.len() < 4 || (s.len() >= 9 && (record_length(s) == 0 || (
    CcShapeKind::spec_from_raw(flag_shape_bits(record_flag(s))) is Some && ppq + record_offset(s)
        <= u32::MAX)))
}

/// The events read from `s` at position `ppq`, up to the first read that
/// gives none.
pub open spec fn parse_all(s: Seq<u8>, ppq: u32) -> Seq<EventView>
    decreases s.len(),
{
    let st = step(s, ppq);
    if st.event is Some && 0 < st.consumed <= s.len() {
        seq![st.event.unwrap()] + parse_all(s.skip(st.consumed), st.ppq)
    } else {
        seq![]
    }
}

/// Every read of `s`, up to the first that gives none, is defined.
pub open spec fn stream_ok(s: Seq<u8>, ppq: u32) -> bool
    decreases s.len(),
{
    let st = step(s, ppq);
    step_ok(s, ppq) && (st.event is Some && 0 < st.consumed <= s.len() ==> stream_ok(
        s.skip(st.consumed),
        st.ppq,
    ))
}

/// The bytes written for one event, after an event at `last`.
pub open spec fn encode_event(e: EventView, last: u32) -> Seq<u8> {
    u32_le_bytes((e.ppq - last) as u32) + seq![event_flag(e)] + u32_le_bytes(e.msg.len() as u32)
        + e.msg
}

/// The bytes written for a run of events, starting after position `last`.
pub open spec fn encode_all(es: Seq<EventView>, last: u32) -> Seq<u8>
    decreases es.len(),
{
    if es.len() == 0 {
        seq![]
    } else {
        encode_event(es[0], last) + encode_all(es.drop_first(), es[0].ppq)
    }
}

/// The events come in order of position, none before `last`.
pub open spec fn sorted_from(es: Seq<EventView>, last: u32) -> bool {
    &&& es.len() > 0 ==> last <= es[0].ppq
    &&& forall|i: int| 0 < i < es.len() ==> #[trigger] es[i - 1].ppq <= es[i].ppq
}

/// Iterates over raw take midi data and builds [MidiEvent] objects.
#[derive(Debug, Clone)]
pub struct MidiEventBuilder {
    buf: Vec<u8>,
    pos: usize,
    current_ppq: u32,
}

impl MidiEventBuilder {
    /// The bytes not read yet.
    pub closed spec fn rest(self) -> Seq<u8> {
        if self.pos <= self.buf@.len() {
            self.buf@.skip(self.pos as int)
        } else {
            Seq::empty()
        }
    }

    /// The position of the last event read.
    pub closed spec fn ppq(self) -> u32 {
        self.current_ppq
    }

    /// The events still to come.
    pub open spec fn events(self) -> Seq<EventView> {
        parse_all(self.rest(), self.ppq())
    }

    /// Accepts only raw midi data, as got from a take.
    pub fn new(buf: Vec<u8>) -> (r: Self)
        ensures
            r.rest() == buf@,
            r.ppq() == 0,
    {
        let r = MidiEventBuilder { buf, pos: 0, current_ppq: 0 };
        assert(r.buf@.skip(0) =~= r.buf@);
        r
    }

    /// Reads the next event.
    pub fn next(&mut self) -> (r: Option<MidiEvent<RawMidiMessage>>)
        requires
            step_ok(old(self).rest(), old(self).ppq()),
        ensures
            ({
                let st = step(old(self).rest(), old(self).ppq());
                &&& 0 <= st.consumed <= old(self).rest().len()
                &&& final(self).rest() == old(self).rest().skip(st.consumed)
                &&& final(self).ppq() == st.ppq
                &&& r is Some <==> st.event is Some
                &&& r matches Some(e) ==> e@ == st.event.unwrap()
            }),
    {
        let ghost s = self.rest();
        let n = self.buf.len();
        let avail = if self.pos <= n {
            n - self.pos
        } else {
            0
        };
        if avail < 9 {
            self.pos = n;
            assert(self.buf@.skip(n as int) =~= s.skip(s.len() as int));
            return None;
        }
        let offset = read_le_u32(&self.buf, self.pos);
        let flag = self.buf[self.pos + 4];
        let length = read_le_u32(&self.buf, self.pos + 5);
        assert(offset == record_offset(s) && flag == record_flag(s) && length == record_length(s));
        self.pos = self.pos + 9;
        if length == 0 {
            assert(self.buf@.skip(self.pos as int) =~= s.skip(9));
            return None;
        }
        self.current_ppq = self.current_ppq + offset;
        let remaining = n - self.pos;
        let take = if (length as usize) <= remaining {
            length as usize
        } else {
            remaining
        };
        let msg = copy_range(&self.buf, self.pos, self.pos + take);
        assert(msg@ =~= s.subrange(9, 9 + take));
        self.pos = self.pos + take;
        assert(self.buf@.skip(self.pos as int) =~= s.skip(9 + take));
        let shape = CcShapeKind::from_raw(flag & 0xf0).unwrap();
        let event = MidiEvent::new(
            self.current_ppq,
            (flag & 1) != 0,
            (flag & 2) != 0,
            shape,
            RawMidiMessage::new(msg),
        );
        Some(event)
    }

    /// Reads all the events, up to the first read that gives none.
    pub fn collect(self) -> (r: Vec<MidiEvent<RawMidiMessage>>)
        requires
            stream_ok(self.rest(), self.ppq()),
        ensures
            views(r@) == self.events(),
    {
        let mut me = self;
        let mut out: Vec<MidiEvent<RawMidiMessage>> = Vec::new();
        let ghost all = parse_all(me.rest(), me.ppq());
        loop
            invariant_except_break
                stream_ok(me.rest(), me.ppq()),
                views(out@) + parse_all(me.rest(), me.ppq()) == all,
            ensures
                views(out@) == all,
            decreases me.rest().len(),
        {
            let ghost s = me.rest();
            let ghost p = me.ppq();
            match me.next() {
                None => {
                    assert(parse_all(s, p) =~= seq![]);
                    assert(views(out@) =~= all);
                    break;
                },
                Some(e) => {
                    let ghost st = step(s, p);
                    let ghost old_out = out@;
                    out.push(e);
                    assert(views(out@) =~= views(old_out).push(e@));
                    assert(parse_all(s, p) =~= seq![e@] + parse_all(me.rest(), me.ppq()));
                    assert(views(out@) + parse_all(me.rest(), me.ppq()) =~= all);
                },
            }
        }
        out
    }
}


/// Iterates through [MidiEvent] objects and builds raw midi data
/// to be passed to take.
#[derive(Debug)]
pub struct MidiEventConsumer {
    events: Vec<MidiEvent<RawMidiMessage>>,
}

impl MidiEventConsumer {
    /// The events to write.
    pub closed spec fn events(self) -> Seq<EventView> {
        views(self.events@)
    }

    /// Build the writer. Events have to come sorted by position (see
    /// `sorted_by_ppq`).
    pub fn new(events: Vec<MidiEvent<RawMidiMessage>>) -> (r: Self)
        ensures
            r.events() == views(events@),
    {
        MidiEventConsumer { events }
    }

    /// The raw buffer of all the events.
    pub fn collect(self) -> (r: Vec<u8>)
        requires
            sorted_from(self.events(), 0),
        ensures
            r@ == encode_all(self.events(), 0),
    {
        let ghost es = self.events();
        let mut out: Vec<u8> = Vec::new();
        let mut last: u32 = 0;
        let mut i: usize = 0;
        proof {
            assert(es.take(0) =~= Seq::<EventView>::empty());
        }
        while i < self.events.len()
            invariant
                es == views(self.events@),
                sorted_from(es, 0),
                i <= es.len(),
                out@ == encode_all(es.take(i as int), 0),
                last == (if i == 0 {
                    0
                } else {
                    es[i - 1].ppq
                }),
            decreases es.len() - i,
        {
            let e = &self.events[i];
            let pos = e.ppq_position();
            assert(e@ == es[i as int]);
            let raw = e.message().get_raw();
            proof {
                if i > 0 {
                    assert(es[i as int - 1].ppq <= es[i as int].ppq);
                }
                lemma_encode_all_push(es.take(i as int), es[i as int], 0);
                assert(es.take(i as int).push(es[i as int]) =~= es.take(i + 1));
            }
            let ghost before = out@;
            push_le_u32(&mut out, pos - last);
            let sel: u8 = if e.selected() {
                1
            } else {
                0
            };
            let muted: u8 = if e.muted() {
                2
            } else {
                0
            };
            let flag = sel | muted | e.cc_shape_kind().to_raw();
            out.push(flag);
            push_le_u32(&mut out, raw.len() as u32);
            crate::bytes::extend_bytes(&mut out, &raw);
            assert(out@ =~= before + encode_event(es[i as int], last));
            last = pos;
            i = i + 1;
        }
        proof {
            assert(es.take(es.len() as int) =~= es);
        }
        out
    }
}

/// The position that the event after `es` is written relative to.
pub open spec fn last_ppq(es: Seq<EventView>, last: u32) -> u32 {
    if es.len() == 0 {
        last
    } else {
        es.last().ppq
    }
}

/// Writing one more event appends its record.
pub proof fn lemma_encode_all_push(es: Seq<EventView>, e: EventView, last: u32)
    ensures
        encode_all(es.push(e), last) == encode_all(es, last) + encode_event(e, last_ppq(es, last)),
    decreases es.len(),
{
    if es.len() == 0 {
        assert(es.push(e).drop_first() =~= Seq::<EventView>::empty());
        assert(encode_all(Seq::<EventView>::empty(), e.ppq) =~= Seq::<u8>::empty());
        assert(encode_all(es.push(e), last) =~= encode_event(e, last));
    } else {
        lemma_encode_all_push(es.drop_first(), e, es[0].ppq);
        assert(es.push(e).drop_first() =~= es.drop_first().push(e));
        if es.len() == 1 {
            assert(last_ppq(es.drop_first(), es[0].ppq) == es.last().ppq);
        } else {
            assert(es.drop_first().last() == es.last());
        }
        assert(encode_all(es.push(e), last) =~= encode_all(es, last) + encode_event(
            e,
            last_ppq(es, last),
        ));
    }
}

/// A run of complete records: each has a message, names a CC shape, uses
/// no flag bits besides selected, muted and shape, keeps the position
/// within `u32`, and holds all the bytes its length names.
pub open spec fn well_formed_records(s: Seq<u8>, ppq: u32) -> bool
    decreases s.len(),
{
    s.len() == 0 || (s.len() >= 9 && record_length(s) > 0 && 9 + record_length(s) <= s.len()
        && record_flag(s) & 0x0cu8 == 0 && CcShapeKind::spec_from_raw(
        flag_shape_bits(record_flag(s)),
    ) is Some && ppq + record_offset(s) <= u32::MAX && well_formed_records(
        s.skip(9 + record_length(s)),
        (ppq + record_offset(s)) as u32,
    ))
}

/// The flag byte that a read of a well-formed flag gives back is the same
/// byte.
pub proof fn lemma_flag_of_read(f: u8)
    requires
        f & 0x0cu8 == 0,
        CcShapeKind::spec_from_raw(flag_shape_bits(f)) is Some,
    ensures
        event_flag(
            EventView {
                ppq: 0,
                selected: flag_selected(f),
                muted: flag_muted(f),
                shape: CcShapeKind::spec_from_raw(flag_shape_bits(f)).unwrap(),
                msg: seq![],
            },
        ) == f,
{
    let r = flag_shape_bits(f);
    assert(CcShapeKind::spec_from_raw(r).unwrap().spec_raw() == r);
    assert(((if f & 1u8 != 0 {
        1u8
    } else {
        0u8
    }) | (if f & 2u8 != 0 {
        2u8
    } else {
        0u8
    }) | (f & 0xf0u8)) == f) by (bit_vector)
        requires
            f & 0x0cu8 == 0,
    ;
}

/// Reading the flag byte written for an event gives back its flags and
/// shape.
pub proof fn lemma_read_of_flag(e: EventView)
    ensures
        flag_selected(event_flag(e)) == e.selected,
        flag_muted(event_flag(e)) == e.muted,
        CcShapeKind::spec_from_raw(flag_shape_bits(event_flag(e))) == Some(e.shape),
        event_flag(e) & 0x0cu8 == 0,
{
    let r = e.shape.spec_raw();
    let sb: u8 = if e.selected {
        1u8
    } else {
        0u8
    };
    let mb: u8 = if e.muted {
        2u8
    } else {
        0u8
    };
    assert(r & 0x0fu8 == 0) by {
        assert(r == 0 || r == 16 || r == 32 || r == 48 || r == 64 || r == 80);
        assert(r == 0 || r == 16 || r == 32 || r == 48 || r == 64 || r == 80 ==> r & 0x0fu8 == 0)
            by (bit_vector);
    }
    assert(((sb | mb | r) & 1u8 != 0) == (sb == 1u8) && ((sb | mb | r) & 2u8 != 0) == (mb == 2u8)
        && (sb | mb | r) & 0xf0u8 == r && (sb | mb | r) & 0x0cu8 == 0) by (bit_vector)
        requires
            r & 0x0fu8 == 0,
            sb == 0u8 || sb == 1u8,
            mb == 0u8 || mb == 2u8,
    ;
}

/// The read of one complete record gives the event whose record it is.
#[verifier::spinoff_prover]
#[verifier::rlimit(40)]
pub proof fn lemma_read_record(s: Seq<u8>, ppq: u32)
    requires
        s.len() >= 9,
        record_length(s) > 0,
        9 + record_length(s) <= s.len(),
        record_flag(s) & 0x0cu8 == 0,
        CcShapeKind::spec_from_raw(flag_shape_bits(record_flag(s))) is Some,
        ppq + record_offset(s) <= u32::MAX,
    ensures
        step_ok(s, ppq),
        step(s, ppq).consumed == 9 + record_length(s),
        step(s, ppq).ppq == ppq + record_offset(s),
        step(s, ppq).event is Some,
        step(s, ppq).event.unwrap().ppq == step(s, ppq).ppq,
        encode_event(step(s, ppq).event.unwrap(), ppq) == s.subrange(0, 9 + record_length(s)),
{
    let len = record_length(s);
    let e = step(s, ppq).event.unwrap();
    lemma_flag_of_read(record_flag(s));
    assert(event_flag(e) == record_flag(s)) by {
        assert(event_flag(e) == event_flag(EventView { ppq: 0, msg: seq![], ..e }));
    }
    lemma_bytes_of_le_u32(s, 0);
    lemma_bytes_of_le_u32(s, 5);
    assert(e.msg.len() == len);
    assert((e.ppq - ppq) as u32 == record_offset(s));
    assert(encode_event(e, ppq) =~= s.subrange(0, 9 + len));
}

/// The record written for an event, whatever follows it, reads back as
/// that event.
#[verifier::spinoff_prover]
#[verifier::rlimit(40)]
pub proof fn lemma_write_record(e: EventView, last: u32, t: Seq<u8>)
    requires
        last <= e.ppq,
        0 < e.msg.len() <= u32::MAX,
    ensures
        ({
            let s = encode_event(e, last) + t;
            &&& s.len() >= 9
            &&& record_length(s) == e.msg.len()
            &&& 9 + record_length(s) <= s.len()
            &&& record_flag(s) & 0x0cu8 == 0
            &&& CcShapeKind::spec_from_raw(flag_shape_bits(record_flag(s))) is Some
            &&& last + record_offset(s) == e.ppq
            &&& step_ok(s, last)
            &&& step(s, last) == (Step { event: Some(e), consumed: 9 + e.msg.len() as int, ppq: e.ppq })
            &&& s.skip(9 + e.msg.len() as int) == t
        }),
{
    let rec = encode_event(e, last);
    let s = rec + t;
    let len = e.msg.len() as int;
    lemma_le_u32_of_bytes((e.ppq - last) as u32);
    lemma_le_u32_of_bytes(e.msg.len() as u32);
    lemma_read_of_flag(e);
    assert(rec.len() == 9 + len);
    assert(record_offset(s) == (e.ppq - last) as u32) by {
        assert(s[0] == rec[0] && s[1] == rec[1] && s[2] == rec[2] && s[3] == rec[3]);
        assert(u32_le_bytes((e.ppq - last) as u32)[0] == rec[0]);
        assert(u32_le_bytes((e.ppq - last) as u32)[1] == rec[1]);
        assert(u32_le_bytes((e.ppq - last) as u32)[2] == rec[2]);
        assert(u32_le_bytes((e.ppq - last) as u32)[3] == rec[3]);
    }
    assert(record_flag(s) == event_flag(e));
    assert(record_length(s) == len as u32) by {
        assert(s[5] == rec[5] && s[6] == rec[6] && s[7] == rec[7] && s[8] == rec[8]);
        assert(u32_le_bytes(len as u32)[0] == rec[5]);
        assert(u32_le_bytes(len as u32)[1] == rec[6]);
        assert(u32_le_bytes(len as u32)[2] == rec[7]);
        assert(u32_le_bytes(len as u32)[3] == rec[8]);
    }
    assert(s.skip(9 + len) =~= t);
    assert(s.subrange(9, 9 + len) =~= e.msg);
    let st = step(s, last);
    assert(st.event == Some(e));
}

/// Reading a buffer of complete records and writing the events back
/// gives the same buffer, and the read is defined throughout and gives
/// the events in order of position.
#[verifier::spinoff_prover]
#[verifier::rlimit(40)]
pub proof fn lemma_write_of_read(s: Seq<u8>, ppq: u32)
    requires
        well_formed_records(s, ppq),
    ensures
        stream_ok(s, ppq),
        sorted_from(parse_all(s, ppq), ppq),
        encode_all(parse_all(s, ppq), ppq) == s,
    decreases s.len(),
{
    if s.len() > 0 {
        let len = record_length(s);
        let rest = s.skip(9 + len);
        let p2 = (ppq + record_offset(s)) as u32;
        lemma_read_record(s, ppq);
        lemma_write_of_read(rest, p2);
        let e = step(s, ppq).event.unwrap();
        let tail = parse_all(rest, p2);
        let ps = parse_all(s, ppq);
        assert(ps == seq![e] + tail);
        assert(ps.drop_first() =~= tail);
        assert(encode_all(ps, ppq) == encode_event(e, ppq) + encode_all(tail, p2));
        assert(s =~= s.subrange(0, 9 + len) + rest);
        assert forall|i: int| 0 < i < ps.len() implies #[trigger] ps[i - 1].ppq <= ps[i].ppq by {
            if i > 1 {
                assert(ps[i - 1] == tail[i - 2]);
                assert(ps[i] == tail[i - 1]);
                assert(tail[(i - 1) - 1].ppq <= tail[i - 1].ppq);
            } else {
                assert(ps[i] == tail[0]);
            }
        }
    } else {
        assert(parse_all(s, ppq) =~= Seq::<EventView>::empty());
    }
}

/// Every event has a message, of a length a record can name.
pub open spec fn messages_fit(es: Seq<EventView>) -> bool {
    forall|i: int| 0 <= i < es.len() ==> 0 < #[trigger] es[i].msg.len() <= u32::MAX
}

/// Writing events in order of position and reading the buffer back gives
/// the same events, and the buffer is a run of complete records.
#[verifier::spinoff_prover]
#[verifier::rlimit(40)]
pub proof fn lemma_read_of_write(es: Seq<EventView>, last: u32)
    requires
        sorted_from(es, last),
        messages_fit(es),
    ensures
        well_formed_records(encode_all(es, last), last),
        stream_ok(encode_all(es, last), last),
        parse_all(encode_all(es, last), last) == es,
    decreases es.len(),
{
    let s = encode_all(es, last);
    if es.len() == 0 {
        assert(parse_all(s, last) =~= es);
    } else {
        let e = es[0];
        let rest = es.drop_first();
        assert(sorted_from(rest, e.ppq)) by {
            if rest.len() > 0 {
                assert(es[1 - 1].ppq <= es[1].ppq);
            }
            assert forall|i: int| 0 < i < rest.len() implies #[trigger] rest[i - 1].ppq
                <= rest[i].ppq by {
                assert(es[(i + 1) - 1].ppq <= es[i + 1].ppq);
            }
        }
        assert(messages_fit(rest)) by {
            assert forall|i: int| 0 <= i < rest.len() implies 0 < #[trigger] rest[i].msg.len()
                <= u32::MAX by {
                assert(rest[i] == es[i + 1]);
            }
        }
        lemma_read_of_write(rest, e.ppq);
        let t = encode_all(rest, e.ppq);
        assert(s == encode_event(e, last) + t);
        lemma_write_record(e, last, t);
        assert(parse_all(s, last) == seq![e] + parse_all(t, e.ppq));
        assert(parse_all(s, last) =~= es);
    }
}

} // verus!
