//! Turning typed events back into raw events, and putting raw events in
//! order of position, ready to be written.
use vstd::prelude::*;
use crate::midi_event::{note_off_view, note_on_view, EventView, MidiEvent, MidiNoteEvent};
use crate::midi_message::{as_raw_message, HasBeizer, MidiMessage, RawMidiMessage};
use crate::midi_raw::{sorted_from, views};
use crate::midi_shape::CcShapeKind;

verus! {

/// Convert different kinds of messages into raw events.
pub fn to_raw_midi_events<T: MidiMessage>(events: Vec<MidiEvent<T>>) -> (r: Vec<
    MidiEvent<RawMidiMessage>,
>)
    ensures
        views(r@) == views(events@),
{
    let mut out: Vec<MidiEvent<RawMidiMessage>> = Vec::new();
    let mut i: usize = 0;
    while i < events.len()
        invariant
            i <= events@.len(),
            views(out@) == views(events@).take(i as int),
        decreases events@.len() - i,
    {
        let e = &events[i];
        let raw = MidiEvent::new(
            e.ppq_position(),
            e.selected(),
            e.muted(),
            e.cc_shape_kind(),
            as_raw_message(e.message()),
        );
        let ghost before = out@;
        out.push(raw);
        assert(views(out@) =~= views(events@).take(i + 1)) by {
            assert(views(out@) =~= views(before).push(raw@));
        }
        i = i + 1;
    }
    assert(views(events@).take(events@.len() as int) =~= views(events@));
    out
}

/// The raw events of notes: the note-on, then the note-off of each.
pub open spec fn notes_flat(ns: Seq<MidiNoteEvent>) -> Seq<EventView>
    decreases ns.len(),
{
    if ns.len() == 0 {
        seq![]
    } else {
        notes_flat(ns.drop_last()) + seq![note_on_view(ns.last()), note_off_view(ns.last())]
    }
}

/// Convert MidiNote events to Raw events.
pub fn flatten_midi_notes(notes: Vec<MidiNoteEvent>) -> (r: Vec<MidiEvent<RawMidiMessage>>)
    requires
        forall|i: int| 0 <= i < notes@.len() ==> 0x90 + (#[trigger] notes@[i]).channel <= 255,
    ensures
        views(r@) == notes_flat(notes@),
{
    let mut out: Vec<MidiEvent<RawMidiMessage>> = Vec::new();
    let mut i: usize = 0;
    while i < notes.len()
        invariant
            i <= notes@.len(),
            forall|k: int| 0 <= k < notes@.len() ==> 0x90 + (#[trigger] notes@[k]).channel <= 255,
            views(out@) == notes_flat(notes@.take(i as int)),
        decreases notes@.len() - i,
    {
        let n = &notes[i];
        assert(0x90 + notes@[i as int].channel <= 255);
        let (on, off) = n.to_raw_parts();
        let on_raw = MidiEvent::new(
            on.ppq_position(),
            on.selected(),
            on.muted(),
            on.cc_shape_kind(),
            on.message().as_raw_message(),
        );
        let off_raw = MidiEvent::new(
            off.ppq_position(),
            off.selected(),
            off.muted(),
            off.cc_shape_kind(),
            off.message().as_raw_message(),
        );
        let ghost before = out@;
        out.push(on_raw);
        out.push(off_raw);
        proof {
            assert(notes@.take(i + 1).drop_last() =~= notes@.take(i as int));
            assert(views(out@) =~= views(before) + seq![on@, off@]);
        }
        i = i + 1;
    }
    assert(notes@.take(notes@.len() as int) =~= notes@);
    out
}

/// The raw events of an event whose message lends its first `k` bytes:
/// the event with those bytes, and, when bytes are left, an event with
/// them and a square shape.
pub open spec fn split_parts(e: EventView, k: int) -> Seq<EventView> {
    seq![e.with_msg(e.msg.subrange(0, k))] + if k < e.msg.len() {
        seq![EventView { shape: CcShapeKind::Square, msg: e.msg.skip(k), ..e }]
    } else {
        seq![]
    }
}

/// The raw events of events of a message type with curve data.
pub open spec fn beizer_flat<T: HasBeizer>(v: Seq<MidiEvent<T>>) -> Seq<EventView>
    decreases v.len(),
{
    if v.len() == 0 {
        seq![]
    } else {
        let e = v.last();
        let m = e.spec_message();
        beizer_flat(v.drop_last()) + seq![e@.with_msg(m.borrowed_view())] + if m.beizer_view().len()
            != 0 {
            seq![EventView { shape: CcShapeKind::Square, msg: m.beizer_view(), ..e@ }]
        } else {
            seq![]
        }
    }
}

/// The raw events of events, each split where its message type lends.
pub open spec fn split_flat<T: MidiMessage>(es: Seq<EventView>) -> Seq<EventView>
    decreases es.len(),
{
    if es.len() == 0 {
        seq![]
    } else {
        split_flat::<T>(es.drop_last()) + split_parts(es.last(), T::borrowed_len(es.last().msg))
    }
}

/// Unfold CC events with Beizer data to separate raw events
pub fn flatten_events_with_beizer_curve<T: HasBeizer>(events: Vec<MidiEvent<T>>) -> (r: Vec<
    MidiEvent<RawMidiMessage>,
>)
    ensures
        views(r@) == beizer_flat(events@),
{
    let mut out: Vec<MidiEvent<RawMidiMessage>> = Vec::new();
    let mut i: usize = 0;
    while i < events.len()
        invariant
            i <= events@.len(),
            views(out@) == beizer_flat(events@.take(i as int)),
        decreases events@.len() - i,
    {
        let e = &events[i];
        let msg = e.message();
        let head = MidiEvent::new(
            e.ppq_position(),
            e.selected(),
            e.muted(),
            e.cc_shape_kind(),
            RawMidiMessage::new(crate::bytes::copy_bytes(msg.msg_buf())),
        );
        let ghost before = out@;
        out.push(head);
        let beizer = msg.beizer_buf();
        if beizer.len() != 0 {
            let tail = MidiEvent::new(
                e.ppq_position(),
                e.selected(),
                e.muted(),
                CcShapeKind::Square,
                RawMidiMessage::new(crate::bytes::copy_bytes(beizer)),
            );
            out.push(tail);
        }
        proof {
            assert(events@.take(i + 1).drop_last() =~= events@.take(i as int));
            assert(events@.take(i + 1).last() == events@[i as int]);
            assert(views(out@) =~= beizer_flat(events@.take(i + 1)));
        }
        i = i + 1;
    }
    assert(events@.take(events@.len() as int) =~= events@);
    out
}

/// Where each message lends the first bytes of its event's message, the
/// raw events are those of the events split there.
pub proof fn lemma_beizer_flat_split<T: HasBeizer>(v: Seq<MidiEvent<T>>)
    requires
        crate::midi_filter::messages_split(v),
        forall|i: int|
            0 <= i < v.len() ==> (#[trigger] v[i]).spec_message().raw_view() == v[i].spec_message().borrowed_view()
                + v[i].spec_message().beizer_view(),
        forall|i: int|
            0 <= i < v.len() ==> 0 <= T::borrowed_len((#[trigger] v[i])@.msg) <= v[i]@.msg.len(),
    ensures
        beizer_flat(v) == split_flat::<T>(views(v)),
    decreases v.len(),
{
    if v.len() > 0 {
        let w = v.drop_last();
        assert(crate::midi_filter::messages_split(w)) by {
            assert forall|i: int| 0 <= i < w.len() implies (#[trigger] w[i]).spec_message().borrowed_view()
                == w[i]@.msg.subrange(0, T::borrowed_len(w[i]@.msg)) by {
                assert(w[i] == v[i]);
            }
        }
        assert forall|i: int| 0 <= i < w.len() implies (#[trigger] w[i]).spec_message().raw_view()
            == w[i].spec_message().borrowed_view() + w[i].spec_message().beizer_view() by {
            assert(w[i] == v[i]);
        }
        assert forall|i: int| 0 <= i < w.len() implies 0 <= T::borrowed_len((#[trigger] w[i])@.msg)
            <= w[i]@.msg.len() by {
            assert(w[i] == v[i]);
        }
        lemma_beizer_flat_split::<T>(w);
        assert(views(v).drop_last() =~= views(w));
        let e = v.last();
        assert(e == v[v.len() - 1]);
        let m = e.spec_message();
        let k = T::borrowed_len(e@.msg);
        e.lemma_view_msg();
        assert(e@.msg == m.raw_view());
        assert(m.beizer_view() =~= e@.msg.skip(k));
        assert(views(v).last() == e@);
        assert(beizer_flat(v) =~= split_flat::<T>(views(v)));
    }
}

/// `s` with `e` put after every event that is not later than it.
pub open spec fn insert_by_ppq(s: Seq<EventView>, e: EventView) -> Seq<EventView>
    decreases s.len(),
{
    if s.len() == 0 || s.last().ppq <= e.ppq {
        s.push(e)
    } else {
        insert_by_ppq(s.drop_last(), e).push(s.last())
    }
}

/// The events sorted by position, events at one position keeping their
/// order.
pub open spec fn sort_by_ppq(s: Seq<EventView>) -> Seq<EventView>
    decreases s.len(),
{
    if s.len() == 0 {
        seq![]
    } else {
        insert_by_ppq(sort_by_ppq(s.drop_last()), s.last())
    }
}

/// The index at which `insert_by_ppq` puts `e`.
pub open spec fn insert_index(s: Seq<EventView>, e: EventView) -> int
    decreases s.len(),
{
    if s.len() == 0 || s.last().ppq <= e.ppq {
        s.len() as int
    } else {
        insert_index(s.drop_last(), e)
    }
}

proof fn lemma_insert_index(s: Seq<EventView>, e: EventView)
    ensures
        0 <= insert_index(s, e) <= s.len(),
        insert_by_ppq(s, e) == s.insert(insert_index(s, e), e),
        forall|i: int| insert_index(s, e) <= i < s.len() ==> #[trigger] s[i].ppq > e.ppq,
        insert_index(s, e) > 0 ==> s[insert_index(s, e) - 1].ppq <= e.ppq,
    decreases s.len(),
{
    if s.len() > 0 && s.last().ppq > e.ppq {
        lemma_insert_index(s.drop_last(), e);
        let j = insert_index(s.drop_last(), e);
        assert(s.drop_last().insert(j, e).push(s.last()) =~= s.insert(j, e));
        assert forall|i: int| j <= i < s.len() implies #[trigger] s[i].ppq > e.ppq by {
            if i < s.len() - 1 {
                assert(s[i] == s.drop_last()[i]);
            }
        }
    } else {
        assert(s.push(e) =~= s.insert(s.len() as int, e));
    }
}

/// Events in order of position, none before 0.
pub open spec fn is_sorted(s: Seq<EventView>) -> bool {
    sorted_from(s, 0)
}

proof fn lemma_insert_sorted(s: Seq<EventView>, e: EventView)
    requires
        is_sorted(s),
    ensures
        is_sorted(insert_by_ppq(s, e)),
        insert_by_ppq(s, e).to_multiset() == s.to_multiset().insert(e),
        (s.len() == 0 || s.last().ppq <= e.ppq) ==> insert_by_ppq(s, e) == s.push(e),
{
    lemma_insert_index(s, e);
    let j = insert_index(s, e);
    let t = s.insert(j, e);
    assert forall|i: int| 0 < i < t.len() implies #[trigger] t[i - 1].ppq <= t[i].ppq by {
        if i < j {
            assert(t[i - 1] == s[i - 1] && t[i] == s[i]);
        } else if i == j {
            assert(t[i] == e && t[i - 1] == s[j - 1]);
        } else if i == j + 1 {
            assert(t[i - 1] == e && t[i] == s[j]);
        } else {
            assert(t[i - 1] == s[i - 2] && t[i] == s[i - 1]);
            assert(s[(i - 1) - 1].ppq <= s[i - 1].ppq);
        }
    }
    vstd::seq_lib::to_multiset_insert(s, j, e);
}

/// Sorting gives events in order of position, the same events, and
/// leaves events already in order as they are.
pub proof fn law_sort_by_ppq(s: Seq<EventView>)
    ensures
        is_sorted(sort_by_ppq(s)),
        sort_by_ppq(s).to_multiset() == s.to_multiset(),
        is_sorted(s) ==> sort_by_ppq(s) == s,
    decreases s.len(),
{
    if s.len() == 0 {
        assert(sort_by_ppq(s) =~= s);
    } else {
        let w = s.drop_last();
        law_sort_by_ppq(w);
        lemma_insert_sorted(sort_by_ppq(w), s.last());
        assert(s =~= w.push(s.last()));
        vstd::seq_lib::to_multiset_build(w, s.last());
        if is_sorted(s) {
            assert(is_sorted(w)) by {
                assert forall|i: int| 0 < i < w.len() implies #[trigger] w[i - 1].ppq <= w[i].ppq by {
                    assert(s[i - 1].ppq <= s[i].ppq);
                }
            }
            if w.len() > 0 {
                assert(s[s.len() - 1 - 1].ppq <= s[s.len() - 1].ppq);
                assert(sort_by_ppq(w).last() == w.last());
            }
        }
    }
}

/// Whether an event stands at position `p`.
pub open spec fn at_ppq(p: u32) -> spec_fn(EventView) -> bool {
    |e: EventView| e.ppq == p
}

proof fn lemma_insert_keeps_position_order(t: Seq<EventView>, e: EventView, p: u32)
    ensures
        insert_by_ppq(t, e).filter(at_ppq(p)) == (if e.ppq == p {
            t.filter(at_ppq(p)).push(e)
        } else {
            t.filter(at_ppq(p))
        }),
    decreases t.len(),
{
    let f = at_ppq(p);
    reveal(Seq::filter);
    assert(f(e) == (e.ppq == p));
    if t.len() == 0 || t.last().ppq <= e.ppq {
        let u = t.push(e);
        assert(u.drop_last() =~= t);
        assert(u.last() == e);
        assert(u.filter(f) == (if f(e) { t.filter(f).push(e) } else { t.filter(f) }));
    } else {
        let w = t.drop_last();
        lemma_insert_keeps_position_order(w, e, p);
        let v = insert_by_ppq(w, e);
        let u = v.push(t.last());
        assert(u.drop_last() =~= v);
        assert(u.last() == t.last());
        assert(f(t.last()) == (t.last().ppq == p));
        assert(u.filter(f) == (if f(t.last()) { v.filter(f).push(t.last()) } else { v.filter(f) }));
        assert(t.filter(f) == (if f(t.last()) { w.filter(f).push(t.last()) } else { w.filter(f) }));
    }
}

/// Sorting keeps the order of the events at each position: the events at
/// one position come out in the order they came in.
pub proof fn law_sort_is_stable(s: Seq<EventView>, p: u32)
    ensures
        sort_by_ppq(s).filter(at_ppq(p)) == s.filter(at_ppq(p)),
    decreases s.len(),
{
    let f = at_ppq(p);
    reveal(Seq::filter);
    if s.len() == 0 {
        assert(sort_by_ppq(s) =~= s);
    } else {
        let w = s.drop_last();
        law_sort_is_stable(w, p);
        lemma_insert_keeps_position_order(sort_by_ppq(w), s.last(), p);
        assert(f(s.last()) == (s.last().ppq == p));
        assert(s.filter(f) == (if f(s.last()) { w.filter(f).push(s.last()) } else { w.filter(f) }));
    }
}

/// Make sure, that events will be iterated back in right order: sorted by
/// position, events at one position keeping their order.
pub fn sorted_by_ppq(events: Vec<MidiEvent<RawMidiMessage>>) -> (r: Vec<
    MidiEvent<RawMidiMessage>,
>)
    ensures
        views(r@) == sort_by_ppq(views(events@)),
{
    let mut input = events;
    let n = input.len();
    let ghost all = views(input@);
    let mut out: Vec<MidiEvent<RawMidiMessage>> = Vec::new();
    let mut taken: usize = 0;
    proof {
        assert(all.take(0) =~= Seq::<EventView>::empty());
    }
    while input.len() > 0
        invariant
            taken <= all.len(),
            taken + input@.len() == all.len(),
            all.len() <= usize::MAX,
            views(input@) == all.skip(taken as int),
            views(out@) == sort_by_ppq(all.take(taken as int)),
        decreases input@.len(),
    {
        let e = input.remove(0);
        let ghost ev = e@;
        assert(ev == all[taken as int]) by {
            assert(views(input@) =~= all.skip(taken as int).drop_first());
            assert(all.skip(taken as int)[0] == all[taken as int]);
        }
        let ppq = e.ppq_position();
        let mut p = out.len();
        proof {
            lemma_insert_index(views(out@), ev);
        }
        while p > 0 && out[p - 1].ppq_position() > ppq
            invariant
                p <= out@.len(),
                ppq == ev.ppq,
                forall|i: int| p <= i < out@.len() ==> #[trigger] views(out@)[i].ppq > ev.ppq,
            decreases p,
        {
            assert(out@[p - 1]@ == views(out@)[p - 1]);
            p = p - 1;
        }
        proof {
            let o = views(out@);
            lemma_insert_index(o, ev);
            let j = insert_index(o, ev);
            if p > 0 {
                assert(out@[p - 1]@ == o[p - 1]);
                assert(o[p - 1].ppq <= ev.ppq);
            }
            if p < j {
                assert(o[j - 1].ppq <= ev.ppq);
                assert(o[j - 1].ppq > ev.ppq);
            }
            if p > j {
                assert(o[p - 1].ppq > ev.ppq);
            }
        }
        let ghost before = out@;
        out.insert(p, e);
        proof {
            let o = views(before);
            lemma_insert_index(o, ev);
            assert(views(out@) =~= o.insert(p as int, ev));
            assert(all.take(taken + 1).drop_last() =~= all.take(taken as int));
            assert(all.take(taken + 1).last() == ev);
            assert(all.skip(taken + 1) =~= all.skip(taken as int).drop_first());
        }
        taken = taken + 1;
    }
    assert(all.take(taken as int) =~= all) by {
        assert(all.skip(taken as int).len() == 0);
    }
    out
}

} // verus!
