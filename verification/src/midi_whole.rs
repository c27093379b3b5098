//! What reading a raw take-MIDI buffer by every kind of event, and writing
//! all of them back, gives.
use vstd::prelude::*;
use vstd::multiset::Multiset;
use crate::midi_event::{note_of, note_off_view, note_on_view, EventView, MidiNoteEvent};
use crate::midi_filter::{
    all_defined, ccbz_prefix, filter_accepted, filter_merged, filter_sys, merge_ready,
    merged_head, merged_len, sys_defined, sys_keeps,
};
use crate::midi_flatten::{is_sorted, law_sort_by_ppq, notes_flat, sort_by_ppq, split_flat, split_parts};
use crate::midi_laws::{lemma_notes_flat_concat, lemma_split_flat_concat, notes_balanced, plain_note, plain_notes};
use crate::midi_message::{
    AfterTouchMessage, CCMessage, ChannelPressureMessage, MidiMessage, PitchBendMessage,
    ProgramChangeMessage,
};
use crate::midi_notes::{first_match_from, is_note_off, is_note_on, lemma_first_match_pub, matches_off, notes_all, notes_defined, take_out};
use crate::midi_raw::{lemma_write_of_read, parse_all, stream_ok, well_formed_records};
use crate::midi_shape::CcShapeKind;

verus! {

broadcast use {vstd::seq_lib::group_to_multiset_ensures, vstd::seq_lib::lemma_multiset_commutative};

/// `c` is the curve data of `h`: a square event at its position with its
/// flags, whose message is the curve-data system message.
pub open spec fn is_curve_of(h: EventView, c: EventView) -> bool {
    &&& c == (EventView { shape: CcShapeKind::Square, msg: c.msg, ..h })
    &&& c.msg.len() >= 6
    &&& c.msg.subrange(0, 6) == ccbz_prefix()
}

/// An event that one of the filters reads: a note-on or note-off (three
/// bytes, square, with the given flags), a CC (three bytes), channel
/// pressure (two bytes), aftertouch, program change or pitch bend, or a
/// system message other than curve data; and only a
/// CC or channel pressure has a Bezier shape.
pub open spec fn item_head_ok(h: EventView, sel: bool, mute: bool) -> bool {
    &&& h.msg.len() > 0
    &&& (is_note_on(h.msg) || is_note_off(h.msg)) ==> plain_note(h, sel, mute)
    &&& {
        ||| is_note_on(h.msg)
        ||| is_note_off(h.msg)
        ||| CCMessage::accepts(h.msg) && h.msg.len() == 3
        ||| ChannelPressureMessage::accepts(h.msg) && h.msg.len() == 2
        ||| AfterTouchMessage::accepts(h.msg)
        ||| ProgramChangeMessage::accepts(h.msg)
        ||| PitchBendMessage::accepts(h.msg)
        ||| sys_keeps(h.msg)
    }
    &&& h.shape == CcShapeKind::Beizer ==> CCMessage::accepts(h.msg)
        || ChannelPressureMessage::accepts(h.msg)
}

/// Every event is one that a filter reads, every event with a Bezier
/// shape is followed by its curve data, and curve data comes only there.
pub open spec fn whole_stream(es: Seq<EventView>, sel: bool, mute: bool) -> bool
    decreases es.len(),
{
    es.len() == 0 || {
        &&& item_head_ok(es[0], sel, mute)
        &&& (es[0].shape == CcShapeKind::Beizer ==> es.len() >= 2 && is_curve_of(es[0], es[1]))
        &&& whole_stream(es.skip(merged_len(es)), sel, mute)
    }
}

/// The raw events of every kind read from `es` with `pending` note-ons
/// waiting: notes, channel pressure and CC split from their curve data,
/// aftertouch, program change, pitch bend and system messages.
pub open spec fn kinds_flat(es: Seq<EventView>, pending: Seq<EventView>) -> Seq<EventView> {
    notes_flat(notes_all(es, pending)) + split_flat::<ChannelPressureMessage>(
        filter_merged::<ChannelPressureMessage>(es),
    ) + split_flat::<CCMessage>(filter_merged::<CCMessage>(es)) + filter_accepted::<
        AfterTouchMessage,
    >(es) + filter_accepted::<ProgramChangeMessage>(es) + filter_accepted::<PitchBendMessage>(es)
        + filter_sys(es)
}

/// Every filter can read every event.
pub open spec fn kinds_defined(es: Seq<EventView>) -> bool {
    &&& notes_defined(es)
    &&& merge_ready::<CCMessage>(es)
    &&& merge_ready::<ChannelPressureMessage>(es)
    &&& all_defined::<AfterTouchMessage>(es)
    &&& all_defined::<ProgramChangeMessage>(es)
    &&& all_defined::<PitchBendMessage>(es)
    &&& forall|i: int| 0 <= i < es.len() ==> sys_defined(#[trigger] es[i].msg)
}

/// An event that is not curve data read by itself into the merged
/// filters gives itself.
proof fn lemma_single_item<T: MidiMessage>(h: EventView)
    requires
        T::accepts(h.msg) ==> T::borrowed_len(h.msg) == h.msg.len(),
    ensures
        T::accepts(h.msg) ==> split_flat::<T>(seq![h]) == seq![h],
{
    if T::accepts(h.msg) {
        assert(seq![h].drop_last() =~= Seq::<EventView>::empty());
        assert(split_flat::<T>(Seq::<EventView>::empty()) =~= Seq::<EventView>::empty());
        assert(h.msg.subrange(0, h.msg.len() as int) =~= h.msg);
        assert(split_parts(h, h.msg.len() as int) =~= seq![h]);
        assert(split_flat::<T>(seq![h]) =~= seq![h]);
    }
}

/// An event with its curve data, read into a merged filter that takes it,
/// gives the two events back.
proof fn lemma_curve_item<T: MidiMessage>(h: EventView, c: EventView)
    requires
        is_curve_of(h, c),
        T::borrowed_len(h.msg + c.msg) == h.msg.len(),
    ensures
        split_flat::<T>(seq![h.with_msg(h.msg + c.msg)]) == seq![h, c],
{
    let m = h.with_msg(h.msg + c.msg);
    assert(seq![m].drop_last() =~= Seq::<EventView>::empty());
    assert(split_flat::<T>(Seq::<EventView>::empty()) =~= Seq::<EventView>::empty());
    assert(m.msg.subrange(0, h.msg.len() as int) =~= h.msg);
    assert(m.msg.skip(h.msg.len() as int) =~= c.msg);
    assert(split_parts(m, h.msg.len() as int) =~= seq![h, c]);
    assert(split_flat::<T>(seq![m]) =~= seq![h, c]);
}

/// The events after the first, when it is not curve data.
proof fn lemma_skip_one(es: Seq<EventView>)
    requires
        es.len() > 0,
    ensures
        es.skip(1) == es.drop_first(),
{
    assert(es.skip(1) =~= es.drop_first());
}

/// A note-on is put among the waiting ones.
proof fn lemma_note_on_step(es: Seq<EventView>, pending: Seq<EventView>, sel: bool, mute: bool)
    requires
        es.len() > 0,
        is_note_on(es[0].msg),
        plain_note(es[0], sel, mute),
        plain_notes(pending, sel, mute),
        forall|i: int| 0 <= i < pending.len() ==> is_note_on((#[trigger] pending[i]).msg),
        notes_balanced(es, pending),
    ensures
        notes_all(es, pending) == notes_all(es.drop_first(), pending.push(es[0])),
        notes_balanced(es.drop_first(), pending.push(es[0])),
        plain_notes(pending.push(es[0]), sel, mute),
        forall|i: int|
            0 <= i < pending.push(es[0]).len() ==> is_note_on(
                (#[trigger] pending.push(es[0])[i]).msg,
            ),
        pending.push(es[0]).to_multiset() == pending.to_multiset().insert(es[0]),
{
    let h = es[0];
    let p2 = pending.push(h);
    assert forall|i: int| 0 <= i < p2.len() implies plain_note(#[trigger] p2[i], sel, mute) by {
        if i < pending.len() {
            assert(p2[i] == pending[i]);
        }
    }
    assert forall|i: int| 0 <= i < p2.len() implies is_note_on((#[trigger] p2[i]).msg) by {
        if i < pending.len() {
            assert(p2[i] == pending[i]);
        }
    }
}

/// A note-off ends a waiting note-on: the note's raw events are the two.
proof fn lemma_note_off_step(es: Seq<EventView>, pending: Seq<EventView>, sel: bool, mute: bool) -> (j: int)
    requires
        es.len() > 0,
        is_note_off(es[0].msg),
        !is_note_on(es[0].msg),
        plain_note(es[0], sel, mute),
        plain_notes(pending, sel, mute),
        forall|i: int| 0 <= i < pending.len() ==> is_note_on((#[trigger] pending[i]).msg),
        notes_balanced(es, pending),
    ensures
        0 <= j < pending.len(),
        notes_all(es, pending) == seq![note_of(pending[j], es[0])] + notes_all(
            es.drop_first(),
            take_out(pending, j),
        ),
        notes_balanced(es.drop_first(), take_out(pending, j)),
        plain_notes(take_out(pending, j), sel, mute),
        forall|i: int|
            0 <= i < take_out(pending, j).len() ==> is_note_on(
                (#[trigger] take_out(pending, j)[i]).msg,
            ),
        take_out(pending, j).to_multiset() == pending.to_multiset().remove(pending[j]),
        notes_flat(seq![note_of(pending[j], es[0])]) == seq![pending[j], es[0]],
        pending.to_multiset().count(pending[j]) > 0,
{
    let h = es[0];
    let j = first_match_from(pending, h, 0)->0;
    lemma_first_match_pub(pending, h, 0);
    let on = pending[j];
    let n = note_of(on, h);
    let p2 = take_out(pending, j);
    assert(plain_note(on, sel, mute));
    assert forall|i: int| 0 <= i < p2.len() implies plain_note(#[trigger] p2[i], sel, mute) by {
        if i == j {
            assert(p2[i] == pending[pending.len() - 1]);
        } else {
            assert(p2[i] == pending[i]);
        }
    }
    assert forall|i: int| 0 <= i < p2.len() implies is_note_on((#[trigger] p2[i]).msg) by {
        if i == j {
            assert(p2[i] == pending[pending.len() - 1]);
        } else {
            assert(p2[i] == pending[i]);
        }
    }
    crate::midi_laws::lemma_take_out_multiset_pub(pending, j);
    assert(seq![n].drop_last() =~= Seq::<MidiNoteEvent>::empty());
    assert(seq![n].last() == n);
    assert(notes_flat(Seq::<MidiNoteEvent>::empty()) =~= Seq::<EventView>::empty());
    assert(notes_flat(seq![n]) =~= seq![note_on_view(n), note_off_view(n)]);
    assert(note_on_view(n) =~= on) by {
        assert(note_on_view(n).msg =~= on.msg);
    }
    assert(note_off_view(n) =~= h) by {
        assert(matches_off(on, h));
        assert(note_off_view(n).msg =~= h.msg);
    }
    assert(pending.contains(on)) by {
        assert(pending[j] == on);
    }
    j
}

/// The raw events of every kind but notes.
pub open spec fn others_flat(es: Seq<EventView>) -> Seq<EventView> {
    split_flat::<ChannelPressureMessage>(filter_merged::<ChannelPressureMessage>(es))
        + split_flat::<CCMessage>(filter_merged::<CCMessage>(es)) + filter_accepted::<
        AfterTouchMessage,
    >(es) + filter_accepted::<ProgramChangeMessage>(es) + filter_accepted::<PitchBendMessage>(es)
        + filter_sys(es)
}

proof fn lemma_kinds_split(es: Seq<EventView>, pending: Seq<EventView>)
    ensures
        kinds_flat(es, pending).to_multiset() == notes_flat(notes_all(es, pending)).to_multiset().add(
            others_flat(es).to_multiset(),
        ),
{
    assert(kinds_flat(es, pending) =~= notes_flat(notes_all(es, pending)) + others_flat(es));
}

/// A note event is read by no filter but the notes.
proof fn lemma_note_head_others(es: Seq<EventView>, sel: bool, mute: bool)
    requires
        es.len() > 0,
        es[0].shape != CcShapeKind::Beizer,
        is_note_on(es[0].msg) || is_note_off(es[0].msg),
    ensures
        others_flat(es) == others_flat(es.drop_first()),
{
    let h = es[0];
    let rest = es.drop_first();
    lemma_skip_one(es);
    assert(!sys_keeps(h.msg));
    assert(!CCMessage::accepts(h.msg));
    assert(!ChannelPressureMessage::accepts(h.msg));
    assert(!AfterTouchMessage::accepts(h.msg));
    assert(!ProgramChangeMessage::accepts(h.msg));
    assert(!PitchBendMessage::accepts(h.msg));
    assert(merged_head(es) == h);
    assert(merged_len(es) == 1);
    assert(filter_merged::<CCMessage>(es) == filter_merged::<CCMessage>(rest));
    assert(filter_merged::<ChannelPressureMessage>(es) == filter_merged::<ChannelPressureMessage>(
        rest,
    ));
    assert(filter_accepted::<AfterTouchMessage>(es) == filter_accepted::<AfterTouchMessage>(rest));
    assert(filter_accepted::<ProgramChangeMessage>(es) == filter_accepted::<ProgramChangeMessage>(
        rest,
    ));
    assert(filter_accepted::<PitchBendMessage>(es) == filter_accepted::<PitchBendMessage>(rest));
    assert(filter_sys(es) == filter_sys(rest));
}

/// An event of another kind, not curve data, is read by exactly one
/// filter.
proof fn lemma_other_head(es: Seq<EventView>, pending: Seq<EventView>, sel: bool, mute: bool)
    requires
        es.len() > 0,
        es[0].shape != CcShapeKind::Beizer,
        item_head_ok(es[0], sel, mute),
        !is_note_on(es[0].msg),
        !is_note_off(es[0].msg),
    ensures
        notes_all(es, pending) == notes_all(es.drop_first(), pending),
        notes_balanced(es, pending) == notes_balanced(es.drop_first(), pending),
        others_flat(es).to_multiset() == others_flat(es.drop_first()).to_multiset().insert(es[0]),
{
    let h = es[0];
    let rest = es.drop_first();
    lemma_skip_one(es);
    assert(merged_head(es) == h);
    assert(merged_len(es) == 1);
    lemma_single_item::<CCMessage>(h);
    lemma_single_item::<ChannelPressureMessage>(h);
    let cp = filter_merged::<ChannelPressureMessage>(rest);
    let cc = filter_merged::<CCMessage>(rest);
    let at = filter_accepted::<AfterTouchMessage>(rest);
    let pc = filter_accepted::<ProgramChangeMessage>(rest);
    let pb = filter_accepted::<PitchBendMessage>(rest);
    let sy = filter_sys(rest);
    lemma_split_flat_concat::<CCMessage>(seq![h], cc);
    lemma_split_flat_concat::<ChannelPressureMessage>(seq![h], cp);
    let o = others_flat(rest);
    assert(seq![h].to_multiset() =~= Multiset::empty().insert(h)) by {
        assert(seq![h] =~= Seq::<EventView>::empty().push(h));
    }
    if CCMessage::accepts(h.msg) {
        assert(filter_merged::<CCMessage>(es) == seq![h] + cc);
        assert(others_flat(es) =~= split_flat::<ChannelPressureMessage>(cp) + (seq![h]
            + split_flat::<CCMessage>(cc)) + at + pc + pb + sy);
    } else if ChannelPressureMessage::accepts(h.msg) {
        assert(filter_merged::<ChannelPressureMessage>(es) == seq![h] + cp);
        assert(others_flat(es) =~= (seq![h] + split_flat::<ChannelPressureMessage>(cp))
            + split_flat::<CCMessage>(cc) + at + pc + pb + sy);
    } else if AfterTouchMessage::accepts(h.msg) {
        assert(others_flat(es) =~= split_flat::<ChannelPressureMessage>(cp) + split_flat::<
            CCMessage,
        >(cc) + (seq![h] + at) + pc + pb + sy);
    } else if ProgramChangeMessage::accepts(h.msg) {
        assert(others_flat(es) =~= split_flat::<ChannelPressureMessage>(cp) + split_flat::<
            CCMessage,
        >(cc) + at + (seq![h] + pc) + pb + sy);
    } else if PitchBendMessage::accepts(h.msg) {
        assert(others_flat(es) =~= split_flat::<ChannelPressureMessage>(cp) + split_flat::<
            CCMessage,
        >(cc) + at + pc + (seq![h] + pb) + sy);
    } else {
        assert(sys_keeps(h.msg));
        assert(others_flat(es) =~= split_flat::<ChannelPressureMessage>(cp) + split_flat::<
            CCMessage,
        >(cc) + at + pc + pb + (seq![h] + sy));
    }
    assert(others_flat(es).to_multiset() =~= o.to_multiset().insert(h));
}

/// An event with a Bezier shape and its curve data are read by the
/// merged filter of its kind alone.
proof fn lemma_curve_head(es: Seq<EventView>, pending: Seq<EventView>, sel: bool, mute: bool)
    requires
        es.len() >= 2,
        es[0].shape == CcShapeKind::Beizer,
        item_head_ok(es[0], sel, mute),
        is_curve_of(es[0], es[1]),
    ensures
        notes_all(es, pending) == notes_all(es.skip(2), pending),
        notes_balanced(es, pending) == notes_balanced(es.skip(2), pending),
        others_flat(es).to_multiset() == others_flat(es.skip(2)).to_multiset().insert(es[0]).insert(
            es[1],
        ),
{
    let h = es[0];
    let c = es[1];
    let r1 = es.drop_first();
    let rest = es.skip(2);
    assert(r1.drop_first() =~= rest);
    assert(r1[0] == c);
    assert(merged_len(es) == 2);
    assert(c.msg[0] == 255);
    assert(!sys_keeps(c.msg));
    assert(!is_note_on(c.msg) && !is_note_off(c.msg));
    assert(!is_note_on(h.msg) && !is_note_off(h.msg));
    assert(!sys_keeps(h.msg));
    assert(!AfterTouchMessage::accepts(h.msg) && !AfterTouchMessage::accepts(c.msg));
    assert(!ProgramChangeMessage::accepts(h.msg) && !ProgramChangeMessage::accepts(c.msg));
    assert(!PitchBendMessage::accepts(h.msg) && !PitchBendMessage::accepts(c.msg));
    assert(notes_all(r1, pending) == notes_all(rest, pending));
    assert(notes_balanced(r1, pending) == notes_balanced(rest, pending));
    assert(filter_accepted::<AfterTouchMessage>(r1) == filter_accepted::<AfterTouchMessage>(rest));
    assert(filter_accepted::<ProgramChangeMessage>(r1) == filter_accepted::<ProgramChangeMessage>(
        rest,
    ));
    assert(filter_accepted::<PitchBendMessage>(r1) == filter_accepted::<PitchBendMessage>(rest));
    assert(filter_sys(r1) == filter_sys(rest));
    let m = merged_head(es);
    assert(m == h.with_msg(h.msg + c.msg));
    assert(m.msg[0] == h.msg[0]);
    let cp = filter_merged::<ChannelPressureMessage>(rest);
    let cc = filter_merged::<CCMessage>(rest);
    let at = filter_accepted::<AfterTouchMessage>(rest);
    let pc = filter_accepted::<ProgramChangeMessage>(rest);
    let pb = filter_accepted::<PitchBendMessage>(rest);
    let sy = filter_sys(rest);
    assert(seq![h, c].to_multiset() =~= Multiset::empty().insert(h).insert(c)) by {
        assert(seq![h, c] =~= Seq::<EventView>::empty().push(h).push(c));
    }
    if CCMessage::accepts(h.msg) {
        assert(filter_merged::<CCMessage>(es) == seq![m] + cc);
        assert(filter_merged::<ChannelPressureMessage>(es) == cp);
        lemma_curve_item::<CCMessage>(h, c);
        lemma_split_flat_concat::<CCMessage>(seq![m], cc);
        assert(others_flat(es) =~= split_flat::<ChannelPressureMessage>(cp) + (seq![h, c]
            + split_flat::<CCMessage>(cc)) + at + pc + pb + sy);
    } else {
        assert(filter_merged::<ChannelPressureMessage>(es) == seq![m] + cp);
        assert(filter_merged::<CCMessage>(es) == cc);
        lemma_curve_item::<ChannelPressureMessage>(h, c);
        lemma_split_flat_concat::<ChannelPressureMessage>(seq![m], cp);
        assert(others_flat(es) =~= (seq![h, c] + split_flat::<ChannelPressureMessage>(cp))
            + split_flat::<CCMessage>(cc) + at + pc + pb + sy);
    }
    assert(others_flat(es).to_multiset() =~= others_flat(rest).to_multiset().insert(h).insert(c));
}

/// The events that the filters read can be read one by one.
proof fn lemma_extend_defined(es: Seq<EventView>, k: int)
    requires
        1 <= k <= 2,
        k <= es.len(),
        notes_defined(es.skip(k)),
        all_defined::<AfterTouchMessage>(es.skip(k)),
        all_defined::<ProgramChangeMessage>(es.skip(k)),
        all_defined::<PitchBendMessage>(es.skip(k)),
        forall|i: int| 0 <= i < es.skip(k).len() ==> sys_defined(#[trigger] es.skip(k)[i].msg),
        forall|i: int|
            0 <= i < k ==> (#[trigger] es[i].msg).len() > 0 && (is_note_on(es[i].msg)
                || is_note_off(es[i].msg) ==> es[i].msg.len() == 3) && sys_defined(es[i].msg),
    ensures
        notes_defined(es),
        all_defined::<AfterTouchMessage>(es),
        all_defined::<ProgramChangeMessage>(es),
        all_defined::<PitchBendMessage>(es),
        forall|i: int| 0 <= i < es.len() ==> sys_defined(#[trigger] es[i].msg),
{
    let r = es.skip(k);
    assert forall|i: int| 0 <= i < es.len() implies (#[trigger] es[i].msg).len() > 0 && (is_note_on(
        es[i].msg,
    ) || is_note_off(es[i].msg) ==> es[i].msg.len() == 3) && sys_defined(es[i].msg) by {
        if i >= k {
            assert(es[i] == r[i - k]);
        }
    }
}

/// The multiset claim for one item, from the claim for the events after
/// it: a note-on.
#[verifier::spinoff_prover]
proof fn lemma_step_note_on(es: Seq<EventView>, pending: Seq<EventView>, sel: bool, mute: bool)
    requires
        es.len() > 0,
        es[0].shape != CcShapeKind::Beizer,
        is_note_on(es[0].msg),
        notes_all(es, pending) == notes_all(es.drop_first(), pending.push(es[0])),
        pending.push(es[0]).to_multiset() == pending.to_multiset().insert(es[0]),
        kinds_flat(es.drop_first(), pending.push(es[0])).to_multiset() == es.drop_first().to_multiset().add(
            pending.push(es[0]).to_multiset(),
        ),
    ensures
        kinds_flat(es, pending).to_multiset() == es.to_multiset().add(pending.to_multiset()),
{
    let h = es[0];
    let rest = es.drop_first();
    let p2 = pending.push(h);
    lemma_note_head_others(es, sel, mute);
    lemma_kinds_split(es, pending);
    lemma_kinds_split(rest, p2);
    assert(es =~= seq![h] + rest);
    assert(seq![h].to_multiset() =~= Multiset::empty().insert(h)) by {
        assert(seq![h] =~= Seq::<EventView>::empty().push(h));
    }
    assert(kinds_flat(es, pending).to_multiset() =~= es.to_multiset().add(pending.to_multiset()));
}

/// The multiset claim for one item, from the claim for the events after
/// it: a note-off that ends the waiting note-on at `j`.
#[verifier::spinoff_prover]
proof fn lemma_step_note_off(
    es: Seq<EventView>,
    pending: Seq<EventView>,
    j: int,
    sel: bool,
    mute: bool,
)
    requires
        es.len() > 0,
        es[0].shape != CcShapeKind::Beizer,
        is_note_off(es[0].msg),
        0 <= j < pending.len(),
        notes_all(es, pending) == seq![note_of(pending[j], es[0])] + notes_all(
            es.drop_first(),
            take_out(pending, j),
        ),
        take_out(pending, j).to_multiset() == pending.to_multiset().remove(pending[j]),
        notes_flat(seq![note_of(pending[j], es[0])]) == seq![pending[j], es[0]],
        pending.to_multiset().count(pending[j]) > 0,
        kinds_flat(es.drop_first(), take_out(pending, j)).to_multiset() == es.drop_first().to_multiset().add(
            take_out(pending, j).to_multiset(),
        ),
    ensures
        kinds_flat(es, pending).to_multiset() == es.to_multiset().add(pending.to_multiset()),
{
    let h = es[0];
    let rest = es.drop_first();
    let p2 = take_out(pending, j);
    let n = note_of(pending[j], h);
    lemma_note_head_others(es, sel, mute);
    lemma_kinds_split(es, pending);
    lemma_kinds_split(rest, p2);
    lemma_notes_flat_concat(seq![n], notes_all(rest, p2));
    assert(es =~= seq![h] + rest);
    assert(seq![h].to_multiset() =~= Multiset::empty().insert(h)) by {
        assert(seq![h] =~= Seq::<EventView>::empty().push(h));
    }
    assert(seq![pending[j], h].to_multiset() =~= Multiset::empty().insert(pending[j]).insert(h))
        by {
        assert(seq![pending[j], h] =~= Seq::<EventView>::empty().push(pending[j]).push(h));
    }
    let on = pending[j];
    let pm = pending.to_multiset();
    let n_es = notes_flat(notes_all(es, pending)).to_multiset();
    let n_r = notes_flat(notes_all(rest, p2)).to_multiset();
    let o = others_flat(rest).to_multiset();
    assert(n_es =~= n_r.insert(on).insert(h));
    assert(es.to_multiset() =~= rest.to_multiset().insert(h));
    assert(p2.to_multiset() =~= pm.remove(on));
    assert(pm.remove(on).insert(on) =~= pm);
    assert(n_r.add(o) =~= rest.to_multiset().add(pm.remove(on)));
    assert(n_r.insert(on).insert(h).add(o) =~= n_r.add(o).insert(on).insert(h));
    assert(rest.to_multiset().add(pm.remove(on)).insert(on).insert(h) =~= rest.to_multiset().insert(
        h,
    ).add(pm));
}

/// The multiset claim for one item, from the claim for the events after
/// it: an event of another kind.
#[verifier::spinoff_prover]
proof fn lemma_step_other(es: Seq<EventView>, pending: Seq<EventView>, sel: bool, mute: bool)
    requires
        es.len() > 0,
        es[0].shape != CcShapeKind::Beizer,
        item_head_ok(es[0], sel, mute),
        !is_note_on(es[0].msg),
        !is_note_off(es[0].msg),
        kinds_flat(es.drop_first(), pending).to_multiset() == es.drop_first().to_multiset().add(
            pending.to_multiset(),
        ),
    ensures
        kinds_flat(es, pending).to_multiset() == es.to_multiset().add(pending.to_multiset()),
{
    let h = es[0];
    let rest = es.drop_first();
    lemma_other_head(es, pending, sel, mute);
    lemma_kinds_split(es, pending);
    lemma_kinds_split(rest, pending);
    assert(es =~= seq![h] + rest);
    assert(seq![h].to_multiset() =~= Multiset::empty().insert(h)) by {
        assert(seq![h] =~= Seq::<EventView>::empty().push(h));
    }
    let nr = notes_flat(notes_all(rest, pending)).to_multiset();
    let orr = others_flat(rest).to_multiset();
    assert(es.to_multiset() =~= rest.to_multiset().insert(h));
    assert(nr.add(orr.insert(h)) =~= nr.add(orr).insert(h));
    assert(rest.to_multiset().add(pending.to_multiset()).insert(h) =~= rest.to_multiset().insert(
        h,
    ).add(pending.to_multiset()));
}

/// The multiset claim for one item, from the claim for the events after
/// it: an event with its curve data.
#[verifier::spinoff_prover]
proof fn lemma_step_curve(es: Seq<EventView>, pending: Seq<EventView>, sel: bool, mute: bool)
    requires
        es.len() >= 2,
        es[0].shape == CcShapeKind::Beizer,
        item_head_ok(es[0], sel, mute),
        is_curve_of(es[0], es[1]),
        kinds_flat(es.skip(2), pending).to_multiset() == es.skip(2).to_multiset().add(
            pending.to_multiset(),
        ),
    ensures
        kinds_flat(es, pending).to_multiset() == es.to_multiset().add(pending.to_multiset()),
{
    let h = es[0];
    let c = es[1];
    let rest = es.skip(2);
    lemma_curve_head(es, pending, sel, mute);
    lemma_kinds_split(es, pending);
    lemma_kinds_split(rest, pending);
    assert(es =~= seq![h, c] + rest);
    assert(seq![h, c].to_multiset() =~= Multiset::empty().insert(h).insert(c)) by {
        assert(seq![h, c] =~= Seq::<EventView>::empty().push(h).push(c));
    }
    let nr = notes_flat(notes_all(rest, pending)).to_multiset();
    let orr = others_flat(rest).to_multiset();
    assert(es.to_multiset() =~= rest.to_multiset().insert(h).insert(c));
    assert(nr.add(orr.insert(h).insert(c)) =~= nr.add(orr).insert(h).insert(c));
    assert(rest.to_multiset().add(pending.to_multiset()).insert(h).insert(c) =~= rest.to_multiset().insert(
        h,
    ).insert(c).add(pending.to_multiset()));
}

/// Reading a whole stream by every kind gives, as a multiset, its events
/// and the waiting note-ons; and every filter can read it.
pub proof fn lemma_kinds_multiset(es: Seq<EventView>, pending: Seq<EventView>, sel: bool, mute: bool)
    requires
        whole_stream(es, sel, mute),
        notes_balanced(es, pending),
        plain_notes(pending, sel, mute),
        forall|i: int| 0 <= i < pending.len() ==> is_note_on((#[trigger] pending[i]).msg),
    ensures
        kinds_flat(es, pending).to_multiset() == es.to_multiset().add(pending.to_multiset()),
        kinds_defined(es),
    decreases es.len(),
{
    if es.len() == 0 {
        assert(pending.to_multiset() =~= Multiset::empty());
        assert(es.to_multiset() =~= Multiset::empty());
        assert(notes_flat(notes_all(es, pending)) =~= Seq::<EventView>::empty());
        assert(split_flat::<ChannelPressureMessage>(filter_merged::<ChannelPressureMessage>(es))
            =~= Seq::<EventView>::empty());
        assert(split_flat::<CCMessage>(filter_merged::<CCMessage>(es)) =~= Seq::<EventView>::empty());
        assert(kinds_flat(es, pending) =~= Seq::<EventView>::empty());
        assert(kinds_defined(es));
    } else {
        let h = es[0];
        assert(item_head_ok(h, sel, mute));
        assert(sys_defined(h.msg));
        if h.shape == CcShapeKind::Beizer {
            let rest = es.skip(2);
            assert(merged_len(es) == 2);
            assert(whole_stream(rest, sel, mute));
            lemma_curve_head(es, pending, sel, mute);
            lemma_kinds_multiset(rest, pending, sel, mute);
            lemma_step_curve(es, pending, sel, mute);
            let c = es[1];
            assert(c.msg.subrange(0, 6) == ccbz_prefix());
            assert(c.msg[0] == 255);
            assert(!is_note_on(c.msg) && !is_note_off(c.msg));
            assert(sys_defined(c.msg));
            lemma_extend_defined(es, 2);
            assert(merge_ready::<CCMessage>(es));
            assert(merge_ready::<ChannelPressureMessage>(es));
        } else {
            let rest = es.drop_first();
            lemma_skip_one(es);
            assert(merged_len(es) == 1);
            assert(merged_head(es) == h);
            assert(whole_stream(rest, sel, mute));
            if is_note_on(h.msg) {
                lemma_note_on_step(es, pending, sel, mute);
                lemma_kinds_multiset(rest, pending.push(h), sel, mute);
                lemma_step_note_on(es, pending, sel, mute);
            } else if is_note_off(h.msg) {
                let j = lemma_note_off_step(es, pending, sel, mute);
                lemma_kinds_multiset(rest, take_out(pending, j), sel, mute);
                lemma_step_note_off(es, pending, j, sel, mute);
            } else {
                lemma_other_head(es, pending, sel, mute);
                lemma_kinds_multiset(rest, pending, sel, mute);
                lemma_step_other(es, pending, sel, mute);
            }
            lemma_extend_defined(es, 1);
            assert(merge_ready::<CCMessage>(es));
            assert(merge_ready::<ChannelPressureMessage>(es));
        }
    }
}

/// A buffer read by every kind of event (notes, channel pressure and CC
/// with their curve data, aftertouch, program change, pitch bend and
/// system messages) and written back in order of position gives its own
/// events in order of position: none lost, none added, each as often;
/// only events at one position may come out in another order. This holds
/// where every event is one that a filter reads, curve data follows just
/// the events with a Bezier shape, every note-off ends an earlier note-on
/// and every note-on is ended, and note events share one set of flags.
pub proof fn law_all_kinds_roundtrip(buf: Seq<u8>, sel: bool, mute: bool)
    requires
        well_formed_records(buf, 0),
        whole_stream(parse_all(buf, 0), sel, mute),
        notes_balanced(parse_all(buf, 0), Seq::empty()),
    ensures
        stream_ok(buf, 0),
        kinds_defined(parse_all(buf, 0)),
        is_sorted(sort_by_ppq(kinds_flat(parse_all(buf, 0), Seq::empty()))),
        sort_by_ppq(kinds_flat(parse_all(buf, 0), Seq::empty())).to_multiset() == parse_all(
            buf,
            0,
        ).to_multiset(),
{
    lemma_write_of_read(buf, 0);
    let es = parse_all(buf, 0);
    let empty = Seq::<EventView>::empty();
    assert(plain_notes(empty, sel, mute));
    lemma_kinds_multiset(es, empty, sel, mute);
    assert(empty.to_multiset() =~= Multiset::empty());
    assert(es.to_multiset().add(Multiset::empty()) =~= es.to_multiset());
    law_sort_by_ppq(kinds_flat(es, empty));
}

} // verus!
