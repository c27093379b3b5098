//! What reading a raw take-MIDI buffer by kind of event and writing the
//! events back gives.
use vstd::prelude::*;
use vstd::multiset::Multiset;
use crate::midi_event::EventView;
use crate::midi_filter::{filter_accepted, filter_merged, merge_ready, merged_head, merged_len, all_defined};
use crate::midi_flatten::{law_sort_by_ppq, sort_by_ppq, split_flat, split_parts, is_sorted};
use crate::midi_message::MidiMessage;
use crate::midi_raw::{encode_all, lemma_write_of_read, parse_all, sorted_from, stream_ok, well_formed_records};
use crate::midi_shape::CcShapeKind;
use crate::midi_event::{note_of, note_off_view, note_on_view, MidiNoteEvent};
use crate::midi_flatten::notes_flat;
use crate::midi_notes::{first_match_from, is_note_off, is_note_on, matches_off, notes_all, notes_defined, pending_ok, take_out};

verus! {

/// Every event is a `T`.
pub open spec fn all_accepted<T: MidiMessage>(es: Seq<EventView>) -> bool {
    forall|i: int| 0 <= i < es.len() ==> T::accepts(#[trigger] es[i].msg)
}

/// Filtering events that are all `T`s keeps them all.
pub proof fn lemma_filter_all_accepted<T: MidiMessage>(es: Seq<EventView>)
    requires
        all_accepted::<T>(es),
    ensures
        filter_accepted::<T>(es) == es,
    decreases es.len(),
{
    if es.len() > 0 {
        assert(all_accepted::<T>(es.drop_first())) by {
            assert forall|i: int| 0 <= i < es.drop_first().len() implies T::accepts(
                #[trigger] es.drop_first()[i].msg,
            ) by {
                assert(es.drop_first()[i] == es[i + 1]);
            }
        }
        lemma_filter_all_accepted::<T>(es.drop_first());
        assert(seq![es[0]] + es.drop_first() =~= es);
    }
}

/// A buffer whose events are all of one kind of short message reads, by
/// that kind, into all its events; written back in order of position,
/// they give the same buffer.
pub proof fn law_filter_roundtrip<T: MidiMessage>(buf: Seq<u8>)
    requires
        well_formed_records(buf, 0),
        all_accepted::<T>(parse_all(buf, 0)),
        all_defined::<T>(parse_all(buf, 0)),
    ensures
        stream_ok(buf, 0),
        filter_accepted::<T>(parse_all(buf, 0)) == parse_all(buf, 0),
        encode_all(sort_by_ppq(filter_accepted::<T>(parse_all(buf, 0))), 0) == buf,
{
    lemma_write_of_read(buf, 0);
    lemma_filter_all_accepted::<T>(parse_all(buf, 0));
    law_sort_by_ppq(parse_all(buf, 0));
}

/// A run of events of one message type with curve data: each event is a
/// `T` that lends all its bytes, and an event with a Bezier shape is
/// followed by its curve data: a message at the same position, with the
/// same flags and a square shape.
pub open spec fn curve_stream<T: MidiMessage>(es: Seq<EventView>) -> bool
    decreases es.len(),
{
    es.len() == 0 || ({
        let h = merged_head(es);
        &&& (es[0].shape == CcShapeKind::Beizer ==> es.len() >= 2 && es[1].msg.len() > 0 && es[1]
            == (EventView { shape: CcShapeKind::Square, msg: es[1].msg, ..es[0] }))
        &&& T::parse_defined(h.msg)
        &&& T::accepts(h.msg)
        &&& T::borrowed_len(h.msg) == es[0].msg.len()
        &&& curve_stream::<T>(es.skip(merged_len(es)))
    })
}

/// Splitting a run of events is splitting its parts.
pub proof fn lemma_split_flat_concat<T: MidiMessage>(a: Seq<EventView>, b: Seq<EventView>)
    ensures
        split_flat::<T>(a + b) == split_flat::<T>(a) + split_flat::<T>(b),
    decreases b.len(),
{
    if b.len() == 0 {
        assert(a + b =~= a);
    } else {
        lemma_split_flat_concat::<T>(a, b.drop_last());
        assert((a + b).drop_last() =~= a + b.drop_last());
        assert((a + b).last() == b.last());
    }
}

/// Reading the events of a curve stream, joined with their curve data,
/// and splitting them again gives the same events.
pub proof fn lemma_curve_stream<T: MidiMessage>(es: Seq<EventView>)
    requires
        curve_stream::<T>(es),
    ensures
        merge_ready::<T>(es),
        split_flat::<T>(filter_merged::<T>(es)) == es,
    decreases es.len(),
{
    if es.len() > 0 {
        let h = merged_head(es);
        let k = merged_len(es);
        let rest = es.skip(k);
        lemma_curve_stream::<T>(rest);
        assert(filter_merged::<T>(es) == seq![h] + filter_merged::<T>(rest));
        lemma_split_flat_concat::<T>(seq![h], filter_merged::<T>(rest));
        assert(split_flat::<T>(seq![h]) == split_parts(h, T::borrowed_len(h.msg))) by {
            assert(seq![h].drop_last() =~= Seq::<EventView>::empty());
            assert(split_flat::<T>(Seq::<EventView>::empty()) =~= Seq::<EventView>::empty());
        }
        if es[0].shape == CcShapeKind::Beizer {
            assert(h.msg.subrange(0, es[0].msg.len() as int) =~= es[0].msg);
            assert(h.msg.skip(es[0].msg.len() as int) =~= es[1].msg);
            assert(split_parts(h, T::borrowed_len(h.msg)) =~= seq![es[0], es[1]]);
            assert(es =~= seq![es[0], es[1]] + rest);
        } else {
            assert(h.msg.subrange(0, es[0].msg.len() as int) =~= es[0].msg);
            assert(split_parts(h, T::borrowed_len(h.msg)) =~= seq![es[0]]);
            assert(es =~= seq![es[0]] + rest);
        }
    } else {
        assert(filter_merged::<T>(es) =~= Seq::<EventView>::empty());
        assert(split_flat::<T>(Seq::<EventView>::empty()) =~= Seq::<EventView>::empty());
    }
}

/// A buffer whose events are all of one message type with curve data
/// (CC or channel pressure) reads, by that type, into events which,
/// split into raw events again and written back in order of position,
/// give the same buffer.
pub proof fn law_curve_roundtrip<T: MidiMessage>(buf: Seq<u8>)
    requires
        well_formed_records(buf, 0),
        curve_stream::<T>(parse_all(buf, 0)),
    ensures
        stream_ok(buf, 0),
        merge_ready::<T>(parse_all(buf, 0)),
        encode_all(sort_by_ppq(split_flat::<T>(filter_merged::<T>(parse_all(buf, 0)))), 0) == buf,
{
    lemma_write_of_read(buf, 0);
    lemma_curve_stream::<T>(parse_all(buf, 0));
    law_sort_by_ppq(parse_all(buf, 0));
}

/// A plain note event: a note-on or note-off of three bytes, square, with
/// the given selected and muted flags.
pub open spec fn plain_note(e: EventView, selected: bool, muted: bool) -> bool {
    &&& is_note_on(e.msg) || is_note_off(e.msg)
    &&& e.msg.len() == 3
    &&& e.shape == CcShapeKind::Square
    &&& e.selected == selected
    &&& e.muted == muted
}

/// Every event is a plain note event with the given flags.
pub open spec fn plain_notes(es: Seq<EventView>, selected: bool, muted: bool) -> bool {
    forall|i: int| 0 <= i < es.len() ==> plain_note(#[trigger] es[i], selected, muted)
}

/// Reading the events with `pending` note-ons waiting, every note-off
/// ends a waiting note-on, and none is left waiting at the end.
pub open spec fn notes_balanced(es: Seq<EventView>, pending: Seq<EventView>) -> bool
    decreases es.len(),
{
    if es.len() == 0 {
        pending.len() == 0
    } else {
        let e = es[0];
        let rest = es.drop_first();
        if is_note_on(e.msg) {
            notes_balanced(rest, pending.push(e))
        } else if is_note_off(e.msg) {
            match first_match_from(pending, e, 0) {
                Some(j) => notes_balanced(rest, take_out(pending, j)),
                None => false,
            }
        } else {
            notes_balanced(rest, pending)
        }
    }
}

/// The raw events of two runs of notes are those of the first, then those
/// of the second.
pub proof fn lemma_notes_flat_concat(a: Seq<MidiNoteEvent>, b: Seq<MidiNoteEvent>)
    ensures
        notes_flat(a + b) == notes_flat(a) + notes_flat(b),
    decreases b.len(),
{
    if b.len() == 0 {
        assert(a + b =~= a);
        assert(notes_flat(a) + notes_flat(b) =~= notes_flat(a));
    } else {
        lemma_notes_flat_concat(a, b.drop_last());
        assert((a + b).drop_last() =~= a + b.drop_last());
        assert((a + b).last() == b.last());
    }
}

/// Taking out a waiting note-on takes it out of the multiset of waiting
/// note-ons.
pub proof fn lemma_take_out_multiset_pub(p: Seq<EventView>, j: int)
    requires
        0 <= j < p.len(),
    ensures
        take_out(p, j).to_multiset() == p.to_multiset().remove(p[j]),
{
    broadcast use vstd::seq_lib::group_to_multiset_ensures;

    let last = p.len() - 1;
    if j == last {
        assert(take_out(p, j) =~= p.remove(j));
    } else {
        let u = p.update(j, p.last());
        assert(u.drop_last() =~= u.remove(last));
        assert(u.to_multiset() =~= p.to_multiset().insert(p.last()).remove(p[j])) by {
            vstd::seq_lib::to_multiset_update(p, j, p.last());
        }
        assert(u[last] == p.last());
        assert(u.remove(last).to_multiset() =~= u.to_multiset().remove(p.last()));
    }
}

/// The plain-note property of a part of a run.
proof fn lemma_plain_notes_skip(es: Seq<EventView>, sel: bool, mute: bool)
    requires
        plain_notes(es, sel, mute),
        es.len() > 0,
    ensures
        plain_notes(es.drop_first(), sel, mute),
        plain_note(es[0], sel, mute),
{
    assert forall|i: int| 0 <= i < es.drop_first().len() implies plain_note(
        #[trigger] es.drop_first()[i],
        sel,
        mute,
    ) by {
        assert(es.drop_first()[i] == es[i + 1]);
    }
}

/// Notes read from plain, balanced note events, split into raw events
/// again, are the same events (and the waiting note-ons), in some order.
pub proof fn lemma_notes_flat_multiset(
    es: Seq<EventView>,
    pending: Seq<EventView>,
    sel: bool,
    mute: bool,
)
    requires
        plain_notes(es, sel, mute),
        plain_notes(pending, sel, mute),
        forall|i: int| 0 <= i < pending.len() ==> is_note_on((#[trigger] pending[i]).msg),
        notes_balanced(es, pending),
    ensures
        notes_flat(notes_all(es, pending)).to_multiset() == es.to_multiset().add(
            pending.to_multiset(),
        ),
    decreases es.len(),
{
    broadcast use vstd::seq_lib::group_to_multiset_ensures;
    broadcast use vstd::seq_lib::lemma_multiset_commutative;

    if es.len() == 0 {
        assert(pending.to_multiset() =~= Multiset::empty());
        assert(es.to_multiset() =~= Multiset::empty());
        assert(notes_flat(notes_all(es, pending)) =~= Seq::<EventView>::empty());
    } else {
        let e = es[0];
        let rest = es.drop_first();
        lemma_plain_notes_skip(es, sel, mute);
        assert(es =~= seq![e] + rest);
        if is_note_on(e.msg) {
            let p2 = pending.push(e);
            assert(plain_notes(p2, sel, mute)) by {
                assert forall|i: int| 0 <= i < p2.len() implies plain_note(#[trigger] p2[i], sel, mute) by {
                    if i < pending.len() {
                        assert(p2[i] == pending[i]);
                    }
                }
            }
            assert forall|i: int| 0 <= i < p2.len() implies is_note_on((#[trigger] p2[i]).msg) by {
                if i < pending.len() {
                    assert(p2[i] == pending[i]);
                }
            }
            lemma_notes_flat_multiset(rest, p2, sel, mute);
            assert(es.to_multiset().add(pending.to_multiset()) =~= rest.to_multiset().add(
                p2.to_multiset(),
            ));
        } else {
            let j = first_match_from(pending, e, 0)->0;
            crate::midi_notes::lemma_first_match_pub(pending, e, 0);
            let on = pending[j];
            let n = note_of(on, e);
            let p2 = take_out(pending, j);
            assert(plain_note(on, sel, mute));
            assert(is_note_on(on.msg));
            assert(plain_notes(p2, sel, mute)) by {
                assert forall|i: int| 0 <= i < p2.len() implies plain_note(#[trigger] p2[i], sel, mute) by {
                    if i == j {
                        assert(p2[i] == pending[pending.len() - 1]);
                    } else {
                        assert(p2[i] == pending[i]);
                    }
                }
            }
            assert forall|i: int| 0 <= i < p2.len() implies is_note_on((#[trigger] p2[i]).msg) by {
                if i == j {
                    assert(p2[i] == pending[pending.len() - 1]);
                } else {
                    assert(p2[i] == pending[i]);
                }
            }
            lemma_notes_flat_multiset(rest, p2, sel, mute);
            lemma_take_out_multiset_pub(pending, j);
            assert(notes_all(es, pending) == seq![n] + notes_all(rest, p2));
            lemma_notes_flat_concat(seq![n], notes_all(rest, p2));
            assert(seq![n].drop_last() =~= Seq::<MidiNoteEvent>::empty());
            assert(seq![n].last() == n);
            assert(notes_flat(Seq::<MidiNoteEvent>::empty()) =~= Seq::<EventView>::empty());
            assert(notes_flat(seq![n]) =~= seq![note_on_view(n), note_off_view(n)]);
            assert(note_on_view(n) =~= on) by {
                assert(note_on_view(n).msg =~= on.msg);
            }
            assert(note_off_view(n) =~= e) by {
                assert(matches_off(on, e));
                assert(note_off_view(n).msg =~= e.msg);
            }
            assert(seq![on, e].to_multiset() =~= Multiset::empty().insert(on).insert(e)) by {
                assert(seq![on, e] =~= seq![on].push(e));
                assert(seq![on] =~= Seq::<EventView>::empty().push(on));
            }
            assert(seq![e].to_multiset() =~= Multiset::empty().insert(e)) by {
                assert(seq![e] =~= Seq::<EventView>::empty().push(e));
            }
            assert(pending.to_multiset().contains(on)) by {
                assert(pending.contains(on)) by {
                    assert(pending[j] == on);
                }
            }
            assert(notes_flat(notes_all(es, pending)).to_multiset() =~= es.to_multiset().add(
                pending.to_multiset(),
            ));
        }
    }
}

/// A buffer of plain note events (one set of flags), in which every
/// note-off ends an earlier note-on and every note-on is ended, reads
/// into notes which, split into raw events again and sorted by position,
/// are its events in order of position: the same events, each as often,
/// and events at different positions in the same order.
pub proof fn law_notes_roundtrip(buf: Seq<u8>, sel: bool, mute: bool)
    requires
        well_formed_records(buf, 0),
        plain_notes(parse_all(buf, 0), sel, mute),
        notes_balanced(parse_all(buf, 0), Seq::empty()),
    ensures
        stream_ok(buf, 0),
        notes_defined(parse_all(buf, 0)),
        is_sorted(sort_by_ppq(notes_flat(notes_all(parse_all(buf, 0), Seq::empty())))),
        sort_by_ppq(notes_flat(notes_all(parse_all(buf, 0), Seq::empty()))).to_multiset()
            == parse_all(buf, 0).to_multiset(),
        is_sorted(parse_all(buf, 0)),
{
    lemma_write_of_read(buf, 0);
    let es = parse_all(buf, 0);
    assert(notes_defined(es)) by {
        assert forall|i: int| 0 <= i < es.len() implies (#[trigger] es[i].msg).len() > 0 && (
        is_note_on(es[i].msg) || is_note_off(es[i].msg) ==> es[i].msg.len() == 3) by {
            assert(plain_note(es[i], sel, mute));
        }
    }
    lemma_notes_flat_multiset(es, Seq::empty(), sel, mute);
    assert(Seq::<EventView>::empty().to_multiset() =~= Multiset::empty()) by {
        broadcast use vstd::seq_lib::group_to_multiset_ensures;

    }
    assert(es.to_multiset().add(Multiset::empty()) =~= es.to_multiset());
    let flat = notes_flat(notes_all(es, Seq::empty()));
    law_sort_by_ppq(flat);
    law_sort_by_ppq(es);
}

/// Every event is at a later position than the one before it.
pub open spec fn strictly_sorted(s: Seq<EventView>) -> bool {
    forall|i: int| 0 < i < s.len() ==> #[trigger] s[i - 1].ppq < s[i].ppq
}

proof fn lemma_sorted_le_last(s: Seq<EventView>, i: int)
    requires
        is_sorted(s),
        0 <= i < s.len(),
    ensures
        s[i].ppq <= s.last().ppq,
        strictly_sorted(s) && i < s.len() - 1 ==> s[i].ppq < s.last().ppq,
    decreases s.len() - i,
{
    if i < s.len() - 1 {
        lemma_sorted_le_last(s, i + 1);
        assert(s[i + 1 - 1].ppq <= s[i + 1].ppq);
    }
}

/// Two runs sorted by position with the same events, one of them at all
/// different positions, are the same run.
pub proof fn lemma_sorted_same_events(s: Seq<EventView>, t: Seq<EventView>)
    requires
        is_sorted(s),
        is_sorted(t),
        strictly_sorted(s),
        s.to_multiset() == t.to_multiset(),
    ensures
        s == t,
    decreases s.len(),
{
    broadcast use vstd::seq_lib::group_to_multiset_ensures;

    assert(s.len() == s.to_multiset().len());
    assert(t.len() == t.to_multiset().len());
    if s.len() == 0 {
        assert(s =~= t);
    } else {
        let n = s.len() - 1;
        let a = s.last();
        let b = t.last();
        assert(s.contains(a)) by {
            assert(s[n] == a);
        }
        assert(s.to_multiset().count(a) > 0);
        assert(t.to_multiset().count(a) > 0);
        assert(t.contains(a));
        let ka = choose|k: int| 0 <= k < t.len() && t[k] == a;
        lemma_sorted_le_last(t, ka);
        assert(t.contains(b)) by {
            assert(t[n] == b);
        }
        assert(t.to_multiset().count(b) > 0);
        assert(s.to_multiset().count(b) > 0);
        assert(s.contains(b));
        let kb = choose|k: int| 0 <= k < s.len() && s[k] == b;
        lemma_sorted_le_last(s, kb);
        assert(kb == n);
        assert(a == b);
        let s2 = s.drop_last();
        let t2 = t.drop_last();
        assert(s =~= s2.push(a));
        assert(t =~= t2.push(a));
        assert(s2.to_multiset() =~= t2.to_multiset()) by {
            assert(s2.push(a).to_multiset() == s2.to_multiset().insert(a));
            assert(t2.push(a).to_multiset() == t2.to_multiset().insert(a));
            assert(s2.to_multiset() =~= s2.to_multiset().insert(a).remove(a));
            assert(t2.to_multiset() =~= t2.to_multiset().insert(a).remove(a));
        }
        assert(is_sorted(s2) && strictly_sorted(s2)) by {
            assert forall|i: int| 0 < i < s2.len() implies #[trigger] s2[i - 1].ppq < s2[i].ppq by {
                assert(s2[i - 1] == s[i - 1] && s2[i] == s[i]);
            }
        }
        assert(is_sorted(t2)) by {
            assert forall|i: int| 0 < i < t2.len() implies #[trigger] t2[i - 1].ppq <= t2[i].ppq by {
                assert(t2[i - 1] == t[i - 1] && t2[i] == t[i]);
            }
        }
        lemma_sorted_same_events(s2, t2);
    }
}

/// A buffer of plain note events as in `law_notes_roundtrip`, with every
/// event at a later position than the one before it, reads into notes
/// which, split into raw events again, sorted by position and written,
/// give the same buffer.
pub proof fn law_notes_buffer_roundtrip(buf: Seq<u8>, sel: bool, mute: bool)
    requires
        well_formed_records(buf, 0),
        plain_notes(parse_all(buf, 0), sel, mute),
        notes_balanced(parse_all(buf, 0), Seq::empty()),
        strictly_sorted(parse_all(buf, 0)),
    ensures
        stream_ok(buf, 0),
        notes_defined(parse_all(buf, 0)),
        encode_all(sort_by_ppq(notes_flat(notes_all(parse_all(buf, 0), Seq::empty()))), 0)
            == buf,
{
    law_notes_roundtrip(buf, sel, mute);
    lemma_write_of_read(buf, 0);
    let es = parse_all(buf, 0);
    let out = sort_by_ppq(notes_flat(notes_all(es, Seq::empty())));
    lemma_sorted_same_events(es, out);
}

} // verus!
