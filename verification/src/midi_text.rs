//! Text and notation meta-messages, whose payload is UTF-8 text.
use vstd::prelude::*;
use vstd::utf8::*;
use vstd::string::*;
use crate::bytes::{copy_bytes, copy_range};
use crate::midi_message::{as_raw_message, MidiMessage, RawMidiMessage};
use crate::utils::string_from_utf8;

verus! {

broadcast use {encode_utf8_valid_utf8, encode_utf8_decode_utf8};

/// The text bytes of a meta-message: all but its two header bytes.
pub open spec fn text_payload(raw: Seq<u8>) -> Seq<u8> {
    raw.subrange(2, raw.len() as int)
}

/// The UTF-8 encoding of a concatenation is the concatenation of the
/// encodings.
pub proof fn lemma_encode_concat(a: Seq<char>, b: Seq<char>)
    ensures
        encode_utf8(a + b) == encode_utf8(a) + encode_utf8(b),
    decreases a.len(),
{
    if a.len() == 0 {
        assert(a + b =~= b);
        assert(encode_utf8(a) + encode_utf8(b) =~= encode_utf8(b));
    } else {
        lemma_encode_concat(a.drop_first(), b);
        assert((a + b).drop_first() =~= a.drop_first() + b);
        assert((a + b)[0] == a[0]);
        assert(encode_utf8(a + b) =~= encode_scalar(a[0] as u32) + (encode_utf8(a.drop_first())
            + encode_utf8(b)));
    }
}

/// An ASCII character is encoded as the one byte of its code.
pub proof fn lemma_encode_ascii_char(c: char)
    requires
        (c as u32) < 128,
    ensures
        encode_utf8(seq![c]) == seq![c as u8],
{
    assert(is_ascii_chars(seq![c]));
    is_ascii_chars_encode_utf8(seq![c]);
}

/// Appends the UTF-8 bytes of `s`.
fn push_str_bytes(buf: &mut Vec<u8>, s: &str)
    ensures
        final(buf)@ == old(buf)@ + encode_utf8(s@),
{
    let bytes = s.as_bytes();
    let mut i: usize = 0;
    while i < bytes.len()
        invariant
            i <= bytes@.len(),
            bytes@ == encode_utf8(s@),
            buf@ == old(buf)@ + bytes@.subrange(0, i as int),
        decreases bytes@.len() - i,
    {
        buf.push(bytes[i]);
        i = i + 1;
        assert(buf@ =~= old(buf)@ + bytes@.subrange(0, i as int));
    }
    assert(bytes@.subrange(0, i as int) =~= bytes@);
}

/// The pieces of `s` between the `sep` characters, as `str::split` gives
/// them: never none, and an empty piece wherever two separators meet or a
/// separator begins or ends `s`.
pub open spec fn split_on(s: Seq<char>, sep: char) -> Seq<Seq<char>>
    decreases s.len(),
{
    if s.len() == 0 {
        seq![Seq::empty()]
    } else {
        let ws = split_on(s.drop_last(), sep);
        if s.last() == sep {
            ws.push(Seq::empty())
        } else {
            ws.update(ws.len() - 1, ws.last().push(s.last()))
        }
    }
}

/// The words of `s` between single spaces, as `str::split(" ")` gives
/// them.
pub open spec fn split_spaces(s: Seq<char>) -> Seq<Seq<char>> {
    split_on(s, ' ')
}

/// The words joined with one space between each two of them.
pub open spec fn join_spaces(ws: Seq<Seq<char>>) -> Seq<char>
    decreases ws.len(),
{
    if ws.len() == 0 {
        Seq::empty()
    } else if ws.len() == 1 {
        ws[0]
    } else {
        join_spaces(ws.drop_last()) + seq![' '] + ws.last()
    }
}

/// Each word preceded by one space.
pub open spec fn spaced(ws: Seq<Seq<char>>) -> Seq<char>
    decreases ws.len(),
{
    if ws.len() == 0 {
        Seq::empty()
    } else {
        spaced(ws.drop_last()) + seq![' '] + ws.last()
    }
}

/// No word holds a space.
pub open spec fn no_spaces(ws: Seq<Seq<char>>) -> bool {
    forall|i: int, j: int| 0 <= i < ws.len() && 0 <= j < ws[i].len() ==> ws[i][j] != ' '
}

/// Splitting gives at least one word.
pub proof fn lemma_split_nonempty(s: Seq<char>)
    ensures
        split_spaces(s).len() >= 1,
    decreases s.len(),
{
    if s.len() > 0 {
        lemma_split_nonempty(s.drop_last());
    }
}

/// Appending a space-free `b` to `p` extends the last word of `p`.
proof fn lemma_split_append_word(p: Seq<char>, b: Seq<char>)
    requires
        forall|j: int| 0 <= j < b.len() ==> b[j] != ' ',
    ensures
        split_spaces(p + b) == split_spaces(p).update(
            split_spaces(p).len() - 1,
            split_spaces(p).last() + b,
        ),
    decreases b.len(),
{
    lemma_split_nonempty(p);
    if b.len() == 0 {
        assert(p + b =~= p);
        assert(split_spaces(p).last() + b =~= split_spaces(p).last());
        assert(split_spaces(p).update(split_spaces(p).len() - 1, split_spaces(p).last())
            =~= split_spaces(p));
    } else {
        lemma_split_append_word(p, b.drop_last());
        assert((p + b).drop_last() =~= p + b.drop_last());
        assert((p + b).last() == b.last());
        assert(split_spaces(p).last() + b.drop_last() + seq![b.last()] =~= split_spaces(p).last()
            + b);
        assert((split_spaces(p).last() + b.drop_last()).push(b.last()) =~= split_spaces(p).last()
            + b);
        assert(split_spaces(p + b) =~= split_spaces(p).update(
            split_spaces(p).len() - 1,
            split_spaces(p).last() + b,
        ));
    }
}

/// Splitting a join of space-free words gives the words back.
pub proof fn lemma_split_join(ws: Seq<Seq<char>>)
    requires
        ws.len() >= 1,
        no_spaces(ws),
    ensures
        split_spaces(join_spaces(ws)) == ws,
    decreases ws.len(),
{
    if ws.len() == 1 {
        lemma_split_append_word(Seq::empty(), ws[0]);
        assert(Seq::<char>::empty() + ws[0] =~= ws[0]);
        assert(seq![Seq::<char>::empty()].update(0, Seq::<char>::empty() + ws[0]) =~= ws);
    } else {
        let init = ws.drop_last();
        assert(no_spaces(init)) by {
            assert forall|i: int, j: int| 0 <= i < init.len() && 0 <= j < init[i].len() implies init[i][j]
                != ' ' by {
                assert(init[i] == ws[i]);
            }
        }
        lemma_split_join(init);
        let p = join_spaces(init) + seq![' '];
        assert(p.drop_last() =~= join_spaces(init));
        assert(split_spaces(p) == init.push(Seq::empty()));
        assert forall|j: int| 0 <= j < ws.last().len() implies ws.last()[j] != ' ' by {
            assert(ws.last() == ws[ws.len() - 1]);
        }
        lemma_split_append_word(p, ws.last());
        assert(Seq::<char>::empty() + ws.last() =~= ws.last());
        assert(init.push(Seq::empty()).update(init.len() as int, Seq::<char>::empty() + ws.last())
            =~= ws);
    }
}

/// Joining words after a first group is joining the group, then the
/// spaced words.
pub proof fn lemma_join_spaced(head: Seq<Seq<char>>, ts: Seq<Seq<char>>)
    requires
        head.len() >= 1,
    ensures
        join_spaces(head + ts) == join_spaces(head) + spaced(ts),
    decreases ts.len(),
{
    if ts.len() == 0 {
        assert(head + ts =~= head);
        assert(join_spaces(head) + spaced(ts) =~= join_spaces(head));
    } else {
        lemma_join_spaced(head, ts.drop_last());
        assert((head + ts).drop_last() =~= head + ts.drop_last());
        assert((head + ts).last() == ts.last());
        assert(join_spaces(head + ts) =~= join_spaces(head) + spaced(ts.drop_last()) + seq![' ']
            + ts.last());
    }
}

/// The character of a decimal digit.
pub open spec fn digit_char(d: u8) -> char {
    ((48 + d) as u32) as char
}

/// A decimal digit character.
pub open spec fn is_digit(c: char) -> bool {
    '0' <= c && c <= '9'
}

/// `v` in decimal, without leading zeros, as `format!("{}", v)` writes it.
pub open spec fn decimal(v: u8) -> Seq<char> {
    if v < 10 {
        seq![digit_char(v)]
    } else if v < 100 {
        seq![digit_char(v / 10), digit_char(v % 10)]
    } else {
        seq![digit_char(v / 100), digit_char((v / 10) % 10), digit_char(v % 10)]
    }
}

/// Every character is a decimal digit.
pub open spec fn all_digits(s: Seq<char>) -> bool {
    forall|i: int| 0 <= i < s.len() ==> is_digit(#[trigger] s[i])
}

/// The number that decimal digits stand for.
pub open spec fn digits_value(s: Seq<char>) -> int
    decreases s.len(),
{
    if s.len() == 0 {
        0
    } else {
        digits_value(s.drop_last()) * 10 + (s.last() as int - 48)
    }
}

/// The digits of an unsigned number in text: all of it, or all but a
/// leading `+`.
pub open spec fn unsigned_digits(s: Seq<char>) -> Seq<char> {
    if s.len() > 0 && s[0] == '+' {
        s.drop_first()
    } else {
        s
    }
}

/// What `str::parse::<u8>` gives: `Some` where the text is an optional
/// `+` and at least one decimal digit whose value fits in a `u8`.
pub open spec fn parse_u8(s: Seq<char>) -> Option<u8> {
    let d = unsigned_digits(s);
    if d.len() > 0 && all_digits(d) && digits_value(d) <= 255 {
        Some(digits_value(d) as u8)
    } else {
        None
    }
}

/// A prefix of a digit string has a value between zero and that of the
/// whole string.
proof fn lemma_digits_prefix(d: Seq<char>, k: int)
    requires
        all_digits(d),
        0 <= k <= d.len(),
    ensures
        0 <= digits_value(d.subrange(0, k)) <= digits_value(d),
    decreases d.len(),
{
    if k == d.len() {
        assert(d.subrange(0, k) =~= d);
        if d.len() > 0 {
            lemma_digits_prefix(d.drop_last(), k - 1);
            assert(d.drop_last().subrange(0, k - 1) =~= d.drop_last());
            assert(is_digit(d[d.len() - 1]));
        }
    } else {
        lemma_digits_prefix(d.drop_last(), k);
        assert(d.drop_last().subrange(0, k) =~= d.subrange(0, k));
        assert(is_digit(d[d.len() - 1]));
    }
}

/// The character of a digit is that digit's ASCII code.
pub proof fn lemma_digit_char(d: u8)
    requires
        d < 10,
    ensures
        digit_char(d) as u32 == 48 + d,
        digit_char(d) as int == 48 + d,
        is_digit(digit_char(d)),
        digit_char(d) != ' ',
        digit_char(d) != '+',
{
}

/// A decimal number parses back to itself.
pub proof fn lemma_parse_decimal(v: u8)
    ensures
        parse_u8(decimal(v)) == Some(v),
        no_spaces(seq![decimal(v)]),
{
    let s = decimal(v);
    lemma_digit_char(v % 10);
    lemma_digit_char((v / 10) % 10);
    if v < 10 {
        lemma_digit_char(v);
    } else if v < 100 {
        lemma_digit_char(v / 10);
    } else {
        lemma_digit_char(v / 100);
    }
    assert(s[0] != '+');
    assert(unsigned_digits(s) == s);
    assert(all_digits(s));
    assert(digits_value(Seq::<char>::empty()) == 0);
    if v < 10 {
        assert(s.last() == digit_char(v));
        assert(s.drop_last() =~= Seq::<char>::empty());
        assert(digits_value(s) == v);
    } else if v < 100 {
        let a = seq![digit_char(v / 10)];
        assert(s.drop_last() =~= a);
        assert(a.drop_last() =~= Seq::<char>::empty());
        assert(a.last() == digit_char(v / 10));
        assert(digits_value(a) == v / 10);
        assert(digits_value(s) == (v / 10) * 10 + v % 10);
    } else {
        let a = seq![digit_char(v / 100)];
        let b = seq![digit_char(v / 100), digit_char((v / 10) % 10)];
        assert(s.drop_last() =~= b);
        assert(b.drop_last() =~= a);
        assert(a.drop_last() =~= Seq::<char>::empty());
        assert(a.last() == digit_char(v / 100));
        assert(digits_value(a) == v / 100);
        assert(digits_value(b) == (v / 100) * 10 + (v / 10) % 10);
        assert(digits_value(s) == ((v / 100) * 10 + (v / 10) % 10) * 10 + v % 10);
    }
    assert(no_spaces(seq![s])) by {
        assert forall|i: int, j: int| 0 <= i < seq![s].len() && 0 <= j < seq![s][i].len() implies seq![
            s,
        ][i][j] != ' ' by {
            assert(seq![s][i] == s);
        }
    }
}

/// Represents Text messages `0xf0, 0x01`
#[derive(Clone, PartialEq, Debug, Default)]
pub struct TextMessage {
    buf: Vec<u8>,
}

impl MidiMessage for TextMessage {
    closed spec fn raw_view(&self) -> Seq<u8> {
        self.buf@
    }

    closed spec fn borrowed_view(&self) -> Seq<u8> {
        self.buf@
    }

    open spec fn parse_defined(buf: Seq<u8>) -> bool {
        buf.len() > 0 && (buf[0] >= 0xf0 ==> buf.len() > 1)
    }

    open spec fn accepts(buf: Seq<u8>) -> bool {
        buf[0] >= 0xf0 && buf[1] == 0x01
    }

    open spec fn borrowed_len(buf: Seq<u8>) -> int {
        buf.len() as int
    }

    fn from_raw(buf: Vec<u8>) -> (r: Option<Self>) {
        if buf[0] < 0xf0 {
            return None;
        }
        if buf[1] == 0x01 {
            Some(TextMessage { buf })
        } else {
            None
        }
    }

    fn get_raw(&self) -> (r: Vec<u8>) {
        copy_bytes(&self.buf)
    }

    fn borrow_raw(&self) -> (r: &Vec<u8>) {
        &self.buf
    }
}

impl TextMessage {
    /// The text the message holds.
    pub fn text(&self) -> (r: String)
        requires
            self.raw_view().len() >= 2,
            valid_utf8(text_payload(self.raw_view())),
        ensures
            r@ == decode_utf8(text_payload(self.raw_view())),
    {
        let bytes = copy_range(&self.buf, 2, self.buf.len());
        match string_from_utf8(bytes) {
            Some(s) => s,
            None => {
                proof {
                    assert(false);
                }
                String::new()
            },
        }
    }

    /// Replace the text: the message becomes `0xf0, 0x01` and the UTF-8
    /// bytes of `text`.
    pub fn set_text(&mut self, text: String)
        ensures
            final(self).raw_view() == seq![0xf0u8, 0x01u8] + encode_utf8(text@),
    {
        let mut buf: Vec<u8> = vec![0xf0u8, 0x01u8];
        push_str_bytes(&mut buf, text.as_str());
        self.buf = buf;
    }

    /// Return raw representation of self.
    pub fn as_raw_message(&self) -> (r: RawMidiMessage)
        ensures
            r.raw_view() == self.raw_view(),
    {
        as_raw_message(self)
    }
}

/// The text written by `set_text` is read back by `text`.
pub proof fn law_text_roundtrip(text: Seq<char>)
    ensures
        (seq![0xf0u8, 0x01u8] + encode_utf8(text)).len() >= 2,
        valid_utf8(text_payload(seq![0xf0u8, 0x01u8] + encode_utf8(text))),
        decode_utf8(text_payload(seq![0xf0u8, 0x01u8] + encode_utf8(text))) == text,
{
    assert(text_payload(seq![0xf0u8, 0x01u8] + encode_utf8(text)) =~= encode_utf8(text));
}

/// The keyword of a note notation.
pub open spec fn note_word() -> Seq<char> {
    seq!['N', 'O', 'T', 'E']
}

/// The keyword of a track notation.
pub open spec fn track_word() -> Seq<char> {
    seq!['T', 'R', 'A', 'C']
}

/// What a notation holds, with its tokens as character sequences.
pub enum NotationModel {
    Note { channel: u8, note: u8, tokens: Seq<Seq<char>> },
    Track(Seq<Seq<char>>),
    Unknown(Seq<Seq<char>>),
}

/// The characters of each string.
pub open spec fn tokens_view(v: Seq<String>) -> Seq<Seq<char>> {
    v.map_values(|s: String| s@)
}

/// Partially parsed notation.
#[derive(Clone, PartialEq, Debug)]
pub enum Notation {
    /// Note notation: channel(1-based), note, tokens
    Note { channel: u8, note: u8, tokens: Vec<String> },
    /// Track notation: tokens
    Track(Vec<String>),
    /// Unknown notation: tokens, including the type.
    Unknown(Vec<String>),
}

impl View for Notation {
    type V = NotationModel;

    open spec fn view(&self) -> NotationModel {
        match self {
            Notation::Note { channel, note, tokens } => NotationModel::Note {
                channel: *channel,
                note: *note,
                tokens: tokens_view(tokens@),
            },
            Notation::Track(tokens) => NotationModel::Track(tokens_view(tokens@)),
            Notation::Unknown(tokens) => NotationModel::Unknown(tokens_view(tokens@)),
        }
    }
}

impl Notation {
    /// The text the notation is written as: its words joined by spaces.
    pub fn as_tokens_string(self) -> (r: String)
        requires
            notation_writable(self@),
        ensures
            r@ == notation_text(self@),
    {
        let bytes = NotationMessage::notation_bytes(&self);
        let text = copy_range(&bytes, 2, bytes.len());
        assert(text@ =~= encode_utf8(notation_text(self@)));
        match string_from_utf8(text) {
            Some(s) => s,
            None => {
                proof {
                    assert(false);
                }
                String::new()
            },
        }
    }
}

/// The words a notation is written as: a note notation as `NOTE`, its
/// 0-based channel and its note, a track notation as `TRAC`, each
/// followed by its tokens; an unknown one as its tokens alone.
pub open spec fn notation_words(n: NotationModel) -> Seq<Seq<char>> {
    match n {
        NotationModel::Note { channel, note, tokens } => seq![
            note_word(),
            decimal((channel - 1) as u8),
            decimal(note),
        ] + tokens,
        NotationModel::Track(tokens) => seq![track_word()] + tokens,
        NotationModel::Unknown(tokens) => tokens,
    }
}

/// The text a notation is written as: its words joined by spaces.
pub open spec fn notation_text(n: NotationModel) -> Seq<char> {
    join_spaces(notation_words(n))
}

/// The raw notation message that holds a notation.
pub open spec fn notation_buf(n: NotationModel) -> Seq<u8> {
    seq![0xffu8, 0x0fu8] + encode_utf8(notation_text(n))
}

/// A notation can be written: a note notation's channel is 1-based.
pub open spec fn notation_writable(n: NotationModel) -> bool {
    n matches NotationModel::Note { channel, .. } ==> channel >= 1
}

/// The words can be read as a notation: a first word `NOTE` is followed
/// by a channel below 255 and a note, both numbers.
pub open spec fn notation_words_defined(ws: Seq<Seq<char>>) -> bool {
    &&& ws.len() >= 1
    &&& ws[0] == note_word() ==> {
        &&& ws.len() >= 3
        &&& parse_u8(ws[1]) matches Some(c) && c < 255
        &&& parse_u8(ws[2]) is Some
    }
}

/// The notation that words are read as.
pub open spec fn notation_of_words(ws: Seq<Seq<char>>) -> NotationModel {
    if ws[0] == note_word() {
        NotationModel::Note {
            channel: (parse_u8(ws[1])->0 + 1) as u8,
            note: parse_u8(ws[2])->0,
            tokens: ws.subrange(3, ws.len() as int),
        }
    } else if ws[0] == track_word() {
        NotationModel::Track(ws.subrange(1, ws.len() as int))
    } else {
        NotationModel::Unknown(ws)
    }
}

/// The words of a notation message's text.
pub open spec fn message_words(raw: Seq<u8>) -> Seq<Seq<char>> {
    split_spaces(decode_utf8(text_payload(raw)))
}

/// A notation message can be read: it has its header, UTF-8 text, and
/// words that can be read as a notation.
pub open spec fn notation_readable(raw: Seq<u8>) -> bool {
    &&& raw.len() >= 2
    &&& valid_utf8(text_payload(raw))
    &&& notation_words_defined(message_words(raw))
}

/// The text split at each `sep`, as `str::split` splits it.
pub fn split_text(t: &str, sep: char) -> (r: Vec<String>)
    ensures
        tokens_view(r@) == split_on(t@, sep),
{
    let n = t.unicode_len();
    let mut r: Vec<String> = Vec::new();
    let mut start: usize = 0;
    let mut i: usize = 0;
    assert(tokens_view(r@) =~= Seq::<Seq<char>>::empty());
    assert(t@.subrange(0, 0) =~= Seq::<char>::empty());
    assert(split_on(Seq::<char>::empty(), sep) == seq![Seq::<char>::empty()]);
    assert(tokens_view(r@) + seq![t@.subrange(0, 0)] =~= split_on(t@.subrange(0, 0), sep));
    while i < n
        invariant
            start <= i <= n,
            n == t@.len(),
            tokens_view(r@) + seq![t@.subrange(start as int, i as int)] == split_on(
                t@.subrange(0, i as int),
                sep,
            ),
        decreases n - i,
    {
        let c = t.get_char(i);
        let ghost before = tokens_view(r@);
        let ghost word = t@.subrange(start as int, i as int);
        assert(t@.subrange(0, i + 1).drop_last() =~= t@.subrange(0, i as int));
        assert(t@.subrange(0, i + 1).last() == c);
        if c == sep {
            let w = t.substring_char(start, i).to_owned();
            r.push(w);
            start = i + 1;
            assert(tokens_view(r@) =~= before.push(word));
            assert(t@.subrange(start as int, i + 1) =~= Seq::<char>::empty());
            assert(tokens_view(r@) + seq![t@.subrange(start as int, i + 1)] =~= (before + seq![
                word,
            ]).push(Seq::empty()));
        } else {
            assert(t@.subrange(start as int, i + 1) =~= word.push(c));
            assert(tokens_view(r@) + seq![t@.subrange(start as int, i + 1)] =~= (before + seq![
                word,
            ]).update(before.len() as int, word.push(c)));
        }
        i = i + 1;
    }
    let ghost before = tokens_view(r@);
    let w = t.substring_char(start, n).to_owned();
    r.push(w);
    assert(t@.subrange(0, n as int) =~= t@);
    assert(tokens_view(r@) =~= before + seq![t@.subrange(start as int, n as int)]);
    r
}

/// The text split at single spaces.
fn split_words(text: &String) -> (r: Vec<String>)
    ensures
        tokens_view(r@) == split_spaces(text@),
{
    split_text(text.as_str(), ' ')
}

/// The string is exactly the four characters.
fn is_word(s: &String, c0: char, c1: char, c2: char, c3: char) -> (r: bool)
    ensures
        r == (s@ == seq![c0, c1, c2, c3]),
{
    let t = s.as_str();
    if t.unicode_len() != 4 {
        return false;
    }
    let r = t.get_char(0) == c0 && t.get_char(1) == c1 && t.get_char(2) == c2 && t.get_char(3)
        == c3;
    assert(r ==> s@ =~= seq![c0, c1, c2, c3]);
    r
}

/// `str::parse::<u8>`.
fn parse_u8_exec(s: &String) -> (r: Option<u8>)
    ensures
        r == parse_u8(s@),
{
    let t = s.as_str();
    let n = t.unicode_len();
    let mut i: usize = 0;
    if n > 0 && t.get_char(0) == '+' {
        i = 1;
    }
    let start = i;
    let ghost d = unsigned_digits(s@);
    assert(d =~= s@.subrange(start as int, n as int));
    if start == n {
        return None;
    }
    let mut v: u32 = 0;
    while i < n
        invariant
            start <= i <= n,
            n == s@.len(),
            t@ == s@,
            d == s@.subrange(start as int, n as int),
            d == unsigned_digits(s@),
            v <= 255,
            v == digits_value(d.subrange(0, i - start)),
            all_digits(d.subrange(0, i - start)),
        decreases n - i,
    {
        let c = t.get_char(i);
        let k: usize = i - start;
        assert(d[k as int] == c);
        if c < '0' || c > '9' {
            assert(!is_digit(d[k as int]));
            return None;
        }
        assert(d.subrange(0, k + 1).drop_last() =~= d.subrange(0, k as int));
        assert(d.subrange(0, k + 1).last() == c);
        let dv: u32 = (c as u32) - 48;
        v = v * 10 + dv;
        assert(v == digits_value(d.subrange(0, k + 1)));
        assert(all_digits(d.subrange(0, k + 1))) by {
            assert forall|j: int| 0 <= j < d.subrange(0, k + 1).len() implies is_digit(
                #[trigger] d.subrange(0, k + 1)[j],
            ) by {
                if j < k {
                    assert(d.subrange(0, k + 1)[j] == d.subrange(0, k as int)[j]);
                }
            }
        }
        if v > 255 {
            proof {
                if all_digits(d) {
                    lemma_digits_prefix(d, k + 1);
                }
            }
            return None;
        }
        i = i + 1;
    }
    assert(d.subrange(0, n - start) =~= d);
    Some(v as u8)
}

/// Clones of the strings from index `k` on.
fn strings_from(v: &Vec<String>, k: usize) -> (r: Vec<String>)
    requires
        k <= v@.len(),
    ensures
        tokens_view(r@) == tokens_view(v@).subrange(k as int, v@.len() as int),
{
    let mut r: Vec<String> = Vec::new();
    let mut i = k;
    while i < v.len()
        invariant
            k <= i <= v@.len(),
            tokens_view(r@) == tokens_view(v@).subrange(k as int, i as int),
        decreases v@.len() - i,
    {
        let ghost before = tokens_view(r@);
        r.push(v[i].clone());
        assert(tokens_view(r@) =~= before.push(v@[i as int]@));
        assert(tokens_view(v@).subrange(k as int, i + 1) =~= tokens_view(v@).subrange(
            k as int,
            i as int,
        ).push(v@[i as int]@));
        i = i + 1;
    }
    r
}

/// Appends the decimal digits of `v`.
fn push_decimal(buf: &mut Vec<u8>, v: u8)
    ensures
        final(buf)@ == old(buf)@ + encode_utf8(decimal(v)),
{
    proof {
        lemma_digit_char(v % 10);
        lemma_digit_char((v / 10) % 10);
        if v < 10 {
            lemma_digit_char(v);
        } else if v < 100 {
            lemma_digit_char(v / 10);
        } else {
            lemma_digit_char(v / 100);
        }
        assert(is_ascii_chars(decimal(v)));
        is_ascii_chars_encode_utf8(decimal(v));
    }
    if v < 10 {
        buf.push(48 + v);
        assert(encode_utf8(decimal(v)) =~= seq![(48 + v) as u8]);
    } else if v < 100 {
        buf.push(48 + v / 10);
        buf.push(48 + v % 10);
        assert(encode_utf8(decimal(v)) =~= seq![(48 + v / 10) as u8, (48 + v % 10) as u8]);
    } else {
        buf.push(48 + v / 100);
        buf.push(48 + (v / 10) % 10);
        buf.push(48 + v % 10);
        assert(encode_utf8(decimal(v)) =~= seq![
            (48 + v / 100) as u8,
            (48 + (v / 10) % 10) as u8,
            (48 + v % 10) as u8,
        ]);
    }
    assert(final(buf)@ =~= old(buf)@ + encode_utf8(decimal(v)));
}

/// Appends the ASCII bytes of the characters.
fn push_ascii4(buf: &mut Vec<u8>, b0: u8, b1: u8, b2: u8, b3: u8)
    requires
        b0 < 128,
        b1 < 128,
        b2 < 128,
        b3 < 128,
    ensures
        final(buf)@ == old(buf)@ + encode_utf8(
            seq![b0 as char, b1 as char, b2 as char, b3 as char],
        ),
{
    let ghost cs = seq![b0 as char, b1 as char, b2 as char, b3 as char];
    proof {
        assert(is_ascii_chars(cs));
        is_ascii_chars_encode_utf8(cs);
        assert(encode_utf8(cs) =~= seq![b0, b1, b2, b3]);
    }
    buf.push(b0);
    buf.push(b1);
    buf.push(b2);
    buf.push(b3);
    assert(final(buf)@ =~= old(buf)@ + encode_utf8(cs));
}

/// Appends a space and the UTF-8 bytes of each string.
fn push_spaced(buf: &mut Vec<u8>, words: &Vec<String>, from: usize)
    requires
        from <= words@.len(),
    ensures
        final(buf)@ == old(buf)@ + encode_utf8(
            spaced(tokens_view(words@).subrange(from as int, words@.len() as int)),
        ),
{
    proof {
        lemma_encode_ascii_char(' ');
    }
    let mut i = from;
    assert(spaced(tokens_view(words@).subrange(from as int, from as int)) =~= Seq::<char>::empty());
    while i < words.len()
        invariant
            from <= i <= words@.len(),
            encode_utf8(seq![' ']) == seq![32u8],
            buf@ == old(buf)@ + encode_utf8(
                spaced(tokens_view(words@).subrange(from as int, i as int)),
            ),
        decreases words@.len() - i,
    {
        let ghost prev = spaced(tokens_view(words@).subrange(from as int, i as int));
        buf.push(32u8);
        push_str_bytes(buf, words[i].as_str());
        proof {
            let ws = tokens_view(words@).subrange(from as int, i + 1);
            assert(ws.drop_last() =~= tokens_view(words@).subrange(from as int, i as int));
            assert(ws.last() == words@[i as int]@);
            lemma_encode_concat(prev, seq![' ']);
            lemma_encode_concat(prev + seq![' '], words@[i as int]@);
            assert(buf@ =~= old(buf)@ + encode_utf8(spaced(ws)));
        }
        i = i + 1;
    }
}

/// Represents Notation messages `0xff, 0x0f`
#[derive(Clone, PartialEq, Debug)]
pub struct NotationMessage {
    buf: Vec<u8>,
}

impl MidiMessage for NotationMessage {
    closed spec fn raw_view(&self) -> Seq<u8> {
        self.buf@
    }

    closed spec fn borrowed_view(&self) -> Seq<u8> {
        self.buf@
    }

    open spec fn parse_defined(buf: Seq<u8>) -> bool {
        buf.len() > 0 && (buf[0] >= 0xff ==> buf.len() > 1)
    }

    open spec fn accepts(buf: Seq<u8>) -> bool {
        buf[0] >= 0xff && buf[1] == 0x0f
    }

    open spec fn borrowed_len(buf: Seq<u8>) -> int {
        buf.len() as int
    }

    fn from_raw(buf: Vec<u8>) -> (r: Option<Self>) {
        if buf[0] < 0xff {
            return None;
        }
        if buf[1] == 0x0f {
            Some(NotationMessage { buf })
        } else {
            None
        }
    }

    fn get_raw(&self) -> (r: Vec<u8>) {
        copy_bytes(&self.buf)
    }

    fn borrow_raw(&self) -> (r: &Vec<u8>) {
        &self.buf
    }
}

impl NotationMessage {
    /// The message that holds a notation.
    pub fn from_notation(notation: Notation) -> (r: Self)
        requires
            notation_writable(notation@),
        ensures
            r.raw_view() == notation_buf(notation@),
    {
        NotationMessage { buf: Self::notation_bytes(&notation) }
    }

    /// The notation the message holds.
    pub fn notation(&self) -> (r: Notation)
        requires
            notation_readable(self.raw_view()),
        ensures
            r@ == notation_of_words(message_words(self.raw_view())),
    {
        let text = self.text();
        let words = split_words(&text);
        let ghost ws = tokens_view(words@);
        assert(ws[0] == words@[0]@);
        if is_word(&words[0], 'N', 'O', 'T', 'E') {
            assert(ws[1] == words@[1]@ && ws[2] == words@[2]@);
            let channel = parse_u8_exec(&words[1]);
            let note = parse_u8_exec(&words[2]);
            match (channel, note) {
                (Some(channel), Some(note)) => Notation::Note {
                    channel: channel + 1,
                    note,
                    tokens: strings_from(&words, 3),
                },
                _ => {
                    proof {
                        assert(false);
                    }
                    Notation::Unknown(words)
                },
            }
        } else if is_word(&words[0], 'T', 'R', 'A', 'C') {
            Notation::Track(strings_from(&words, 1))
        } else {
            Notation::Unknown(words)
        }
    }

    /// Replace the notation the message holds.
    pub fn set_notation(&mut self, notation: Notation)
        requires
            notation_writable(notation@),
        ensures
            final(self).raw_view() == notation_buf(notation@),
    {
        self.buf = Self::notation_bytes(&notation);
    }

    /// The header and the UTF-8 text of a notation.
    fn notation_bytes(notation: &Notation) -> (r: Vec<u8>)
        requires
            notation_writable(notation@),
        ensures
            r@ == notation_buf(notation@),
    {
        let mut buf: Vec<u8> = vec![0xffu8, 0x0fu8];
        let ghost hdr = buf@;
        proof {
            lemma_encode_ascii_char(' ');
        }
        match notation {
            Notation::Note { channel, note, tokens } => {
                let ghost head = seq![note_word(), decimal((*channel - 1) as u8), decimal(*note)];
                push_ascii4(&mut buf, 78, 79, 84, 69);
                buf.push(32u8);
                push_decimal(&mut buf, *channel - 1);
                buf.push(32u8);
                push_decimal(&mut buf, *note);
                proof {
                    let nw = seq![78u8 as char, 79u8 as char, 84u8 as char, 69u8 as char];
                    assert(nw =~= note_word());
                    let d1 = decimal((*channel - 1) as u8);
                    let d2 = decimal(*note);
                    assert(head.drop_last().drop_last() =~= seq![note_word()]);
                    assert(head.drop_last() =~= seq![note_word(), d1]);
                    assert(join_spaces(seq![note_word()]) == note_word());
                    assert(join_spaces(head.drop_last()) == note_word() + seq![' '] + d1);
                    assert(join_spaces(head) == note_word() + seq![' '] + d1 + seq![' '] + d2);
                    lemma_encode_concat(note_word(), seq![' ']);
                    lemma_encode_concat(note_word() + seq![' '], d1);
                    lemma_encode_concat(note_word() + seq![' '] + d1, seq![' ']);
                    lemma_encode_concat(note_word() + seq![' '] + d1 + seq![' '], d2);
                    assert(buf@ =~= hdr + encode_utf8(join_spaces(head)));
                }
                let ghost mid = buf@;
                push_spaced(&mut buf, tokens, 0);
                proof {
                    assert(tokens_view(tokens@).subrange(0, tokens@.len() as int) =~= tokens_view(
                        tokens@,
                    ));
                    lemma_join_spaced(head, tokens_view(tokens@));
                    lemma_encode_concat(join_spaces(head), spaced(tokens_view(tokens@)));
                    assert(notation_words(notation@) == head + tokens_view(tokens@));
                    assert(buf@ =~= notation_buf(notation@));
                }
            },
            Notation::Track(tokens) => {
                let ghost head = seq![track_word()];
                push_ascii4(&mut buf, 84, 82, 65, 67);
                proof {
                    let tw = seq![84u8 as char, 82u8 as char, 65u8 as char, 67u8 as char];
                    assert(tw =~= track_word());
                    assert(join_spaces(head) == track_word());
                }
                push_spaced(&mut buf, tokens, 0);
                proof {
                    assert(tokens_view(tokens@).subrange(0, tokens@.len() as int) =~= tokens_view(
                        tokens@,
                    ));
                    lemma_join_spaced(head, tokens_view(tokens@));
                    lemma_encode_concat(join_spaces(head), spaced(tokens_view(tokens@)));
                    assert(notation_words(notation@) == head + tokens_view(tokens@));
                    assert(buf@ =~= notation_buf(notation@));
                }
            },
            Notation::Unknown(tokens) => {
                if tokens.len() > 0 {
                    push_str_bytes(&mut buf, tokens[0].as_str());
                    push_spaced(&mut buf, tokens, 1);
                    proof {
                        let tv = tokens_view(tokens@);
                        let head = seq![tv[0]];
                        assert(tv =~= head + tv.subrange(1, tv.len() as int));
                        assert(join_spaces(head) == tv[0]);
                        lemma_join_spaced(head, tv.subrange(1, tv.len() as int));
                        lemma_encode_concat(tv[0], spaced(tv.subrange(1, tv.len() as int)));
                        assert(buf@ =~= notation_buf(notation@));
                    }
                } else {
                    assert(tokens_view(tokens@) =~= Seq::<Seq<char>>::empty());
                    assert(buf@ =~= notation_buf(notation@));
                }
            },
        }
        buf
    }

    /// The text of the message.
    fn text(&self) -> (r: String)
        requires
            self.raw_view().len() >= 2,
            valid_utf8(text_payload(self.raw_view())),
        ensures
            r@ == decode_utf8(text_payload(self.raw_view())),
    {
        let bytes = copy_range(&self.buf, 2, self.buf.len());
        match string_from_utf8(bytes) {
            Some(s) => s,
            None => {
                proof {
                    assert(false);
                }
                String::new()
            },
        }
    }

    /// Return raw representation of self.
    pub fn as_raw_message(&self) -> (r: RawMidiMessage)
        ensures
            r.raw_view() == self.raw_view(),
    {
        as_raw_message(self)
    }
}

/// The notations that come back unchanged from their text: tokens
/// without spaces, a note notation's channel 1-based, and an unknown
/// notation with a first token that is neither keyword.
pub open spec fn notation_roundtrips(n: NotationModel) -> bool {
    match n {
        NotationModel::Note { channel, tokens, .. } => channel >= 1 && no_spaces(tokens),
        NotationModel::Track(tokens) => no_spaces(tokens),
        NotationModel::Unknown(tokens) => {
            &&& tokens.len() >= 1
            &&& no_spaces(tokens)
            &&& tokens[0] != note_word()
            &&& tokens[0] != track_word()
        },
    }
}

/// Words of two space-free groups are space-free.
proof fn lemma_no_spaces_concat(a: Seq<Seq<char>>, b: Seq<Seq<char>>)
    requires
        no_spaces(a),
        no_spaces(b),
    ensures
        no_spaces(a + b),
{
    assert forall|i: int, j: int| 0 <= i < (a + b).len() && 0 <= j < (a + b)[i].len() implies (a
        + b)[i][j] != ' ' by {
        if i < a.len() {
            assert((a + b)[i] == a[i]);
        } else {
            assert((a + b)[i] == b[i - a.len()]);
        }
    }
}

/// A notation written into a message by `set_notation` is read back
/// unchanged by `notation`.
pub proof fn law_notation_roundtrip(n: NotationModel)
    requires
        notation_roundtrips(n),
    ensures
        notation_readable(notation_buf(n)),
        notation_of_words(message_words(notation_buf(n))) == n,
{
    let buf = notation_buf(n);
    assert(text_payload(buf) =~= encode_utf8(notation_text(n)));
    let ws = notation_words(n);
    let nw = seq![note_word()];
    let tw = seq![track_word()];
    assert(no_spaces(nw)) by {
        assert forall|i: int, j: int| 0 <= i < nw.len() && 0 <= j < nw[i].len() implies nw[i][j]
            != ' ' by {
            assert(nw[i] == note_word());
        }
    }
    assert(no_spaces(tw)) by {
        assert forall|i: int, j: int| 0 <= i < tw.len() && 0 <= j < tw[i].len() implies tw[i][j]
            != ' ' by {
            assert(tw[i] == track_word());
        }
    }
    assert(note_word() != track_word()) by {
        assert(note_word()[0] != track_word()[0]);
    }
    match n {
        NotationModel::Note { channel, note, tokens } => {
            let d1 = decimal((channel - 1) as u8);
            let d2 = decimal(note);
            lemma_parse_decimal((channel - 1) as u8);
            lemma_parse_decimal(note);
            lemma_no_spaces_concat(nw, seq![d1]);
            lemma_no_spaces_concat(nw + seq![d1], seq![d2]);
            assert(nw + seq![d1] + seq![d2] =~= seq![note_word(), d1, d2]);
            lemma_no_spaces_concat(seq![note_word(), d1, d2], tokens);
            lemma_split_join(ws);
            assert(ws.subrange(3, ws.len() as int) =~= tokens);
        },
        NotationModel::Track(tokens) => {
            lemma_no_spaces_concat(tw, tokens);
            lemma_split_join(ws);
            assert(ws.subrange(1, ws.len() as int) =~= tokens);
        },
        NotationModel::Unknown(tokens) => {
            lemma_split_join(ws);
        },
    }
}

/// Text events are system messages of type `0x01`; notation events are
/// meta messages (`0xFF`) of type `0x0F`.
pub proof fn law_text_kinds_by_type(buf: Seq<u8>)
    ensures
        TextMessage::accepts(buf) <==> (buf[0] >= 0xf0 && buf[1] == 0x01),
        NotationMessage::accepts(buf) <==> (buf[0] == 0xff && buf[1] == 0x0f),
{
}

} // verus!
