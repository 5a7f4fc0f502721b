//! Attributes of the score: divisions, key, time and clef.
use crate::codec::{Element, element_nodes, group_codec, text_nodes};
use crate::error::{DecodeError, DecodeErrorView};
use crate::names::Name;
use crate::node::{Node, NodeView};
use crate::scalar::Scalar;
use crate::text::{owned, same_text};
use vstd::prelude::*;

verus! {

/// The mode of a key signature.
#[derive(Clone, Copy, Debug, PartialEq, Eq, Structural)]
pub enum KeyMode {
    /// Written `none`.
    Nothing,
    /// Written `major`.
    Mayjor,
    /// Written `minor`.
    Minor,
    /// Written `dorian`.
    Dorian,
    /// Written `phrygian`.
    Phrygian,
    /// Written `lydian`.
    Lydian,
    /// Written `mixolydian`.
    Mixolydian,
    /// Written `aeolian`.
    Aeolian,
    /// Written `ionian`.
    Ionian,
    /// Written `locrian`.
    Locrian,
}

impl DeepView for KeyMode {
    type V = KeyMode;

    open spec fn deep_view(&self) -> KeyMode {
        *self
    }
}

impl KeyMode {
    /// The word that a value is written as.
    #[verifier::opaque]
    pub open spec fn word(self) -> Seq<char> {
        match self {
            KeyMode::Nothing => "none"@,
            KeyMode::Mayjor => "major"@,
            KeyMode::Minor => "minor"@,
            KeyMode::Dorian => "dorian"@,
            KeyMode::Phrygian => "phrygian"@,
            KeyMode::Lydian => "lydian"@,
            KeyMode::Mixolydian => "mixolydian"@,
            KeyMode::Aeolian => "aeolian"@,
            KeyMode::Ionian => "ionian"@,
            KeyMode::Locrian => "locrian"@,
        }
    }

    /// The value that a word denotes, if it denotes one.
    #[verifier::opaque]
    pub open spec fn of_word(s: Seq<char>) -> Option<KeyMode> {
        if exists|v: KeyMode| v.word() == s {
            Some(choose|v: KeyMode| v.word() == s)
        } else {
            None
        }
    }

    /// No two values are written alike.
    pub proof fn word_injective(a: KeyMode, b: KeyMode)
        ensures
            a.word() == b.word() ==> a == b,
    {
        reveal(KeyMode::word);
        reveal_strlit("none");
        reveal_strlit("major");
        reveal_strlit("minor");
        reveal_strlit("dorian");
        reveal_strlit("phrygian");
        reveal_strlit("lydian");
        reveal_strlit("mixolydian");
        reveal_strlit("aeolian");
        reveal_strlit("ionian");
        reveal_strlit("locrian");
        if a.word() == b.word() {
            assert(a.word().len() == b.word().len());
            assert(a.word()[0] == b.word()[0]);
            assert(a.word()[1] == b.word()[1]);
            assert(a.word()[2] == b.word()[2]);
            assert(a.word()[3] == b.word()[3]);
            assert(a.word()[4] == b.word()[4]);
            assert(a.word()[5] == b.word()[5]);
            assert(a.word()[6] == b.word()[6]);
            assert(a.word()[7] == b.word()[7]);
            assert(a.word()[8] == b.word()[8]);
            assert(a.word()[9] == b.word()[9]);
        }
    }

    /// Reading the word of a value gives the value back.
    pub proof fn of_word_word(v: KeyMode)
        ensures
            KeyMode::of_word(v.word()) == Some(v),
    {
        reveal(KeyMode::of_word);
        KeyMode::word_injective(v, choose|w: KeyMode| w.word() == v.word());
    }

    /// The word that a value is written as.
    pub fn as_str(self) -> (r: &'static str)
        ensures
            r@ == self.word(),
    {
        proof {
            reveal(KeyMode::word);
        }
        match self {
            KeyMode::Nothing => "none",
            KeyMode::Mayjor => "major",
            KeyMode::Minor => "minor",
            KeyMode::Dorian => "dorian",
            KeyMode::Phrygian => "phrygian",
            KeyMode::Lydian => "lydian",
            KeyMode::Mixolydian => "mixolydian",
            KeyMode::Aeolian => "aeolian",
            KeyMode::Ionian => "ionian",
            KeyMode::Locrian => "locrian",
        }
    }

    /// Reads a value from its word.
    pub fn from_str(s: &str) -> (r: Option<KeyMode>)
        ensures
            r == KeyMode::of_word(s@),
    {
        proof {
            reveal(KeyMode::word);
            reveal(KeyMode::of_word);
        }
        if same_text(s, "none") {
            proof {
                KeyMode::of_word_word(KeyMode::Nothing);
            }
            return Some(KeyMode::Nothing);
        }
        if same_text(s, "major") {
            proof {
                KeyMode::of_word_word(KeyMode::Mayjor);
            }
            return Some(KeyMode::Mayjor);
        }
        if same_text(s, "minor") {
            proof {
                KeyMode::of_word_word(KeyMode::Minor);
            }
            return Some(KeyMode::Minor);
        }
        if same_text(s, "dorian") {
            proof {
                KeyMode::of_word_word(KeyMode::Dorian);
            }
            return Some(KeyMode::Dorian);
        }
        if same_text(s, "phrygian") {
            proof {
                KeyMode::of_word_word(KeyMode::Phrygian);
            }
            return Some(KeyMode::Phrygian);
        }
        if same_text(s, "lydian") {
            proof {
                KeyMode::of_word_word(KeyMode::Lydian);
            }
            return Some(KeyMode::Lydian);
        }
        if same_text(s, "mixolydian") {
            proof {
                KeyMode::of_word_word(KeyMode::Mixolydian);
            }
            return Some(KeyMode::Mixolydian);
        }
        if same_text(s, "aeolian") {
            proof {
                KeyMode::of_word_word(KeyMode::Aeolian);
            }
            return Some(KeyMode::Aeolian);
        }
        if same_text(s, "ionian") {
            proof {
                KeyMode::of_word_word(KeyMode::Ionian);
            }
            return Some(KeyMode::Ionian);
        }
        if same_text(s, "locrian") {
            proof {
                KeyMode::of_word_word(KeyMode::Locrian);
            }
            return Some(KeyMode::Locrian);
        }
        proof {
            assert forall|v: KeyMode| v.word() != s@ by {
            }
        }
        None
    }
}

impl Default for KeyMode {
    fn default() -> (r: KeyMode)
        ensures
            r == KeyMode::Nothing,
    {
        KeyMode::Nothing
    }
}

impl Scalar for KeyMode {
    open spec fn parse(s: Seq<char>) -> Option<KeyMode> {
        KeyMode::of_word(s)
    }

    open spec fn text(v: KeyMode) -> Seq<char> {
        v.word()
    }

    open spec fn initial() -> KeyMode {
        KeyMode::Nothing
    }

    proof fn parse_text(v: KeyMode) {
        KeyMode::of_word_word(v);
    }

    fn from_text(s: &str) -> (r: Option<KeyMode>) {
        KeyMode::from_str(s)
    }

    fn to_text(&self) -> (r: String) {
        owned(self.as_str())
    }

    fn same(&self, other: &KeyMode) -> (r: bool) {
        *self == *other
    }

    fn make_initial() -> (r: KeyMode) {
        KeyMode::Nothing
    }
}

/// A key signature.
#[derive(Clone, Copy, Debug, PartialEq, Eq)]
pub struct Key {
    /// The attribute `number`; zero where it is not written.
    pub number: i8,
    /// The text of the child `fifths`; zero where the child is not there.
    pub fifths: i8,
    /// The text of the child `mode`; `KeyMode::Nothing` where the child is
    /// not there.
    pub mode: KeyMode,
}

impl DeepView for Key {
    type V = Key;

    open spec fn deep_view(&self) -> Key {
        Key {
            number: self.number.deep_view(),
            fifths: self.fifths.deep_view(),
            mode: self.mode.deep_view(),
        }
    }
}

impl Key {
    /// The value that an element denotes. The fields are read in the order in
    /// which they are declared; the first one that fails gives the error.
    #[verifier::opaque]
    pub open spec fn decode_node(n: NodeView) -> Result<Key, DecodeErrorView> {
        let number = n.attribute_or::<i8>(Name::Number, 0);
        let fifths = n.text_or::<i8>(Name::Fifths, 0);
        let mode = n.text_or::<KeyMode>(Name::Mode, KeyMode::Nothing);
        if number is Err {
            Err(number->Err_0)
        } else if fifths is Err {
            Err(fifths->Err_0)
        } else if mode is Err {
            Err(mode->Err_0)
        } else {
            Ok(
                Key {
                    number: number->Ok_0,
                    fifths: fifths->Ok_0,
                    mode: mode->Ok_0,
                }
            )
        }
    }

    /// The element that a value is written as.
    #[verifier::opaque]
    pub open spec fn encode_value(v: Key, tag: Seq<char>) -> NodeView {
        NodeView::new(tag)
            .with_scalar::<i8>(Name::Number, v.number)
            .with_children(text_nodes::<i8>(Name::Fifths, Some(v.fifths)))
            .with_children(text_nodes::<KeyMode>(Name::Mode, Some(v.mode)))
    }

    /// An encoded element bears the tag it was given.
    pub proof fn encoded_tag(v: Key, tag: Seq<char>)
        ensures
            Key::encode_value(v, tag).tag == tag,
    {
        broadcast use group_codec;

        reveal(Key::encode_value);
    }

    /// Decoding what was encoded gives the value back.
    pub proof fn round_trip(v: Key, tag: Seq<char>)
        requires
            <Key as Element>::valid(v),
        ensures
            Key::decode_node(Key::encode_value(v, tag)) == Ok::<Key, DecodeErrorView>(v),
    {
        broadcast use group_codec;

        let n = Key::encode_value(v, tag);
        assert(n.attribute_or::<i8>(Name::Number, 0) == Ok::<i8, DecodeErrorView>(v.number)) by {
            reveal(Key::encode_value);
        }
        assert(n.text_or::<i8>(Name::Fifths, 0) == Ok::<i8, DecodeErrorView>(v.fifths)) by {
            reveal(Key::encode_value);
            reveal(NodeView::text_or);
            reveal(NodeView::text_opt);
            reveal(NodeView::only_child);
            reveal(NodeView::content);
            i8::parse_text(v.fifths);
        }
        assert(
            n.text_or::<KeyMode>(Name::Mode, KeyMode::Nothing)
                == Ok::<KeyMode, DecodeErrorView>(v.mode)
        ) by {
            reveal(Key::encode_value);
            reveal(NodeView::text_or);
            reveal(NodeView::text_opt);
            reveal(NodeView::only_child);
            reveal(NodeView::content);
            KeyMode::parse_text(v.mode);
        }
        reveal(Key::decode_node);
    }

    /// Decoding gives valid values only.
    pub proof fn decoded_valid(n: NodeView)
        ensures
            Key::decode_node(n) matches Ok(v) ==> <Key as Element>::valid(v),
    {
        reveal(Key::decode_node);
    }

    /// Decodes an element.
    pub fn read_node(node: &Node) -> (r: Result<Key, DecodeError>)
        ensures
            r matches Ok(v) ==> Key::decode_node(node.deep_view()) == Ok::<Key, DecodeErrorView>(
                v.deep_view(),
            ),
            r matches Err(e) ==> Key::decode_node(node.deep_view()) == Err::<Key, DecodeErrorView>(
                e.deep_view(),
            ),
    {
        proof {
            reveal(Key::decode_node);
        }
        let number = node.attribute_or::<i8>(Name::Number, 0)?;
        let fifths = node.text_or::<i8>(Name::Fifths, 0)?;
        let mode = node.text_or::<KeyMode>(Name::Mode, KeyMode::Nothing)?;
        Ok(Key { number, fifths, mode })
    }

    /// Encodes a value as an element with the given tag.
    pub fn write_node(&self, tag: &str) -> (r: Node)
        ensures
            r.deep_view() == Key::encode_value(self.deep_view(), tag@),
    {
        proof {
            reveal(Key::encode_value);
        }
        let mut node = Node::new(tag);
        node.put_scalar::<i8>(Name::Number, &self.number);
        node.put_text::<i8>(Name::Fifths, &self.fifths);
        node.put_text::<KeyMode>(Name::Mode, &self.mode);
        node
    }
}

impl Element for Key {
    open spec fn valid(v: Key) -> bool {
        true
    }

    open spec fn decode(n: NodeView) -> Result<Key, DecodeErrorView> {
        Key::decode_node(n)
    }

    open spec fn encode(v: Key, tag: Seq<char>) -> NodeView {
        Key::encode_value(v, tag)
    }

    proof fn encode_tag(v: Key, tag: Seq<char>) {
        Key::encoded_tag(v, tag);
    }

    proof fn decode_encode(v: Key, tag: Seq<char>) {
        Key::round_trip(v, tag);
    }

    proof fn decode_valid(n: NodeView) {
        Key::decoded_valid(n);
    }

    fn from_node(node: &Node) -> (r: Result<Key, DecodeError>) {
        Key::read_node(node)
    }

    fn to_node(&self, tag: &str) -> (r: Node) {
        self.write_node(tag)
    }
}

/// A time signature.
#[derive(Clone, Copy, Debug, PartialEq, Eq)]
pub struct Time {
    /// The text of the child `beats`; zero where the child is not there.
    pub beats: u8,
    /// The text of the child `beat-type`; zero where the child is not
    /// there.
    pub beat_type: u8,
}

impl DeepView for Time {
    type V = Time;

    open spec fn deep_view(&self) -> Time {
        Time {
            beats: self.beats.deep_view(),
            beat_type: self.beat_type.deep_view(),
        }
    }
}

impl Time {
    /// The value that an element denotes. The fields are read in the order in
    /// which they are declared; the first one that fails gives the error.
    #[verifier::opaque]
    pub open spec fn decode_node(n: NodeView) -> Result<Time, DecodeErrorView> {
        let beats = n.text_or::<u8>(Name::Beats, 0);
        let beat_type = n.text_or::<u8>(Name::BeatType, 0);
        if beats is Err {
            Err(beats->Err_0)
        } else if beat_type is Err {
            Err(beat_type->Err_0)
        } else {
            Ok(
                Time {
                    beats: beats->Ok_0,
                    beat_type: beat_type->Ok_0,
                }
            )
        }
    }

    /// The element that a value is written as.
    #[verifier::opaque]
    pub open spec fn encode_value(v: Time, tag: Seq<char>) -> NodeView {
        NodeView::new(tag)
            .with_children(text_nodes::<u8>(Name::Beats, Some(v.beats)))
            .with_children(text_nodes::<u8>(Name::BeatType, Some(v.beat_type)))
    }

    /// An encoded element bears the tag it was given.
    pub proof fn encoded_tag(v: Time, tag: Seq<char>)
        ensures
            Time::encode_value(v, tag).tag == tag,
    {
        broadcast use group_codec;

        reveal(Time::encode_value);
    }

    /// Decoding what was encoded gives the value back.
    pub proof fn round_trip(v: Time, tag: Seq<char>)
        requires
            <Time as Element>::valid(v),
        ensures
            Time::decode_node(Time::encode_value(v, tag)) == Ok::<Time, DecodeErrorView>(v),
    {
        broadcast use group_codec;

        let n = Time::encode_value(v, tag);
        assert(n.text_or::<u8>(Name::Beats, 0) == Ok::<u8, DecodeErrorView>(v.beats)) by {
            reveal(Time::encode_value);
            reveal(NodeView::text_or);
            reveal(NodeView::text_opt);
            reveal(NodeView::only_child);
            reveal(NodeView::content);
            u8::parse_text(v.beats);
        }
        assert(n.text_or::<u8>(Name::BeatType, 0) == Ok::<u8, DecodeErrorView>(v.beat_type)) by {
            reveal(Time::encode_value);
            reveal(NodeView::text_or);
            reveal(NodeView::text_opt);
            reveal(NodeView::only_child);
            reveal(NodeView::content);
            u8::parse_text(v.beat_type);
        }
        reveal(Time::decode_node);
    }

    /// Decoding gives valid values only.
    pub proof fn decoded_valid(n: NodeView)
        ensures
            Time::decode_node(n) matches Ok(v) ==> <Time as Element>::valid(v),
    {
        reveal(Time::decode_node);
    }

    /// Decodes an element.
    pub fn read_node(node: &Node) -> (r: Result<Time, DecodeError>)
        ensures
            r matches Ok(v) ==> Time::decode_node(node.deep_view()) == Ok::<Time, DecodeErrorView>(
                v.deep_view(),
            ),
            r matches Err(e) ==>
                Time::decode_node(node.deep_view()) == Err::<Time, DecodeErrorView>(
                e.deep_view(),
            ),
    {
        proof {
            reveal(Time::decode_node);
        }
        let beats = node.text_or::<u8>(Name::Beats, 0)?;
        let beat_type = node.text_or::<u8>(Name::BeatType, 0)?;
        Ok(Time { beats, beat_type })
    }

    /// Encodes a value as an element with the given tag.
    pub fn write_node(&self, tag: &str) -> (r: Node)
        ensures
            r.deep_view() == Time::encode_value(self.deep_view(), tag@),
    {
        proof {
            reveal(Time::encode_value);
        }
        let mut node = Node::new(tag);
        node.put_text::<u8>(Name::Beats, &self.beats);
        node.put_text::<u8>(Name::BeatType, &self.beat_type);
        node
    }
}

impl Element for Time {
    open spec fn valid(v: Time) -> bool {
        true
    }

    open spec fn decode(n: NodeView) -> Result<Time, DecodeErrorView> {
        Time::decode_node(n)
    }

    open spec fn encode(v: Time, tag: Seq<char>) -> NodeView {
        Time::encode_value(v, tag)
    }

    proof fn encode_tag(v: Time, tag: Seq<char>) {
        Time::encoded_tag(v, tag);
    }

    proof fn decode_encode(v: Time, tag: Seq<char>) {
        Time::round_trip(v, tag);
    }

    proof fn decode_valid(n: NodeView) {
        Time::decoded_valid(n);
    }

    fn from_node(node: &Node) -> (r: Result<Time, DecodeError>) {
        Time::read_node(node)
    }

    fn to_node(&self, tag: &str) -> (r: Node) {
        self.write_node(tag)
    }
}

/// A clef.
#[derive(Clone, Copy, Debug, PartialEq, Eq)]
pub struct Clef {
    /// The text of the child `sign`; the null character where the child is
    /// not there.
    pub sign: char,
    /// The text of the child `line`; zero where the child is not there.
    pub line: i8,
    /// The attribute `number`; zero where it is not written.
    pub number: i8,
}

impl DeepView for Clef {
    type V = Clef;

    open spec fn deep_view(&self) -> Clef {
        Clef {
            sign: self.sign.deep_view(),
            line: self.line.deep_view(),
            number: self.number.deep_view(),
        }
    }
}

impl Clef {
    /// The value that an element denotes. The fields are read in the order in
    /// which they are declared; the first one that fails gives the error.
    #[verifier::opaque]
    pub open spec fn decode_node(n: NodeView) -> Result<Clef, DecodeErrorView> {
        let sign = n.text_or::<char>(Name::Sign, '\0');
        let line = n.text_or::<i8>(Name::Line, 0);
        let number = n.attribute_or::<i8>(Name::Number, 0);
        if sign is Err {
            Err(sign->Err_0)
        } else if line is Err {
            Err(line->Err_0)
        } else if number is Err {
            Err(number->Err_0)
        } else {
            Ok(
                Clef {
                    sign: sign->Ok_0,
                    line: line->Ok_0,
                    number: number->Ok_0,
                }
            )
        }
    }

    /// The element that a value is written as.
    #[verifier::opaque]
    pub open spec fn encode_value(v: Clef, tag: Seq<char>) -> NodeView {
        NodeView::new(tag)
            .with_children(text_nodes::<char>(Name::Sign, Some(v.sign)))
            .with_children(text_nodes::<i8>(Name::Line, Some(v.line)))
            .with_scalar::<i8>(Name::Number, v.number)
    }

    /// An encoded element bears the tag it was given.
    pub proof fn encoded_tag(v: Clef, tag: Seq<char>)
        ensures
            Clef::encode_value(v, tag).tag == tag,
    {
        broadcast use group_codec;

        reveal(Clef::encode_value);
    }

    /// Decoding what was encoded gives the value back.
    pub proof fn round_trip(v: Clef, tag: Seq<char>)
        requires
            <Clef as Element>::valid(v),
        ensures
            Clef::decode_node(Clef::encode_value(v, tag)) == Ok::<Clef, DecodeErrorView>(v),
    {
        broadcast use group_codec;

        let n = Clef::encode_value(v, tag);
        assert(n.text_or::<char>(Name::Sign, '\0') == Ok::<char, DecodeErrorView>(v.sign)) by {
            reveal(Clef::encode_value);
            reveal(NodeView::text_or);
            reveal(NodeView::text_opt);
            reveal(NodeView::only_child);
            reveal(NodeView::content);
            char::parse_text(v.sign);
        }
        assert(n.text_or::<i8>(Name::Line, 0) == Ok::<i8, DecodeErrorView>(v.line)) by {
            reveal(Clef::encode_value);
            reveal(NodeView::text_or);
            reveal(NodeView::text_opt);
            reveal(NodeView::only_child);
            reveal(NodeView::content);
            i8::parse_text(v.line);
        }
        assert(n.attribute_or::<i8>(Name::Number, 0) == Ok::<i8, DecodeErrorView>(v.number)) by {
            reveal(Clef::encode_value);
        }
        reveal(Clef::decode_node);
    }

    /// Decoding gives valid values only.
    pub proof fn decoded_valid(n: NodeView)
        ensures
            Clef::decode_node(n) matches Ok(v) ==> <Clef as Element>::valid(v),
    {
        reveal(Clef::decode_node);
    }

    /// Decodes an element.
    pub fn read_node(node: &Node) -> (r: Result<Clef, DecodeError>)
        ensures
            r matches Ok(v) ==> Clef::decode_node(node.deep_view()) == Ok::<Clef, DecodeErrorView>(
                v.deep_view(),
            ),
            r matches Err(e) ==>
                Clef::decode_node(node.deep_view()) == Err::<Clef, DecodeErrorView>(
                e.deep_view(),
            ),
    {
        proof {
            reveal(Clef::decode_node);
        }
        let sign = node.text_or::<char>(Name::Sign, '\0')?;
        let line = node.text_or::<i8>(Name::Line, 0)?;
        let number = node.attribute_or::<i8>(Name::Number, 0)?;
        Ok(Clef { sign, line, number })
    }

    /// Encodes a value as an element with the given tag.
    pub fn write_node(&self, tag: &str) -> (r: Node)
        ensures
            r.deep_view() == Clef::encode_value(self.deep_view(), tag@),
    {
        proof {
            reveal(Clef::encode_value);
        }
        let mut node = Node::new(tag);
        node.put_text::<char>(Name::Sign, &self.sign);
        node.put_text::<i8>(Name::Line, &self.line);
        node.put_scalar::<i8>(Name::Number, &self.number);
        node
    }
}

impl Element for Clef {
    open spec fn valid(v: Clef) -> bool {
        true
    }

    open spec fn decode(n: NodeView) -> Result<Clef, DecodeErrorView> {
        Clef::decode_node(n)
    }

    open spec fn encode(v: Clef, tag: Seq<char>) -> NodeView {
        Clef::encode_value(v, tag)
    }

    proof fn encode_tag(v: Clef, tag: Seq<char>) {
        Clef::encoded_tag(v, tag);
    }

    proof fn decode_encode(v: Clef, tag: Seq<char>) {
        Clef::round_trip(v, tag);
    }

    proof fn decode_valid(n: NodeView) {
        Clef::decoded_valid(n);
    }

    fn from_node(node: &Node) -> (r: Result<Clef, DecodeError>) {
        Clef::read_node(node)
    }

    fn to_node(&self, tag: &str) -> (r: Node) {
        self.write_node(tag)
    }
}

/// What holds from a point of the score on: the divisions of a quarter
/// note, the number of staves, key, time and clef. A field that is not
/// written is absent, not zero.
#[derive(Clone, Copy, Debug, PartialEq, Eq)]
pub struct Attributes {
    /// The text of the child `divisions`, if the child is there.
    pub divisions: Option<usize>,
    /// The text of the child `staves`, if the child is there.
    pub staves: Option<u8>,
    /// The child `key`, if it is there.
    pub key: Option<Key>,
    /// The child `time`, if it is there.
    pub time: Option<Time>,
    /// The child `clef`, if it is there.
    pub clef: Option<Clef>,
}

impl DeepView for Attributes {
    type V = Attributes;

    open spec fn deep_view(&self) -> Attributes {
        Attributes {
            divisions: self.divisions.deep_view(),
            staves: self.staves.deep_view(),
            key: self.key.deep_view(),
            time: self.time.deep_view(),
            clef: self.clef.deep_view(),
        }
    }
}

impl Attributes {
    /// The value that an element denotes. The fields are read in the order in
    /// which they are declared; the first one that fails gives the error.
    #[verifier::opaque]
    pub open spec fn decode_node(n: NodeView) -> Result<Attributes, DecodeErrorView> {
        let divisions = n.text_opt::<usize>(Name::Divisions);
        let staves = n.text_opt::<u8>(Name::Staves);
        let key = n.element_opt::<Key>(Name::Key);
        let time = n.element_opt::<Time>(Name::Time);
        let clef = n.element_opt::<Clef>(Name::Clef);
        if divisions is Err {
            Err(divisions->Err_0)
        } else if staves is Err {
            Err(staves->Err_0)
        } else if key is Err {
            Err(key->Err_0)
        } else if time is Err {
            Err(time->Err_0)
        } else if clef is Err {
            Err(clef->Err_0)
        } else {
            Ok(
                Attributes {
                    divisions: divisions->Ok_0,
                    staves: staves->Ok_0,
                    key: key->Ok_0,
                    time: time->Ok_0,
                    clef: clef->Ok_0,
                }
            )
        }
    }

    /// The element that a value is written as.
    #[verifier::opaque]
    pub open spec fn encode_value(v: Attributes, tag: Seq<char>) -> NodeView {
        NodeView::new(tag)
            .with_children(text_nodes::<usize>(Name::Divisions, v.divisions))
            .with_children(text_nodes::<u8>(Name::Staves, v.staves))
            .with_children(element_nodes::<Key>(Name::Key, v.key))
            .with_children(element_nodes::<Time>(Name::Time, v.time))
            .with_children(element_nodes::<Clef>(Name::Clef, v.clef))
    }

    /// An encoded element bears the tag it was given.
    pub proof fn encoded_tag(v: Attributes, tag: Seq<char>)
        ensures
            Attributes::encode_value(v, tag).tag == tag,
    {
        broadcast use group_codec;

        reveal(Attributes::encode_value);
    }

    /// Decoding what was encoded gives the value back.
    pub proof fn round_trip(v: Attributes, tag: Seq<char>)
        requires
            <Attributes as Element>::valid(v),
        ensures
            Attributes::decode_node(Attributes::encode_value(v, tag))
                == Ok::<Attributes, DecodeErrorView>(v),
    {
        broadcast use group_codec;

        let n = Attributes::encode_value(v, tag);
        assert(
            n.text_opt::<usize>(Name::Divisions)
                == Ok::<Option<usize>, DecodeErrorView>(v.divisions)
        ) by {
            reveal(Attributes::encode_value);
            reveal(NodeView::text_opt);
            reveal(NodeView::only_child);
            reveal(NodeView::content);
            if let Some(x) = v.divisions {
                usize::parse_text(x);
            }
        }
        assert(n.text_opt::<u8>(Name::Staves) == Ok::<Option<u8>, DecodeErrorView>(v.staves)) by {
            reveal(Attributes::encode_value);
            reveal(NodeView::text_opt);
            reveal(NodeView::only_child);
            reveal(NodeView::content);
            if let Some(x) = v.staves {
                u8::parse_text(x);
            }
        }
        assert(n.element_opt::<Key>(Name::Key) == Ok::<Option<Key>, DecodeErrorView>(v.key)) by {
            reveal(Attributes::encode_value);
            reveal(NodeView::element_opt);
            reveal(NodeView::only_child);
            if let Some(x) = v.key {
                Key::decode_encode(x, Name::Key.text());
            }
        }
        assert(
            n.element_opt::<Time>(Name::Time)
                == Ok::<Option<Time>, DecodeErrorView>(v.time)
        ) by {
            reveal(Attributes::encode_value);
            reveal(NodeView::element_opt);
            reveal(NodeView::only_child);
            if let Some(x) = v.time {
                Time::decode_encode(x, Name::Time.text());
            }
        }
        assert(
            n.element_opt::<Clef>(Name::Clef)
                == Ok::<Option<Clef>, DecodeErrorView>(v.clef)
        ) by {
            reveal(Attributes::encode_value);
            reveal(NodeView::element_opt);
            reveal(NodeView::only_child);
            if let Some(x) = v.clef {
                Clef::decode_encode(x, Name::Clef.text());
            }
        }
        reveal(Attributes::decode_node);
    }

    /// Decoding gives valid values only.
    pub proof fn decoded_valid(n: NodeView)
        ensures
            Attributes::decode_node(n) matches Ok(v) ==> <Attributes as Element>::valid(v),
    {
        reveal(Attributes::decode_node);
        reveal(NodeView::element_opt);
        if let Ok(Some(c)) = n.only_child(Name::Key) {
            Key::decode_valid(c);
        }
        if let Ok(Some(c)) = n.only_child(Name::Time) {
            Time::decode_valid(c);
        }
        if let Ok(Some(c)) = n.only_child(Name::Clef) {
            Clef::decode_valid(c);
        }
    }

    /// Decodes an element.
    pub fn read_node(node: &Node) -> (r: Result<Attributes, DecodeError>)
        ensures
            r matches Ok(v) ==>
                Attributes::decode_node(node.deep_view()) == Ok::<Attributes, DecodeErrorView>(
                v.deep_view(),
            ),
            r matches Err(e) ==>
                Attributes::decode_node(node.deep_view()) == Err::<Attributes, DecodeErrorView>(
                e.deep_view(),
            ),
    {
        proof {
            reveal(Attributes::decode_node);
        }
        let divisions = node.text_opt::<usize>(Name::Divisions)?;
        let staves = node.text_opt::<u8>(Name::Staves)?;
        let key = node.element_opt::<Key>(Name::Key)?;
        let time = node.element_opt::<Time>(Name::Time)?;
        let clef = node.element_opt::<Clef>(Name::Clef)?;
        Ok(Attributes { divisions, staves, key, time, clef })
    }

    /// Encodes a value as an element with the given tag.
    pub fn write_node(&self, tag: &str) -> (r: Node)
        ensures
            r.deep_view() == Attributes::encode_value(self.deep_view(), tag@),
    {
        proof {
            reveal(Attributes::encode_value);
        }
        let mut node = Node::new(tag);
        node.put_text_opt::<usize>(Name::Divisions, &self.divisions);
        node.put_text_opt::<u8>(Name::Staves, &self.staves);
        node.put_element_opt::<Key>(Name::Key, &self.key);
        node.put_element_opt::<Time>(Name::Time, &self.time);
        node.put_element_opt::<Clef>(Name::Clef, &self.clef);
        node
    }
}

impl Element for Attributes {
    open spec fn valid(v: Attributes) -> bool {
        &&& (v.key matches Some(x) ==> Key::valid(x))
        &&& (v.time matches Some(x) ==> Time::valid(x))
        &&& (v.clef matches Some(x) ==> Clef::valid(x))
    }

    open spec fn decode(n: NodeView) -> Result<Attributes, DecodeErrorView> {
        Attributes::decode_node(n)
    }

    open spec fn encode(v: Attributes, tag: Seq<char>) -> NodeView {
        Attributes::encode_value(v, tag)
    }

    proof fn encode_tag(v: Attributes, tag: Seq<char>) {
        Attributes::encoded_tag(v, tag);
    }

    proof fn decode_encode(v: Attributes, tag: Seq<char>) {
        Attributes::round_trip(v, tag);
    }

    proof fn decode_valid(n: NodeView) {
        Attributes::decoded_valid(n);
    }

    fn from_node(node: &Node) -> (r: Result<Attributes, DecodeError>) {
        Attributes::read_node(node)
    }

    fn to_node(&self, tag: &str) -> (r: Node) {
        self.write_node(tag)
    }
}

impl Attributes {
    /// Attributes with nothing written.
    pub fn empty() -> (r: Attributes)
        ensures
            r == (Attributes { divisions: None, staves: None, key: None, time: None, clef: None }),
    {
        Attributes { divisions: None, staves: None, key: None, time: None, clef: None }
    }
}

} // verus!
