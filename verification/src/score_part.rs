//! Declarations of parts.
use crate::codec::{
    all_valid_variants, Element, element_nodes, encode_variants, group_codec,
    lemma_decode_encode_variants, lemma_decode_variants_valid, lemma_element_nodes_without,
    lemma_variants_apart, Tagged, text_nodes,
};
use crate::error::{DecodeError, DecodeErrorView, ErrorKind};
use crate::identification::{Identification, IdentificationView};
use crate::midi_device::{MidiDevice, MidiDeviceView};
use crate::midi_instrument::{MidiInstrument, MidiInstrumentView};
use crate::names::Name;
use crate::node::{lemma_without_tag_empty, Node, NodeView};
use crate::part_group::{GroupDisplay, GroupDisplayView};
use crate::score_instrument::{ScoreInstrument, ScoreInstrumentView};
use vstd::prelude::*;

verus! {

/// The declaration of a part.
#[derive(Clone, Debug, PartialEq)]
pub struct ScorePart {
    /// The child `identification`, if it is there.
    pub identification: Option<Identification>,
    /// The attribute `id`; the empty text where it is not written.
    pub id: String,
    /// The children other than `identification`, in document order.
    pub content: Vec<ScorePartContent>,
}

/// The mathematical value of a [`ScorePart`].
pub struct ScorePartView {
    pub identification: Option<IdentificationView>,
    pub id: Seq<char>,
    pub content: Seq<ScorePartContentView>,
}

impl DeepView for ScorePart {
    type V = ScorePartView;

    open spec fn deep_view(&self) -> ScorePartView {
        ScorePartView {
            identification: self.identification.deep_view(),
            id: self.id.deep_view(),
            content: self.content.deep_view(),
        }
    }
}

impl ScorePart {
    /// The value that an element denotes. The fields are read in the order in
    /// which they are declared; the first one that fails gives the error.
    #[verifier::opaque]
    pub open spec fn decode_node(n: NodeView) -> Result<ScorePartView, DecodeErrorView> {
        let identification = n.element_opt::<Identification>(Name::Identification);
        let id = n.attribute_or::<String>(Name::Id, Seq::<char>::empty());
        let content = n.variants_except::<ScorePartContent>(Name::Identification);
        if identification is Err {
            Err(identification->Err_0)
        } else if id is Err {
            Err(id->Err_0)
        } else if content is Err {
            Err(content->Err_0)
        } else {
            Ok(
                ScorePartView {
                    identification: identification->Ok_0,
                    id: id->Ok_0,
                    content: content->Ok_0,
                }
            )
        }
    }

    /// The element that a value is written as.
    #[verifier::opaque]
    pub open spec fn encode_value(v: ScorePartView, tag: Seq<char>) -> NodeView {
        NodeView::new(tag)
            .with_children(element_nodes::<Identification>(Name::Identification, v.identification))
            .with_scalar::<String>(Name::Id, v.id)
            .with_children(encode_variants::<ScorePartContent>(v.content))
    }

    /// An encoded element bears the tag it was given.
    pub proof fn encoded_tag(v: ScorePartView, tag: Seq<char>)
        ensures
            ScorePart::encode_value(v, tag).tag == tag,
    {
        broadcast use group_codec;

        reveal(ScorePart::encode_value);
    }

    /// Decoding what was encoded gives the value back.
    pub proof fn round_trip(v: ScorePartView, tag: Seq<char>)
        requires
            <ScorePart as Element>::valid(v),
        ensures
            ScorePart::decode_node(ScorePart::encode_value(v, tag))
                == Ok::<ScorePartView, DecodeErrorView>(v),
    {
        broadcast use group_codec;

        let n = ScorePart::encode_value(v, tag);
        assert(
            n.element_opt::<Identification>(Name::Identification)
                == Ok::<Option<IdentificationView>, DecodeErrorView>(v.identification)
        ) by {
            reveal(ScorePart::encode_value);
            reveal(NodeView::element_opt);
            reveal(NodeView::only_child);
            if let Some(x) = v.identification {
                Identification::decode_encode(x, Name::Identification.text());
            }
            let front = Seq::<NodeView>::empty() + element_nodes::<Identification>(
                Name::Identification,
                v.identification,
            );
            lemma_variants_apart::<ScorePartContent>(front, v.content, Name::Identification);
            lemma_element_nodes_without::<Identification>(
                Seq::empty(),
                Name::Identification,
                v.identification,
            );
            lemma_without_tag_empty(Name::Identification.text());
        }
        assert(
            n.attribute_or::<String>(Name::Id, Seq::<char>::empty())
                == Ok::<Seq<char>, DecodeErrorView>(v.id)
        ) by {
            reveal(ScorePart::encode_value);
        }
        assert(
            n.variants_except::<ScorePartContent>(Name::Identification)
                == Ok::<Seq<ScorePartContentView>, DecodeErrorView>(v.content)
        ) by {
            reveal(ScorePart::encode_value);
            reveal(NodeView::variants_except);
            lemma_decode_encode_variants::<ScorePartContent>(v.content, tag);
            let front = Seq::<NodeView>::empty() + element_nodes::<Identification>(
                Name::Identification,
                v.identification,
            );
            lemma_variants_apart::<ScorePartContent>(front, v.content, Name::Identification);
            lemma_element_nodes_without::<Identification>(
                Seq::empty(),
                Name::Identification,
                v.identification,
            );
            lemma_without_tag_empty(Name::Identification.text());
        }
        reveal(ScorePart::decode_node);
    }

    /// Decoding gives valid values only.
    pub proof fn decoded_valid(n: NodeView)
        ensures
            ScorePart::decode_node(n) matches Ok(v) ==> <ScorePart as Element>::valid(v),
    {
        reveal(ScorePart::decode_node);
        reveal(NodeView::element_opt);
        reveal(NodeView::variants_except);
        if let Ok(Some(c)) = n.only_child(Name::Identification) {
            Identification::decode_valid(c);
        }
        lemma_decode_variants_valid::<ScorePartContent>(
            n.children_without_tag(Name::Identification.text()),
            n.tag,
        );
    }

    /// Decodes an element.
    pub fn read_node(node: &Node) -> (r: Result<ScorePart, DecodeError>)
        ensures
            r matches Ok(v) ==>
                ScorePart::decode_node(node.deep_view()) == Ok::<ScorePartView, DecodeErrorView>(
                v.deep_view(),
            ),
            r matches Err(e) ==>
                ScorePart::decode_node(node.deep_view()) == Err::<ScorePartView, DecodeErrorView>(
                e.deep_view(),
            ),
    {
        proof {
            reveal(ScorePart::decode_node);
        }
        let identification = node.element_opt::<Identification>(Name::Identification)?;
        let id = node.attribute_or::<String>(Name::Id, String::new())?;
        let content = node.variants_except::<ScorePartContent>(Name::Identification)?;
        Ok(ScorePart { identification, id, content })
    }

    /// Encodes a value as an element with the given tag.
    pub fn write_node(&self, tag: &str) -> (r: Node)
        ensures
            r.deep_view() == ScorePart::encode_value(self.deep_view(), tag@),
    {
        proof {
            reveal(ScorePart::encode_value);
        }
        let mut node = Node::new(tag);
        node.put_element_opt::<Identification>(Name::Identification, &self.identification);
        node.put_scalar::<String>(Name::Id, &self.id);
        node.put_variants::<ScorePartContent>(&self.content);
        node
    }
}

impl Element for ScorePart {
    open spec fn valid(v: ScorePartView) -> bool {
        &&& (v.identification matches Some(x) ==> Identification::valid(x))
        &&& all_valid_variants::<ScorePartContent>(v.content)
    }

    open spec fn decode(n: NodeView) -> Result<ScorePartView, DecodeErrorView> {
        ScorePart::decode_node(n)
    }

    open spec fn encode(v: ScorePartView, tag: Seq<char>) -> NodeView {
        ScorePart::encode_value(v, tag)
    }

    proof fn encode_tag(v: ScorePartView, tag: Seq<char>) {
        ScorePart::encoded_tag(v, tag);
    }

    proof fn decode_encode(v: ScorePartView, tag: Seq<char>) {
        ScorePart::round_trip(v, tag);
    }

    proof fn decode_valid(n: NodeView) {
        ScorePart::decoded_valid(n);
    }

    fn from_node(node: &Node) -> (r: Result<ScorePart, DecodeError>) {
        ScorePart::read_node(node)
    }

    fn to_node(&self, tag: &str) -> (r: Node) {
        self.write_node(tag)
    }
}

/// A player of a part.
#[derive(Clone, Debug, PartialEq)]
pub struct Player {
    /// The text of the child `player-name`; the empty text where the child
    /// is not there.
    pub player_name: String,
    /// The attribute `id`; the empty text where it is not written.
    pub id: String,
}

/// The mathematical value of a [`Player`].
pub struct PlayerView {
    pub player_name: Seq<char>,
    pub id: Seq<char>,
}

impl DeepView for Player {
    type V = PlayerView;

    open spec fn deep_view(&self) -> PlayerView {
        PlayerView {
            player_name: self.player_name.deep_view(),
            id: self.id.deep_view(),
        }
    }
}

impl Player {
    /// The value that an element denotes. The fields are read in the order in
    /// which they are declared; the first one that fails gives the error.
    #[verifier::opaque]
    pub open spec fn decode_node(n: NodeView) -> Result<PlayerView, DecodeErrorView> {
        let player_name = n.text_or::<String>(Name::PlayerName, Seq::<char>::empty());
        let id = n.attribute_or::<String>(Name::Id, Seq::<char>::empty());
        if player_name is Err {
            Err(player_name->Err_0)
        } else if id is Err {
            Err(id->Err_0)
        } else {
            Ok(
                PlayerView {
                    player_name: player_name->Ok_0,
                    id: id->Ok_0,
                }
            )
        }
    }

    /// The element that a value is written as.
    #[verifier::opaque]
    pub open spec fn encode_value(v: PlayerView, tag: Seq<char>) -> NodeView {
        NodeView::new(tag)
            .with_children(text_nodes::<String>(Name::PlayerName, Some(v.player_name)))
            .with_scalar::<String>(Name::Id, v.id)
    }

    /// An encoded element bears the tag it was given.
    pub proof fn encoded_tag(v: PlayerView, tag: Seq<char>)
        ensures
            Player::encode_value(v, tag).tag == tag,
    {
        broadcast use group_codec;

        reveal(Player::encode_value);
    }

    /// Decoding what was encoded gives the value back.
    pub proof fn round_trip(v: PlayerView, tag: Seq<char>)
        requires
            <Player as Element>::valid(v),
        ensures
            Player::decode_node(Player::encode_value(v, tag))
                == Ok::<PlayerView, DecodeErrorView>(v),
    {
        broadcast use group_codec;

        let n = Player::encode_value(v, tag);
        assert(
            n.text_or::<String>(Name::PlayerName, Seq::<char>::empty())
                == Ok::<Seq<char>, DecodeErrorView>(v.player_name)
        ) by {
            reveal(Player::encode_value);
            reveal(NodeView::text_or);
            reveal(NodeView::text_opt);
            reveal(NodeView::only_child);
            reveal(NodeView::content);
        }
        assert(
            n.attribute_or::<String>(Name::Id, Seq::<char>::empty())
                == Ok::<Seq<char>, DecodeErrorView>(v.id)
        ) by {
            reveal(Player::encode_value);
        }
        reveal(Player::decode_node);
    }

    /// Decoding gives valid values only.
    pub proof fn decoded_valid(n: NodeView)
        ensures
            Player::decode_node(n) matches Ok(v) ==> <Player as Element>::valid(v),
    {
        reveal(Player::decode_node);
    }

    /// Decodes an element.
    pub fn read_node(node: &Node) -> (r: Result<Player, DecodeError>)
        ensures
            r matches Ok(v) ==>
                Player::decode_node(node.deep_view()) == Ok::<PlayerView, DecodeErrorView>(
                v.deep_view(),
            ),
            r matches Err(e) ==>
                Player::decode_node(node.deep_view()) == Err::<PlayerView, DecodeErrorView>(
                e.deep_view(),
            ),
    {
        proof {
            reveal(Player::decode_node);
        }
        let player_name = node.text_or::<String>(Name::PlayerName, String::new())?;
        let id = node.attribute_or::<String>(Name::Id, String::new())?;
        Ok(Player { player_name, id })
    }

    /// Encodes a value as an element with the given tag.
    pub fn write_node(&self, tag: &str) -> (r: Node)
        ensures
            r.deep_view() == Player::encode_value(self.deep_view(), tag@),
    {
        proof {
            reveal(Player::encode_value);
        }
        let mut node = Node::new(tag);
        node.put_text::<String>(Name::PlayerName, &self.player_name);
        node.put_scalar::<String>(Name::Id, &self.id);
        node
    }
}

impl Element for Player {
    open spec fn valid(v: PlayerView) -> bool {
        true
    }

    open spec fn decode(n: NodeView) -> Result<PlayerView, DecodeErrorView> {
        Player::decode_node(n)
    }

    open spec fn encode(v: PlayerView, tag: Seq<char>) -> NodeView {
        Player::encode_value(v, tag)
    }

    proof fn encode_tag(v: PlayerView, tag: Seq<char>) {
        Player::encoded_tag(v, tag);
    }

    proof fn decode_encode(v: PlayerView, tag: Seq<char>) {
        Player::round_trip(v, tag);
    }

    proof fn decode_valid(n: NodeView) {
        Player::decoded_valid(n);
    }

    fn from_node(node: &Node) -> (r: Result<Player, DecodeError>) {
        Player::read_node(node)
    }

    fn to_node(&self, tag: &str) -> (r: Node) {
        self.write_node(tag)
    }
}

/// An item of the declaration of a part.
#[derive(Clone, Debug, PartialEq)]
pub enum ScorePartContent {
    /// The element `score-instrument`.
    ScoreInstrument(ScoreInstrument),
    /// The element `player`.
    Player(Player),
    /// The element `midi-device`.
    MidiDevice(MidiDevice),
    /// The element `midi-instrument`.
    MidiInstrument(MidiInstrument),
    /// The text of the element `part-name`.
    PartName(String),
    /// The element `part-name-display`.
    PartNameDisplay(GroupDisplay),
    /// The text of the element `part-abbreviation`.
    PartAbbreviation(String),
}

/// The mathematical value of a [`ScorePartContent`].
pub enum ScorePartContentView {
    ScoreInstrument(ScoreInstrumentView),
    Player(PlayerView),
    MidiDevice(MidiDeviceView),
    MidiInstrument(MidiInstrumentView),
    PartName(Seq<char>),
    PartNameDisplay(GroupDisplayView),
    PartAbbreviation(Seq<char>),
}

impl DeepView for ScorePartContent {
    type V = ScorePartContentView;

    open spec fn deep_view(&self) -> ScorePartContentView {
        match self {
            ScorePartContent::ScoreInstrument(x) =>
                ScorePartContentView::ScoreInstrument(x.deep_view()),
            ScorePartContent::Player(x) => ScorePartContentView::Player(x.deep_view()),
            ScorePartContent::MidiDevice(x) => ScorePartContentView::MidiDevice(x.deep_view()),
            ScorePartContent::MidiInstrument(x) =>
                ScorePartContentView::MidiInstrument(x.deep_view()),
            ScorePartContent::PartName(x) => ScorePartContentView::PartName(x.deep_view()),
            ScorePartContent::PartNameDisplay(x) =>
                ScorePartContentView::PartNameDisplay(x.deep_view()),
            ScorePartContent::PartAbbreviation(x) =>
                ScorePartContentView::PartAbbreviation(x.deep_view()),
        }
    }
}

impl ScorePartContent {
    /// The variant that an element denotes: the tag chooses the variant, the
    /// rest of the element gives what the variant holds.
    #[verifier::opaque]
    pub open spec fn decode_node(n: NodeView) -> Result<ScorePartContentView, DecodeErrorView> {
        match Name::of_text(n.tag) {
            Some(Name::ScoreInstrument) => match ScoreInstrument::decode(n) {
                Ok(x) => Ok(ScorePartContentView::ScoreInstrument(x)),
                Err(e) => Err(e),
            },
            Some(Name::Player) => match Player::decode(n) {
                Ok(x) => Ok(ScorePartContentView::Player(x)),
                Err(e) => Err(e),
            },
            Some(Name::MidiDevice) => match MidiDevice::decode(n) {
                Ok(x) => Ok(ScorePartContentView::MidiDevice(x)),
                Err(e) => Err(e),
            },
            Some(Name::MidiInstrument) => match MidiInstrument::decode(n) {
                Ok(x) => Ok(ScorePartContentView::MidiInstrument(x)),
                Err(e) => Err(e),
            },
            Some(Name::PartName) => match n.content::<String>() {
                Ok(x) => Ok(ScorePartContentView::PartName(x)),
                Err(e) => Err(e),
            },
            Some(Name::PartNameDisplay) => match GroupDisplay::decode(n) {
                Ok(x) => Ok(ScorePartContentView::PartNameDisplay(x)),
                Err(e) => Err(e),
            },
            Some(Name::PartAbbreviation) => match n.content::<String>() {
                Ok(x) => Ok(ScorePartContentView::PartAbbreviation(x)),
                Err(e) => Err(e),
            },
            _ => Err(n.unknown()),
        }
    }

    /// The element that a variant is written as.
    #[verifier::opaque]
    pub open spec fn encode_value(v: ScorePartContentView) -> NodeView {
        match v {
            ScorePartContentView::ScoreInstrument(x) =>
                ScoreInstrument::encode(x, Name::ScoreInstrument.text()),
            ScorePartContentView::Player(x) => Player::encode(x, Name::Player.text()),
            ScorePartContentView::MidiDevice(x) => MidiDevice::encode(x, Name::MidiDevice.text()),
            ScorePartContentView::MidiInstrument(x) =>
                MidiInstrument::encode(x, Name::MidiInstrument.text()),
            ScorePartContentView::PartName(x) =>
                NodeView::new(Name::PartName.text()).with_content::<String>(x),
            ScorePartContentView::PartNameDisplay(x) =>
                GroupDisplay::encode(x, Name::PartNameDisplay.text()),
            ScorePartContentView::PartAbbreviation(x) =>
                NodeView::new(Name::PartAbbreviation.text()).with_content::<String>(x),
        }
    }

    /// The tag of a variant.
    pub open spec fn name_of(v: ScorePartContentView) -> Name {
        match v {
            ScorePartContentView::ScoreInstrument(_) => Name::ScoreInstrument,
            ScorePartContentView::Player(_) => Name::Player,
            ScorePartContentView::MidiDevice(_) => Name::MidiDevice,
            ScorePartContentView::MidiInstrument(_) => Name::MidiInstrument,
            ScorePartContentView::PartName(_) => Name::PartName,
            ScorePartContentView::PartNameDisplay(_) => Name::PartNameDisplay,
            ScorePartContentView::PartAbbreviation(_) => Name::PartAbbreviation,
        }
    }

    /// An encoded variant bears the tag of the variant.
    pub proof fn encoded_name(v: ScorePartContentView)
        ensures
            ScorePartContent::encode_value(v).tag == ScorePartContent::name_of(v).text(),
    {
        broadcast use group_codec;

        reveal(ScorePartContent::encode_value);
        match v {
            ScorePartContentView::ScoreInstrument(x) => {
                ScoreInstrument::encode_tag(x, Name::ScoreInstrument.text());
            },
            ScorePartContentView::Player(x) => {
                Player::encode_tag(x, Name::Player.text());
            },
            ScorePartContentView::MidiDevice(x) => {
                MidiDevice::encode_tag(x, Name::MidiDevice.text());
            },
            ScorePartContentView::MidiInstrument(x) => {
                MidiInstrument::encode_tag(x, Name::MidiInstrument.text());
            },
            ScorePartContentView::PartNameDisplay(x) => {
                GroupDisplay::encode_tag(x, Name::PartNameDisplay.text());
            },
            _ => {
            },
        }
    }

    /// Decoding what was encoded gives the variant back.
    pub proof fn round_trip(v: ScorePartContentView)
        requires
            <ScorePartContent as Tagged>::valid(v),
        ensures
            ScorePartContent::decode_node(ScorePartContent::encode_value(v))
                == Ok::<ScorePartContentView, DecodeErrorView>(v),
    {
        broadcast use group_codec;

        let n = ScorePartContent::encode_value(v);
        assert(Name::of_text(n.tag) == Some(ScorePartContent::name_of(v))) by {
            ScorePartContent::encoded_name(v);
        }
        match v {
            ScorePartContentView::ScoreInstrument(x) => {
                reveal(ScorePartContent::encode_value);
                ScoreInstrument::decode_encode(x, Name::ScoreInstrument.text());
            },
            ScorePartContentView::Player(x) => {
                reveal(ScorePartContent::encode_value);
                Player::decode_encode(x, Name::Player.text());
            },
            ScorePartContentView::MidiDevice(x) => {
                reveal(ScorePartContent::encode_value);
                MidiDevice::decode_encode(x, Name::MidiDevice.text());
            },
            ScorePartContentView::MidiInstrument(x) => {
                reveal(ScorePartContent::encode_value);
                MidiInstrument::decode_encode(x, Name::MidiInstrument.text());
            },
            ScorePartContentView::PartName(x) => {
                reveal(ScorePartContent::encode_value);
                reveal(NodeView::content);
            },
            ScorePartContentView::PartNameDisplay(x) => {
                reveal(ScorePartContent::encode_value);
                GroupDisplay::decode_encode(x, Name::PartNameDisplay.text());
            },
            ScorePartContentView::PartAbbreviation(x) => {
                reveal(ScorePartContent::encode_value);
                reveal(NodeView::content);
            },
        }
        reveal(ScorePartContent::decode_node);
    }

    /// Decoding gives valid values only.
    pub proof fn decoded_valid(n: NodeView)
        ensures
            ScorePartContent::decode_node(n) matches Ok(v) ==>
                <ScorePartContent as Tagged>::valid(v),
    {
        reveal(ScorePartContent::decode_node);
        ScoreInstrument::decode_valid(n);
        Player::decode_valid(n);
        MidiDevice::decode_valid(n);
        MidiInstrument::decode_valid(n);
        GroupDisplay::decode_valid(n);
    }

    /// Decodes an element.
    pub fn read_node(node: &Node) -> (r: Result<ScorePartContent, DecodeError>)
        ensures
            r matches Ok(v) ==>
                ScorePartContent::decode_node(node.deep_view())
                    == Ok::<ScorePartContentView, DecodeErrorView>(
                v.deep_view(),
            ),
            r matches Err(e) ==>
                ScorePartContent::decode_node(node.deep_view())
                    == Err::<ScorePartContentView, DecodeErrorView>(
                e.deep_view(),
            ),
    {
        proof {
            reveal(ScorePartContent::decode_node);
        }
        match Name::from_str(node.tag_str()) {
            Some(Name::ScoreInstrument) => match ScoreInstrument::from_node(node) {
                Ok(x) => Ok(ScorePartContent::ScoreInstrument(x)),
                Err(e) => Err(e),
            },
            Some(Name::Player) => match Player::from_node(node) {
                Ok(x) => Ok(ScorePartContent::Player(x)),
                Err(e) => Err(e),
            },
            Some(Name::MidiDevice) => match MidiDevice::from_node(node) {
                Ok(x) => Ok(ScorePartContent::MidiDevice(x)),
                Err(e) => Err(e),
            },
            Some(Name::MidiInstrument) => match MidiInstrument::from_node(node) {
                Ok(x) => Ok(ScorePartContent::MidiInstrument(x)),
                Err(e) => Err(e),
            },
            Some(Name::PartName) => match node.content::<String>() {
                Ok(x) => Ok(ScorePartContent::PartName(x)),
                Err(e) => Err(e),
            },
            Some(Name::PartNameDisplay) => match GroupDisplay::from_node(node) {
                Ok(x) => Ok(ScorePartContent::PartNameDisplay(x)),
                Err(e) => Err(e),
            },
            Some(Name::PartAbbreviation) => match node.content::<String>() {
                Ok(x) => Ok(ScorePartContent::PartAbbreviation(x)),
                Err(e) => Err(e),
            },
            _ => Err(DecodeError::at(ErrorKind::StructuralError, node.tag_str())),
        }
    }

    /// Encodes a variant.
    pub fn write_node(&self) -> (r: Node)
        ensures
            r.deep_view() == ScorePartContent::encode_value(self.deep_view()),
    {
        proof {
            reveal(ScorePartContent::encode_value);
        }
        match self {
            ScorePartContent::ScoreInstrument(x) => x.to_node(Name::ScoreInstrument.as_str()),
            ScorePartContent::Player(x) => x.to_node(Name::Player.as_str()),
            ScorePartContent::MidiDevice(x) => x.to_node(Name::MidiDevice.as_str()),
            ScorePartContent::MidiInstrument(x) => x.to_node(Name::MidiInstrument.as_str()),
            ScorePartContent::PartName(x) => {
                let mut node = Node::new(Name::PartName.as_str());
                node.put_content::<String>(x);
                node
            },
            ScorePartContent::PartNameDisplay(x) => x.to_node(Name::PartNameDisplay.as_str()),
            ScorePartContent::PartAbbreviation(x) => {
                let mut node = Node::new(Name::PartAbbreviation.as_str());
                node.put_content::<String>(x);
                node
            },
        }
    }
}

impl Tagged for ScorePartContent {
    open spec fn valid(v: ScorePartContentView) -> bool {
        match v {
            ScorePartContentView::ScoreInstrument(x) => ScoreInstrument::valid(x),
            ScorePartContentView::Player(x) => Player::valid(x),
            ScorePartContentView::MidiDevice(x) => MidiDevice::valid(x),
            ScorePartContentView::MidiInstrument(x) => MidiInstrument::valid(x),
            ScorePartContentView::PartName(_) => true,
            ScorePartContentView::PartNameDisplay(x) => GroupDisplay::valid(x),
            ScorePartContentView::PartAbbreviation(_) => true,
        }
    }

    open spec fn decode(n: NodeView) -> Result<ScorePartContentView, DecodeErrorView> {
        ScorePartContent::decode_node(n)
    }

    open spec fn encode(v: ScorePartContentView) -> NodeView {
        ScorePartContent::encode_value(v)
    }

    open spec fn name(v: ScorePartContentView) -> Name {
        ScorePartContent::name_of(v)
    }

    proof fn encode_name(v: ScorePartContentView) {
        ScorePartContent::encoded_name(v);
    }

    proof fn decode_encode(v: ScorePartContentView) {
        ScorePartContent::round_trip(v);
    }

    proof fn decode_valid(n: NodeView) {
        ScorePartContent::decoded_valid(n);
    }

    fn from_node(node: &Node) -> (r: Result<ScorePartContent, DecodeError>) {
        ScorePartContent::read_node(node)
    }

    fn to_node(&self) -> (r: Node) {
        self.write_node()
    }
}

} // verus!
