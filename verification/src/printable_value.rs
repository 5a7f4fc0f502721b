//! Values with presentation: how a value is printed beside what it is.
use crate::codec::{Element, group_codec};
use crate::decimal::Decimal;
use crate::error::{DecodeError, DecodeErrorView};
use crate::names::Name;
use crate::node::{Node, NodeView};
use crate::primitives::Placement;
use crate::scalar::Scalar;
use crate::text::{owned, same_text};
use crate::yes_no::YesNo;
use vstd::prelude::*;

verus! {

/// The direction of text.
#[derive(Clone, Copy, Debug, PartialEq, Eq, Structural)]
pub enum TextDirection {
    /// Written `ltr`.
    LeftToRightEmbed,
    /// Written `rtl`.
    RightToLeftEmbed,
    /// Written `lro`.
    LeftToRightBidiOverride,
    /// Written `rlo`.
    RightToLeftBidiOverride,
}

impl DeepView for TextDirection {
    type V = TextDirection;

    open spec fn deep_view(&self) -> TextDirection {
        *self
    }
}

impl TextDirection {
    /// The word that a value is written as.
    #[verifier::opaque]
    pub open spec fn word(self) -> Seq<char> {
        match self {
            TextDirection::LeftToRightEmbed => "ltr"@,
            TextDirection::RightToLeftEmbed => "rtl"@,
            TextDirection::LeftToRightBidiOverride => "lro"@,
            TextDirection::RightToLeftBidiOverride => "rlo"@,
        }
    }

    /// The value that a word denotes, if it denotes one.
    #[verifier::opaque]
    pub open spec fn of_word(s: Seq<char>) -> Option<TextDirection> {
        if exists|v: TextDirection| v.word() == s {
            Some(choose|v: TextDirection| v.word() == s)
        } else {
            None
        }
    }

    /// No two values are written alike.
    pub proof fn word_injective(a: TextDirection, b: TextDirection)
        ensures
            a.word() == b.word() ==> a == b,
    {
        reveal(TextDirection::word);
        reveal_strlit("ltr");
        reveal_strlit("rtl");
        reveal_strlit("lro");
        reveal_strlit("rlo");
        if a.word() == b.word() {
            assert(a.word().len() == b.word().len());
            assert(a.word()[0] == b.word()[0]);
            assert(a.word()[1] == b.word()[1]);
            assert(a.word()[2] == b.word()[2]);
        }
    }

    /// Reading the word of a value gives the value back.
    pub proof fn of_word_word(v: TextDirection)
        ensures
            TextDirection::of_word(v.word()) == Some(v),
    {
        reveal(TextDirection::of_word);
        TextDirection::word_injective(v, choose|w: TextDirection| w.word() == v.word());
    }

    /// The word that a value is written as.
    pub fn as_str(self) -> (r: &'static str)
        ensures
            r@ == self.word(),
    {
        proof {
            reveal(TextDirection::word);
        }
        match self {
            TextDirection::LeftToRightEmbed => "ltr",
            TextDirection::RightToLeftEmbed => "rtl",
            TextDirection::LeftToRightBidiOverride => "lro",
            TextDirection::RightToLeftBidiOverride => "rlo",
        }
    }

    /// Reads a value from its word.
    pub fn from_str(s: &str) -> (r: Option<TextDirection>)
        ensures
            r == TextDirection::of_word(s@),
    {
        proof {
            reveal(TextDirection::word);
            reveal(TextDirection::of_word);
        }
        if same_text(s, "ltr") {
            proof {
                TextDirection::of_word_word(TextDirection::LeftToRightEmbed);
            }
            return Some(TextDirection::LeftToRightEmbed);
        }
        if same_text(s, "rtl") {
            proof {
                TextDirection::of_word_word(TextDirection::RightToLeftEmbed);
            }
            return Some(TextDirection::RightToLeftEmbed);
        }
        if same_text(s, "lro") {
            proof {
                TextDirection::of_word_word(TextDirection::LeftToRightBidiOverride);
            }
            return Some(TextDirection::LeftToRightBidiOverride);
        }
        if same_text(s, "rlo") {
            proof {
                TextDirection::of_word_word(TextDirection::RightToLeftBidiOverride);
            }
            return Some(TextDirection::RightToLeftBidiOverride);
        }
        proof {
            assert forall|v: TextDirection| v.word() != s@ by {
            }
        }
        None
    }
}

impl Default for TextDirection {
    fn default() -> (r: TextDirection)
        ensures
            r == TextDirection::LeftToRightEmbed,
    {
        TextDirection::LeftToRightEmbed
    }
}

impl Scalar for TextDirection {
    open spec fn parse(s: Seq<char>) -> Option<TextDirection> {
        TextDirection::of_word(s)
    }

    open spec fn text(v: TextDirection) -> Seq<char> {
        v.word()
    }

    open spec fn initial() -> TextDirection {
        TextDirection::LeftToRightEmbed
    }

    proof fn parse_text(v: TextDirection) {
        TextDirection::of_word_word(v);
    }

    fn from_text(s: &str) -> (r: Option<TextDirection>) {
        TextDirection::from_str(s)
    }

    fn to_text(&self) -> (r: String) {
        owned(self.as_str())
    }

    fn same(&self, other: &TextDirection) -> (r: bool) {
        *self == *other
    }

    fn make_initial() -> (r: TextDirection) {
        TextDirection::LeftToRightEmbed
    }
}

/// The shapes that enclose text.
#[derive(Clone, Copy, Debug, PartialEq, Eq, Structural)]
pub enum EnclosureShape {
    /// Written `none`.
    Nothing,
    /// Written `rectangle`.
    Rectangle,
    /// Written `square`.
    Square,
    /// Written `oval`.
    Oval,
    /// Written `circle`.
    Circle,
    /// Written `bracket`.
    Bracket,
    /// Written `inverted-bracket`.
    InvertedBracket,
    /// Written `triangle`.
    Triangle,
    /// Written `diamond`.
    Diamond,
    /// Written `pentagon`.
    Pentagon,
    /// Written `hexagon`.
    Hexagon,
    /// Written `heptagon`.
    Heptagon,
    /// Written `octagon`.
    Octagon,
    /// Written `nonagon`.
    Nonagon,
    /// Written `decagon`.
    Decagon,
}

impl DeepView for EnclosureShape {
    type V = EnclosureShape;

    open spec fn deep_view(&self) -> EnclosureShape {
        *self
    }
}

impl EnclosureShape {
    /// The word that a value is written as.
    #[verifier::opaque]
    pub open spec fn word(self) -> Seq<char> {
        match self {
            EnclosureShape::Nothing => "none"@,
            EnclosureShape::Rectangle => "rectangle"@,
            EnclosureShape::Square => "square"@,
            EnclosureShape::Oval => "oval"@,
            EnclosureShape::Circle => "circle"@,
            EnclosureShape::Bracket => "bracket"@,
            EnclosureShape::InvertedBracket => "inverted-bracket"@,
            EnclosureShape::Triangle => "triangle"@,
            EnclosureShape::Diamond => "diamond"@,
            EnclosureShape::Pentagon => "pentagon"@,
            EnclosureShape::Hexagon => "hexagon"@,
            EnclosureShape::Heptagon => "heptagon"@,
            EnclosureShape::Octagon => "octagon"@,
            EnclosureShape::Nonagon => "nonagon"@,
            EnclosureShape::Decagon => "decagon"@,
        }
    }

    /// The value that a word denotes, if it denotes one.
    #[verifier::opaque]
    pub open spec fn of_word(s: Seq<char>) -> Option<EnclosureShape> {
        if exists|v: EnclosureShape| v.word() == s {
            Some(choose|v: EnclosureShape| v.word() == s)
        } else {
            None
        }
    }

    /// No two values are written alike.
    pub proof fn word_injective(a: EnclosureShape, b: EnclosureShape)
        ensures
            a.word() == b.word() ==> a == b,
    {
        reveal(EnclosureShape::word);
        reveal_strlit("none");
        reveal_strlit("rectangle");
        reveal_strlit("square");
        reveal_strlit("oval");
        reveal_strlit("circle");
        reveal_strlit("bracket");
        reveal_strlit("inverted-bracket");
        reveal_strlit("triangle");
        reveal_strlit("diamond");
        reveal_strlit("pentagon");
        reveal_strlit("hexagon");
        reveal_strlit("heptagon");
        reveal_strlit("octagon");
        reveal_strlit("nonagon");
        reveal_strlit("decagon");
        if a.word() == b.word() {
            assert(a.word().len() == b.word().len());
            assert(a.word()[0] == b.word()[0]);
            assert(a.word()[1] == b.word()[1]);
            assert(a.word()[2] == b.word()[2]);
            assert(a.word()[3] == b.word()[3]);
            assert(a.word()[4] == b.word()[4]);
            assert(a.word()[5] == b.word()[5]);
            assert(a.word()[6] == b.word()[6]);
            assert(a.word()[7] == b.word()[7]);
            assert(a.word()[8] == b.word()[8]);
            assert(a.word()[9] == b.word()[9]);
            assert(a.word()[10] == b.word()[10]);
            assert(a.word()[11] == b.word()[11]);
            assert(a.word()[12] == b.word()[12]);
            assert(a.word()[13] == b.word()[13]);
            assert(a.word()[14] == b.word()[14]);
            assert(a.word()[15] == b.word()[15]);
        }
    }

    /// Reading the word of a value gives the value back.
    pub proof fn of_word_word(v: EnclosureShape)
        ensures
            EnclosureShape::of_word(v.word()) == Some(v),
    {
        reveal(EnclosureShape::of_word);
        EnclosureShape::word_injective(v, choose|w: EnclosureShape| w.word() == v.word());
    }

    /// The word that a value is written as.
    pub fn as_str(self) -> (r: &'static str)
        ensures
            r@ == self.word(),
    {
        proof {
            reveal(EnclosureShape::word);
        }
        match self {
            EnclosureShape::Nothing => "none",
            EnclosureShape::Rectangle => "rectangle",
            EnclosureShape::Square => "square",
            EnclosureShape::Oval => "oval",
            EnclosureShape::Circle => "circle",
            EnclosureShape::Bracket => "bracket",
            EnclosureShape::InvertedBracket => "inverted-bracket",
            EnclosureShape::Triangle => "triangle",
            EnclosureShape::Diamond => "diamond",
            EnclosureShape::Pentagon => "pentagon",
            EnclosureShape::Hexagon => "hexagon",
            EnclosureShape::Heptagon => "heptagon",
            EnclosureShape::Octagon => "octagon",
            EnclosureShape::Nonagon => "nonagon",
            EnclosureShape::Decagon => "decagon",
        }
    }

    /// Reads a value from its word.
    pub fn from_str(s: &str) -> (r: Option<EnclosureShape>)
        ensures
            r == EnclosureShape::of_word(s@),
    {
        proof {
            reveal(EnclosureShape::word);
            reveal(EnclosureShape::of_word);
        }
        if same_text(s, "none") {
            proof {
                EnclosureShape::of_word_word(EnclosureShape::Nothing);
            }
            return Some(EnclosureShape::Nothing);
        }
        if same_text(s, "rectangle") {
            proof {
                EnclosureShape::of_word_word(EnclosureShape::Rectangle);
            }
            return Some(EnclosureShape::Rectangle);
        }
        if same_text(s, "square") {
            proof {
                EnclosureShape::of_word_word(EnclosureShape::Square);
            }
            return Some(EnclosureShape::Square);
        }
        if same_text(s, "oval") {
            proof {
                EnclosureShape::of_word_word(EnclosureShape::Oval);
            }
            return Some(EnclosureShape::Oval);
        }
        if same_text(s, "circle") {
            proof {
                EnclosureShape::of_word_word(EnclosureShape::Circle);
            }
            return Some(EnclosureShape::Circle);
        }
        if same_text(s, "bracket") {
            proof {
                EnclosureShape::of_word_word(EnclosureShape::Bracket);
            }
            return Some(EnclosureShape::Bracket);
        }
        if same_text(s, "inverted-bracket") {
            proof {
                EnclosureShape::of_word_word(EnclosureShape::InvertedBracket);
            }
            return Some(EnclosureShape::InvertedBracket);
        }
        if same_text(s, "triangle") {
            proof {
                EnclosureShape::of_word_word(EnclosureShape::Triangle);
            }
            return Some(EnclosureShape::Triangle);
        }
        if same_text(s, "diamond") {
            proof {
                EnclosureShape::of_word_word(EnclosureShape::Diamond);
            }
            return Some(EnclosureShape::Diamond);
        }
        if same_text(s, "pentagon") {
            proof {
                EnclosureShape::of_word_word(EnclosureShape::Pentagon);
            }
            return Some(EnclosureShape::Pentagon);
        }
        if same_text(s, "hexagon") {
            proof {
                EnclosureShape::of_word_word(EnclosureShape::Hexagon);
            }
            return Some(EnclosureShape::Hexagon);
        }
        if same_text(s, "heptagon") {
            proof {
                EnclosureShape::of_word_word(EnclosureShape::Heptagon);
            }
            return Some(EnclosureShape::Heptagon);
        }
        if same_text(s, "octagon") {
            proof {
                EnclosureShape::of_word_word(EnclosureShape::Octagon);
            }
            return Some(EnclosureShape::Octagon);
        }
        if same_text(s, "nonagon") {
            proof {
                EnclosureShape::of_word_word(EnclosureShape::Nonagon);
            }
            return Some(EnclosureShape::Nonagon);
        }
        if same_text(s, "decagon") {
            proof {
                EnclosureShape::of_word_word(EnclosureShape::Decagon);
            }
            return Some(EnclosureShape::Decagon);
        }
        proof {
            assert forall|v: EnclosureShape| v.word() != s@ by {
            }
        }
        None
    }
}

impl Default for EnclosureShape {
    fn default() -> (r: EnclosureShape)
        ensures
            r == EnclosureShape::Nothing,
    {
        EnclosureShape::Nothing
    }
}

impl Scalar for EnclosureShape {
    open spec fn parse(s: Seq<char>) -> Option<EnclosureShape> {
        EnclosureShape::of_word(s)
    }

    open spec fn text(v: EnclosureShape) -> Seq<char> {
        v.word()
    }

    open spec fn initial() -> EnclosureShape {
        EnclosureShape::Nothing
    }

    proof fn parse_text(v: EnclosureShape) {
        EnclosureShape::of_word_word(v);
    }

    fn from_text(s: &str) -> (r: Option<EnclosureShape>) {
        EnclosureShape::from_str(s)
    }

    fn to_text(&self) -> (r: String) {
        owned(self.as_str())
    }

    fn same(&self, other: &EnclosureShape) -> (r: bool) {
        *self == *other
    }

    fn make_initial() -> (r: EnclosureShape) {
        EnclosureShape::Nothing
    }
}

/// The weight of a font.
#[derive(Clone, Copy, Debug, PartialEq, Eq, Structural)]
pub enum FontWeight {
    /// Written `normal`.
    Normal,
    /// Written `bold`.
    Bold,
}

impl DeepView for FontWeight {
    type V = FontWeight;

    open spec fn deep_view(&self) -> FontWeight {
        *self
    }
}

impl FontWeight {
    /// The word that a value is written as.
    #[verifier::opaque]
    pub open spec fn word(self) -> Seq<char> {
        match self {
            FontWeight::Normal => "normal"@,
            FontWeight::Bold => "bold"@,
        }
    }

    /// The value that a word denotes, if it denotes one.
    #[verifier::opaque]
    pub open spec fn of_word(s: Seq<char>) -> Option<FontWeight> {
        if exists|v: FontWeight| v.word() == s {
            Some(choose|v: FontWeight| v.word() == s)
        } else {
            None
        }
    }

    /// No two values are written alike.
    pub proof fn word_injective(a: FontWeight, b: FontWeight)
        ensures
            a.word() == b.word() ==> a == b,
    {
        reveal(FontWeight::word);
        reveal_strlit("normal");
        reveal_strlit("bold");
        if a.word() == b.word() {
            assert(a.word().len() == b.word().len());
            assert(a.word()[0] == b.word()[0]);
            assert(a.word()[1] == b.word()[1]);
            assert(a.word()[2] == b.word()[2]);
            assert(a.word()[3] == b.word()[3]);
            assert(a.word()[4] == b.word()[4]);
            assert(a.word()[5] == b.word()[5]);
        }
    }

    /// Reading the word of a value gives the value back.
    pub proof fn of_word_word(v: FontWeight)
        ensures
            FontWeight::of_word(v.word()) == Some(v),
    {
        reveal(FontWeight::of_word);
        FontWeight::word_injective(v, choose|w: FontWeight| w.word() == v.word());
    }

    /// The word that a value is written as.
    pub fn as_str(self) -> (r: &'static str)
        ensures
            r@ == self.word(),
    {
        proof {
            reveal(FontWeight::word);
        }
        match self {
            FontWeight::Normal => "normal",
            FontWeight::Bold => "bold",
        }
    }

    /// Reads a value from its word.
    pub fn from_str(s: &str) -> (r: Option<FontWeight>)
        ensures
            r == FontWeight::of_word(s@),
    {
        proof {
            reveal(FontWeight::word);
            reveal(FontWeight::of_word);
        }
        if same_text(s, "normal") {
            proof {
                FontWeight::of_word_word(FontWeight::Normal);
            }
            return Some(FontWeight::Normal);
        }
        if same_text(s, "bold") {
            proof {
                FontWeight::of_word_word(FontWeight::Bold);
            }
            return Some(FontWeight::Bold);
        }
        proof {
            assert forall|v: FontWeight| v.word() != s@ by {
            }
        }
        None
    }
}

impl Default for FontWeight {
    fn default() -> (r: FontWeight)
        ensures
            r == FontWeight::Normal,
    {
        FontWeight::Normal
    }
}

impl Scalar for FontWeight {
    open spec fn parse(s: Seq<char>) -> Option<FontWeight> {
        FontWeight::of_word(s)
    }

    open spec fn text(v: FontWeight) -> Seq<char> {
        v.word()
    }

    open spec fn initial() -> FontWeight {
        FontWeight::Normal
    }

    proof fn parse_text(v: FontWeight) {
        FontWeight::of_word_word(v);
    }

    fn from_text(s: &str) -> (r: Option<FontWeight>) {
        FontWeight::from_str(s)
    }

    fn to_text(&self) -> (r: String) {
        owned(self.as_str())
    }

    fn same(&self, other: &FontWeight) -> (r: bool) {
        *self == *other
    }

    fn make_initial() -> (r: FontWeight) {
        FontWeight::Normal
    }
}

/// The style of a font.
#[derive(Clone, Copy, Debug, PartialEq, Eq, Structural)]
pub enum FontStyle {
    /// Written `normal`.
    Normal,
    /// Written `italic`.
    Italic,
}

impl DeepView for FontStyle {
    type V = FontStyle;

    open spec fn deep_view(&self) -> FontStyle {
        *self
    }
}

impl FontStyle {
    /// The word that a value is written as.
    #[verifier::opaque]
    pub open spec fn word(self) -> Seq<char> {
        match self {
            FontStyle::Normal => "normal"@,
            FontStyle::Italic => "italic"@,
        }
    }

    /// The value that a word denotes, if it denotes one.
    #[verifier::opaque]
    pub open spec fn of_word(s: Seq<char>) -> Option<FontStyle> {
        if exists|v: FontStyle| v.word() == s {
            Some(choose|v: FontStyle| v.word() == s)
        } else {
            None
        }
    }

    /// No two values are written alike.
    pub proof fn word_injective(a: FontStyle, b: FontStyle)
        ensures
            a.word() == b.word() ==> a == b,
    {
        reveal(FontStyle::word);
        reveal_strlit("normal");
        reveal_strlit("italic");
        if a.word() == b.word() {
            assert(a.word().len() == b.word().len());
            assert(a.word()[0] == b.word()[0]);
            assert(a.word()[1] == b.word()[1]);
            assert(a.word()[2] == b.word()[2]);
            assert(a.word()[3] == b.word()[3]);
            assert(a.word()[4] == b.word()[4]);
            assert(a.word()[5] == b.word()[5]);
        }
    }

    /// Reading the word of a value gives the value back.
    pub proof fn of_word_word(v: FontStyle)
        ensures
            FontStyle::of_word(v.word()) == Some(v),
    {
        reveal(FontStyle::of_word);
        FontStyle::word_injective(v, choose|w: FontStyle| w.word() == v.word());
    }

    /// The word that a value is written as.
    pub fn as_str(self) -> (r: &'static str)
        ensures
            r@ == self.word(),
    {
        proof {
            reveal(FontStyle::word);
        }
        match self {
            FontStyle::Normal => "normal",
            FontStyle::Italic => "italic",
        }
    }

    /// Reads a value from its word.
    pub fn from_str(s: &str) -> (r: Option<FontStyle>)
        ensures
            r == FontStyle::of_word(s@),
    {
        proof {
            reveal(FontStyle::word);
            reveal(FontStyle::of_word);
        }
        if same_text(s, "normal") {
            proof {
                FontStyle::of_word_word(FontStyle::Normal);
            }
            return Some(FontStyle::Normal);
        }
        if same_text(s, "italic") {
            proof {
                FontStyle::of_word_word(FontStyle::Italic);
            }
            return Some(FontStyle::Italic);
        }
        proof {
            assert forall|v: FontStyle| v.word() != s@ by {
            }
        }
        None
    }
}

impl Default for FontStyle {
    fn default() -> (r: FontStyle)
        ensures
            r == FontStyle::Normal,
    {
        FontStyle::Normal
    }
}

impl Scalar for FontStyle {
    open spec fn parse(s: Seq<char>) -> Option<FontStyle> {
        FontStyle::of_word(s)
    }

    open spec fn text(v: FontStyle) -> Seq<char> {
        v.word()
    }

    open spec fn initial() -> FontStyle {
        FontStyle::Normal
    }

    proof fn parse_text(v: FontStyle) {
        FontStyle::of_word_word(v);
    }

    fn from_text(s: &str) -> (r: Option<FontStyle>) {
        FontStyle::from_str(s)
    }

    fn to_text(&self) -> (r: String) {
        owned(self.as_str())
    }

    fn same(&self, other: &FontStyle) -> (r: bool) {
        *self == *other
    }

    fn make_initial() -> (r: FontStyle) {
        FontStyle::Normal
    }
}

/// Horizontal alignment.
#[derive(Clone, Copy, Debug, PartialEq, Eq, Structural)]
pub enum LeftCenterRight {
    /// Written `left`.
    Left,
    /// Written `center`.
    Center,
    /// Written `right`.
    Right,
}

impl DeepView for LeftCenterRight {
    type V = LeftCenterRight;

    open spec fn deep_view(&self) -> LeftCenterRight {
        *self
    }
}

impl LeftCenterRight {
    /// The word that a value is written as.
    #[verifier::opaque]
    pub open spec fn word(self) -> Seq<char> {
        match self {
            LeftCenterRight::Left => "left"@,
            LeftCenterRight::Center => "center"@,
            LeftCenterRight::Right => "right"@,
        }
    }

    /// The value that a word denotes, if it denotes one.
    #[verifier::opaque]
    pub open spec fn of_word(s: Seq<char>) -> Option<LeftCenterRight> {
        if exists|v: LeftCenterRight| v.word() == s {
            Some(choose|v: LeftCenterRight| v.word() == s)
        } else {
            None
        }
    }

    /// No two values are written alike.
    pub proof fn word_injective(a: LeftCenterRight, b: LeftCenterRight)
        ensures
            a.word() == b.word() ==> a == b,
    {
        reveal(LeftCenterRight::word);
        reveal_strlit("left");
        reveal_strlit("center");
        reveal_strlit("right");
        if a.word() == b.word() {
            assert(a.word().len() == b.word().len());
            assert(a.word()[0] == b.word()[0]);
            assert(a.word()[1] == b.word()[1]);
            assert(a.word()[2] == b.word()[2]);
            assert(a.word()[3] == b.word()[3]);
            assert(a.word()[4] == b.word()[4]);
            assert(a.word()[5] == b.word()[5]);
        }
    }

    /// Reading the word of a value gives the value back.
    pub proof fn of_word_word(v: LeftCenterRight)
        ensures
            LeftCenterRight::of_word(v.word()) == Some(v),
    {
        reveal(LeftCenterRight::of_word);
        LeftCenterRight::word_injective(v, choose|w: LeftCenterRight| w.word() == v.word());
    }

    /// The word that a value is written as.
    pub fn as_str(self) -> (r: &'static str)
        ensures
            r@ == self.word(),
    {
        proof {
            reveal(LeftCenterRight::word);
        }
        match self {
            LeftCenterRight::Left => "left",
            LeftCenterRight::Center => "center",
            LeftCenterRight::Right => "right",
        }
    }

    /// Reads a value from its word.
    pub fn from_str(s: &str) -> (r: Option<LeftCenterRight>)
        ensures
            r == LeftCenterRight::of_word(s@),
    {
        proof {
            reveal(LeftCenterRight::word);
            reveal(LeftCenterRight::of_word);
        }
        if same_text(s, "left") {
            proof {
                LeftCenterRight::of_word_word(LeftCenterRight::Left);
            }
            return Some(LeftCenterRight::Left);
        }
        if same_text(s, "center") {
            proof {
                LeftCenterRight::of_word_word(LeftCenterRight::Center);
            }
            return Some(LeftCenterRight::Center);
        }
        if same_text(s, "right") {
            proof {
                LeftCenterRight::of_word_word(LeftCenterRight::Right);
            }
            return Some(LeftCenterRight::Right);
        }
        proof {
            assert forall|v: LeftCenterRight| v.word() != s@ by {
            }
        }
        None
    }
}

impl Default for LeftCenterRight {
    fn default() -> (r: LeftCenterRight)
        ensures
            r == LeftCenterRight::Left,
    {
        LeftCenterRight::Left
    }
}

impl Scalar for LeftCenterRight {
    open spec fn parse(s: Seq<char>) -> Option<LeftCenterRight> {
        LeftCenterRight::of_word(s)
    }

    open spec fn text(v: LeftCenterRight) -> Seq<char> {
        v.word()
    }

    open spec fn initial() -> LeftCenterRight {
        LeftCenterRight::Left
    }

    proof fn parse_text(v: LeftCenterRight) {
        LeftCenterRight::of_word_word(v);
    }

    fn from_text(s: &str) -> (r: Option<LeftCenterRight>) {
        LeftCenterRight::from_str(s)
    }

    fn to_text(&self) -> (r: String) {
        owned(self.as_str())
    }

    fn same(&self, other: &LeftCenterRight) -> (r: bool) {
        *self == *other
    }

    fn make_initial() -> (r: LeftCenterRight) {
        LeftCenterRight::Left
    }
}

/// Vertical alignment.
#[derive(Clone, Copy, Debug, PartialEq, Eq, Structural)]
pub enum Valign {
    /// Written `top`.
    Top,
    /// Written `middle`.
    Middle,
    /// Written `bottom`.
    Bottom,
    /// Written `baseline`.
    Baseline,
}

impl DeepView for Valign {
    type V = Valign;

    open spec fn deep_view(&self) -> Valign {
        *self
    }
}

impl Valign {
    /// The word that a value is written as.
    #[verifier::opaque]
    pub open spec fn word(self) -> Seq<char> {
        match self {
            Valign::Top => "top"@,
            Valign::Middle => "middle"@,
            Valign::Bottom => "bottom"@,
            Valign::Baseline => "baseline"@,
        }
    }

    /// The value that a word denotes, if it denotes one.
    #[verifier::opaque]
    pub open spec fn of_word(s: Seq<char>) -> Option<Valign> {
        if exists|v: Valign| v.word() == s {
            Some(choose|v: Valign| v.word() == s)
        } else {
            None
        }
    }

    /// No two values are written alike.
    pub proof fn word_injective(a: Valign, b: Valign)
        ensures
            a.word() == b.word() ==> a == b,
    {
        reveal(Valign::word);
        reveal_strlit("top");
        reveal_strlit("middle");
        reveal_strlit("bottom");
        reveal_strlit("baseline");
        if a.word() == b.word() {
            assert(a.word().len() == b.word().len());
            assert(a.word()[0] == b.word()[0]);
            assert(a.word()[1] == b.word()[1]);
            assert(a.word()[2] == b.word()[2]);
            assert(a.word()[3] == b.word()[3]);
            assert(a.word()[4] == b.word()[4]);
            assert(a.word()[5] == b.word()[5]);
            assert(a.word()[6] == b.word()[6]);
            assert(a.word()[7] == b.word()[7]);
        }
    }

    /// Reading the word of a value gives the value back.
    pub proof fn of_word_word(v: Valign)
        ensures
            Valign::of_word(v.word()) == Some(v),
    {
        reveal(Valign::of_word);
        Valign::word_injective(v, choose|w: Valign| w.word() == v.word());
    }

    /// The word that a value is written as.
    pub fn as_str(self) -> (r: &'static str)
        ensures
            r@ == self.word(),
    {
        proof {
            reveal(Valign::word);
        }
        match self {
            Valign::Top => "top",
            Valign::Middle => "middle",
            Valign::Bottom => "bottom",
            Valign::Baseline => "baseline",
        }
    }

    /// Reads a value from its word.
    pub fn from_str(s: &str) -> (r: Option<Valign>)
        ensures
            r == Valign::of_word(s@),
    {
        proof {
            reveal(Valign::word);
            reveal(Valign::of_word);
        }
        if same_text(s, "top") {
            proof {
                Valign::of_word_word(Valign::Top);
            }
            return Some(Valign::Top);
        }
        if same_text(s, "middle") {
            proof {
                Valign::of_word_word(Valign::Middle);
            }
            return Some(Valign::Middle);
        }
        if same_text(s, "bottom") {
            proof {
                Valign::of_word_word(Valign::Bottom);
            }
            return Some(Valign::Bottom);
        }
        if same_text(s, "baseline") {
            proof {
                Valign::of_word_word(Valign::Baseline);
            }
            return Some(Valign::Baseline);
        }
        proof {
            assert forall|v: Valign| v.word() != s@ by {
            }
        }
        None
    }
}

impl Default for Valign {
    fn default() -> (r: Valign)
        ensures
            r == Valign::Top,
    {
        Valign::Top
    }
}

impl Scalar for Valign {
    open spec fn parse(s: Seq<char>) -> Option<Valign> {
        Valign::of_word(s)
    }

    open spec fn text(v: Valign) -> Seq<char> {
        v.word()
    }

    open spec fn initial() -> Valign {
        Valign::Top
    }

    proof fn parse_text(v: Valign) {
        Valign::of_word_word(v);
    }

    fn from_text(s: &str) -> (r: Option<Valign>) {
        Valign::from_str(s)
    }

    fn to_text(&self) -> (r: String) {
        owned(self.as_str())
    }

    fn same(&self, other: &Valign) -> (r: bool) {
        *self == *other
    }

    fn make_initial() -> (r: Valign) {
        Valign::Top
    }
}

/// How white space in text is treated.
#[derive(Clone, Copy, Debug, PartialEq, Eq, Structural)]
pub enum XmlSpace {
    /// Written `default`.
    Default,
    /// Written `preserve`.
    Preserve,
}

impl DeepView for XmlSpace {
    type V = XmlSpace;

    open spec fn deep_view(&self) -> XmlSpace {
        *self
    }
}

impl XmlSpace {
    /// The word that a value is written as.
    #[verifier::opaque]
    pub open spec fn word(self) -> Seq<char> {
        match self {
            XmlSpace::Default => "default"@,
            XmlSpace::Preserve => "preserve"@,
        }
    }

    /// The value that a word denotes, if it denotes one.
    #[verifier::opaque]
    pub open spec fn of_word(s: Seq<char>) -> Option<XmlSpace> {
        if exists|v: XmlSpace| v.word() == s {
            Some(choose|v: XmlSpace| v.word() == s)
        } else {
            None
        }
    }

    /// No two values are written alike.
    pub proof fn word_injective(a: XmlSpace, b: XmlSpace)
        ensures
            a.word() == b.word() ==> a == b,
    {
        reveal(XmlSpace::word);
        reveal_strlit("default");
        reveal_strlit("preserve");
        if a.word() == b.word() {
            assert(a.word().len() == b.word().len());
            assert(a.word()[0] == b.word()[0]);
            assert(a.word()[1] == b.word()[1]);
            assert(a.word()[2] == b.word()[2]);
            assert(a.word()[3] == b.word()[3]);
            assert(a.word()[4] == b.word()[4]);
            assert(a.word()[5] == b.word()[5]);
            assert(a.word()[6] == b.word()[6]);
            assert(a.word()[7] == b.word()[7]);
        }
    }

    /// Reading the word of a value gives the value back.
    pub proof fn of_word_word(v: XmlSpace)
        ensures
            XmlSpace::of_word(v.word()) == Some(v),
    {
        reveal(XmlSpace::of_word);
        XmlSpace::word_injective(v, choose|w: XmlSpace| w.word() == v.word());
    }

    /// The word that a value is written as.
    pub fn as_str(self) -> (r: &'static str)
        ensures
            r@ == self.word(),
    {
        proof {
            reveal(XmlSpace::word);
        }
        match self {
            XmlSpace::Default => "default",
            XmlSpace::Preserve => "preserve",
        }
    }

    /// Reads a value from its word.
    pub fn from_str(s: &str) -> (r: Option<XmlSpace>)
        ensures
            r == XmlSpace::of_word(s@),
    {
        proof {
            reveal(XmlSpace::word);
            reveal(XmlSpace::of_word);
        }
        if same_text(s, "default") {
            proof {
                XmlSpace::of_word_word(XmlSpace::Default);
            }
            return Some(XmlSpace::Default);
        }
        if same_text(s, "preserve") {
            proof {
                XmlSpace::of_word_word(XmlSpace::Preserve);
            }
            return Some(XmlSpace::Preserve);
        }
        proof {
            assert forall|v: XmlSpace| v.word() != s@ by {
            }
        }
        None
    }
}

impl Default for XmlSpace {
    fn default() -> (r: XmlSpace)
        ensures
            r == XmlSpace::Default,
    {
        XmlSpace::Default
    }
}

impl Scalar for XmlSpace {
    open spec fn parse(s: Seq<char>) -> Option<XmlSpace> {
        XmlSpace::of_word(s)
    }

    open spec fn text(v: XmlSpace) -> Seq<char> {
        v.word()
    }

    open spec fn initial() -> XmlSpace {
        XmlSpace::Default
    }

    proof fn parse_text(v: XmlSpace) {
        XmlSpace::of_word_word(v);
    }

    fn from_text(s: &str) -> (r: Option<XmlSpace>) {
        XmlSpace::from_str(s)
    }

    fn to_text(&self) -> (r: String) {
        owned(self.as_str())
    }

    fn same(&self, other: &XmlSpace) -> (r: bool) {
        *self == *other
    }

    fn make_initial() -> (r: XmlSpace) {
        XmlSpace::Default
    }
}

/// One of two sides.
#[derive(Clone, Copy, Debug, PartialEq, Eq, Structural)]
pub enum LeftRight {
    /// Written `left`.
    Left,
    /// Written `right`.
    Right,
}

impl DeepView for LeftRight {
    type V = LeftRight;

    open spec fn deep_view(&self) -> LeftRight {
        *self
    }
}

impl LeftRight {
    /// The word that a value is written as.
    #[verifier::opaque]
    pub open spec fn word(self) -> Seq<char> {
        match self {
            LeftRight::Left => "left"@,
            LeftRight::Right => "right"@,
        }
    }

    /// The value that a word denotes, if it denotes one.
    #[verifier::opaque]
    pub open spec fn of_word(s: Seq<char>) -> Option<LeftRight> {
        if exists|v: LeftRight| v.word() == s {
            Some(choose|v: LeftRight| v.word() == s)
        } else {
            None
        }
    }

    /// No two values are written alike.
    pub proof fn word_injective(a: LeftRight, b: LeftRight)
        ensures
            a.word() == b.word() ==> a == b,
    {
        reveal(LeftRight::word);
        reveal_strlit("left");
        reveal_strlit("right");
        if a.word() == b.word() {
            assert(a.word().len() == b.word().len());
            assert(a.word()[0] == b.word()[0]);
            assert(a.word()[1] == b.word()[1]);
            assert(a.word()[2] == b.word()[2]);
            assert(a.word()[3] == b.word()[3]);
            assert(a.word()[4] == b.word()[4]);
        }
    }

    /// Reading the word of a value gives the value back.
    pub proof fn of_word_word(v: LeftRight)
        ensures
            LeftRight::of_word(v.word()) == Some(v),
    {
        reveal(LeftRight::of_word);
        LeftRight::word_injective(v, choose|w: LeftRight| w.word() == v.word());
    }

    /// The word that a value is written as.
    pub fn as_str(self) -> (r: &'static str)
        ensures
            r@ == self.word(),
    {
        proof {
            reveal(LeftRight::word);
        }
        match self {
            LeftRight::Left => "left",
            LeftRight::Right => "right",
        }
    }

    /// Reads a value from its word.
    pub fn from_str(s: &str) -> (r: Option<LeftRight>)
        ensures
            r == LeftRight::of_word(s@),
    {
        proof {
            reveal(LeftRight::word);
            reveal(LeftRight::of_word);
        }
        if same_text(s, "left") {
            proof {
                LeftRight::of_word_word(LeftRight::Left);
            }
            return Some(LeftRight::Left);
        }
        if same_text(s, "right") {
            proof {
                LeftRight::of_word_word(LeftRight::Right);
            }
            return Some(LeftRight::Right);
        }
        proof {
            assert forall|v: LeftRight| v.word() != s@ by {
            }
        }
        None
    }
}

impl Default for LeftRight {
    fn default() -> (r: LeftRight)
        ensures
            r == LeftRight::Left,
    {
        LeftRight::Left
    }
}

impl Scalar for LeftRight {
    open spec fn parse(s: Seq<char>) -> Option<LeftRight> {
        LeftRight::of_word(s)
    }

    open spec fn text(v: LeftRight) -> Seq<char> {
        v.word()
    }

    open spec fn initial() -> LeftRight {
        LeftRight::Left
    }

    proof fn parse_text(v: LeftRight) {
        LeftRight::of_word_word(v);
    }

    fn from_text(s: &str) -> (r: Option<LeftRight>) {
        LeftRight::from_str(s)
    }

    fn to_text(&self) -> (r: String) {
        owned(self.as_str())
    }

    fn same(&self, other: &LeftRight) -> (r: bool) {
        *self == *other
    }

    fn make_initial() -> (r: LeftRight) {
        LeftRight::Left
    }
}

/// A value together with how it is printed or displayed. What is compared
/// first is the value; the rest says how it looks. The value is the text of
/// the element or, where the element has no text, the tag of its only
/// child: a dynamic mark is written either way.
#[derive(Clone, Debug, PartialEq)]
pub struct PrintableValue<T> {
    /// The attribute `color`, if it is written.
    pub color: Option<String>,
    /// The attribute `default-x`, if it is written.
    pub default_x: Option<Decimal>,
    /// The attribute `default-y`, if it is written.
    pub default_y: Option<Decimal>,
    /// The attribute `dir`, if it is written.
    pub text_direction: Option<TextDirection>,
    /// The attribute `enclosure`, if it is written.
    pub enclosure: Option<EnclosureShape>,
    /// The attribute `font-family`, if it is written.
    pub font_family: Option<String>,
    /// The attribute `font-size`, if it is written.
    pub font_size: Option<Decimal>,
    /// The attribute `font-weight`, if it is written.
    pub font_weight: Option<FontWeight>,
    /// The attribute `font-style`, if it is written.
    pub font_style: Option<FontStyle>,
    /// The attribute `halign`, if it is written.
    pub halign: Option<LeftCenterRight>,
    /// The attribute `justify`, if it is written.
    pub justify: Option<LeftCenterRight>,
    /// The attribute `letter-spacing`, if it is written.
    pub letter_spacing: Option<String>,
    /// The attribute `line-height`, if it is written.
    pub line_height: Option<String>,
    /// The attribute `line-through`, if it is written.
    pub line_through: Option<u8>,
    /// The attribute `overline`, if it is written.
    pub overline: Option<u8>,
    /// The attribute `relative-x`, if it is written.
    pub relative_x: Option<String>,
    /// The attribute `relative-y`, if it is written.
    pub relative_y: Option<String>,
    /// The attribute `rotation`, if it is written.
    pub rotation: Option<u8>,
    /// The attribute `underline`, if it is written.
    pub underline: Option<u8>,
    /// The attribute `valign`, if it is written.
    pub valign: Option<Valign>,
    /// The attribute `xml:lang`, if it is written.
    pub xml_lang: Option<String>,
    /// The attribute `xml:space`, if it is written.
    pub xml_space: Option<XmlSpace>,
    /// The attribute `text`, if it is written.
    pub text: Option<String>,
    /// The attribute `location`, if it is written.
    pub location: Option<LeftRight>,
    /// The attribute `print-object`, if it is written.
    pub print_object: Option<YesNo>,
    /// The attribute `bracket-degrees`, if it is written.
    pub bracket_degrees: Option<YesNo>,
    /// The attribute `parentheses-degrees`, if it is written.
    pub parentheses_degrees: Option<YesNo>,
    /// The attribute `stack-degrees`, if it is written.
    pub stack_degrees: Option<YesNo>,
    /// The attribute `use-symbols`, if it is written.
    pub use_symbols: Option<YesNo>,
    /// The attribute `alternate`, if it is written.
    pub alternate: Option<YesNo>,
    /// The attribute `placement`, if it is written.
    pub placement: Option<Placement>,
    /// The attribute `substitution`, if it is written.
    pub substitution: Option<YesNo>,
    /// The value: the text of the element, or the tag of its only child;
    /// the value that its kind takes where none is written where it has
    /// neither.
    pub content: T,
}

/// The mathematical value of a [`PrintableValue`].
pub struct PrintableValueView<V> {
    pub color: Option<Seq<char>>,
    pub default_x: Option<Decimal>,
    pub default_y: Option<Decimal>,
    pub text_direction: Option<TextDirection>,
    pub enclosure: Option<EnclosureShape>,
    pub font_family: Option<Seq<char>>,
    pub font_size: Option<Decimal>,
    pub font_weight: Option<FontWeight>,
    pub font_style: Option<FontStyle>,
    pub halign: Option<LeftCenterRight>,
    pub justify: Option<LeftCenterRight>,
    pub letter_spacing: Option<Seq<char>>,
    pub line_height: Option<Seq<char>>,
    pub line_through: Option<u8>,
    pub overline: Option<u8>,
    pub relative_x: Option<Seq<char>>,
    pub relative_y: Option<Seq<char>>,
    pub rotation: Option<u8>,
    pub underline: Option<u8>,
    pub valign: Option<Valign>,
    pub xml_lang: Option<Seq<char>>,
    pub xml_space: Option<XmlSpace>,
    pub text: Option<Seq<char>>,
    pub location: Option<LeftRight>,
    pub print_object: Option<YesNo>,
    pub bracket_degrees: Option<YesNo>,
    pub parentheses_degrees: Option<YesNo>,
    pub stack_degrees: Option<YesNo>,
    pub use_symbols: Option<YesNo>,
    pub alternate: Option<YesNo>,
    pub placement: Option<Placement>,
    pub substitution: Option<YesNo>,
    pub content: V,
}

impl<T: Scalar> DeepView for PrintableValue<T> {
    type V = PrintableValueView<T::V>;

    open spec fn deep_view(&self) -> PrintableValueView<T::V> {
        PrintableValueView {
            color: self.color.deep_view(),
            default_x: self.default_x.deep_view(),
            default_y: self.default_y.deep_view(),
            text_direction: self.text_direction.deep_view(),
            enclosure: self.enclosure.deep_view(),
            font_family: self.font_family.deep_view(),
            font_size: self.font_size.deep_view(),
            font_weight: self.font_weight.deep_view(),
            font_style: self.font_style.deep_view(),
            halign: self.halign.deep_view(),
            justify: self.justify.deep_view(),
            letter_spacing: self.letter_spacing.deep_view(),
            line_height: self.line_height.deep_view(),
            line_through: self.line_through.deep_view(),
            overline: self.overline.deep_view(),
            relative_x: self.relative_x.deep_view(),
            relative_y: self.relative_y.deep_view(),
            rotation: self.rotation.deep_view(),
            underline: self.underline.deep_view(),
            valign: self.valign.deep_view(),
            xml_lang: self.xml_lang.deep_view(),
            xml_space: self.xml_space.deep_view(),
            text: self.text.deep_view(),
            location: self.location.deep_view(),
            print_object: self.print_object.deep_view(),
            bracket_degrees: self.bracket_degrees.deep_view(),
            parentheses_degrees: self.parentheses_degrees.deep_view(),
            stack_degrees: self.stack_degrees.deep_view(),
            use_symbols: self.use_symbols.deep_view(),
            alternate: self.alternate.deep_view(),
            placement: self.placement.deep_view(),
            substitution: self.substitution.deep_view(),
            content: self.content.deep_view(),
        }
    }
}

impl<T: Scalar> PrintableValue<T> {
    /// The value with every field at its default.
    pub open spec fn initial() -> PrintableValueView<T::V> {
        PrintableValueView {
            color: None,
            default_x: None,
            default_y: None,
            text_direction: None,
            enclosure: None,
            font_family: None,
            font_size: None,
            font_weight: None,
            font_style: None,
            halign: None,
            justify: None,
            letter_spacing: None,
            line_height: None,
            line_through: None,
            overline: None,
            relative_x: None,
            relative_y: None,
            rotation: None,
            underline: None,
            valign: None,
            xml_lang: None,
            xml_space: None,
            text: None,
            location: None,
            print_object: None,
            bracket_degrees: None,
            parentheses_degrees: None,
            stack_degrees: None,
            use_symbols: None,
            alternate: None,
            placement: None,
            substitution: None,
            content: T::initial(),
        }
    }
}

impl<T: Scalar> Default for PrintableValue<T> {
    fn default() -> (r: PrintableValue<T>)
        ensures
            r.deep_view() == PrintableValue::<T>::initial(),
    {
        let r = PrintableValue {
            color: None,
            default_x: None,
            default_y: None,
            text_direction: None,
            enclosure: None,
            font_family: None,
            font_size: None,
            font_weight: None,
            font_style: None,
            halign: None,
            justify: None,
            letter_spacing: None,
            line_height: None,
            line_through: None,
            overline: None,
            relative_x: None,
            relative_y: None,
            rotation: None,
            underline: None,
            valign: None,
            xml_lang: None,
            xml_space: None,
            text: None,
            location: None,
            print_object: None,
            bracket_degrees: None,
            parentheses_degrees: None,
            stack_degrees: None,
            use_symbols: None,
            alternate: None,
            placement: None,
            substitution: None,
            content: T::make_initial(),
        };
        r
    }
}

impl<T: Scalar> PrintableValue<T> {
    /// The value that an element denotes. The fields are read in the order in
    /// which they are declared; the first one that fails gives the error.
    #[verifier::opaque]
    pub open spec fn decode_node(n: NodeView) -> Result<PrintableValueView<T::V>, DecodeErrorView> {
        let color = n.attribute_opt::<String>(Name::Color);
        let default_x = n.attribute_opt::<Decimal>(Name::DefaultX);
        let default_y = n.attribute_opt::<Decimal>(Name::DefaultY);
        let text_direction = n.attribute_opt::<TextDirection>(Name::Dir);
        let enclosure = n.attribute_opt::<EnclosureShape>(Name::Enclosure);
        let font_family = n.attribute_opt::<String>(Name::FontFamily);
        let font_size = n.attribute_opt::<Decimal>(Name::FontSize);
        let font_weight = n.attribute_opt::<FontWeight>(Name::FontWeight);
        let font_style = n.attribute_opt::<FontStyle>(Name::FontStyle);
        let halign = n.attribute_opt::<LeftCenterRight>(Name::Halign);
        let justify = n.attribute_opt::<LeftCenterRight>(Name::Justify);
        let letter_spacing = n.attribute_opt::<String>(Name::LetterSpacing);
        let line_height = n.attribute_opt::<String>(Name::LineHeight);
        let line_through = n.attribute_opt::<u8>(Name::LineThrough);
        let overline = n.attribute_opt::<u8>(Name::Overline);
        let relative_x = n.attribute_opt::<String>(Name::RelativeX);
        let relative_y = n.attribute_opt::<String>(Name::RelativeY);
        let rotation = n.attribute_opt::<u8>(Name::Rotation);
        let underline = n.attribute_opt::<u8>(Name::Underline);
        let valign = n.attribute_opt::<Valign>(Name::Valign);
        let xml_lang = n.attribute_opt::<String>(Name::XmlLang);
        let xml_space = n.attribute_opt::<XmlSpace>(Name::XmlSpace);
        let text = n.attribute_opt::<String>(Name::Text);
        let location = n.attribute_opt::<LeftRight>(Name::Location);
        let print_object = n.attribute_opt::<YesNo>(Name::PrintObject);
        let bracket_degrees = n.attribute_opt::<YesNo>(Name::BracketDegrees);
        let parentheses_degrees = n.attribute_opt::<YesNo>(Name::ParenthesesDegrees);
        let stack_degrees = n.attribute_opt::<YesNo>(Name::StackDegrees);
        let use_symbols = n.attribute_opt::<YesNo>(Name::UseSymbols);
        let alternate = n.attribute_opt::<YesNo>(Name::Alternate);
        let placement = n.attribute_opt::<Placement>(Name::Placement);
        let substitution = n.attribute_opt::<YesNo>(Name::Substitution);
        let content = n.content_marked_or::<T>(T::initial());
        if color is Err {
            Err(color->Err_0)
        } else if default_x is Err {
            Err(default_x->Err_0)
        } else if default_y is Err {
            Err(default_y->Err_0)
        } else if text_direction is Err {
            Err(text_direction->Err_0)
        } else if enclosure is Err {
            Err(enclosure->Err_0)
        } else if font_family is Err {
            Err(font_family->Err_0)
        } else if font_size is Err {
            Err(font_size->Err_0)
        } else if font_weight is Err {
            Err(font_weight->Err_0)
        } else if font_style is Err {
            Err(font_style->Err_0)
        } else if halign is Err {
            Err(halign->Err_0)
        } else if justify is Err {
            Err(justify->Err_0)
        } else if letter_spacing is Err {
            Err(letter_spacing->Err_0)
        } else if line_height is Err {
            Err(line_height->Err_0)
        } else if line_through is Err {
            Err(line_through->Err_0)
        } else if overline is Err {
            Err(overline->Err_0)
        } else if relative_x is Err {
            Err(relative_x->Err_0)
        } else if relative_y is Err {
            Err(relative_y->Err_0)
        } else if rotation is Err {
            Err(rotation->Err_0)
        } else if underline is Err {
            Err(underline->Err_0)
        } else if valign is Err {
            Err(valign->Err_0)
        } else if xml_lang is Err {
            Err(xml_lang->Err_0)
        } else if xml_space is Err {
            Err(xml_space->Err_0)
        } else if text is Err {
            Err(text->Err_0)
        } else if location is Err {
            Err(location->Err_0)
        } else if print_object is Err {
            Err(print_object->Err_0)
        } else if bracket_degrees is Err {
            Err(bracket_degrees->Err_0)
        } else if parentheses_degrees is Err {
            Err(parentheses_degrees->Err_0)
        } else if stack_degrees is Err {
            Err(stack_degrees->Err_0)
        } else if use_symbols is Err {
            Err(use_symbols->Err_0)
        } else if alternate is Err {
            Err(alternate->Err_0)
        } else if placement is Err {
            Err(placement->Err_0)
        } else if substitution is Err {
            Err(substitution->Err_0)
        } else if content is Err {
            Err(content->Err_0)
        } else {
            Ok(
                PrintableValueView {
                    color: color->Ok_0,
                    default_x: default_x->Ok_0,
                    default_y: default_y->Ok_0,
                    text_direction: text_direction->Ok_0,
                    enclosure: enclosure->Ok_0,
                    font_family: font_family->Ok_0,
                    font_size: font_size->Ok_0,
                    font_weight: font_weight->Ok_0,
                    font_style: font_style->Ok_0,
                    halign: halign->Ok_0,
                    justify: justify->Ok_0,
                    letter_spacing: letter_spacing->Ok_0,
                    line_height: line_height->Ok_0,
                    line_through: line_through->Ok_0,
                    overline: overline->Ok_0,
                    relative_x: relative_x->Ok_0,
                    relative_y: relative_y->Ok_0,
                    rotation: rotation->Ok_0,
                    underline: underline->Ok_0,
                    valign: valign->Ok_0,
                    xml_lang: xml_lang->Ok_0,
                    xml_space: xml_space->Ok_0,
                    text: text->Ok_0,
                    location: location->Ok_0,
                    print_object: print_object->Ok_0,
                    bracket_degrees: bracket_degrees->Ok_0,
                    parentheses_degrees: parentheses_degrees->Ok_0,
                    stack_degrees: stack_degrees->Ok_0,
                    use_symbols: use_symbols->Ok_0,
                    alternate: alternate->Ok_0,
                    placement: placement->Ok_0,
                    substitution: substitution->Ok_0,
                    content: content->Ok_0,
                }
            )
        }
    }

    /// The element that a value is written as.
    #[verifier::opaque]
    pub open spec fn encode_value(v: PrintableValueView<T::V>, tag: Seq<char>) -> NodeView {
        NodeView::new(tag)
            .with_scalar_opt::<String>(Name::Color, v.color)
            .with_scalar_opt::<Decimal>(Name::DefaultX, v.default_x)
            .with_scalar_opt::<Decimal>(Name::DefaultY, v.default_y)
            .with_scalar_opt::<TextDirection>(Name::Dir, v.text_direction)
            .with_scalar_opt::<EnclosureShape>(Name::Enclosure, v.enclosure)
            .with_scalar_opt::<String>(Name::FontFamily, v.font_family)
            .with_scalar_opt::<Decimal>(Name::FontSize, v.font_size)
            .with_scalar_opt::<FontWeight>(Name::FontWeight, v.font_weight)
            .with_scalar_opt::<FontStyle>(Name::FontStyle, v.font_style)
            .with_scalar_opt::<LeftCenterRight>(Name::Halign, v.halign)
            .with_scalar_opt::<LeftCenterRight>(Name::Justify, v.justify)
            .with_scalar_opt::<String>(Name::LetterSpacing, v.letter_spacing)
            .with_scalar_opt::<String>(Name::LineHeight, v.line_height)
            .with_scalar_opt::<u8>(Name::LineThrough, v.line_through)
            .with_scalar_opt::<u8>(Name::Overline, v.overline)
            .with_scalar_opt::<String>(Name::RelativeX, v.relative_x)
            .with_scalar_opt::<String>(Name::RelativeY, v.relative_y)
            .with_scalar_opt::<u8>(Name::Rotation, v.rotation)
            .with_scalar_opt::<u8>(Name::Underline, v.underline)
            .with_scalar_opt::<Valign>(Name::Valign, v.valign)
            .with_scalar_opt::<String>(Name::XmlLang, v.xml_lang)
            .with_scalar_opt::<XmlSpace>(Name::XmlSpace, v.xml_space)
            .with_scalar_opt::<String>(Name::Text, v.text)
            .with_scalar_opt::<LeftRight>(Name::Location, v.location)
            .with_scalar_opt::<YesNo>(Name::PrintObject, v.print_object)
            .with_scalar_opt::<YesNo>(Name::BracketDegrees, v.bracket_degrees)
            .with_scalar_opt::<YesNo>(Name::ParenthesesDegrees, v.parentheses_degrees)
            .with_scalar_opt::<YesNo>(Name::StackDegrees, v.stack_degrees)
            .with_scalar_opt::<YesNo>(Name::UseSymbols, v.use_symbols)
            .with_scalar_opt::<YesNo>(Name::Alternate, v.alternate)
            .with_scalar_opt::<Placement>(Name::Placement, v.placement)
            .with_scalar_opt::<YesNo>(Name::Substitution, v.substitution)
            .with_content::<T>(v.content)
    }

    /// An encoded element bears the tag it was given.
    pub proof fn encoded_tag(v: PrintableValueView<T::V>, tag: Seq<char>)
        ensures
            PrintableValue::<T>::encode_value(v, tag).tag == tag,
    {
        broadcast use group_codec;

        reveal(PrintableValue::encode_value);
    }

    /// Decoding what was encoded gives the value back.
    pub proof fn round_trip(v: PrintableValueView<T::V>, tag: Seq<char>)
        requires
            <PrintableValue<T> as Element>::valid(v),
        ensures
            PrintableValue::<T>::decode_node(PrintableValue::<T>::encode_value(v, tag))
                == Ok::<PrintableValueView<T::V>, DecodeErrorView>(v),
    {
        broadcast use group_codec;

        let n = PrintableValue::<T>::encode_value(v, tag);
        assert(
            n.attribute_opt::<String>(Name::Color)
                == Ok::<Option<Seq<char>>, DecodeErrorView>(v.color)
        ) by {
            reveal(PrintableValue::encode_value);
        }
        assert(
            n.attribute_opt::<Decimal>(Name::DefaultX)
                == Ok::<Option<Decimal>, DecodeErrorView>(v.default_x)
        ) by {
            reveal(PrintableValue::encode_value);
        }
        assert(
            n.attribute_opt::<Decimal>(Name::DefaultY)
                == Ok::<Option<Decimal>, DecodeErrorView>(v.default_y)
        ) by {
            reveal(PrintableValue::encode_value);
        }
        assert(
            n.attribute_opt::<TextDirection>(Name::Dir)
                == Ok::<Option<TextDirection>, DecodeErrorView>(v.text_direction)
        ) by {
            reveal(PrintableValue::encode_value);
        }
        assert(
            n.attribute_opt::<EnclosureShape>(Name::Enclosure)
                == Ok::<Option<EnclosureShape>, DecodeErrorView>(v.enclosure)
        ) by {
            reveal(PrintableValue::encode_value);
        }
        assert(
            n.attribute_opt::<String>(Name::FontFamily)
                == Ok::<Option<Seq<char>>, DecodeErrorView>(v.font_family)
        ) by {
            reveal(PrintableValue::encode_value);
        }
        assert(
            n.attribute_opt::<Decimal>(Name::FontSize)
                == Ok::<Option<Decimal>, DecodeErrorView>(v.font_size)
        ) by {
            reveal(PrintableValue::encode_value);
        }
        assert(
            n.attribute_opt::<FontWeight>(Name::FontWeight)
                == Ok::<Option<FontWeight>, DecodeErrorView>(v.font_weight)
        ) by {
            reveal(PrintableValue::encode_value);
        }
        assert(
            n.attribute_opt::<FontStyle>(Name::FontStyle)
                == Ok::<Option<FontStyle>, DecodeErrorView>(v.font_style)
        ) by {
            reveal(PrintableValue::encode_value);
        }
        assert(
            n.attribute_opt::<LeftCenterRight>(Name::Halign)
                == Ok::<Option<LeftCenterRight>, DecodeErrorView>(v.halign)
        ) by {
            reveal(PrintableValue::encode_value);
        }
        assert(
            n.attribute_opt::<LeftCenterRight>(Name::Justify)
                == Ok::<Option<LeftCenterRight>, DecodeErrorView>(v.justify)
        ) by {
            reveal(PrintableValue::encode_value);
        }
        assert(
            n.attribute_opt::<String>(Name::LetterSpacing)
                == Ok::<Option<Seq<char>>, DecodeErrorView>(v.letter_spacing)
        ) by {
            reveal(PrintableValue::encode_value);
        }
        assert(
            n.attribute_opt::<String>(Name::LineHeight)
                == Ok::<Option<Seq<char>>, DecodeErrorView>(v.line_height)
        ) by {
            reveal(PrintableValue::encode_value);
        }
        assert(
            n.attribute_opt::<u8>(Name::LineThrough)
                == Ok::<Option<u8>, DecodeErrorView>(v.line_through)
        ) by {
            reveal(PrintableValue::encode_value);
        }
        assert(
            n.attribute_opt::<u8>(Name::Overline)
                == Ok::<Option<u8>, DecodeErrorView>(v.overline)
        ) by {
            reveal(PrintableValue::encode_value);
        }
        assert(
            n.attribute_opt::<String>(Name::RelativeX)
                == Ok::<Option<Seq<char>>, DecodeErrorView>(v.relative_x)
        ) by {
            reveal(PrintableValue::encode_value);
        }
        assert(
            n.attribute_opt::<String>(Name::RelativeY)
                == Ok::<Option<Seq<char>>, DecodeErrorView>(v.relative_y)
        ) by {
            reveal(PrintableValue::encode_value);
        }
        assert(
            n.attribute_opt::<u8>(Name::Rotation)
                == Ok::<Option<u8>, DecodeErrorView>(v.rotation)
        ) by {
            reveal(PrintableValue::encode_value);
        }
        assert(
            n.attribute_opt::<u8>(Name::Underline)
                == Ok::<Option<u8>, DecodeErrorView>(v.underline)
        ) by {
            reveal(PrintableValue::encode_value);
        }
        assert(
            n.attribute_opt::<Valign>(Name::Valign)
                == Ok::<Option<Valign>, DecodeErrorView>(v.valign)
        ) by {
            reveal(PrintableValue::encode_value);
        }
        assert(
            n.attribute_opt::<String>(Name::XmlLang)
                == Ok::<Option<Seq<char>>, DecodeErrorView>(v.xml_lang)
        ) by {
            reveal(PrintableValue::encode_value);
        }
        assert(
            n.attribute_opt::<XmlSpace>(Name::XmlSpace)
                == Ok::<Option<XmlSpace>, DecodeErrorView>(v.xml_space)
        ) by {
            reveal(PrintableValue::encode_value);
        }
        assert(
            n.attribute_opt::<String>(Name::Text)
                == Ok::<Option<Seq<char>>, DecodeErrorView>(v.text)
        ) by {
            reveal(PrintableValue::encode_value);
        }
        assert(
            n.attribute_opt::<LeftRight>(Name::Location)
                == Ok::<Option<LeftRight>, DecodeErrorView>(v.location)
        ) by {
            reveal(PrintableValue::encode_value);
        }
        assert(
            n.attribute_opt::<YesNo>(Name::PrintObject)
                == Ok::<Option<YesNo>, DecodeErrorView>(v.print_object)
        ) by {
            reveal(PrintableValue::encode_value);
        }
        assert(
            n.attribute_opt::<YesNo>(Name::BracketDegrees)
                == Ok::<Option<YesNo>, DecodeErrorView>(v.bracket_degrees)
        ) by {
            reveal(PrintableValue::encode_value);
        }
        assert(
            n.attribute_opt::<YesNo>(Name::ParenthesesDegrees)
                == Ok::<Option<YesNo>, DecodeErrorView>(v.parentheses_degrees)
        ) by {
            reveal(PrintableValue::encode_value);
        }
        assert(
            n.attribute_opt::<YesNo>(Name::StackDegrees)
                == Ok::<Option<YesNo>, DecodeErrorView>(v.stack_degrees)
        ) by {
            reveal(PrintableValue::encode_value);
        }
        assert(
            n.attribute_opt::<YesNo>(Name::UseSymbols)
                == Ok::<Option<YesNo>, DecodeErrorView>(v.use_symbols)
        ) by {
            reveal(PrintableValue::encode_value);
        }
        assert(
            n.attribute_opt::<YesNo>(Name::Alternate)
                == Ok::<Option<YesNo>, DecodeErrorView>(v.alternate)
        ) by {
            reveal(PrintableValue::encode_value);
        }
        assert(
            n.attribute_opt::<Placement>(Name::Placement)
                == Ok::<Option<Placement>, DecodeErrorView>(v.placement)
        ) by {
            reveal(PrintableValue::encode_value);
        }
        assert(
            n.attribute_opt::<YesNo>(Name::Substitution)
                == Ok::<Option<YesNo>, DecodeErrorView>(v.substitution)
        ) by {
            reveal(PrintableValue::encode_value);
        }
        assert(
            n.content_marked_or::<T>(T::initial())
                == Ok::<T::V, DecodeErrorView>(v.content)
        ) by {
            reveal(PrintableValue::encode_value);
            reveal(NodeView::content_marked_or);
            reveal(NodeView::content);
            T::parse_text(v.content);
        }
        reveal(PrintableValue::decode_node);
    }

    /// Decoding gives valid values only.
    pub proof fn decoded_valid(n: NodeView)
        ensures
            PrintableValue::<T>::decode_node(n) matches Ok(v) ==>
                <PrintableValue<T> as Element>::valid(v),
    {
        reveal(PrintableValue::decode_node);
    }

    /// Decodes an element.
    pub fn read_node(node: &Node) -> (r: Result<PrintableValue<T>, DecodeError>)
        ensures
            r matches Ok(v) ==>
                PrintableValue::<T>::decode_node(node.deep_view())
                    == Ok::<PrintableValueView<T::V>, DecodeErrorView>(
                v.deep_view(),
            ),
            r matches Err(e) ==>
                PrintableValue::<T>::decode_node(node.deep_view())
                    == Err::<PrintableValueView<T::V>, DecodeErrorView>(
                e.deep_view(),
            ),
    {
        proof {
            reveal(PrintableValue::decode_node);
        }
        let color = node.attribute_opt::<String>(Name::Color)?;
        let default_x = node.attribute_opt::<Decimal>(Name::DefaultX)?;
        let default_y = node.attribute_opt::<Decimal>(Name::DefaultY)?;
        let text_direction = node.attribute_opt::<TextDirection>(Name::Dir)?;
        let enclosure = node.attribute_opt::<EnclosureShape>(Name::Enclosure)?;
        let font_family = node.attribute_opt::<String>(Name::FontFamily)?;
        let font_size = node.attribute_opt::<Decimal>(Name::FontSize)?;
        let font_weight = node.attribute_opt::<FontWeight>(Name::FontWeight)?;
        let font_style = node.attribute_opt::<FontStyle>(Name::FontStyle)?;
        let halign = node.attribute_opt::<LeftCenterRight>(Name::Halign)?;
        let justify = node.attribute_opt::<LeftCenterRight>(Name::Justify)?;
        let letter_spacing = node.attribute_opt::<String>(Name::LetterSpacing)?;
        let line_height = node.attribute_opt::<String>(Name::LineHeight)?;
        let line_through = node.attribute_opt::<u8>(Name::LineThrough)?;
        let overline = node.attribute_opt::<u8>(Name::Overline)?;
        let relative_x = node.attribute_opt::<String>(Name::RelativeX)?;
        let relative_y = node.attribute_opt::<String>(Name::RelativeY)?;
        let rotation = node.attribute_opt::<u8>(Name::Rotation)?;
        let underline = node.attribute_opt::<u8>(Name::Underline)?;
        let valign = node.attribute_opt::<Valign>(Name::Valign)?;
        let xml_lang = node.attribute_opt::<String>(Name::XmlLang)?;
        let xml_space = node.attribute_opt::<XmlSpace>(Name::XmlSpace)?;
        let text = node.attribute_opt::<String>(Name::Text)?;
        let location = node.attribute_opt::<LeftRight>(Name::Location)?;
        let print_object = node.attribute_opt::<YesNo>(Name::PrintObject)?;
        let bracket_degrees = node.attribute_opt::<YesNo>(Name::BracketDegrees)?;
        let parentheses_degrees = node.attribute_opt::<YesNo>(Name::ParenthesesDegrees)?;
        let stack_degrees = node.attribute_opt::<YesNo>(Name::StackDegrees)?;
        let use_symbols = node.attribute_opt::<YesNo>(Name::UseSymbols)?;
        let alternate = node.attribute_opt::<YesNo>(Name::Alternate)?;
        let placement = node.attribute_opt::<Placement>(Name::Placement)?;
        let substitution = node.attribute_opt::<YesNo>(Name::Substitution)?;
        let content = node.content_marked_or::<T>(T::make_initial())?;
        Ok(PrintableValue {
            color,
            default_x,
            default_y,
            text_direction,
            enclosure,
            font_family,
            font_size,
            font_weight,
            font_style,
            halign,
            justify,
            letter_spacing,
            line_height,
            line_through,
            overline,
            relative_x,
            relative_y,
            rotation,
            underline,
            valign,
            xml_lang,
            xml_space,
            text,
            location,
            print_object,
            bracket_degrees,
            parentheses_degrees,
            stack_degrees,
            use_symbols,
            alternate,
            placement,
            substitution,
            content,
        })
    }

    /// Encodes a value as an element with the given tag.
    pub fn write_node(&self, tag: &str) -> (r: Node)
        ensures
            r.deep_view() == PrintableValue::<T>::encode_value(self.deep_view(), tag@),
    {
        proof {
            reveal(PrintableValue::encode_value);
        }
        let mut node = Node::new(tag);
        node.put_scalar_opt::<String>(Name::Color, &self.color);
        node.put_scalar_opt::<Decimal>(Name::DefaultX, &self.default_x);
        node.put_scalar_opt::<Decimal>(Name::DefaultY, &self.default_y);
        node.put_scalar_opt::<TextDirection>(Name::Dir, &self.text_direction);
        node.put_scalar_opt::<EnclosureShape>(Name::Enclosure, &self.enclosure);
        node.put_scalar_opt::<String>(Name::FontFamily, &self.font_family);
        node.put_scalar_opt::<Decimal>(Name::FontSize, &self.font_size);
        node.put_scalar_opt::<FontWeight>(Name::FontWeight, &self.font_weight);
        node.put_scalar_opt::<FontStyle>(Name::FontStyle, &self.font_style);
        node.put_scalar_opt::<LeftCenterRight>(Name::Halign, &self.halign);
        node.put_scalar_opt::<LeftCenterRight>(Name::Justify, &self.justify);
        node.put_scalar_opt::<String>(Name::LetterSpacing, &self.letter_spacing);
        node.put_scalar_opt::<String>(Name::LineHeight, &self.line_height);
        node.put_scalar_opt::<u8>(Name::LineThrough, &self.line_through);
        node.put_scalar_opt::<u8>(Name::Overline, &self.overline);
        node.put_scalar_opt::<String>(Name::RelativeX, &self.relative_x);
        node.put_scalar_opt::<String>(Name::RelativeY, &self.relative_y);
        node.put_scalar_opt::<u8>(Name::Rotation, &self.rotation);
        node.put_scalar_opt::<u8>(Name::Underline, &self.underline);
        node.put_scalar_opt::<Valign>(Name::Valign, &self.valign);
        node.put_scalar_opt::<String>(Name::XmlLang, &self.xml_lang);
        node.put_scalar_opt::<XmlSpace>(Name::XmlSpace, &self.xml_space);
        node.put_scalar_opt::<String>(Name::Text, &self.text);
        node.put_scalar_opt::<LeftRight>(Name::Location, &self.location);
        node.put_scalar_opt::<YesNo>(Name::PrintObject, &self.print_object);
        node.put_scalar_opt::<YesNo>(Name::BracketDegrees, &self.bracket_degrees);
        node.put_scalar_opt::<YesNo>(Name::ParenthesesDegrees, &self.parentheses_degrees);
        node.put_scalar_opt::<YesNo>(Name::StackDegrees, &self.stack_degrees);
        node.put_scalar_opt::<YesNo>(Name::UseSymbols, &self.use_symbols);
        node.put_scalar_opt::<YesNo>(Name::Alternate, &self.alternate);
        node.put_scalar_opt::<Placement>(Name::Placement, &self.placement);
        node.put_scalar_opt::<YesNo>(Name::Substitution, &self.substitution);
        node.put_content::<T>(&self.content);
        node
    }
}

impl<T: Scalar> Element for PrintableValue<T> {
    open spec fn valid(v: PrintableValueView<T::V>) -> bool {
        true
    }

    open spec fn decode(n: NodeView) -> Result<PrintableValueView<T::V>, DecodeErrorView> {
        PrintableValue::<T>::decode_node(n)
    }

    open spec fn encode(v: PrintableValueView<T::V>, tag: Seq<char>) -> NodeView {
        PrintableValue::<T>::encode_value(v, tag)
    }

    proof fn encode_tag(v: PrintableValueView<T::V>, tag: Seq<char>) {
        PrintableValue::<T>::encoded_tag(v, tag);
    }

    proof fn decode_encode(v: PrintableValueView<T::V>, tag: Seq<char>) {
        PrintableValue::<T>::round_trip(v, tag);
    }

    proof fn decode_valid(n: NodeView) {
        PrintableValue::<T>::decoded_valid(n);
    }

    fn from_node(node: &Node) -> (r: Result<PrintableValue<T>, DecodeError>) {
        PrintableValue::<T>::read_node(node)
    }

    fn to_node(&self, tag: &str) -> (r: Node) {
        self.write_node(tag)
    }
}

impl<T: Scalar> PrintableValue<T> {
    /// A value printed by default.
    pub fn of(content: T) -> (r: PrintableValue<T>)
        ensures
            r.deep_view() == (PrintableValueView::<T::V> {
                content: content.deep_view(),
                ..PrintableValue::<T>::initial()
            }),
    {
        let mut r = PrintableValue::<T>::default();
        r.content = content;
        r
    }

    /// Whether two values are the same value, however they are printed: the
    /// value is what counts, the rest says how it looks.
    pub fn same_value(&self, other: &PrintableValue<T>) -> (r: bool)
        ensures
            r == (self.deep_view().content == other.deep_view().content),
    {
        self.content.same(&other.content)
    }
}

} // verus!
