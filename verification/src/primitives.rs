//! Small closed sets of values that many elements share.
use crate::forward::Forward;
use crate::scalar::Scalar;
use crate::text::{owned, same_text};
use vstd::prelude::*;

verus! {

/// The graphic note types, from the shortest up.
#[derive(Clone, Copy, Debug, PartialEq, Eq, Structural)]
pub enum DurationType {
    /// Written `64th`.
    Sixtyfourth,
    /// Written `32nd`.
    Thirtysecond,
    /// Written `16th`.
    Sixteenth,
    /// Written `eighth`.
    Eighth,
    /// Written `quarter`.
    Quarter,
    /// Written `half`.
    Half,
    /// Written `whole`.
    Whole,
    /// Written `breve`.
    Breve,
}

impl DeepView for DurationType {
    type V = DurationType;

    open spec fn deep_view(&self) -> DurationType {
        *self
    }
}

impl DurationType {
    /// The word that a value is written as.
    #[verifier::opaque]
    pub open spec fn word(self) -> Seq<char> {
        match self {
            DurationType::Sixtyfourth => "64th"@,
            DurationType::Thirtysecond => "32nd"@,
            DurationType::Sixteenth => "16th"@,
            DurationType::Eighth => "eighth"@,
            DurationType::Quarter => "quarter"@,
            DurationType::Half => "half"@,
            DurationType::Whole => "whole"@,
            DurationType::Breve => "breve"@,
        }
    }

    /// The value that a word denotes, if it denotes one.
    #[verifier::opaque]
    pub open spec fn of_word(s: Seq<char>) -> Option<DurationType> {
        if exists|v: DurationType| v.word() == s {
            Some(choose|v: DurationType| v.word() == s)
        } else {
            None
        }
    }

    /// No two values are written alike.
    pub proof fn word_injective(a: DurationType, b: DurationType)
        ensures
            a.word() == b.word() ==> a == b,
    {
        reveal(DurationType::word);
        reveal_strlit("64th");
        reveal_strlit("32nd");
        reveal_strlit("16th");
        reveal_strlit("eighth");
        reveal_strlit("quarter");
        reveal_strlit("half");
        reveal_strlit("whole");
        reveal_strlit("breve");
        if a.word() == b.word() {
            assert(a.word().len() == b.word().len());
            assert(a.word()[0] == b.word()[0]);
            assert(a.word()[1] == b.word()[1]);
            assert(a.word()[2] == b.word()[2]);
            assert(a.word()[3] == b.word()[3]);
            assert(a.word()[4] == b.word()[4]);
            assert(a.word()[5] == b.word()[5]);
            assert(a.word()[6] == b.word()[6]);
        }
    }

    /// Reading the word of a value gives the value back.
    pub proof fn of_word_word(v: DurationType)
        ensures
            DurationType::of_word(v.word()) == Some(v),
    {
        reveal(DurationType::of_word);
        DurationType::word_injective(v, choose|w: DurationType| w.word() == v.word());
    }

    /// The word that a value is written as.
    pub fn as_str(self) -> (r: &'static str)
        ensures
            r@ == self.word(),
    {
        proof {
            reveal(DurationType::word);
        }
        match self {
            DurationType::Sixtyfourth => "64th",
            DurationType::Thirtysecond => "32nd",
            DurationType::Sixteenth => "16th",
            DurationType::Eighth => "eighth",
            DurationType::Quarter => "quarter",
            DurationType::Half => "half",
            DurationType::Whole => "whole",
            DurationType::Breve => "breve",
        }
    }

    /// Reads a value from its word.
    pub fn from_str(s: &str) -> (r: Option<DurationType>)
        ensures
            r == DurationType::of_word(s@),
    {
        proof {
            reveal(DurationType::word);
            reveal(DurationType::of_word);
        }
        if same_text(s, "64th") {
            proof {
                DurationType::of_word_word(DurationType::Sixtyfourth);
            }
            return Some(DurationType::Sixtyfourth);
        }
        if same_text(s, "32nd") {
            proof {
                DurationType::of_word_word(DurationType::Thirtysecond);
            }
            return Some(DurationType::Thirtysecond);
        }
        if same_text(s, "16th") {
            proof {
                DurationType::of_word_word(DurationType::Sixteenth);
            }
            return Some(DurationType::Sixteenth);
        }
        if same_text(s, "eighth") {
            proof {
                DurationType::of_word_word(DurationType::Eighth);
            }
            return Some(DurationType::Eighth);
        }
        if same_text(s, "quarter") {
            proof {
                DurationType::of_word_word(DurationType::Quarter);
            }
            return Some(DurationType::Quarter);
        }
        if same_text(s, "half") {
            proof {
                DurationType::of_word_word(DurationType::Half);
            }
            return Some(DurationType::Half);
        }
        if same_text(s, "whole") {
            proof {
                DurationType::of_word_word(DurationType::Whole);
            }
            return Some(DurationType::Whole);
        }
        if same_text(s, "breve") {
            proof {
                DurationType::of_word_word(DurationType::Breve);
            }
            return Some(DurationType::Breve);
        }
        proof {
            assert forall|v: DurationType| v.word() != s@ by {
            }
        }
        None
    }
}

impl Default for DurationType {
    fn default() -> (r: DurationType)
        ensures
            r == DurationType::Sixtyfourth,
    {
        DurationType::Sixtyfourth
    }
}

impl Scalar for DurationType {
    open spec fn parse(s: Seq<char>) -> Option<DurationType> {
        DurationType::of_word(s)
    }

    open spec fn text(v: DurationType) -> Seq<char> {
        v.word()
    }

    open spec fn initial() -> DurationType {
        DurationType::Sixtyfourth
    }

    proof fn parse_text(v: DurationType) {
        DurationType::of_word_word(v);
    }

    fn from_text(s: &str) -> (r: Option<DurationType>) {
        DurationType::from_str(s)
    }

    fn to_text(&self) -> (r: String) {
        owned(self.as_str())
    }

    fn same(&self, other: &DurationType) -> (r: bool) {
        *self == *other
    }

    fn make_initial() -> (r: DurationType) {
        DurationType::Sixtyfourth
    }
}

/// The direction of a stem.
#[derive(Clone, Copy, Debug, PartialEq, Eq, Structural)]
pub enum DirectionUD {
    /// Written `up`.
    Up,
    /// Written `down`.
    Down,
    /// Written `double`.
    Double,
    /// Written `none`.
    Nothing,
}

impl DeepView for DirectionUD {
    type V = DirectionUD;

    open spec fn deep_view(&self) -> DirectionUD {
        *self
    }
}

impl DirectionUD {
    /// The word that a value is written as.
    #[verifier::opaque]
    pub open spec fn word(self) -> Seq<char> {
        match self {
            DirectionUD::Up => "up"@,
            DirectionUD::Down => "down"@,
            DirectionUD::Double => "double"@,
            DirectionUD::Nothing => "none"@,
        }
    }

    /// The value that a word denotes, if it denotes one.
    #[verifier::opaque]
    pub open spec fn of_word(s: Seq<char>) -> Option<DirectionUD> {
        if exists|v: DirectionUD| v.word() == s {
            Some(choose|v: DirectionUD| v.word() == s)
        } else {
            None
        }
    }

    /// No two values are written alike.
    pub proof fn word_injective(a: DirectionUD, b: DirectionUD)
        ensures
            a.word() == b.word() ==> a == b,
    {
        reveal(DirectionUD::word);
        reveal_strlit("up");
        reveal_strlit("down");
        reveal_strlit("double");
        reveal_strlit("none");
        if a.word() == b.word() {
            assert(a.word().len() == b.word().len());
            assert(a.word()[0] == b.word()[0]);
            assert(a.word()[1] == b.word()[1]);
            assert(a.word()[2] == b.word()[2]);
            assert(a.word()[3] == b.word()[3]);
            assert(a.word()[4] == b.word()[4]);
            assert(a.word()[5] == b.word()[5]);
        }
    }

    /// Reading the word of a value gives the value back.
    pub proof fn of_word_word(v: DirectionUD)
        ensures
            DirectionUD::of_word(v.word()) == Some(v),
    {
        reveal(DirectionUD::of_word);
        DirectionUD::word_injective(v, choose|w: DirectionUD| w.word() == v.word());
    }

    /// The word that a value is written as.
    pub fn as_str(self) -> (r: &'static str)
        ensures
            r@ == self.word(),
    {
        proof {
            reveal(DirectionUD::word);
        }
        match self {
            DirectionUD::Up => "up",
            DirectionUD::Down => "down",
            DirectionUD::Double => "double",
            DirectionUD::Nothing => "none",
        }
    }

    /// Reads a value from its word.
    pub fn from_str(s: &str) -> (r: Option<DirectionUD>)
        ensures
            r == DirectionUD::of_word(s@),
    {
        proof {
            reveal(DirectionUD::word);
            reveal(DirectionUD::of_word);
        }
        if same_text(s, "up") {
            proof {
                DirectionUD::of_word_word(DirectionUD::Up);
            }
            return Some(DirectionUD::Up);
        }
        if same_text(s, "down") {
            proof {
                DirectionUD::of_word_word(DirectionUD::Down);
            }
            return Some(DirectionUD::Down);
        }
        if same_text(s, "double") {
            proof {
                DirectionUD::of_word_word(DirectionUD::Double);
            }
            return Some(DirectionUD::Double);
        }
        if same_text(s, "none") {
            proof {
                DirectionUD::of_word_word(DirectionUD::Nothing);
            }
            return Some(DirectionUD::Nothing);
        }
        proof {
            assert forall|v: DirectionUD| v.word() != s@ by {
            }
        }
        None
    }
}

impl Default for DirectionUD {
    fn default() -> (r: DirectionUD)
        ensures
            r == DirectionUD::Nothing,
    {
        DirectionUD::Nothing
    }
}

impl Scalar for DirectionUD {
    open spec fn parse(s: Seq<char>) -> Option<DirectionUD> {
        DirectionUD::of_word(s)
    }

    open spec fn text(v: DirectionUD) -> Seq<char> {
        v.word()
    }

    open spec fn initial() -> DirectionUD {
        DirectionUD::Nothing
    }

    proof fn parse_text(v: DirectionUD) {
        DirectionUD::of_word_word(v);
    }

    fn from_text(s: &str) -> (r: Option<DirectionUD>) {
        DirectionUD::from_str(s)
    }

    fn to_text(&self) -> (r: String) {
        owned(self.as_str())
    }

    fn same(&self, other: &DirectionUD) -> (r: bool) {
        *self == *other
    }

    fn make_initial() -> (r: DirectionUD) {
        DirectionUD::Nothing
    }
}

/// The place of a syllable in its word.
#[derive(Clone, Copy, Debug, PartialEq, Eq, Structural)]
pub enum SyllabicType {
    /// Written `begin`.
    Begin,
    /// Written `end`.
    End,
    /// Written `single`.
    Single,
}

impl DeepView for SyllabicType {
    type V = SyllabicType;

    open spec fn deep_view(&self) -> SyllabicType {
        *self
    }
}

impl SyllabicType {
    /// The word that a value is written as.
    #[verifier::opaque]
    pub open spec fn word(self) -> Seq<char> {
        match self {
            SyllabicType::Begin => "begin"@,
            SyllabicType::End => "end"@,
            SyllabicType::Single => "single"@,
        }
    }

    /// The value that a word denotes, if it denotes one.
    #[verifier::opaque]
    pub open spec fn of_word(s: Seq<char>) -> Option<SyllabicType> {
        if exists|v: SyllabicType| v.word() == s {
            Some(choose|v: SyllabicType| v.word() == s)
        } else {
            None
        }
    }

    /// No two values are written alike.
    pub proof fn word_injective(a: SyllabicType, b: SyllabicType)
        ensures
            a.word() == b.word() ==> a == b,
    {
        reveal(SyllabicType::word);
        reveal_strlit("begin");
        reveal_strlit("end");
        reveal_strlit("single");
        if a.word() == b.word() {
            assert(a.word().len() == b.word().len());
            assert(a.word()[0] == b.word()[0]);
            assert(a.word()[1] == b.word()[1]);
            assert(a.word()[2] == b.word()[2]);
            assert(a.word()[3] == b.word()[3]);
            assert(a.word()[4] == b.word()[4]);
            assert(a.word()[5] == b.word()[5]);
        }
    }

    /// Reading the word of a value gives the value back.
    pub proof fn of_word_word(v: SyllabicType)
        ensures
            SyllabicType::of_word(v.word()) == Some(v),
    {
        reveal(SyllabicType::of_word);
        SyllabicType::word_injective(v, choose|w: SyllabicType| w.word() == v.word());
    }

    /// The word that a value is written as.
    pub fn as_str(self) -> (r: &'static str)
        ensures
            r@ == self.word(),
    {
        proof {
            reveal(SyllabicType::word);
        }
        match self {
            SyllabicType::Begin => "begin",
            SyllabicType::End => "end",
            SyllabicType::Single => "single",
        }
    }

    /// Reads a value from its word.
    pub fn from_str(s: &str) -> (r: Option<SyllabicType>)
        ensures
            r == SyllabicType::of_word(s@),
    {
        proof {
            reveal(SyllabicType::word);
            reveal(SyllabicType::of_word);
        }
        if same_text(s, "begin") {
            proof {
                SyllabicType::of_word_word(SyllabicType::Begin);
            }
            return Some(SyllabicType::Begin);
        }
        if same_text(s, "end") {
            proof {
                SyllabicType::of_word_word(SyllabicType::End);
            }
            return Some(SyllabicType::End);
        }
        if same_text(s, "single") {
            proof {
                SyllabicType::of_word_word(SyllabicType::Single);
            }
            return Some(SyllabicType::Single);
        }
        proof {
            assert forall|v: SyllabicType| v.word() != s@ by {
            }
        }
        None
    }
}

impl Default for SyllabicType {
    fn default() -> (r: SyllabicType)
        ensures
            r == SyllabicType::Begin,
    {
        SyllabicType::Begin
    }
}

impl Scalar for SyllabicType {
    open spec fn parse(s: Seq<char>) -> Option<SyllabicType> {
        SyllabicType::of_word(s)
    }

    open spec fn text(v: SyllabicType) -> Seq<char> {
        v.word()
    }

    open spec fn initial() -> SyllabicType {
        SyllabicType::Begin
    }

    proof fn parse_text(v: SyllabicType) {
        SyllabicType::of_word_word(v);
    }

    fn from_text(s: &str) -> (r: Option<SyllabicType>) {
        SyllabicType::from_str(s)
    }

    fn to_text(&self) -> (r: String) {
        owned(self.as_str())
    }

    fn same(&self, other: &SyllabicType) -> (r: bool) {
        *self == *other
    }

    fn make_initial() -> (r: SyllabicType) {
        SyllabicType::Begin
    }
}

/// Whether something stands above or below its staff.
#[derive(Clone, Copy, Debug, PartialEq, Eq, Structural)]
pub enum Placement {
    /// Written `above`.
    Above,
    /// Written `below`.
    Below,
}

impl DeepView for Placement {
    type V = Placement;

    open spec fn deep_view(&self) -> Placement {
        *self
    }
}

impl Placement {
    /// The word that a value is written as.
    #[verifier::opaque]
    pub open spec fn word(self) -> Seq<char> {
        match self {
            Placement::Above => "above"@,
            Placement::Below => "below"@,
        }
    }

    /// The value that a word denotes, if it denotes one.
    #[verifier::opaque]
    pub open spec fn of_word(s: Seq<char>) -> Option<Placement> {
        if exists|v: Placement| v.word() == s {
            Some(choose|v: Placement| v.word() == s)
        } else {
            None
        }
    }

    /// No two values are written alike.
    pub proof fn word_injective(a: Placement, b: Placement)
        ensures
            a.word() == b.word() ==> a == b,
    {
        reveal(Placement::word);
        reveal_strlit("above");
        reveal_strlit("below");
        if a.word() == b.word() {
            assert(a.word().len() == b.word().len());
            assert(a.word()[0] == b.word()[0]);
            assert(a.word()[1] == b.word()[1]);
            assert(a.word()[2] == b.word()[2]);
            assert(a.word()[3] == b.word()[3]);
            assert(a.word()[4] == b.word()[4]);
        }
    }

    /// Reading the word of a value gives the value back.
    pub proof fn of_word_word(v: Placement)
        ensures
            Placement::of_word(v.word()) == Some(v),
    {
        reveal(Placement::of_word);
        Placement::word_injective(v, choose|w: Placement| w.word() == v.word());
    }

    /// The word that a value is written as.
    pub fn as_str(self) -> (r: &'static str)
        ensures
            r@ == self.word(),
    {
        proof {
            reveal(Placement::word);
        }
        match self {
            Placement::Above => "above",
            Placement::Below => "below",
        }
    }

    /// Reads a value from its word.
    pub fn from_str(s: &str) -> (r: Option<Placement>)
        ensures
            r == Placement::of_word(s@),
    {
        proof {
            reveal(Placement::word);
            reveal(Placement::of_word);
        }
        if same_text(s, "above") {
            proof {
                Placement::of_word_word(Placement::Above);
            }
            return Some(Placement::Above);
        }
        if same_text(s, "below") {
            proof {
                Placement::of_word_word(Placement::Below);
            }
            return Some(Placement::Below);
        }
        proof {
            assert forall|v: Placement| v.word() != s@ by {
            }
        }
        None
    }
}

impl Default for Placement {
    fn default() -> (r: Placement)
        ensures
            r == Placement::Above,
    {
        Placement::Above
    }
}

impl Scalar for Placement {
    open spec fn parse(s: Seq<char>) -> Option<Placement> {
        Placement::of_word(s)
    }

    open spec fn text(v: Placement) -> Seq<char> {
        v.word()
    }

    open spec fn initial() -> Placement {
        Placement::Above
    }

    proof fn parse_text(v: Placement) {
        Placement::of_word_word(v);
    }

    fn from_text(s: &str) -> (r: Option<Placement>) {
        Placement::from_str(s)
    }

    fn to_text(&self) -> (r: String) {
        owned(self.as_str())
    }

    fn same(&self, other: &Placement) -> (r: bool) {
        *self == *other
    }

    fn make_initial() -> (r: Placement) {
        Placement::Above
    }
}

/// The direction of a repeat sign.
#[derive(Clone, Copy, Debug, PartialEq, Eq, Structural)]
pub enum RepeatDirection {
    /// Written `forward`.
    Forward,
    /// Written `backward`.
    Backward,
}

impl DeepView for RepeatDirection {
    type V = RepeatDirection;

    open spec fn deep_view(&self) -> RepeatDirection {
        *self
    }
}

impl RepeatDirection {
    /// The word that a value is written as.
    #[verifier::opaque]
    pub open spec fn word(self) -> Seq<char> {
        match self {
            RepeatDirection::Forward => "forward"@,
            RepeatDirection::Backward => "backward"@,
        }
    }

    /// The value that a word denotes, if it denotes one.
    #[verifier::opaque]
    pub open spec fn of_word(s: Seq<char>) -> Option<RepeatDirection> {
        if exists|v: RepeatDirection| v.word() == s {
            Some(choose|v: RepeatDirection| v.word() == s)
        } else {
            None
        }
    }

    /// No two values are written alike.
    pub proof fn word_injective(a: RepeatDirection, b: RepeatDirection)
        ensures
            a.word() == b.word() ==> a == b,
    {
        reveal(RepeatDirection::word);
        reveal_strlit("forward");
        reveal_strlit("backward");
        if a.word() == b.word() {
            assert(a.word().len() == b.word().len());
            assert(a.word()[0] == b.word()[0]);
            assert(a.word()[1] == b.word()[1]);
            assert(a.word()[2] == b.word()[2]);
            assert(a.word()[3] == b.word()[3]);
            assert(a.word()[4] == b.word()[4]);
            assert(a.word()[5] == b.word()[5]);
            assert(a.word()[6] == b.word()[6]);
            assert(a.word()[7] == b.word()[7]);
        }
    }

    /// Reading the word of a value gives the value back.
    pub proof fn of_word_word(v: RepeatDirection)
        ensures
            RepeatDirection::of_word(v.word()) == Some(v),
    {
        reveal(RepeatDirection::of_word);
        RepeatDirection::word_injective(v, choose|w: RepeatDirection| w.word() == v.word());
    }

    /// The word that a value is written as.
    pub fn as_str(self) -> (r: &'static str)
        ensures
            r@ == self.word(),
    {
        proof {
            reveal(RepeatDirection::word);
        }
        match self {
            RepeatDirection::Forward => "forward",
            RepeatDirection::Backward => "backward",
        }
    }

    /// Reads a value from its word.
    pub fn from_str(s: &str) -> (r: Option<RepeatDirection>)
        ensures
            r == RepeatDirection::of_word(s@),
    {
        proof {
            reveal(RepeatDirection::word);
            reveal(RepeatDirection::of_word);
        }
        if same_text(s, "forward") {
            proof {
                RepeatDirection::of_word_word(RepeatDirection::Forward);
            }
            return Some(RepeatDirection::Forward);
        }
        if same_text(s, "backward") {
            proof {
                RepeatDirection::of_word_word(RepeatDirection::Backward);
            }
            return Some(RepeatDirection::Backward);
        }
        proof {
            assert forall|v: RepeatDirection| v.word() != s@ by {
            }
        }
        None
    }
}

impl Scalar for RepeatDirection {
    open spec fn parse(s: Seq<char>) -> Option<RepeatDirection> {
        RepeatDirection::of_word(s)
    }

    open spec fn text(v: RepeatDirection) -> Seq<char> {
        v.word()
    }

    open spec fn initial() -> RepeatDirection {
        RepeatDirection::Forward
    }

    proof fn parse_text(v: RepeatDirection) {
        RepeatDirection::of_word_word(v);
    }

    fn from_text(s: &str) -> (r: Option<RepeatDirection>) {
        RepeatDirection::from_str(s)
    }

    fn to_text(&self) -> (r: String) {
        owned(self.as_str())
    }

    fn same(&self, other: &RepeatDirection) -> (r: bool) {
        *self == *other
    }

    fn make_initial() -> (r: RepeatDirection) {
        RepeatDirection::Forward
    }
}

} // verus!
