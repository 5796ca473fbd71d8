//! The closed set of payload shapes a session can emit, their wire-kind
//! tags, and the color resolver.

use vstd::prelude::*;

verus! {

/// The polymorphic payload carried by one logged event.
///
/// The union is closed: each variant's wire kind and inner label are fixed
/// by construction, never set independently.
#[derive(Debug, Clone)]
pub enum RayMessage {
    Log(RayLog),
    Text(RayText),
    Color(RayColor),
    HTML(RayHtml),
    ClearAll(RayClearAll),
    Confetti(RayConfetti),
    Charles(RayCharles),
    NewScreen(RayNewScreen),
}

/// The inner `label` discriminator carried by most payloads. Receivers key
/// off this label where several payload shapes share the `custom` wire kind.
#[derive(Debug, Clone, Copy)]
pub enum RayMessageType {
    Log,
    Text,
    HTML,
    ClearAll,
    Confetti,
    Charles,
    NewScreen,
}

/// The outer wire-kind tag of one logged event.
#[derive(Debug, Clone, Copy)]
pub enum RayContentType {
    Log,
    Custom,
    Color,
    ClearAll,
    Confetti,
    NewScreen,
}

/// The wire-kind string of each content type.
pub open spec fn content_type_text(t: RayContentType) -> Seq<char> {
    match t {
        RayContentType::Log => "log"@,
        RayContentType::Custom => "custom"@,
        RayContentType::Color => "color"@,
        RayContentType::ClearAll => "clear_all"@,
        RayContentType::Confetti => "confetti"@,
        RayContentType::NewScreen => "new_screen"@,
    }
}

impl RayContentType {
    pub fn to_string(&self) -> (r: String)
        ensures
            r@ == content_type_text(*self),
    {
        match self {
            RayContentType::Log => "log".to_owned(),
            RayContentType::Custom => "custom".to_owned(),
            RayContentType::Color => "color".to_owned(),
            RayContentType::ClearAll => "clear_all".to_owned(),
            RayContentType::Confetti => "confetti".to_owned(),
            RayContentType::NewScreen => "new_screen".to_owned(),
        }
    }
}

/// View of a payload: the inner label together with the payload data,
/// with every string seen as its character sequence.
#[verifier::ext_equal]
pub enum MessageView {
    Log(RayMessageType, Seq<Seq<char>>),
    Text(RayMessageType, Seq<char>),
    Color(ColorsView),
    Html(RayMessageType, Seq<char>),
    ClearAll(RayMessageType),
    Confetti(RayMessageType),
    Charles(Seq<char>),
    NewScreen(RayMessageType, Seq<char>),
}

/// An ordered sequence of pre-rendered string values.
#[derive(Debug, Clone)]
pub struct RayLog {
    pub label: RayMessageType,
    pub values: Vec<String>,
}

impl RayLog {
    pub fn get_type() -> (r: String)
        ensures
            r@ == "log"@,
    {
        RayContentType::Log.to_string()
    }
}

/// A single text value. Shares the `custom` wire kind with HTML and the
/// celebratory marker; receivers disambiguate by the inner label.
#[derive(Debug, Clone)]
pub struct RayText {
    pub label: RayMessageType,
    pub content: String,
}

impl RayText {
    pub fn get_type() -> (r: String)
        ensures
            r@ == "custom"@,
    {
        RayContentType::Custom.to_string()
    }
}

/// One canonical color tag.
#[derive(Debug, Clone)]
pub struct RayColor {
    pub color: RayColors,
}

impl RayColor {
    pub fn get_type() -> (r: String)
        ensures
            r@ == "color"@,
    {
        RayContentType::Color.to_string()
    }
}

/// The closed color enumeration. Each variant carries its canonical
/// lower-case name, which is what goes over the wire.
#[derive(Debug, Clone)]
pub enum RayColors {
    Green(String),
    Orange(String),
    Red(String),
    Purple(String),
    Blue(String),
    Gray(String),
}

/// View of a color: the variant with its carried name as a character
/// sequence.
#[verifier::ext_equal]
pub enum ColorsView {
    Green(Seq<char>),
    Orange(Seq<char>),
    Red(Seq<char>),
    Purple(Seq<char>),
    Blue(Seq<char>),
    Gray(Seq<char>),
}

impl View for RayColors {
    type V = ColorsView;

    open spec fn view(&self) -> ColorsView {
        match self {
            RayColors::Green(s) => ColorsView::Green(s@),
            RayColors::Orange(s) => ColorsView::Orange(s@),
            RayColors::Red(s) => ColorsView::Red(s@),
            RayColors::Purple(s) => ColorsView::Purple(s@),
            RayColors::Blue(s) => ColorsView::Blue(s@),
            RayColors::Gray(s) => ColorsView::Gray(s@),
        }
    }
}

/// The name a color puts on the wire.
pub open spec fn color_carried(c: ColorsView) -> Seq<char> {
    match c {
        ColorsView::Green(s) => s,
        ColorsView::Orange(s) => s,
        ColorsView::Red(s) => s,
        ColorsView::Purple(s) => s,
        ColorsView::Blue(s) => s,
        ColorsView::Gray(s) => s,
    }
}

/// ASCII lower-casing of one character; all canonical color names are
/// ASCII, so this is the whole of the case-insensitivity the resolver
/// needs.
pub open spec fn lower_char(c: char) -> char {
    match c {
        'A' => 'a',
        'B' => 'b',
        'C' => 'c',
        'D' => 'd',
        'E' => 'e',
        'F' => 'f',
        'G' => 'g',
        'H' => 'h',
        'I' => 'i',
        'J' => 'j',
        'K' => 'k',
        'L' => 'l',
        'M' => 'm',
        'N' => 'n',
        'O' => 'o',
        'P' => 'p',
        'Q' => 'q',
        'R' => 'r',
        'S' => 's',
        'T' => 't',
        'U' => 'u',
        'V' => 'v',
        'W' => 'w',
        'X' => 'x',
        'Y' => 'y',
        'Z' => 'z',
        _ => c,
    }
}

pub open spec fn lower_of(s: Seq<char>) -> Seq<char> {
    s.map_values(|c: char| lower_char(c))
}

/// The total resolution policy: the six canonical names are recognized
/// case-insensitively, "grey" is a synonym for "gray", and every other
/// input - the empty string included - falls back to gray. The fallback is
/// deliberate leniency, not an error.
pub open spec fn color_of_name(s: Seq<char>) -> ColorsView {
    let l = lower_of(s);
    if l == "green"@ {
        ColorsView::Green("green"@)
    } else if l == "orange"@ {
        ColorsView::Orange("orange"@)
    } else if l == "red"@ {
        ColorsView::Red("red"@)
    } else if l == "purple"@ {
        ColorsView::Purple("purple"@)
    } else if l == "blue"@ {
        ColorsView::Blue("blue"@)
    } else {
        ColorsView::Gray("gray"@)
    }
}

fn lower_char_exec(c: char) -> (r: char)
    ensures
        r == lower_char(c),
{
    match c {
        'A' => 'a',
        'B' => 'b',
        'C' => 'c',
        'D' => 'd',
        'E' => 'e',
        'F' => 'f',
        'G' => 'g',
        'H' => 'h',
        'I' => 'i',
        'J' => 'j',
        'K' => 'k',
        'L' => 'l',
        'M' => 'm',
        'N' => 'n',
        'O' => 'o',
        'P' => 'p',
        'Q' => 'q',
        'R' => 'r',
        'S' => 's',
        'T' => 't',
        'U' => 'u',
        'V' => 'v',
        'W' => 'w',
        'X' => 'x',
        'Y' => 'y',
        'Z' => 'z',
        _ => c,
    }
}

fn to_lower_chars(s: &str) -> (r: Vec<char>)
    ensures
        r@ == lower_of(s@),
{
    let n = s.unicode_len();
    let mut r: Vec<char> = Vec::new();
    let mut i: usize = 0;
    while i < n
        invariant
            n == s@.len(),
            i <= n,
            r@.len() == i,
            forall|j: int| 0 <= j < i ==> r@[j] == lower_char(s@[j]),
        decreases n - i,
    {
        r.push(lower_char_exec(s.get_char(i)));
        i = i + 1;
    }
    proof {
        assert(r@ =~= lower_of(s@));
    }
    r
}

fn chars_eq_str(v: &Vec<char>, s: &str) -> (r: bool)
    ensures
        r == (v@ == s@),
{
    let n = s.unicode_len();
    if v.len() != n {
        proof {
            assert(v@ != s@);
        }
        return false;
    }
    let mut i: usize = 0;
    while i < n
        invariant
            n == s@.len(),
            v@.len() == n,
            i <= n,
            forall|j: int| 0 <= j < i ==> v@[j] == s@[j],
        decreases n - i,
    {
        if v[i] != s.get_char(i) {
            proof {
                assert(v@[i as int] != s@[i as int]);
                assert(v@ != s@);
            }
            return false;
        }
        i = i + 1;
    }
    proof {
        assert(v@ =~= s@);
    }
    true
}

impl RayColors {
    /// Resolves a free-form name to a canonical color. Total: unknown
    /// input, including the empty string, yields the gray fallback.
    pub fn from(value: String) -> (r: RayColors)
        ensures
            r@ == color_of_name(value@),
    {
        let lowered = to_lower_chars(value.as_str());
        if chars_eq_str(&lowered, "green") {
            RayColors::Green("green".to_owned())
        } else if chars_eq_str(&lowered, "orange") {
            RayColors::Orange("orange".to_owned())
        } else if chars_eq_str(&lowered, "red") {
            RayColors::Red("red".to_owned())
        } else if chars_eq_str(&lowered, "purple") {
            RayColors::Purple("purple".to_owned())
        } else if chars_eq_str(&lowered, "blue") {
            RayColors::Blue("blue".to_owned())
        } else {
            RayColors::Gray("gray".to_owned())
        }
    }
}

/// A raw HTML snippet.
#[derive(Debug, Clone)]
pub struct RayHtml {
    pub label: RayMessageType,
    pub content: String,
}

impl RayHtml {
    pub fn get_type() -> (r: String)
        ensures
            r@ == "custom"@,
    {
        RayContentType::Custom.to_string()
    }
}

/// The clear-all command; no payload beyond its tag.
#[derive(Debug, Clone)]
pub struct RayClearAll {
    pub label: RayMessageType,
}

impl RayClearAll {
    pub fn get_type() -> (r: String)
        ensures
            r@ == "clear_all"@,
    {
        RayContentType::ClearAll.to_string()
    }
}

/// The confetti marker; no payload beyond its tag.
#[derive(Debug, Clone)]
pub struct RayConfetti {
    pub label: RayMessageType,
}

impl RayConfetti {
    pub fn get_type() -> (r: String)
        ensures
            r@ == "confetti"@,
    {
        RayContentType::Confetti.to_string()
    }
}

/// The fixed celebratory marker, carrying a constant decorative string.
#[derive(Debug, Clone)]
pub struct RayCharles {
    pub content: String,
}

impl RayCharles {
    pub fn get_type() -> (r: String)
        ensures
            r@ == "custom"@,
    {
        RayContentType::Custom.to_string()
    }
}

/// The new-screen command with its optional display name; an absent name
/// is carried as the empty string.
#[derive(Debug, Clone)]
pub struct RayNewScreen {
    pub label: RayMessageType,
    pub name: String,
}

impl RayNewScreen {
    pub fn get_type() -> (r: String)
        ensures
            r@ == "new_screen"@,
    {
        RayContentType::NewScreen.to_string()
    }
}

impl View for RayMessage {
    type V = MessageView;

    open spec fn view(&self) -> MessageView {
        match self {
            RayMessage::Log(m) => MessageView::Log(m.label, m.values@.map_values(|s: String| s@)),
            RayMessage::Text(m) => MessageView::Text(m.label, m.content@),
            RayMessage::Color(m) => MessageView::Color(m.color@),
            RayMessage::HTML(m) => MessageView::Html(m.label, m.content@),
            RayMessage::ClearAll(m) => MessageView::ClearAll(m.label),
            RayMessage::Confetti(m) => MessageView::Confetti(m.label),
            RayMessage::Charles(m) => MessageView::Charles(m.content@),
            RayMessage::NewScreen(m) => MessageView::NewScreen(m.label, m.name@),
        }
    }
}

} // verus!
