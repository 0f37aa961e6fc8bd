//! The status vocabulary of the component kit: which slot a state's dot,
//! text and outline read, and the styling decisions the kit's builders make
//! before they draw.

use vstd::prelude::*;
use crate::palette::Token;
use crate::textutil::{chars_of, decimal, push_char, push_decimal};

verus! {

/// A status the interface can show.
#[derive(Clone, Copy, Debug, PartialEq, Eq, Structural)]
pub enum StatusKind {
    /// Ready or idle: neutral grey.
    Idle,
    /// Watching: the theme accent (a state, not data freshness).
    Monitoring,
    /// Fresh data: the semantic green, on the dot only.
    Fresh,
    /// A hit: brick.
    Hit,
    /// Needs attention or ageing: amber.
    Warning,
    /// Error or expired: brick.
    Error,
    /// Read-only or unavailable.
    Disabled,
}

/// The slot a status dot is filled with.
pub open spec fn dot_slot(kind: StatusKind) -> Token {
    match kind {
        StatusKind::Idle => Token::NeutralDot,
        StatusKind::Monitoring => Token::Accent,
        StatusKind::Fresh => Token::Fresh,
        StatusKind::Hit | StatusKind::Error => Token::Danger,
        StatusKind::Warning => Token::Warn,
        StatusKind::Disabled => Token::DisabledDot,
    }
}

/// The slot a status line's text is drawn in. Fresh text stays grey: the
/// green dot already says "fresh".
pub open spec fn text_slot(kind: StatusKind) -> Token {
    match kind {
        StatusKind::Idle | StatusKind::Fresh => Token::TextSecondary,
        StatusKind::Monitoring => Token::AccentText,
        StatusKind::Hit | StatusKind::Error => Token::DangerText,
        StatusKind::Warning => Token::WarnText,
        StatusKind::Disabled => Token::TextDisabled,
    }
}

/// The slot a chip is outlined with.
pub open spec fn stroke_slot(kind: StatusKind) -> Token {
    match kind {
        StatusKind::Monitoring => Token::AccentLine,
        StatusKind::Warning => Token::WarnLine,
        StatusKind::Hit | StatusKind::Error => Token::DangerLine,
        StatusKind::Idle | StatusKind::Fresh | StatusKind::Disabled => Token::Hairline,
    }
}

impl StatusKind {
    /// The dot's slot.
    pub fn dot(self) -> (token: Token)
        ensures
            token == dot_slot(self),
    {
        match self {
            StatusKind::Idle => Token::NeutralDot,
            StatusKind::Monitoring => Token::Accent,
            StatusKind::Fresh => Token::Fresh,
            StatusKind::Hit | StatusKind::Error => Token::Danger,
            StatusKind::Warning => Token::Warn,
            StatusKind::Disabled => Token::DisabledDot,
        }
    }

    /// The status line's text slot.
    pub fn text(self) -> (token: Token)
        ensures
            token == text_slot(self),
    {
        match self {
            StatusKind::Idle | StatusKind::Fresh => Token::TextSecondary,
            StatusKind::Monitoring => Token::AccentText,
            StatusKind::Hit | StatusKind::Error => Token::DangerText,
            StatusKind::Warning => Token::WarnText,
            StatusKind::Disabled => Token::TextDisabled,
        }
    }

    /// The ring a disabled dot gets so it does not vanish into the panel.
    pub fn dot_ring(self) -> (ring: Option<Token>)
        ensures
            ring == (if self == StatusKind::Disabled { Some(Token::Hairline) } else { None::<Token> }),
    {
        if matches!(self, StatusKind::Disabled) {
            Some(Token::Hairline)
        } else {
            None
        }
    }

    /// Whether the dot breathes: only while watching.
    pub fn breathes(self) -> (animated: bool)
        ensures
            animated == (self == StatusKind::Monitoring),
    {
        matches!(self, StatusKind::Monitoring)
    }
}

/// A chip's outline: transparent fill, a semantic outline, semantic text.
pub fn chip_stroke(kind: StatusKind) -> (token: Token)
    ensures
        token == stroke_slot(kind),
{
    match kind {
        StatusKind::Monitoring => Token::AccentLine,
        StatusKind::Warning => Token::WarnLine,
        StatusKind::Hit | StatusKind::Error => Token::DangerLine,
        StatusKind::Idle | StatusKind::Fresh | StatusKind::Disabled => Token::Hairline,
    }
}

/// The three semantic hues belong to the status kinds that mean data age or
/// trouble: the green dot is fresh only, and the accent never paints a
/// warning or an error.
pub proof fn law_semantic_colours_stay_with_their_meaning(kind: StatusKind)
    ensures
        dot_slot(kind) == Token::Fresh <==> kind == StatusKind::Fresh,
        dot_slot(kind) == Token::Accent <==> kind == StatusKind::Monitoring,
        text_slot(kind) != Token::Fresh,
        stroke_slot(kind) == Token::DangerLine <==> dot_slot(kind) == Token::Danger,
{
}

/// The four button kinds.
#[derive(Clone, Copy, Debug, PartialEq, Eq, Structural)]
pub enum LedgerButton {
    /// Solid accent fill, one per screen.
    Primary,
    /// Panel fill with a hairline outline.
    Secondary,
    /// No outline, accent text.
    Quiet,
    /// Brick outline and text; solid when pressed.
    Destructive,
}

/// How a button is drawn: `None` fill or outline is transparent.
#[derive(Clone, Copy, Debug, PartialEq, Eq, Structural)]
pub struct ButtonStyle {
    pub fill: Option<Token>,
    pub label: Token,
    pub outline: Option<Token>,
    pub hover: Token,
    pub pressed: Token,
    /// Height in pixels.
    pub height: u32,
    /// The primary label is set larger and semibold.
    pub emphasised: bool,
}

/// The style of each button kind.
pub open spec fn button_style_of(kind: LedgerButton) -> ButtonStyle {
    match kind {
        LedgerButton::Primary => ButtonStyle {
            fill: Some(Token::Accent),
            label: Token::OnAccent,
            outline: Some(Token::Accent),
            hover: Token::AccentHover,
            pressed: Token::AccentPressed,
            height: 28,
            emphasised: true,
        },
        LedgerButton::Secondary => ButtonStyle {
            fill: Some(Token::Panel),
            label: Token::TextSecondary,
            outline: Some(Token::Hairline),
            hover: Token::Hover,
            pressed: Token::Pressed,
            height: 28,
            emphasised: false,
        },
        LedgerButton::Quiet => ButtonStyle {
            fill: None,
            label: Token::AccentText,
            outline: None,
            hover: Token::Hover,
            pressed: Token::Pressed,
            height: 26,
            emphasised: false,
        },
        LedgerButton::Destructive => ButtonStyle {
            fill: Some(Token::Panel),
            label: Token::Danger,
            outline: Some(Token::DangerLine),
            hover: Token::DangerWash,
            pressed: Token::Danger,
            height: 26,
            emphasised: false,
        },
    }
}

/// The style a button kind is drawn with.
pub fn button_style(kind: LedgerButton) -> (style: ButtonStyle)
    ensures
        style == button_style_of(kind),
{
    match kind {
        LedgerButton::Primary => ButtonStyle {
            fill: Some(Token::Accent),
            label: Token::OnAccent,
            outline: Some(Token::Accent),
            hover: Token::AccentHover,
            pressed: Token::AccentPressed,
            height: 28,
            emphasised: true,
        },
        LedgerButton::Secondary => ButtonStyle {
            fill: Some(Token::Panel),
            label: Token::TextSecondary,
            outline: Some(Token::Hairline),
            hover: Token::Hover,
            pressed: Token::Pressed,
            height: 28,
            emphasised: false,
        },
        LedgerButton::Quiet => ButtonStyle {
            fill: None,
            label: Token::AccentText,
            outline: None,
            hover: Token::Hover,
            pressed: Token::Pressed,
            height: 26,
            emphasised: false,
        },
        LedgerButton::Destructive => ButtonStyle {
            fill: Some(Token::Panel),
            label: Token::Danger,
            outline: Some(Token::DangerLine),
            hover: Token::DangerWash,
            pressed: Token::Danger,
            height: 26,
            emphasised: false,
        },
    }
}

/// The six states of a tree row.
#[derive(Clone, Copy, Debug, PartialEq, Eq, Structural)]
pub enum TreeState {
    Active,
    Selected,
    Hover,
    Default,
    Warning,
    Disabled,
}

/// One row of a tree.
pub struct TreeRowSpec<'a> {
    /// 0, 1, 2 indent by 11, 24, 40 pixels; deeper rows indent as 2.
    pub depth: usize,
    pub state: TreeState,
    /// `Some(expanded)` draws an arrow, `None` a small square dot.
    pub expander: Option<bool>,
    pub label: &'a str,
    /// The right-hand count.
    pub trailing: &'a str,
    /// Overrides the count's slot (meta by default).
    pub trailing_color: Option<Token>,
}

/// The leading marker of a tree row.
#[derive(Clone, Copy, Debug, PartialEq, Eq, Structural)]
pub enum TreeMarker {
    /// An arrow: down when expanded, right when collapsed.
    Arrow { expanded: bool },
    /// A square dot in this slot.
    Dot(Token),
}

/// Everything a tree row's look depends on.
#[derive(Clone, Copy, Debug, PartialEq, Eq, Structural)]
pub struct TreeRowStyle {
    /// Left padding in pixels.
    pub indent: u32,
    /// Row background, if not transparent.
    pub background: Option<Token>,
    /// Whether the 2px accent bar runs down the left edge.
    pub accent_bar: bool,
    pub label: Token,
    pub semibold: bool,
    pub marker: TreeMarker,
    pub trailing: Token,
}

/// The indent of a depth.
pub open spec fn tree_indent(depth: nat) -> u32 {
    if depth == 0 { 11 } else if depth == 1 { 24 } else { 40 }
}

/// The look of a tree row.
pub open spec fn tree_row_style_of(depth: nat, state: TreeState, expander: Option<bool>, trailing: Option<Token>) -> TreeRowStyle {
    TreeRowStyle {
        indent: tree_indent(depth),
        background: match state {
            TreeState::Active => Some(Token::Panel),
            TreeState::Selected => Some(Token::Selected),
            TreeState::Hover => Some(Token::Hover),
            _ => None,
        },
        accent_bar: state == TreeState::Active || state == TreeState::Selected,
        label: match state {
            TreeState::Active | TreeState::Selected => Token::TextPrimary,
            TreeState::Disabled => Token::TextDisabled,
            _ => Token::TextSecondary,
        },
        semibold: state == TreeState::Active,
        marker: match expander {
            Some(expanded) => TreeMarker::Arrow { expanded },
            None => TreeMarker::Dot(match state {
                TreeState::Active | TreeState::Selected => Token::Accent,
                TreeState::Warning => Token::Warn,
                TreeState::Disabled => Token::DisabledDot,
                _ => Token::NeutralDot,
            }),
        },
        trailing: match trailing {
            Some(t) => t,
            None => Token::TextMeta,
        },
    }
}

impl<'a> TreeRowSpec<'a> {
    /// The look this row is drawn with.
    pub fn style(&self) -> (style: TreeRowStyle)
        ensures
            style == tree_row_style_of(self.depth as nat, self.state, self.expander, self.trailing_color),
    {
        let indent: u32 = if self.depth == 0 {
            11
        } else if self.depth == 1 {
            24
        } else {
            40
        };
        let background = match self.state {
            TreeState::Active => Some(Token::Panel),
            TreeState::Selected => Some(Token::Selected),
            TreeState::Hover => Some(Token::Hover),
            _ => None,
        };
        let accent_bar = matches!(self.state, TreeState::Active | TreeState::Selected);
        let label = match self.state {
            TreeState::Active | TreeState::Selected => Token::TextPrimary,
            TreeState::Disabled => Token::TextDisabled,
            _ => Token::TextSecondary,
        };
        let semibold = matches!(self.state, TreeState::Active);
        let marker = match self.expander {
            Some(expanded) => TreeMarker::Arrow { expanded },
            None => TreeMarker::Dot(
                match self.state {
                    TreeState::Active | TreeState::Selected => Token::Accent,
                    TreeState::Warning => Token::Warn,
                    TreeState::Disabled => Token::DisabledDot,
                    _ => Token::NeutralDot,
                },
            ),
        };
        let trailing = match self.trailing_color {
            Some(t) => t,
            None => Token::TextMeta,
        };
        TreeRowStyle { indent, background, accent_bar, label, semibold, marker, trailing }
    }
}

/// One segment of the status bar.
pub struct StatusSegment<'a> {
    pub text: &'a str,
    pub color: Option<Token>,
}

impl<'a> StatusSegment<'a> {
    /// The segment's text slot: its own colour, or the bar's secondary grey.
    pub fn text_slot(&self) -> (token: Token)
        ensures
            token == (match self.color {
                Some(t) => t,
                None => Token::TextSecondary,
            }),
    {
        match self.color {
            Some(t) => t,
            None => Token::TextSecondary,
        }
    }
}

/// The fill and text slots of cell `index` of a segmented control.
pub fn segment_slots(index: usize, selected: usize) -> (slots: (Token, Token))
    ensures
        slots == (if index == selected {
            (Token::AccentWash, Token::AccentText)
        } else {
            (Token::Panel, Token::TextSecondary)
        }),
{
    if index == selected {
        (Token::AccentWash, Token::AccentText)
    } else {
        (Token::Panel, Token::TextSecondary)
    }
}

/// Whether the status bar draws its soft divider after segment `index` of
/// `count`: between segments, so after every one but the last.
pub fn segment_border(index: usize, count: usize) -> (border: bool)
    ensures
        border == (index + 1 < count),
{
    index < count && count - index > 1
}

/// One line of the log pane.
pub enum LogLine {
    /// A heading line: `band 01 · 29 ms`.
    Meta(String),
    /// A content line, indented.
    Text(String),
    /// A matching line, indented, in accent.
    Match(String),
    /// A hit, on an accent wash with an accent bar.
    Hit(String),
}

/// How a log line is drawn: its text slot, whether it is indented, and
/// its wash and bar slots when it has them.
#[derive(Clone, Copy, Debug, PartialEq, Eq, Structural)]
pub struct LogLineStyle {
    pub text: Token,
    pub indented: bool,
    pub wash: Option<Token>,
    pub bar: Option<Token>,
}

/// The style of each kind of log line.
pub open spec fn log_line_style_of(line: LogLine) -> LogLineStyle {
    match line {
        LogLine::Meta(_) => LogLineStyle { text: Token::TextMeta, indented: false, wash: None, bar: None },
        LogLine::Text(_) => LogLineStyle { text: Token::TextSecondary, indented: true, wash: None, bar: None },
        LogLine::Match(_) => LogLineStyle { text: Token::AccentText, indented: true, wash: None, bar: None },
        LogLine::Hit(_) => LogLineStyle {
            text: Token::AccentText,
            indented: false,
            wash: Some(Token::AccentWash),
            bar: Some(Token::Accent),
        },
    }
}

impl LogLine {
    /// How this line is drawn.
    pub fn style(&self) -> (style: LogLineStyle)
        ensures
            style == log_line_style_of(*self),
    {
        match self {
            LogLine::Meta(_) => LogLineStyle { text: Token::TextMeta, indented: false, wash: None, bar: None },
            LogLine::Text(_) => LogLineStyle { text: Token::TextSecondary, indented: true, wash: None, bar: None },
            LogLine::Match(_) => LogLineStyle { text: Token::AccentText, indented: true, wash: None, bar: None },
            LogLine::Hit(_) => LogLineStyle {
                text: Token::AccentText,
                indented: false,
                wash: Some(Token::AccentWash),
                bar: Some(Token::Accent),
            },
        }
    }

    /// The line's text.
    pub fn text(&self) -> (t: &str)
        ensures
            t@ == (match *self {
                LogLine::Meta(x) => x@,
                LogLine::Text(x) => x@,
                LogLine::Match(x) => x@,
                LogLine::Hit(x) => x@,
            }),
    {
        match self {
            LogLine::Meta(x) => x.as_str(),
            LogLine::Text(x) => x.as_str(),
            LogLine::Match(x) => x.as_str(),
            LogLine::Hit(x) => x.as_str(),
        }
    }
}

/// The thin space put between letters to fake letter-spacing.
pub open spec fn thin_space() -> char {
    '\u{2009}'
}

/// `text` with a thin space between each pair of adjacent characters.
pub open spec fn spaced_chars(text: Seq<char>) -> Seq<char>
    decreases text.len(),
{
    if text.len() <= 1 {
        text
    } else {
        spaced_chars(text.drop_last()).push(thin_space()).push(text.last())
    }
}

/// Simulates letter-spacing by putting U+2009 THIN SPACE between characters.
pub fn spaced(text: &str) -> (out: String)
    ensures
        out@ == spaced_chars(text@),
{
    let chars = chars_of(text);
    let mut out = String::new();
    let mut i: usize = 0;
    while i < chars.len()
        invariant
            i <= chars@.len(),
            chars@ == text@,
            out@ == spaced_chars(chars@.take(i as int)),
        decreases chars.len() - i,
    {
        let ghost done = chars@.take(i as int);
        if i > 0 {
            push_char(&mut out, '\u{2009}');
        }
        push_char(&mut out, chars[i]);
        proof {
            let next = chars@.take(i + 1);
            assert(next.drop_last() =~= done);
            if i == 0 {
                assert(next =~= seq![chars@[0]]);
                assert(out@ =~= next);
            }
        }
        i = i + 1;
    }
    assert(chars@.take(i as int) =~= text@);
    out
}

/// Spacing out a text adds exactly one thin space per gap.
pub proof fn law_spacing_adds_one_per_gap(text: Seq<char>)
    ensures
        text.len() > 0 ==> spaced_chars(text).len() == 2 * text.len() - 1,
        text.len() == 0 ==> spaced_chars(text).len() == 0,
    decreases text.len(),
{
    if text.len() > 1 {
        law_spacing_adds_one_per_gap(text.drop_last());
    }
}

/// How many chips of a row fit before the row folds the rest.
pub fn shown_chip_count(len: usize, limit: usize) -> (shown: usize)
    ensures
        shown == if len <= limit { len } else { limit },
{
    if len <= limit { len } else { limit }
}

/// The "+N" chip that stands for the chips a row folded away, if any.
pub fn overflow_chip_label(len: usize, limit: usize) -> (label: Option<String>)
    ensures
        len <= limit ==> label.is_none(),
        len > limit ==> label.is_some() && label.unwrap()@ == seq!['+'] + decimal((len - limit) as nat),
{
    if len > limit {
        let mut s = String::new();
        push_char(&mut s, '+');
        push_decimal(&mut s, (len - limit) as u128);
        Some(s)
    } else {
        None
    }
}

} // verus!
