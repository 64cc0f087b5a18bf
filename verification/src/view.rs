//! What the shell shows: a prompt panel above a panel that lists the
//! commands on offer.
//!
//! The view is described, not painted. [`ui`] divides the area of the
//! terminal between the two panels and fills in their texts; a driver paints
//! each [`Panel`] as it is described.

use vstd::prelude::*;

verus! {

/// The share of the height that the prompt panel asks for, in percent.
pub const PROMPT_PERCENT: u16 = 10;

/// The share of the height that the list panel asks for, in percent.
pub const LIST_PERCENT: u16 = 90;

/// A rectangle of terminal cells.
#[derive(Clone, Copy, Debug, PartialEq, Eq, Structural)]
pub struct Area {
    /// The column of the top left corner.
    pub x: u16,
    /// The row of the top left corner.
    pub y: u16,
    pub width: u16,
    pub height: u16,
}

/// A block of text with a title, and the area that it is to fill.
#[derive(Debug, PartialEq, Eq)]
pub struct Panel {
    pub area: Area,
    pub title: String,
    pub lines: Vec<String>,
    /// Whether a border runs round the block, with the title in it.
    pub bordered: bool,
    /// Whether a line too long for the block goes on in the next row,
    /// broken between words.
    pub wrapped: bool,
}

/// A panel as plain values.
pub ghost struct PanelView {
    pub area: Area,
    pub title: Seq<char>,
    pub lines: Seq<Seq<char>>,
    pub bordered: bool,
    pub wrapped: bool,
}

impl View for Panel {
    type V = PanelView;

    open spec fn view(&self) -> PanelView {
        PanelView {
            area: self.area,
            title: self.title@,
            lines: self.lines.deep_view(),
            bordered: self.bordered,
            wrapped: self.wrapped,
        }
    }
}

/// The two panels of the shell.
#[derive(Debug, PartialEq, Eq)]
pub struct Screen {
    /// The prompt, in the upper part.
    pub input: Panel,
    /// The list of commands, in the lower part.
    pub display: Panel,
}

/// The two panels of the shell as plain values.
pub ghost struct ScreenView {
    pub input: PanelView,
    pub display: PanelView,
}

impl View for Screen {
    type V = ScreenView;

    open spec fn view(&self) -> ScreenView {
        ScreenView { input: self.input@, display: self.display@ }
    }
}

/// The title that every panel bears.
pub open spec fn title_text() -> Seq<char> {
    "CLI"@
}

/// The one line of the prompt panel.
pub open spec fn prompt_text() -> Seq<Seq<char>> {
    seq!["Please select one cli to run"@]
}

/// The lines of the list panel: the commands on offer.
pub open spec fn list_text() -> Seq<Seq<char>> {
    seq!["just"@, "rg"@]
}

/// The panel that shows `text` in `area`: bordered, titled, its text
/// wrapped.
pub open spec fn panel_of(area: Area, text: Seq<Seq<char>>) -> PanelView {
    PanelView { area, title: title_text(), lines: text, bordered: true, wrapped: true }
}

/// The shell's screen with its panels in the areas `input` and `display`.
pub open spec fn screen_of(input: Area, display: Area) -> ScreenView {
    ScreenView {
        input: panel_of(input, prompt_text()),
        display: panel_of(display, list_text()),
    }
}

/// Divides `area` into an upper and a lower part with ratatui's
/// `Layout::areas`, on a vertical layout of two `Constraint::Percentage`s.
///
/// Not verified: the contract is taken on trust. It claims only what
/// `Layout` does across the direction of a vertical layout without margin:
/// each part gets the column and the width of `area` unchanged. The rows and
/// heights of the parts come out of ratatui's constraint solver, and nothing
/// is claimed of them.
#[verifier::external_body]
fn split_rows(area: Area, upper_percent: u16, lower_percent: u16) -> (parts: (Area, Area))
    ensures
        parts.0.x == area.x,
        parts.0.width == area.width,
        parts.1.x == area.x,
        parts.1.width == area.width,
{
    let whole =
        ratatui::layout::Rect { x: area.x, y: area.y, width: area.width, height: area.height };
    let [upper, lower] = ratatui::layout::Layout::vertical(
        [
            ratatui::layout::Constraint::Percentage(upper_percent),
            ratatui::layout::Constraint::Percentage(lower_percent),
        ],
    ).areas(whole);
    (
        Area { x: upper.x, y: upper.y, width: upper.width, height: upper.height },
        Area { x: lower.x, y: lower.y, width: lower.width, height: lower.height },
    )
}

/// The panel that shows `text` in `area`: a bordered block under the
/// shell's title, with the text wrapped.
pub fn render_text(area: Area, text: Vec<String>) -> (panel: Panel)
    ensures
        panel@ == panel_of(area, text.deep_view()),
{
    Panel { area, title: "CLI".to_owned(), lines: text, bordered: true, wrapped: true }
}

/// The shell's screen with its panels in the areas `input` and `display`:
/// the prompt in the first, the list of commands in the second.
pub fn panels(input: Area, display: Area) -> (screen: Screen)
    ensures
        screen@ == screen_of(input, display),
{
    let mut prompt: Vec<String> = Vec::new();
    prompt.push("Please select one cli to run".to_owned());
    let mut list: Vec<String> = Vec::new();
    list.push("just".to_owned());
    list.push("rg".to_owned());
    proof {
        assert(prompt.deep_view() =~= prompt_text());
        assert(list.deep_view() =~= list_text());
    }
    Screen { input: render_text(input, prompt), display: render_text(display, list) }
}

/// The shell's screen on a terminal of the size and place of `area`: the
/// prompt panel above, asking for a tenth of the height, the list panel
/// below, asking for the rest. Both panels span the width of `area`.
pub fn ui(area: Area) -> (screen: Screen)
    ensures
        screen@ == screen_of(screen.input.area, screen.display.area),
        screen.input.area.x == area.x,
        screen.input.area.width == area.width,
        screen.display.area.x == area.x,
        screen.display.area.width == area.width,
{
    let (input, display) = split_rows(area, PROMPT_PERCENT, LIST_PERCENT);
    panels(input, display)
}

} // verus!
