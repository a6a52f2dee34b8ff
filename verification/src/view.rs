//! What the terminal interface shows: a list of things to draw, each with its place.
use vstd::prelude::*;
use vstd::string::*;

use crate::git::{
    default_path_of, default_worktree_path, label_of, short_of, Worktree, WorktreeView,
};
use crate::layout::{
    body_columns, centered_in, centered_rect, columns_of, is_inside, is_piece, is_split,
    law_centered_rect_is_in_the_middle, law_columns_cover, law_shadow_stays_on_screen, less,
    room_of, screen_rows, screen_rules, shadow_of, shadow_rect, Direction, Rect,
};
use crate::path::{file_name, name_of};
use crate::text::{cat, cat3, decimal, join_from, joined, repeated, to_decimal};
use crate::tui::{selected_of, Mode, ModeView, StatusKind, StatusView, TuiApp, TuiView};

verus! {

/// A colour, by what it is for.
#[derive(Debug, Clone, Copy, PartialEq, Eq, Structural)]
pub enum Tone {
    Accent,
    Text,
    Muted,
    Faint,
    Good,
    Warn,
    Bad,
    /// Behind the selected worktree.
    Selection,
    /// Behind the lower right of a popup.
    Shadow,
}

/// The red, the green and the blue of a colour.
pub open spec fn rgb_of(tone: Tone) -> (u8, u8, u8) {
    match tone {
        Tone::Accent => (0x83, 0xA5, 0x98),
        Tone::Text => (0xEB, 0xDB, 0xB2),
        Tone::Muted => (0xA8, 0x99, 0x84),
        Tone::Faint => (0x66, 0x5C, 0x54),
        Tone::Good => (0xB8, 0xBB, 0x26),
        Tone::Warn => (0xFA, 0xBD, 0x2F),
        Tone::Bad => (0xFB, 0x49, 0x34),
        Tone::Selection => (0x50, 0x49, 0x45),
        Tone::Shadow => (0x1D, 0x20, 0x21),
    }
}

/// The red, the green and the blue of a colour.
pub fn rgb(tone: Tone) -> (r: (u8, u8, u8))
    ensures
        r == rgb_of(tone),
{
    match tone {
        Tone::Accent => (0x83, 0xA5, 0x98),
        Tone::Text => (0xEB, 0xDB, 0xB2),
        Tone::Muted => (0xA8, 0x99, 0x84),
        Tone::Faint => (0x66, 0x5C, 0x54),
        Tone::Good => (0xB8, 0xBB, 0x26),
        Tone::Warn => (0xFA, 0xBD, 0x2F),
        Tone::Bad => (0xFB, 0x49, 0x34),
        Tone::Selection => (0x50, 0x49, 0x45),
        Tone::Shadow => (0x1D, 0x20, 0x21),
    }
}

/// How a piece of text looks. Where no colour is given, it has that of the terminal.
#[derive(Debug, Clone, Copy, PartialEq, Eq, Structural)]
pub struct Style {
    pub fg: Option<Tone>,
    pub bg: Option<Tone>,
    pub bold: bool,
}

pub open spec fn plain() -> Style {
    Style { fg: None, bg: None, bold: false }
}

pub open spec fn colored(tone: Tone) -> Style {
    Style { fg: Some(tone), bg: None, bold: false }
}

pub open spec fn bold(tone: Tone) -> Style {
    Style { fg: Some(tone), bg: None, bold: true }
}

/// A piece of text in one style.
#[derive(Debug, PartialEq, Eq)]
pub struct Span {
    pub text: String,
    pub style: Style,
}

/// The view of a [`Span`].
#[verifier::ext_equal]
pub struct SpanView {
    pub text: Seq<char>,
    pub style: Style,
}

impl DeepView for Span {
    type V = SpanView;

    open spec fn deep_view(&self) -> SpanView {
        SpanView { text: self.text@, style: self.style }
    }
}

pub open spec fn span(text: Seq<char>, style: Style) -> SpanView {
    SpanView { text, style }
}

fn plain_span(text: &str) -> (r: Span)
    ensures
        r.deep_view() == span(text@, plain()),
{
    Span { text: text.to_owned(), style: Style { fg: None, bg: None, bold: false } }
}

fn colored_span(text: &str, tone: Tone) -> (r: Span)
    ensures
        r.deep_view() == span(text@, colored(tone)),
{
    Span { text: text.to_owned(), style: Style { fg: Some(tone), bg: None, bold: false } }
}

fn bold_span(text: &str, tone: Tone) -> (r: Span)
    ensures
        r.deep_view() == span(text@, bold(tone)),
{
    Span { text: text.to_owned(), style: Style { fg: Some(tone), bg: None, bold: true } }
}

fn empty_line() -> (r: Vec<Span>)
    ensures
        r.deep_view() == Seq::<SpanView>::empty(),
{
    let r: Vec<Span> = Vec::new();
    assert(r.deep_view() =~= seq![]);
    r
}

fn line_of_one(a: Span) -> (r: Vec<Span>)
    ensures
        r.deep_view() == seq![a.deep_view()],
{
    let r: Vec<Span> = vec![a];
    assert(r.deep_view() =~= seq![a.deep_view()]);
    r
}

fn line_of_two(a: Span, b: Span) -> (r: Vec<Span>)
    ensures
        r.deep_view() == seq![a.deep_view(), b.deep_view()],
{
    let r: Vec<Span> = vec![a, b];
    assert(r.deep_view() =~= seq![a.deep_view(), b.deep_view()]);
    r
}

/// The frame around something that is drawn, with round corners.
#[derive(Debug, PartialEq, Eq)]
pub struct Panel {
    pub title: Option<Span>,
    pub border: Tone,
    /// Whether a column is left free on either side.
    pub padded: bool,
}

/// The view of a [`Panel`].
#[verifier::ext_equal]
pub struct PanelView {
    pub title: Option<SpanView>,
    pub border: Tone,
    pub padded: bool,
}

impl DeepView for Panel {
    type V = PanelView;

    open spec fn deep_view(&self) -> PanelView {
        PanelView { title: self.title.deep_view(), border: self.border, padded: self.padded }
    }
}

/// Something to draw.
#[derive(Debug, PartialEq, Eq)]
pub enum Widget {
    /// Lines of text.
    Text { lines: Vec<Vec<Span>>, panel: Panel, centered: bool, wrap: bool },
    /// Lines of which one is selected.
    Choices {
        items: Vec<Vec<Span>>,
        panel: Panel,
        highlight: Style,
        symbol: String,
        selected: usize,
    },
    /// Nothing, in place of what was drawn before.
    Clear,
    /// A background.
    Fill(Tone),
}

/// The view of a [`Widget`].
#[verifier::ext_equal]
pub enum WidgetView {
    Text { lines: Seq<Seq<SpanView>>, panel: PanelView, centered: bool, wrap: bool },
    Choices {
        items: Seq<Seq<SpanView>>,
        panel: PanelView,
        highlight: Style,
        symbol: Seq<char>,
        selected: int,
    },
    Clear,
    Fill(Tone),
}

impl DeepView for Widget {
    type V = WidgetView;

    open spec fn deep_view(&self) -> WidgetView {
        match self {
            Widget::Text { lines, panel, centered, wrap } => WidgetView::Text {
                lines: lines.deep_view(),
                panel: panel.deep_view(),
                centered: *centered,
                wrap: *wrap,
            },
            Widget::Choices { items, panel, highlight, symbol, selected } => WidgetView::Choices {
                items: items.deep_view(),
                panel: panel.deep_view(),
                highlight: *highlight,
                symbol: symbol@,
                selected: *selected as int,
            },
            Widget::Clear => WidgetView::Clear,
            Widget::Fill(tone) => WidgetView::Fill(*tone),
        }
    }
}

/// Something to draw, and where. What comes later in a list is drawn over what came before.
#[derive(Debug, PartialEq, Eq)]
pub struct Drawn {
    pub area: Rect,
    pub widget: Widget,
}

/// The view of a [`Drawn`].
#[verifier::ext_equal]
pub struct DrawnView {
    pub area: Rect,
    pub widget: WidgetView,
}

impl DeepView for Drawn {
    type V = DrawnView;

    open spec fn deep_view(&self) -> DrawnView {
        DrawnView { area: self.area, widget: self.widget.deep_view() }
    }
}

/// A panel with a title; the one that has the focus has a border that stands out.
pub open spec fn panel_of(title: Seq<char>, focused: bool) -> PanelView {
    PanelView {
        title: Some(span(" "@ + title + " "@, bold(Tone::Accent))),
        border: if focused {
            Tone::Accent
        } else {
            Tone::Faint
        },
        padded: true,
    }
}

/// A panel with a title; the one that has the focus has a border that stands out.
pub fn panel(title: &str, focused: bool) -> (r: Panel)
    ensures
        r.deep_view() == panel_of(title@, focused),
{
    Panel {
        title: Some(bold_span(cat3(" ", title, " ").as_str(), Tone::Accent)),
        border: if focused {
            Tone::Accent
        } else {
            Tone::Faint
        },
        padded: true,
    }
}

/// A key and what it does.
pub open spec fn hint_of(key: Seq<char>, label: Seq<char>) -> Seq<SpanView> {
    seq![
        span(key, bold(Tone::Accent)),
        span(" "@ + label, colored(Tone::Muted)),
        span("   "@, plain()),
    ]
}

/// A key and what it does.
pub fn hint(key: &str, label: &str) -> (r: Vec<Span>)
    ensures
        r.deep_view() == hint_of(key@, label@),
{
    let r: Vec<Span> = vec![
        bold_span(key, Tone::Accent),
        colored_span(cat(" ", label).as_str(), Tone::Muted),
        plain_span("   "),
    ];
    assert(r.deep_view() =~= hint_of(key@, label@));
    r
}

/// The line at the head of the screen: the program, how many worktrees there are, and where it
/// runs.
pub open spec fn header_line(app: TuiView) -> Seq<SpanView> {
    seq![
        span(" 🌳 lazytrees "@, bold(Tone::Accent)),
        span("│ "@, colored(Tone::Faint)),
        span(decimal(app.worktrees.len()), bold(Tone::Accent)),
        span(
            if app.worktrees.len() == 1 {
                " worktree "@
            } else {
                " worktrees "@
            },
            colored(Tone::Muted),
        ),
        span("│ "@, colored(Tone::Faint)),
        span(app.repo.root, colored(Tone::Text)),
    ]
}

pub open spec fn header_of(area: Rect, app: TuiView) -> DrawnView {
    DrawnView {
        area,
        widget: WidgetView::Text {
            lines: seq![header_line(app)],
            panel: PanelView { title: None, border: Tone::Faint, padded: false },
            centered: false,
            wrap: false,
        },
    }
}

/// Draws the head of the screen.
pub fn render_header(area: Rect, app: &TuiApp) -> (r: Drawn)
    ensures
        r.deep_view() == header_of(area, app.deep_view()),
{
    let count: usize = app.worktrees.len();
    let title: Vec<Span> = vec![
        bold_span(" 🌳 lazytrees ", Tone::Accent),
        colored_span("│ ", Tone::Faint),
        bold_span(to_decimal(count as u64).as_str(), Tone::Accent),
        colored_span(
            if count == 1 {
                " worktree "
            } else {
                " worktrees "
            },
            Tone::Muted,
        ),
        colored_span("│ ", Tone::Faint),
        colored_span(app.repo.root.as_str(), Tone::Text),
    ];
    assert(title.deep_view() =~= header_line(app.deep_view()));
    let lines: Vec<Vec<Span>> = vec![title];
    assert(lines.deep_view() =~= seq![header_line(app.deep_view())]);
    Drawn {
        area,
        widget: Widget::Text {
            lines,
            panel: Panel { title: None, border: Tone::Faint, padded: false },
            centered: false,
            wrap: false,
        },
    }
}

/// The mark of a worktree in the list, and its style.
pub open spec fn glyph_of(worktree: WorktreeView) -> (Seq<char>, Style) {
    if worktree.prunable {
        ("⚠"@, colored(Tone::Warn))
    } else if worktree.bare {
        ("◇"@, colored(Tone::Muted))
    } else if worktree.detached {
        ("⚲"@, colored(Tone::Accent))
    } else {
        ("●"@, colored(Tone::Good))
    }
}

/// The mark of a worktree in the list, and its style.
pub fn worktree_glyph(worktree: &Worktree) -> (r: (&'static str, Style))
    ensures
        (r.0@, r.1) == glyph_of(worktree.deep_view()),
{
    let (glyph, tone): (&'static str, Tone) = if worktree.prunable {
        ("⚠", Tone::Warn)
    } else if worktree.bare {
        ("◇", Tone::Muted)
    } else if worktree.detached {
        ("⚲", Tone::Accent)
    } else {
        ("●", Tone::Good)
    };
    (glyph, Style { fg: Some(tone), bg: None, bold: false })
}

/// The line of a worktree in the list: its mark, its branch, and the name of its directory.
pub open spec fn item_of(worktree: WorktreeView) -> Seq<SpanView> {
    let (glyph, style) = glyph_of(worktree);
    let dir = match name_of(worktree.path) {
        Some(name) => name,
        None => worktree.path,
    };
    seq![
        span(glyph + " "@, style),
        span(
            label_of(worktree),
            if worktree.prunable {
                colored(Tone::Warn)
            } else {
                bold(Tone::Text)
            },
        ),
        span("  "@ + dir, colored(Tone::Faint)),
    ]
}

fn render_item(worktree: &Worktree) -> (r: Vec<Span>)
    ensures
        r.deep_view() == item_of(worktree.deep_view()),
{
    let (glyph, style) = worktree_glyph(worktree);
    let branch: Span = if worktree.prunable {
        colored_span(worktree.branch_label(), Tone::Warn)
    } else {
        bold_span(worktree.branch_label(), Tone::Text)
    };
    let dir: String = match file_name(worktree.path.as_str()) {
        Some(name) => name,
        None => worktree.path.clone(),
    };
    let r: Vec<Span> = vec![
        Span { text: cat(glyph, " "), style },
        branch,
        colored_span(cat("  ", dir.as_str()).as_str(), Tone::Faint),
    ];
    assert(r.deep_view() =~= item_of(worktree.deep_view()));
    r
}

/// The list of worktrees, or what to do where there is none.
pub open spec fn list_of(area: Rect, app: TuiView) -> DrawnView {
    DrawnView {
        area,
        widget: if app.worktrees.len() == 0 {
            WidgetView::Text {
                lines: seq![
                    seq![],
                    seq![span("No worktrees yet"@, colored(Tone::Muted))],
                    seq![span("Press n to create one"@, colored(Tone::Faint))],
                ],
                panel: panel_of("Worktrees"@, true),
                centered: true,
                wrap: false,
            }
        } else {
            WidgetView::Choices {
                items: Seq::new(app.worktrees.len(), |i: int| item_of(app.worktrees[i])),
                panel: panel_of("Worktrees"@, true),
                highlight: Style {
                    fg: Some(Tone::Accent),
                    bg: Some(Tone::Selection),
                    bold: true,
                },
                symbol: "▎"@,
                selected: app.selected,
            }
        },
    }
}

/// Draws the list of worktrees.
pub fn render_worktree_list(area: Rect, app: &TuiApp) -> (r: Drawn)
    ensures
        r.deep_view() == list_of(area, app.deep_view()),
{
    if app.worktrees.len() == 0 {
        let lines: Vec<Vec<Span>> = vec![
            empty_line(),
            line_of_one(colored_span("No worktrees yet", Tone::Muted)),
            line_of_one(colored_span("Press n to create one", Tone::Faint)),
        ];
        assert(lines.deep_view() =~= list_of(area, app.deep_view()).widget->Text_lines);
        return Drawn {
            area,
            widget: Widget::Text {
                lines,
                panel: panel("Worktrees", true),
                centered: true,
                wrap: false,
            },
        };
    }
    let mut items: Vec<Vec<Span>> = Vec::new();
    let mut i: usize = 0;
    while i < app.worktrees.len()
        invariant
            i <= app.worktrees@.len(),
            items@.len() == i,
            forall|k: int|
                0 <= k < i ==> (#[trigger] items@[k]).deep_view() == item_of(
                    app.worktrees@[k].deep_view(),
                ),
        decreases app.worktrees.len() - i,
    {
        items.push(render_item(&app.worktrees[i]));
        i += 1;
    }
    assert(items.deep_view() =~= list_of(area, app.deep_view()).widget->items);
    Drawn {
        area,
        widget: Widget::Choices {
            items,
            panel: panel("Worktrees", true),
            highlight: Style { fg: Some(Tone::Accent), bg: Some(Tone::Selection), bold: true },
            symbol: "▎".to_owned(),
            selected: app.selected,
        },
    }
}

/// A text with blanks behind it, up to a width.
pub open spec fn padded(text: Seq<char>, width: nat) -> Seq<char> {
    text + Seq::new(less(width as int, text.len() as int) as nat, |i: int| ' ')
}

/// A row of the details: an icon and a label, and what it stands for.
pub open spec fn detail_of(
    icon: Seq<char>,
    label: Seq<char>,
    value: Seq<char>,
    tone: Tone,
) -> Seq<SpanView> {
    seq![span(icon + padded(label, 7), colored(Tone::Muted)), span(value, colored(tone))]
}

/// A row of the details: an icon and a label, and what it stands for.
pub fn detail_row(icon: &str, label: &str, value: &str, value_color: Tone) -> (r: Vec<Span>)
    ensures
        r.deep_view() == detail_of(icon@, label@, value@, value_color),
{
    let length: usize = label.unicode_len();
    let blanks: String = repeated(
        ' ',
        if length < 7 {
            7 - length
        } else {
            0
        },
    );
    let head: String = cat3(icon, label, blanks.as_str());
    assert(head@ =~= icon@ + padded(label@, 7));
    line_of_two(colored_span(head.as_str(), Tone::Muted), colored_span(value, value_color))
}

/// What is particular about a worktree.
pub open spec fn states_of(worktree: WorktreeView) -> Seq<Seq<char>> {
    (if worktree.bare {
        seq!["bare"@]
    } else {
        seq![]
    }) + (if worktree.detached {
        seq!["detached"@]
    } else {
        seq![]
    }) + (if worktree.prunable {
        seq!["prunable"@]
    } else {
        seq![]
    })
}

/// What is particular about a worktree, in words.
pub open spec fn state_of(worktree: WorktreeView) -> Seq<char> {
    if states_of(worktree).len() == 0 {
        "normal"@
    } else {
        joined(states_of(worktree), ", "@)
    }
}

/// What is particular about a worktree, in words.
pub fn worktree_state(worktree: &Worktree) -> (r: String)
    ensures
        r@ == state_of(worktree.deep_view()),
{
    let mut states: Vec<String> = Vec::new();
    if worktree.bare {
        states.push("bare".to_owned());
    }
    if worktree.detached {
        states.push("detached".to_owned());
    }
    if worktree.prunable {
        states.push("prunable".to_owned());
    }
    assert(states.deep_view() =~= states_of(worktree.deep_view()));
    if states.len() == 0 {
        "normal".to_owned()
    } else {
        assert(states.deep_view().skip(0) =~= states.deep_view());
        join_from(states.as_slice(), 0, ", ")
    }
}

/// The colour of what is particular about a worktree.
pub open spec fn state_tone(worktree: WorktreeView) -> Tone {
    if worktree.prunable {
        Tone::Warn
    } else if worktree.detached || worktree.bare {
        Tone::Accent
    } else {
        Tone::Good
    }
}

/// The colour of what is particular about a worktree.
pub fn state_color(worktree: &Worktree) -> (r: Tone)
    ensures
        r == state_tone(worktree.deep_view()),
{
    if worktree.prunable {
        Tone::Warn
    } else if worktree.detached || worktree.bare {
        Tone::Accent
    } else {
        Tone::Good
    }
}

/// The lines about a worktree, with a rule as wide as the panel is inside.
pub open spec fn detail_lines(width: u16, worktree: WorktreeView) -> Seq<Seq<SpanView>> {
    let head = match worktree.head {
        Some(head) => short_of(head),
        None => "-"@,
    };
    let rule = Seq::new(less(width as int, 4) as nat, |i: int| '─');
    seq![
        seq![],
        detail_of(""@, "branch"@, label_of(worktree), Tone::Text),
        detail_of(""@, "head"@, head, Tone::Accent),
        detail_of(""@, "path"@, worktree.path, Tone::Text),
        detail_of(""@, "state"@, state_of(worktree), state_tone(worktree)),
        seq![],
        seq![span(rule, colored(Tone::Faint))],
        seq![],
        detail_of(""@, "open"@, "agent"@, Tone::Good),
    ]
}

/// The lines about a worktree.
fn details_of_worktree(width: u16, worktree: &Worktree) -> (r: Vec<Vec<Span>>)
    ensures
        r.deep_view() == detail_lines(width, worktree.deep_view()),
{
    let rule: String = repeated(
        '─',
        if width > 4 {
            (width - 4) as usize
        } else {
            0
        },
    );
    let r: Vec<Vec<Span>> = vec![
        empty_line(),
        detail_row("", "branch", worktree.branch_label(), Tone::Text),
        detail_row("", "head", worktree.short_head(), Tone::Accent),
        detail_row("", "path", worktree.path.as_str(), Tone::Text),
        detail_row("", "state", worktree_state(worktree).as_str(), state_color(worktree)),
        empty_line(),
        line_of_one(colored_span(rule.as_str(), Tone::Faint)),
        empty_line(),
        detail_row("", "open", "agent", Tone::Good),
    ];
    assert(rule@ =~= Seq::new(less(width as int, 4) as nat, |i: int| '─'));
    assert(r.deep_view() =~= detail_lines(width, worktree.deep_view()));
    r
}

/// What is known of the selected worktree.
pub open spec fn details_of(area: Rect, app: TuiView) -> DrawnView {
    DrawnView {
        area,
        widget: WidgetView::Text {
            lines: match selected_of(app) {
                Some(worktree) => detail_lines(area.width, worktree),
                None => seq![
                    seq![],
                    seq![span("No worktree selected."@, colored(Tone::Muted))],
                ],
            },
            panel: panel_of("Details"@, false),
            centered: false,
            wrap: true,
        },
    }
}

/// Draws what is known of the selected worktree.
pub fn render_worktree_details(area: Rect, app: &TuiApp) -> (r: Drawn)
    ensures
        r.deep_view() == details_of(area, app.deep_view()),
{
    let lines: Vec<Vec<Span>> = match app.selected_worktree() {
        Some(worktree) => details_of_worktree(area.width, worktree),
        None => {
            let lines: Vec<Vec<Span>> = vec![
                empty_line(),
                line_of_one(colored_span("No worktree selected.", Tone::Muted)),
            ];
            assert(lines.deep_view() =~= seq![
                seq![],
                seq![span("No worktree selected."@, colored(Tone::Muted))],
            ]);
            lines
        },
    };
    Drawn {
        area,
        widget: Widget::Text {
            lines,
            panel: panel("Details", false),
            centered: false,
            wrap: true,
        },
    }
}

/// The middle of the screen: the list, and the selected worktree next to it.
pub open spec fn body_of(area: Rect, app: TuiView) -> Seq<DrawnView> {
    let (left, right) = columns_of(area);
    seq![list_of(left, app), details_of(right, app)]
}

/// Draws the middle of the screen.
pub fn render_body(area: Rect, app: &TuiApp) -> (r: Vec<Drawn>)
    ensures
        r.deep_view() == body_of(area, app.deep_view()),
{
    let (left, right) = body_columns(area);
    let r: Vec<Drawn> = vec![
        render_worktree_list(left, app),
        render_worktree_details(right, app),
    ];
    assert(r.deep_view() =~= body_of(area, app.deep_view()));
    r
}

/// The line with what the interface last had to say, and with the keys that do something.
pub open spec fn status_line(status: StatusView) -> Seq<SpanView> {
    let (icon, tone) = match status.kind {
        StatusKind::Info => ("✓"@, Tone::Good),
        StatusKind::Error => ("✗"@, Tone::Bad),
    };
    seq![
        span(icon + " "@, bold(tone)),
        span(status.text, colored(tone)),
        span("    "@, plain()),
    ] + hint_of("↵"@, "open"@) + hint_of("n"@, "new"@) + hint_of("d"@, "remove"@) + hint_of(
        "p"@,
        "prune"@,
    ) + hint_of("r"@, "refresh"@) + hint_of("q"@, "quit"@)
}

pub open spec fn footer_of(area: Rect, app: TuiView) -> DrawnView {
    DrawnView {
        area,
        widget: WidgetView::Text {
            lines: seq![
                status_line(app.status),
                seq![
                    span("default parent  "@, colored(Tone::Faint)),
                    span(app.repo.default_worktree_parent, colored(Tone::Muted)),
                ],
            ],
            panel: PanelView { title: None, border: Tone::Faint, padded: true },
            centered: false,
            wrap: false,
        },
    }
}

/// Puts a hint behind a line.
fn add_hint(line: &mut Vec<Span>, key: &str, label: &str)
    ensures
        final(line).deep_view() == old(line).deep_view() + hint_of(key@, label@),
{
    let mut spans: Vec<Span> = hint(key, label);
    let ghost added = spans.deep_view();
    let ghost before = line.deep_view();
    line.append(&mut spans);
    assert(line.deep_view() =~= before + added);
}

/// Draws the foot of the screen.
pub fn render_footer(area: Rect, app: &TuiApp) -> (r: Drawn)
    ensures
        r.deep_view() == footer_of(area, app.deep_view()),
{
    let (icon, tone): (&str, Tone) = match app.status.kind {
        StatusKind::Info => ("✓", Tone::Good),
        StatusKind::Error => ("✗", Tone::Bad),
    };
    let mut status: Vec<Span> = vec![
        bold_span(cat(icon, " ").as_str(), tone),
        colored_span(app.status.text.as_str(), tone),
        plain_span("    "),
    ];
    assert(status.deep_view() =~= seq![
        span(icon@ + " "@, bold(tone)),
        span(app.status.text@, colored(tone)),
        span("    "@, plain()),
    ]);
    add_hint(&mut status, "↵", "open");
    add_hint(&mut status, "n", "new");
    add_hint(&mut status, "d", "remove");
    add_hint(&mut status, "p", "prune");
    add_hint(&mut status, "r", "refresh");
    add_hint(&mut status, "q", "quit");
    let lines: Vec<Vec<Span>> = vec![
        status,
        line_of_two(
            colored_span("default parent  ", Tone::Faint),
            colored_span(app.repo.default_worktree_parent.as_str(), Tone::Muted),
        ),
    ];
    assert(lines.deep_view() =~= footer_of(area, app.deep_view()).widget->Text_lines);
    Drawn {
        area,
        widget: Widget::Text {
            lines,
            panel: Panel { title: None, border: Tone::Faint, padded: true },
            centered: false,
            wrap: false,
        },
    }
}

/// The frame of a popup.
pub open spec fn popup_panel(title: Seq<char>, border: Tone, padded: bool) -> PanelView {
    PanelView { title: Some(span(" "@ + title + " "@, bold(border))), border, padded }
}

/// The frame of a popup.
pub fn popup_block(title: &str, border_color: Tone, padded: bool) -> (r: Panel)
    ensures
        r.deep_view() == popup_panel(title@, border_color, padded),
{
    Panel {
        title: Some(bold_span(cat3(" ", title, " ").as_str(), border_color)),
        border: border_color,
        padded,
    }
}

/// The line with the keys that confirm and cancel.
pub open spec fn confirm_line() -> Seq<SpanView> {
    seq![
        span("y"@, bold(Tone::Good)),
        span(" confirm    "@, colored(Tone::Muted)),
        span("n"@, bold(Tone::Bad)),
        span(" cancel"@, colored(Tone::Muted)),
    ]
}

/// The line with the keys that confirm and cancel.
pub fn confirm_action_line() -> (r: Vec<Span>)
    ensures
        r.deep_view() == confirm_line(),
{
    let r: Vec<Span> = vec![
        bold_span("y", Tone::Good),
        colored_span(" confirm    ", Tone::Muted),
        bold_span("n", Tone::Bad),
        colored_span(" cancel", Tone::Muted),
    ];
    assert(r.deep_view() =~= confirm_line());
    r
}

/// Whether a popup on a screen leaves a coordinate free to its right and below. That holds of
/// every screen that begins at the origin.
pub open spec fn holds_popup(screen: Rect) -> bool {
    &&& screen.x + (room_of(screen, Direction::Horizontal) + 1) / 2 < u16::MAX
    &&& screen.y + (room_of(screen, Direction::Vertical) + 1) / 2 < u16::MAX
}

pub open spec fn shadow_drawn(popup: Rect, screen: Rect) -> DrawnView {
    DrawnView { area: shadow_of(popup, screen), widget: WidgetView::Fill(Tone::Shadow) }
}

/// Draws the shadow of a popup.
pub fn render_shadow(popup: Rect, screen: Rect) -> (r: Drawn)
    requires
        popup.x < u16::MAX,
        popup.y < u16::MAX,
    ensures
        r.deep_view() == shadow_drawn(popup, screen),
{
    Drawn { area: shadow_rect(popup, screen), widget: Widget::Fill(Tone::Shadow) }
}

/// What is drawn before a popup: its shadow, and nothing in its place.
pub open spec fn cleared(popup: Rect, screen: Rect) -> Seq<DrawnView> {
    seq![shadow_drawn(popup, screen), DrawnView { area: popup, widget: WidgetView::Clear }]
}

/// Finds a place for a popup and clears it.
pub fn clear_popup_area(screen: Rect, percent_x: u16, height: u16) -> (r: (Rect, Vec<Drawn>))
    requires
        percent_x <= 100,
        holds_popup(screen),
    ensures
        r.0 == centered_in(percent_x, height, screen),
        r.1.deep_view() == cleared(r.0, screen),
{
    let popup: Rect = centered_rect(percent_x, height, screen);
    proof {
        lemma_popup_before_last(percent_x, height, screen);
    }
    let drawn: Vec<Drawn> = vec![
        render_shadow(popup, screen),
        Drawn { area: popup, widget: Widget::Clear },
    ];
    assert(drawn.deep_view() =~= cleared(popup, screen));
    (popup, drawn)
}

/// A popup begins before the last coordinate.
proof fn lemma_popup_before_last(percent_x: u16, height: u16, screen: Rect)
    requires
        percent_x <= 100,
        holds_popup(screen),
    ensures
        centered_in(percent_x, height, screen).x < u16::MAX,
        centered_in(percent_x, height, screen).y < u16::MAX,
{
    let side = (100 - percent_x) / 2;
    let width = room_of(screen, Direction::Horizontal);
    assert(0 <= side * width <= 50 * width) by (nonlinear_arith)
        requires
            0 <= side <= 50,
            0 <= width,
    ;
}

/// A popup that asks for a confirmation.
#[derive(Debug, PartialEq, Eq)]
pub struct ConfirmationPopup {
    pub width_percent: u16,
    pub height: u16,
    pub title: String,
    pub border_color: Tone,
    pub lines: Vec<Vec<Span>>,
    pub wrap: bool,
}

/// The view of a [`ConfirmationPopup`].
#[verifier::ext_equal]
pub struct ConfirmationView {
    pub width_percent: u16,
    pub height: u16,
    pub title: Seq<char>,
    pub border_color: Tone,
    pub lines: Seq<Seq<SpanView>>,
    pub wrap: bool,
}

impl DeepView for ConfirmationPopup {
    type V = ConfirmationView;

    open spec fn deep_view(&self) -> ConfirmationView {
        ConfirmationView {
            width_percent: self.width_percent,
            height: self.height,
            title: self.title@,
            border_color: self.border_color,
            lines: self.lines.deep_view(),
            wrap: self.wrap,
        }
    }
}

pub open spec fn confirmation_of(screen: Rect, popup: ConfirmationView) -> Seq<DrawnView> {
    let area = centered_in(popup.width_percent, popup.height, screen);
    cleared(area, screen).push(
        DrawnView {
            area,
            widget: WidgetView::Text {
                lines: popup.lines,
                panel: popup_panel(popup.title, popup.border_color, false),
                centered: true,
                wrap: popup.wrap,
            },
        },
    )
}

/// Draws a popup that asks for a confirmation.
pub fn render_confirmation_popup(screen: Rect, popup: ConfirmationPopup) -> (r: Vec<Drawn>)
    requires
        popup.width_percent <= 100,
        holds_popup(screen),
    ensures
        r.deep_view() == confirmation_of(screen, popup.deep_view()),
{
    let (area, drawn) = clear_popup_area(screen, popup.width_percent, popup.height);
    let mut r: Vec<Drawn> = drawn;
    let ghost before = r.deep_view();
    r.push(
        Drawn {
            area,
            widget: Widget::Text {
                lines: popup.lines,
                panel: popup_block(popup.title.as_str(), popup.border_color, false),
                centered: true,
                wrap: popup.wrap,
            },
        },
    );
    assert(r.deep_view() =~= before.push(r@.last().deep_view()));
    r
}

/// The lines of a dialog: what was typed, with a cursor behind it; what holds where nothing is
/// typed, if anything does; and the keys.
pub open spec fn prompt_lines(input: Seq<char>, default: Option<Seq<char>>) -> Seq<
    Seq<SpanView>,
> {
    seq![
        seq![],
        seq![
            span("❯ "@, colored(Tone::Accent)),
            span(input, bold(Tone::Text)),
            span("█"@, colored(Tone::Accent)),
        ],
    ] + (match default {
        Some(default) => seq![
            seq![
                span("  default  "@, colored(Tone::Faint)),
                span(default, colored(Tone::Muted)),
            ],
        ],
        None => seq![],
    }) + seq![
        seq![],
        seq![
            span("↵"@, bold(Tone::Accent)),
            span(" accept    "@, colored(Tone::Muted)),
            span("esc"@, bold(Tone::Accent)),
            span(" cancel"@, colored(Tone::Muted)),
        ],
    ]
}

/// The lines of a dialog.
fn lines_of_prompt(input: &str, default: Option<&str>) -> (r: Vec<Vec<Span>>)
    ensures
        r.deep_view() == prompt_lines(
            input@,
            match default {
                Some(default) => Some(default@),
                None => None,
            },
        ),
{
    let typed: Vec<Span> = vec![
        colored_span("❯ ", Tone::Accent),
        bold_span(input, Tone::Text),
        colored_span("█", Tone::Accent),
    ];
    assert(typed.deep_view() =~= seq![
        span("❯ "@, colored(Tone::Accent)),
        span(input@, bold(Tone::Text)),
        span("█"@, colored(Tone::Accent)),
    ]);
    let keys: Vec<Span> = vec![
        bold_span("↵", Tone::Accent),
        colored_span(" accept    ", Tone::Muted),
        bold_span("esc", Tone::Accent),
        colored_span(" cancel", Tone::Muted),
    ];
    assert(keys.deep_view() =~= seq![
        span("↵"@, bold(Tone::Accent)),
        span(" accept    "@, colored(Tone::Muted)),
        span("esc"@, bold(Tone::Accent)),
        span(" cancel"@, colored(Tone::Muted)),
    ]);
    let mut lines: Vec<Vec<Span>> = vec![empty_line(), typed];
    if let Some(default) = default {
        lines.push(
            line_of_two(
                colored_span("  default  ", Tone::Faint),
                colored_span(default, Tone::Muted),
            ),
        );
    }
    lines.push(empty_line());
    lines.push(keys);
    assert(lines.deep_view() =~= prompt_lines(
        input@,
        match default {
            Some(default) => Some(default@),
            None => None,
        },
    ));
    lines
}

pub open spec fn prompt_of(
    screen: Rect,
    title: Seq<char>,
    input: Seq<char>,
    default: Option<Seq<char>>,
) -> Seq<DrawnView> {
    let area = centered_in(70, 8, screen);
    cleared(area, screen).push(
        DrawnView {
            area,
            widget: WidgetView::Text {
                lines: prompt_lines(input, default),
                panel: popup_panel(title, Tone::Accent, true),
                centered: false,
                wrap: true,
            },
        },
    )
}

/// Draws a dialog.
pub fn render_prompt(screen: Rect, title: &str, input: &str, default: Option<&str>) -> (r: Vec<
    Drawn,
>)
    requires
        holds_popup(screen),
    ensures
        r.deep_view() == prompt_of(
            screen,
            title@,
            input@,
            match default {
                Some(default) => Some(default@),
                None => None,
            },
        ),
{
    let (area, drawn) = clear_popup_area(screen, 70, 8);
    let mut r: Vec<Drawn> = drawn;
    let ghost before = r.deep_view();
    r.push(
        Drawn {
            area,
            widget: Widget::Text {
                lines: lines_of_prompt(input, default),
                panel: popup_block(title, Tone::Accent, true),
                centered: false,
                wrap: true,
            },
        },
    );
    assert(r.deep_view() =~= before.push(r@.last().deep_view()));
    r
}

/// The popup that asks whether a worktree is to be removed.
pub open spec fn removal_popup(path: Seq<char>, branch: Seq<char>) -> ConfirmationView {
    ConfirmationView {
        width_percent: 64,
        height: 9,
        title: "Confirm remove"@,
        border_color: Tone::Bad,
        lines: seq![
            seq![],
            seq![span("Remove selected worktree?"@, bold(Tone::Text))],
            seq![
                span("branch  "@, colored(Tone::Faint)),
                span(branch, colored(Tone::Text)),
            ],
            seq![span("path    "@, colored(Tone::Faint)), span(path, colored(Tone::Muted))],
            seq![],
            confirm_line(),
        ],
        wrap: true,
    }
}

/// The popup that asks whether worktrees are to be pruned.
pub open spec fn prune_popup() -> ConfirmationView {
    ConfirmationView {
        width_percent: 56,
        height: 7,
        title: "Confirm prune"@,
        border_color: Tone::Warn,
        lines: seq![
            seq![],
            seq![span("Run git worktree prune?"@, bold(Tone::Text))],
            seq![],
            confirm_line(),
        ],
        wrap: false,
    }
}

/// What is drawn over the list: the dialog or the confirmation that is open, if one is.
pub open spec fn mode_of(screen: Rect, app: TuiView) -> Seq<DrawnView> {
    match app.mode {
        ModeView::Browse => seq![],
        ModeView::NewBranch { input } => prompt_of(
            screen,
            "New worktree branch"@,
            input,
            None,
        ),
        ModeView::NewBase { input, .. } => prompt_of(
            screen,
            "Base ref"@,
            input,
            Some("HEAD"@),
        ),
        ModeView::NewPath { branch, input, .. } => prompt_of(
            screen,
            "Worktree path"@,
            input,
            Some(default_path_of(app.repo, branch)),
        ),
        ModeView::ConfirmRemove { path, branch } => confirmation_of(
            screen,
            removal_popup(path, branch),
        ),
        ModeView::ConfirmPrune => confirmation_of(screen, prune_popup()),
    }
}

/// Draws what is open over the list.
pub fn render_mode(screen: Rect, app: &TuiApp) -> (r: Vec<Drawn>)
    requires
        app.mode.deep_view() is Browse || holds_popup(screen),
    ensures
        r.deep_view() == mode_of(screen, app.deep_view()),
{
    match &app.mode {
        Mode::Browse => {
            let r: Vec<Drawn> = Vec::new();
            assert(r.deep_view() =~= seq![]);
            r
        },
        Mode::NewBranch { input } => render_prompt(
            screen,
            "New worktree branch",
            input.as_str(),
            None,
        ),
        Mode::NewBase { input, .. } => render_prompt(
            screen,
            "Base ref",
            input.as_str(),
            Some("HEAD"),
        ),
        Mode::NewPath { branch, input, .. } => {
            let default_path: String = default_worktree_path(app.repo, branch.as_str());
            render_prompt(
                screen,
                "Worktree path",
                input.as_str(),
                Some(default_path.as_str()),
            )
        },
        Mode::ConfirmRemove { path, branch } => {
            let lines: Vec<Vec<Span>> = vec![
                empty_line(),
                line_of_one(bold_span("Remove selected worktree?", Tone::Text)),
                line_of_two(
                    colored_span("branch  ", Tone::Faint),
                    colored_span(branch.as_str(), Tone::Text),
                ),
                line_of_two(
                    colored_span("path    ", Tone::Faint),
                    colored_span(path.as_str(), Tone::Muted),
                ),
                empty_line(),
                confirm_action_line(),
            ];
            assert(lines.deep_view() =~= removal_popup(path@, branch@).lines);
            render_confirmation_popup(
                screen,
                ConfirmationPopup {
                    width_percent: 64,
                    height: 9,
                    title: "Confirm remove".to_owned(),
                    border_color: Tone::Bad,
                    lines,
                    wrap: true,
                },
            )
        },
        Mode::ConfirmPrune => {
            let lines: Vec<Vec<Span>> = vec![
                empty_line(),
                line_of_one(bold_span("Run git worktree prune?", Tone::Text)),
                empty_line(),
                confirm_action_line(),
            ];
            assert(lines.deep_view() =~= prune_popup().lines);
            render_confirmation_popup(
                screen,
                ConfirmationPopup {
                    width_percent: 56,
                    height: 7,
                    title: "Confirm prune".to_owned(),
                    border_color: Tone::Warn,
                    lines,
                    wrap: false,
                },
            )
        },
    }
}

/// All that is drawn on a screen whose rows were laid out: head, middle and foot, and what is open
/// over them.
pub open spec fn scene_of(screen: Rect, rows: Seq<Rect>, app: TuiView) -> Seq<DrawnView> {
    seq![header_of(rows[0], app)] + body_of(rows[1], app) + seq![footer_of(rows[2], app)] + mode_of(
        screen,
        app,
    )
}

/// Draws everything on a screen whose rows were laid out.
pub fn render_rows(screen: Rect, rows: &Vec<Rect>, app: &TuiApp) -> (r: Vec<Drawn>)
    requires
        rows@.len() == 3,
        app.mode.deep_view() is Browse || holds_popup(screen),
    ensures
        r.deep_view() == scene_of(screen, rows@, app.deep_view()),
{
    let mut r: Vec<Drawn> = vec![render_header(rows[0], app)];
    assert(r.deep_view() =~= seq![header_of(rows@[0], app.deep_view())]);
    add_drawn(&mut r, render_body(rows[1], app));
    let foot: Vec<Drawn> = vec![render_footer(rows[2], app)];
    assert(foot.deep_view() =~= seq![footer_of(rows@[2], app.deep_view())]);
    add_drawn(&mut r, foot);
    add_drawn(&mut r, render_mode(screen, app));
    r
}

/// Puts more to draw behind what there is.
fn add_drawn(all: &mut Vec<Drawn>, more: Vec<Drawn>)
    ensures
        final(all).deep_view() == old(all).deep_view() + more.deep_view(),
{
    let mut more: Vec<Drawn> = more;
    let ghost added = more.deep_view();
    let ghost before = all.deep_view();
    all.append(&mut more);
    assert(all.deep_view() =~= before + added);
}

/// Draws everything.
pub fn render(screen: Rect, app: &TuiApp) -> (r: Vec<Drawn>)
    requires
        app.mode.deep_view() is Browse || holds_popup(screen),
    ensures
        exists|rows: Seq<Rect>|
            #![trigger scene_of(screen, rows, app.deep_view())]
            is_split(rows, screen_rules(), screen, Direction::Vertical) && r.deep_view()
                == scene_of(screen, rows, app.deep_view()),
{
    let rows: Vec<Rect> = screen_rows(screen);
    render_rows(screen, &rows, app)
}

/// Everything that is drawn stays on a screen that begins at the origin, however small it is.
pub proof fn law_scene_stays_on_screen(screen: Rect, rows: Seq<Rect>, app: TuiView, i: int)
    requires
        screen.x == 0,
        screen.y == 0,
        is_split(rows, screen_rules(), screen, Direction::Vertical),
        0 <= i < scene_of(screen, rows, app).len(),
    ensures
        holds_popup(screen),
        is_inside(scene_of(screen, rows, app)[i].area, screen),
{
    assert(is_piece(rows[0], screen, Direction::Vertical));
    assert(is_piece(rows[1], screen, Direction::Vertical));
    assert(is_piece(rows[2], screen, Direction::Vertical));
    law_columns_cover(rows[1]);
    law_centered_rect_is_in_the_middle(70, 8, screen);
    law_centered_rect_is_in_the_middle(64, 9, screen);
    law_centered_rect_is_in_the_middle(56, 7, screen);
    law_shadow_stays_on_screen(centered_in(70, 8, screen), screen);
    law_shadow_stays_on_screen(centered_in(64, 9, screen), screen);
    law_shadow_stays_on_screen(centered_in(56, 7, screen), screen);
    assert(mode_of(screen, app).len() == 0 || mode_of(screen, app).len() == 3);
}

/// While the list is looked through nothing lies over it; otherwise one popup does, and it is
/// drawn last.
pub proof fn law_popup_is_drawn_last(screen: Rect, rows: Seq<Rect>, app: TuiView)
    ensures
        ({
            let scene = scene_of(screen, rows, app);
            let below = scene_of(screen, rows, TuiView { mode: ModeView::Browse, ..app });
            &&& below.len() == 4
            &&& app.mode is Browse ==> scene == below
            &&& !(app.mode is Browse) ==> {
                &&& scene.len() == 7
                &&& scene.take(4) == below
                &&& scene[4].widget == WidgetView::Fill(Tone::Shadow)
                &&& scene[5] == (DrawnView { area: scene[6].area, widget: WidgetView::Clear })
                &&& scene[6].widget is Text
            }
        }),
{
    let idle = TuiView { mode: ModeView::Browse, ..app };
    let scene = scene_of(screen, rows, app);
    let below = scene_of(screen, rows, idle);
    assert(header_of(rows[0], app) == header_of(rows[0], idle));
    assert(list_of(columns_of(rows[1]).0, app) =~= list_of(columns_of(rows[1]).0, idle));
    assert(details_of(columns_of(rows[1]).1, app) =~= details_of(columns_of(rows[1]).1, idle));
    if app.mode is Browse {
        assert(app =~= idle);
    } else {
        assert(mode_of(screen, app).len() == 3);
        assert(scene.take(4) =~= below);
    }
}

/// The list shows every worktree in its place, by its branch, and marks the selected one.
pub proof fn law_list_shows_every_worktree(area: Rect, app: TuiView)
    requires
        app.worktrees.len() > 0,
    ensures
        list_of(area, app).widget matches WidgetView::Choices { items, selected, .. } && {
            &&& items.len() == app.worktrees.len()
            &&& selected == app.selected
            &&& forall|i: int|
                0 <= i < items.len() ==> (#[trigger] items[i]).len() == 3 && items[i][1].text
                    == label_of(app.worktrees[i])
        },
{
}

/// The values in the details of a worktree stand in one column.
pub proof fn law_details_are_aligned(width: u16, worktree: WorktreeView, row: int)
    requires
        1 <= row <= 4 || row == 8,
    ensures
        detail_lines(width, worktree)[row].len() == 2,
        detail_lines(width, worktree)[row][0].text.len() == 7,
{
    reveal_strlit("");
    reveal_strlit("branch");
    reveal_strlit("head");
    reveal_strlit("path");
    reveal_strlit("state");
    reveal_strlit("open");
}

/// Whether no text of some lines has a background of its own.
pub open spec fn only_foreground(lines: Seq<Seq<SpanView>>) -> bool {
    forall|i: int, j: int|
        0 <= i < lines.len() && 0 <= j < lines[i].len() ==> (#[trigger] lines[i][j]).style.bg
            is None
}

/// The selected worktree is the only text with a background of its own; the rest has that of the
/// terminal. Besides it, only the shadow of a popup is filled.
pub proof fn law_only_selection_is_filled(screen: Rect, rows: Seq<Rect>, app: TuiView, i: int)
    requires
        0 <= i < scene_of(screen, rows, app).len(),
    ensures
        match scene_of(screen, rows, app)[i].widget {
            WidgetView::Text { lines, .. } => only_foreground(lines),
            WidgetView::Choices { items, highlight, .. } => only_foreground(items) && highlight.bg
                == Some(Tone::Selection),
            WidgetView::Clear => true,
            WidgetView::Fill(tone) => tone == Tone::Shadow,
        },
{
    let (left, right) = columns_of(rows[1]);
    assert(only_foreground(header_of(rows[0], app).widget->Text_lines));
    if app.worktrees.len() == 0 {
        assert(only_foreground(list_of(left, app).widget->Text_lines));
    } else {
        assert(only_foreground(list_of(left, app).widget->items));
    }
    assert(only_foreground(details_of(right, app).widget->Text_lines));
    assert(only_foreground(footer_of(rows[2], app).widget->Text_lines));
    assert(mode_of(screen, app).len() == 0 || mode_of(screen, app).len() == 3);
    if mode_of(screen, app).len() == 3 {
        assert(only_foreground(mode_of(screen, app)[2].widget->Text_lines));
    }
}

/// Text has the terminal's colours, or a colour of its own, and is bold or not.
pub proof fn law_styles_are_what_they_are_called(tone: Tone)
    ensures
        plain() == (Style { fg: None, bg: None, bold: false }),
        colored(tone) == (Style { fg: Some(tone), bg: None, bold: false }),
        bold(tone) == (Style { fg: Some(tone), bg: None, bold: true }),
{
}

/// A panel shows its title between blanks, in the accent. The border of the one that has the focus
/// has the accent, and that of another is faint. A popup has its border and its title in the same
/// colour.
pub proof fn law_panels_show_their_title(title: Seq<char>, tone: Tone, padded: bool)
    ensures
        panel_of(title, true).title == Some(span(" "@ + title + " "@, bold(Tone::Accent))),
        panel_of(title, false).title == panel_of(title, true).title,
        panel_of(title, true).border == Tone::Accent,
        panel_of(title, false).border == Tone::Faint,
        panel_of(title, true).padded && panel_of(title, false).padded,
        popup_panel(title, tone, padded).title == Some(span(" "@ + title + " "@, bold(tone))),
        popup_panel(title, tone, padded).border == tone,
        popup_panel(title, tone, padded).padded == padded,
{
}

/// The head of the screen has one line. It shows the program, how many worktrees there are, and
/// the root of the repository.
pub proof fn law_header_shows_count_and_root(area: Rect, app: TuiView)
    ensures
        header_of(area, app).area == area,
        header_of(area, app).widget matches WidgetView::Text { lines, centered, wrap, panel } && {
            &&& lines.len() == 1
            &&& lines[0].len() == 6
            &&& lines[0][0].text == " 🌳 lazytrees "@
            &&& lines[0][1].text == "│ "@
            &&& lines[0][2].text == decimal(app.worktrees.len())
            &&& app.worktrees.len() == 1 ==> lines[0][3].text == " worktree "@
            &&& app.worktrees.len() != 1 ==> lines[0][3].text == " worktrees "@
            &&& lines[0][4].text == "│ "@
            &&& lines[0][5].text == app.repo.root
            &&& lines[0][0].style == bold(Tone::Accent)
            &&& lines[0][2].style == bold(Tone::Accent)
            &&& lines[0][3].style == colored(Tone::Muted)
            &&& lines[0][5].style == colored(Tone::Text)
            &&& !centered
            &&& !wrap
            &&& panel.title is None
            &&& panel.border == Tone::Faint
            &&& !panel.padded
        },
{
}

/// A worktree that can be pruned has a warning for its mark. Otherwise a bare one, a detached one
/// and a normal one have each their own.
pub proof fn law_marks_tell_worktrees_apart(worktree: WorktreeView)
    ensures
        worktree.prunable ==> glyph_of(worktree) == ("⚠"@, colored(Tone::Warn)),
        !worktree.prunable && worktree.bare ==> glyph_of(worktree) == ("◇"@, colored(Tone::Muted)),
        !worktree.prunable && !worktree.bare && worktree.detached ==> glyph_of(worktree) == (
            "⚲"@,
            colored(Tone::Accent),
        ),
        !worktree.prunable && !worktree.bare && !worktree.detached ==> glyph_of(worktree) == (
            "●"@,
            colored(Tone::Good),
        ),
        worktree.prunable ==> state_tone(worktree) == Tone::Warn,
        !worktree.prunable && (worktree.bare || worktree.detached) ==> state_tone(worktree)
            == Tone::Accent,
        !worktree.prunable && !worktree.bare && !worktree.detached ==> state_tone(worktree)
            == Tone::Good,
{
}

/// The list shows each worktree, in its place, by its mark, its label, and the last name of its
/// path, or all of the path where it has none. The selected place is marked. Without worktrees it
/// says what to do.
pub proof fn law_list_shows_mark_label_and_name(area: Rect, app: TuiView, i: int)
    ensures
        list_of(area, app).area == area,
        app.worktrees.len() == 0 ==> (list_of(area, app).widget matches WidgetView::Text {
            lines,
            centered,
            panel,
            ..
        } && {
            &&& lines.len() == 3
            &&& lines[0].len() == 0
            &&& lines[1].len() == 1
            &&& lines[1][0] == span("No worktrees yet"@, colored(Tone::Muted))
            &&& lines[2].len() == 1
            &&& lines[2][0] == span("Press n to create one"@, colored(Tone::Faint))
            &&& centered
            &&& panel == panel_of("Worktrees"@, true)
        }),
        app.worktrees.len() > 0 && 0 <= i < app.worktrees.len() ==> (list_of(
            area,
            app,
        ).widget matches WidgetView::Choices { items, selected, panel, highlight, symbol } && {
            let worktree = app.worktrees[i];
            &&& items.len() == app.worktrees.len()
            &&& items[i].len() == 3
            &&& items[i][0] == span(glyph_of(worktree).0 + " "@, glyph_of(worktree).1)
            &&& items[i][1].text == label_of(worktree)
            &&& worktree.prunable ==> items[i][1].style == colored(Tone::Warn)
            &&& !worktree.prunable ==> items[i][1].style == bold(Tone::Text)
            &&& name_of(worktree.path) matches Some(name) ==> items[i][2].text == "  "@ + name
            &&& name_of(worktree.path) is None ==> items[i][2].text == "  "@ + worktree.path
            &&& items[i][2].style == colored(Tone::Faint)
            &&& selected == app.selected
            &&& panel == panel_of("Worktrees"@, true)
            &&& highlight == (Style {
                fg: Some(Tone::Accent),
                bg: Some(Tone::Selection),
                bold: true,
            })
            &&& symbol == "▎"@
        }),
{
}

/// What is particular about a worktree is told in words, with commas between them, and a worktree
/// with nothing particular about it is normal.
pub proof fn law_state_is_told_in_words(worktree: WorktreeView)
    ensures
        !worktree.bare && !worktree.detached && !worktree.prunable ==> state_of(worktree)
            == "normal"@,
        worktree.bare && !worktree.detached && !worktree.prunable ==> state_of(worktree)
            == "bare"@,
        !worktree.bare && worktree.detached && !worktree.prunable ==> state_of(worktree)
            == "detached"@,
        !worktree.bare && !worktree.detached && worktree.prunable ==> state_of(worktree)
            == "prunable"@,
        worktree.bare && worktree.detached && !worktree.prunable ==> state_of(worktree) == "bare"@
            + ", "@ + "detached"@,
        worktree.bare && !worktree.detached && worktree.prunable ==> state_of(worktree) == "bare"@
            + ", "@ + "prunable"@,
        !worktree.bare && worktree.detached && worktree.prunable ==> state_of(worktree)
            == "detached"@ + ", "@ + "prunable"@,
        worktree.bare && worktree.detached && worktree.prunable ==> state_of(worktree) == "bare"@
            + ", "@ + "detached"@ + ", "@ + "prunable"@,
{
    reveal_with_fuel(joined, 4);
    let states = states_of(worktree);
    let none: Seq<Seq<char>> = seq![];
    if states.len() == 3 {
        assert(states =~= seq!["bare"@, "detached"@, "prunable"@]);
        assert(states.drop_last() =~= seq!["bare"@, "detached"@]);
        assert(states.drop_last().drop_last() =~= seq!["bare"@]);
    } else if states.len() == 2 {
        assert(states =~= seq![states[0], states[1]]);
        assert(states.drop_last() =~= seq![states[0]]);
    }
}

/// The details are those of the worktree at the selected place: its label, its commit cut short,
/// its path and its state, each behind its word, and that it is opened with the agent.
pub proof fn law_details_are_of_selected_worktree(area: Rect, app: TuiView)
    requires
        0 <= app.selected < app.worktrees.len(),
    ensures
        details_of(area, app).area == area,
        details_of(area, app).widget matches WidgetView::Text { lines, panel, centered, wrap } && {
            let worktree = app.worktrees[app.selected];
            &&& lines.len() == 9
            &&& lines[0].len() == 0 && lines[5].len() == 0 && lines[7].len() == 0
            &&& lines[1].len() == 2
            &&& forall|row: int|
                1 <= row <= 4 || row == 8 ==> (#[trigger] lines[row])[0].style == colored(
                    Tone::Muted,
                )
            &&& lines[1][0].text == "branch "@
            &&& lines[1][1] == span(label_of(worktree), colored(Tone::Text))
            &&& lines[2].len() == 2
            &&& lines[2][0].text == "head   "@
            &&& worktree.head matches Some(head) ==> lines[2][1].text == short_of(head)
            &&& worktree.head is None ==> lines[2][1].text == "-"@
            &&& lines[2][1].style == colored(Tone::Accent)
            &&& lines[3].len() == 2
            &&& lines[3][0].text == "path   "@
            &&& lines[3][1] == span(worktree.path, colored(Tone::Text))
            &&& lines[4].len() == 2
            &&& lines[4][0].text == "state  "@
            &&& lines[4][1] == span(state_of(worktree), colored(state_tone(worktree)))
            &&& lines[6].len() == 1
            &&& lines[6][0].text.len() == if area.width > 4 {
                area.width - 4
            } else {
                0
            }
            &&& lines[8].len() == 2
            &&& lines[8][0].text == "open   "@
            &&& lines[8][1] == span("agent"@, colored(Tone::Good))
            &&& panel == panel_of("Details"@, false)
            &&& !centered
            &&& wrap
        },
{
    reveal_strlit("");
    reveal_strlit("branch");
    reveal_strlit("branch ");
    reveal_strlit("head");
    reveal_strlit("head   ");
    reveal_strlit("path");
    reveal_strlit("path   ");
    reveal_strlit("state");
    reveal_strlit("state  ");
    reveal_strlit("open");
    reveal_strlit("open   ");
    assert(""@ + padded("branch"@, 7) =~= "branch "@);
    assert(""@ + padded("head"@, 7) =~= "head   "@);
    assert(""@ + padded("path"@, 7) =~= "path   "@);
    assert(""@ + padded("state"@, 7) =~= "state  "@);
    assert(""@ + padded("open"@, 7) =~= "open   "@);
}

/// Without a selected worktree the details say so.
pub proof fn law_details_without_selection(area: Rect, app: TuiView)
    requires
        app.selected < 0 || app.selected >= app.worktrees.len(),
    ensures
        details_of(area, app).area == area,
        details_of(area, app).widget matches WidgetView::Text { lines, panel, .. } && {
            &&& lines.len() == 2
            &&& lines[0].len() == 0
            &&& lines[1].len() == 1
            &&& lines[1][0] == span("No worktree selected."@, colored(Tone::Muted))
            &&& panel == panel_of("Details"@, false)
        },
{
}

/// The rule in the details is a row of dashes, and blanks behind a label fill it up to its width.
pub proof fn law_filling_is_all_alike(width: u16, worktree: WorktreeView, label: Seq<char>, i: int)
    ensures
        0 <= i < detail_lines(width, worktree)[6][0].text.len() ==> detail_lines(
            width,
            worktree,
        )[6][0].text[i] == '─',
        label.len() < 7 ==> padded(label, 7).len() == 7,
        label.len() >= 7 ==> padded(label, 7) == label,
        0 <= i < label.len() ==> padded(label, 7)[i] == label[i],
        label.len() <= i < padded(label, 7).len() ==> padded(label, 7)[i] == ' ',
{
    assert(label.len() >= 7 ==> padded(label, 7) =~= label);
}

/// The foot of the screen shows what the interface last had to say, by its mark and colour, then
/// each key with what it does, and below that where new worktrees go.
pub proof fn law_footer_shows_status_and_keys(area: Rect, app: TuiView)
    ensures
        footer_of(area, app).area == area,
        footer_of(area, app).widget matches WidgetView::Text { lines, panel, centered, wrap } && {
            let tone = if app.status.kind == StatusKind::Info {
                Tone::Good
            } else {
                Tone::Bad
            };
            &&& lines.len() == 2
            &&& lines[0].len() == 21
            &&& app.status.kind == StatusKind::Info ==> lines[0][0].text == "✓"@ + " "@
            &&& app.status.kind == StatusKind::Error ==> lines[0][0].text == "✗"@ + " "@
            &&& lines[0][0].style == bold(tone)
            &&& lines[0][1] == span(app.status.text, colored(tone))
            &&& lines[0][2].text == "    "@
            &&& lines[0][3].text == "↵"@ && lines[0][4].text == " "@ + "open"@
            &&& lines[0][6].text == "n"@ && lines[0][7].text == " "@ + "new"@
            &&& lines[0][9].text == "d"@ && lines[0][10].text == " "@ + "remove"@
            &&& lines[0][12].text == "p"@ && lines[0][13].text == " "@ + "prune"@
            &&& lines[0][15].text == "r"@ && lines[0][16].text == " "@ + "refresh"@
            &&& lines[0][18].text == "q"@ && lines[0][19].text == " "@ + "quit"@
            &&& lines[1].len() == 2
            &&& lines[1][0].text == "default parent  "@
            &&& lines[1][1] == span(app.repo.default_worktree_parent, colored(Tone::Muted))
            &&& panel.title is None
            &&& panel.border == Tone::Faint
            &&& panel.padded
            &&& !centered
            &&& !wrap
        },
{
}

/// A key is shown in bold, what it does behind it, muted, and three blanks follow.
pub proof fn law_hint_shows_key_and_label(key: Seq<char>, label: Seq<char>)
    ensures
        hint_of(key, label).len() == 3,
        hint_of(key, label)[0] == span(key, bold(Tone::Accent)),
        hint_of(key, label)[1] == span(" "@ + label, colored(Tone::Muted)),
        hint_of(key, label)[2] == span("   "@, plain()),
{
}

/// The middle of the screen shows the list on the left and the details on the right.
pub proof fn law_body_shows_list_and_details(area: Rect, app: TuiView)
    ensures
        body_of(area, app).len() == 2,
        body_of(area, app)[0] == list_of(columns_of(area).0, app),
        body_of(area, app)[1] == details_of(columns_of(area).1, app),
{
}

/// A dialog shows what was typed, with a cursor behind it, then the default where there is one,
/// and the keys that accept and cancel.
pub proof fn law_dialog_shows_what_was_typed(input: Seq<char>, default: Seq<char>)
    ensures
        ({
            let bare = prompt_lines(input, None);
            let full = prompt_lines(input, Some(default));
            &&& bare.len() == 4
            &&& full.len() == 5
            &&& bare[0].len() == 0 && full[0].len() == 0
            &&& bare[1] == full[1]
            &&& full[1].len() == 3
            &&& full[1][0].text == "❯ "@
            &&& full[1][1] == span(input, bold(Tone::Text))
            &&& full[1][2].text == "█"@
            &&& full[2].len() == 2
            &&& full[2][0].text == "  default  "@
            &&& full[2][1] == span(default, colored(Tone::Muted))
            &&& bare[2].len() == 0 && full[3].len() == 0
            &&& bare[3] == full[4]
            &&& full[4].len() == 4
            &&& full[4][0].text == "↵"@
            &&& full[4][1].text == " accept    "@
            &&& full[4][2].text == "esc"@
            &&& full[4][3].text == " cancel"@
        }),
{
}

/// What stands over the list: nothing while it is looked through; the dialog for the branch, for
/// the base with `HEAD` as its default, or for the path with the default path; or the
/// confirmation of a removal or of a pruning. The popup is in the middle of the screen, over its
/// shadow.
pub proof fn law_popup_is_for_the_mode(screen: Rect, app: TuiView)
    ensures
        ({
            let drawn = mode_of(screen, app);
            let prompt = centered_in(70, 8, screen);
            let over = |area: Rect|
                {
                    &&& drawn.len() == 3
                    &&& drawn[0].area == shadow_of(area, screen)
                    &&& drawn[0].widget == WidgetView::Fill(Tone::Shadow)
                    &&& drawn[1].area == area
                    &&& drawn[1].widget is Clear
                    &&& drawn[2].area == area
                };
            match app.mode {
                ModeView::Browse => drawn.len() == 0,
                ModeView::NewBranch { input } => over(prompt) && drawn[2].widget == (
                WidgetView::Text {
                    lines: prompt_lines(input, None),
                    panel: popup_panel("New worktree branch"@, Tone::Accent, true),
                    centered: false,
                    wrap: true,
                }),
                ModeView::NewBase { input, .. } => over(prompt) && drawn[2].widget == (
                WidgetView::Text {
                    lines: prompt_lines(input, Some("HEAD"@)),
                    panel: popup_panel("Base ref"@, Tone::Accent, true),
                    centered: false,
                    wrap: true,
                }),
                ModeView::NewPath { branch, input, .. } => over(prompt) && drawn[2].widget == (
                WidgetView::Text {
                    lines: prompt_lines(input, Some(default_path_of(app.repo, branch))),
                    panel: popup_panel("Worktree path"@, Tone::Accent, true),
                    centered: false,
                    wrap: true,
                }),
                ModeView::ConfirmRemove { path, branch } => {
                    &&& over(centered_in(64, 9, screen))
                    &&& drawn[2].widget matches WidgetView::Text { lines, panel, centered, wrap }
                    &&& lines.len() == 6
                    &&& lines[0].len() == 0 && lines[4].len() == 0
                    &&& lines[1].len() == 1
                    &&& lines[1][0] == span("Remove selected worktree?"@, bold(Tone::Text))
                    &&& lines[2].len() == 2
                    &&& lines[2][0].text == "branch  "@
                    &&& lines[2][1].text == branch
                    &&& lines[3].len() == 2
                    &&& lines[3][0].text == "path    "@
                    &&& lines[3][1].text == path
                    &&& lines[5] == confirm_line()
                    &&& panel == popup_panel("Confirm remove"@, Tone::Bad, false)
                    &&& centered
                    &&& wrap
                },
                ModeView::ConfirmPrune => {
                    &&& over(centered_in(56, 7, screen))
                    &&& drawn[2].widget matches WidgetView::Text { lines, panel, centered, wrap }
                    &&& lines.len() == 4
                    &&& lines[0].len() == 0 && lines[2].len() == 0
                    &&& lines[1].len() == 1
                    &&& lines[1][0] == span("Run git worktree prune?"@, bold(Tone::Text))
                    &&& lines[3] == confirm_line()
                    &&& panel == popup_panel("Confirm prune"@, Tone::Warn, false)
                    &&& centered
                    &&& !wrap
                },
            }
        }),
{
}

/// A confirmation shows that `y` confirms and `n` cancels.
pub proof fn law_confirmation_shows_keys()
    ensures
        confirm_line().len() == 4,
        confirm_line()[0] == span("y"@, bold(Tone::Good)),
        confirm_line()[1] == span(" confirm    "@, colored(Tone::Muted)),
        confirm_line()[2] == span("n"@, bold(Tone::Bad)),
        confirm_line()[3] == span(" cancel"@, colored(Tone::Muted)),
{
}

/// The screen shows head, middle and foot, each in its rows, and then what stands over them.
pub proof fn law_screen_shows_everything(screen: Rect, rows: Seq<Rect>, app: TuiView)
    ensures
        ({
            let scene = scene_of(screen, rows, app);
            &&& scene.len() == 4 + mode_of(screen, app).len()
            &&& scene[0] == header_of(rows[0], app)
            &&& scene[1] == list_of(columns_of(rows[1]).0, app)
            &&& scene[2] == details_of(columns_of(rows[1]).1, app)
            &&& scene[3] == footer_of(rows[2], app)
            &&& scene.skip(4) == mode_of(screen, app)
        }),
{
    assert(scene_of(screen, rows, app).skip(4) =~= mode_of(screen, app));
}

} // verus!
