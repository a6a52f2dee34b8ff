//! Where things stand on the screen.
use ratatui::layout::{Constraint as Rule, Direction as Axis, Layout, Rect as Cells};
use vstd::prelude::*;

verus! {

/// A rectangle of cells.
#[derive(Debug, Clone, Copy, PartialEq, Eq, Structural)]
pub struct Rect {
    pub x: u16,
    pub y: u16,
    pub width: u16,
    pub height: u16,
}

/// The axis along which a rectangle is cut.
#[derive(Debug, Clone, Copy, PartialEq, Eq, Structural)]
pub enum Direction {
    Horizontal,
    Vertical,
}

/// How long a piece of a rectangle is to be.
#[derive(Debug, Clone, Copy, PartialEq, Eq, Structural)]
pub enum Constraint {
    /// So many cells.
    Length(u16),
    /// So many cells at least.
    Min(u16),
    /// So many hundredths of the whole.
    Percentage(u16),
}

/// The first cell of a rectangle along an axis.
pub open spec fn start_of(area: Rect, direction: Direction) -> int {
    match direction {
        Direction::Horizontal => area.x as int,
        Direction::Vertical => area.y as int,
    }
}

/// The cells of a rectangle along an axis.
pub open spec fn length_of(area: Rect, direction: Direction) -> int {
    match direction {
        Direction::Horizontal => area.width as int,
        Direction::Vertical => area.height as int,
    }
}

/// The cells of a rectangle along an axis that have a coordinate.
pub open spec fn room_of(area: Rect, direction: Direction) -> int {
    let (start, length) = (start_of(area, direction), length_of(area, direction));
    if start + length <= u16::MAX {
        length
    } else {
        u16::MAX - start
    }
}

/// Whether a rectangle is cut out of another across an axis: along it, it lies inside the other,
/// and across it, both are the same.
pub open spec fn is_piece(piece: Rect, area: Rect, direction: Direction) -> bool {
    let across = match direction {
        Direction::Horizontal => Direction::Vertical,
        Direction::Vertical => Direction::Horizontal,
    };
    &&& start_of(area, direction) <= start_of(piece, direction)
    &&& start_of(piece, direction) + length_of(piece, direction) <= start_of(area, direction)
        + room_of(area, direction)
    &&& start_of(piece, direction) <= start_of(area, direction) + room_of(area, direction)
    &&& start_of(piece, across) == start_of(area, across)
    &&& length_of(piece, across) == length_of(area, across)
}

/// What a piece gets, in hundredths of a cell, of a whole with so many cells. Of what the others
/// leave, each piece with a least length gets the same share.
pub open spec fn given(constraint: Constraint, length: int, share: int) -> int {
    match constraint {
        Constraint::Length(cells) => 100 * cells,
        Constraint::Min(_) => share,
        Constraint::Percentage(percent) => percent * length,
    }
}

/// What the first `count` pieces get together, in hundredths of a cell.
pub open spec fn given_before(
    constraints: Seq<Constraint>,
    length: int,
    share: int,
    count: int,
) -> int
    decreases count,
{
    if count <= 0 {
        0
    } else {
        given_before(constraints, length, share, count - 1) + given(
            constraints[count - 1],
            length,
            share,
        )
    }
}

/// How many of the first `count` pieces have a least length.
pub open spec fn growing_before(constraints: Seq<Constraint>, count: int) -> int
    decreases count,
{
    if count <= 0 {
        0
    } else {
        growing_before(constraints, count - 1) + if constraints[count - 1] is Min {
            1int
        } else {
            0
        }
    }
}

/// What the pieces with a length of their own leave, in hundredths of a cell.
pub open spec fn left_over(constraints: Seq<Constraint>, length: int) -> int {
    100 * length - given_before(constraints, length, 0, constraints.len() as int)
}

/// What each piece with a least length gets, in hundredths of a cell.
pub open spec fn share_of(constraints: Seq<Constraint>, length: int) -> int {
    let growing = growing_before(constraints, constraints.len() as int);
    if growing == 0 {
        0
    } else {
        left_over(constraints, length) / growing
    }
}

/// Whether every piece can get what it asks for, with nothing left to round in what is shared.
pub open spec fn all_fit(constraints: Seq<Constraint>, length: int) -> bool {
    let growing = growing_before(constraints, constraints.len() as int);
    &&& left_over(constraints, length) >= 0
    &&& growing <= 2
    &&& growing > 0 ==> left_over(constraints, length) % growing == 0
    &&& forall|i: int|
        0 <= i < constraints.len() ==> (#[trigger] constraints[i] matches Constraint::Min(least)
            ==> 100 * least <= share_of(constraints, length))
}

/// The cell that is nearest to a place in hundredths of a cell.
pub open spec fn nearest(hundredths: int) -> int {
    (hundredths + 50) / 100
}

/// The coordinate at which piece `i` of a rectangle begins, and the one before it ends.
pub open spec fn cut(
    constraints: Seq<Constraint>,
    area: Rect,
    direction: Direction,
    i: int,
) -> int {
    let length = room_of(area, direction);
    start_of(area, direction) + nearest(
        given_before(constraints, length, share_of(constraints, length), i),
    )
}

/// Where a piece of a rectangle ends along an axis.
pub open spec fn end_of(piece: Rect, direction: Direction) -> int {
    start_of(piece, direction) + length_of(piece, direction)
}

/// Whether a piece with a least length, between two with a length of their own, goes before them
/// where there is too little room for all three: it has its least length, or all the room there
/// is; the other two share what it leaves, and neither is longer than it asks to be. The three
/// stand one behind the other, and nothing is left over. The least length is one that fits in a
/// signed number of 16 bits.
pub open spec fn middle_goes_first(
    pieces: Seq<Rect>,
    constraints: Seq<Constraint>,
    area: Rect,
    direction: Direction,
) -> bool {
    let room = room_of(area, direction);
    (constraints.len() == 3 && !all_fit(constraints, room)) ==> match (
        constraints[0],
        constraints[1],
        constraints[2],
    ) {
        (
            Constraint::Length(first),
            Constraint::Min(middle),
            Constraint::Length(last),
        ) => middle <= i16::MAX ==> {
            &&& start_of(pieces[0], direction) == start_of(area, direction)
            &&& start_of(pieces[1], direction) == end_of(pieces[0], direction)
            &&& start_of(pieces[2], direction) == end_of(pieces[1], direction)
            &&& end_of(pieces[2], direction) == start_of(area, direction) + room
            &&& length_of(pieces[0], direction) <= first
            &&& length_of(pieces[1], direction) == least(middle as int, room)
            &&& length_of(pieces[2], direction) <= last
        },
        _ => true,
    }
}

/// Whether a piece with a length of its own, between two that may be empty, takes all the room
/// where that is less than its length.
pub open spec fn length_takes_all(
    pieces: Seq<Rect>,
    constraints: Seq<Constraint>,
    area: Rect,
    direction: Direction,
) -> bool {
    let (start, room) = (start_of(area, direction), room_of(area, direction));
    constraints.len() == 3 ==> match (constraints[0], constraints[1], constraints[2]) {
        (
            Constraint::Min(0),
            Constraint::Length(middle),
            Constraint::Min(0),
        ) => middle > room ==> {
            &&& start_of(pieces[0], direction) == end_of(pieces[0], direction) == start
            &&& start_of(pieces[1], direction) == start
            &&& end_of(pieces[1], direction) == start + room
            &&& start_of(pieces[2], direction) == end_of(pieces[2], direction) == start + room
        },
        _ => true,
    }
}

/// Whether rectangles are the pieces of another, one for each constraint, each of the length that
/// it asks for wherever all of that fits. Where it does not, a least length goes before a length,
/// and a length is met as far as there is room.
pub open spec fn is_split(
    pieces: Seq<Rect>,
    constraints: Seq<Constraint>,
    area: Rect,
    direction: Direction,
) -> bool {
    &&& pieces.len() == constraints.len()
    &&& forall|i: int| 0 <= i < pieces.len() ==> is_piece(#[trigger] pieces[i], area, direction)
    &&& all_fit(constraints, room_of(area, direction)) ==> forall|i: int|
        0 <= i < pieces.len() ==> {
            &&& start_of(#[trigger] pieces[i], direction) == cut(constraints, area, direction, i)
            &&& end_of(pieces[i], direction) == cut(constraints, area, direction, i + 1)
        }
    &&& middle_goes_first(pieces, constraints, area, direction)
    &&& length_takes_all(pieces, constraints, area, direction)
}

/// Cuts a rectangle into pieces, one behind the other, by `ratatui::layout::Layout::split` with
/// the default settings of a `Layout`. It is believed of that function that there is one piece for
/// each constraint, that each lies inside the rectangle and takes all of it across the axis, and
/// that each constraint is met where all can be: a length and a percentage as they are, and the
/// pieces with a least length share evenly what is left; the ends of the pieces are rounded to the
/// nearest cell. Where they cannot all be met, a least length is documented to go before a length;
/// that is said of one least length between two lengths, as long as it can be cast to `i16`. A
/// length between two least lengths of zero takes all the room where it asks for more. Which of two
/// lengths gives way is left unsaid: it is up to a solver for which no order among equals is
/// documented. So is what becomes of other constraints that cannot all be met.
#[verifier::external_body]
fn split(direction: Direction, constraints: &Vec<Constraint>, area: Rect) -> (r: Vec<Rect>)
    ensures
        is_split(r@, constraints@, area, direction),
{
    let axis = match direction {
        Direction::Horizontal => Axis::Horizontal,
        Direction::Vertical => Axis::Vertical,
    };
    let rules = constraints.iter().map(|c| match *c {
        Constraint::Length(n) => Rule::Length(n),
        Constraint::Min(n) => Rule::Min(n),
        Constraint::Percentage(p) => Rule::Percentage(p),
    });
    let whole = Cells { x: area.x, y: area.y, width: area.width, height: area.height };
    let pieces = Layout::default().direction(axis).constraints(rules).split(whole);
    pieces.iter().map(|p| Rect { x: p.x, y: p.y, width: p.width, height: p.height }).collect()
}

/// How the screen is cut from top to bottom: the head, the middle, which is as high as it can be,
/// and the foot.
pub open spec fn screen_rules() -> Seq<Constraint> {
    seq![Constraint::Length(3), Constraint::Min(8), Constraint::Length(4)]
}

/// Cuts the screen from top to bottom.
pub fn screen_rows(area: Rect) -> (r: Vec<Rect>)
    ensures
        is_split(r@, screen_rules(), area, Direction::Vertical),
{
    let rules: Vec<Constraint> = vec![
        Constraint::Length(3),
        Constraint::Min(8),
        Constraint::Length(4),
    ];
    assert(rules@ =~= screen_rules());
    split(Direction::Vertical, &rules, area)
}

/// How the middle of the screen is cut from left to right: the list and the details.
pub open spec fn body_rules() -> Seq<Constraint> {
    seq![Constraint::Percentage(48), Constraint::Percentage(52)]
}

/// The two columns of the middle of the screen.
pub open spec fn columns_of(area: Rect) -> (Rect, Rect) {
    let room = room_of(area, Direction::Horizontal);
    let edge = nearest(48 * room);
    (
        Rect { width: edge as u16, ..area },
        Rect { x: (area.x + edge) as u16, width: (room - edge) as u16, ..area },
    )
}

/// Cuts the middle of the screen from left to right.
pub fn body_columns(area: Rect) -> (r: (Rect, Rect))
    ensures
        r == columns_of(area),
{
    let rules: Vec<Constraint> = vec![Constraint::Percentage(48), Constraint::Percentage(52)];
    assert(rules@ =~= body_rules());
    let pieces: Vec<Rect> = split(Direction::Horizontal, &rules, area);
    proof {
        reveal_with_fuel(given_before, 3);
        reveal_with_fuel(growing_before, 3);
        let room = room_of(area, Direction::Horizontal);
        assert(all_fit(body_rules(), room));
        assert(cut(body_rules(), area, Direction::Horizontal, 0) == area.x);
        assert(cut(body_rules(), area, Direction::Horizontal, 1) == area.x + nearest(48 * room));
        assert(cut(body_rules(), area, Direction::Horizontal, 2) == area.x + room);
        assert(pieces@[0].x == area.x && pieces@[1].x == area.x + nearest(48 * room));
    }
    (pieces[0], pieces[1])
}

/// How a rectangle is cut so that the middle piece has so many cells.
pub open spec fn middle_rules(length: u16) -> Seq<Constraint> {
    seq![Constraint::Min(0), Constraint::Length(length), Constraint::Min(0)]
}

/// How a rectangle is cut so that the middle piece has so many hundredths of it.
pub open spec fn middle_percent_rules(percent: u16) -> Seq<Constraint> {
    let side = ((100 - percent) / 2) as u16;
    seq![
        Constraint::Percentage(side),
        Constraint::Percentage(percent),
        Constraint::Percentage(side),
    ]
}

/// The lesser of two numbers.
pub open spec fn least(a: int, b: int) -> int {
    if a <= b {
        a
    } else {
        b
    }
}

/// Whether every cell of a rectangle has a coordinate.
pub open spec fn on_grid(area: Rect) -> bool {
    area.x + area.width <= u16::MAX && area.y + area.height <= u16::MAX
}

/// Whether a rectangle lies inside another.
pub open spec fn is_inside(inner: Rect, area: Rect) -> bool {
    &&& area.x <= inner.x <= inner.x + inner.width <= area.x + area.width
    &&& area.y <= inner.y <= inner.y + inner.height <= area.y + area.height
}

/// The rectangle in the middle of another, with so many hundredths of its width and with the given
/// height, or all of its height where that is less. Cells without a coordinate do not count.
pub open spec fn centered_in(percent_x: u16, height: u16, area: Rect) -> Rect {
    let wide = room_of(area, Direction::Horizontal);
    let high = room_of(area, Direction::Vertical);
    let left = nearest((100 - percent_x) / 2 * wide);
    let right = nearest(((100 - percent_x) / 2 + percent_x) * wide);
    let rows = least(height as int, high);
    Rect {
        x: (area.x + left) as u16,
        y: (area.y + nearest(50 * (high - rows))) as u16,
        width: (right - left) as u16,
        height: rows as u16,
    }
}

/// The rectangle in the middle of another, with so many hundredths of its width and with the given
/// height, or all of its height where that is less.
pub fn centered_rect(percent_x: u16, height: u16, area: Rect) -> (r: Rect)
    requires
        percent_x <= 100,
    ensures
        r == centered_in(percent_x, height, area),
        is_inside(r, area),
{
    let rows: u16 = if height <= area.height {
        height
    } else {
        area.height
    };
    let side: u16 = (100 - percent_x) / 2;
    let rules: Vec<Constraint> = vec![
        Constraint::Min(0),
        Constraint::Length(rows),
        Constraint::Min(0),
    ];
    assert(rules@ =~= middle_rules(rows));
    let vertical: Vec<Rect> = split(Direction::Vertical, &rules, area);
    let band: Rect = vertical[1];
    let rules: Vec<Constraint> = vec![
        Constraint::Percentage(side),
        Constraint::Percentage(percent_x),
        Constraint::Percentage(side),
    ];
    assert(rules@ =~= middle_percent_rules(percent_x));
    let horizontal: Vec<Rect> = split(Direction::Horizontal, &rules, band);
    proof {
        assert(is_piece(vertical@[1], area, Direction::Vertical));
        assert(is_piece(horizontal@[1], band, Direction::Horizontal));
        if rows <= room_of(area, Direction::Vertical) {
            lemma_middle(rows, area);
        }
        lemma_middle_percent(percent_x, band);
    }
    horizontal[1]
}

/// The middle piece of so many cells has them, where there are as many.
proof fn lemma_middle(rows: u16, area: Rect)
    requires
        rows <= room_of(area, Direction::Vertical),
    ensures
        ({
            let high = room_of(area, Direction::Vertical);
            let above = area.y + nearest(50 * (high - rows));
            &&& all_fit(middle_rules(rows), high)
            &&& cut(middle_rules(rows), area, Direction::Vertical, 1) == above
            &&& cut(middle_rules(rows), area, Direction::Vertical, 2) == above + rows
        }),
{
    reveal_with_fuel(given_before, 4);
    reveal_with_fuel(growing_before, 4);
    let rules = middle_rules(rows);
    let high = room_of(area, Direction::Vertical);
    assert(growing_before(rules, 3) == 2);
    assert(left_over(rules, high) == 100 * (high - rows));
    assert(share_of(rules, high) == 50 * (high - rows));
}

/// The middle piece of so many hundredths has them.
proof fn lemma_middle_percent(percent: u16, area: Rect)
    requires
        percent <= 100,
    ensures
        ({
            let rules = middle_percent_rules(percent);
            let wide = room_of(area, Direction::Horizontal);
            let side = (100 - percent) / 2;
            &&& all_fit(rules, wide)
            &&& cut(rules, area, Direction::Horizontal, 1) == area.x + nearest(side * wide)
            &&& cut(rules, area, Direction::Horizontal, 2) == area.x + nearest(
                (side + percent) * wide,
            )
        }),
{
    reveal_with_fuel(given_before, 4);
    reveal_with_fuel(growing_before, 4);
    let side = (100 - percent) / 2;
    let wide = room_of(area, Direction::Horizontal);
    assert(side * wide + percent * wide == (side + percent) * wide) by (nonlinear_arith);
    assert((side + percent) * wide + side * wide <= 100 * wide) by (nonlinear_arith)
        requires
            side + percent + side <= 100,
            0 <= wide,
    ;
}

/// The rectangle one cell to the right of another and below it, as far as the screen goes.
pub open spec fn shadow_of(popup: Rect, screen: Rect) -> Rect {
    Rect {
        x: least(popup.x + 1, less(screen.width as int, 1)) as u16,
        y: least(popup.y + 1, less(screen.height as int, 1)) as u16,
        width: least(popup.width as int, less(screen.width as int, popup.x + 1)) as u16,
        height: least(popup.height as int, less(screen.height as int, popup.y + 1)) as u16,
    }
}

/// A number less another, and nothing where that is more.
pub open spec fn less(a: int, b: int) -> int {
    if a <= b {
        0
    } else {
        a - b
    }
}

/// The rectangle one cell to the right of another and below it, as far as the screen goes.
pub fn shadow_rect(popup: Rect, screen: Rect) -> (r: Rect)
    requires
        popup.x < u16::MAX,
        popup.y < u16::MAX,
    ensures
        r == shadow_of(popup, screen),
{
    let right: u16 = popup.x + 1;
    let below: u16 = popup.y + 1;
    Rect {
        x: lesser(right, saturating(screen.width, 1)),
        y: lesser(below, saturating(screen.height, 1)),
        width: lesser(popup.width, saturating(screen.width, right)),
        height: lesser(popup.height, saturating(screen.height, below)),
    }
}

fn lesser(a: u16, b: u16) -> (r: u16)
    ensures
        r == least(a as int, b as int),
{
    if a <= b {
        a
    } else {
        b
    }
}

fn saturating(a: u16, b: u16) -> (r: u16)
    ensures
        r == less(a as int, b as int),
{
    if a <= b {
        0
    } else {
        a - b
    }
}

/// On a screen with at least fifteen lines, head, middle and foot take all of it, the head three
/// lines and the foot four.
pub proof fn law_screen_is_covered(area: Rect, rows: Seq<Rect>)
    requires
        on_grid(area),
        area.height >= 15,
        is_split(rows, screen_rules(), area, Direction::Vertical),
    ensures
        rows.len() == 3,
        rows[0] == (Rect { height: 3, ..area }),
        rows[1] == (Rect {
            y: (area.y + 3) as u16,
            height: (area.height - 7) as u16,
            ..area
        }),
        rows[2] == (Rect { y: (area.y + area.height - 4) as u16, height: 4, ..area }),
{
    reveal_with_fuel(given_before, 4);
    reveal_with_fuel(growing_before, 4);
    let rules = screen_rules();
    let high = area.height as int;
    assert(growing_before(rules, 3) == 1);
    assert(left_over(rules, high) == 100 * (high - 7));
    assert(share_of(rules, high) == 100 * (high - 7));
    assert(all_fit(rules, high));
    assert(is_piece(rows[0], area, Direction::Vertical));
    assert(is_piece(rows[1], area, Direction::Vertical));
    assert(is_piece(rows[2], area, Direction::Vertical));
}

/// However small a screen is, head, middle and foot stand one below the other and take all of it.
/// Under fifteen lines the middle goes first: it has eight lines, or all that there are. The head
/// never has more than three, and the foot never more than four.
pub proof fn law_rows_follow_one_another(area: Rect, rows: Seq<Rect>)
    requires
        on_grid(area),
        is_split(rows, screen_rules(), area, Direction::Vertical),
    ensures
        rows.len() == 3,
        rows[0].y == area.y,
        rows[0].y + rows[0].height == rows[1].y,
        rows[1].y + rows[1].height == rows[2].y,
        rows[2].y + rows[2].height == area.y + area.height,
        rows[0].height <= 3,
        rows[1].height == if area.height >= 15 {
            area.height - 7
        } else {
            least(8, area.height as int)
        },
        rows[2].height <= 4,
        forall|i: int|
            0 <= i < 3 ==> (#[trigger] rows[i]).x == area.x && rows[i].width == area.width,
{
    if area.height >= 15 {
        law_screen_is_covered(area, rows);
    } else {
        reveal_with_fuel(given_before, 4);
        reveal_with_fuel(growing_before, 4);
        let rules = screen_rules();
        let high = area.height as int;
        assert(growing_before(rules, 3) == 1);
        assert(left_over(rules, high) == 100 * (high - 7));
        assert(share_of(rules, high) == left_over(rules, high));
        assert(rules[1] == Constraint::Min(8));
        assert(!all_fit(rules, high));
    }
    assert(is_piece(rows[0], area, Direction::Vertical));
    assert(is_piece(rows[1], area, Direction::Vertical));
    assert(is_piece(rows[2], area, Direction::Vertical));
}

/// The two columns stand side by side and take all of the middle of the screen.
pub proof fn law_columns_cover(area: Rect)
    requires
        on_grid(area),
    ensures
        ({
            let (left, right) = columns_of(area);
            &&& left.x == area.x
            &&& left.x + left.width == right.x
            &&& right.x + right.width == area.x + area.width
            &&& left.y == right.y == area.y
            &&& left.height == right.height == area.height
        }),
{
}

/// A rectangle in the middle of another has as much room on the left as on the right, and as much
/// above as below, up to one cell.
pub proof fn law_centered_rect_is_in_the_middle(percent_x: u16, height: u16, area: Rect)
    requires
        on_grid(area),
        percent_x <= 100,
        percent_x % 2 == 0,
    ensures
        ({
            let r = centered_in(percent_x, height, area);
            let left = r.x - area.x;
            let right = area.x + area.width - (r.x + r.width);
            let above = r.y - area.y;
            let below = area.y + area.height - (r.y + r.height);
            &&& is_inside(r, area)
            &&& 0 <= left - right <= 1
            &&& 0 <= above - below <= 1
        }),
{
    let side = (100 - percent_x) / 2;
    let width = area.width as int;
    let edge = side * width;
    assert((side + percent_x) * width == 100 * width - edge) by (nonlinear_arith)
        requires
            side + percent_x + side == 100,
            edge == side * width,
    ;
    assert(0 <= edge <= 50 * width) by (nonlinear_arith)
        requires
            0 <= side <= 50,
            0 <= width,
            edge == side * width,
    ;
}

/// The shadow of a rectangle never leaves a screen that begins at the origin.
pub proof fn law_shadow_stays_on_screen(popup: Rect, screen: Rect)
    requires
        screen.x == 0,
        screen.y == 0,
    ensures
        is_inside(shadow_of(popup, screen), screen),
{
}

/// The left column has 48 hundredths of the middle of the screen, to the nearest cell.
pub proof fn law_columns_have_their_share(area: Rect)
    ensures
        ({
            let (left, right) = columns_of(area);
            let wide = room_of(area, Direction::Horizontal);
            &&& -50 < 100 * left.width - 48 * wide <= 50
            &&& -50 <= 100 * right.width - 52 * wide < 50
        }),
{
}

/// A rectangle in the middle of another has so many hundredths of its room: each of its sides
/// stands where it should, to the nearest cell. It has the height that was asked for, or all that
/// there is.
pub proof fn law_centered_rect_has_its_share(percent_x: u16, height: u16, area: Rect)
    requires
        percent_x <= 100,
    ensures
        ({
            let r = centered_in(percent_x, height, area);
            let side = (100 - percent_x) / 2;
            let wide = room_of(area, Direction::Horizontal);
            let high = room_of(area, Direction::Vertical);
            let (left, right) = (r.x - area.x, r.x + r.width - area.x);
            &&& -50 < 100 * left - side * wide <= 50
            &&& -50 < 100 * right - (side + percent_x) * wide <= 50
            &&& height <= high ==> r.height == height
            &&& height > high ==> r.height == high && r.y == area.y
            &&& 0 <= 2 * (r.y - area.y) - (high - r.height) <= 1
        }),
{
    let side = (100 - percent_x) / 2;
    let width = room_of(area, Direction::Horizontal);
    let (near, far) = (side * width, (side + percent_x) * width);
    assert(0 <= near <= far <= 100 * width) by (nonlinear_arith)
        requires
            0 <= side,
            0 <= percent_x,
            side + percent_x <= 100,
            0 <= width,
            near == side * width,
            far == (side + percent_x) * width,
    ;
}

/// The shadow of a rectangle is the rectangle moved one cell to the right and one down, where the
/// screen has room for that, and else what of it is on the screen.
pub proof fn law_shadow_is_one_cell_off(popup: Rect, screen: Rect)
    requires
        popup.x + 1 < screen.width,
        popup.y + 1 < screen.height,
    ensures
        ({
            let shadow = shadow_of(popup, screen);
            &&& shadow.x == popup.x + 1
            &&& shadow.y == popup.y + 1
            &&& popup.x + 1 + popup.width <= screen.width ==> shadow.width == popup.width
            &&& popup.x + 1 + popup.width > screen.width ==> shadow.x + shadow.width == screen.width
            &&& popup.y + 1 + popup.height <= screen.height ==> shadow.height == popup.height
            &&& popup.y + 1 + popup.height > screen.height ==> shadow.y + shadow.height
                == screen.height
        }),
{
}

} // verus!
