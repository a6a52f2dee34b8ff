use lazytrees::layout::{body_columns, centered_rect, screen_rows, shadow_rect, Rect};
use ratatui::layout::{Constraint, Direction, Layout};

fn rect(x: u16, y: u16, width: u16, height: u16) -> Rect {
    Rect {
        x,
        y,
        width,
        height,
    }
}

fn nearest(hundredths: u64) -> u64 {
    (hundredths + 50) / 100
}

/// Where the pieces end, in cells from the start, when every constraint can be met.
fn ends(rules: &[Constraint], length: u64) -> Option<Vec<u64>> {
    let mut asked = 0;
    let mut growing = 0;
    for rule in rules {
        match rule {
            Constraint::Length(cells) => asked += 100 * u64::from(*cells),
            Constraint::Percentage(percent) => asked += u64::from(*percent) * length,
            Constraint::Min(_) => growing += 1,
            _ => unreachable!(),
        }
    }
    if asked > 100 * length || growing > 2 {
        return None;
    }
    let left = 100 * length - asked;
    if growing > 0 && left % growing != 0 {
        return None;
    }
    let share = if growing > 0 { left / growing } else { 0 };
    let mut place = 0;
    let mut places = Vec::new();
    for rule in rules {
        match rule {
            Constraint::Length(cells) => place += 100 * u64::from(*cells),
            Constraint::Percentage(percent) => place += u64::from(*percent) * length,
            Constraint::Min(least) => {
                if 100 * u64::from(*least) > share {
                    return None;
                }
                place += share;
            }
            _ => unreachable!(),
        }
        places.push(nearest(place));
    }
    Some(places)
}

#[test]
fn constraints_that_can_be_met_are_met() {
    let pool = [
        Constraint::Length(0),
        Constraint::Length(3),
        Constraint::Length(17),
        Constraint::Min(0),
        Constraint::Min(8),
        Constraint::Percentage(0),
        Constraint::Percentage(33),
        Constraint::Percentage(48),
    ];
    let mut lists: Vec<Vec<Constraint>> = vec![Vec::new()];
    let mut last: Vec<Vec<Constraint>> = vec![Vec::new()];
    for _ in 0..3 {
        let mut longer = Vec::new();
        for list in &last {
            for rule in pool {
                let mut next = list.clone();
                next.push(rule);
                longer.push(next);
            }
        }
        lists.extend(longer.iter().cloned());
        last = longer;
    }
    let mut met = 0;
    for rules in &lists {
        for length in [0u16, 1, 7, 15, 40, 79, 131] {
            for direction in [Direction::Horizontal, Direction::Vertical] {
                let area = match direction {
                    Direction::Horizontal => ratatui::layout::Rect::new(5, 2, length, 6),
                    Direction::Vertical => ratatui::layout::Rect::new(2, 5, 6, length),
                };
                let pieces = Layout::default()
                    .direction(direction)
                    .constraints(rules.clone())
                    .split(area);
                assert_eq!(pieces.len(), rules.len());
                let expected = ends(rules, u64::from(length));
                let mut start = 5;
                for (i, piece) in pieces.iter().enumerate() {
                    let (from, size) = match direction {
                        Direction::Horizontal => {
                            assert_eq!((piece.y, piece.height), (2, 6));
                            (piece.x, piece.width)
                        }
                        Direction::Vertical => {
                            assert_eq!((piece.x, piece.width), (2, 6));
                            (piece.y, piece.height)
                        }
                    };
                    assert!(5 <= from && from + size <= 5 + length, "{rules:?} {length}");
                    if let Some(places) = &expected {
                        assert_eq!(u64::from(from), start, "{rules:?} {length}");
                        start = 5 + places[i];
                        assert_eq!(u64::from(from + size), start, "{rules:?} {length}");
                        met += 1;
                    }
                }
            }
        }
    }
    assert!(met > 1000);
}

#[test]
fn a_least_length_goes_before_lengths() {
    let mut short = 0;
    for first in [0u16, 1, 3, 17, 200, u16::MAX] {
        for middle in [0u16, 1, 8, 40, i16::MAX as u16] {
            for last in [0u16, 1, 4, 23, 150] {
                for length in [0u16, 1, 2, 5, 8, 9, 14, 20, 61, 300] {
                    let asked = u32::from(first) + u32::from(middle) + u32::from(last);
                    if asked <= u32::from(length) {
                        continue;
                    }
                    short += 1;
                    let pieces = Layout::default()
                        .direction(Direction::Vertical)
                        .constraints([
                            Constraint::Length(first),
                            Constraint::Min(middle),
                            Constraint::Length(last),
                        ])
                        .split(ratatui::layout::Rect::new(2, 5, 6, length));
                    let case = (first, middle, last, length);
                    assert_eq!(pieces[0].y, 5, "{case:?}");
                    assert_eq!(pieces[1].y, 5 + pieces[0].height, "{case:?}");
                    assert_eq!(pieces[2].y, pieces[1].y + pieces[1].height, "{case:?}");
                    assert_eq!(pieces[2].y + pieces[2].height, 5 + length, "{case:?}");
                    assert!(pieces[0].height <= first, "{case:?}");
                    assert_eq!(pieces[1].height, middle.min(length), "{case:?}");
                    assert!(pieces[2].height <= last, "{case:?}");
                }
            }
        }
    }
    assert!(short > 800);
}

#[test]
fn the_screen_is_covered() {
    for height in 15..=200 {
        let rows = screen_rows(rect(1, 2, 80, height));
        assert_eq!(
            rows,
            vec![
                rect(1, 2, 80, 3),
                rect(1, 5, 80, height - 7),
                rect(1, 2 + height - 4, 80, 4)
            ]
        );
    }
    for height in 0..15 {
        let rows = screen_rows(rect(0, 0, 80, height));
        assert_eq!(rows.len(), 3);
        for row in &rows {
            assert_eq!((row.x, row.width), (0, 80));
        }
        assert_eq!(rows[0].y, 0);
        assert_eq!(rows[1].y, rows[0].height);
        assert_eq!(rows[2].y, rows[1].y + rows[1].height);
        assert_eq!(rows[2].y + rows[2].height, height);
        assert!(rows[0].height <= 3);
        assert_eq!(rows[1].height, height.min(8));
        assert!(rows[2].height <= 4);
    }
}

#[test]
fn the_columns_cover_the_middle() {
    assert_eq!(
        body_columns(rect(0, 3, 100, 17)),
        (rect(0, 3, 48, 17), rect(48, 3, 52, 17))
    );
    for width in 0..=400 {
        let (left, right) = body_columns(rect(4, 3, width, 9));
        let edge = nearest(48 * u64::from(width)) as u16;
        assert_eq!(left, rect(4, 3, edge, 9));
        assert_eq!(right, rect(4 + edge, 3, width - edge, 9));
    }
}

#[test]
fn popups_are_in_the_middle() {
    assert_eq!(centered_rect(70, 8, rect(0, 0, 100, 30)), rect(15, 11, 70, 8));
    assert_eq!(centered_rect(64, 9, rect(0, 0, 100, 30)), rect(18, 11, 64, 9));
    assert_eq!(centered_rect(56, 7, rect(0, 0, 80, 24)), rect(18, 9, 44, 7));
    for width in 0..=220 {
        for (percent, height, screen_height) in [(70, 8, 24), (64, 9, 25), (56, 7, 5), (33, 4, 9)] {
            let area = rect(3, 6, width, screen_height);
            let popup = centered_rect(percent, height, area);
            let rows = height.min(screen_height);
            let side = u64::from((100 - percent) / 2);
            let left = nearest(side * u64::from(width)) as u16;
            let right = nearest((side + u64::from(percent)) * u64::from(width)) as u16;
            assert_eq!((popup.x, popup.width), (3 + left, right - left));
            assert_eq!(popup.height, rows);
            assert_eq!(popup.y, 6 + (screen_height - rows + 1) / 2);
        }
    }
}

#[test]
fn shadows_stay_on_the_screen() {
    let screen = rect(0, 0, 20, 10);
    assert_eq!(shadow_rect(rect(5, 2, 4, 3), screen), rect(6, 3, 4, 3));
    assert_eq!(shadow_rect(rect(0, 0, 20, 10), screen), rect(1, 1, 19, 9));
    assert_eq!(shadow_rect(rect(30, 30, 4, 3), screen), rect(19, 9, 0, 0));
    assert_eq!(shadow_rect(rect(0, 0, 0, 0), rect(0, 0, 0, 0)), rect(0, 0, 0, 0));
}

#[test]
fn a_length_takes_all_the_room_there_is() {
    for length in [0u16, 1, 2, 9, 40, 301] {
        for more in [1u16, 2, 30, 1000] {
            for direction in [Direction::Horizontal, Direction::Vertical] {
                let area = match direction {
                    Direction::Horizontal => ratatui::layout::Rect::new(5, 2, length, 6),
                    Direction::Vertical => ratatui::layout::Rect::new(2, 5, 6, length),
                };
                let pieces = Layout::default()
                    .direction(direction)
                    .constraints([
                        Constraint::Min(0),
                        Constraint::Length(length + more),
                        Constraint::Min(0),
                    ])
                    .split(area);
                let spans: Vec<(u16, u16)> = pieces
                    .iter()
                    .map(|piece| match direction {
                        Direction::Horizontal => (piece.x, piece.width),
                        Direction::Vertical => (piece.y, piece.height),
                    })
                    .collect();
                assert_eq!(spans, vec![(5, 0), (5, length), (5 + length, 0)]);
            }
        }
    }
}

#[test]
fn rectangles_at_the_end_of_the_grid_are_cut_off() {
    let (left, right) = body_columns(rect(u16::MAX - 10, 0, 100, 5));
    assert_eq!(left, rect(u16::MAX - 10, 0, 5, 5));
    assert_eq!(right, rect(u16::MAX - 5, 0, 5, 5));

    let end = u16::MAX;
    assert_eq!(centered_rect(50, 4, rect(end - 20, end - 10, 100, 100)), rect(end - 15, end - 7, 10, 4));
    assert_eq!(centered_rect(50, 30, rect(end - 20, end - 10, 100, 100)), rect(end - 15, end - 10, 10, 10));
    assert_eq!(centered_rect(100, 9, rect(end, end, 7, 7)), rect(end, end, 0, 0));
}
