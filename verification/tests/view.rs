use lazytrees::git::{Repo, Worktree};
use lazytrees::layout::Rect;
use lazytrees::tui::{Mode, StatusKind, TuiApp};
use lazytrees::view::{
    confirm_action_line, detail_row, hint, panel, popup_block, render, rgb, state_color,
    worktree_glyph, worktree_state, Drawn, Span, Style, Tone, Widget,
};

fn repo() -> Repo {
    Repo {
        root: "/src/repo".to_owned(),
        default_worktree_parent: "/src/repo-worktrees".to_owned(),
    }
}

fn worktree(path: &str, branch: Option<&str>) -> Worktree {
    Worktree {
        path: path.to_owned(),
        head: Some("0123456789".to_owned()),
        branch: branch.map(|name| name.to_owned()),
        bare: false,
        detached: false,
        prunable: false,
    }
}

fn screen(width: u16, height: u16) -> Rect {
    Rect {
        x: 0,
        y: 0,
        width,
        height,
    }
}

fn words(spans: &[Span]) -> String {
    spans.iter().map(|span| span.text.as_str()).collect()
}

fn text(drawn: &Drawn) -> Vec<String> {
    match &drawn.widget {
        Widget::Text { lines, .. } => lines.iter().map(|line| words(line)).collect(),
        Widget::Choices { items, .. } => items.iter().map(|line| words(line)).collect(),
        other => panic!("unexpected {other:?}"),
    }
}

fn style(fg: Tone, bold: bool) -> Style {
    Style {
        fg: Some(fg),
        bg: None,
        bold,
    }
}

#[test]
fn colours_have_their_values() {
    assert_eq!(rgb(Tone::Accent), (0x83, 0xA5, 0x98));
    assert_eq!(rgb(Tone::Text), (0xEB, 0xDB, 0xB2));
    assert_eq!(rgb(Tone::Muted), (0xA8, 0x99, 0x84));
    assert_eq!(rgb(Tone::Faint), (0x66, 0x5C, 0x54));
    assert_eq!(rgb(Tone::Good), (0xB8, 0xBB, 0x26));
    assert_eq!(rgb(Tone::Warn), (0xFA, 0xBD, 0x2F));
    assert_eq!(rgb(Tone::Bad), (0xFB, 0x49, 0x34));
    assert_eq!(rgb(Tone::Selection), (0x50, 0x49, 0x45));
    assert_eq!(rgb(Tone::Shadow), (0x1D, 0x20, 0x21));
}

#[test]
fn the_screen_shows_the_worktrees() {
    let repo = repo();
    let list = vec![worktree("/src/repo", Some("main")), worktree("/w/topic", None)];
    let app = TuiApp::new(&repo, Ok(list)).expect("app");
    let scene = render(screen(100, 30), &app);

    assert_eq!(scene.len(), 4);
    assert_eq!(
        scene.iter().map(|drawn| drawn.area).collect::<Vec<Rect>>(),
        vec![
            Rect { x: 0, y: 0, width: 100, height: 3 },
            Rect { x: 0, y: 3, width: 48, height: 23 },
            Rect { x: 48, y: 3, width: 52, height: 23 },
            Rect { x: 0, y: 26, width: 100, height: 4 },
        ]
    );
    assert_eq!(text(&scene[0]), vec![" 🌳 lazytrees │ 2 worktrees │ /src/repo"]);
    assert_eq!(text(&scene[1]), vec!["● main  repo", "● unknown  topic"]);
    match &scene[1].widget {
        Widget::Choices {
            selected,
            symbol,
            highlight,
            panel: frame,
            ..
        } => {
            assert_eq!(*selected, 0);
            assert_eq!(symbol, "▎");
            assert_eq!(
                *highlight,
                Style { fg: Some(Tone::Accent), bg: Some(Tone::Selection), bold: true }
            );
            assert_eq!(*frame, panel("Worktrees", true));
        }
        other => panic!("unexpected {other:?}"),
    }
    assert_eq!(
        text(&scene[2]),
        vec![
            "".to_owned(),
            "branch main".to_owned(),
            "head   0123456".to_owned(),
            "path   /src/repo".to_owned(),
            "state  normal".to_owned(),
            "".to_owned(),
            "─".repeat(48),
            "".to_owned(),
            "open   agent".to_owned(),
        ]
    );
    assert_eq!(
        text(&scene[3]),
        vec![
            "✓ ready    ↵ open   n new   d remove   p prune   r refresh   q quit   ",
            "default parent  /src/repo-worktrees",
        ]
    );
}

#[test]
fn an_empty_list_says_what_to_do() {
    let repo = repo();
    let app = TuiApp::new(&repo, Ok(Vec::new())).expect("app");
    let scene = render(screen(80, 24), &app);
    assert_eq!(text(&scene[0]), vec![" 🌳 lazytrees │ 0 worktrees │ /src/repo"]);
    assert_eq!(text(&scene[1]), vec!["", "No worktrees yet", "Press n to create one"]);
    assert!(matches!(scene[1].widget, Widget::Text { centered: true, wrap: false, .. }));
    assert_eq!(text(&scene[2]), vec!["", "No worktree selected."]);
    assert!(matches!(scene[2].widget, Widget::Text { centered: false, wrap: true, .. }));
}

#[test]
fn one_worktree_is_one() {
    let repo = repo();
    let app = TuiApp::new(&repo, Ok(vec![worktree("/", None)])).expect("app");
    let scene = render(screen(80, 24), &app);
    assert_eq!(text(&scene[0]), vec![" 🌳 lazytrees │ 1 worktree │ /src/repo"]);
    assert_eq!(text(&scene[1]), vec!["● unknown  /"]);
}

#[test]
fn errors_stand_out() {
    let repo = repo();
    let mut app = TuiApp::new(&repo, Ok(Vec::new())).expect("app");
    app.set_error("broken".to_owned());
    assert_eq!(app.status.kind, StatusKind::Error);
    let scene = render(screen(80, 24), &app);
    match &scene[3].widget {
        Widget::Text { lines, .. } => {
            assert_eq!(lines[0][0].text, "✗ ");
            assert_eq!(lines[0][0].style, style(Tone::Bad, true));
            assert_eq!(lines[0][1].text, "broken");
            assert_eq!(lines[0][1].style, style(Tone::Bad, false));
        }
        other => panic!("unexpected {other:?}"),
    }
}

#[test]
fn dialogs_lie_over_the_list() {
    let repo = repo();
    let mut app = TuiApp::new(&repo, Ok(Vec::new())).expect("app");
    app.mode = Mode::NewBranch { input: "fe".to_owned() };
    let scene = render(screen(100, 30), &app);
    assert_eq!(scene.len(), 7);
    assert_eq!(scene[4].widget, Widget::Fill(Tone::Shadow));
    assert_eq!(scene[4].area, Rect { x: 16, y: 12, width: 70, height: 8 });
    assert_eq!(scene[5].widget, Widget::Clear);
    assert_eq!(scene[5].area, Rect { x: 15, y: 11, width: 70, height: 8 });
    assert_eq!(scene[6].area, scene[5].area);
    assert_eq!(text(&scene[6]), vec!["", "❯ fe█", "", "↵ accept    esc cancel"]);
    match &scene[6].widget {
        Widget::Text { panel: frame, .. } => {
            assert_eq!(*frame, popup_block("New worktree branch", Tone::Accent, true));
            assert!(frame.padded);
            assert_eq!(frame.title.as_ref().map(|title| title.text.as_str()), Some(" New worktree branch "));
        }
        other => panic!("unexpected {other:?}"),
    }

    app.mode = Mode::NewBase { branch: "feat/x".to_owned(), input: String::new() };
    let scene = render(screen(100, 30), &app);
    assert_eq!(
        text(&scene[6]),
        vec!["", "❯ █", "  default  HEAD", "", "↵ accept    esc cancel"]
    );

    app.mode = Mode::NewPath {
        branch: "feat/x".to_owned(),
        base: "HEAD".to_owned(),
        input: String::new(),
    };
    let scene = render(screen(100, 30), &app);
    assert_eq!(text(&scene[6])[2], "  default  /src/repo-worktrees/feat-x");
}

#[test]
fn confirmations_lie_over_the_list() {
    let repo = repo();
    let mut app = TuiApp::new(&repo, Ok(Vec::new())).expect("app");
    app.mode = Mode::ConfirmRemove { path: "/w/x".to_owned(), branch: "x".to_owned() };
    let scene = render(screen(100, 30), &app);
    assert_eq!(scene[6].area, Rect { x: 18, y: 11, width: 64, height: 9 });
    assert_eq!(
        text(&scene[6]),
        vec![
            "",
            "Remove selected worktree?",
            "branch  x",
            "path    /w/x",
            "",
            "y confirm    n cancel",
        ]
    );
    assert!(matches!(scene[6].widget, Widget::Text { centered: true, wrap: true, .. }));

    app.mode = Mode::ConfirmPrune;
    let scene = render(screen(100, 30), &app);
    assert_eq!(scene[6].area, Rect { x: 22, y: 12, width: 56, height: 7 });
    assert_eq!(
        text(&scene[6]),
        vec!["", "Run git worktree prune?", "", "y confirm    n cancel"]
    );
    match &scene[6].widget {
        Widget::Text { panel: frame, wrap, .. } => {
            assert_eq!(*frame, popup_block("Confirm prune", Tone::Warn, false));
            assert!(!wrap);
        }
        other => panic!("unexpected {other:?}"),
    }
}

#[test]
fn nothing_is_drawn_off_the_screen() {
    let repo = repo();
    let mut app = TuiApp::new(&repo, Ok(vec![worktree("/a", None)])).expect("app");
    app.mode = Mode::ConfirmPrune;
    for width in [0, 1, 2, 5, 40] {
        for height in 0..20 {
            for drawn in render(screen(width, height), &app) {
                assert!(drawn.area.x + drawn.area.width <= width);
                assert!(drawn.area.y + drawn.area.height <= height);
            }
        }
    }
}

#[test]
fn states_have_words_glyphs_and_colours() {
    let mut entry = worktree("/a", None);
    assert_eq!(worktree_state(&entry), "normal");
    assert_eq!(state_color(&entry), Tone::Good);
    assert_eq!(worktree_glyph(&entry), ("●", style(Tone::Good, false)));
    entry.detached = true;
    assert_eq!(worktree_state(&entry), "detached");
    assert_eq!(state_color(&entry), Tone::Accent);
    assert_eq!(worktree_glyph(&entry), ("⚲", style(Tone::Accent, false)));
    entry.bare = true;
    assert_eq!(worktree_state(&entry), "bare, detached");
    assert_eq!(worktree_glyph(&entry), ("◇", style(Tone::Muted, false)));
    entry.prunable = true;
    assert_eq!(worktree_state(&entry), "bare, detached, prunable");
    assert_eq!(state_color(&entry), Tone::Warn);
    assert_eq!(worktree_glyph(&entry), ("⚠", style(Tone::Warn, false)));
}

#[test]
fn small_parts_of_the_screen() {
    assert_eq!(words(&hint("n", "new")), "n new   ");
    assert_eq!(words(&detail_row("*", "branch", "x", Tone::Text)), "*branch x");
    assert_eq!(words(&detail_row("", "much longer", "x", Tone::Text)), "much longerx");
    assert_eq!(words(&confirm_action_line()), "y confirm    n cancel");
    let frame = panel("Details", false);
    assert_eq!(frame.border, Tone::Faint);
    assert_eq!(frame.title.expect("title").style, style(Tone::Accent, true));
}

#[test]
fn details_are_aligned() {
    let repo = repo();
    let app = TuiApp::new(&repo, Ok(vec![worktree("/a", None)])).expect("app");
    let scene = render(screen(80, 24), &app);
    match &scene[2].widget {
        Widget::Text { lines, .. } => {
            for row in [1, 2, 3, 4, 8] {
                assert_eq!(lines[row].len(), 2);
                assert_eq!(lines[row][0].text.chars().count(), 7);
            }
        }
        other => panic!("unexpected {other:?}"),
    }
}

#[test]
fn only_the_selection_and_the_shadow_are_filled() {
    let repo = repo();
    let mut app = TuiApp::new(&repo, Ok(vec![worktree("/a", None)])).expect("app");
    app.mode = Mode::ConfirmRemove { path: "/a".to_owned(), branch: "a".to_owned() };
    for drawn in render(screen(80, 24), &app) {
        match drawn.widget {
            Widget::Text { lines, .. } => {
                assert!(lines.iter().flatten().all(|span| span.style.bg.is_none()));
            }
            Widget::Choices { items, highlight, .. } => {
                assert!(items.iter().flatten().all(|span| span.style.bg.is_none()));
                assert_eq!(highlight.bg, Some(Tone::Selection));
            }
            Widget::Clear => {}
            Widget::Fill(tone) => assert_eq!(tone, Tone::Shadow),
        }
    }
}
