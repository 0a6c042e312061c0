use autotile::model::{Change, Container, Floating, Rect, WindowEvent};
use autotile::policy::{
    continue_loop, decide_event, find_focused, fresh_command, Step, TreeQueryError,
};
use autotile::split::{is_tiling, Split};

fn tiled(id: i64, width: i32, height: i32) -> Container {
    Container {
        id,
        rect: Rect { width, height },
        floating: Some(Floating::AutoOff),
        visible: Some(true),
        focused: false,
    }
}

#[test]
fn wide_rect_splits_horizontally() {
    assert_eq!(Split::from(Rect { width: 100, height: 50 }), Split::H);
}

#[test]
fn tall_rect_splits_vertically() {
    assert_eq!(Split::from(Rect { width: 50, height: 100 }), Split::V);
}

#[test]
fn square_rect_splits_horizontally() {
    assert_eq!(Split::from(Rect { width: 80, height: 80 }), Split::H);
}

#[test]
fn tiling_predicate_truth_table() {
    assert!(is_tiling(Some(Floating::AutoOff)));
    assert!(is_tiling(Some(Floating::UserOff)));
    assert!(!is_tiling(Some(Floating::AutoOn)));
    assert!(!is_tiling(Some(Floating::UserOn)));
    assert!(!is_tiling(None));
}

#[test]
fn close_then_focus_requeries_tree() {
    let close = WindowEvent { change: Change::Close, container: tiled(1, 40, 40) };
    let (step, closed) = decide_event(false, &close);
    assert_eq!(step, Step::Skip);
    assert!(closed);

    // The focus event embeds stale pre-close geometry (30, 90).
    let stale_focus = WindowEvent { change: Change::Focus, container: tiled(2, 30, 90) };
    let (step, closed) = decide_event(closed, &stale_focus);
    assert_eq!(step, Step::QueryTree);
    assert!(!closed);

    // The fresh tree reports the focused container resized to (90, 30);
    // the command must follow the fresh geometry, not the embedded one.
    let root = Container {
        id: 0,
        rect: Rect { width: 500, height: 500 },
        floating: None,
        visible: None,
        focused: false,
    };
    let mut fresh = tiled(2, 90, 30);
    fresh.focused = true;
    let tree = vec![root, fresh];
    let cmd = fresh_command(&tree).unwrap();
    assert_eq!(cmd, "[con_id=\"2\"] splith");
}

#[test]
fn plain_focus_uses_embedded_geometry() {
    let focus = WindowEvent { change: Change::Focus, container: tiled(3, 200, 10) };
    let (step, closed) = decide_event(false, &focus);
    assert_eq!(step, Step::Dispatch { id: 3, split: Split::H });
    assert!(!closed);
}

#[test]
fn move_of_floating_container_is_skipped() {
    let mut c = tiled(7, 10, 20);
    c.floating = Some(Floating::UserOn);
    let ev = WindowEvent { change: Change::Move, container: c };
    for prev in [false, true] {
        let (step, closed) = decide_event(prev, &ev);
        assert_eq!(step, Step::Skip);
        assert!(!closed);
    }
}

#[test]
fn invisible_container_is_skipped() {
    let mut c = tiled(4, 10, 20);
    c.visible = Some(false);
    let ev = WindowEvent { change: Change::Focus, container: c };
    let (step, closed) = decide_event(true, &ev);
    assert_eq!(step, Step::Skip);
    assert!(!closed);
}

#[test]
fn unreported_visibility_is_actionable() {
    let mut c = tiled(4, 10, 20);
    c.visible = None;
    let ev = WindowEvent { change: Change::Focus, container: c };
    let (step, _) = decide_event(false, &ev);
    assert_eq!(step, Step::Dispatch { id: 4, split: Split::V });
}

#[test]
fn other_changes_only_update_the_flag() {
    let ev = WindowEvent { change: Change::Other, container: tiled(5, 10, 10) };
    assert_eq!(decide_event(true, &ev), (Step::Skip, false));
    assert_eq!(decide_event(false, &ev), (Step::Skip, false));
}

#[test]
fn find_focused_picks_the_first_focused_node() {
    let mut a = tiled(10, 1, 1);
    let mut b = tiled(11, 1, 1);
    let c = tiled(12, 1, 1);
    a.focused = false;
    b.focused = true;
    let mut d = tiled(13, 1, 1);
    d.focused = true;
    let nodes = vec![a, b, c, d];
    assert_eq!(find_focused(&nodes), Ok(1));
}

#[test]
fn find_focused_fails_without_a_focused_node() {
    let empty: Vec<Container> = Vec::new();
    assert_eq!(find_focused(&empty), Err(TreeQueryError::NoFocusedNode));
    let nodes = vec![tiled(1, 1, 1), tiled(2, 2, 2)];
    assert_eq!(find_focused(&nodes), Err(TreeQueryError::NoFocusedNode));
}

#[test]
fn fresh_command_fails_without_a_focused_node() {
    let nodes = vec![tiled(1, 1, 1)];
    assert_eq!(fresh_command(&nodes), Err(TreeQueryError::NoFocusedNode));
}

#[test]
fn loop_continues_only_while_running_and_pulling_ok() {
    assert!(continue_loop(true, true));
    assert!(!continue_loop(true, false));
    assert!(!continue_loop(false, true));
    assert!(!continue_loop(false, false));
}
