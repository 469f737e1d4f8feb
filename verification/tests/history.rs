//! Undo, redo, amendments and gestures over versions of a document.

use avio_editor::edit_history::{EditHistory, MAX_HISTORY};

#[derive(Debug, PartialEq)]
struct Timeline {
    canvas: (u32, u32),
    fps: f64,
}

#[derive(Debug)]
enum Command {
    SetFrameRate { fps: f64 },
    SetCanvas { width: u32, height: u32 },
}

#[derive(Debug, PartialEq)]
struct BadFrameRate;

fn step(timeline: &Timeline, command: &Command) -> Result<Timeline, BadFrameRate> {
    match command {
        Command::SetFrameRate { fps } if *fps > 0.0 => {
            Ok(Timeline { canvas: timeline.canvas, fps: *fps })
        }
        Command::SetFrameRate { .. } => Err(BadFrameRate),
        Command::SetCanvas { width, height } => {
            Ok(Timeline { canvas: (*width, *height), fps: timeline.fps })
        }
    }
}

fn timeline(fps: f64) -> Timeline {
    Timeline { canvas: (1920, 1080), fps }
}

fn set_fps(fps: f64) -> Command {
    Command::SetFrameRate { fps }
}

fn fps(h: &EditHistory<Timeline>) -> f64 {
    h.current().fps
}

#[test]
fn new_has_no_undo_or_redo() {
    let h = EditHistory::new(timeline(30.0));
    assert!(!h.can_undo());
    assert!(!h.can_redo());
    assert_eq!(fps(&h), 30.0);
}

#[test]
fn apply_advances_and_enables_undo() {
    let mut h = EditHistory::new(timeline(30.0));
    h.apply(&set_fps(24.0), step).expect("valid");
    assert_eq!(fps(&h), 24.0);
    assert!(h.can_undo());
    assert!(!h.can_redo());
}

#[test]
fn undo_then_redo() {
    let mut h = EditHistory::new(timeline(30.0));
    h.apply(&set_fps(24.0), step).expect("valid");
    assert_eq!(h.undo().map(|t| t.fps), Some(30.0));
    assert!(h.can_redo());
    assert_eq!(h.redo().map(|t| t.fps), Some(24.0));
}

#[test]
fn apply_after_undo_truncates_redo() {
    let mut h = EditHistory::new(timeline(30.0));
    h.apply(&set_fps(24.0), step).expect("valid");
    h.apply(&set_fps(48.0), step).expect("valid");
    h.undo();
    h.apply(&set_fps(60.0), step).expect("valid");
    assert!(!h.can_redo());
    assert_eq!(fps(&h), 60.0);
}

#[test]
fn apply_batch_is_one_undo_step() {
    let mut h = EditHistory::new(timeline(30.0));
    let commands = vec![set_fps(24.0), Command::SetCanvas { width: 1280, height: 720 }];
    h.apply_batch(&commands, step).expect("valid");
    assert_eq!(fps(&h), 24.0);
    assert_eq!(h.current().canvas, (1280, 720));
    h.undo();
    assert_eq!(fps(&h), 30.0);
    assert_eq!(h.current().canvas, (1920, 1080));
    assert!(!h.can_undo());
}

#[test]
fn apply_batch_empty_is_noop() {
    let mut h = EditHistory::new(timeline(30.0));
    h.apply_batch(&Vec::new(), step).expect("valid");
    assert!(!h.can_undo());
}

#[test]
fn apply_batch_aborts_atomically_on_error() {
    let mut h = EditHistory::new(timeline(30.0));
    let err = h.apply_batch(&vec![set_fps(24.0), set_fps(0.0)], step);
    assert!(err.is_err());
    assert_eq!(fps(&h), 30.0);
    assert!(!h.can_undo());
}

#[test]
fn amend_replaces_without_a_new_step() {
    let mut h = EditHistory::new(timeline(30.0));
    h.apply(&set_fps(24.0), step).expect("valid");
    h.amend(timeline(48.0));
    assert_eq!(fps(&h), 48.0);
    assert!(h.can_undo());
    assert!(!h.can_redo());
    assert_eq!(h.undo().map(|t| t.fps), Some(30.0));
}

#[test]
fn amend_truncates_redo() {
    let mut h = EditHistory::new(timeline(30.0));
    h.apply(&set_fps(24.0), step).expect("valid");
    h.apply(&set_fps(48.0), step).expect("valid");
    h.undo();
    h.amend(timeline(60.0));
    assert!(!h.can_redo());
    assert_eq!(fps(&h), 60.0);
}

#[test]
fn history_is_capped_and_keeps_newest() {
    let mut h = EditHistory::new(timeline(1.0));
    for i in 2..=(MAX_HISTORY + 5) {
        h.apply(&set_fps(i as f64), step).expect("valid");
    }
    assert!(h.can_undo());
    assert_eq!(fps(&h), (MAX_HISTORY + 5) as f64);
}

#[test]
fn capped_history_goes_back_to_the_oldest_kept() {
    let mut h = EditHistory::new(timeline(1.0));
    for i in 2..=(MAX_HISTORY + 5) {
        h.apply(&set_fps(i as f64), step).expect("valid");
    }
    let mut steps = 0;
    while h.undo().is_some() {
        steps += 1;
    }
    assert_eq!(steps, MAX_HISTORY - 1);
    assert_eq!(fps(&h), 6.0);
}

#[test]
fn gesture_coalesces_amends_into_one_step() {
    let mut h = EditHistory::new(timeline(30.0));
    h.begin_gesture();
    h.amend(timeline(24.0));
    h.amend(timeline(48.0));
    h.commit_gesture();
    assert_eq!(fps(&h), 48.0);
    assert_eq!(h.undo().map(|t| t.fps), Some(30.0));
    assert!(!h.can_undo());
}

#[test]
fn gesture_cancel_restores_pre() {
    let mut h = EditHistory::new(timeline(30.0));
    h.begin_gesture();
    h.amend(timeline(24.0));
    h.cancel_gesture();
    assert_eq!(fps(&h), 30.0);
    assert!(!h.can_undo());
}

#[test]
fn second_begin_keeps_the_first_starting_point() {
    let mut h = EditHistory::new(timeline(30.0));
    h.begin_gesture();
    h.amend(timeline(24.0));
    h.begin_gesture();
    h.amend(timeline(48.0));
    h.cancel_gesture();
    assert_eq!(fps(&h), 30.0);
}

#[test]
fn commit_and_cancel_without_a_gesture_change_nothing() {
    let mut h = EditHistory::new(timeline(30.0));
    h.commit_gesture();
    h.cancel_gesture();
    assert_eq!(fps(&h), 30.0);
    assert!(!h.can_undo());
    assert!(!h.can_redo());
}

#[test]
fn refused_command_returns_its_error() {
    let mut h = EditHistory::new(timeline(30.0));
    assert_eq!(h.apply(&set_fps(-1.0), step).err(), Some(BadFrameRate));
    assert!(!h.can_undo());
    assert!(h.undo().is_none());
    assert!(h.redo().is_none());
}
