use zombiesplit::model::game::category::AttemptInfo;
use zombiesplit::model::run::{self, Run};
use zombiesplit::model::short;
use zombiesplit::model::timing::time::{human, Position, Time};
use zombiesplit::presenter::cursor::{Cursor, Motion};
use zombiesplit::presenter::editor::{self, Editor};
use zombiesplit::presenter::event::{Edit, Event};
use zombiesplit::presenter::mode::Mode;
use zombiesplit::presenter::{split, Presenter};

fn two_split_run() -> Run {
    Run {
        splits: vec![
            run::Split::new(short::Name::from_str("a"), "A".to_string()),
            run::Split::new(short::Name::from_str("b"), "B".to_string()),
        ],
    }
}

#[test]
fn cursor_moves_within_bounds() {
    let mut c = Cursor::new(2);
    assert_eq!(c.position(), 0);
    assert!(!c.move_up(1));
    assert!(c.move_down(5));
    assert_eq!(c.position(), 2);
    assert!(!c.move_by(Motion::Down, 1));
    assert!(c.move_by(Motion::Up, 1));
    assert_eq!(c.position(), 1);
    assert!(c.move_down(usize::MAX));
    assert_eq!(c.position(), 2);
}

#[test]
fn field_editor_digits() {
    let mut f = editor::Field::new(Position::Seconds);
    assert!(f.add(1));
    assert!(f.add(2));
    assert!(!f.add(3), "seconds hold two digits");
    assert_eq!(f.text(), "12");
    assert!(f.edit(&Edit::Remove));
    assert_eq!(f.text(), "1");
    assert_eq!(f.to_display_string(), "1_");
    let mut t = human::Time::default();
    f.commit(&mut t).expect("valid");
    assert_eq!(t.secs, 1);
    assert!(f.remove());
    assert!(!f.remove());
    assert_eq!(f.text(), "");
}

#[test]
fn field_editor_rejects_too_big() {
    let mut f = editor::Field::new(Position::Minutes);
    f.add(7);
    f.add(5);
    let mut t = human::Time::new(0, 3, 0, 0);
    assert!(f.commit(&mut t).is_err());
    assert_eq!(t.mins, 3, "a failed commit leaves the time alone");
}

#[test]
fn presenter_edits_and_commits() {
    let mut p = Presenter::new(two_split_run());
    assert!(p.is_running());
    assert!(matches!(p.mode, Mode::Inactive(_)));
    p.on_reset();
    assert_eq!(p.split_position(0), split::Position::Cursor);
    assert_eq!(p.split_position(1), split::Position::Coming);
    p.handle_event(&Event::Cursor(Motion::Down));
    assert_eq!(p.split_position(0), split::Position::Done);
    p.handle_event(&Event::EnterField(Position::Seconds));
    assert!(p.editor().is_some());
    p.handle_event(&Event::digit(4));
    p.handle_event(&Event::digit(2));
    p.handle_event(&Event::EnterField(Position::Milliseconds));
    p.handle_event(&Event::digit(5));
    p.handle_event(&Event::Commit);
    assert_eq!(p.run.splits[1].times, vec![Time::from_millis(42_500)]);
    assert!(p.run.splits[0].times.is_empty());
}

#[test]
fn presenter_undo_and_delete() {
    let mut p = Presenter::new(two_split_run());
    p.on_reset();
    p.run.push_to(0, Time::from_millis(10));
    p.run.push_to(0, Time::from_millis(20));
    p.handle_event(&Event::Delete);
    assert!(p.run.splits[0].times.is_empty());
    p.run.push_to(0, Time::from_millis(30));
    p.handle_event(&Event::Undo);
    let e: &Editor = p.editor().expect("undo opens an editor");
    assert_eq!(e.time, human::Time::from_millis(30));
    assert!(p.run.splits[0].times.is_empty());
}

#[test]
fn presenter_new_run_and_quit() {
    let mut p = Presenter::new(two_split_run());
    p.run.push_to(1, Time::from_millis(5));
    p.handle_event(&Event::NewRun);
    assert!(p.run.splits.iter().all(|s| s.times.is_empty()));
    p.on_new_attempt(AttemptInfo {
        total: 2,
        completed: 1,
    });
    assert_eq!(p.state.attempt.total, 2);
    p.handle_event(&Event::Quit);
    assert!(!p.is_running());
}

#[test]
fn cursor_zero_moves_report_no_change() {
    let mut c = Cursor::new(3);
    assert!(c.move_down(1));
    assert!(!c.move_up(0), "moving by zero leaves the position alone");
    assert!(!c.move_down(0), "moving by zero leaves the position alone");
    assert_eq!(c.position(), 1);
}
