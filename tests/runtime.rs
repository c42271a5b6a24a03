use phosphor::input::{Event, KeyCode, KeyEvent, Parser};
use phosphor::runtime::{after_init, dispatch, LoopStep};
use phosphor::{Application, Command, Frame};

/// Counts updates and quits on 'q'.
struct TestApp {
    updates: usize,
    quit_on_init: bool,
}

impl Application for TestApp {
    type Action = char;

    fn init(&self) -> Command {
        if self.quit_on_init {
            Command::Quit
        } else {
            Command::Continue
        }
    }

    fn on_event(&self, event: Event) -> Option<char> {
        match event {
            Event::Key(KeyEvent { code: KeyCode::Char(c), .. }) => Some(c),
            _ => None,
        }
    }

    fn update(&mut self, msg: char) -> Command {
        self.updates += 1;
        if msg == 'q' {
            Command::Quit
        } else {
            Command::Continue
        }
    }

    fn draw(&self, _frame: &mut Frame) {}
}

#[test]
fn test_run_loop_quits() {
    let mut app = TestApp { updates: 0, quit_on_init: false };
    let events = Parser::new().parse(b"q");
    assert_eq!(after_init(app.init()), LoopStep::Frame);
    assert_eq!(dispatch(&mut app, &events), (LoopStep::Stop, 1));
}

#[test]
fn quit_from_init_stops_before_any_frame() {
    let app = TestApp { updates: 0, quit_on_init: true };
    assert_eq!(after_init(app.init()), LoopStep::Stop);
    assert_eq!(after_init(Command::Continue), LoopStep::Frame);
}

#[test]
fn events_after_the_first_quit_are_not_handed_on() {
    let mut app = TestApp { updates: 0, quit_on_init: false };
    let events = Parser::new().parse(b"a\rqbq");
    assert_eq!(dispatch(&mut app, &events), (LoopStep::Stop, 3));
    assert_eq!(app.updates, 2);
}

#[test]
fn events_without_an_action_skip_update() {
    let mut app = TestApp { updates: 0, quit_on_init: false };
    let events = Parser::new().parse(b"\r\x1b[Ax");
    assert_eq!(dispatch(&mut app, &events), (LoopStep::Frame, 3));
    assert_eq!(app.updates, 1);
    assert_eq!(dispatch(&mut app, &Vec::new()), (LoopStep::Frame, 0));
}
