use phosphor::terminal::{Lifecycle, SetupStep, TeardownStep};

/// Runs setup with the step `fail_at` failing; returns the steps attempted
/// and the teardown handed out on failure.
fn run_setup(fail_at: Option<SetupStep>) -> (Vec<SetupStep>, Vec<TeardownStep>, Lifecycle) {
    let mut life = Lifecycle::new();
    let mut attempted = Vec::new();
    while let Some(step) = life.next_setup() {
        attempted.push(step);
        if Some(step) == fail_at {
            let teardown = life.setup_failed();
            return (attempted, teardown, life);
        }
        life.setup_succeeded();
    }
    (attempted, Vec::new(), life)
}

#[test]
fn test_terminal_initialization() {
    let (attempted, teardown, life) = run_setup(None);
    assert_eq!(
        attempted,
        vec![
            SetupStep::OpenDevice,
            SetupStep::EnableRaw,
            SetupStep::HideCursor,
            SetupStep::EnableMouse,
            SetupStep::EnterAltScreen,
        ]
    );
    assert!(teardown.is_empty());
    assert!(life.is_ready());
}

#[test]
fn test_lifecycle_and_delegation() {
    let (_, _, mut life) = run_setup(None);
    let texts: Vec<Option<String>> = [SetupStep::HideCursor, SetupStep::EnableMouse, SetupStep::EnterAltScreen]
        .iter()
        .map(|s| s.text())
        .collect();
    assert_eq!(
        texts,
        vec![
            Some("\x1b[?25l".to_string()),
            Some("\x1b[?1000h".to_string()),
            Some("\x1b[?1049h".to_string()),
        ]
    );
    let teardown = life.release();
    assert_eq!(
        teardown,
        vec![
            TeardownStep::DisableMouse,
            TeardownStep::LeaveAltScreen,
            TeardownStep::ShowCursor,
            TeardownStep::RestoreRaw,
            TeardownStep::CloseDevice,
        ]
    );
    let written: Vec<Option<String>> = teardown.iter().map(|t| t.text()).collect();
    assert_eq!(
        written,
        vec![
            Some("\x1b[?1000l".to_string()),
            Some("\x1b[?1049l".to_string()),
            Some("\x1b[?25h".to_string()),
            None,
            None,
        ]
    );
    assert!(life.release().is_empty());
    assert!(!life.is_ready());
}

#[test]
fn test_initialization_failure_open() {
    let (attempted, teardown, mut life) = run_setup(Some(SetupStep::OpenDevice));
    assert_eq!(attempted, vec![SetupStep::OpenDevice]);
    assert!(teardown.is_empty());
    assert!(life.release().is_empty());
}

#[test]
fn test_initialization_failure_enable_raw() {
    let (attempted, teardown, mut life) = run_setup(Some(SetupStep::EnableRaw));
    assert_eq!(attempted, vec![SetupStep::OpenDevice, SetupStep::EnableRaw]);
    assert_eq!(teardown, vec![TeardownStep::CloseDevice]);
    assert!(life.next_setup().is_none());
    assert!(life.release().is_empty());
}

#[test]
fn failure_at_alternate_screen_undoes_the_earlier_steps() {
    let (_, teardown, _) = run_setup(Some(SetupStep::EnterAltScreen));
    assert_eq!(
        teardown,
        vec![
            TeardownStep::DisableMouse,
            TeardownStep::ShowCursor,
            TeardownStep::RestoreRaw,
            TeardownStep::CloseDevice,
        ]
    );
}

#[test]
fn steps_without_a_sequence_have_no_text() {
    assert_eq!(SetupStep::OpenDevice.text(), None);
    assert_eq!(SetupStep::EnableRaw.text(), None);
    assert_eq!(TeardownStep::CloseDevice.text(), None);
}
