use gitui_core::git;
use gitui_core::input::{InputEvent, KeyCode, KeyConfig, KeyInput};
use gitui_core::repo::{valid_path, RepoProbe};
use gitui_core::ui::{EventState, ParagraphState, ScrollPos};
use gitui_core::jobs::{AsyncSingleJob, ProgressPercent};
use gitui_core::spinner::Spinner;
use gitui_core::syntax::{FileContent, SyntaxText, SyntaxTextComponent};
use gitui_core::watcher::Debouncer;
use gitui_core::{
    bootstrap_event, plan_step, AsyncAppNotification, AsyncNotification, LoopStep, QueueEvent,
    SyntaxHighlightProgress,
};

#[test]
fn slot_take_result_is_one_shot() {
    let mut slot: AsyncSingleJob<u64, u64> = AsyncSingleJob::new();
    assert!(slot.spawn(7));
    assert!(slot.is_pending());
    assert_eq!(slot.start_next(), Some(7));
    assert!(slot.is_pending());
    slot.finish(70);
    assert!(!slot.is_pending());
    assert_eq!(slot.take_last(), Some(70));
    assert_eq!(slot.take_last(), None);
}

#[test]
fn spawn_discards_unconsumed_result() {
    let mut slot: AsyncSingleJob<u64, u64> = AsyncSingleJob::new();
    slot.spawn(1);
    assert_eq!(slot.start_next(), Some(1));
    slot.finish(10);
    assert_eq!(slot.take_last(), Some(10));
    slot.spawn(2);
    assert_eq!(slot.start_next(), Some(2));
    slot.finish(20);
    slot.spawn(3);
    // superseding spawn discarded the unconsumed outcome of job 2
    assert_eq!(slot.take_last(), None);
}

#[test]
fn superseded_highlight_is_never_shown() {
    // select file A and spawn its highlight
    let mut comp = SyntaxTextComponent::new(KeyConfig::default());
    comp.load_file(String::from("a.rs"), Ok(String::from("fn a()")));
    let job_a = comp.async_highlighting.start_next().unwrap();

    // before completion, select file B
    comp.load_file(String::from("b.rs"), Ok(String::from("fn b()")));

    // the worker finishes A only now, after B was spawned
    comp.async_highlighting.finish(SyntaxText::new(job_a.content, job_a.path));
    comp.update(AsyncNotification::App(AsyncAppNotification::SyntaxHighlighting(
        SyntaxHighlightProgress::Done,
    )));

    // the shown content reflects B (still pending), never A
    match &comp.current_file {
        Some((path, FileContent::Plain(shown))) => {
            assert_eq!(path, "b.rs");
            assert_eq!(shown, "fn b()");
        },
        _ => panic!("expected the plain content of b.rs"),
    }

    // B's own highlight, once finished, is applied
    let job_b = comp.async_highlighting.start_next().unwrap();
    comp.async_highlighting.finish(SyntaxText::new(job_b.content, job_b.path));
    comp.update(AsyncNotification::App(AsyncAppNotification::SyntaxHighlighting(
        SyntaxHighlightProgress::Done,
    )));
    match &comp.current_file {
        Some((path, FileContent::Syntax(syntax))) => {
            assert_eq!(path, "b.rs");
            assert_eq!(&syntax.path, "b.rs");
            assert_eq!(&syntax.text, "fn b()");
        },
        _ => panic!("expected the highlight of b.rs"),
    }
}

#[test]
fn loading_the_same_file_again_does_nothing() {
    let mut comp = SyntaxTextComponent::new(KeyConfig::default());
    comp.load_file(String::from("a.rs"), Ok(String::from("one")));
    assert!(comp.any_work_pending());
    comp.load_file(String::from("a.rs"), Ok(String::from("two")));
    match &comp.current_file {
        Some((_, FileContent::Plain(shown))) => assert_eq!(shown, "one"),
        _ => panic!("expected plain content"),
    }
}

#[test]
fn failed_read_is_shown_as_error_text() {
    let mut comp = SyntaxTextComponent::new(KeyConfig::default());
    comp.load_file(String::from("a.rs"), Err(String::from("permission denied")));
    match &comp.current_file {
        Some((path, FileContent::Plain(shown))) => {
            assert_eq!(path, "a.rs");
            assert_eq!(shown, "error loading file: permission denied");
        },
        _ => panic!("expected the error text"),
    }
    assert!(!comp.any_work_pending());
}

#[test]
fn tabs_are_expanded_before_highlighting() {
    let mut comp = SyntaxTextComponent::new(KeyConfig::default());
    comp.load_file(String::from("a.rs"), Ok(String::from("\tx")));
    match &comp.current_file {
        Some((_, FileContent::Plain(shown))) => assert_eq!(shown, "    x"),
        _ => panic!("expected plain content"),
    }
}

#[test]
fn progress_reports_reach_the_view() {
    let mut comp = SyntaxTextComponent::new(KeyConfig::default());
    comp.load_file(String::from("a.rs"), Ok(String::from("x")));
    assert_eq!(comp.syntax_progress, Some(ProgressPercent { progress: 0 }));
    let _job = comp.async_highlighting.start_next().unwrap();
    comp.async_highlighting.set_progress(ProgressPercent::new(1, 2));
    comp.update(AsyncNotification::App(AsyncAppNotification::SyntaxHighlighting(
        SyntaxHighlightProgress::Progress,
    )));
    assert_eq!(comp.syntax_progress, Some(ProgressPercent { progress: 50 }));
}

#[test]
fn debounce_coalesces_five_writes_into_one_signal() {
    // 5 filesystem writes arrive 10ms apart with a 100ms window
    let mut d = Debouncer::new(100);
    let mut signals: u32 = 0;
    let times: [u64; 5] = [0, 10, 20, 30, 40];
    for t in times {
        d.register_raw_event(t);
        // the timer looks in between, well before any deadline
        if d.poll(t + 5) {
            signals += 1;
        }
    }
    assert_eq!(signals, 0);
    // still quiet just before the window closes after the 5th write
    assert!(!d.poll(139));
    // exactly one signal, ~100ms after the 5th write
    assert!(d.poll(140));
    // and silence afterwards until new raw events arrive
    assert!(!d.poll(150));
    assert!(!d.poll(1000));
}

#[test]
fn debounce_single_event_fires_once_after_window() {
    let mut d = Debouncer::new(50);
    d.register_raw_event(7);
    assert!(!d.poll(56));
    assert!(d.poll(57));
    assert!(!d.poll(58));
}

#[test]
fn spinner_shows_busy_exactly_while_fetch_is_pending() {
    // a fetch job is spawned; spinner ticks show busy=true on each
    // tick until it completes, then busy=false from the next tick on
    let mut slot: AsyncSingleJob<String, u64> = AsyncSingleJob::new();
    let mut spinner = Spinner::default();

    slot.spawn(String::from("origin"));
    let _req = slot.start_next().unwrap();

    spinner.update();
    spinner.set_state(slot.is_pending());
    assert!(spinner.glyph().is_some());

    spinner.update();
    spinner.set_state(slot.is_pending());
    assert!(spinner.glyph().is_some());

    slot.finish(99);

    spinner.update();
    spinner.set_state(slot.is_pending());
    assert!(spinner.glyph().is_none());
    assert_eq!(slot.take_last(), Some(99));
}

#[test]
fn spinner_rotates_through_four_frames() {
    let mut spinner = Spinner::new();
    spinner.set_state(true);
    let mut seen = Vec::new();
    for _ in 0..4 {
        spinner.update();
        seen.push(spinner.glyph().unwrap());
    }
    assert_eq!(seen, vec!['/', '-', '\\', '|']);
}

#[test]
fn first_iteration_bootstraps_a_full_refresh() {
    let mut first_update = true;
    let ev = bootstrap_event(&mut first_update);
    assert!(matches!(ev, Some(QueueEvent::Notify)));
    assert!(!first_update);
    assert!(bootstrap_event(&mut first_update).is_none());
}

#[test]
fn plan_step_routes_each_event() {
    assert_eq!(plan_step(QueueEvent::SpinnerUpdate), LoopStep::SpinnerRedraw);
    assert_eq!(plan_step(QueueEvent::Notify), LoopStep::FullUpdate);
    assert_eq!(
        plan_step(QueueEvent::AsyncEvent(AsyncNotification::Git(
            git::AsyncNotification::FinishUnchanged
        ))),
        LoopStep::RedrawOnly
    );
    assert_eq!(
        plan_step(QueueEvent::AsyncEvent(AsyncNotification::Git(git::AsyncNotification::Fetch))),
        LoopStep::AsyncUpdate(AsyncNotification::Git(git::AsyncNotification::Fetch))
    );
}

#[test]
fn progress_percent_formula() {
    assert_eq!(ProgressPercent::new(50, 200).progress, 25);
    assert_eq!(ProgressPercent::new(3, 4).progress, 75);
    assert_eq!(ProgressPercent::new(5, 0).progress, 100);
    assert_eq!(ProgressPercent::new(0, 0).progress, 0);
    assert_eq!(ProgressPercent::new(9, 2).progress, 100);
    assert_eq!(ProgressPercent::empty().progress, 0);
}

#[test]
fn hash_is_deterministic_within_a_run() {
    let a = git::hash(b"some file content");
    let b = git::hash(b"some file content");
    assert_eq!(a, b);
    let c = git::hash(b"other content");
    assert_ne!(a, c);
}

#[test]
fn navigation_scrolls_the_syntax_view() {
    let mut comp = SyntaxTextComponent::new(KeyConfig::default());
    comp.paragraph_state = ParagraphState {
        scroll: ScrollPos { x: 0, y: 0 },
        lines: 10,
        height: 4,
    };
    let r = comp.event(&InputEvent::Input(KeyInput::plain(KeyCode::Down)));
    assert!(matches!(r, EventState::Consumed));
    assert_eq!(comp.paragraph_state.scroll.y, 1);
    let r = comp.event(&InputEvent::Input(KeyInput::plain(KeyCode::End)));
    assert!(matches!(r, EventState::Consumed));
    // lines minus the visible text rows (height minus two border rows)
    assert_eq!(comp.paragraph_state.scroll.y, 8);
    let r = comp.event(&InputEvent::Input(KeyInput::plain(KeyCode::End)));
    assert!(matches!(r, EventState::NotConsumed));
    let r = comp.event(&InputEvent::Input(KeyInput::plain(KeyCode::Home)));
    assert!(matches!(r, EventState::Consumed));
    assert_eq!(comp.paragraph_state.scroll.y, 0);
}

#[test]
fn valid_path_requires_a_non_bare_repository() {
    assert!(valid_path(&RepoProbe { found: true, bare: false }));
    assert!(!valid_path(&RepoProbe { found: true, bare: true }));
    assert!(!valid_path(&RepoProbe { found: false, bare: false }));
}
