use crossbeam_channel::unbounded;
use gitui_core::git;
use gitui_core::input::{InputEvent, InputState, KeyCode, KeyInput};
use gitui_core::ui::{common_nav, MoveSelection};
use gitui_core::{
    select_event, AsyncAppNotification, AsyncNotification, QueueEvent, SyntaxHighlightProgress,
};
use std::time::Instant;

type Channels = (
    crossbeam_channel::Sender<InputEvent>,
    crossbeam_channel::Receiver<InputEvent>,
    crossbeam_channel::Sender<git::AsyncNotification>,
    crossbeam_channel::Receiver<git::AsyncNotification>,
    crossbeam_channel::Sender<AsyncAppNotification>,
    crossbeam_channel::Receiver<AsyncAppNotification>,
    crossbeam_channel::Sender<()>,
    crossbeam_channel::Receiver<()>,
    crossbeam_channel::Sender<Instant>,
    crossbeam_channel::Receiver<Instant>,
);

fn channels() -> Channels {
    let (tx_input, rx_input) = unbounded::<InputEvent>();
    let (tx_git, rx_git) = unbounded::<git::AsyncNotification>();
    let (tx_app, rx_app) = unbounded::<AsyncAppNotification>();
    let (tx_notify, rx_notify) = unbounded::<()>();
    let (tx_spinner, rx_spinner) = unbounded::<Instant>();
    (
        tx_input, rx_input, tx_git, rx_git, tx_app, rx_app, tx_notify, rx_notify, tx_spinner,
        rx_spinner,
    )
}

#[test]
fn select_event_tags_a_git_notification() {
    let (_ti, rx_input, tg, rx_git, _ta, rx_app, _tn, rx_notify, _ts, rx_spinner) = channels();
    tg.send(git::AsyncNotification::Status).unwrap();
    let mut rotation = 0usize;
    let ev = select_event(&rx_input, &rx_git, &rx_app, &rx_notify, &rx_spinner, &mut rotation)
        .unwrap();
    assert!(matches!(
        ev,
        QueueEvent::AsyncEvent(AsyncNotification::Git(git::AsyncNotification::Status))
    ));
    assert_eq!(rotation, 1);
}

#[test]
fn select_event_tags_an_app_notification() {
    let (_ti, rx_input, _tg, rx_git, ta, rx_app, _tn, rx_notify, _ts, rx_spinner) = channels();
    ta.send(AsyncAppNotification::SyntaxHighlighting(SyntaxHighlightProgress::Done)).unwrap();
    let mut rotation = 2usize;
    let ev = select_event(&rx_input, &rx_git, &rx_app, &rx_notify, &rx_spinner, &mut rotation)
        .unwrap();
    assert!(matches!(
        ev,
        QueueEvent::AsyncEvent(AsyncNotification::App(AsyncAppNotification::SyntaxHighlighting(
            SyntaxHighlightProgress::Done
        )))
    ));
    assert_eq!(rotation, 3);
}

#[test]
fn select_event_tags_input_watcher_and_spinner() {
    let (ti, rx_input, _tg, rx_git, _ta, rx_app, tn, rx_notify, ts, rx_spinner) = channels();
    let mut rotation = 0usize;

    ti.send(InputEvent::State(InputState::Polling)).unwrap();
    let ev = select_event(&rx_input, &rx_git, &rx_app, &rx_notify, &rx_spinner, &mut rotation)
        .unwrap();
    assert!(matches!(ev, QueueEvent::InputEvent(InputEvent::State(InputState::Polling))));

    tn.send(()).unwrap();
    let ev = select_event(&rx_input, &rx_git, &rx_app, &rx_notify, &rx_spinner, &mut rotation)
        .unwrap();
    assert!(matches!(ev, QueueEvent::Notify));

    ts.send(Instant::now()).unwrap();
    let ev = select_event(&rx_input, &rx_git, &rx_app, &rx_notify, &rx_spinner, &mut rotation)
        .unwrap();
    assert!(matches!(ev, QueueEvent::SpinnerUpdate));
}

#[test]
fn select_event_reports_a_disconnected_bus() {
    let (ti, rx_input, tg, rx_git, ta, rx_app, tn, rx_notify, ts, rx_spinner) = channels();
    drop(ti);
    drop(tg);
    drop(ta);
    drop(tn);
    drop(ts);
    let mut rotation = 0usize;
    let r = select_event(&rx_input, &rx_git, &rx_app, &rx_notify, &rx_spinner, &mut rotation);
    assert!(r.is_err());
}

#[test]
fn rotation_wraps_after_the_fifth_source() {
    let (_ti, rx_input, tg, rx_git, _ta, rx_app, _tn, rx_notify, _ts, rx_spinner) = channels();
    tg.send(git::AsyncNotification::Diff).unwrap();
    let mut rotation = 4usize;
    let _ = select_event(&rx_input, &rx_git, &rx_app, &rx_notify, &rx_spinner, &mut rotation)
        .unwrap();
    assert_eq!(rotation, 0);
}

#[test]
fn every_source_leads_the_scan_within_five_calls() {
    for start in 0usize..5 {
        let mut led = [false; 5];
        for k in 0usize..5 {
            led[(start + k) % 5] = true;
        }
        assert!(led.iter().all(|x| *x));
    }
}

#[test]
fn navigation_keys_map_to_their_moves() {
    let config = gitui_core::input::KeyConfig::default();
    assert_eq!(
        common_nav(KeyInput::plain(KeyCode::Down), &config),
        Some(MoveSelection::Down)
    );
    assert_eq!(common_nav(KeyInput::plain(KeyCode::Up), &config), Some(MoveSelection::Up));
    assert_eq!(common_nav(KeyInput::plain(KeyCode::Home), &config), Some(MoveSelection::Top));
    assert_eq!(common_nav(KeyInput::plain(KeyCode::End), &config), Some(MoveSelection::End));
    assert_eq!(
        common_nav(KeyInput::plain(KeyCode::PageUp), &config),
        Some(MoveSelection::PageUp)
    );
    assert_eq!(common_nav(KeyInput::plain(KeyCode::Char('q')), &config), None);
}
