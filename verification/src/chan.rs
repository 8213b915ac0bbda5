//! Trusted declarations and wrappers for the crossbeam channels the
//! multiplexer drains.
//!
//! A channel is shared, concurrent state: nothing can be promised
//! about which message a receive yields or when. The wrappers
//! therefore only convert the outside results into plain values; the
//! verified selection logic in the crate root states what it does with
//! whatever came back.

use vstd::prelude::*;

use crate::git;
use crate::input::InputEvent;
use crate::AsyncAppNotification;
use crossbeam_channel::Receiver;
use std::time::Instant;

verus! {

/// The receiving half of a crossbeam channel, opaque to the verifier.
#[verifier::external_type_specification]
#[verifier::external_body]
#[verifier::reject_recursive_types(T)]
pub struct ExReceiver<T>(Receiver<T>);

/// A point in time as the spinner ticker stamps its messages; the
/// consumer only ever discards it.
#[verifier::external_type_specification]
#[verifier::external_body]
pub struct ExInstant(Instant);

/// The fatal bus failure: a channel was disconnected, so a producer
/// thread died and the invariant that every spawned job eventually
/// notifies no longer holds.
#[derive(Clone, Copy, Debug, PartialEq, Eq, Structural)]
pub struct ChannelDisconnected;

/// Relies on `crossbeam_channel::Receiver::try_recv`: yields a message
/// if one is immediately available, nothing if the channel is empty,
/// and an error only once the channel is disconnected and drained.
#[verifier::external_body]
pub(crate) fn try_recv_input(rx: &Receiver<InputEvent>) -> Result<
    Option<InputEvent>,
    ChannelDisconnected,
> {
    match rx.try_recv() {
        Ok(v) => Ok(Some(v)),
        Err(crossbeam_channel::TryRecvError::Empty) => Ok(None),
        Err(crossbeam_channel::TryRecvError::Disconnected) => Err(ChannelDisconnected),
    }
}

/// Relies on `crossbeam_channel::Receiver::try_recv`, as above, for
/// the repository-domain notification bus.
#[verifier::external_body]
pub(crate) fn try_recv_git(rx: &Receiver<git::AsyncNotification>) -> Result<
    Option<git::AsyncNotification>,
    ChannelDisconnected,
> {
    match rx.try_recv() {
        Ok(v) => Ok(Some(v)),
        Err(crossbeam_channel::TryRecvError::Empty) => Ok(None),
        Err(crossbeam_channel::TryRecvError::Disconnected) => Err(ChannelDisconnected),
    }
}

/// Relies on `crossbeam_channel::Receiver::try_recv`, as above, for
/// the application-domain notification bus.
#[verifier::external_body]
pub(crate) fn try_recv_app(rx: &Receiver<AsyncAppNotification>) -> Result<
    Option<AsyncAppNotification>,
    ChannelDisconnected,
> {
    match rx.try_recv() {
        Ok(v) => Ok(Some(v)),
        Err(crossbeam_channel::TryRecvError::Empty) => Ok(None),
        Err(crossbeam_channel::TryRecvError::Disconnected) => Err(ChannelDisconnected),
    }
}

/// Relies on `crossbeam_channel::Receiver::try_recv`, as above, for
/// the debounced watcher's unit signal.
#[verifier::external_body]
pub(crate) fn try_recv_notify(rx: &Receiver<()>) -> Result<Option<()>, ChannelDisconnected> {
    match rx.try_recv() {
        Ok(v) => Ok(Some(v)),
        Err(crossbeam_channel::TryRecvError::Empty) => Ok(None),
        Err(crossbeam_channel::TryRecvError::Disconnected) => Err(ChannelDisconnected),
    }
}

/// Relies on `crossbeam_channel::Receiver::try_recv`, as above, for
/// the spinner ticker.
#[verifier::external_body]
pub(crate) fn try_recv_spinner(rx: &Receiver<Instant>) -> Result<
    Option<Instant>,
    ChannelDisconnected,
> {
    match rx.try_recv() {
        Ok(v) => Ok(Some(v)),
        Err(crossbeam_channel::TryRecvError::Empty) => Ok(None),
        Err(crossbeam_channel::TryRecvError::Disconnected) => Err(ChannelDisconnected),
    }
}

/// One received message, tagged with the source it came from. The
/// verified mapping into the unified event stream lives in the crate
/// root; this type only carries the outside result across the trust
/// boundary.
pub enum SelectedSource {
    Input(InputEvent),
    Git(git::AsyncNotification),
    App(AsyncAppNotification),
    Notify,
    Spinner,
}

/// Relies on `crossbeam_channel::Select`: registers the five receivers
/// in order, blocks until an operation is ready, and completes that
/// one receive. When several are ready crossbeam picks among them at
/// random, so no source is permanently starved. The error is the
/// fatal case: the selected channel was disconnected.
#[verifier::external_body]
pub(crate) fn recv_source_blocking(
    rx_input: &Receiver<InputEvent>,
    rx_git: &Receiver<git::AsyncNotification>,
    rx_app: &Receiver<AsyncAppNotification>,
    rx_notify: &Receiver<()>,
    rx_spinner: &Receiver<Instant>,
) -> Result<SelectedSource, ChannelDisconnected> {
    let mut sel = crossbeam_channel::Select::new();
    sel.recv(rx_input);
    sel.recv(rx_git);
    sel.recv(rx_app);
    sel.recv(rx_notify);
    sel.recv(rx_spinner);
    let oper = sel.select();
    match oper.index() {
        0 => oper.recv(rx_input).map(SelectedSource::Input),
        1 => oper.recv(rx_git).map(SelectedSource::Git),
        2 => oper.recv(rx_app).map(SelectedSource::App),
        3 => oper.recv(rx_notify).map(|_| SelectedSource::Notify),
        _ => oper.recv(rx_spinner).map(|_| SelectedSource::Spinner),
    }.map_err(|_| ChannelDisconnected)
}

} // verus!
