use vstd::prelude::*;

verus! {

/// One delivery from the debounced backend: a non-empty batch of coalesced
/// filesystem events, or the error the backend ran into.
pub type EventBatch = Result<Vec<notify_debouncer_mini::DebouncedEvent>, notify::Error>;

// Declarations of the outside types this module carries through. Verus
// sees nothing inside a value of them.

#[verifier::external_type_specification]
#[verifier::external_body]
#[verifier::reject_recursive_types(T)]
pub struct ExCrossbeamSender<T>(crossbeam_channel::Sender<T>);

#[verifier::external_type_specification]
#[verifier::external_body]
#[verifier::reject_recursive_types(T)]
pub struct ExCrossbeamReceiver<T>(crossbeam_channel::Receiver<T>);

#[verifier::external_type_specification]
#[verifier::external_body]
#[verifier::reject_recursive_types(T)]
pub struct ExMpscSender<T>(std::sync::mpsc::Sender<T>);

#[verifier::external_type_specification]
#[verifier::external_body]
#[verifier::reject_recursive_types(T)]
pub struct ExMpscReceiver<T>(std::sync::mpsc::Receiver<T>);

#[verifier::external_type_specification]
#[verifier::external_body]
pub struct ExNotifyError(notify::Error);

#[verifier::external_type_specification]
#[verifier::external_body]
pub struct ExDebouncedEvent(notify_debouncer_mini::DebouncedEvent);

/// Opaque holder for the event-driven backend's guard
/// (notify_debouncer_mini::Debouncer over the platform watcher); its
/// declaration carries a trait bound Verus refuses, so it is hidden whole.
#[verifier::external_body]
pub struct RecommendedBackend {
    inner: notify_debouncer_mini::Debouncer<notify::RecommendedWatcher>,
}

/// Opaque holder for the polling backend's guard.
#[verifier::external_body]
pub struct PollBackend {
    inner: notify_debouncer_mini::Debouncer<notify::PollWatcher>,
}

/// Relies on std::sync::mpsc::channel: an unbounded channel from the
/// debounced backend to the forwarding loop.
#[verifier::external_body]
fn batch_channel() -> (std::sync::mpsc::Sender<EventBatch>, std::sync::mpsc::Receiver<
    EventBatch,
>) {
    std::sync::mpsc::channel()
}

/// Relies on crossbeam_channel::unbounded: the externally exposed change
/// signal channel; safe for several producers and cloneable consumers.
#[verifier::external_body]
fn signal_channel() -> (crossbeam_channel::Sender<()>, crossbeam_channel::Receiver<()>) {
    crossbeam_channel::unbounded()
}

/// Relies on crossbeam_channel::Receiver::clone: every clone is an
/// independent read handle on the same channel.
#[verifier::external_body]
fn clone_signal_receiver(rx: &crossbeam_channel::Receiver<()>) -> crossbeam_channel::Receiver<
    (),
> {
    rx.clone()
}

/// Relies on crossbeam_channel::Sender::send, which fails only once all
/// receivers are gone; the result says whether the channel still stands.
#[verifier::external_body]
fn send_signal(tx: &crossbeam_channel::Sender<()>) -> bool {
    tx.send(()).is_ok()
}

/// Relies on std::sync::mpsc::Receiver::recv: blocks for the next batch;
/// `None` means every sender is gone and no batch will come again.
#[verifier::external_body]
fn recv_batch(rx: &std::sync::mpsc::Receiver<EventBatch>) -> Option<EventBatch> {
    rx.recv().ok()
}

/// Relies on notify_debouncer_mini::new_debouncer: starts the debounce
/// thread over the platform's event-driven watcher backend.
#[verifier::external_body]
fn new_recommended_debouncer(
    timeout_secs: u64,
    tx: std::sync::mpsc::Sender<EventBatch>,
) -> Result<RecommendedBackend, notify::Error> {
    let inner = notify_debouncer_mini::new_debouncer(
        std::time::Duration::from_secs(timeout_secs),
        tx,
    )?;
    Ok(RecommendedBackend { inner })
}

/// Relies on notify_debouncer_mini::new_debouncer_opt: starts the debounce
/// thread over the polling backend, scanning at the given interval.
#[verifier::external_body]
fn new_poll_debouncer(
    timeout_secs: u64,
    poll_secs: u64,
    tx: std::sync::mpsc::Sender<EventBatch>,
) -> Result<PollBackend, notify::Error> {
    let config = notify_debouncer_mini::Config::default().with_timeout(
        std::time::Duration::from_secs(timeout_secs),
    ).with_notify_config(
        notify::Config::default().with_poll_interval(std::time::Duration::from_secs(poll_secs)),
    );
    let inner = notify_debouncer_mini::new_debouncer_opt::<_, notify::PollWatcher>(config, tx)?;
    Ok(PollBackend { inner })
}

/// Relies on notify::Watcher::watch: installs the recursive watch on the
/// given directory, failing on a path that cannot be watched.
#[verifier::external_body]
fn watch_recursive_recommended(
    bouncer: &mut RecommendedBackend,
    workdir: &str,
) -> Result<(), notify::Error> {
    bouncer.inner.watcher().watch(std::path::Path::new(workdir), notify::RecursiveMode::Recursive)
}

/// Relies on notify::Watcher::watch, on the polling backend.
#[verifier::external_body]
fn watch_recursive_poll(
    bouncer: &mut PollBackend,
    workdir: &str,
) -> Result<(), notify::Error> {
    bouncer.inner.watcher().watch(std::path::Path::new(workdir), notify::RecursiveMode::Recursive)
}

/// Relies on std::mem::forget: the watch is deliberately process-lifetime
/// scoped, so the backend guard must never be dropped (dropping it would
/// stop the watch).
#[verifier::external_body]
fn keep_watching_recommended(bouncer: RecommendedBackend) {
    std::mem::forget(bouncer)
}

/// Relies on std::mem::forget, for the polling backend guard.
#[verifier::external_body]
fn keep_watching_poll(bouncer: PollBackend) {
    std::mem::forget(bouncer)
}

/// Relies on notify::Error's Display rendering for a human-readable
/// description.
#[verifier::external_body]
fn watch_error_text(e: &notify::Error) -> String {
    format!("{}", e)
}

/// Fatal construction-time failure: the backend could not be started or
/// the recursive watch on the root path could not be installed.
#[derive(Clone, Debug, PartialEq, Eq)]
pub struct WatcherInitError {
    pub message: String,
}

/// The debounce window applied to raw filesystem events, in seconds.
pub const DEBOUNCE_SECS: u64 = 2;

/// The scan interval of the polling backend, in seconds.
pub const POLL_INTERVAL_SECS: u64 = 2;

/// Whether a delivered batch warrants one change signal: only a non-empty
/// event batch does; an error batch is swallowed without a signal.
pub open spec fn batch_emits(batch: EventBatch) -> bool {
    match batch {
        Ok(events) => events@.len() > 0,
        Err(_) => false,
    }
}

/// The forwarding decision for one delivered batch.
pub fn should_signal(batch: &EventBatch) -> (r: bool)
    ensures
        r == batch_emits(*batch),
{
    match batch {
        Ok(events) => events.len() > 0,
        Err(_) => false,
    }
}

/// Start the chosen backend and install the recursive watch on `workdir`,
/// synchronously, so that a failure reaches the caller at construction
/// time. On success the backend guard is deliberately leaked: the watch
/// lives for the rest of the process.
fn create_watcher(
    poll: bool,
    timeout_secs: u64,
    tx: std::sync::mpsc::Sender<EventBatch>,
    workdir: &str,
) -> Result<(), WatcherInitError> {
    if poll {
        match new_poll_debouncer(timeout_secs, POLL_INTERVAL_SECS, tx) {
            Ok(mut bouncer) => match watch_recursive_poll(&mut bouncer, workdir) {
                Ok(()) => {
                    keep_watching_poll(bouncer);
                    Ok(())
                },
                Err(e) => Err(WatcherInitError { message: watch_error_text(&e) }),
            },
            Err(e) => Err(WatcherInitError { message: watch_error_text(&e) }),
        }
    } else {
        match new_recommended_debouncer(timeout_secs, tx) {
            Ok(mut bouncer) => match watch_recursive_recommended(&mut bouncer, workdir) {
                Ok(()) => {
                    keep_watching_recommended(bouncer);
                    Ok(())
                },
                Err(e) => Err(WatcherInitError { message: watch_error_text(&e) }),
            },
            Err(e) => Err(WatcherInitError { message: watch_error_text(&e) }),
        }
    }
}

/// The forwarding loop's half of the watcher: it owns the backend's batch
/// channel and the sending side of the change-signal channel. The caller
/// runs it on a thread of its own.
pub struct ForwarderTask {
    batch_rx: std::sync::mpsc::Receiver<EventBatch>,
    signal_tx: crossbeam_channel::Sender<()>,
}

impl ForwarderTask {
    /// One turn of the forwarding loop: wait for the next batch and emit
    /// one change signal if it warrants one. Returns whether the loop may
    /// go on; `false` means a channel was severed on one side — the
    /// backend threads or every signal consumer are gone — and the caller
    /// must stop without restart, a known limitation of the design.
    pub fn step(&self) -> bool {
        match recv_batch(&self.batch_rx) {
            None => false,
            Some(batch) => {
                if should_signal(&batch) {
                    send_signal(&self.signal_tx)
                } else {
                    true
                }
            },
        }
    }
}

/// The debounced repository watcher: holds the reading side of the
/// payload-free change-signal channel.
pub struct RepoWatcher {
    receiver: crossbeam_channel::Receiver<()>,
}

impl RepoWatcher {
    /// Construct the watcher on `workdir`, event-driven or polling. The
    /// backend starts and the recursive watch is installed before this
    /// returns, so a path the backend refuses fails here and not later
    /// (the event-driven backend refuses a missing path; the polling
    /// backend scans and reports nothing for one). On success the caller
    /// must run the returned task on a background thread; the watcher then
    /// signals once per closed debounce batch.
    pub fn new(workdir: &str, poll: bool) -> Result<(RepoWatcher, ForwarderTask), WatcherInitError> {
        let (tx, rx) = batch_channel();
        match create_watcher(poll, DEBOUNCE_SECS, tx, workdir) {
            Err(e) => Err(e),
            Ok(()) => {
                let (out_tx, out_rx) = signal_channel();
                Ok(
                    (
                        RepoWatcher { receiver: out_rx },
                        ForwarderTask { batch_rx: rx, signal_tx: out_tx },
                    ),
                )
            },
        }
    }

    /// An independent read handle on the change-signal channel; every
    /// clone observes every signal delivered after it was taken.
    pub fn receiver(&self) -> crossbeam_channel::Receiver<()> {
        clone_signal_receiver(&self.receiver)
    }
}

} // verus!
