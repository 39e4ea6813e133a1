//! Coalescing of filesystem events into change events.
//!
//! `Subscription::for_file` says what the caller subscribes to: the
//! directory that holds the configuration file, not the file and not what
//! lies below the directory, so that a save that replaces the file is seen
//! too. The caller hands every raw event to the `ConfigWatcher`, and asks it
//! from time to time whether a change is to be forwarded. A burst of raw events is forwarded as one change, once
//! no raw event has arrived for the length of the window. What is done
//! about a change is the caller's business.

use crate::error::Error;
use crate::schema::Config;
use vstd::prelude::*;

verus! {

/// The length of the window, in milliseconds.
pub const DEBOUNCE_MILLIS: u64 = 10;

/// What the caller asks of the filesystem. A path is the sequence of its
/// components, whatever the caller uses for one.
#[derive(Debug, PartialEq, Eq)]
pub struct Subscription<C> {
    /// The directory to watch.
    pub directory: Vec<C>,
    /// Whether what lies below the directory is watched too.
    pub recursive: bool,
}

/// The directory that holds `file`: the path without its last component.
/// The empty path holds itself.
pub open spec fn containing_directory<C>(file: Seq<C>) -> Seq<C> {
    if file.len() == 0 {
        file
    } else {
        file.drop_last()
    }
}

impl<C> Subscription<C> {
    /// The subscription by which the configuration file `file` is watched:
    /// to the directory that holds it, and to nothing below that directory.
    pub fn for_file(file: Vec<C>) -> (request: Subscription<C>)
        ensures
            request.directory@ == containing_directory(file@),
            !request.recursive,
    {
        let mut directory = file;
        directory.pop();
        assert(directory@ =~= containing_directory(file@));
        Subscription { directory, recursive: false }
    }
}

/// What the caller tells a `ConfigWatcher`, with the time in milliseconds
/// at which it happened.
#[derive(Clone, Copy, Debug, PartialEq, Eq, Structural)]
pub enum Input {
    /// The filesystem reported an event in the watched directory.
    Event(u64),
    /// Nothing happened; the caller asks whether a change is due.
    Poll(u64),
}

/// Coalesces raw events. It holds the time of the latest raw event that
/// belongs to a burst not forwarded yet.
#[derive(Debug)]
pub struct ConfigWatcher {
    window: u64,
    pending: Option<u64>,
}

/// Where a `ConfigWatcher` stands after a run of inputs.
pub struct Trace {
    /// The time of the latest raw event of the burst not forwarded yet.
    pub pending: Option<u64>,
    /// How many changes were forwarded.
    pub forwarded: nat,
}

impl Input {
    /// When the input happened.
    pub open spec fn time(self) -> u64 {
        match self {
            Input::Event(now) => now,
            Input::Poll(now) => now,
        }
    }
}

/// Whether the burst that is pending has been quiet for a whole window.
pub open spec fn is_expired(pending: Option<u64>, window: u64, now: u64) -> bool {
    pending matches Some(last) && now - last >= window
}

/// Whether an input makes the pending burst go out as a change.
pub open spec fn forwards(pending: Option<u64>, window: u64, input: Input) -> bool {
    is_expired(pending, window, input.time())
}

/// What is pending after an input. A raw event joins the pending burst, or
/// starts a new one if that burst goes out; either way the window starts
/// anew with it.
pub open spec fn pending_after(pending: Option<u64>, window: u64, input: Input) -> Option<u64> {
    match input {
        Input::Event(now) => Some(now),
        Input::Poll(now) => if is_expired(pending, window, now) {
            None
        } else {
            pending
        },
    }
}

/// Where a watcher that starts idle stands after `inputs`.
pub open spec fn run(window: u64, inputs: Seq<Input>) -> Trace
    decreases inputs.len(),
{
    if inputs.len() == 0 {
        Trace { pending: None, forwarded: 0 }
    } else {
        let before = run(window, inputs.drop_last());
        Trace {
            pending: pending_after(before.pending, window, inputs.last()),
            forwarded: if forwards(before.pending, window, inputs.last()) {
                before.forwarded + 1
            } else {
                before.forwarded
            },
        }
    }
}

/// The times of the raw events among `inputs`, in their order.
pub open spec fn event_times(inputs: Seq<Input>) -> Seq<u64>
    decreases inputs.len(),
{
    if inputs.len() == 0 {
        Seq::empty()
    } else {
        match inputs.last() {
            Input::Event(now) => event_times(inputs.drop_last()).push(now),
            Input::Poll(_) => event_times(inputs.drop_last()),
        }
    }
}

/// Whether no input happened before the one in front of it.
pub open spec fn in_order(inputs: Seq<Input>) -> bool {
    forall|i: int, j: int| 0 <= i <= j < inputs.len() ==> inputs[i].time() <= inputs[j].time()
}

/// The number of bursts among raw events at `times`: a raw event starts a
/// burst if it is the first, or comes a window or more after the one
/// before it.
pub open spec fn bursts(window: u64, times: Seq<u64>) -> nat
    decreases times.len(),
{
    if times.len() == 0 {
        0
    } else if times.len() == 1 {
        1
    } else if times.last() - times[times.len() - 2] >= window {
        bursts(window, times.drop_last()) + 1
    } else {
        bursts(window, times.drop_last())
    }
}

impl ConfigWatcher {
    /// The length of the window, in milliseconds.
    pub closed spec fn window(&self) -> u64 {
        self.window
    }

    /// The time of the latest raw event of the burst not forwarded yet.
    pub closed spec fn pending(&self) -> Option<u64> {
        self.pending
    }

    /// An idle watcher with the given window.
    pub fn new(window: u64) -> (watcher: ConfigWatcher)
        ensures
            watcher.window() == window,
            watcher.pending() is None,
    {
        ConfigWatcher { window, pending: None }
    }

    /// Takes an input and says whether a change is to be forwarded now.
    ///
    /// A change is forwarded when the pending burst has been quiet for a
    /// whole window at the time of the input.
    pub fn handle(&mut self, input: Input) -> (forward: bool)
        ensures
            forward == forwards(old(self).pending(), old(self).window(), input),
            final(self).pending() == pending_after(old(self).pending(), old(self).window(), input),
            final(self).window() == old(self).window(),
    {
        let now = match input {
            Input::Event(now) => now,
            Input::Poll(now) => now,
        };
        let forward = match self.pending {
            Some(last) => now >= last && now - last >= self.window,
            None => false,
        };
        match input {
            Input::Event(_) => {
                self.pending = Some(now);
            },
            Input::Poll(_) => {
                if forward {
                    self.pending = None;
                }
            },
        }
        forward
    }

    /// The time at which the pending burst is due, if one is pending: the
    /// caller polls then at the latest. A time past the end of the clock
    /// counts as its end.
    pub fn due(&self) -> (at: Option<u64>)
        ensures
            self.pending() is None ==> at is None,
            self.pending() matches Some(last) ==> at == Some(
                if last + self.window() <= u64::MAX {
                    (last + self.window()) as u64
                } else {
                    u64::MAX
                },
            ),
    {
        match self.pending {
            Some(last) => Some(last.saturating_add(self.window)),
            None => None,
        }
    }
}

impl Config {
    /// Makes the handle for the subscription that `Subscription::for_file`
    /// asks for. `subscribed` is what came of subscribing: the text of the
    /// failure if the directory cannot be watched. Without a handle the
    /// configuration in force simply stays.
    pub fn watch(subscribed: Result<(), String>) -> (r: Result<ConfigWatcher, Error>)
        ensures
            match subscribed {
                Ok(_) => r matches Ok(watcher) && watcher.window() == DEBOUNCE_MILLIS
                    && watcher.pending() is None,
                Err(detail) => r matches Err(e) && e == Error::Watch(detail),
            },
    {
        match subscribed {
            Ok(_) => Ok(ConfigWatcher::new(DEBOUNCE_MILLIS)),
            Err(detail) => Err(Error::Watch(detail)),
        }
    }
}

/// Where a watcher stands after inputs in order: the changes forwarded so
/// far, and the burst that is pending if there is one, are the bursts
/// among the raw events.
pub proof fn lemma_run_tracks_bursts(window: u64, inputs: Seq<Input>)
    requires
        in_order(inputs),
    ensures
        ({
            let trace = run(window, inputs);
            let times = event_times(inputs);
            &&& times.len() > 0 ==> inputs.len() > 0 && times.last() <= inputs.last().time()
            &&& trace.pending matches Some(last) ==> times.len() > 0 && last == times.last()
                && trace.forwarded + 1 == bursts(window, times)
            &&& trace.pending is None ==> trace.forwarded == bursts(window, times) && (times.len()
                > 0 ==> inputs.last().time() - times.last() >= window)
        }),
    decreases inputs.len(),
{
    if inputs.len() > 0 {
        let earlier = inputs.drop_last();
        assert(in_order(earlier)) by {
            assert forall|i: int, j: int| 0 <= i <= j < earlier.len() implies earlier[i].time()
                <= earlier[j].time() by {
                assert(earlier[i] == inputs[i] && earlier[j] == inputs[j]);
            }
        }
        lemma_run_tracks_bursts(window, earlier);
        let times = event_times(inputs);
        let before = event_times(earlier);
        if earlier.len() > 0 {
            assert(earlier.last() == inputs[inputs.len() - 2]);
            assert(earlier.last().time() <= inputs.last().time());
        }
        match inputs.last() {
            Input::Event(now) => {
                assert(times == before.push(now));
                assert(times.drop_last() =~= before);
                if before.len() > 0 {
                    assert(times[times.len() - 2] == before.last());
                }
            },
            Input::Poll(_) => {
                assert(times == before);
            },
        }
    }
}

/// The debounce law. Raw events and polls arrive in order, and at the end
/// the caller polls once the last raw event is a window or more in the
/// past. Then as many changes were forwarded as there are bursts among the
/// raw events, however the polls lie between them, and nothing is pending.
pub proof fn lemma_debounce(window: u64, inputs: Seq<Input>, end: u64)
    requires
        in_order(inputs.push(Input::Poll(end))),
        event_times(inputs).len() > 0 ==> end - event_times(inputs).last() >= window,
    ensures
        run(window, inputs.push(Input::Poll(end))).forwarded == bursts(
            window,
            event_times(inputs),
        ),
        run(window, inputs.push(Input::Poll(end))).pending is None,
{
    let all = inputs.push(Input::Poll(end));
    assert(all.drop_last() =~= inputs);
    assert(in_order(inputs)) by {
        assert forall|i: int, j: int| 0 <= i <= j < inputs.len() implies inputs[i].time()
            <= inputs[j].time() by {
            assert(inputs[i] == all[i] && inputs[j] == all[j]);
        }
    }
    lemma_run_tracks_bursts(window, inputs);
}

/// Debouncing of a burst: of one or more raw events that each come less
/// than a window after the one before them, exactly one change is
/// forwarded, once the caller polls a window or more after the last.
pub proof fn lemma_events_within_window_forward_once(window: u64, inputs: Seq<Input>, end: u64)
    requires
        in_order(inputs.push(Input::Poll(end))),
        event_times(inputs).len() > 0,
        forall|i: int|
            0 <= i < event_times(inputs).len() - 1 ==> event_times(inputs)[i + 1]
                - #[trigger] event_times(inputs)[i] < window,
        end - event_times(inputs).last() >= window,
    ensures
        run(window, inputs.push(Input::Poll(end))).forwarded == 1,
{
    lemma_debounce(window, inputs, end);
    lemma_one_burst_within_window(window, event_times(inputs));
}

/// Debouncing of events apart: of raw events that each come a window or
/// more after the one before them, one change is forwarded for each, once
/// the caller polls a window or more after the last.
pub proof fn lemma_events_beyond_window_forward_each(window: u64, inputs: Seq<Input>, end: u64)
    requires
        in_order(inputs.push(Input::Poll(end))),
        forall|i: int|
            0 <= i < event_times(inputs).len() - 1 ==> event_times(inputs)[i + 1]
                - #[trigger] event_times(inputs)[i] >= window,
        event_times(inputs).len() > 0 ==> end - event_times(inputs).last() >= window,
    ensures
        run(window, inputs.push(Input::Poll(end))).forwarded == event_times(inputs).len(),
{
    lemma_debounce(window, inputs, end);
    lemma_every_event_a_burst_beyond_window(window, event_times(inputs));
}

/// Raw events that each come less than a window after the one before them
/// are one burst.
pub proof fn lemma_one_burst_within_window(window: u64, times: Seq<u64>)
    requires
        times.len() > 0,
        forall|i: int| 0 <= i < times.len() - 1 ==> times[i + 1] - #[trigger] times[i] < window,
    ensures
        bursts(window, times) == 1,
    decreases times.len(),
{
    if times.len() > 1 {
        let earlier = times.drop_last();
        assert forall|i: int| 0 <= i < earlier.len() - 1 implies earlier[i + 1]
            - #[trigger] earlier[i] < window by {
            assert(earlier[i + 1] == times[i + 1] && earlier[i] == times[i]);
        }
        lemma_one_burst_within_window(window, earlier);
        assert(times[times.len() - 2 + 1] - times[times.len() - 2] < window);
    }
}

/// Raw events that each come a window or more after the one before them
/// are a burst each.
pub proof fn lemma_every_event_a_burst_beyond_window(window: u64, times: Seq<u64>)
    requires
        forall|i: int| 0 <= i < times.len() - 1 ==> times[i + 1] - #[trigger] times[i] >= window,
    ensures
        bursts(window, times) == times.len(),
    decreases times.len(),
{
    if times.len() > 1 {
        let earlier = times.drop_last();
        assert forall|i: int| 0 <= i < earlier.len() - 1 implies earlier[i + 1]
            - #[trigger] earlier[i] >= window by {
            assert(earlier[i + 1] == times[i + 1] && earlier[i] == times[i]);
        }
        lemma_every_event_a_burst_beyond_window(window, earlier);
        assert(times[times.len() - 2 + 1] - times[times.len() - 2] >= window);
    }
}

} // verus!
