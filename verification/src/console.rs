//! The console producer's state and decisions: a cursor over the stop
//! list (laid out in three columns), the toggle operations bound to its
//! keys, and the handling of feedback messages. The terminal loop itself
//! — polling, key reading, rendering — lives outside this crate and calls
//! in here with one decoded key at a time.

use crate::bus::CommandBus;
use crate::matrix::ActivationMatrix;
use crate::matrix::CHANNEL_COUNT;
use crate::messages::ControlMessage;
use crate::messages::FeedbackMessage;
use crate::messages::StateError;
use crate::state::AppState;
use vstd::prelude::*;

verus! {

/// How many columns the console lays the stop list out in.
pub const CONSOLE_COLUMNS: usize = 3;

/// The console's cursor over the stop list.
pub struct ConsoleState {
    selected: usize,
    stops_count: usize,
    items_per_column: usize,
}

/// A key press, already decoded from the terminal's event type.
#[derive(Clone, Copy, Debug, PartialEq, Eq, Structural)]
pub enum ConsoleKey {
    /// Leave the console and shut the program down.
    Quit,
    /// Move the cursor down, wrapping at the end of the list.
    NextItem,
    /// Move the cursor up, wrapping at the start of the list.
    PrevItem,
    /// Jump one column to the right, clamped to the last stop.
    NextColumn,
    /// Jump one column to the left, clamped to the first stop.
    PrevColumn,
    /// Toggle the selected stop on the console's channel.
    ToggleStop,
    /// Enable every stop on the console's channel.
    EnableAll,
    /// Disable every stop on the console's channel.
    DisableAll,
}

/// What the console loop should do after a key was handled.
#[derive(Clone, Copy, Debug, PartialEq, Eq, Structural)]
pub enum ConsoleOutcome {
    Continue,
    Exit,
}

/// The messages an enable-all sweep puts on the bus: one
/// `StopToggle { s, active: true }` for every stop `s` below `upto` that
/// was not yet active on `channel`, in ascending stop order.
pub open spec fn enable_all_messages(m: ActivationMatrix, channel: int, upto: int) -> Seq<
    ControlMessage,
>
    decreases upto,
{
    if upto <= 0 {
        Seq::empty()
    } else {
        enable_all_messages(m, channel, upto - 1) + (if m.active(upto - 1, channel) {
            Seq::empty()
        } else {
            seq![ControlMessage::StopToggle { stop_index: (upto - 1) as usize, active: true }]
        })
    }
}

/// The messages a disable-all sweep puts on the bus: one
/// `StopToggle { s, active: false }` for every stop `s` below `upto` that
/// was active on `channel`, in ascending stop order.
pub open spec fn disable_all_messages(m: ActivationMatrix, channel: int, upto: int) -> Seq<
    ControlMessage,
>
    decreases upto,
{
    if upto <= 0 {
        Seq::empty()
    } else {
        disable_all_messages(m, channel, upto - 1) + (if m.active(upto - 1, channel) {
            seq![ControlMessage::StopToggle { stop_index: (upto - 1) as usize, active: false }]
        } else {
            Seq::empty()
        })
    }
}

impl ConsoleState {
    /// The cursor position.
    pub closed spec fn selected(self) -> int {
        self.selected as int
    }

    /// How many stops the cursor ranges over.
    pub closed spec fn stop_count(self) -> int {
        self.stops_count as int
    }

    /// How many stops one displayed column holds.
    pub closed spec fn column_height(self) -> int {
        self.items_per_column as int
    }

    /// The cursor stays on a stop whenever there is one, and the column
    /// height matches the three-column layout.
    pub open spec fn wf(self) -> bool {
        &&& self.stop_count() > 0 ==> 0 <= self.selected() < self.stop_count()
        &&& self.stop_count() == 0 ==> self.selected() == 0
        &&& self.column_height() == (self.stop_count() + (CONSOLE_COLUMNS - 1)) as int
            / CONSOLE_COLUMNS as int
    }

    /// A cursor on the first stop of a list of `stops_count`.
    pub fn new(stops_count: usize) -> (c: ConsoleState)
        requires
            stops_count < usize::MAX - CONSOLE_COLUMNS,
        ensures
            c.wf(),
            c.selected() == 0,
            c.stop_count() == stops_count,
    {
        ConsoleState {
            selected: 0,
            stops_count,
            items_per_column: (stops_count + (CONSOLE_COLUMNS - 1)) / CONSOLE_COLUMNS,
        }
    }

    /// The cursor position, for rendering and toggling.
    pub fn selected_index(&self) -> (r: usize)
        ensures
            r == self.selected(),
    {
        self.selected
    }

    /// Moves the cursor to the next stop, wrapping past the last one.
    pub fn next_item(&mut self)
        requires
            old(self).wf(),
        ensures
            final(self).wf(),
            final(self).stop_count() == old(self).stop_count(),
            old(self).stop_count() > 0 ==> final(self).selected() == (old(self).selected() + 1)
                % old(self).stop_count(),
            old(self).stop_count() == 0 ==> final(self).selected() == old(self).selected(),
    {
        if self.stops_count > 0 {
            self.selected = (self.selected + 1) % self.stops_count;
        }
    }

    /// Moves the cursor to the previous stop, wrapping past the first one.
    pub fn prev_item(&mut self)
        requires
            old(self).wf(),
        ensures
            final(self).wf(),
            final(self).stop_count() == old(self).stop_count(),
            old(self).stop_count() > 0 ==> final(self).selected() == (if old(self).selected() == 0 {
                old(self).stop_count() - 1
            } else {
                old(self).selected() - 1
            }),
            old(self).stop_count() == 0 ==> final(self).selected() == old(self).selected(),
    {
        if self.stops_count > 0 {
            if self.selected == 0 {
                self.selected = self.stops_count - 1;
            } else {
                self.selected = self.selected - 1;
            }
        }
    }

    /// Jumps one column to the right, clamped to the last stop.
    pub fn next_col(&mut self)
        requires
            old(self).wf(),
        ensures
            final(self).wf(),
            final(self).stop_count() == old(self).stop_count(),
            old(self).stop_count() > 0 ==> final(self).selected() == (if old(self).selected()
                + old(self).column_height() < old(self).stop_count() {
                old(self).selected() + old(self).column_height()
            } else {
                old(self).stop_count() - 1
            }),
            old(self).stop_count() == 0 ==> final(self).selected() == old(self).selected(),
    {
        if self.stops_count > 0 {
            if self.stops_count - 1 - self.selected > self.items_per_column {
                self.selected = self.selected + self.items_per_column;
            } else {
                self.selected = self.stops_count - 1;
            }
        }
    }

    /// Jumps one column to the left, clamped to the first stop.
    pub fn prev_col(&mut self)
        requires
            old(self).wf(),
        ensures
            final(self).wf(),
            final(self).stop_count() == old(self).stop_count(),
            final(self).selected() == (if old(self).selected() >= old(self).column_height() {
                old(self).selected() - old(self).column_height()
            } else {
                0
            }),
    {
        if self.selected >= self.items_per_column {
            self.selected = self.selected - self.items_per_column;
        } else {
            self.selected = 0;
        }
    }
}

/// Flips the selected stop on `channel`: membership becomes the opposite
/// of what it was, the edit is committed, and one `StopToggle` carrying
/// the new membership goes out on `bus`. On an empty stop list the
/// operation is rejected as out of range.
pub fn toggle_selected_stop(
    console: &ConsoleState,
    state: &mut AppState,
    bus: &mut CommandBus,
    channel: u8,
) -> (r: Result<(usize, bool), StateError>)
    requires
        old(state).wf(),
        console.wf(),
        console.stop_count() == old(state).organ.stop_count(),
        channel < CHANNEL_COUNT,
    ensures
        final(state).wf(),
        final(state).organ == old(state).organ,
        console.stop_count() == 0 ==> {
            &&& r == Err::<(usize, bool), StateError>(StateError::IndexOutOfRange)
            &&& *final(state) == *old(state)
            &&& final(bus).sent() == old(bus).sent()
        },
        console.stop_count() > 0 ==> {
            let turned_on = !old(state).matrix.active(console.selected(), channel as int);
            &&& final(state).matrix.active(console.selected(), channel as int) == turned_on
            &&& forall|s: int, c: int|
                !(s == console.selected() && c == channel) ==> final(state).matrix.active(s, c)
                    == old(state).matrix.active(s, c)
            &&& (r matches Ok(v) ==> v == (console.selected() as usize, turned_on) && final(bus).sent() == old(bus).sent().push(
                ControlMessage::StopToggle {
                    stop_index: console.selected() as usize,
                    active: turned_on,
                },
            ))
            &&& (r is Err ==> r == Err::<(usize, bool), StateError>(StateError::BusDisconnected)
                && final(bus).sent() == old(bus).sent())
        },
{
    if console.stops_count == 0 {
        return Err(StateError::IndexOutOfRange);
    }
    let stop_index = console.selected;
    let turned_on = !state.matrix.is_active(stop_index, channel);
    match state.set_stop_channel(bus, stop_index, channel, turned_on) {
        Ok(()) => Ok((stop_index, turned_on)),
        Err(e) => Err(e),
    }
}

/// Enables every stop on `channel`, sending one `StopToggle` per stop
/// that was not yet enabled, in ascending stop order. If the renderer
/// disconnects midway, the sweep stops with `BusDisconnected`; the edits
/// already made stay committed, and no stop has been disabled.
pub fn select_all_stops(state: &mut AppState, bus: &mut CommandBus, channel: u8) -> (r: Result<
    (),
    StateError,
>)
    requires
        old(state).wf(),
        channel < CHANNEL_COUNT,
    ensures
        final(state).wf(),
        final(state).organ == old(state).organ,
        forall|s: int, c: int|
            c != channel ==> final(state).matrix.active(s, c) == old(state).matrix.active(s, c),
        forall|s: int|
            old(state).matrix.active(s, channel as int) ==> final(state).matrix.active(
                s,
                channel as int,
            ),
        r is Ok ==> {
            &&& forall|s: int|
                0 <= s < final(state).organ.stop_count() ==> final(state).matrix.active(
                    s,
                    channel as int,
                )
            &&& final(bus).sent() == old(bus).sent() + enable_all_messages(
                old(state).matrix,
                channel as int,
                old(state).organ.stop_count(),
            )
        },
        r is Err ==> r == Err::<(), StateError>(StateError::BusDisconnected),
{
    let count = state.organ.stops.len();
    let mut i: usize = 0;
    while i < count
        invariant
            i <= count,
            state.wf(),
            channel < CHANNEL_COUNT,
            state.organ == old(state).organ,
            count == state.organ.stop_count(),
            forall|s: int, c: int|
                c != channel ==> state.matrix.active(s, c) == old(state).matrix.active(s, c),
            forall|s: int| 0 <= s < i ==> state.matrix.active(s, channel as int),
            forall|s: int|
                !(0 <= s < i) ==> state.matrix.active(s, channel as int) == old(state).matrix.active(s, channel as int),
            bus.sent() == old(bus).sent() + enable_all_messages(
                old(state).matrix,
                channel as int,
                i as int,
            ),
        decreases count - i,
    {
        if !state.matrix.is_active(i, channel) {
            match state.set_stop_channel(bus, i, channel, true) {
                Ok(()) => {},
                Err(e) => {
                    return Err(e);
                },
            }
        }
        proof {
            assert(bus.sent() =~= old(bus).sent() + enable_all_messages(
                old(state).matrix,
                channel as int,
                i + 1,
            ));
        }
        i = i + 1;
    }
    Ok(())
}

/// Disables every stop on `channel`, sending one `StopToggle` per stop
/// that was enabled, in ascending stop order. If the renderer disconnects
/// midway, the sweep stops with `BusDisconnected`; the edits already made
/// stay committed, and no stop has been enabled.
pub fn select_none_stops(state: &mut AppState, bus: &mut CommandBus, channel: u8) -> (r: Result<
    (),
    StateError,
>)
    requires
        old(state).wf(),
        channel < CHANNEL_COUNT,
    ensures
        final(state).wf(),
        final(state).organ == old(state).organ,
        forall|s: int, c: int|
            c != channel ==> final(state).matrix.active(s, c) == old(state).matrix.active(s, c),
        forall|s: int|
            final(state).matrix.active(s, channel as int) ==> old(state).matrix.active(
                s,
                channel as int,
            ),
        r is Ok ==> {
            &&& forall|s: int| !final(state).matrix.active(s, channel as int)
            &&& final(bus).sent() == old(bus).sent() + disable_all_messages(
                old(state).matrix,
                channel as int,
                old(state).organ.stop_count(),
            )
        },
        r is Err ==> r == Err::<(), StateError>(StateError::BusDisconnected),
{
    let count = state.organ.stops.len();
    let mut i: usize = 0;
    while i < count
        invariant
            i <= count,
            state.wf(),
            channel < CHANNEL_COUNT,
            state.organ == old(state).organ,
            count == state.organ.stop_count(),
            forall|s: int, c: int|
                c != channel ==> state.matrix.active(s, c) == old(state).matrix.active(s, c),
            forall|s: int| 0 <= s < i ==> !state.matrix.active(s, channel as int),
            forall|s: int|
                !(0 <= s < i) ==> state.matrix.active(s, channel as int) == old(state).matrix.active(s, channel as int),
            bus.sent() == old(bus).sent() + disable_all_messages(
                old(state).matrix,
                channel as int,
                i as int,
            ),
        decreases count - i,
    {
        if state.matrix.is_active(i, channel) {
            match state.set_stop_channel(bus, i, channel, false) {
                Ok(()) => {},
                Err(e) => {
                    return Err(e);
                },
            }
        }
        proof {
            assert(bus.sent() =~= old(bus).sent() + disable_all_messages(
                old(state).matrix,
                channel as int,
                i + 1,
            ));
        }
        i = i + 1;
    }
    proof {
        assert forall|s: int| !final(state).matrix.active(s, channel as int) by {
            if !(0 <= s < count) {
                final(state).matrix.lemma_active_in_range(s, channel as int);
                old(state).matrix.lemma_active_in_range(s, channel as int);
            }
        }
    }
    Ok(())
}

/// Applies one feedback message to the console's state: a log line goes
/// into the bounded log, an error string into the error slot.
pub fn apply_feedback(state: &mut AppState, message: FeedbackMessage)
    requires
        old(state).wf(),
    ensures
        final(state).wf(),
        final(state).organ == old(state).organ,
        final(state).matrix == old(state).matrix,
        (match message {
            FeedbackMessage::Log { text } => final(state).log.lines() == (if old(state).log.lines().len() < 10 {
                old(state).log.lines().push(text@)
            } else {
                old(state).log.lines().drop_first().push(text@)
            }) && final(state).log.error() == old(state).log.error(),
            FeedbackMessage::Error { text } => final(state).log.error() == Some(text@) && final(state).log.lines() == old(state).log.lines(),
        }),
{
    match message {
        FeedbackMessage::Log { text } => self_log(state, text),
        FeedbackMessage::Error { text } => state.log.set_error(text),
    }
}

/// Appends one line to the bounded log.
fn self_log(state: &mut AppState, text: String)
    requires
        old(state).wf(),
    ensures
        final(state).wf(),
        final(state).organ == old(state).organ,
        final(state).matrix == old(state).matrix,
        final(state).log.error() == old(state).log.error(),
        final(state).log.lines() == (if old(state).log.lines().len() < 10 {
            old(state).log.lines().push(text@)
        } else {
            old(state).log.lines().drop_first().push(text@)
        }),
{
    state.log.push_line(text);
}

/// Handles one decoded console key, as the terminal loop's match over
/// key codes does: navigation moves the cursor, the toggle keys edit the
/// shared state and notify the renderer, and the quit key sends `Quit`
/// and asks the loop to exit. A state error is returned for the caller
/// to place into the error slot.
pub fn handle_console_key(
    console: &mut ConsoleState,
    state: &mut AppState,
    bus: &mut CommandBus,
    channel: u8,
    key: ConsoleKey,
) -> (r: Result<ConsoleOutcome, StateError>)
    requires
        old(console).wf(),
        old(state).wf(),
        old(console).stop_count() == old(state).organ.stop_count(),
        channel < CHANNEL_COUNT,
    ensures
        final(console).wf(),
        final(state).wf(),
        final(console).stop_count() == old(console).stop_count(),
        final(state).organ == old(state).organ,
        key is Quit ==> {
            &&& (r matches Ok(o) ==> o is Exit && final(bus).sent() == old(bus).sent().push(
                ControlMessage::Quit,
            ))
            &&& (r is Err ==> r == Err::<ConsoleOutcome, StateError>(StateError::BusDisconnected)
                && final(bus).sent() == old(bus).sent())
            &&& *final(state) == *old(state)
        },
        !(key is Quit) ==> (r matches Ok(o) ==> o is Continue),
        (key is NextItem || key is PrevItem || key is NextColumn || key is PrevColumn) ==> {
            &&& *final(state) == *old(state)
            &&& final(bus).sent() == old(bus).sent()
            &&& r is Ok
        },
        key is NextItem && old(console).stop_count() > 0 ==> final(console).selected() == (old(console).selected() + 1) % old(console).stop_count(),
        key is PrevItem && old(console).stop_count() > 0 ==> final(console).selected() == (if old(console).selected() == 0 {
            old(console).stop_count() - 1
        } else {
            old(console).selected() - 1
        }),
        key is NextColumn && old(console).stop_count() > 0 ==> final(console).selected() == (if old(console).selected() + old(console).column_height() < old(console).stop_count() {
            old(console).selected() + old(console).column_height()
        } else {
            old(console).stop_count() - 1
        }),
        key is PrevColumn ==> final(console).selected() == (if old(console).selected() >= old(console).column_height() {
            old(console).selected() - old(console).column_height()
        } else {
            0
        }),
        !(key is NextItem || key is PrevItem || key is NextColumn || key is PrevColumn) ==> final(console).selected() == old(console).selected(),
        key is ToggleStop && old(console).stop_count() == 0 ==> r == Err::<
            ConsoleOutcome,
            StateError,
        >(StateError::IndexOutOfRange),
        key is ToggleStop && old(console).stop_count() > 0 ==> {
            let turned_on = !old(state).matrix.active(old(console).selected(), channel as int);
            &&& final(state).matrix.active(old(console).selected(), channel as int) == turned_on
            &&& (r is Ok ==> final(bus).sent() == old(bus).sent().push(
                ControlMessage::StopToggle {
                    stop_index: old(console).selected() as usize,
                    active: turned_on,
                },
            ))
        },
        key is EnableAll && r is Ok ==> forall|s: int|
            0 <= s < final(state).organ.stop_count() ==> final(state).matrix.active(
                s,
                channel as int,
            ),
        key is DisableAll && r is Ok ==> forall|s: int|
            !final(state).matrix.active(s, channel as int),
{
    match key {
        ConsoleKey::Quit => {
            match bus.send(ControlMessage::Quit) {
                Ok(()) => Ok(ConsoleOutcome::Exit),
                Err(()) => Err(StateError::BusDisconnected),
            }
        },
        ConsoleKey::NextItem => {
            console.next_item();
            Ok(ConsoleOutcome::Continue)
        },
        ConsoleKey::PrevItem => {
            console.prev_item();
            Ok(ConsoleOutcome::Continue)
        },
        ConsoleKey::NextColumn => {
            console.next_col();
            Ok(ConsoleOutcome::Continue)
        },
        ConsoleKey::PrevColumn => {
            console.prev_col();
            Ok(ConsoleOutcome::Continue)
        },
        ConsoleKey::ToggleStop => {
            match toggle_selected_stop(console, state, bus, channel) {
                Ok(_) => Ok(ConsoleOutcome::Continue),
                Err(e) => Err(e),
            }
        },
        ConsoleKey::EnableAll => {
            match select_all_stops(state, bus, channel) {
                Ok(()) => Ok(ConsoleOutcome::Continue),
                Err(e) => Err(e),
            }
        },
        ConsoleKey::DisableAll => {
            match select_none_stops(state, bus, channel) {
                Ok(()) => Ok(ConsoleOutcome::Continue),
                Err(e) => Err(e),
            }
        },
    }
}

} // verus!
