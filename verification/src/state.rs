//! The shared instrument state: the immutable organ definition, the
//! activation matrix and the diagnostic log, mutated only through the
//! operations here. In the running program one mutual-exclusion domain
//! guards a value of this type; every producer locks it, edits it through
//! `set_stop_channel`, and the edit's message reaches the renderer
//! through the caller's command-bus handle.

use crate::bus::CommandBus;
use crate::logbuf::LogBuffer;
use crate::matrix::ActivationMatrix;
use crate::matrix::CHANNEL_COUNT;
use crate::messages::ControlMessage;
use crate::messages::StateError;
use crate::organ::Organ;
use vstd::prelude::*;

verus! {

/// The single source of truth for which stop is enabled on which
/// virtual channel, plus the console's bounded diagnostic log.
pub struct AppState {
    pub organ: Organ,
    pub matrix: ActivationMatrix,
    pub log: LogBuffer,
}

impl AppState {
    /// The matrix covers exactly the organ's stops, and the log respects
    /// its bound.
    pub open spec fn wf(self) -> bool {
        &&& self.matrix.stop_count() == self.organ.stop_count()
        &&& self.log.wf()
    }

    /// Fresh state for a loaded organ: nothing enabled, nothing logged.
    pub fn new(organ: Organ) -> (s: AppState)
        ensures
            s.wf(),
            s.organ == organ,
            forall|stop: int, ch: int| !s.matrix.active(stop, ch),
            s.log.lines() == Seq::<Seq<char>>::empty(),
            s.log.error() is None,
    {
        let count = organ.stops.len();
        AppState { organ, matrix: ActivationMatrix::new(count), log: LogBuffer::new() }
    }

    /// Enables or disables one stop on one virtual channel and reports
    /// the change to the renderer.
    ///
    /// An out-of-range stop index or channel id is rejected without any
    /// effect. An accepted edit is committed idempotently — membership
    /// afterwards equals `active` — and exactly one
    /// `StopToggle { stop_index, active }` message goes out on `bus`,
    /// where the flag is the membership state after the edit, so a
    /// redundant toggle still emits a message. If the renderer has
    /// disconnected the edit stays committed, no message is delivered,
    /// and the operation reports `BusDisconnected`.
    pub fn set_stop_channel(
        &mut self,
        bus: &mut CommandBus,
        stop_index: usize,
        channel_id: u8,
        active: bool,
    ) -> (r: Result<(), StateError>)
        requires
            old(self).wf(),
        ensures
            final(self).wf(),
            final(self).organ == old(self).organ,
            final(self).log == old(self).log,
            stop_index >= old(self).organ.stop_count() ==> {
                &&& r == Err::<(), StateError>(StateError::IndexOutOfRange)
                &&& *final(self) == *old(self)
                &&& final(bus).sent() == old(bus).sent()
            },
            stop_index < old(self).organ.stop_count() && channel_id >= CHANNEL_COUNT ==> {
                &&& r == Err::<(), StateError>(StateError::InvalidChannel)
                &&& *final(self) == *old(self)
                &&& final(bus).sent() == old(bus).sent()
            },
            stop_index < old(self).organ.stop_count() && channel_id < CHANNEL_COUNT ==> {
                &&& final(self).matrix.active(stop_index as int, channel_id as int) == active
                &&& forall|s: int, c: int|
                    !(s == stop_index && c == channel_id) ==> final(self).matrix.active(s, c)
                        == old(self).matrix.active(s, c)
                &&& (r is Ok ==> final(bus).sent() == old(bus).sent().push(
                    ControlMessage::StopToggle { stop_index, active },
                ))
                &&& (r is Err ==> r == Err::<(), StateError>(StateError::BusDisconnected)
                    && final(bus).sent() == old(bus).sent())
            },
    {
        if stop_index >= self.organ.stops.len() {
            return Err(StateError::IndexOutOfRange);
        }
        if channel_id >= CHANNEL_COUNT {
            return Err(StateError::InvalidChannel);
        }
        self.matrix.set(stop_index, channel_id, active);
        match bus.send(ControlMessage::StopToggle { stop_index, active }) {
            Ok(()) => Ok(()),
            Err(()) => Err(StateError::BusDisconnected),
        }
    }
}

/// What one accepted `set_stop_channel` edit does to the membership of
/// its (stop, channel) pair: it overwrites it with the `active` flag,
/// whatever it was before.
pub open spec fn set_edit(membership: bool, active: bool) -> bool {
    active
}

/// The membership state of one (stop, channel) pair after a run of
/// accepted `set_stop_channel` edits with the given `active` flags.
pub open spec fn membership_after_run(initial: bool, calls: Seq<bool>) -> bool
    decreases calls.len(),
{
    if calls.len() == 0 {
        initial
    } else {
        set_edit(membership_after_run(initial, calls.drop_last()), calls.last())
    }
}

/// The messages that a run of accepted and delivered `set_stop_channel`
/// edits for one stop puts on the bus, in call order: one `StopToggle`
/// per call, carrying the membership state after that call's edit.
pub open spec fn toggle_messages(stop_index: usize, calls: Seq<bool>) -> Seq<ControlMessage>
    decreases calls.len(),
{
    if calls.len() == 0 {
        Seq::empty()
    } else {
        toggle_messages(stop_index, calls.drop_last()).push(
            ControlMessage::StopToggle { stop_index, active: calls.last() },
        )
    }
}

/// Law: after any run of accepted, delivered edits on one
/// (stop, channel) pair, membership equals the `active` flag of the last
/// edit, and the run emitted exactly one `StopToggle` message per edit —
/// the i-th message carrying the i-th flag.
pub proof fn lemma_toggle_run(initial: bool, stop_index: usize, calls: Seq<bool>)
    ensures
        calls.len() > 0 ==> membership_after_run(initial, calls) == calls.last(),
        toggle_messages(stop_index, calls).len() == calls.len(),
        forall|i: int|
            0 <= i < calls.len() ==> toggle_messages(stop_index, calls)[i]
                == (ControlMessage::StopToggle { stop_index, active: calls[i] }),
    decreases calls.len(),
{
    if calls.len() > 0 {
        lemma_toggle_run(initial, stop_index, calls.drop_last());
        assert forall|i: int|
            0 <= i < calls.len() implies toggle_messages(stop_index, calls)[i]
            == (ControlMessage::StopToggle { stop_index, active: calls[i] }) by {
            if i < calls.len() - 1 {
                assert(toggle_messages(stop_index, calls)[i] == toggle_messages(
                    stop_index,
                    calls.drop_last(),
                )[i]);
                assert(calls.drop_last()[i] == calls[i]);
            }
        }
    }
}

} // verus!
