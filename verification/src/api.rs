//! What the HTTP gateway computes: status reports over the shared state
//! and the channel-update operation with its validation and log line.
//! Routing, JSON and status codes live outside this crate; the gateway
//! converts these plain values at its edge.

use crate::bus::CommandBus;
use crate::logbuf::LOG_CAPACITY;
use crate::matrix::ActivationMatrix;
use crate::matrix::CHANNEL_COUNT;
use crate::state::AppState;
use crate::text::append_decimal;
use crate::text::decimal_digits;
use vstd::prelude::*;
use vstd::string::StringExecFns;

verus! {

/// One stop's status: its index, display name, and the ascending list
/// of virtual channels it is enabled on.
pub struct StopStatusResponse {
    pub index: usize,
    pub name: String,
    pub active_channels: Vec<u8>,
}

/// The body of a channel-update request.
pub struct ChannelUpdateRequest {
    pub active: bool,
}

/// The loaded instrument's description.
pub struct OrganInfoResponse {
    pub name: String,
}

/// `chs` lists exactly the channels on which `stop` is enabled, in
/// ascending order.
pub open spec fn lists_active_channels(chs: Seq<u8>, m: ActivationMatrix, stop: int) -> bool {
    &&& forall|j: int, k: int| 0 <= j < k < chs.len() ==> chs[j] < chs[k]
    &&& forall|j: int| 0 <= j < chs.len() ==> m.active(stop, chs[j] as int)
    &&& forall|c: u8| c < CHANNEL_COUNT && m.active(stop, c as int) ==> chs.contains(c)
}

/// The organ's description, as the gateway reports it.
pub fn get_organ_info(state: &AppState) -> (r: OrganInfoResponse)
    ensures
        r.name@ == state.organ.name@,
{
    OrganInfoResponse { name: state.organ.name.clone() }
}

/// The status of every stop, in stop order: index, name, and the
/// ascending channel list.
pub fn get_stops(state: &AppState) -> (r: Vec<StopStatusResponse>)
    requires
        state.wf(),
    ensures
        r@.len() == state.organ.stop_count(),
        forall|i: int|
            0 <= i < r@.len() ==> {
                &&& (#[trigger] r@[i]).index == i
                &&& r@[i].name@ == state.organ.stops@[i].name@
                &&& lists_active_channels(r@[i].active_channels@, state.matrix, i)
            },
{
    let count = state.organ.stops.len();
    let mut r: Vec<StopStatusResponse> = Vec::new();
    let mut i: usize = 0;
    while i < count
        invariant
            i <= count,
            state.wf(),
            count == state.organ.stop_count(),
            r@.len() == i,
            forall|j: int|
                0 <= j < i ==> {
                    &&& (#[trigger] r@[j]).index == j
                    &&& r@[j].name@ == state.organ.stops@[j].name@
                    &&& lists_active_channels(r@[j].active_channels@, state.matrix, j)
                },
        decreases count - i,
    {
        let entry = StopStatusResponse {
            index: i,
            name: state.organ.stops[i].name.clone(),
            active_channels: state.matrix.active_channels(i),
        };
        r.push(entry);
        i = i + 1;
    }
    r
}

/// How the gateway answers a channel update; it maps these to its
/// client-error, not-found, server-error and success codes.
#[derive(Clone, Copy, Debug, PartialEq, Eq, Structural)]
pub enum ApiUpdateOutcome {
    /// The edit was committed and reported to the renderer.
    Updated,
    /// The channel id was not in `0..=15`; nothing happened.
    BadChannel,
    /// The stop index was not below the stop count; nothing happened.
    UnknownStop,
    /// The renderer has disconnected; the edit is committed anyway.
    Failed,
}

/// The log line an accepted update leaves, with the channel reported
/// one-based as the gateway displays it.
pub open spec fn api_log_line(active: bool, stop_index: usize, channel_id: u8) -> Seq<char> {
    "API: "@ + (if active {
        "Enabled"@
    } else {
        "Disabled"@
    }) + " Stop "@ + decimal_digits(stop_index as int) + " for Ch "@ + decimal_digits(
        channel_id + 1,
    )
}

/// Handles one channel-update request as the gateway does: the channel
/// id is validated first, then the stop index, then the edit is
/// committed and reported to the renderer, and an accepted update leaves
/// one log line in the shared log.
pub fn update_stop_channel(
    state: &mut AppState,
    bus: &mut CommandBus,
    stop_index: usize,
    channel_id: u8,
    request: &ChannelUpdateRequest,
) -> (r: ApiUpdateOutcome)
    requires
        old(state).wf(),
    ensures
        final(state).wf(),
        final(state).organ == old(state).organ,
        channel_id >= CHANNEL_COUNT ==> r == ApiUpdateOutcome::BadChannel && *final(state) == *old(state) && final(bus).sent() == old(bus).sent(),
        channel_id < CHANNEL_COUNT && stop_index >= old(state).organ.stop_count() ==> r
            == ApiUpdateOutcome::UnknownStop && *final(state) == *old(state) && final(bus).sent()
            == old(bus).sent(),
        channel_id < CHANNEL_COUNT && stop_index < old(state).organ.stop_count() ==> {
            &&& final(state).matrix.active(stop_index as int, channel_id as int) == request.active
            &&& forall|s: int, c: int|
                !(s == stop_index && c == channel_id) ==> final(state).matrix.active(s, c) == old(state).matrix.active(s, c)
            &&& (r == ApiUpdateOutcome::Updated ==> final(bus).sent() == old(bus).sent().push(
                crate::messages::ControlMessage::StopToggle { stop_index, active: request.active },
            ) && final(state).log.lines() == (if old(state).log.lines().len() < LOG_CAPACITY {
                old(state).log.lines().push(api_log_line(request.active, stop_index, channel_id))
            } else {
                old(state).log.lines().drop_first().push(
                    api_log_line(request.active, stop_index, channel_id),
                )
            }))
            &&& (r != ApiUpdateOutcome::Updated ==> r == ApiUpdateOutcome::Failed && final(bus).sent() == old(bus).sent() && final(state).log == old(state).log)
        },
{
    if channel_id >= CHANNEL_COUNT {
        return ApiUpdateOutcome::BadChannel;
    }
    if stop_index >= state.organ.stops.len() {
        return ApiUpdateOutcome::UnknownStop;
    }
    match state.set_stop_channel(bus, stop_index, channel_id, request.active) {
        Ok(()) => {},
        Err(_) => {
            return ApiUpdateOutcome::Failed;
        },
    }
    let mut line = String::new();
    line.append("API: ");
    if request.active {
        line.append("Enabled");
    } else {
        line.append("Disabled");
    }
    line.append(" Stop ");
    append_decimal(&mut line, stop_index);
    line.append(" for Ch ");
    append_decimal(&mut line, (channel_id + 1) as usize);
    proof {
        assert(line@ =~= api_log_line(request.active, stop_index, channel_id));
    }
    state.log.push_line(line);
    ApiUpdateOutcome::Updated
}

} // verus!
