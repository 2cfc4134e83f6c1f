//! The ride lifecycle: which requests on a ride are accepted, by whom, and
//! the status a ride moves to. A ride is created pending, started (active),
//! may be paused and resumed, and is finished (completed).
use vstd::prelude::*;
use crate::errors::AppError;
use crate::ids::UserId;
use crate::models::Ride;
use crate::types::RideStatus;

verus! {

/// A request made on an existing ride.
#[derive(Debug, Clone, Copy, PartialEq, Eq, Structural)]
pub enum RideAction {
    /// Transition to active (from any status but active or completed).
    Start,
    /// Pause an active ride.
    Pause,
    /// Resume a paused ride.
    Resume,
    /// Finish an active or paused ride.
    Finish,
    /// Record GPS points on an active ride.
    AddPoints,
    /// Read the ride.
    View,
}

/// The outcome of `action` by `user` on a ride owned by `owner` in status
/// `status`: the status the ride then has, or the error that refuses it.
/// Ownership is checked first.
pub open spec fn spec_ride_step(owner: UserId, status: RideStatus, user: UserId, action: RideAction)
    -> Result<RideStatus, AppError>
{
    if owner != user {
        Err(AppError::Forbidden)
    } else {
        match action {
            RideAction::Start => {
                if status == RideStatus::Active {
                    Err(AppError::RideAlreadyActive)
                } else if status == RideStatus::Completed {
                    Err(AppError::RideAlreadyCompleted)
                } else {
                    Ok(RideStatus::Active)
                }
            },
            RideAction::Pause => {
                if status != RideStatus::Active { Err(AppError::RideNotActive) } else { Ok(RideStatus::Paused) }
            },
            RideAction::Resume => {
                if status != RideStatus::Paused { Err(AppError::RideNotActive) } else { Ok(RideStatus::Active) }
            },
            RideAction::Finish => {
                if status != RideStatus::Active && status != RideStatus::Paused {
                    Err(AppError::RideNotActive)
                } else {
                    Ok(RideStatus::Completed)
                }
            },
            RideAction::AddPoints => {
                if status != RideStatus::Active { Err(AppError::RideNotActive) } else { Ok(status) }
            },
            RideAction::View => Ok(status),
        }
    }
}

/// Refuses anyone but the ride's owner.
pub fn assert_owner(ride: &Ride, user_id: UserId) -> (r: Result<(), AppError>)
    ensures
        r is Ok <==> ride.user_id == user_id,
        r matches Err(e) ==> e == AppError::Forbidden,
{
    if ride.user_id != user_id {
        Err(AppError::Forbidden)
    } else {
        Ok(())
    }
}

/// Refuses a ride that is not active.
pub fn assert_active(ride: &Ride) -> (r: Result<(), AppError>)
    ensures
        r is Ok <==> ride.status == RideStatus::Active,
        r matches Err(e) ==> e == AppError::RideNotActive,
{
    if ride.status != RideStatus::Active {
        Err(AppError::RideNotActive)
    } else {
        Ok(())
    }
}

/// Decides a request on a ride: the status the ride moves to, or the error.
pub fn check_ride_action(ride: &Ride, user_id: UserId, action: RideAction) -> (r: Result<RideStatus, AppError>)
    ensures
        r == spec_ride_step(ride.user_id, ride.status, user_id, action),
{
    match assert_owner(ride, user_id) {
        Err(e) => { return Err(e); },
        Ok(()) => {},
    }
    match action {
        RideAction::Start => {
            if ride.status == RideStatus::Active {
                Err(AppError::RideAlreadyActive)
            } else if ride.status == RideStatus::Completed {
                Err(AppError::RideAlreadyCompleted)
            } else {
                Ok(RideStatus::Active)
            }
        },
        RideAction::Pause => {
            match assert_active(ride) {
                Err(e) => Err(e),
                Ok(()) => Ok(RideStatus::Paused),
            }
        },
        RideAction::Resume => {
            if ride.status != RideStatus::Paused {
                Err(AppError::RideNotActive)
            } else {
                Ok(RideStatus::Active)
            }
        },
        RideAction::Finish => {
            if ride.status != RideStatus::Active && ride.status != RideStatus::Paused {
                Err(AppError::RideNotActive)
            } else {
                Ok(RideStatus::Completed)
            }
        },
        RideAction::AddPoints => {
            match assert_active(ride) {
                Err(e) => Err(e),
                Ok(()) => Ok(ride.status),
            }
        },
        RideAction::View => Ok(ride.status),
    }
}

/// The whole seconds between two instants given in microseconds, counted
/// toward zero, and never below zero.
pub open spec fn spec_elapsed_seconds(from: int, to: int) -> int {
    if to - from > 0 { (to - from) / 1_000_000 } else { 0 }
}

/// The duration recorded when a ride finishes at `now`: the whole seconds
/// since it started (since `now` when it has no start), never negative.
pub fn finish_duration_seconds(started_at: Option<i64>, now: i64) -> (secs: i64)
    ensures
        secs == spec_elapsed_seconds(
            match started_at { Some(s) => s as int, None => now as int },
            now as int,
        ),
        secs >= 0,
{
    let start: i64 = match started_at {
        Some(s) => s,
        None => now,
    };
    let d: i128 = now as i128 - start as i128;
    if d > 0 {
        (d / 1_000_000) as i64
    } else {
        0
    }
}

/// The number of rides to skip to list the given page.
pub fn ride_list_offset(page: i64, per_page: i64) -> (offset: i64)
    requires
        page > i64::MIN,
        i64::MIN <= (page - 1) * per_page <= i64::MAX,
    ensures
        offset == (page - 1) * per_page,
{
    (page - 1) * per_page
}

/// The owner's requests on their own ride: a ride is started from any
/// status but active or completed and becomes active; it is paused only
/// when active and becomes paused; it is resumed only when paused and
/// becomes active; it is finished only when active or paused and becomes
/// completed; points are recorded only on an active ride, which stays
/// active; reading never changes it. Every refusal of the pause, resume,
/// finish and point requests is `RideNotActive`.
pub proof fn lemma_owner_transitions(owner: UserId, status: RideStatus)
    ensures
        (spec_ride_step(owner, status, owner, RideAction::Start) is Ok)
            <==> (status != RideStatus::Active && status != RideStatus::Completed),
        (spec_ride_step(owner, status, owner, RideAction::Pause) is Ok) <==> (status == RideStatus::Active),
        (spec_ride_step(owner, status, owner, RideAction::Resume) is Ok) <==> (status == RideStatus::Paused),
        (spec_ride_step(owner, status, owner, RideAction::Finish) is Ok)
            <==> (status == RideStatus::Active || status == RideStatus::Paused),
        (spec_ride_step(owner, status, owner, RideAction::AddPoints) is Ok) <==> (status == RideStatus::Active),
        spec_ride_step(owner, status, owner, RideAction::View) == Ok::<RideStatus, AppError>(status),
        spec_ride_step(owner, status, owner, RideAction::Start) matches Ok(s) ==> s == RideStatus::Active,
        spec_ride_step(owner, status, owner, RideAction::Pause) matches Ok(s) ==> s == RideStatus::Paused,
        spec_ride_step(owner, status, owner, RideAction::Resume) matches Ok(s) ==> s == RideStatus::Active,
        spec_ride_step(owner, status, owner, RideAction::Finish) matches Ok(s) ==> s == RideStatus::Completed,
        spec_ride_step(owner, status, owner, RideAction::AddPoints) matches Ok(s) ==> s == RideStatus::Active,
        spec_ride_step(owner, status, owner, RideAction::Start) matches Err(e)
            ==> (e == AppError::RideAlreadyActive && status == RideStatus::Active)
                || (e == AppError::RideAlreadyCompleted && status == RideStatus::Completed),
        spec_ride_step(owner, status, owner, RideAction::Pause) matches Err(e) ==> e == AppError::RideNotActive,
        spec_ride_step(owner, status, owner, RideAction::Resume) matches Err(e) ==> e == AppError::RideNotActive,
        spec_ride_step(owner, status, owner, RideAction::Finish) matches Err(e) ==> e == AppError::RideNotActive,
        spec_ride_step(owner, status, owner, RideAction::AddPoints) matches Err(e) ==> e == AppError::RideNotActive,
{
}

/// A pending ride (created, never started) can only be started or read:
/// it cannot be paused, resumed, finished or given points.
pub proof fn lemma_pending_must_start(owner: UserId, user: UserId, action: RideAction)
    ensures
        spec_ride_step(owner, RideStatus::Pending, user, action) is Ok
            ==> (action == RideAction::Start || action == RideAction::View),
{
}

/// Whoever is not the owner is refused every request on a ride.
pub proof fn lemma_only_owner_acts(owner: UserId, status: RideStatus, user: UserId, action: RideAction)
    requires
        owner != user,
    ensures
        spec_ride_step(owner, status, user, action) == Err::<RideStatus, AppError>(AppError::Forbidden),
{
}

/// A completed ride stays completed: the only request it accepts is a read,
/// which leaves it completed; every other request is refused.
pub proof fn lemma_completed_is_final(owner: UserId, user: UserId, action: RideAction)
    ensures
        spec_ride_step(owner, RideStatus::Completed, user, action) is Ok ==> (
            action == RideAction::View
            && spec_ride_step(owner, RideStatus::Completed, user, action) == Ok::<RideStatus, AppError>(RideStatus::Completed)),
{
}

/// A pending ride owned by the rider can be started, paused, resumed and
/// finished in turn, and ends completed.
pub proof fn lemma_full_lifecycle(owner: UserId)
    ensures
        spec_ride_step(owner, RideStatus::Pending, owner, RideAction::Start) == Ok::<RideStatus, AppError>(RideStatus::Active),
        spec_ride_step(owner, RideStatus::Active, owner, RideAction::Pause) == Ok::<RideStatus, AppError>(RideStatus::Paused),
        spec_ride_step(owner, RideStatus::Paused, owner, RideAction::Resume) == Ok::<RideStatus, AppError>(RideStatus::Active),
        spec_ride_step(owner, RideStatus::Active, owner, RideAction::Finish) == Ok::<RideStatus, AppError>(RideStatus::Completed),
{
}

/// Points are accepted exactly on the owner's active ride, and a ride that
/// accepts them stays as it was.
pub proof fn lemma_points_need_active(owner: UserId, status: RideStatus, user: UserId)
    ensures
        spec_ride_step(owner, status, user, RideAction::AddPoints) is Ok
            <==> (owner == user && status == RideStatus::Active),
        spec_ride_step(owner, status, user, RideAction::AddPoints) is Ok
            ==> spec_ride_step(owner, status, user, RideAction::AddPoints) == Ok::<RideStatus, AppError>(status),
{
}

} // verus!
