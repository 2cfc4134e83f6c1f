//! SOS: the client-side SOS state machine states, and the decisions taken
//! when an SOS is dispatched and resolved.
use vstd::prelude::*;
use crate::errors::AppError;
use crate::models::SosEvent;
use crate::notifications::{has_credentials, spec_twilio_url, NotificationService, SmsDispatch};
use crate::types::SosStatus;

verus! {

/// Client-side SOS state machine states.
/// The actual server state is persisted in the SOS event's status.
#[derive(Debug, Clone, PartialEq, Eq)]
pub enum SosState {
    /// No active SOS.
    Idle,
    /// Countdown running — user can still cancel.
    Countdown { seconds_remaining: u32 },
    /// SOS dispatched and contacts notified.
    Active { event_id: String },
    /// SOS cancelled by user before dispatch.
    Cancelled,
    /// SOS resolved (user is safe / assisted).
    Resolved,
}

impl SosState {
    pub fn is_active(&self) -> (b: bool)
        ensures
            b <==> self is Active,
    {
        match self {
            SosState::Active { .. } => true,
            _ => false,
        }
    }

    pub fn is_countdown(&self) -> (b: bool)
        ensures
            b <==> self is Countdown,
    {
        match self {
            SosState::Countdown { .. } => true,
            _ => false,
        }
    }
}

/// Default countdown duration in seconds (matching the UI design: 10s).
pub const DEFAULT_COUNTDOWN_SECONDS: u32 = 10;

/// Result of dispatching an SOS.
#[derive(Debug)]
pub struct SosDispatchResult {
    pub event: SosEvent,
    pub contacts_notified: usize,
}

/// The number of `true` entries.
pub open spec fn count_true(s: Seq<bool>) -> nat
    decreases s.len(),
{
    if s.len() == 0 {
        0
    } else {
        count_true(s.drop_last()) + if s.last() { 1nat } else { 0nat }
    }
}

pub proof fn lemma_count_true_bounded(s: Seq<bool>)
    ensures
        count_true(s) <= s.len(),
    decreases s.len(),
{
    if s.len() > 0 {
        lemma_count_true_bounded(s.drop_last());
    }
}

/// The number of contacts counted as notified by an SOS dispatch. When real
/// alerts are enabled, `delivered[i]` tells whether the alert to the i-th
/// contact was sent, and the delivered ones count; when they are disabled
/// (development), no alert is sent and every contact counts.
pub fn notified_count(real_sos_enabled: bool, contacts: usize, delivered: &Vec<bool>) -> (n: usize)
    requires
        real_sos_enabled ==> delivered@.len() == contacts,
    ensures
        n == if real_sos_enabled { count_true(delivered@) } else { contacts as nat },
        n <= contacts,
{
    if !real_sos_enabled {
        return contacts;
    }
    let mut n: usize = 0;
    let mut i: usize = 0;
    while i < delivered.len()
        invariant
            0 <= i <= delivered@.len(),
            delivered@.len() == contacts,
            n == count_true(delivered@.subrange(0, i as int)),
            n <= i,
        decreases delivered@.len() - i,
    {
        assert(delivered@.subrange(0, (i + 1) as int).drop_last() =~= delivered@.subrange(0, i as int));
        if delivered[i] {
            n = n + 1;
        }
        i = i + 1;
    }
    assert(delivered@.subrange(0, delivered@.len() as int) =~= delivered@);
    n
}

/// How an SOS alert reaches the emergency contacts.
#[derive(Debug, Clone)]
pub enum AlertMode {
    /// Real alerts are disabled: each contact is only logged, and counts as
    /// notified.
    LogOnly,
    /// Real alerts are enabled, but in development or without all provider
    /// credentials: each SMS is logged instead of sent, and counts as
    /// delivered.
    SimulatedSms,
    /// Each contact gets a real SMS through the provider.
    RealSms(SmsDispatch),
}

/// Whether an SOS alert goes out as real SMS: only when real alerts are
/// enabled, outside development, with all provider credentials.
pub open spec fn spec_sends_real_sms(real_sos_enabled: bool, notifier: NotificationService) -> bool {
    real_sos_enabled && !notifier.dev_mode && has_credentials(notifier)
}

/// How an SOS alert is sent under the given configuration.
pub fn alert_mode(real_sos_enabled: bool, notifier: &NotificationService) -> (m: AlertMode)
    ensures
        m is LogOnly <==> !real_sos_enabled,
        m is RealSms <==> spec_sends_real_sms(real_sos_enabled, *notifier),
        m matches AlertMode::RealSms(d) ==> {
            &&& d.account_sid@ == notifier.twilio_sid->0@
            &&& d.url@ == spec_twilio_url(notifier.twilio_sid->0@)
            &&& d.auth_token@ == notifier.twilio_token->0@
            &&& d.from@ == notifier.twilio_from->0@
        },
{
    if !real_sos_enabled {
        return AlertMode::LogOnly;
    }
    match notifier.sms_dispatch() {
        None => AlertMode::SimulatedSms,
        Some(d) => AlertMode::RealSms(d),
    }
}

/// Decides whether an SOS event in the given status may be resolved: only
/// an event already resolved is refused (a false alarm may be resolved).
pub fn check_resolvable(status: SosStatus) -> (r: Result<(), AppError>)
    ensures
        r is Ok <==> status != SosStatus::Resolved,
        r matches Err(e) ==> e == AppError::SosAlreadyResolved,
{
    if status == SosStatus::Resolved {
        Err(AppError::SosAlreadyResolved)
    } else {
        Ok(())
    }
}

} // verus!
