//! The enumerations of the domain and their textual forms: the text shown to
//! clients, the text written to the database, and the readers of stored text.
use vstd::prelude::*;
use crate::text::str_equal;

verus! {

/// Ride lifecycle states.
#[derive(Debug, Clone, Copy, PartialEq, Eq, Structural)]
pub enum RideStatus {
    Pending,
    Active,
    Paused,
    Completed,
    Cancelled,
}

/// SOS event lifecycle states.
#[derive(Debug, Clone, Copy, PartialEq, Eq, Structural)]
pub enum SosStatus {
    Active,
    Resolved,
    FalseAlarm,
}

/// How an SOS was triggered.
#[derive(Debug, Clone, Copy, PartialEq, Eq, Structural)]
pub enum SosTrigger {
    Manual,
    CrashDetection,
}

/// Group membership role.
#[derive(Debug, Clone, Copy, PartialEq, Eq, Structural)]
pub enum GroupRole {
    Owner,
    Admin,
    Member,
}

/// Notification category.
#[derive(Debug, Clone, Copy, PartialEq, Eq, Structural)]
pub enum NotificationKind {
    Sos,
    GroupInvite,
    RideComplete,
    SystemAlert,
}

/// The display text of a ride status (also the text stored for it).
pub open spec fn spec_ride_status_text(s: RideStatus) -> Seq<char> {
    match s {
        RideStatus::Pending => "pending"@,
        RideStatus::Active => "active"@,
        RideStatus::Paused => "paused"@,
        RideStatus::Completed => "completed"@,
        RideStatus::Cancelled => "cancelled"@,
    }
}

/// The ride status that stored text denotes; unknown text reads as pending.
pub open spec fn spec_parse_ride_status(s: Seq<char>) -> RideStatus {
    if s == "active"@ {
        RideStatus::Active
    } else if s == "paused"@ {
        RideStatus::Paused
    } else if s == "completed"@ {
        RideStatus::Completed
    } else if s == "cancelled"@ {
        RideStatus::Cancelled
    } else {
        RideStatus::Pending
    }
}

/// The text stored for an SOS status: its variant name in lower case.
pub open spec fn spec_sos_status_label(s: SosStatus) -> Seq<char> {
    match s {
        SosStatus::Active => "active"@,
        SosStatus::Resolved => "resolved"@,
        SosStatus::FalseAlarm => "falsealarm"@,
    }
}

/// The SOS status that stored text denotes; unknown text reads as active.
pub open spec fn spec_parse_sos_status(s: Seq<char>) -> SosStatus {
    if s == "resolved"@ {
        SosStatus::Resolved
    } else if s == "false_alarm"@ {
        SosStatus::FalseAlarm
    } else {
        SosStatus::Active
    }
}

/// The text stored for an SOS trigger: its variant name in lower case.
pub open spec fn spec_sos_trigger_label(t: SosTrigger) -> Seq<char> {
    match t {
        SosTrigger::Manual => "manual"@,
        SosTrigger::CrashDetection => "crashdetection"@,
    }
}

/// The SOS trigger that stored text denotes; unknown text reads as manual.
pub open spec fn spec_parse_trigger(s: Seq<char>) -> SosTrigger {
    if s == "crash_detection"@ {
        SosTrigger::CrashDetection
    } else {
        SosTrigger::Manual
    }
}

/// The text stored for a group role: its variant name in lower case.
pub open spec fn spec_group_role_label(r: GroupRole) -> Seq<char> {
    match r {
        GroupRole::Owner => "owner"@,
        GroupRole::Admin => "admin"@,
        GroupRole::Member => "member"@,
    }
}

/// The text stored for a notification kind: its variant name in lower case.
pub open spec fn spec_notification_kind_label(k: NotificationKind) -> Seq<char> {
    match k {
        NotificationKind::Sos => "sos"@,
        NotificationKind::GroupInvite => "groupinvite"@,
        NotificationKind::RideComplete => "ridecomplete"@,
        NotificationKind::SystemAlert => "systemalert"@,
    }
}

/// The notification kind that stored text denotes; unknown text reads as a
/// system alert.
pub open spec fn spec_parse_kind(s: Seq<char>) -> NotificationKind {
    if s == "sos"@ {
        NotificationKind::Sos
    } else if s == "group_invite"@ {
        NotificationKind::GroupInvite
    } else if s == "ride_complete"@ {
        NotificationKind::RideComplete
    } else {
        NotificationKind::SystemAlert
    }
}

impl RideStatus {
    /// The display text of the status.
    pub fn as_str(&self) -> (s: &'static str)
        ensures
            s@ == spec_ride_status_text(*self),
    {
        match self {
            RideStatus::Pending => "pending",
            RideStatus::Active => "active",
            RideStatus::Paused => "paused",
            RideStatus::Completed => "completed",
            RideStatus::Cancelled => "cancelled",
        }
    }

    /// The display text of the status, owned.
    pub fn to_string(&self) -> (s: String)
        ensures
            s@ == spec_ride_status_text(*self),
    {
        String::from_str(self.as_str())
    }
}

impl SosStatus {
    /// The text written to storage for this status.
    pub fn storage_label(&self) -> (s: &'static str)
        ensures
            s@ == spec_sos_status_label(*self),
    {
        match self {
            SosStatus::Active => "active",
            SosStatus::Resolved => "resolved",
            SosStatus::FalseAlarm => "falsealarm",
        }
    }
}

impl SosTrigger {
    /// The text written to storage for this trigger.
    pub fn storage_label(&self) -> (s: &'static str)
        ensures
            s@ == spec_sos_trigger_label(*self),
    {
        match self {
            SosTrigger::Manual => "manual",
            SosTrigger::CrashDetection => "crashdetection",
        }
    }
}

impl GroupRole {
    /// The text written to storage for this role.
    pub fn storage_label(&self) -> (s: &'static str)
        ensures
            s@ == spec_group_role_label(*self),
    {
        match self {
            GroupRole::Owner => "owner",
            GroupRole::Admin => "admin",
            GroupRole::Member => "member",
        }
    }
}

impl NotificationKind {
    /// The text written to storage for this kind.
    pub fn storage_label(&self) -> (s: &'static str)
        ensures
            s@ == spec_notification_kind_label(*self),
    {
        match self {
            NotificationKind::Sos => "sos",
            NotificationKind::GroupInvite => "groupinvite",
            NotificationKind::RideComplete => "ridecomplete",
            NotificationKind::SystemAlert => "systemalert",
        }
    }
}

/// Reads a stored ride status.
pub fn parse_ride_status(s: &str) -> (r: RideStatus)
    ensures
        r == spec_parse_ride_status(s@),
{
    if str_equal(s, "active") {
        RideStatus::Active
    } else if str_equal(s, "paused") {
        RideStatus::Paused
    } else if str_equal(s, "completed") {
        RideStatus::Completed
    } else if str_equal(s, "cancelled") {
        RideStatus::Cancelled
    } else {
        RideStatus::Pending
    }
}

/// Reads a stored SOS status.
pub fn parse_sos_status(s: &str) -> (r: SosStatus)
    ensures
        r == spec_parse_sos_status(s@),
{
    if str_equal(s, "resolved") {
        SosStatus::Resolved
    } else if str_equal(s, "false_alarm") {
        SosStatus::FalseAlarm
    } else {
        SosStatus::Active
    }
}

/// Reads a stored SOS trigger.
pub fn parse_trigger(s: &str) -> (r: SosTrigger)
    ensures
        r == spec_parse_trigger(s@),
{
    if str_equal(s, "crash_detection") {
        SosTrigger::CrashDetection
    } else {
        SosTrigger::Manual
    }
}

/// Reads a stored notification kind.
pub fn parse_kind(s: &str) -> (r: NotificationKind)
    ensures
        r == spec_parse_kind(s@),
{
    if str_equal(s, "sos") {
        NotificationKind::Sos
    } else if str_equal(s, "group_invite") {
        NotificationKind::GroupInvite
    } else if str_equal(s, "ride_complete") {
        NotificationKind::RideComplete
    } else {
        NotificationKind::SystemAlert
    }
}

/// Reading back the stored text of a ride status gives the same status.
pub proof fn lemma_ride_status_round_trip(s: RideStatus)
    ensures
        spec_parse_ride_status(spec_ride_status_text(s)) == s,
{
    reveal_strlit("pending");
    reveal_strlit("active");
    reveal_strlit("paused");
    reveal_strlit("completed");
    reveal_strlit("cancelled");
    assert("pending"@.len() != "active"@.len());
    assert("pending"@.len() != "paused"@.len());
    assert("pending"@.len() != "completed"@.len());
    assert("pending"@.len() != "cancelled"@.len());
    assert("active"@[0] != "paused"@[0]);
    assert("active"@.len() != "completed"@.len());
    assert("active"@.len() != "cancelled"@.len());
    assert("paused"@.len() != "completed"@.len());
    assert("paused"@.len() != "cancelled"@.len());
    assert("completed"@[1] != "cancelled"@[1]);
}

/// Reading back the stored text of an SOS status gives the same status,
/// except for a false alarm, whose stored text `falsealarm` reads as active.
pub proof fn lemma_sos_status_round_trip(s: SosStatus)
    requires
        s != SosStatus::FalseAlarm,
    ensures
        spec_parse_sos_status(spec_sos_status_label(s)) == s,
{
    reveal_strlit("active");
    reveal_strlit("resolved");
    reveal_strlit("false_alarm");
    assert("active"@.len() != "resolved"@.len());
    assert("active"@.len() != "false_alarm"@.len());
    assert("resolved"@.len() != "false_alarm"@.len());
}

/// Reading back the stored text of a trigger gives the same trigger, except
/// for crash detection, whose stored text `crashdetection` reads as manual.
pub proof fn lemma_sos_trigger_round_trip(t: SosTrigger)
    requires
        t != SosTrigger::CrashDetection,
    ensures
        spec_parse_trigger(spec_sos_trigger_label(t)) == t,
{
    reveal_strlit("manual");
    reveal_strlit("crash_detection");
    assert("manual"@.len() != "crash_detection"@.len());
}

/// Reading back the stored text of a notification kind gives the same kind
/// for `Sos` and `SystemAlert`; `groupinvite` and `ridecomplete` read as
/// system alerts.
pub proof fn lemma_notification_kind_round_trip(k: NotificationKind)
    requires
        k == NotificationKind::Sos || k == NotificationKind::SystemAlert,
    ensures
        spec_parse_kind(spec_notification_kind_label(k)) == k,
{
    reveal_strlit("sos");
    reveal_strlit("systemalert");
    reveal_strlit("group_invite");
    reveal_strlit("ride_complete");
    assert("sos"@.len() != "systemalert"@.len());
    assert("sos"@.len() != "group_invite"@.len());
    assert("sos"@.len() != "ride_complete"@.len());
    assert("systemalert"@.len() != "group_invite"@.len());
    assert("systemalert"@.len() != "ride_complete"@.len());
    assert("group_invite"@.len() != "ride_complete"@.len());
}

} // verus!
