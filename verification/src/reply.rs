//! What the library answers and what it asks the messaging side to do.

use crate::clock::Zone;
use vstd::prelude::*;

verus! {

/// Why a command was turned down. Each is shown with a pointer to the help.
#[derive(Clone, Copy, Debug, PartialEq, Eq, Structural)]
pub enum Refusal {
    /// The alarm number is not a number.
    BadIndex,
    /// The user has no alarm of that number.
    NoSuchAlarm,
    /// The schedule is neither a time of day nor a cron expression.
    BadExpression,
    /// The time zone is not known.
    UnknownZone,
    /// The user has not set any alarm yet.
    NoAlarmsYet,
    /// None of the alarms will ever fire again.
    NothingUpcoming,
    /// No alarm is due within the cancellation window.
    NothingSoon,
    /// `#sleep` was sent where `#sleep!` is meant.
    SleepNeedsBang,
}

/// One line of the list of a user's alarms.
#[derive(Clone, Debug, PartialEq, Eq)]
pub struct ListEntry {
    /// The alarm's number: its place in the user's list.
    pub id: usize,
    pub informing: bool,
    /// The schedule has no occurrence left (only looked at when the alarm
    /// is not informing).
    pub expired: bool,
    pub disabled: bool,
    pub title: String,
    pub strict: bool,
    /// The schedule, with its seconds field.
    pub cron: String,
}

/// A message to a user or a chat, before it is put into words.
#[derive(Clone, Debug, PartialEq, Eq)]
pub enum Reply {
    /// Where to find the help.
    Help,
    /// A command was turned down.
    Refused(Refusal),
    /// The challenge was answered and the alarm is off.
    Disarmed { title: String },
    /// An alarm was set; `next` is its first occurrence, if it has one.
    AlarmSet { title: String, next: Option<i64>, zone: Zone },
    /// The user's zone, asked for at the instant `now`.
    ZoneIs { zone: Zone, now: i64 },
    /// The user's zone was changed.
    ZoneSet { name: String },
    /// The user's alarms; `total` counts also those that the chat does not show.
    Listing { entries: Vec<ListEntry>, total: usize },
    /// In a group: none of the alarms set here will ever fire again.
    GroupNothingUpcoming,
    /// In a group: none of the alarms set here is due soon.
    GroupNothingSoon,
    /// The alarm is ringing and has to be closed first.
    StillRinging,
    /// The alarm is running in strict mode and cannot be removed.
    RemoveRefused,
    /// A running alarm was closed.
    Closed { title: String },
    /// The occurrence at `at` will be skipped.
    Skipped { at: i64, zone: Zone, title: String },
    /// The alarm was removed.
    Removed,
    /// The alarm is running in strict mode and cannot be disabled.
    DisableRefused,
    AlreadyDisabled,
    Disabled { title: String },
    AlreadyEnabled,
    Enabled { title: String },
    /// The alarm is running; strict mode cannot be changed now.
    StrictRefused,
    StrictOn { id: usize, title: String },
    StrictOff { id: usize, title: String },
    /// The next occurrence among the user's alarms.
    Next { at: i64, zone: Zone, title: String },
    /// The user has no alarms at all.
    NoAlarms,
    /// So many expired alarms were removed.
    Purged { count: usize },
    /// No alarm had expired.
    NothingExpired,
    /// The user is muted in the group until an alarm of theirs is resolved.
    Goodnight,
    /// The digits to type back, and the script to type them in.
    Challenge { digits: String, script: String },
    /// A call for help to the group: the user does not pick up. `display_name` is
    /// the user's display name, if one is known.
    WakeHelp { display_name: Option<String>, user_id: i64 },
    /// The title of an alarm that starts ringing.
    Title { title: String },
}

/// What the messaging side is asked to do.
#[derive(Clone, Debug, PartialEq, Eq)]
pub enum Action {
    /// Send `reply` to the chat, as an answer to a message if `reply_to` is set.
    SendText { chat_id: i64, reply: Reply, reply_to: Option<i64> },
    /// Call the user.
    PlaceCall { user_id: i64 },
    /// Take the user's right to post in the group.
    RestrictMember { chat_id: i64, user_id: i64 },
    /// Give the user's right to post in the group back.
    RestoreMember { chat_id: i64, user_id: i64 },
    /// Hang up on a call that came in.
    DiscardCall { call_id: i64 },
}

} // verus!
