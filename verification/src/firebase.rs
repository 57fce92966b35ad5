//! Notification fanout bookkeeping.
//!
//! Dispatch to the push gateway is sequential, paced, and per-recipient;
//! the library builds each payload and tallies the per-call outcomes.  A
//! failed dispatch is skipped, never retried, and never escalated: only
//! the count of successful deliveries is surfaced, and it does not affect
//! the outcome of the mutation that triggered the fanout.

use vstd::prelude::*;

use crate::alerts::Alert;
use crate::alerts::AlertNotificationInfo;

verus! {

/// The title of an alert notification.
pub open spec fn notification_title_spec(alert_type: Seq<char>) -> Seq<char> {
    "Elevate "@ + alert_type + " Alert"@
}

/// The body of an alert notification: the alert type, the place, and the
/// informational distance text a caller derived for the recipient.
pub open spec fn notification_message_spec(
    alert_type: Seq<char>,
    place: Seq<char>,
    distance: Seq<char>,
) -> Seq<char> {
    alert_type + " reported near "@ + place + "! About "@ + distance + " miles away"@
}

/// One per-recipient payload for the push gateway.
#[derive(Debug)]
pub struct NotificationPayload {
    /// The recipient's device push token.
    pub to: String,
    pub title: String,
    pub message: String,
    pub priority: i64,
}

/// Builds the title of a notification for this alert type.
pub fn notification_title(alert_type: &String) -> (r: String)
    ensures
        r@ == notification_title_spec(alert_type@),
{
    let mut s: String = "Elevate ".to_owned();
    s.append(alert_type.as_str());
    s.append(" Alert");
    proof {
        assert(s@ =~= notification_title_spec(alert_type@));
    }
    s
}

/// Builds the body of a notification.
pub fn notification_message(alert_type: &String, place: &String, distance: &String) -> (r: String)
    ensures
        r@ == notification_message_spec(alert_type@, place@, distance@),
{
    let mut s = alert_type.clone();
    s.append(" reported near ");
    s.append(place.as_str());
    s.append("! About ");
    s.append(distance.as_str());
    s.append(" miles away");
    proof {
        assert(s@ =~= notification_message_spec(alert_type@, place@, distance@));
    }
    s
}

/// Builds the gateway payloads for an alert's recipients, one per
/// recipient, in order; `distances` carries the display distance a caller
/// derived from each recipient's coordinates.
pub fn build_notification_payloads(
    alert: &Alert,
    recipients: &Vec<AlertNotificationInfo>,
    distances: &Vec<String>,
) -> (r: Vec<NotificationPayload>)
    requires
        recipients@.len() == distances@.len(),
    ensures
        r@.len() == recipients@.len(),
        forall|j: int|
            0 <= j < r@.len() ==> {
                &&& (#[trigger] r@[j]).to@ == recipients@[j].token@
                &&& r@[j].title@ == notification_title_spec(alert.alert_type@)
                &&& r@[j].message@ == notification_message_spec(
                    alert.alert_type@,
                    alert.place@,
                    distances@[j]@,
                )
                &&& r@[j].priority == 10
            },
{
    let mut result: Vec<NotificationPayload> = Vec::new();
    let n = recipients.len();
    let mut i: usize = 0;
    while i < n
        invariant
            n == recipients@.len(),
            n == distances@.len(),
            i <= n,
            result@.len() == i,
            forall|j: int|
                0 <= j < i ==> {
                    &&& (#[trigger] result@[j]).to@ == recipients@[j].token@
                    &&& result@[j].title@ == notification_title_spec(alert.alert_type@)
                    &&& result@[j].message@ == notification_message_spec(
                        alert.alert_type@,
                        alert.place@,
                        distances@[j]@,
                    )
                    &&& result@[j].priority == 10
                },
        decreases n - i,
    {
        let payload = NotificationPayload {
            to: recipients[i].token.clone(),
            title: notification_title(&alert.alert_type),
            message: notification_message(&alert.alert_type, &alert.place, &distances[i]),
            priority: 10,
        };
        result.push(payload);
        i = i + 1;
    }
    result
}

/// How many of the per-recipient dispatch outcomes succeeded.
pub open spec fn count_true(s: Seq<bool>) -> int
    decreases s.len(),
{
    if s.len() == 0 {
        0int
    } else {
        count_true(s.drop_last()) + if s.last() {
            1int
        } else {
            0int
        }
    }
}

/// Tallies the per-recipient dispatch outcomes of one fanout: the count of
/// successful deliveries, and nothing else, reaches the caller.
pub fn count_successes(outcomes: &Vec<bool>) -> (count: u16)
    requires
        outcomes@.len() <= u16::MAX,
    ensures
        count == count_true(outcomes@),
        count <= outcomes@.len(),
{
    let mut count: u16 = 0;
    let n = outcomes.len();
    let mut i: usize = 0;
    while i < n
        invariant
            n == outcomes@.len(),
            n <= u16::MAX,
            i <= n,
            count == count_true(outcomes@.subrange(0, i as int)),
            count <= i,
        decreases n - i,
    {
        proof {
            assert(outcomes@.subrange(0, i + 1).drop_last() =~= outcomes@.subrange(0, i as int));
            assert(outcomes@.subrange(0, i + 1).last() == outcomes@[i as int]);
        }
        if outcomes[i] {
            count = count + 1;
        }
        i = i + 1;
    }
    proof {
        assert(outcomes@.subrange(0, n as int) =~= outcomes@);
    }
    count
}

} // verus!
