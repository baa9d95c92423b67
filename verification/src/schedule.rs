//! Startup validation of the configured reminders.
//!
//! Every reminder's cron expression and target-room identifier are checked
//! before the bot starts serving; the first invalid entry is reported and the
//! process must not proceed. Both checks are pure functions of the
//! configured text, performed by the scheduling and chat-transport crates
//! behind trusted wrappers.

use vstd::prelude::*;

use crate::config::{Config, ReminderView};

verus! {

/// Whether the scheduler accepts a cron expression. Acceptance is a function
/// of the expression text alone.
pub uninterp spec fn cron_accepted(expr: Seq<char>) -> bool;

/// Whether a room identifier is well-formed. Well-formedness is a function
/// of the identifier text alone.
pub uninterp spec fn room_id_accepted(room: Seq<char>) -> bool;

/// Relies on `tokio_cron_scheduler::Job::new`: it parses the given schedule
/// expression, a pure computation on the text, and errs exactly when the
/// expression is invalid.
#[verifier::external_body]
fn cron_is_valid(expr: &str) -> (r: bool)
    ensures
        r == cron_accepted(expr@),
{
    tokio_cron_scheduler::Job::new(expr, |_uuid, _lock| {}).is_ok()
}

/// Relies on `matrix_sdk::ruma::RoomId::parse`: it validates the identifier's
/// shape, a pure computation on the text, and errs exactly when the
/// identifier is ill-formed.
#[verifier::external_body]
fn room_id_is_valid(room: &str) -> (r: bool)
    ensures
        r == room_id_accepted(room@),
{
    matrix_sdk::ruma::RoomId::parse(room).is_ok()
}

/// A reminder entry the bot cannot serve, by its position in the configured
/// list.
#[derive(Debug, Clone, Copy, PartialEq, Eq, Structural)]
pub enum ReminderFault {
    /// The entry's cron expression does not parse.
    BadCron { index: usize },
    /// The entry's room identifier is ill-formed.
    BadRoom { index: usize },
}

/// The verdict on the reminders from entry `i` on: the first entry whose
/// cron expression, then room identifier, fails its check, or a pass.
pub open spec fn validate_from(rs: Seq<ReminderView>, i: int) -> Result<(), ReminderFault>
    decreases rs.len() - i,
{
    if i < 0 || i >= rs.len() {
        Ok(())
    } else if !cron_accepted(rs[i].cron) {
        Err(ReminderFault::BadCron { index: i as usize })
    } else if !room_id_accepted(rs[i].matrix_room) {
        Err(ReminderFault::BadRoom { index: i as usize })
    } else {
        validate_from(rs, i + 1)
    }
}

/// Checks every configured reminder, in order: each cron expression must
/// parse and each room identifier must be well-formed. Returns the first
/// entry's fault, or a pass exactly when every entry passes both checks.
pub fn validate_reminders(config: &Config) -> (r: Result<(), ReminderFault>)
    ensures
        r == validate_from(config@.reminders, 0),
{
    let mut i: usize = 0;
    while i < config.reminders.len()
        invariant
            0 <= i <= config.reminders.len(),
            config@.reminders.len() == config.reminders@.len(),
            validate_from(config@.reminders, 0) == validate_from(config@.reminders, i as int),
        decreases config.reminders.len() - i,
    {
        let entry = &config.reminders[i];
        if !cron_is_valid(entry.cron.as_str()) {
            return Err(ReminderFault::BadCron { index: i });
        }
        if !room_id_is_valid(entry.matrix_room.as_str()) {
            return Err(ReminderFault::BadRoom { index: i });
        }
        i = i + 1;
    }
    Ok(())
}

} // verus!
