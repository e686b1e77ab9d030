//! Tasks: how a due date is read, and the body of the request that creates a
//! task.

use vstd::prelude::*;
use vstd::string::*;
use chrono::{Datelike, TimeZone};
use crate::text::copy_texts;
use crate::tick_tick_api::{CreateTaskBody, CreateTaskBodyModel, TaskPriority};

verus! {

/// A due time as the user writes it: day, then hour and minute on the
/// twelve-hour clock, as in `2025-12-16 2:00pm`.
pub const CLOCK_FORMAT: &'static str = "%Y-%m-%d %I:%M%p";

/// A due day as the user writes it, as in `2025-12-25`.
pub const DAY_FORMAT: &'static str = "%Y-%m-%d";

/// A due time as the service takes it: universal time, as in
/// `2025-12-16T19:00:00+0000`.
pub const UTC_FORMAT: &'static str = "%Y-%m-%dT%H:%M:%S+0000";

/// Days from the first day of the common era to the first day of 1970,
/// counting the former as day one.
pub const EPOCH_DAY: i64 = 719163;

/// Seconds in a day.
pub const DAY_SECONDS: i64 = 86400;

/// The wall-clock time that `chrono` reads from `input` by `format`, in
/// seconds since 1970-01-01 00:00:00 on the same clock; `None` where
/// `input` does not follow `format`.
pub uninterp spec fn wall_time_in(input: Seq<char>, format: Seq<char>) -> Option<i64>;

/// The day that `chrono` reads from `input` by `format`, counted from the
/// first day of the common era as day one; `None` where `input` does not
/// follow `format`.
pub uninterp spec fn day_in(input: Seq<char>, format: Seq<char>) -> Option<i32>;

/// The instant, in seconds since 1970-01-01 00:00:00 UTC, at which the
/// clocks of the time zone named `zone` show the wall-clock time `local`, as
/// `chrono_tz` has it; `None` where the zone is unknown, where its clocks
/// show that time never or twice, or where `chrono` cannot hold the time.
pub uninterp spec fn instant_of_wall_time(zone: Seq<char>, local: i64) -> Option<i64>;

/// The text that `chrono` writes for an instant by `format`; `None` for an
/// instant outside the years it can hold.
pub uninterp spec fn instant_text(instant: i64, format: Seq<char>) -> Option<Seq<char>>;

/// Calls `chrono::NaiveDateTime::parse_from_str`, and counts the seconds of
/// what it read as `timestamp` does. The contract claims that the result is a function of the
/// two arguments, and names it `wall_time_in`.
#[verifier::external_body]
fn parse_wall_time(input: &str, format: &str) -> (r: Option<i64>)
    ensures
        r == wall_time_in(input@, format@),
{
    chrono::NaiveDateTime::parse_from_str(input, format).ok().map(|t| t.and_utc().timestamp())
}

/// Calls `chrono::NaiveDate::parse_from_str`, and counts the days of what
/// it read as `num_days_from_ce` does. The contract claims that the result is a function of the two
/// arguments, and names it `day_in`.
#[verifier::external_body]
fn parse_day(input: &str, format: &str) -> (r: Option<i32>)
    ensures
        r == day_in(input@, format@),
{
    chrono::NaiveDate::parse_from_str(input, format).ok().map(|d| d.num_days_from_ce())
}

/// Parses `zone` as a `chrono_tz::Tz` and calls its `from_local_datetime`
/// on the wall-clock time, which `chrono::DateTime::from_timestamp` made of
/// the seconds, keeping the instant where there is exactly one. The contract
/// claims that the result is a function of the two arguments, and names it
/// `instant_of_wall_time`.
#[verifier::external_body]
fn wall_time_to_instant(zone: &str, local: i64) -> (r: Option<i64>)
    ensures
        r == instant_of_wall_time(zone@, local),
{
    let tz: chrono_tz::Tz = zone.parse().ok()?;
    let wall = chrono::DateTime::from_timestamp(local, 0)?.naive_utc();
    tz.from_local_datetime(&wall).single().map(|t| t.timestamp())
}

/// Calls `chrono::DateTime::format` on the instant, which
/// `chrono::DateTime::from_timestamp` made of the seconds, and takes the
/// text. The contract claims that the result is a function of the two
/// arguments, and names it `instant_text`. Only the service's own format is
/// asked for: writing by a format that `chrono` cannot read would panic.
#[verifier::external_body]
fn write_instant(instant: i64, format: &str) -> (r: Option<String>)
    requires
        format@ == UTC_FORMAT@,
    ensures
        r.deep_view() == instant_text(instant, format@),
{
    chrono::DateTime::from_timestamp(instant, 0).map(|t| t.format(format).to_string())
}

/// The wall-clock time that a due date stands for, in seconds since
/// 1970-01-01 00:00:00 on the same clock: the time that was read, or else
/// midnight of the day that was read.
pub open spec fn due_wall_time(clock: Option<i64>, day: Option<i32>) -> Option<i64> {
    match clock {
        Some(seconds) => Some(seconds),
        None => match day {
            Some(days) => Some(((days - EPOCH_DAY) * DAY_SECONDS) as i64),
            None => None,
        },
    }
}

/// The due date that the service is sent for what the user wrote: `input`
/// read as a time of day, or else as a day, on the clocks of `zone`, written
/// in universal time. `None` where `input` is neither, where the zone is
/// unknown, or where its clocks show that time never or twice.
pub open spec fn flexible_date(input: Seq<char>, zone: Seq<char>) -> Option<Seq<char>> {
    match due_wall_time(wall_time_in(input, CLOCK_FORMAT@), day_in(input, DAY_FORMAT@)) {
        Some(local) => match instant_of_wall_time(zone, local) {
            Some(instant) => instant_text(instant, UTC_FORMAT@),
            None => None,
        },
        None => None,
    }
}

/// The number the service knows a priority by.
pub open spec fn priority_number(priority: TaskPriority) -> u32 {
    match priority {
        TaskPriority::Low => 1,
        TaskPriority::Mid => 3,
        TaskPriority::High => 5,
    }
}

/// What the user asks for when creating a task.
#[derive(Debug, PartialEq, Eq)]
pub struct CreateArgs {
    /// Task description.
    pub title: String,
    /// Project name.
    pub project: String,
    /// Tags.
    pub tags: Vec<String>,
    /// Due date, as a day or as a day and a time.
    pub due: Option<String>,
    /// Priority.
    pub priority: Option<TaskPriority>,
}

/// The address that new tasks are sent to.
pub open spec fn task_address(api_host: Seq<char>) -> Seq<char> {
    api_host + "/open/v1/task"@
}

/// The body that creates the task `args` asks for, in the project
/// `project_id`, for a user in the time zone `zone`.
pub open spec fn task_body(
    title: Seq<char>,
    tags: Seq<Seq<char>>,
    due: Option<Seq<char>>,
    priority: Option<TaskPriority>,
    project_id: Seq<char>,
    zone: Seq<char>,
) -> CreateTaskBodyModel {
    CreateTaskBodyModel {
        title,
        project_id: Some(project_id),
        tags,
        due_date: match due {
            Some(input) => flexible_date(input, zone),
            None => None,
        },
        time_zone: zone,
        priority: match priority {
            Some(p) => Some(priority_number(p)),
            None => None,
        },
    }
}

/// The wall-clock time that a due date stands for, given what was read from
/// it as a time of day and as a day.
pub fn wall_time_of(clock: Option<i64>, day: Option<i32>) -> (r: Option<i64>)
    ensures
        r == due_wall_time(clock, day),
{
    match clock {
        Some(seconds) => Some(seconds),
        None => match day {
            Some(days) => {
                let since_epoch: i64 = days as i64 - EPOCH_DAY;
                assert(-0x1_0000_0000 < since_epoch < 0x1_0000_0000);
                assert(since_epoch * DAY_SECONDS == since_epoch * 86400);
                Some(since_epoch * DAY_SECONDS)
            },
            None => None,
        },
    }
}

/// Reads a due date as the user wrote it and writes it as the service takes
/// it.
pub fn parse_flexible_date(input: &str, timezone: &str) -> (r: Option<String>)
    ensures
        r.deep_view() == flexible_date(input@, timezone@),
{
    let clock = parse_wall_time(input, CLOCK_FORMAT);
    let day = match clock {
        Some(_) => None,
        None => parse_day(input, DAY_FORMAT),
    };
    match wall_time_of(clock, day) {
        Some(local) => match wall_time_to_instant(timezone, local) {
            Some(instant) => write_instant(instant, UTC_FORMAT),
            None => None,
        },
        None => None,
    }
}

/// The number the service knows a priority by.
pub fn parse_priority(priority: &TaskPriority) -> (r: u32)
    ensures
        r == priority_number(*priority),
{
    match priority {
        TaskPriority::Low => 1,
        TaskPriority::Mid => 3,
        TaskPriority::High => 5,
    }
}

/// The address that new tasks are sent to.
pub fn task_endpoint(api_host: &str) -> (r: String)
    ensures
        r@ == task_address(api_host@),
{
    String::from_str(api_host).concat("/open/v1/task")
}

/// Builds the body of the request that creates a task: the user's words,
/// the project they resolved to, the due date in universal time, and the
/// priority as the service numbers it.
pub fn create_task(args: &CreateArgs, project_id: String, time_zone: &str) -> (r: CreateTaskBody)
    ensures
        r@ == task_body(
            args.title@,
            args.tags.deep_view(),
            args.due.deep_view(),
            args.priority,
            project_id@,
            time_zone@,
        ),
{
    let due_date = match &args.due {
        Some(due) => parse_flexible_date(due.as_str(), time_zone),
        None => None,
    };
    let priority = match &args.priority {
        Some(p) => Some(parse_priority(p)),
        None => None,
    };
    CreateTaskBody {
        title: args.title.clone(),
        project_id: Some(project_id),
        tags: copy_texts(&args.tags),
        due_date,
        time_zone: String::from_str(time_zone),
        priority,
    }
}

} // verus!
