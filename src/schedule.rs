//! A whole schedule: five fields read from one line and told as one sentence.
use vstd::prelude::*;

use crate::clause::{day_clause, daytime_text, month_clause, print_daytime, weekday_clause};
use crate::field::{field_shape, parse_exp_seg, shape_wf, split_on, split_text, ExpValue, Shape};
use crate::text::padded_text;

verus! {

/// A parsed schedule, one value per field.
#[derive(Debug)]
pub struct CronExp {
    pub minute: ExpValue,
    pub hour: ExpValue,
    pub day: ExpValue,
    pub month: ExpValue,
    pub weekday: ExpValue,
}

/// The mathematical content of a schedule.
pub struct Schedule {
    pub minute: Shape,
    pub hour: Shape,
    pub day: Shape,
    pub month: Shape,
    pub weekday: Shape,
}

impl View for CronExp {
    type V = Schedule;

    open spec fn view(&self) -> Schedule {
        Schedule {
            minute: self.minute@,
            hour: self.hour@,
            day: self.day@,
            month: self.month@,
            weekday: self.weekday@,
        }
    }
}

pub open spec fn schedule_wf(e: Schedule) -> bool {
    &&& shape_wf(e.minute)
    &&& shape_wf(e.hour)
    &&& shape_wf(e.day)
    &&& shape_wf(e.month)
    &&& shape_wf(e.weekday)
}

/// Five fields separated by single spaces, in the order minute, hour,
/// day of month, month, day of week; each must read as a field.
pub open spec fn schedule_of(s: Seq<char>) -> Option<Schedule> {
    let t = split_text(s, ' ');
    if t.len() == 5 && field_shape(t[0]) is Some && field_shape(t[1]) is Some && field_shape(
        t[2],
    ) is Some && field_shape(t[3]) is Some && field_shape(t[4]) is Some {
        Some(
            Schedule {
                minute: field_shape(t[0])->0,
                hour: field_shape(t[1])->0,
                day: field_shape(t[2])->0,
                month: field_shape(t[3])->0,
                weekday: field_shape(t[4])->0,
            },
        )
    } else {
        None
    }
}

/// The day-of-month and day-of-week clauses, joined by `and` when both are
/// there, with a space before them.
pub open spec fn date_clauses(day: Seq<char>, weekday: Seq<char>) -> Seq<char> {
    if day.len() == 0 {
        padded_text(weekday)
    } else if weekday.len() == 0 {
        " "@ + day
    } else {
        " "@ + day + " and "@ + weekday
    }
}

/// The whole sentence: time, day and weekday, month, and a period.
pub open spec fn sentence_text(e: Schedule) -> Seq<char> {
    daytime_text(e.minute, e.hour) + date_clauses(day_clause(e.day), weekday_clause(e.weekday))
        + padded_text(month_clause(e.month)) + "."@
}

/// Reads a schedule from one line: exactly five fields separated by single
/// spaces. `None` when the count is wrong or a field does not read.
pub fn parse_cron_exp(cron_exp: &String) -> (r: Option<CronExp>)
    ensures
        match r {
            Some(e) => schedule_of(cron_exp@) == Some(e@) && schedule_wf(e@),
            None => schedule_of(cron_exp@) is None,
        },
{
    let tokens = split_on(cron_exp.as_str(), ' ');
    if tokens.len() != 5 {
        return None;
    }
    let ghost t = split_text(cron_exp@, ' ');
    assert(t[0] == tokens@[0]@);
    assert(t[1] == tokens@[1]@);
    assert(t[2] == tokens@[2]@);
    assert(t[3] == tokens@[3]@);
    assert(t[4] == tokens@[4]@);
    let minute = match parse_exp_seg(&tokens[0]) {
        Some(v) => v,
        None => return None,
    };
    let hour = match parse_exp_seg(&tokens[1]) {
        Some(v) => v,
        None => return None,
    };
    let day = match parse_exp_seg(&tokens[2]) {
        Some(v) => v,
        None => return None,
    };
    let month = match parse_exp_seg(&tokens[3]) {
        Some(v) => v,
        None => return None,
    };
    let weekday = match parse_exp_seg(&tokens[4]) {
        Some(v) => v,
        None => return None,
    };
    Some(CronExp { minute, hour, day, month, weekday })
}

impl CronExp {
    /// The schedule as one English sentence.
    pub fn to_string(&self) -> (r: String)
        requires
            schedule_wf(self@),
        ensures
            r@ == sentence_text(self@),
    {
        let daytime = print_daytime(&self.minute, &self.hour);
        let day = self.day.day_str();
        let weekday = self.weekday.weekday_str();
        let month = self.month.month_str();

        let mut output = daytime;
        if day.as_str().is_empty() {
            if !weekday.as_str().is_empty() {
                output.append(" ");
                output.append(weekday.as_str());
            }
        } else {
            output.append(" ");
            output.append(day.as_str());
            if !weekday.as_str().is_empty() {
                output.append(" and ");
                output.append(weekday.as_str());
            }
        }
        if !month.as_str().is_empty() {
            output.append(" ");
            output.append(month.as_str());
        }
        output.append(".");
        assert(output@ =~= sentence_text(self@));
        output
    }
}

} // verus!
