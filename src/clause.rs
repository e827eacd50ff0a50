//! The clauses of a sentence: time of day, day of month, day of week, month.
use vstd::prelude::*;

use crate::field::{nat_values, shape_wf, CronSymbol, ExpValue, Shape};
use crate::text::{
    clock_text, decimal, decimal_text, join_oxford_comma, left_pad_if_not_empty, month_name,
    month_text, ordinal_text, oxford_text, padded_text, string_views, time_with_am_pm,
    weekday_name, weekday_text, with_ordinal_postfix,
};

verus! {

pub open spec fn number_texts(l: Seq<nat>) -> Seq<Seq<char>> {
    l.map_values(|x: nat| decimal_text(x))
}

pub open spec fn weekday_texts(l: Seq<nat>) -> Seq<Seq<char>> {
    l.map_values(|x: nat| weekday_text(x))
}

pub open spec fn month_texts(l: Seq<nat>) -> Seq<Seq<char>> {
    l.map_values(|x: nat| month_text(x))
}

/// What follows the minutes for an hour field; empty for a wildcard or a
/// single hour.
pub open spec fn hour_clause(v: Shape) -> Seq<char> {
    match v {
        Shape::List(l) => "past hour "@ + oxford_text(number_texts(l)),
        Shape::Range(a, b) => "past every hour from "@ + decimal_text(a) + " through "@
            + decimal_text(b),
        Shape::Step(n) => "past every "@ + ordinal_text(n) + " hour"@,
        _ => Seq::empty(),
    }
}

/// The day-of-month clause; empty for a wildcard.
pub open spec fn day_clause(v: Shape) -> Seq<char> {
    match v {
        Shape::List(l) => "on day-of-month "@ + oxford_text(number_texts(l)),
        Shape::Range(a, b) => "on every day-of-month from "@ + decimal_text(a) + " through "@
            + decimal_text(b),
        Shape::Step(n) => "on every "@ + ordinal_text(n) + " day-of-month"@,
        Shape::Wildcard => Seq::empty(),
        Shape::Number(n) => "on day-of-month "@ + decimal_text(n),
    }
}

/// The day-of-week clause; empty for a wildcard.
pub open spec fn weekday_clause(v: Shape) -> Seq<char> {
    match v {
        Shape::List(l) => "on "@ + oxford_text(weekday_texts(l)),
        Shape::Range(a, b) => "on every day-of-week from "@ + weekday_text(a) + " through "@
            + weekday_text(b),
        Shape::Step(n) => "on every "@ + ordinal_text(n) + " day-of-week"@,
        Shape::Wildcard => Seq::empty(),
        Shape::Number(n) => "on "@ + weekday_text(n),
    }
}

/// The month clause; empty for a wildcard.
pub open spec fn month_clause(v: Shape) -> Seq<char> {
    match v {
        Shape::List(l) => "in "@ + oxford_text(month_texts(l)),
        Shape::Range(a, b) => "in every month from "@ + month_text(a) + " through "@ + month_text(
            b,
        ),
        Shape::Step(n) => "in every "@ + ordinal_text(n) + " month"@,
        Shape::Wildcard => Seq::empty(),
        Shape::Number(n) => "in "@ + month_text(n),
    }
}

/// Time of day when minute and hour are each a wildcard or one value.
pub open spec fn symbols_daytime(minute: Shape, hour: Shape) -> Seq<char> {
    match (minute, hour) {
        (Shape::Wildcard, Shape::Wildcard) => "At every minute"@,
        (Shape::Wildcard, Shape::Number(h)) => "At every minute past "@ + clock_text(0, h),
        (Shape::Number(m), Shape::Number(h)) => "At "@ + clock_text(m, h),
        (Shape::Number(m), Shape::Wildcard) => "At minute "@ + decimal_text(m) + " every hour"@,
        _ => Seq::empty(),
    }
}

pub open spec fn is_symbol(v: Shape) -> bool {
    v is Wildcard || v is Number
}

/// The time clause, which opens every sentence.
pub open spec fn daytime_text(minute: Shape, hour: Shape) -> Seq<char> {
    match minute {
        Shape::List(l) => "At minute "@ + oxford_text(number_texts(l)) + padded_text(
            hour_clause(hour),
        ),
        Shape::Range(a, b) => "At every minute from "@ + decimal_text(a) + " through "@
            + decimal_text(b) + padded_text(hour_clause(hour)),
        Shape::Step(n) => "At every "@ + ordinal_text(n) + " minute"@ + padded_text(
            hour_clause(hour),
        ),
        Shape::Wildcard => if is_symbol(hour) {
            symbols_daytime(minute, hour)
        } else {
            "At every minute"@ + padded_text(hour_clause(hour))
        },
        Shape::Number(m) => if is_symbol(hour) {
            symbols_daytime(minute, hour)
        } else {
            "At minute "@ + decimal_text(m) + padded_text(hour_clause(hour))
        },
    }
}

fn number_strings(list: &Vec<usize>) -> (r: Vec<String>)
    ensures
        string_views(r@) == number_texts(nat_values(list@)),
        r@.len() == list@.len(),
{
    let mut r: Vec<String> = Vec::new();
    let mut i: usize = 0;
    while i < list.len()
        invariant
            i <= list.len(),
            r@.len() == i,
            forall|k: int| 0 <= k < i ==> (#[trigger] r@[k])@ == decimal_text(list@[k] as nat),
        decreases list.len() - i,
    {
        r.push(decimal(list[i]));
        i = i + 1;
    }
    assert(string_views(r@) =~= number_texts(nat_values(list@)));
    r
}

fn weekday_strings(list: &Vec<usize>) -> (r: Vec<String>)
    ensures
        string_views(r@) == weekday_texts(nat_values(list@)),
        r@.len() == list@.len(),
{
    let mut r: Vec<String> = Vec::new();
    let mut i: usize = 0;
    while i < list.len()
        invariant
            i <= list.len(),
            r@.len() == i,
            forall|k: int| 0 <= k < i ==> (#[trigger] r@[k])@ == weekday_text(list@[k] as nat),
        decreases list.len() - i,
    {
        r.push(weekday_name(&list[i]));
        i = i + 1;
    }
    assert(string_views(r@) =~= weekday_texts(nat_values(list@)));
    r
}

fn month_strings(list: &Vec<usize>) -> (r: Vec<String>)
    ensures
        string_views(r@) == month_texts(nat_values(list@)),
        r@.len() == list@.len(),
{
    let mut r: Vec<String> = Vec::new();
    let mut i: usize = 0;
    while i < list.len()
        invariant
            i <= list.len(),
            r@.len() == i,
            forall|k: int| 0 <= k < i ==> (#[trigger] r@[k])@ == month_text(list@[k] as nat),
        decreases list.len() - i,
    {
        r.push(month_name(&list[i]));
        i = i + 1;
    }
    assert(string_views(r@) =~= month_texts(nat_values(list@)));
    r
}

/// `head`, then `a through b`.
fn from_through(head: &str, a: String, b: String) -> (r: String)
    ensures
        r@ == head@ + a@ + " through "@ + b@,
{
    let mut r = String::from_str(head);
    r.append(a.as_str());
    r.append(" through ");
    r.append(b.as_str());
    r
}

fn prefixed(head: &str, rest: String) -> (r: String)
    ensures
        r@ == head@ + rest@,
{
    let mut r = String::from_str(head);
    r.append(rest.as_str());
    r
}

fn surround(head: &str, middle: String, tail: &str) -> (r: String)
    ensures
        r@ == head@ + middle@ + tail@,
{
    let mut r = String::from_str(head);
    r.append(middle.as_str());
    r.append(tail);
    r
}

impl ExpValue {
    /// How the field reads as an hour after a minute clause.
    pub fn hour_str(&self) -> (r: String)
        requires
            shape_wf(self@),
        ensures
            r@ == hour_clause(self@),
    {
        match self {
            ExpValue::List(list) => prefixed("past hour ", join_oxford_comma(&number_strings(list))),
            ExpValue::Range(start, end) => from_through(
                "past every hour from ",
                decimal(*start),
                decimal(*end),
            ),
            ExpValue::Frac(div) => surround("past every ", with_ordinal_postfix(div), " hour"),
            _ => String::new(),
        }
    }

    /// How the field reads as a day of the week.
    pub fn weekday_str(&self) -> (r: String)
        requires
            shape_wf(self@),
        ensures
            r@ == weekday_clause(self@),
    {
        match self {
            ExpValue::List(list) => prefixed("on ", join_oxford_comma(&weekday_strings(list))),
            ExpValue::Range(start, end) => from_through(
                "on every day-of-week from ",
                weekday_name(start),
                weekday_name(end),
            ),
            ExpValue::Frac(div) => surround("on every ", with_ordinal_postfix(div),
                " day-of-week",
            ),
            ExpValue::Symbol(CronSymbol::Wildcard) => String::new(),
            ExpValue::Symbol(CronSymbol::Number(n)) => prefixed("on ", weekday_name(n)),
        }
    }

    /// How the field reads as a day of the month.
    pub fn day_str(&self) -> (r: String)
        requires
            shape_wf(self@),
        ensures
            r@ == day_clause(self@),
    {
        match self {
            ExpValue::List(list) => prefixed("on day-of-month ", join_oxford_comma(&number_strings(list))),
            ExpValue::Frac(div) => surround("on every ", with_ordinal_postfix(div),
                " day-of-month",
            ),
            ExpValue::Range(start, end) => from_through(
                "on every day-of-month from ",
                decimal(*start),
                decimal(*end),
            ),
            ExpValue::Symbol(CronSymbol::Wildcard) => String::new(),
            ExpValue::Symbol(CronSymbol::Number(n)) => prefixed("on day-of-month ", decimal(*n)),
        }
    }

    /// How the field reads as a month.
    pub fn month_str(&self) -> (r: String)
        requires
            shape_wf(self@),
        ensures
            r@ == month_clause(self@),
    {
        match self {
            ExpValue::List(list) => prefixed("in ", join_oxford_comma(&month_strings(list))),
            ExpValue::Frac(div) => surround("in every ", with_ordinal_postfix(div), " month"),
            ExpValue::Range(start, end) => from_through(
                "in every month from ",
                month_name(start),
                month_name(end),
            ),
            ExpValue::Symbol(CronSymbol::Wildcard) => String::new(),
            ExpValue::Symbol(CronSymbol::Number(n)) => prefixed("in ", month_name(n)),
        }
    }
}

/// The time clause when minute and hour are each a wildcard or one value.
pub fn print_daytime_symbols(minute: &CronSymbol, hour: &CronSymbol) -> (r: String)
    ensures
        r@ == symbols_daytime(
            ExpValue::Symbol(*minute)@,
            ExpValue::Symbol(*hour)@,
        ),
{
    match (minute, hour) {
        (CronSymbol::Wildcard, CronSymbol::Wildcard) => String::from_str("At every minute"),
        (CronSymbol::Wildcard, CronSymbol::Number(h_n)) => prefixed("At every minute past ", time_with_am_pm(&0, h_n)),
        (CronSymbol::Number(m_n), CronSymbol::Number(h_n)) => prefixed("At ", time_with_am_pm(m_n, h_n)),
        (CronSymbol::Number(m_n), CronSymbol::Wildcard) => surround("At minute ", decimal(*m_n),
            " every hour",
        ),
    }
}

/// The time clause when the minute is a wildcard or one value.
pub fn print_symbol_first(minute: &CronSymbol, hour: &ExpValue) -> (r: String)
    requires
        shape_wf(hour@),
    ensures
        r@ == daytime_text(ExpValue::Symbol(*minute)@, hour@),
{
    match hour {
        ExpValue::Symbol(hour_sym) => print_daytime_symbols(minute, hour_sym),
        _ => match minute {
            CronSymbol::Wildcard => prefixed("At every minute", left_pad_if_not_empty(hour.hour_str())),
            CronSymbol::Number(m) => {
                let mut r = String::from_str("At minute ");
                r.append(decimal(*m).as_str());
                r.append(left_pad_if_not_empty(hour.hour_str()).as_str());
                r
            },
        },
    }
}

/// The time clause, from the minute and hour fields together.
pub fn print_daytime(minute: &ExpValue, hour: &ExpValue) -> (r: String)
    requires
        shape_wf(minute@),
        shape_wf(hour@),
    ensures
        r@ == daytime_text(minute@, hour@),
{
    match minute {
        ExpValue::Symbol(cs_min) => print_symbol_first(cs_min, hour),
        ExpValue::List(m_list) => surround(
            "At minute ",
            join_oxford_comma(&number_strings(m_list)),
            left_pad_if_not_empty(hour.hour_str()).as_str(),
        ),
        ExpValue::Range(m_start, m_end) => {
            let mut r = from_through("At every minute from ", decimal(*m_start), decimal(*m_end));
            r.append(left_pad_if_not_empty(hour.hour_str()).as_str());
            r
        },
        ExpValue::Frac(m_frac) => {
            let mut r = surround("At every ", with_ordinal_postfix(m_frac), " minute");
            r.append(left_pad_if_not_empty(hour.hour_str()).as_str());
            r
        },
    }
}

} // verus!
