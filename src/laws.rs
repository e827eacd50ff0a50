//! Properties of the sentences, proved over the specifications that the
//! functions' contracts use.
use vstd::prelude::*;

use crate::clause::{
    daytime_text, day_clause, hour_clause, month_clause, month_texts, number_texts,
    symbols_daytime, weekday_clause, weekday_texts,
};
use crate::field::Shape;
use crate::schedule::{date_clauses, schedule_of, sentence_text, Schedule};
use crate::text::{
    clock_text, comma_prefix, decimal_text, digit_char, month_text, ordinal_suffix, ordinal_text,
    oxford_text, padded_text, two_digit_text, weekday_text,
};

verus! {

proof fn lemma_comma_prefix_first(items: Seq<Seq<char>>)
    requires
        items.len() >= 1,
    ensures
        comma_prefix(items) == items[0] + ", "@ + comma_prefix(items.drop_first()),
    decreases items.len(),
{
    if items.len() == 1 {
        assert(items.drop_first() =~= Seq::<Seq<char>>::empty());
        assert(items.drop_last() =~= Seq::<Seq<char>>::empty());
        assert(comma_prefix(items) =~= items[0] + ", "@ + comma_prefix(items.drop_first()));
    } else {
        lemma_comma_prefix_first(items.drop_last());
        assert(items.drop_last().drop_first() =~= items.drop_first().drop_last());
        assert(items.drop_last()[0] == items[0]);
        assert(items.drop_first().last() == items.last());
        assert(comma_prefix(items) =~= items[0] + ", "@ + comma_prefix(items.drop_first()));
    }
}

/// An English list of one item is the item alone; of two, the items joined
/// by ` and ` with no comma; of three, `A, B, and C`; and a longer one is
/// its first item, a comma and a space, then the list of the rest.
pub proof fn lemma_oxford_list(items: Seq<Seq<char>>)
    ensures
        items.len() == 1 ==> oxford_text(items) == items[0],
        items.len() == 2 ==> oxford_text(items) == items[0] + " and "@ + items[1],
        items.len() == 3 ==> oxford_text(items) == items[0] + ", "@ + items[1] + ", "@ + "and "@
            + items[2],
        items.len() >= 4 ==> oxford_text(items) == items[0] + ", "@ + oxford_text(
            items.drop_first(),
        ),
{
    if items.len() == 3 {
        let front = items.drop_last();
        lemma_comma_prefix_first(front);
        lemma_comma_prefix_first(front.drop_first());
        assert(front.drop_first().drop_first() =~= Seq::<Seq<char>>::empty());
        assert(oxford_text(items) =~= items[0] + ", "@ + items[1] + ", "@ + "and "@ + items[2]);
    }
    if items.len() >= 4 {
        lemma_comma_prefix_first(items.drop_last());
        assert(items.drop_last().drop_first() =~= items.drop_first().drop_last());
        assert(oxford_text(items) =~= items[0] + ", "@ + oxford_text(items.drop_first()));
    }
}

proof fn lemma_decimal_last_digit(n: nat)
    ensures
        decimal_text(n).len() > 0,
        decimal_text(n).last() == digit_char(n % 10),
{
}

/// The ordinal suffix of 11, 12 and 13 is `th`; of any other number it
/// depends on the last decimal digit alone, which is the last character of
/// the number as written.
pub proof fn lemma_ordinal_suffix(n: nat, m: nat)
    ensures
        n == 11 || n == 12 || n == 13 ==> ordinal_suffix(n) == "th"@,
        n != 11 && n != 12 && n != 13 && m != 11 && m != 12 && m != 13 && n % 10 == m % 10
            ==> ordinal_suffix(n) == ordinal_suffix(m),
        n != 11 && n != 12 && n != 13 ==> ordinal_suffix(n) == (if n % 10 == 1 {
            "st"@
        } else if n % 10 == 2 {
            "nd"@
        } else if n % 10 == 3 {
            "rd"@
        } else {
            "th"@
        }),
        decimal_text(n).last() == digit_char(n % 10),
{
    lemma_decimal_last_digit(n);
}

/// On a 12-hour clock, hour 0 is `12:MM AM`, hour 12 is `12:MM PM`, hours 13
/// to 23 are `(h-12):MM PM` and hours 1 to 11 are `h:MM AM`, where `MM` is
/// always the two digits of the minute.
pub proof fn lemma_clock(minutes: nat, hour: nat)
    requires
        hour < 24,
        minutes < 60,
    ensures
        ({
            let mm = seq![digit_char(minutes / 10), digit_char(minutes % 10)];
            &&& two_digit_text(minutes) == mm
            &&& hour == 0 ==> clock_text(minutes, hour) == seq!['1', '2', ':'] + mm + " AM"@
            &&& hour == 12 ==> clock_text(minutes, hour) == seq!['1', '2', ':'] + mm + " PM"@
            &&& 13 <= hour <= 23 ==> clock_text(minutes, hour) == decimal_text(
                (hour - 12) as nat,
            ) + seq![':'] + mm + " PM"@
            &&& 1 <= hour <= 11 ==> clock_text(minutes, hour) == decimal_text(hour) + seq![':']
                + mm + " AM"@
        }),
{
    reveal_strlit("12");
    reveal_strlit(":");
    let mm = seq![digit_char(minutes / 10), digit_char(minutes % 10)];
    if minutes < 10 {
        assert(two_digit_text(minutes) =~= mm);
    } else {
        assert(decimal_text(minutes / 10) == seq![digit_char(minutes / 10)]);
        assert(two_digit_text(minutes) =~= mm);
    }
    assert(decimal_text(12) =~= seq!['1', '2']) by {
        assert(decimal_text(1) == seq!['1']);
    }
    if hour == 0 {
        assert(clock_text(minutes, hour) =~= seq!['1', '2', ':'] + mm + " AM"@);
    } else if hour == 12 {
        assert(clock_text(minutes, hour) =~= seq!['1', '2', ':'] + mm + " PM"@);
    } else if 13 <= hour {
        assert(clock_text(minutes, hour) =~= decimal_text((hour - 12) as nat) + seq![':'] + mm
            + " PM"@);
    } else {
        assert(clock_text(minutes, hour) =~= decimal_text(hour) + seq![':'] + mm + " AM"@);
    }
}

/// A schedule whose day of month, month and day of week are all wildcards
/// reads as its time clause and a period, nothing more.
pub proof fn lemma_time_only(e: Schedule)
    requires
        e.day is Wildcard,
        e.month is Wildcard,
        e.weekday is Wildcard,
    ensures
        sentence_text(e) == daytime_text(e.minute, e.hour) + "."@,
{
    assert(date_clauses(day_clause(e.day), weekday_clause(e.weekday)) =~= Seq::<char>::empty());
    assert(padded_text(month_clause(e.month)) =~= Seq::<char>::empty());
    assert(sentence_text(e) =~= daytime_text(e.minute, e.hour) + "."@);
}

/// The text holds no period.
pub open spec fn no_period(s: Seq<char>) -> bool {
    forall|i: int| 0 <= i < s.len() ==> s[i] != '.'
}

pub broadcast proof fn lemma_no_period_concat(a: Seq<char>, b: Seq<char>)
    ensures
        #[trigger] no_period(a + b) <==> no_period(a) && no_period(b),
{
    if no_period(a) && no_period(b) {
        assert forall|i: int| 0 <= i < (a + b).len() implies (a + b)[i] != '.' by {
            if i >= a.len() {
                assert((a + b)[i] == b[i - a.len()]);
            }
        }
    }
    if no_period(a + b) {
        assert forall|i: int| 0 <= i < b.len() implies b[i] != '.' by {
            assert((a + b)[i + a.len()] == b[i]);
        }
        assert forall|i: int| 0 <= i < a.len() implies a[i] != '.' by {
            assert((a + b)[i] == a[i]);
        }
    }
}

proof fn lemma_decimal_no_period(n: nat)
    ensures
        no_period(decimal_text(n)),
    decreases n,
{
    if n >= 10 {
        lemma_decimal_no_period(n / 10);
        assert(no_period(decimal_text(n)));
    }
}

proof fn lemma_words_no_period(n: nat)
    ensures
        no_period(weekday_text(n)),
        no_period(month_text(n)),
        no_period(ordinal_text(n)),
{
    broadcast use lemma_no_period_concat;

    reveal_strlit("Monday");
    reveal_strlit("Tuesday");
    reveal_strlit("Wednesday");
    reveal_strlit("Thursday");
    reveal_strlit("Friday");
    reveal_strlit("Saturday");
    reveal_strlit("Sunday");
    reveal_strlit("January");
    reveal_strlit("February");
    reveal_strlit("March");
    reveal_strlit("April");
    reveal_strlit("May");
    reveal_strlit("June");
    reveal_strlit("July");
    reveal_strlit("August");
    reveal_strlit("September");
    reveal_strlit("October");
    reveal_strlit("November");
    reveal_strlit("December");
    reveal_strlit("st");
    reveal_strlit("nd");
    reveal_strlit("rd");
    reveal_strlit("th");
    lemma_decimal_no_period(n);
}

proof fn lemma_oxford_no_period(items: Seq<Seq<char>>)
    requires
        forall|i: int| 0 <= i < items.len() ==> no_period(#[trigger] items[i]),
    ensures
        no_period(oxford_text(items)),
{
    broadcast use lemma_no_period_concat;

    reveal_strlit(" and ");
    reveal_strlit("and ");
    if items.len() >= 3 {
        lemma_comma_prefix_no_period(items.drop_last());
    }
}

proof fn lemma_comma_prefix_no_period(items: Seq<Seq<char>>)
    requires
        forall|i: int| 0 <= i < items.len() ==> no_period(#[trigger] items[i]),
    ensures
        no_period(comma_prefix(items)),
    decreases items.len(),
{
    broadcast use lemma_no_period_concat;

    reveal_strlit(", ");
    if items.len() > 0 {
        lemma_comma_prefix_no_period(items.drop_last());
        assert(no_period(items.last()));
    }
}

proof fn lemma_lists_no_period(l: Seq<nat>)
    ensures
        no_period(oxford_text(number_texts(l))),
        no_period(oxford_text(weekday_texts(l))),
        no_period(oxford_text(month_texts(l))),
{
    assert forall|i: int| 0 <= i < l.len() implies no_period(#[trigger] number_texts(l)[i]) by {
        lemma_decimal_no_period(l[i]);
    }
    assert forall|i: int| 0 <= i < l.len() implies no_period(#[trigger] weekday_texts(l)[i]) by {
        lemma_words_no_period(l[i]);
    }
    assert forall|i: int| 0 <= i < l.len() implies no_period(#[trigger] month_texts(l)[i]) by {
        lemma_words_no_period(l[i]);
    }
    lemma_oxford_no_period(number_texts(l));
    lemma_oxford_no_period(weekday_texts(l));
    lemma_oxford_no_period(month_texts(l));
}

proof fn lemma_clauses_no_period(v: Shape)
    ensures
        no_period(hour_clause(v)),
        no_period(day_clause(v)),
        no_period(weekday_clause(v)),
        no_period(month_clause(v)),
{
    broadcast use lemma_no_period_concat;

    reveal_strlit("past hour ");
    reveal_strlit("past every hour from ");
    reveal_strlit(" through ");
    reveal_strlit("past every ");
    reveal_strlit(" hour");
    reveal_strlit("on day-of-month ");
    reveal_strlit("on every day-of-month from ");
    reveal_strlit("on every ");
    reveal_strlit(" day-of-month");
    reveal_strlit("on ");
    reveal_strlit("on every day-of-week from ");
    reveal_strlit(" day-of-week");
    reveal_strlit("in ");
    reveal_strlit("in every month from ");
    reveal_strlit("in every ");
    reveal_strlit(" month");
    match v {
        Shape::List(l) => lemma_lists_no_period(l),
        Shape::Range(a, b) => {
            lemma_decimal_no_period(a);
            lemma_decimal_no_period(b);
            lemma_words_no_period(a);
            lemma_words_no_period(b);
        },
        Shape::Step(n) => lemma_words_no_period(n),
        Shape::Wildcard => {},
        Shape::Number(n) => {
            lemma_decimal_no_period(n);
            lemma_words_no_period(n);
        },
    }
}

proof fn lemma_clock_no_period(minutes: nat, hour: nat)
    ensures
        no_period(clock_text(minutes, hour)),
{
    broadcast use lemma_no_period_concat;

    reveal_strlit("12");
    reveal_strlit(":");
    reveal_strlit(" AM");
    reveal_strlit(" PM");
    reveal_strlit("0");
    lemma_decimal_no_period(minutes);
    lemma_decimal_no_period(hour);
    lemma_decimal_no_period((hour % 24 - 12) as nat);
    assert(no_period(seq!['0']));
}

proof fn lemma_daytime_no_period(minute: Shape, hour: Shape)
    ensures
        no_period(daytime_text(minute, hour)),
{
    broadcast use lemma_no_period_concat;

    reveal_strlit("At every minute");
    reveal_strlit("At every minute past ");
    reveal_strlit("At ");
    reveal_strlit("At minute ");
    reveal_strlit(" every hour");
    reveal_strlit("At every minute from ");
    reveal_strlit(" through ");
    reveal_strlit("At every ");
    reveal_strlit(" minute");
    reveal_strlit(" ");
    lemma_clauses_no_period(hour);
    match minute {
        Shape::List(l) => lemma_lists_no_period(l),
        Shape::Range(a, b) => {
            lemma_decimal_no_period(a);
            lemma_decimal_no_period(b);
        },
        Shape::Step(n) => lemma_words_no_period(n),
        Shape::Wildcard => {
            if let Shape::Number(h) = hour {
                lemma_clock_no_period(0, h);
            }
        },
        Shape::Number(m) => {
            lemma_decimal_no_period(m);
            if let Shape::Number(h) = hour {
                lemma_clock_no_period(m, h);
            }
        },
    }
    assert(no_period(padded_text(hour_clause(hour))));
    assert(no_period(symbols_daytime(minute, hour)));
}

proof fn lemma_date_no_period(day: Seq<char>, weekday: Seq<char>, month: Seq<char>)
    requires
        no_period(day),
        no_period(weekday),
        no_period(month),
    ensures
        no_period(date_clauses(day, weekday)),
        no_period(padded_text(month)),
{
    broadcast use lemma_no_period_concat;

    reveal_strlit(" ");
    reveal_strlit(" and ");
}

/// Every line that reads as a schedule is told as one sentence: it ends in
/// a period and holds no other.
pub proof fn lemma_one_sentence(line: Seq<char>)
    requires
        schedule_of(line) is Some,
    ensures
        ({
            let s = sentence_text(schedule_of(line)->0);
            &&& s.len() > 0
            &&& s.last() == '.'
            &&& forall|i: int| 0 <= i < s.len() - 1 ==> s[i] != '.'
        }),
{
    reveal_strlit(".");
    let e = schedule_of(line)->0;
    let time = daytime_text(e.minute, e.hour);
    let date = date_clauses(day_clause(e.day), weekday_clause(e.weekday));
    let month = padded_text(month_clause(e.month));
    lemma_daytime_no_period(e.minute, e.hour);
    lemma_clauses_no_period(e.day);
    lemma_clauses_no_period(e.weekday);
    lemma_clauses_no_period(e.month);
    lemma_date_no_period(day_clause(e.day), weekday_clause(e.weekday), month_clause(e.month));
    lemma_no_period_concat(time, date);
    lemma_no_period_concat(time + date, month);
    let body = time + date + month;
    let s = sentence_text(e);
    assert(s == body + "."@);
    assert forall|i: int| 0 <= i < s.len() - 1 implies s[i] != '.' by {
        assert(s[i] == body[i]);
    }
}

} // verus!
