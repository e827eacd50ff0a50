//! Small English fragments: numbers, ordinals, names, clock times and lists.
use vstd::prelude::*;

verus! {

/// The character of a decimal digit.
pub open spec fn digit_char(d: nat) -> char {
    if d == 0 {
        '0'
    } else if d == 1 {
        '1'
    } else if d == 2 {
        '2'
    } else if d == 3 {
        '3'
    } else if d == 4 {
        '4'
    } else if d == 5 {
        '5'
    } else if d == 6 {
        '6'
    } else if d == 7 {
        '7'
    } else if d == 8 {
        '8'
    } else {
        '9'
    }
}

/// The decimal notation of `n`, without leading zeros.
pub open spec fn decimal_text(n: nat) -> Seq<char>
    decreases n,
{
    if n < 10 {
        seq![digit_char(n)]
    } else {
        decimal_text(n / 10).push(digit_char(n % 10))
    }
}

/// `st`, `nd`, `rd` or `th`: the bare values 11, 12 and 13 take `th`, every
/// other number goes by its last decimal digit.
pub open spec fn ordinal_suffix(n: nat) -> Seq<char> {
    if n == 11 || n == 12 || n == 13 {
        "th"@
    } else if n % 10 == 1 {
        "st"@
    } else if n % 10 == 2 {
        "nd"@
    } else if n % 10 == 3 {
        "rd"@
    } else {
        "th"@
    }
}

pub open spec fn ordinal_text(n: nat) -> Seq<char> {
    decimal_text(n) + ordinal_suffix(n)
}

/// Weekday names, taken modulo 7: 0 and 7 are both Sunday.
pub open spec fn weekday_text(day: nat) -> Seq<char> {
    let d = day % 7;
    if d == 1 {
        "Monday"@
    } else if d == 2 {
        "Tuesday"@
    } else if d == 3 {
        "Wednesday"@
    } else if d == 4 {
        "Thursday"@
    } else if d == 5 {
        "Friday"@
    } else if d == 6 {
        "Saturday"@
    } else {
        "Sunday"@
    }
}

/// Month names, taken modulo 12: 0 and 12 are both December.
pub open spec fn month_text(month: nat) -> Seq<char> {
    let m = month % 12;
    if m == 1 {
        "January"@
    } else if m == 2 {
        "February"@
    } else if m == 3 {
        "March"@
    } else if m == 4 {
        "April"@
    } else if m == 5 {
        "May"@
    } else if m == 6 {
        "June"@
    } else if m == 7 {
        "July"@
    } else if m == 8 {
        "August"@
    } else if m == 9 {
        "September"@
    } else if m == 10 {
        "October"@
    } else if m == 11 {
        "November"@
    } else {
        "December"@
    }
}

/// Minutes padded with a zero to at least two digits.
pub open spec fn two_digit_text(m: nat) -> Seq<char> {
    if m < 10 {
        seq!['0'] + decimal_text(m)
    } else {
        decimal_text(m)
    }
}

/// A 12-hour clock time with AM or PM.
pub open spec fn clock_text(minutes: nat, hour: nat) -> Seq<char> {
    let h = hour % 24;
    if h == 0 {
        "12"@ + ":"@ + two_digit_text(minutes) + " AM"@
    } else if h == 12 {
        decimal_text(hour) + ":"@ + two_digit_text(minutes) + " PM"@
    } else if 13 <= h {
        decimal_text((h - 12) as nat) + ":"@ + two_digit_text(minutes) + " PM"@
    } else {
        decimal_text(hour) + ":"@ + two_digit_text(minutes) + " AM"@
    }
}

/// Every item followed by a comma and a space.
pub open spec fn comma_prefix(items: Seq<Seq<char>>) -> Seq<char>
    decreases items.len(),
{
    if items.len() == 0 {
        Seq::empty()
    } else {
        comma_prefix(items.drop_last()) + items.last() + ", "@
    }
}

/// `A`, `A and B`, or `A, B, and C`.
pub open spec fn oxford_text(items: Seq<Seq<char>>) -> Seq<char> {
    if items.len() == 0 {
        Seq::empty()
    } else if items.len() == 1 {
        items[0]
    } else if items.len() == 2 {
        items[0] + " and "@ + items[1]
    } else {
        comma_prefix(items.drop_last()) + "and "@ + items.last()
    }
}

/// The text with one space before it, unless it is empty.
pub open spec fn padded_text(text: Seq<char>) -> Seq<char> {
    if text.len() == 0 {
        text
    } else {
        " "@ + text
    }
}

pub open spec fn string_views(list: Seq<String>) -> Seq<Seq<char>> {
    list.map_values(|s: String| s@)
}

fn push_digit(out: &mut String, d: usize)
    requires
        d < 10,
    ensures
        final(out)@ == old(out)@.push(digit_char(d as nat)),
{
    let lit = if d == 0 {
        "0"
    } else if d == 1 {
        "1"
    } else if d == 2 {
        "2"
    } else if d == 3 {
        "3"
    } else if d == 4 {
        "4"
    } else if d == 5 {
        "5"
    } else if d == 6 {
        "6"
    } else if d == 7 {
        "7"
    } else if d == 8 {
        "8"
    } else {
        "9"
    };
    proof {
        reveal_strlit("0");
        reveal_strlit("1");
        reveal_strlit("2");
        reveal_strlit("3");
        reveal_strlit("4");
        reveal_strlit("5");
        reveal_strlit("6");
        reveal_strlit("7");
        reveal_strlit("8");
        reveal_strlit("9");
    }
    assert(lit@ =~= seq![digit_char(d as nat)]);
    out.append(lit);
}

/// The decimal notation of `n`.
pub fn decimal(n: usize) -> (r: String)
    ensures
        r@ == decimal_text(n as nat),
    decreases n,
{
    if n < 10 {
        let mut s = String::new();
        push_digit(&mut s, n);
        assert(s@ =~= decimal_text(n as nat));
        s
    } else {
        let mut s = decimal(n / 10);
        push_digit(&mut s, n % 10);
        s
    }
}

/// The number followed by its English ordinal suffix: `1st`, `12th`, `22nd`.
pub fn with_ordinal_postfix(number: &usize) -> (r: String)
    ensures
        r@ == ordinal_text(*number as nat),
{
    let n = *number;
    let suffix = if n == 11 || n == 12 || n == 13 {
        "th"
    } else if n % 10 == 1 {
        "st"
    } else if n % 10 == 2 {
        "nd"
    } else if n % 10 == 3 {
        "rd"
    } else {
        "th"
    };
    let mut r = decimal(n);
    r.append(suffix);
    r
}

pub fn weekday_name(day: &usize) -> (r: String)
    ensures
        r@ == weekday_text(*day as nat),
{
    let d = *day % 7;
    let name = if d == 1 {
        "Monday"
    } else if d == 2 {
        "Tuesday"
    } else if d == 3 {
        "Wednesday"
    } else if d == 4 {
        "Thursday"
    } else if d == 5 {
        "Friday"
    } else if d == 6 {
        "Saturday"
    } else {
        "Sunday"
    };
    String::from_str(name)
}

pub fn month_name(month: &usize) -> (r: String)
    ensures
        r@ == month_text(*month as nat),
{
    let m = *month % 12;
    let name = if m == 1 {
        "January"
    } else if m == 2 {
        "February"
    } else if m == 3 {
        "March"
    } else if m == 4 {
        "April"
    } else if m == 5 {
        "May"
    } else if m == 6 {
        "June"
    } else if m == 7 {
        "July"
    } else if m == 8 {
        "August"
    } else if m == 9 {
        "September"
    } else if m == 10 {
        "October"
    } else if m == 11 {
        "November"
    } else {
        "December"
    };
    String::from_str(name)
}

/// Clock time of `hour` and `minutes` on a 12-hour clock, such as `2:05 PM`.
pub fn time_with_am_pm(minutes: &usize, hour: &usize) -> (r: String)
    ensures
        r@ == clock_text(*minutes as nat, *hour as nat),
{
    let h = *hour % 24;
    let mut r = if h == 0 {
        String::from_str("12")
    } else if 13 <= h {
        decimal(h - 12)
    } else {
        decimal(*hour)
    };
    r.append(":");
    if *minutes < 10 {
        proof {
            reveal_strlit("0");
        }
        r.append("0");
    }
    let mm = decimal(*minutes);
    r.append(mm.as_str());
    if h < 12 {
        r.append(" AM");
    } else {
        r.append(" PM");
    }
    assert(r@ =~= clock_text(*minutes as nat, *hour as nat));
    r
}

/// Joins the items in English: `A`, `A and B`, or `A, B, and C`.
pub fn join_oxford_comma(list: &Vec<String>) -> (r: String)
    requires
        list.len() > 0,
    ensures
        r@ == oxford_text(string_views(list@)),
{
    let ghost items = string_views(list@);
    let n = list.len();
    if n == 1 {
        list[0].clone()
    } else if n == 2 {
        let mut r = list[0].clone();
        r.append(" and ");
        r.append(list[1].as_str());
        r
    } else {
        let mut r = String::new();
        let mut i: usize = 0;
        while i < n - 1
            invariant
                n == list.len(),
                n > 2,
                i <= n - 1,
                items == string_views(list@),
                r@ == comma_prefix(items.take(i as int)),
            decreases n - 1 - i,
        {
            assert(items.take(i as int + 1).drop_last() =~= items.take(i as int));
            r.append(list[i].as_str());
            r.append(", ");
            i = i + 1;
        }
        assert(items.take(n as int - 1) =~= items.drop_last());
        r.append("and ");
        r.append(list[n - 1].as_str());
        r
    }
}

/// The text with one space before it, unless it is empty.
pub fn left_pad_if_not_empty(text: String) -> (r: String)
    ensures
        r@ == padded_text(text@),
{
    if text.as_str().is_empty() {
        text
    } else {
        let mut r = String::from_str(" ");
        r.append(text.as_str());
        r
    }
}

} // verus!
