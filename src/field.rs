//! One field of a schedule: its value shapes and the parser that reads them.
use vstd::prelude::*;

use crate::text::{decimal, decimal_text, string_views};

verus! {

/// A wildcard or one explicit value.
#[derive(Debug)]
pub enum CronSymbol {
    Wildcard,
    Number(usize),
}

/// What one field holds.
#[derive(Debug)]
pub enum ExpValue {
    /// Explicit values, in the order written.
    List(Vec<usize>),
    /// An inclusive range, bounds as written.
    Range(usize, usize),
    /// Every n-th unit.
    Frac(usize),
    Symbol(CronSymbol),
}

/// The mathematical content of a field.
pub enum Shape {
    List(Seq<nat>),
    Range(nat, nat),
    Step(nat),
    Wildcard,
    Number(nat),
}

/// A list holds at least one value.
pub open spec fn shape_wf(v: Shape) -> bool {
    match v {
        Shape::List(l) => l.len() > 0,
        _ => true,
    }
}

pub open spec fn nat_values(list: Seq<usize>) -> Seq<nat> {
    list.map_values(|x: usize| x as nat)
}

impl View for ExpValue {
    type V = Shape;

    open spec fn view(&self) -> Shape {
        match self {
            ExpValue::List(l) => Shape::List(nat_values(l@)),
            ExpValue::Range(a, b) => Shape::Range(*a as nat, *b as nat),
            ExpValue::Frac(n) => Shape::Step(*n as nat),
            ExpValue::Symbol(CronSymbol::Wildcard) => Shape::Wildcard,
            ExpValue::Symbol(CronSymbol::Number(n)) => Shape::Number(*n as nat),
        }
    }
}

pub open spec fn is_digit(c: char) -> bool {
    '0' <= c <= '9'
}

pub open spec fn digit_value(c: char) -> nat {
    (c as int - '0' as int) as nat
}

/// The value of a string of decimal digits.
pub open spec fn digits_value(s: Seq<char>) -> nat
    decreases s.len(),
{
    if s.len() == 0 {
        0
    } else {
        digits_value(s.drop_last()) * 10 + digit_value(s.last())
    }
}

pub open spec fn all_digits(s: Seq<char>) -> bool {
    forall|i: int| 0 <= i < s.len() ==> is_digit(#[trigger] s[i])
}

/// The digits of a number, after an optional leading `+`.
pub open spec fn unsigned_part(s: Seq<char>) -> Seq<char> {
    if s.len() > 0 && s[0] == '+' {
        s.drop_first()
    } else {
        s
    }
}

/// A non-negative integer that fits in `usize`: an optional `+`, then one or
/// more decimal digits.
pub open spec fn number_value(s: Seq<char>) -> Option<nat> {
    let d = unsigned_part(s);
    if d.len() > 0 && all_digits(d) && digits_value(d) <= usize::MAX {
        Some(digits_value(d))
    } else {
        None
    }
}

/// The pieces between the separators, empty ones included; a text without
/// the separator is one piece.
pub open spec fn split_text(s: Seq<char>, sep: char) -> Seq<Seq<char>>
    decreases s.len(),
{
    if s.len() == 0 {
        seq![Seq::empty()]
    } else {
        let pieces = split_text(s.drop_last(), sep);
        if s.last() == sep {
            pieces.push(Seq::empty())
        } else {
            pieces.update(pieces.len() - 1, pieces.last().push(s.last()))
        }
    }
}

pub open spec fn all_numbers(pieces: Seq<Seq<char>>) -> bool {
    forall|i: int| 0 <= i < pieces.len() ==> (#[trigger] number_value(pieces[i])) is Some
}

pub open spec fn numbers_of(pieces: Seq<Seq<char>>) -> Seq<nat> {
    pieces.map_values(|p: Seq<char>| number_value(p)->0)
}

/// A comma-separated list of numbers.
pub open spec fn list_shape(s: Seq<char>) -> Option<Shape> {
    let pieces = split_text(s, ',');
    if s.contains(',') && all_numbers(pieces) {
        Some(Shape::List(numbers_of(pieces)))
    } else {
        None
    }
}

/// Two numbers around one hyphen.
pub open spec fn range_shape(s: Seq<char>) -> Option<Shape> {
    let pieces = split_text(s, '-');
    if pieces.len() == 2 && number_value(pieces[0]) is Some && number_value(pieces[1]) is Some {
        Some(Shape::Range(number_value(pieces[0])->0, number_value(pieces[1])->0))
    } else {
        None
    }
}

/// `*`, or one number.
pub open spec fn symbol_shape(s: Seq<char>) -> Option<Shape> {
    if s == seq!['*'] {
        Some(Shape::Wildcard)
    } else {
        match number_value(s) {
            Some(n) => Some(Shape::Number(n)),
            None => None,
        }
    }
}

/// `*/` followed by a positive number.
pub open spec fn step_shape(s: Seq<char>) -> Option<Shape> {
    if s.len() >= 2 && s[0] == '*' && s[1] == '/' {
        match number_value(s.skip(2)) {
            Some(n) => if n > 0 {
                Some(Shape::Step(n))
            } else {
                None
            },
            None => None,
        }
    } else {
        None
    }
}

/// The first of list, range, single value or wildcard, and step that reads
/// the text; a text with a comma is a list or nothing.
pub open spec fn field_shape(s: Seq<char>) -> Option<Shape> {
    if s.contains(',') {
        list_shape(s)
    } else if range_shape(s) is Some {
        range_shape(s)
    } else if symbol_shape(s) is Some {
        symbol_shape(s)
    } else {
        step_shape(s)
    }
}

pub open spec fn shape_of(v: Option<ExpValue>) -> Option<Shape> {
    match v {
        Some(x) => Some(x@),
        None => None,
    }
}

pub proof fn lemma_split_nonempty(s: Seq<char>, sep: char)
    ensures
        split_text(s, sep).len() >= 1,
    decreases s.len(),
{
    if s.len() > 0 {
        lemma_split_nonempty(s.drop_last(), sep);
    }
}

proof fn lemma_prefix_value_le(s: Seq<char>, k: int)
    requires
        0 <= k <= s.len(),
    ensures
        digits_value(s.take(k)) <= digits_value(s),
    decreases s.len(),
{
    if k < s.len() {
        lemma_prefix_value_le(s.drop_last(), k);
        assert(s.drop_last().take(k) =~= s.take(k));
    } else {
        assert(s.take(k) =~= s);
    }
}

/// Whether `c` occurs in `s`.
pub fn contains_char(s: &str, c: char) -> (r: bool)
    ensures
        r == s@.contains(c),
{
    let n = s.unicode_len();
    let mut i: usize = 0;
    while i < n
        invariant
            n == s@.len(),
            i <= n,
            forall|j: int| 0 <= j < i ==> s@[j] != c,
        decreases n - i,
    {
        if s.get_char(i) == c {
            return true;
        }
        i = i + 1;
    }
    false
}

/// Reads a number as `str::parse::<usize>` does: an optional `+`, then
/// decimal digits, and a value that fits.
pub fn parse_number(s: &str) -> (r: Option<usize>)
    ensures
        match r {
            Some(v) => number_value(s@) == Some(v as nat),
            None => number_value(s@) is None,
        },
{
    let n = s.unicode_len();
    let mut start: usize = 0;
    if n > 0 && s.get_char(0) == '+' {
        start = 1;
    }
    let ghost d = unsigned_part(s@);
    assert(d =~= s@.skip(start as int));
    if start >= n {
        return None;
    }
    let mut acc: usize = 0;
    let mut i: usize = start;
    while i < n
        invariant
            n == s@.len(),
            start <= i <= n,
            d == unsigned_part(s@),
            d =~= s@.skip(start as int),
            acc as nat == digits_value(d.take(i - start)),
            all_digits(d.take(i - start)),
        decreases n - i,
    {
        let c = s.get_char(i);
        assert(d[i - start] == c);
        if !('0' <= c && c <= '9') {
            assert(!is_digit(d[i - start]));
            return None;
        }
        let dv = (c as u32 - '0' as u32) as usize;
        let ghost next = d.take(i - start + 1);
        assert(next.drop_last() =~= d.take(i - start));
        assert(next.last() == c);
        assert(all_digits(next));
        match acc.checked_mul(10) {
            None => {
                proof {
                    lemma_prefix_value_le(d, i - start + 1);
                }
                return None;
            },
            Some(a) => match a.checked_add(dv) {
                None => {
                    proof {
                        lemma_prefix_value_le(d, i - start + 1);
                    }
                    return None;
                },
                Some(b) => {
                    acc = b;
                },
            },
        }
        i = i + 1;
    }
    assert(d.take(n - start) =~= d);
    Some(acc)
}

/// Splits the text at every `sep`, as `str::split` does.
pub fn split_on(s: &str, sep: char) -> (r: Vec<String>)
    ensures
        string_views(r@) == split_text(s@, sep),
{
    let n = s.unicode_len();
    let mut pieces: Vec<String> = Vec::new();
    let mut start: usize = 0;
    let mut i: usize = 0;
    assert(s@.subrange(0, 0) =~= Seq::<char>::empty());
    assert(string_views(pieces@).push(s@.subrange(0, 0)) =~= split_text(s@.take(0), sep));
    while i < n
        invariant
            n == s@.len(),
            start <= i <= n,
            string_views(pieces@).push(s@.subrange(start as int, i as int))
                == split_text(s@.take(i as int), sep),
        decreases n - i,
    {
        let c = s.get_char(i);
        let ghost before = string_views(pieces@);
        proof {
            lemma_split_nonempty(s@.take(i as int), sep);
            assert(s@.take(i as int + 1).drop_last() =~= s@.take(i as int));
            assert(s@.take(i as int + 1).last() == c);
            assert(s@.subrange(start as int, i as int + 1) =~= s@.subrange(
                start as int,
                i as int,
            ).push(c));
        }
        if c == sep {
            let piece = String::from_str(s.substring_char(start, i));
            pieces.push(piece);
            assert(string_views(pieces@) =~= before.push(
                s@.subrange(start as int, i as int),
            ));
            start = i + 1;
            assert(s@.subrange(start as int, i as int + 1) =~= Seq::<char>::empty());
            assert(string_views(pieces@).push(
                s@.subrange(start as int, i as int + 1),
            ) =~= split_text(s@.take(i as int + 1), sep));
        } else {
            assert(string_views(pieces@).push(
                s@.subrange(start as int, i as int + 1),
            ) =~= split_text(s@.take(i as int + 1), sep));
        }
        i = i + 1;
    }
    let last = String::from_str(s.substring_char(start, n));
    pieces.push(last);
    assert(s@.take(n as int) =~= s@);
    assert(string_views(pieces@) =~= split_text(s@, sep));
    pieces
}

/// A list: the text has a comma, and every piece between commas is a number.
pub fn parse_list(exp: &String) -> (r: Option<ExpValue>)
    ensures
        shape_of(r) == list_shape(exp@),
        r matches Some(v) ==> shape_wf(v@),
{
    let s = exp.as_str();
    if !contains_char(s, ',') {
        return None;
    }
    let pieces = split_on(s, ',');
    let ghost ps = split_text(exp@, ',');
    let mut values: Vec<usize> = Vec::new();
    let mut j: usize = 0;
    while j < pieces.len()
        invariant
            string_views(pieces@) == ps,
            ps == split_text(exp@, ','),
            j <= pieces.len(),
            forall|k: int| 0 <= k < j ==> (#[trigger] number_value(ps[k])) is Some,
            values@.len() == j,
            nat_values(values@) == numbers_of(ps.take(j as int)),
        decreases pieces.len() - j,
    {
        assert(ps[j as int] == pieces@[j as int]@);
        match parse_number(pieces[j].as_str()) {
            None => {
                return None;
            },
            Some(v) => {
                let ghost before = values@;
                values.push(v);
                assert forall|k: int| 0 <= k < j implies nat_values(values@)[k] == numbers_of(
                    ps.take(j as int + 1),
                )[k] by {
                    assert(values@[k] == before[k]);
                    assert(nat_values(before)[k] == numbers_of(ps.take(j as int))[k]);
                }
                assert(nat_values(values@) =~= numbers_of(ps.take(j as int + 1)));
            },
        }
        j = j + 1;
    }
    assert(ps.take(j as int) =~= ps);
    proof {
        lemma_split_nonempty(exp@, ',');
    }
    Some(ExpValue::List(values))
}

/// A range: exactly two numbers around one hyphen.
pub fn parse_range(exp: &String) -> (r: Option<ExpValue>)
    ensures
        shape_of(r) == range_shape(exp@),
{
    let pieces = split_on(exp.as_str(), '-');
    if pieces.len() != 2 {
        return None;
    }
    assert(split_text(exp@, '-')[0] == pieces@[0]@);
    assert(split_text(exp@, '-')[1] == pieces@[1]@);
    match (parse_number(pieces[0].as_str()), parse_number(pieces[1].as_str())) {
        (Some(a), Some(b)) => Some(ExpValue::Range(a, b)),
        _ => None,
    }
}

/// A wildcard `*`, or a single number.
pub fn parse_sym(exp: &String) -> (r: Option<ExpValue>)
    ensures
        shape_of(r) == symbol_shape(exp@),
{
    let s = exp.as_str();
    if s.unicode_len() == 1 && s.get_char(0) == '*' {
        assert(s@ =~= seq!['*']);
        return Some(ExpValue::Symbol(CronSymbol::Wildcard));
    }
    assert(s@ != seq!['*']);
    match parse_number(s) {
        Some(n) => Some(ExpValue::Symbol(CronSymbol::Number(n))),
        None => None,
    }
}

/// A step: `*/` followed by a positive number.
pub fn parse_frac(exp: &String) -> (r: Option<ExpValue>)
    ensures
        shape_of(r) == step_shape(exp@),
{
    let s = exp.as_str();
    let n = s.unicode_len();
    if n >= 2 && s.get_char(0) == '*' && s.get_char(1) == '/' {
        let rest = s.substring_char(2, n);
        assert(rest@ =~= s@.skip(2));
        match parse_number(rest) {
            Some(v) => if v > 0 {
                Some(ExpValue::Frac(v))
            } else {
                None
            },
            None => None,
        }
    } else {
        None
    }
}

/// Reads one field: a list, a range, a single value or wildcard, or a step,
/// tried in that order.
pub fn parse_exp_seg(exp: &String) -> (r: Option<ExpValue>)
    ensures
        shape_of(r) == field_shape(exp@),
        r matches Some(v) ==> shape_wf(v@),
{
    if contains_char(exp.as_str(), ',') {
        parse_list(exp)
    } else if let Some(v) = parse_range(exp) {
        Some(v)
    } else if let Some(v) = parse_sym(exp) {
        Some(v)
    } else {
        parse_frac(exp)
    }
}

/// Items joined by commas, with no spaces.
pub open spec fn comma_joined(items: Seq<Seq<char>>) -> Seq<char>
    decreases items.len(),
{
    if items.len() == 0 {
        Seq::empty()
    } else if items.len() == 1 {
        items[0]
    } else {
        comma_joined(items.drop_last()) + ","@ + items.last()
    }
}

/// A field written back in schedule notation.
pub open spec fn field_text(v: Shape) -> Seq<char> {
    match v {
        Shape::List(l) => comma_joined(l.map_values(|x: nat| decimal_text(x))),
        Shape::Range(a, b) => decimal_text(a) + "-"@ + decimal_text(b),
        Shape::Step(n) => "*/"@ + decimal_text(n),
        Shape::Wildcard => "*"@,
        Shape::Number(n) => decimal_text(n),
    }
}

impl ExpValue {
    /// The field in schedule notation: `1,2,3`, `8-14`, `*/4`, `*` or `5`.
    pub fn to_string(&self) -> (r: String)
        ensures
            r@ == field_text(self@),
    {
        match self {
            ExpValue::List(l) => {
                let ghost items = nat_values(l@).map_values(|x: nat| decimal_text(x));
                let mut r = String::new();
                let mut i: usize = 0;
                while i < l.len()
                    invariant
                        i <= l.len(),
                        items == nat_values(l@).map_values(|x: nat| decimal_text(x)),
                        r@ == comma_joined(items.take(i as int)),
                    decreases l.len() - i,
                {
                    assert(items.take(i as int + 1).drop_last() =~= items.take(i as int));
                    if i > 0 {
                        r.append(",");
                    }
                    let d = decimal(l[i]);
                    r.append(d.as_str());
                    assert(r@ =~= comma_joined(items.take(i as int + 1)));
                    i = i + 1;
                }
                assert(items.take(i as int) =~= items);
                r
            },
            ExpValue::Range(a, b) => {
                let mut r = decimal(*a);
                r.append("-");
                r.append(decimal(*b).as_str());
                r
            },
            ExpValue::Frac(v) => {
                let mut r = String::from_str("*/");
                r.append(decimal(*v).as_str());
                r
            },
            ExpValue::Symbol(CronSymbol::Wildcard) => String::from_str("*"),
            ExpValue::Symbol(CronSymbol::Number(n)) => decimal(*n),
        }
    }
}

} // verus!
