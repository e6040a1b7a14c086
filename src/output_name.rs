use chrono::{Datelike, Timelike};
use vstd::prelude::*;
use vstd::string::*;

verus! {

/// A local calendar date and wall-clock time, to the second.
#[derive(Copy, Clone, Debug, PartialEq, Eq, Structural)]
pub struct LocalTime {
    pub year: i32,
    pub month: u32,
    pub day: u32,
    pub hour: u32,
    pub minute: u32,
    pub second: u32,
}

/// Every field lies in its calendar range.
pub open spec fn valid_time(t: LocalTime) -> bool {
    &&& 1 <= t.month <= 12
    &&& 1 <= t.day <= 31
    &&& t.hour <= 23
    &&& t.minute <= 59
    &&& t.second <= 59
}

/// A year that is written with exactly four digits.
pub open spec fn four_digit_year(t: LocalTime) -> bool {
    0 <= t.year <= 9999
}

/// Relies on chrono::Local::now, read through Datelike and Timelike: the
/// local date and time, whose month, day, hour, minute and second chrono
/// documents to lie in their calendar ranges.
#[verifier::external_body]
fn local_now() -> (r: LocalTime)
    ensures
        valid_time(r),
{
    let now = chrono::Local::now();
    LocalTime {
        year: now.year(),
        month: now.month(),
        day: now.day(),
        hour: now.hour(),
        minute: now.minute(),
        second: now.second(),
    }
}

/// The decimal digit `n`, for `0 <= n <= 9`.
pub open spec fn digit(n: int) -> char {
    if n == 0 {
        '0'
    } else if n == 1 {
        '1'
    } else if n == 2 {
        '2'
    } else if n == 3 {
        '3'
    } else if n == 4 {
        '4'
    } else if n == 5 {
        '5'
    } else if n == 6 {
        '6'
    } else if n == 7 {
        '7'
    } else if n == 8 {
        '8'
    } else {
        '9'
    }
}

/// `n` in two digits, for `0 <= n <= 99`.
pub open spec fn two_digits(n: int) -> Seq<char> {
    seq![digit(n / 10), digit(n % 10)]
}

/// `n` in four digits, for `0 <= n <= 9999`.
pub open spec fn four_digits(n: int) -> Seq<char> {
    seq![digit(n / 1000), digit(n / 100 % 10), digit(n / 10 % 10), digit(n % 10)]
}

/// The name of a recording started at `t`: `YYYY-MM-DD_HH-MM-SS.mp4`.
pub open spec fn file_name_spec(t: LocalTime) -> Seq<char> {
    four_digits(t.year as int) + seq!['-'] + two_digits(t.month as int) + seq!['-'] + two_digits(
        t.day as int,
    ) + seq!['_'] + two_digits(t.hour as int) + seq!['-'] + two_digits(t.minute as int) + seq![
        '-',
    ] + two_digits(t.second as int) + seq!['.', 'm', 'p', '4']
}

fn digit_text(n: u32) -> (r: &'static str)
    requires
        n <= 9,
    ensures
        r@ == seq![digit(n as int)],
{
    proof {
        reveal_strlit("0");
        reveal_strlit("1");
        reveal_strlit("2");
        reveal_strlit("3");
        reveal_strlit("4");
        reveal_strlit("5");
        reveal_strlit("6");
        reveal_strlit("7");
        reveal_strlit("8");
        reveal_strlit("9");
    }
    if n == 0 {
        "0"
    } else if n == 1 {
        "1"
    } else if n == 2 {
        "2"
    } else if n == 3 {
        "3"
    } else if n == 4 {
        "4"
    } else if n == 5 {
        "5"
    } else if n == 6 {
        "6"
    } else if n == 7 {
        "7"
    } else if n == 8 {
        "8"
    } else {
        "9"
    }
}

fn push_two_digits(s: &mut String, n: u32)
    requires
        n <= 99,
    ensures
        final(s)@ == old(s)@ + two_digits(n as int),
{
    s.append(digit_text(n / 10));
    s.append(digit_text(n % 10));
    proof {
        assert(final(s)@ =~= old(s)@ + two_digits(n as int));
    }
}

/// The name of the output file of a recording started at `t`.
pub fn output_file_name(t: &LocalTime) -> (r: String)
    requires
        valid_time(*t),
        four_digit_year(*t),
    ensures
        r@ == file_name_spec(*t),
{
    let y = t.year as u32;
    let mut s = String::new();
    s.append(digit_text(y / 1000));
    s.append(digit_text(y / 100 % 10));
    s.append(digit_text(y / 10 % 10));
    s.append(digit_text(y % 10));
    proof {
        assert(s@ =~= four_digits(t.year as int));
        reveal_strlit("-");
        reveal_strlit("_");
        reveal_strlit(".mp4");
        assert("-"@ =~= seq!['-']);
        assert("_"@ =~= seq!['_']);
    }
    s.append("-");
    push_two_digits(&mut s, t.month);
    s.append("-");
    push_two_digits(&mut s, t.day);
    s.append("_");
    push_two_digits(&mut s, t.hour);
    s.append("-");
    push_two_digits(&mut s, t.minute);
    s.append("-");
    push_two_digits(&mut s, t.second);
    s.append(".mp4");
    proof {
        assert(".mp4"@ =~= seq!['.', 'm', 'p', '4']);
        assert(s@ =~= file_name_spec(*t));
    }
    s
}

/// The name of the output file of a recording started at `t`, or `None`
/// in a year that four digits cannot write.
pub fn file_name_for(t: &LocalTime) -> (r: Option<String>)
    requires
        valid_time(*t),
    ensures
        four_digit_year(*t) ==> r is Some && r->0@ == file_name_spec(*t),
        !four_digit_year(*t) ==> r is None,
{
    if t.year < 0 || t.year > 9999 {
        None
    } else {
        Some(output_file_name(t))
    }
}

/// The name of the output file of a recording that starts now, in local
/// time; `None` in a year that four digits cannot write.
pub fn file_name_now() -> (r: Option<String>)
    ensures
        exists|t: LocalTime|
            #![trigger valid_time(t)]
            valid_time(t) && (r is Some <==> four_digit_year(t)) && (r is Some ==> r->0@
                == file_name_spec(t)),
{
    let t = local_now();
    let r = file_name_for(&t);
    assert(valid_time(t) && (r is Some <==> four_digit_year(t)) && (r is Some ==> r->0@
        == file_name_spec(t)));
    r
}

} // verus!
