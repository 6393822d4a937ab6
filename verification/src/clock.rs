//! Times of day and the text form in which they are entered.
//!
//! A time of day is written as `HH:MM`: two decimal digits for the hour, a
//! colon, two decimal digits for the minute. No other text is a time of day.

use crate::text::chars_of;
use vstd::prelude::*;

verus! {

/// A wall-clock time, to the second.
#[derive(Clone, Copy, Debug, PartialEq, Eq, Structural)]
pub struct TimeOfDay {
    pub hour: u32,
    pub minute: u32,
    pub second: u32,
}

impl TimeOfDay {
    /// Whether this value names a time that exists.
    pub open spec fn wf(self) -> bool {
        self.hour <= 23 && self.minute <= 59 && self.second <= 59
    }

    /// The number of seconds since midnight.
    pub open spec fn second_of_day(self) -> int {
        self.hour * 3600 + self.minute * 60 + self.second
    }

    /// Whether this time comes before `other` in the order of hour, minute
    /// and second.
    pub open spec fn precedes(self, other: TimeOfDay) -> bool {
        ||| self.hour < other.hour
        ||| self.hour == other.hour && self.minute < other.minute
        ||| self.hour == other.hour && self.minute == other.minute && self.second < other.second
    }

    /// Whether this time comes before `other`.
    pub fn is_before(&self, other: &TimeOfDay) -> (before: bool)
        ensures
            before == self.precedes(*other),
    {
        self.hour < other.hour || (self.hour == other.hour && (self.minute < other.minute || (
        self.minute == other.minute && self.second < other.second)))
    }

    /// Makes a time from hour, minute and second. Returns `None` unless they
    /// name a time that exists.
    pub fn from_hms(hour: u32, minute: u32, second: u32) -> (time: Option<TimeOfDay>)
        ensures
            time is Some <==> (TimeOfDay { hour, minute, second }).wf(),
            time is Some ==> time == Some(TimeOfDay { hour, minute, second }),
    {
        if hour <= 23 && minute <= 59 && second <= 59 {
            Some(TimeOfDay { hour, minute, second })
        } else {
            None
        }
    }

    /// Whether this value names a time that exists.
    pub fn is_valid(&self) -> (valid: bool)
        ensures
            valid == self.wf(),
    {
        self.hour <= 23 && self.minute <= 59 && self.second <= 59
    }

    /// Reads a time of day from its text form, `HH:MM`. The seconds of the
    /// result are zero. Any other text gives the reason why it is none.
    pub fn parse(input: &str) -> (result: Result<TimeOfDay, TimeFormatError>)
        ensures
            result == time_in(input@),
            result matches Ok(time) ==> time.wf() && time.second == 0,
    {
        let chars = chars_of(input);
        let n = chars.len();
        let mut colon: usize = n;
        let mut i: usize = 0;
        while i < n
            invariant
                chars@ == input@,
                n == chars@.len(),
                i <= n,
                colon <= n,
                colon < n ==> colon < i && chars@[colon as int] == ':',
                forall|j: int| 0 <= j < i && j != colon ==> chars@[j] != ':',
            decreases n - i,
        {
            if chars[i] == ':' {
                if colon < n {
                    proof {
                        lemma_two_colons(chars@, colon as int, i as int);
                        lemma_usual_form_splits(chars@);
                    }
                    return Err(TimeFormatError::Shape);
                }
                colon = i;
            }
            i += 1;
        }
        proof {
            lemma_usual_form_splits(chars@);
        }
        if colon == n {
            assert forall|k: int| !is_split(chars@, k) by {
                if is_split(chars@, k) {
                    assert(chars@[k] != ':');
                }
            }
            return Err(TimeFormatError::Shape);
        }
        proof {
            lemma_split_is_unique(chars@, colon as int);
        }
        let ghost hours = chars@.subrange(0, colon as int);
        let ghost minutes = chars@.subrange(colon + 1, n as int);
        if !is_number_part(&chars, 0, colon) {
            return Err(TimeFormatError::Hours);
        }
        if !is_number_part(&chars, colon + 1, n) {
            return Err(TimeFormatError::Minutes);
        }
        if colon != 2 || n != 5 {
            return Err(TimeFormatError::Shape);
        }
        assert(chars@[0] == hours[0] && chars@[1] == hours[1]);
        assert(chars@[3] == minutes[0] && chars@[4] == minutes[1]);
        assert(is_usual_form(chars@));
        let hour: u32 = 10 * (chars[0] as u32 - '0' as u32) + (chars[1] as u32 - '0' as u32);
        let minute: u32 = 10 * (chars[3] as u32 - '0' as u32) + (chars[4] as u32 - '0' as u32);
        if hour > 23 {
            Err(TimeFormatError::HoursRange)
        } else if minute > 59 {
            Err(TimeFormatError::MinutesRange)
        } else {
            Ok(TimeOfDay { hour, minute, second: 0 })
        }
    }
}

/// Why a text is not a time of day.
#[derive(Clone, Copy, Debug, PartialEq, Eq, Structural)]
pub enum TimeFormatError {
    /// The text does not hold exactly one colon, or the numbers around the
    /// colon do not have two digits each.
    Shape,
    /// What stands before the colon is not a number.
    Hours,
    /// What stands after the colon is not a number.
    Minutes,
    /// The hours are above 23.
    HoursRange,
    /// The minutes are above 59.
    MinutesRange,
}

/// Whether `c` is one of the ten decimal digits.
pub open spec fn is_digit(c: char) -> bool {
    '0' <= c <= '9'
}

/// The number a decimal digit stands for.
pub open spec fn digit_value(c: char) -> int {
    c as int - '0' as int
}

/// Whether `s` holds decimal digits only.
pub open spec fn all_digits(s: Seq<char>) -> bool {
    forall|i: int| 0 <= i < s.len() ==> is_digit(#[trigger] s[i])
}

/// Whether `part` is a number: at least one character, and decimal digits
/// only.
pub open spec fn is_number(part: Seq<char>) -> bool {
    part.len() > 0 && all_digits(part)
}

/// Whether `s` has the form `HH:MM`: five characters, of which the third is
/// a colon and the other four are decimal digits.
pub open spec fn is_usual_form(s: Seq<char>) -> bool {
    &&& s.len() == 5
    &&& is_digit(s[0])
    &&& is_digit(s[1])
    &&& s[2] == ':'
    &&& is_digit(s[3])
    &&& is_digit(s[4])
}

/// Whether the one colon of `s` stands at index `i`.
pub open spec fn is_split(s: Seq<char>, i: int) -> bool {
    &&& 0 <= i < s.len()
    &&& s[i] == ':'
    &&& forall|j: int| 0 <= j < s.len() && j != i ==> s[j] != ':'
}

/// What is wrong with a text that has not the form `HH:MM`. A text without
/// exactly one colon has the wrong shape. Otherwise what stands before the
/// colon must be a number, and then what stands after it; where both are,
/// they do not have two digits each, and the shape is wrong again.
pub open spec fn form_fault(s: Seq<char>) -> TimeFormatError {
    if !(exists|i: int| is_split(s, i)) {
        TimeFormatError::Shape
    } else {
        let i = choose|i: int| is_split(s, i);
        if !is_number(s.subrange(0, i)) {
            TimeFormatError::Hours
        } else if !is_number(s.subrange(i + 1, s.len() as int)) {
            TimeFormatError::Minutes
        } else {
            TimeFormatError::Shape
        }
    }
}

/// The time of day that `s` writes, or the reason why it writes none. Only
/// a text of the form `HH:MM` with hours up to 23 and minutes up to 59
/// writes one.
pub open spec fn time_in(s: Seq<char>) -> Result<TimeOfDay, TimeFormatError> {
    if is_usual_form(s) {
        let hour = 10 * digit_value(s[0]) + digit_value(s[1]);
        let minute = 10 * digit_value(s[3]) + digit_value(s[4]);
        if hour > 23 {
            Err(TimeFormatError::HoursRange)
        } else if minute > 59 {
            Err(TimeFormatError::MinutesRange)
        } else {
            Ok(TimeOfDay { hour: hour as u32, minute: minute as u32, second: 0 })
        }
    } else {
        Err(form_fault(s))
    }
}

/// The character that writes the digit `d`, for a digit from 0 to 9.
pub open spec fn digit_char(d: int) -> char {
    (d + '0' as int) as char
}

/// A number below 100 written with two digits.
pub open spec fn two_digits(n: int) -> Seq<char> {
    seq![digit_char(n / 10), digit_char(n % 10)]
}

/// A time of day written the usual way: two digits for the hour, a colon,
/// two digits for the minute.
pub open spec fn hh_mm(hour: int, minute: int) -> Seq<char> {
    two_digits(hour) + seq![':'] + two_digits(minute)
}

/// Every hour from 0 to 23 and minute from 0 to 59, written the usual way,
/// is read as that time of day.
pub proof fn lemma_usual_form_is_read(hour: int, minute: int)
    requires
        0 <= hour <= 23,
        0 <= minute <= 59,
    ensures
        time_in(hh_mm(hour, minute)) == Ok::<TimeOfDay, TimeFormatError>(
            TimeOfDay { hour: hour as u32, minute: minute as u32, second: 0 },
        ),
{
    let s = hh_mm(hour, minute);
    assert(s.len() == 5);
    assert(s[0] == digit_char(hour / 10) && s[1] == digit_char(hour % 10));
    assert(s[2] == ':');
    assert(s[3] == digit_char(minute / 10) && s[4] == digit_char(minute % 10));
    assert(is_usual_form(s));
}

/// A text is read as a time of day exactly if it has the form `HH:MM` with
/// hours up to 23 and minutes up to 59. The time read has these hours and
/// minutes and no seconds, and the text is that time written the usual way.
/// Every other text is refused.
pub proof fn lemma_what_is_read(s: Seq<char>)
    ensures
        time_in(s) is Ok <==> is_usual_form(s) && 10 * digit_value(s[0]) + digit_value(s[1]) <= 23
            && 10 * digit_value(s[3]) + digit_value(s[4]) <= 59,
        time_in(s) matches Ok(time) ==> time.wf() && time.second == 0 && time.hour == 10
            * digit_value(s[0]) + digit_value(s[1]) && time.minute == 10 * digit_value(s[3])
            + digit_value(s[4]) && s == hh_mm(time.hour as int, time.minute as int),
{
    if time_in(s) is Ok {
        let time = time_in(s)->Ok_0;
        assert(s =~= hh_mm(time.hour as int, time.minute as int));
    }
}

/// A text of the form `HH:MM` holds one colon, at its middle, with a number
/// of two digits on either side.
proof fn lemma_usual_form_splits(s: Seq<char>)
    ensures
        is_usual_form(s) ==> is_split(s, 2) && is_number(s.subrange(0, 2)) && is_number(
            s.subrange(3, 5),
        ),
{
}

proof fn lemma_two_colons(s: Seq<char>, a: int, b: int)
    requires
        0 <= a < b < s.len(),
        s[a] == ':',
        s[b] == ':',
    ensures
        !(exists|i: int| is_split(s, i)),
{
    assert forall|i: int| !is_split(s, i) by {
        if is_split(s, i) {
            if i == a {
                assert(s[b] != ':');
            } else {
                assert(s[a] != ':');
            }
        }
    }
}

proof fn lemma_split_is_unique(s: Seq<char>, k: int)
    requires
        is_split(s, k),
    ensures
        exists|i: int| is_split(s, i),
        (choose|i: int| is_split(s, i)) == k,
{
    let c = choose|i: int| is_split(s, i);
    assert(is_split(s, c));
    if c != k {
        assert(s[k] != ':');
    }
}

/// Whether `chars` holds a number from `from` up to `to`.
fn is_number_part(chars: &Vec<char>, from: usize, to: usize) -> (number: bool)
    requires
        from <= to <= chars@.len(),
    ensures
        number == is_number(chars@.subrange(from as int, to as int)),
{
    let ghost part = chars@.subrange(from as int, to as int);
    if from == to {
        return false;
    }
    let mut j: usize = from;
    while j < to
        invariant
            from <= j <= to <= chars@.len(),
            from < to,
            part == chars@.subrange(from as int, to as int),
            forall|i: int| 0 <= i < j - from ==> is_digit(#[trigger] part[i]),
        decreases to - j,
    {
        let c = chars[j];
        assert(c == part[j - from]);
        if c < '0' || c > '9' {
            assert(!is_digit(part[j - from]));
            return false;
        }
        j += 1;
    }
    true
}

} // verus!
