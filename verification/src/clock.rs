//! Moments in UTC and how they are written.
use crate::text;
use vstd::prelude::*;

verus! {

/// How a moment is written in a file name.
pub const FILE_PATTERN: &'static str = "%Y%m%d-%H%M%S%.3f";

/// How a moment is written in the log.
pub const LOG_PATTERN: &'static str = "%Y-%m-%d %H:%M:%S";

/// A moment: seconds since the Unix epoch, and nanoseconds past that second.
#[derive(Debug, Clone, Copy, PartialEq, Eq)]
pub struct Moment {
    pub secs: i64,
    pub nanos: u32,
}

/// A day of the Gregorian calendar, reckoned back before its introduction.
pub ghost struct Date {
    pub year: int,
    pub month: int,
    pub day: int,
}

impl Moment {
    /// The days from the Unix epoch to the day of the moment.
    pub open spec fn days(self) -> int {
        self.secs as int / 86_400
    }

    /// The seconds of its day that have passed.
    pub open spec fn second_of_day(self) -> int {
        self.secs as int % 86_400
    }

    /// The milliseconds of its second that have passed.
    pub open spec fn millis_of_second(self) -> int {
        self.nanos as int / 1_000_000
    }

    /// The milliseconds since the Unix epoch.
    pub open spec fn millis(self) -> int {
        self.secs * 1000 + self.millis_of_second()
    }
}

/// The calendar reaches the moment: the year is one from -262143 to 262142, and
/// only the last second of a minute holds more nanoseconds than a second has,
/// for a leap second.
pub open spec fn in_calendar(m: Moment) -> bool {
    &&& -8_334_601_228_800 <= m.secs <= 8_210_266_876_799
    &&& m.nanos < 1_000_000_000 || (m.nanos < 2_000_000_000 && m.secs % 60 == 59)
}

/// The moment is in a year from 0 to 9999, and in no leap second.
pub open spec fn is_plain(m: Moment) -> bool {
    &&& -62_167_219_200 <= m.secs <= 253_402_300_799
    &&& m.nanos < 1_000_000_000
}

/// Years with a 29th of February.
pub open spec fn is_leap(year: int) -> bool {
    year % 4 == 0 && (year % 100 != 0 || year % 400 == 0)
}

/// How many days a month has.
pub open spec fn month_len(year: int, month: int) -> int {
    if month == 2 {
        if is_leap(year) {
            29
        } else {
            28
        }
    } else if month == 4 || month == 6 || month == 9 || month == 11 {
        30
    } else {
        31
    }
}

/// How many days of the year precede a month.
pub open spec fn days_before_month(year: int, month: int) -> int
    decreases month,
{
    if month <= 1 {
        0
    } else {
        days_before_month(year, month - 1) + month_len(year, month - 1)
    }
}

/// How many days there are from the first day of year 0 to the first of `year`:
/// one more than 365 for every leap year between.
pub open spec fn days_before_year(year: int) -> int {
    365 * year + (year + 3) / 4 - (year + 99) / 100 + (year + 399) / 400
}

/// `date` is the day that comes `days` after the Unix epoch, the first day of
/// 1970, and its year has at most four digits.
pub open spec fn is_date(days: int, date: Date) -> bool {
    &&& 0 <= date.year <= 9999
    &&& 1 <= date.month <= 12
    &&& 1 <= date.day <= month_len(date.year, date.month)
    &&& days_before_year(1970) + days == days_before_year(date.year) + days_before_month(
        date.year,
        date.month,
    ) + date.day - 1
}

/// A moment as a file name has it: date and time of day to the millisecond, which
/// `point` sets off.
pub open spec fn file_text(date: Date, second: int, millis: int, point: char) -> Seq<char> {
    text::padded(date.year, 4) + text::padded(date.month, 2) + text::padded(date.day, 2) + seq!['-']
        + text::padded(second / 3600, 2) + text::padded(second / 60 % 60, 2) + text::padded(
        second % 60,
        2,
    ) + seq![point] + text::padded(millis, 3)
}

/// A moment as the log has it: date and time of day to the second.
pub open spec fn log_text(date: Date, second: int) -> Seq<char> {
    text::padded(date.year, 4) + seq!['-'] + text::padded(date.month, 2) + seq!['-']
        + text::padded(date.day, 2) + seq![' '] + text::padded(second / 3600, 2) + seq![':']
        + text::padded(second / 60 % 60, 2) + seq![':'] + text::padded(second % 60, 2)
}

/// `stamp` is the moment as a file name has it, with `point` before the
/// milliseconds.
pub open spec fn is_file_stamp(m: Moment, stamp: Seq<char>, point: char) -> bool {
    exists|date: Date| #[trigger]
        is_date(m.days(), date) && stamp == file_text(
            date,
            m.second_of_day(),
            m.millis_of_second(),
            point,
        )
}

/// `stamp` is the moment as the log has it.
pub open spec fn is_log_stamp(m: Moment, stamp: Seq<char>) -> bool {
    exists|date: Date| #[trigger]
        is_date(m.days(), date) && stamp == log_text(date, m.second_of_day())
}

/// `stamp` is the moment as `pattern` has it, for the two patterns in use.
pub open spec fn is_stamp(m: Moment, pattern: Seq<char>, stamp: Seq<char>) -> bool {
    &&& pattern == FILE_PATTERN@ ==> is_file_stamp(m, stamp, '.')
    &&& pattern == LOG_PATTERN@ ==> is_log_stamp(m, stamp)
}

/// The moment in UTC as `pattern` writes it.
pub uninterp spec fn utc_text(secs: i64, nanos: u32, pattern: Seq<char>) -> Seq<char>;

/// `DateTime::format` of chrono, on the moment that `DateTime::from_timestamp`
/// makes of the two numbers. There is such a moment if and only if the calendar
/// reaches it, and the text depends on the moment and the pattern alone. In a year
/// of at most four digits, and outside leap seconds, it is the date and the time of
/// day in digits, each number padded to its width with zeros. A pattern that
/// chrono cannot read would make the call panic.
#[verifier::external_body]
pub(crate) fn format_utc(m: Moment, pattern: &str) -> (r: Option<String>)
    requires
        pattern@ == FILE_PATTERN@ || pattern@ == LOG_PATTERN@,
    ensures
        r is Some <==> in_calendar(m),
        r matches Some(text) ==> text@ == utc_text(m.secs, m.nanos, pattern@),
        r matches Some(text) ==> (is_plain(m) ==> is_stamp(m, pattern@, text@)),
{
    chrono::DateTime::from_timestamp(m.secs, m.nanos).map(|t| t.format(pattern).to_string())
}

/// Every day of the years 0 to 9999 has a date, and only one.
pub proof fn law_every_day_has_one_date(days: int)
    requires
        0 <= days_before_year(1970) + days < days_before_year(10_000),
    ensures
        exists|date: Date| is_date(days, date),
        forall|a: Date, b: Date| #[trigger]
            is_date(days, a) && #[trigger] is_date(days, b) ==> a == b,
{
    let n = days_before_year(1970) + days;
    let year = lemma_year_exists(n, 9999);
    lemma_months(year);
    lemma_year_len(year);
    let month = lemma_month_exists(year, n - days_before_year(year), 12);
    let day = n - days_before_year(year) - days_before_month(year, month) + 1;
    assert(is_date(days, Date { year, month, day }));
    assert forall|a: Date, b: Date| #[trigger]
        is_date(days, a) && #[trigger] is_date(days, b) implies a == b by {
        lemma_date_number_grows(days, a, days, b);
        lemma_date_number_grows(days, b, days, a);
        assert(a.year == b.year && a.month == b.month && a.day == b.day);
    }
}

/// In a file name a moment is written in one way only, with 19 characters.
pub proof fn law_file_stamp_has_one_form(m: Moment, a: Seq<char>, b: Seq<char>, point: char)
    requires
        is_plain(m),
        is_file_stamp(m, a, point),
        is_file_stamp(m, b, point),
    ensures
        a == b,
        a.len() == 19,
{
    let (second, millis) = (m.second_of_day(), m.millis_of_second());
    let da = choose|date: Date| #[trigger]
        is_date(m.days(), date) && a == file_text(date, second, millis, point);
    let db = choose|date: Date| #[trigger]
        is_date(m.days(), date) && b == file_text(date, second, millis, point);
    lemma_date_number_grows(m.days(), da, m.days(), db);
    lemma_date_number_grows(m.days(), db, m.days(), da);
    lemma_file_text(da, second, millis, point);
}

/// In the log a moment is written in one way only, with 19 characters of ASCII.
pub proof fn law_log_stamp_has_one_form(m: Moment, a: Seq<char>, b: Seq<char>)
    requires
        is_plain(m),
        is_log_stamp(m, a),
        is_log_stamp(m, b),
    ensures
        a == b,
        a.len() == 19,
        forall|i: int| 0 <= i < 19 ==> ' ' <= #[trigger] a[i] <= '\u{7F}',
{
    let second = m.second_of_day();
    let da = choose|date: Date| #[trigger]
        is_date(m.days(), date) && a == log_text(date, second);
    let db = choose|date: Date| #[trigger]
        is_date(m.days(), date) && b == log_text(date, second);
    lemma_date_number_grows(m.days(), da, m.days(), db);
    lemma_date_number_grows(m.days(), db, m.days(), da);
    lemma_log_text(da, second);
}

/// In file names a later moment, by a millisecond or more, is written with a text
/// that sorts behind that of the earlier one.
pub proof fn law_later_stamps_sort_later(
    m: Moment,
    a: Seq<char>,
    n: Moment,
    b: Seq<char>,
    point: char,
)
    requires
        is_plain(m),
        is_plain(n),
        m.millis() < n.millis(),
        is_file_stamp(m, a, point),
        is_file_stamp(n, b, point),
    ensures
        text::precedes(a, b),
{
    let da = choose|date: Date| #[trigger]
        is_date(m.days(), date) && a == file_text(
            date,
            m.second_of_day(),
            m.millis_of_second(),
            point,
        );
    let db = choose|date: Date| #[trigger]
        is_date(n.days(), date) && b == file_text(
            date,
            n.second_of_day(),
            n.millis_of_second(),
            point,
        );
    lemma_file_text(da, m.second_of_day(), m.millis_of_second(), point);
    lemma_file_text(db, n.second_of_day(), n.millis_of_second(), point);
    let (d1, d2) = (text::padded(date_number(da), 8), text::padded(date_number(db), 8));
    let (t1, t2) = (
        text::padded(time_number(m.second_of_day()), 6),
        text::padded(time_number(n.second_of_day()), 6),
    );
    let (f1, f2) = (
        text::padded(m.millis_of_second(), 3),
        text::padded(n.millis_of_second(), 3),
    );
    lemma_date_number_grows(m.days(), da, n.days(), db);
    text::lemma_padded_len(date_number(da), 8);
    text::lemma_padded_len(date_number(db), 8);
    text::lemma_padded_len(time_number(m.second_of_day()), 6);
    text::lemma_padded_len(time_number(n.second_of_day()), 6);
    if m.days() < n.days() {
        assert(text::ten_to(8) == 100_000_000) by {
            reveal_with_fuel(text::ten_to, 9);
        }
        text::lemma_padded_order(date_number(da), date_number(db), 8);
        text::lemma_precedes_extend(
            d1,
            d2,
            seq!['-'] + t1 + seq![point] + f1,
            seq!['-'] + t2 + seq![point] + f2,
        );
        assert(a =~= d1 + (seq!['-'] + t1 + seq![point] + f1));
        assert(b =~= d2 + (seq!['-'] + t2 + seq![point] + f2));
    } else {
        lemma_date_number_grows(n.days(), db, m.days(), da);
        if m.second_of_day() < n.second_of_day() {
            assert(text::ten_to(6) == 1_000_000) by {
                reveal_with_fuel(text::ten_to, 7);
            }
            lemma_time_number_grows(m.second_of_day(), n.second_of_day());
            text::lemma_padded_order(
                time_number(m.second_of_day()),
                time_number(n.second_of_day()),
                6,
            );
            text::lemma_precedes_extend(t1, t2, seq![point] + f1, seq![point] + f2);
            text::lemma_precedes_behind(
                d1 + seq!['-'],
                t1 + (seq![point] + f1),
                t2 + (seq![point] + f2),
            );
            assert(a =~= d1 + seq!['-'] + (t1 + (seq![point] + f1)));
            assert(b =~= d1 + seq!['-'] + (t2 + (seq![point] + f2)));
        } else {
            assert(text::ten_to(3) == 1000) by {
                reveal_with_fuel(text::ten_to, 4);
            }
            text::lemma_padded_order(m.millis_of_second(), n.millis_of_second(), 3);
            text::lemma_precedes_behind(d1 + seq!['-'] + t1 + seq![point], f1, f2);
        }
    }
}

/// With another character before the milliseconds in place of a dot, a file's
/// stamp is one with that character.
pub proof fn lemma_point_replaced(m: Moment, stamp: Seq<char>, point: char)
    requires
        is_plain(m),
        is_file_stamp(m, stamp, '.'),
    ensures
        is_file_stamp(m, text::replaced(stamp, '.', point), point),
{
    let date = choose|date: Date| #[trigger]
        is_date(m.days(), date) && stamp == file_text(
            date,
            m.second_of_day(),
            m.millis_of_second(),
            '.',
        );
    let (second, millis) = (m.second_of_day(), m.millis_of_second());
    lemma_file_text(date, second, millis, '.');
    lemma_file_text(date, second, millis, point);
    text::lemma_padded_len(date_number(date), 8);
    text::lemma_padded_len(time_number(second), 6);
    text::lemma_padded_len(millis, 3);
    let d = text::padded(date_number(date), 8);
    let t = text::padded(time_number(second), 6);
    let f = text::padded(millis, 3);
    assert(text::all_digits(d) && text::all_digits(t) && text::all_digits(f));
    assert(text::replaced(stamp, '.', point) =~= file_text(date, second, millis, point)) by {
        assert forall|i: int| 0 <= i < 19 && i != 15 implies #[trigger] stamp[i] != '.' by {
            if i < 8 {
                assert(stamp[i] == d[i]);
            } else if 9 <= i < 15 {
                assert(stamp[i] == t[i - 9]);
            } else if i > 15 {
                assert(stamp[i] == f[i - 16]);
            }
        }
    }
}

/// The digits of a date as one number.
spec fn date_number(date: Date) -> int {
    (date.year * 100 + date.month) * 100 + date.day
}

/// The digits of a time of day as one number.
spec fn time_number(second: int) -> int {
    (second / 3600 * 100 + second / 60 % 60) * 100 + second % 60
}

proof fn lemma_file_text(date: Date, second: int, millis: int, point: char)
    requires
        1 <= date.month <= 12,
        1 <= date.day <= 31,
        0 <= second < 86_400,
    ensures
        file_text(date, second, millis, point) == text::padded(date_number(date), 8) + seq!['-']
            + text::padded(time_number(second), 6) + seq![point] + text::padded(millis, 3),
        file_text(date, second, millis, point).len() == 19,
{
    text::lemma_padded_join(date.year, date.month, 4);
    text::lemma_padded_join(date.year * 100 + date.month, date.day, 6);
    text::lemma_padded_join(second / 3600, second / 60 % 60, 2);
    text::lemma_padded_join(second / 3600 * 100 + second / 60 % 60, second % 60, 4);
    text::lemma_padded_len(date_number(date), 8);
    text::lemma_padded_len(time_number(second), 6);
    text::lemma_padded_len(millis, 3);
    assert(file_text(date, second, millis, point) =~= text::padded(date_number(date), 8) + seq!['-']
        + text::padded(time_number(second), 6) + seq![point] + text::padded(millis, 3));
}

proof fn lemma_log_text(date: Date, second: int)
    ensures
        log_text(date, second).len() == 19,
        forall|i: int|
            0 <= i < 19 ==> ' ' <= #[trigger] log_text(date, second)[i] <= '\u{7F}',
{
    let y = text::padded(date.year, 4);
    let mo = text::padded(date.month, 2);
    let d = text::padded(date.day, 2);
    let h = text::padded(second / 3600, 2);
    let mi = text::padded(second / 60 % 60, 2);
    let s = text::padded(second % 60, 2);
    text::lemma_padded_len(date.year, 4);
    text::lemma_padded_len(date.month, 2);
    text::lemma_padded_len(date.day, 2);
    text::lemma_padded_len(second / 3600, 2);
    text::lemma_padded_len(second / 60 % 60, 2);
    text::lemma_padded_len(second % 60, 2);
    assert forall|i: int| 0 <= i < 19 implies ' ' <= #[trigger] log_text(
        date,
        second,
    )[i] <= '\u{7F}' by {
        if i < 4 {
            assert(text::is_digit(y[i]));
        } else if 5 <= i < 7 {
            assert(text::is_digit(mo[i - 5]));
        } else if 8 <= i < 10 {
            assert(text::is_digit(d[i - 8]));
        } else if 11 <= i < 13 {
            assert(text::is_digit(h[i - 11]));
        } else if 14 <= i < 16 {
            assert(text::is_digit(mi[i - 14]));
        } else if 17 <= i {
            assert(text::is_digit(s[i - 17]));
        }
    }
}

proof fn lemma_time_number_grows(a: int, b: int)
    requires
        0 <= a < b < 86_400,
    ensures
        0 <= time_number(a) < time_number(b) < 1_000_000,
{
    let (qa, qb) = (a / 60, b / 60);
    assert(a / 3600 == qa / 60 && b / 3600 == qb / 60);
    let (ha, hb, ma, mb) = (qa / 60, qb / 60, qa % 60, qb % 60);
    assert(qa <= qb && ha <= hb < 24);
    assert(ha * 100 + ma <= hb * 100 + mb);
    if qa < qb {
        assert(ha * 100 + ma < hb * 100 + mb);
    }
}

/// How many days a year has.
spec fn year_len(year: int) -> int {
    if is_leap(year) {
        366
    } else {
        365
    }
}

proof fn lemma_year_len(y: int)
    requires
        0 <= y,
    ensures
        days_before_year(y + 1) == days_before_year(y) + year_len(y),
{
    assert((y + 4) / 4 == (y + 3) / 4 + (if y % 4 == 0 { 1int } else { 0 }));
    assert((y + 100) / 100 == (y + 99) / 100 + (if y % 100 == 0 { 1int } else { 0 }));
    assert((y + 400) / 400 == (y + 399) / 400 + (if y % 400 == 0 { 1int } else { 0 }));
    assert(y % 100 == 0 ==> y % 4 == 0);
    assert(y % 400 == 0 ==> y % 100 == 0);
}

proof fn lemma_year_grows(a: int, b: int)
    requires
        0 <= a < b,
    ensures
        days_before_year(a) + year_len(a) <= days_before_year(b),
    decreases b - a,
{
    if b == a + 1 {
        lemma_year_len(a);
    } else {
        lemma_year_grows(a, b - 1);
        lemma_year_len(b - 1);
    }
}

proof fn lemma_months(year: int)
    ensures
        days_before_month(year, 1) == 0,
        forall|m: int|
            1 <= m <= 12 ==> #[trigger] days_before_month(year, m + 1) == days_before_month(year, m)
                + month_len(year, m),
        days_before_month(year, 13) == year_len(year),
{
    reveal_with_fuel(days_before_month, 14);
}

proof fn lemma_month_grows(year: int, a: int, b: int)
    requires
        1 <= a < b <= 13,
    ensures
        days_before_month(year, a) + month_len(year, a) <= days_before_month(year, b),
    decreases b,
{
    if b > a + 1 {
        lemma_month_grows(year, a, b - 1);
    }
}

/// A later day has a greater date, digit by digit, and no later day a smaller one.
proof fn lemma_date_number_grows(m: int, a: Date, n: int, b: Date)
    requires
        is_date(m, a),
        is_date(n, b),
        m <= n,
    ensures
        0 <= date_number(a) <= date_number(b) < 100_000_000,
        m < n ==> date_number(a) < date_number(b),
        date_number(a) == date_number(b) ==> a == b,
{
    lemma_months(a.year);
    lemma_months(b.year);
    if a.month > 1 {
        lemma_month_grows(a.year, 1, a.month);
    }
    lemma_month_grows(b.year, b.month, 13);
    if a.year > b.year {
        lemma_year_grows(b.year, a.year);
    } else if a.year == b.year {
        if a.month > b.month {
            lemma_month_grows(a.year, b.month, a.month);
        }
    }
}

proof fn lemma_year_exists(n: int, y: int) -> (r: int)
    requires
        0 <= y,
        0 <= n < days_before_year(y + 1),
    ensures
        0 <= r <= y,
        days_before_year(r) <= n < days_before_year(r + 1),
    decreases y,
{
    if days_before_year(y) <= n {
        y
    } else {
        lemma_year_exists(n, y - 1)
    }
}

proof fn lemma_month_exists(year: int, n: int, month: int) -> (r: int)
    requires
        1 <= month <= 12,
        0 <= n < days_before_month(year, month + 1),
    ensures
        1 <= r <= month,
        days_before_month(year, r) <= n < days_before_month(year, r + 1),
    decreases month,
{
    if days_before_month(year, month) <= n {
        month
    } else {
        lemma_month_exists(year, n, month - 1)
    }
}

} // verus!
