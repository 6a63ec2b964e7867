//! Kline periods: their codes, their lengths in seconds, and the default polling order.
use vstd::prelude::*;

use crate::calendar::{month_length, CalendarDate, SECONDS_PER_DAY};

verus! {

/// The kline period of a candlestick series.
#[allow(non_camel_case_types)]
#[derive(Clone, Copy, Debug, PartialEq, Eq, Structural)]
pub enum BinanceInterval {
    m1,
    m3,
    m5,
    m15,
    m30,
    h1,
    h2,
    h4,
    h6,
    h8,
    h12,
    d1,
    d3,
    w1,
    M1,
}

/// The exchange's code for each period: a magnitude and a unit letter.
pub open spec fn interval_code(i: BinanceInterval) -> Seq<char> {
    match i {
        BinanceInterval::m1 => "1m"@,
        BinanceInterval::m3 => "3m"@,
        BinanceInterval::m5 => "5m"@,
        BinanceInterval::m15 => "15m"@,
        BinanceInterval::m30 => "30m"@,
        BinanceInterval::h1 => "1h"@,
        BinanceInterval::h2 => "2h"@,
        BinanceInterval::h4 => "4h"@,
        BinanceInterval::h6 => "6h"@,
        BinanceInterval::h8 => "8h"@,
        BinanceInterval::h12 => "12h"@,
        BinanceInterval::d1 => "1d"@,
        BinanceInterval::d3 => "3d"@,
        BinanceInterval::w1 => "1w"@,
        BinanceInterval::M1 => "1M"@,
    }
}

/// Whether a period has the same length whatever the date.
pub open spec fn is_fixed(i: BinanceInterval) -> bool {
    i != BinanceInterval::M1
}

/// Seconds in each period of fixed length.
pub open spec fn fixed_seconds(i: BinanceInterval) -> nat {
    match i {
        BinanceInterval::m1 => 60,
        BinanceInterval::m3 => 3 * 60,
        BinanceInterval::m5 => 5 * 60,
        BinanceInterval::m15 => 15 * 60,
        BinanceInterval::m30 => 30 * 60,
        BinanceInterval::h1 => 3600,
        BinanceInterval::h2 => 2 * 3600,
        BinanceInterval::h4 => 4 * 3600,
        BinanceInterval::h6 => 6 * 3600,
        BinanceInterval::h8 => 8 * 3600,
        BinanceInterval::h12 => 12 * 3600,
        BinanceInterval::d1 => 24 * 3600,
        BinanceInterval::d3 => 3 * 24 * 3600,
        BinanceInterval::w1 => 7 * 24 * 3600,
        BinanceInterval::M1 => 0,
    }
}

/// Length in seconds of the period `i` that holds the date `today`.
pub open spec fn duration_seconds(i: BinanceInterval, today: CalendarDate) -> int {
    if is_fixed(i) {
        fixed_seconds(i) as int
    } else {
        month_length(today.year as int, today.month as int) * SECONDS_PER_DAY
    }
}

/// Position of each period in the declared order.
pub open spec fn declared_rank(i: BinanceInterval) -> int {
    match i {
        BinanceInterval::m1 => 0,
        BinanceInterval::m3 => 1,
        BinanceInterval::m5 => 2,
        BinanceInterval::m15 => 3,
        BinanceInterval::m30 => 4,
        BinanceInterval::h1 => 5,
        BinanceInterval::h2 => 6,
        BinanceInterval::h4 => 7,
        BinanceInterval::h6 => 8,
        BinanceInterval::h8 => 9,
        BinanceInterval::h12 => 10,
        BinanceInterval::d1 => 11,
        BinanceInterval::d3 => 12,
        BinanceInterval::w1 => 13,
        BinanceInterval::M1 => 14,
    }
}

/// The curated periods polled by default, in declared order.
pub open spec fn polling_set() -> Seq<BinanceInterval> {
    seq![
        BinanceInterval::m5,
        BinanceInterval::m15,
        BinanceInterval::m30,
        BinanceInterval::h2,
        BinanceInterval::h4,
        BinanceInterval::h8,
        BinanceInterval::d1,
    ]
}

impl BinanceInterval {
    /// The exchange's code for this period.
    pub fn name(self) -> (r: String)
        ensures
            r@ == interval_code(self),
    {
        let code: &str = match self {
            BinanceInterval::m1 => "1m",
            BinanceInterval::m3 => "3m",
            BinanceInterval::m5 => "5m",
            BinanceInterval::m15 => "15m",
            BinanceInterval::m30 => "30m",
            BinanceInterval::h1 => "1h",
            BinanceInterval::h2 => "2h",
            BinanceInterval::h4 => "4h",
            BinanceInterval::h6 => "6h",
            BinanceInterval::h8 => "8h",
            BinanceInterval::h12 => "12h",
            BinanceInterval::d1 => "1d",
            BinanceInterval::d3 => "3d",
            BinanceInterval::w1 => "1w",
            BinanceInterval::M1 => "1M",
        };
        code.to_owned()
    }

    /// Length of this period in seconds; the month period takes the length of the
    /// calendar month that holds `today`.
    pub fn value(self, today: CalendarDate) -> (r: u64)
        requires
            today.wf(),
        ensures
            r == duration_seconds(self, today),
    {
        match self {
            BinanceInterval::m1 => 60,
            BinanceInterval::m3 => 3 * 60,
            BinanceInterval::m5 => 5 * 60,
            BinanceInterval::m15 => 15 * 60,
            BinanceInterval::m30 => 30 * 60,
            BinanceInterval::h1 => 3600,
            BinanceInterval::h2 => 2 * 3600,
            BinanceInterval::h4 => 4 * 3600,
            BinanceInterval::h6 => 6 * 3600,
            BinanceInterval::h8 => 8 * 3600,
            BinanceInterval::h12 => 12 * 3600,
            BinanceInterval::d1 => 24 * 3600,
            BinanceInterval::d3 => 3 * 24 * 3600,
            BinanceInterval::w1 => 7 * 24 * 3600,
            BinanceInterval::M1 => today.days_in_month() * SECONDS_PER_DAY,
        }
    }

    /// The periods polled by default, in declared order; each call yields the same list.
    pub fn iterator() -> (r: Vec<BinanceInterval>)
        ensures
            r@ == polling_set(),
    {
        let r = vec![
            BinanceInterval::m5,
            BinanceInterval::m15,
            BinanceInterval::m30,
            BinanceInterval::h2,
            BinanceInterval::h4,
            BinanceInterval::h8,
            BinanceInterval::d1,
        ];
        assert(r@ =~= polling_set());
        r
    }
}

/// A period of fixed length lasts its textbook number of seconds on every date.
pub proof fn lemma_fixed_duration_is_constant(i: BinanceInterval, a: CalendarDate, b: CalendarDate)
    requires
        is_fixed(i),
    ensures
        duration_seconds(i, a) == duration_seconds(i, b),
        duration_seconds(i, a) == fixed_seconds(i),
{
}

/// The month period lasts as many days as the month holding the date, counted
/// from the first of that month to the first of the next.
pub proof fn lemma_month_duration(today: CalendarDate)
    requires
        today.wf(),
        today.year >= 1970,
        today.year < i64::MAX,
    ensures
        duration_seconds(BinanceInterval::M1, today) == (today.next_month_start().epoch_day()
            - today.month_start().epoch_day()) * SECONDS_PER_DAY,
        28 * SECONDS_PER_DAY <= duration_seconds(BinanceInterval::M1, today) <= 31
            * SECONDS_PER_DAY,
{
    crate::calendar::lemma_month_span(today);
}

/// The polling set holds seven distinct periods, strictly in declared order.
pub proof fn lemma_polling_set_ordered()
    ensures
        polling_set().len() == 7,
        forall|j: int, k: int|
            0 <= j < k < polling_set().len() ==> declared_rank(#[trigger] polling_set()[j])
                < declared_rank(#[trigger] polling_set()[k]),
{
}

/// Every period's code is a magnitude followed by one unit letter, and distinct
/// periods have distinct codes.
pub proof fn lemma_codes_well_formed(i: BinanceInterval, k: BinanceInterval)
    ensures
        2 <= interval_code(i).len() <= 3,
        interval_code(i).last() == 'm' || interval_code(i).last() == 'h' || interval_code(i).last()
            == 'd' || interval_code(i).last() == 'w' || interval_code(i).last() == 'M',
        forall|j: int|
            0 <= j < interval_code(i).len() - 1 ==> '0' <= #[trigger] interval_code(i)[j] <= '9',
        i != k ==> interval_code(i) != interval_code(k),
{
    reveal_strlit("1m");
    reveal_strlit("3m");
    reveal_strlit("5m");
    reveal_strlit("15m");
    reveal_strlit("30m");
    reveal_strlit("1h");
    reveal_strlit("2h");
    reveal_strlit("4h");
    reveal_strlit("6h");
    reveal_strlit("8h");
    reveal_strlit("12h");
    reveal_strlit("1d");
    reveal_strlit("3d");
    reveal_strlit("1w");
    reveal_strlit("1M");
    if interval_code(i) == interval_code(k) {
        assert(interval_code(i)[0] == interval_code(k)[0]);
        assert(interval_code(i)[1] == interval_code(k)[1]);
    }
}

} // verus!
