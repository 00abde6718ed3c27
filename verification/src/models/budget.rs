//! Budgets: spending limits per category or tag over a week, a month or a
//! year.

use super::amount::Amount;
use super::date::{
    days_in_month, days_from_ce, lemma_add_days_count, lemma_next_day_count, calendar_ok, add_days_spec, add_months_spec, prev_day, sub_days_spec, weekday_from_monday, ymd, Date,
    Timestamp, MAX_YEAR, MIN_YEAR,
};
use super::error::{business_error, ModelError};
use super::types::{BudgetPeriod, PositiveAmount};
use vstd::prelude::*;

verus! {

/// A stored budget.
#[derive(Debug)]
pub struct Budget {
    pub id: i32,
    pub category_id: Option<i32>,
    pub tag_id: Option<i32>,
    pub amount_limit: PositiveAmount,
    pub period: BudgetPeriod,
    pub created_at: Timestamp,
    pub updated_at: Timestamp,
}

/// A budget with what was spent in its current period.
#[derive(Debug)]
pub struct BudgetWithSpend {
    pub budget: Budget,
    pub current_spend: Amount,
}

/// Which transactions a budget's spending counts.
#[derive(Debug, Clone, Copy, PartialEq, Eq, Structural)]
pub enum SpendFilter {
    /// The transactions of a category.
    Category(i32),
    /// The transactions carrying a tag.
    Tag(i32),
}

/// The first and last day of the period containing `d`: the week from
/// Monday to Sunday, the calendar month, or the calendar year.
pub open spec fn period_bounds_spec(period: BudgetPeriod, d: Date) -> (Date, Date) {
    match period {
        BudgetPeriod::Weekly => {
            let start = sub_days_spec(d, weekday_from_monday(d) as nat);
            (start, add_days_spec(start, 6))
        },
        BudgetPeriod::Monthly => {
            let start = ymd(d.year as int, d.month as int, 1);
            (start, prev_day(add_months_spec(start, 1)))
        },
        BudgetPeriod::Yearly => (ymd(d.year as int, 1, 1), ymd(d.year as int, 12, 31)),
    }
}

impl Budget {
    /// The rule checked before recording a budget: it is tied to a category
    /// or a tag.
    pub fn check_target(category_id: Option<i32>, tag_id: Option<i32>) -> (r: Result<(), ModelError>)
        ensures
            r is Ok <==> (category_id is Some || tag_id is Some),
            r is Err ==> r->Err_0 is BusinessLogic && r->Err_0->BusinessLogic_0@
                == "Orçamento deve ter uma categoria ou tag associada."@,
    {
        if category_id.is_none() && tag_id.is_none() {
            Err(business_error("Orçamento deve ter uma categoria ou tag associada."))
        } else {
            Ok(())
        }
    }

    /// Which transactions the budget's spending counts: its category when it
    /// has one, otherwise its tag; `None` when it has neither (nothing is
    /// spent then).
    pub fn spend_filter(&self) -> (r: Option<SpendFilter>)
        ensures
            r == (match self.category_id {
                Some(c) => Some(SpendFilter::Category(c)),
                None => match self.tag_id {
                    Some(t) => Some(SpendFilter::Tag(t)),
                    None => None,
                },
            }),
    {
        match self.category_id {
            Some(c) => Some(SpendFilter::Category(c)),
            None => match self.tag_id {
                Some(t) => Some(SpendFilter::Tag(t)),
                None => None,
            },
        }
    }

    /// The spending of the period: the sum found, or zero when there is none.
    pub fn spend_or_zero(sum: Option<Amount>) -> (r: Amount)
        ensures
            match sum {
                Some(a) => r == a,
                None => r.m() == 0 && r.s() == 0,
            },
    {
        match sum {
            Some(a) => a,
            None => Amount::zero(),
        }
    }

    /// The first and last day of the budget's period that contains `date`.
    pub fn period_bounds(&self, date: Date) -> (r: (Date, Date))
        requires
            date.wf(),
            self.period == BudgetPeriod::Yearly || MIN_YEAR < date.year < MAX_YEAR,
        ensures
            r == period_bounds_spec(self.period, date),
            r.0.wf(),
            r.1.wf(),
    {
        match self.period {
            BudgetPeriod::Weekly => {
                let days_from_monday = date.num_days_from_monday();
                proof {
                    lemma_sub_days_in_range(date, days_from_monday as nat);
                }
                let start = date.checked_sub_days(days_from_monday).unwrap();
                proof {
                    lemma_add_days_in_range(start, 6);
                }
                let end = start.checked_add_days(6).unwrap();
                (start, end)
            },
            BudgetPeriod::Monthly => {
                let start = Date::from_ymd_opt(date.year, date.month, 1).unwrap();
                proof {
                    super::date::lemma_add_months_wf(start, 1);
                }
                let next = start.checked_add_months(1).unwrap();
                proof {
                    assert(sub_days_spec(next, 1) == prev_day(sub_days_spec(next, 0)));
                }
                let end = next.checked_sub_days(1).unwrap();
                (start, end)
            },
            BudgetPeriod::Yearly => {
                let start = Date::from_ymd_opt(date.year, 1, 1).unwrap();
                let end = Date::from_ymd_opt(date.year, 12, 31).unwrap();
                (start, end)
            },
        }
    }
}

proof fn lemma_prev_day_step(d: Date)
    requires
        calendar_ok(d),
        d.year > i32::MIN,
    ensures
        calendar_ok(prev_day(d)),
        prev_day(d).ordinal_key() < d.ordinal_key(),
        prev_day(d).year == d.year || (prev_day(d).year == d.year - 1 && prev_day(d).month == 12),
{
}

proof fn lemma_sub_days_in_range(d: Date, n: nat)
    requires
        d.wf(),
        MIN_YEAR < d.year,
        n <= 6,
    ensures
        sub_days_spec(d, n).wf(),
        sub_days_spec(d, n).ordinal_key() <= d.ordinal_key(),
        sub_days_spec(d, n).year == d.year || (sub_days_spec(d, n).year == d.year - 1
            && sub_days_spec(d, n).month == 12 && sub_days_spec(d, n).day + n >= 32),
    decreases n,
{
    if n > 0 {
        lemma_sub_days_in_range(d, (n - 1) as nat);
        let p = sub_days_spec(d, (n - 1) as nat);
        assert(sub_days_spec(d, n) == prev_day(p));
        lemma_prev_day_step(p);
    }
}

proof fn lemma_next_day_step(d: Date)
    requires
        calendar_ok(d),
        d.year < i32::MAX,
    ensures
        calendar_ok(super::date::next_day(d)),
        super::date::next_day(d).ordinal_key() > d.ordinal_key(),
        super::date::next_day(d).year == d.year || (super::date::next_day(d).year == d.year + 1
            && super::date::next_day(d).month == 1),
{
}

proof fn lemma_add_days_in_range(d: Date, n: nat)
    requires
        d.wf(),
        d.year < MAX_YEAR,
        n <= 6,
    ensures
        add_days_spec(d, n).wf(),
        add_days_spec(d, n).ordinal_key() >= d.ordinal_key(),
        add_days_spec(d, n).year == d.year || (add_days_spec(d, n).year == d.year + 1
            && add_days_spec(d, n).month == 1 && add_days_spec(d, n).day <= n),
    decreases n,
{
    if n > 0 {
        lemma_add_days_in_range(d, (n - 1) as nat);
        let p = add_days_spec(d, (n - 1) as nat);
        assert(add_days_spec(d, n) == super::date::next_day(p));
        lemma_next_day_step(p);
    }
}

proof fn lemma_next_prev(d: Date)
    requires
        calendar_ok(d),
        i32::MIN < d.year,
    ensures
        super::date::next_day(prev_day(d)) == d,
{
}

proof fn lemma_add_days_shift(x: Date, n: nat)
    ensures
        add_days_spec(x, n + 1) == add_days_spec(super::date::next_day(x), n),
    decreases n,
{
    assert(add_days_spec(x, n + 1) == super::date::next_day(add_days_spec(x, n)));
    if n > 0 {
        lemma_add_days_shift(x, (n - 1) as nat);
        assert(add_days_spec(super::date::next_day(x), n) == super::date::next_day(
            add_days_spec(super::date::next_day(x), (n - 1) as nat),
        ));
    } else {
        assert(add_days_spec(x, 0) == x);
        assert(add_days_spec(super::date::next_day(x), 0) == super::date::next_day(x));
    }
}

proof fn lemma_add_sub_inverse(d: Date, w: nat)
    requires
        d.wf(),
        MIN_YEAR < d.year,
        w <= 6,
    ensures
        add_days_spec(sub_days_spec(d, w), w) == d,
    decreases w,
{
    if w > 0 {
        let y = sub_days_spec(d, (w - 1) as nat);
        lemma_sub_days_in_range(d, (w - 1) as nat);
        lemma_add_sub_inverse(d, (w - 1) as nat);
        assert(sub_days_spec(d, w) == prev_day(y));
        lemma_add_days_shift(prev_day(y), (w - 1) as nat);
        lemma_next_prev(y);
    }
}

proof fn lemma_add_days_monotone(s: Date, a: nat, b: nat)
    requires
        s.wf(),
        s.year < MAX_YEAR,
        a <= b <= 6,
    ensures
        add_days_spec(s, a).ordinal_key() <= add_days_spec(s, b).ordinal_key(),
    decreases b - a,
{
    if a < b {
        lemma_add_days_monotone(s, a, (b - 1) as nat);
        lemma_add_days_in_range(s, (b - 1) as nat);
        lemma_next_day_step(add_days_spec(s, (b - 1) as nat));
    }
}

/// The period a budget uses for a date contains that date: it starts on or
/// before it and ends on or after it.
pub proof fn lemma_period_contains_date(period: BudgetPeriod, d: Date)
    requires
        d.wf(),
        period == BudgetPeriod::Yearly || MIN_YEAR < d.year < MAX_YEAR,
    ensures
        period_bounds_spec(period, d).0.on_or_before(d),
        d.on_or_before(period_bounds_spec(period, d).1),
{
    match period {
        BudgetPeriod::Weekly => {
            let w = weekday_from_monday(d);
            assert(0 <= w < 7);
            lemma_sub_days_in_range(d, w as nat);
            let start = sub_days_spec(d, w as nat);
            lemma_add_sub_inverse(d, w as nat);
            lemma_add_days_monotone(start, w as nat, 6);
        },
        BudgetPeriod::Monthly => {},
        BudgetPeriod::Yearly => {},
    }
}

proof fn lemma_sub_days_count(d: Date, n: nat)
    requires
        d.wf(),
        MIN_YEAR < d.year,
        n <= 6,
    ensures
        days_from_ce(sub_days_spec(d, n)) == days_from_ce(d) - n,
    decreases n,
{
    if n > 0 {
        lemma_sub_days_count(d, (n - 1) as nat);
        lemma_sub_days_in_range(d, (n - 1) as nat);
        let p = sub_days_spec(d, (n - 1) as nat);
        assert(sub_days_spec(d, n) == prev_day(p));
        lemma_prev_day_step(p);
        lemma_next_prev(p);
        lemma_next_day_count(prev_day(p));
    }
}

/// A weekly budget's period is the Monday-to-Sunday week of the date: it
/// starts on a Monday, as many days before the date as the date is past
/// Monday, and ends six days later, on a Sunday.
pub proof fn lemma_weekly_period_is_monday_to_sunday(d: Date)
    requires
        d.wf(),
        MIN_YEAR < d.year < MAX_YEAR,
    ensures
        ({
            let (start, end) = period_bounds_spec(BudgetPeriod::Weekly, d);
            &&& weekday_from_monday(start) == 0
            &&& weekday_from_monday(end) == 6
            &&& days_from_ce(d) - days_from_ce(start) == weekday_from_monday(d)
            &&& days_from_ce(end) == days_from_ce(start) + 6
            &&& days_from_ce(start) <= days_from_ce(d) <= days_from_ce(end)
        }),
{
    let w = weekday_from_monday(d);
    assert(0 <= w < 7);
    lemma_sub_days_in_range(d, w as nat);
    lemma_sub_days_count(d, w as nat);
    let start = sub_days_spec(d, w as nat);
    lemma_add_days_count(start, 6);
}

/// A monthly budget's period is the calendar month of the date, from its
/// first to its last day; a yearly budget's is the calendar year, from
/// 1 January to 31 December.
pub proof fn lemma_month_and_year_periods(d: Date)
    requires
        d.wf(),
    ensures
        ({
            let (start, end) = period_bounds_spec(BudgetPeriod::Monthly, d);
            &&& start.year == d.year && start.month == d.month && start.day == 1
            &&& end.year == d.year && end.month == d.month && end.day == days_in_month(
                d.year as int,
                d.month as int,
            )
        }),
        ({
            let (start, end) = period_bounds_spec(BudgetPeriod::Yearly, d);
            &&& start.year == d.year && start.month == 1 && start.day == 1
            &&& end.year == d.year && end.month == 12 && end.day == 31
        }),
{
}

} // verus!
