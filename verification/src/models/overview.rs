//! The overview: balances of the active accounts, the limits and open
//! invoices of the active credit cards, and the budgets.

use super::account::Account;
use super::amount::{decimal_checked_sub, Amount};
use super::budget::BudgetWithSpend;
use super::credit_card::CreditCard;
use super::date::Date;
use super::types::{InvoiceStatus, Month, Year};
use vstd::prelude::*;

verus! {

/// An account line of the overview.
#[derive(Debug)]
pub struct AccountOverview {
    pub id: i32,
    pub name: String,
    pub balance: Amount,
}

/// An invoice line of the overview.
#[derive(Debug)]
pub struct InvoiceOverview {
    pub month: Month,
    pub year: Year,
    pub status: InvoiceStatus,
    pub amount: Amount,
}

/// A credit card line of the overview.
#[derive(Debug)]
pub struct CreditCardOverview {
    pub id: i32,
    pub name: String,
    pub limit: Amount,
    pub used: Amount,
    pub available: Amount,
    pub open_invoices: Vec<InvoiceOverview>,
}

/// The whole overview.
#[derive(Debug)]
pub struct OverviewResponse {
    pub reference_date: Date,
    pub accounts: Vec<AccountOverview>,
    pub credit_cards: Vec<CreditCardOverview>,
    pub budgets: Vec<BudgetWithSpend>,
}

impl InvoiceOverview {
    /// An invoice line from a row's month, year, status and total (zero when
    /// there is none); a month or year out of range is refused.
    pub fn from_row(month: i16, year: i16, status: InvoiceStatus, total: Option<Amount>) -> (r:
        Result<InvoiceOverview, &'static str>)
        ensures
            !Month::accepts(month) ==> r is Err && r->Err_0@ == "Month must be between 1 and 12"@,
            Month::accepts(month) && !Year::accepts(year) ==> r is Err && r->Err_0@
                == "Year must be greater than or equal to 2000"@,
            Month::accepts(month) && Year::accepts(year) ==> r is Ok && r->Ok_0.month.value()
                == month && r->Ok_0.year.value() == year && r->Ok_0.status == status && match total {
                Some(a) => r->Ok_0.amount == a,
                None => r->Ok_0.amount.m() == 0 && r->Ok_0.amount.s() == 0,
            },
    {
        let m = match Month::try_from(month) {
            Ok(m) => m,
            Err(e) => {
                return Err(e);
            },
        };
        let y = match Year::try_from(year) {
            Ok(y) => y,
            Err(e) => {
                return Err(e);
            },
        };
        let amount = match total {
            Some(a) => a,
            None => Amount::zero(),
        };
        Ok(InvoiceOverview { month: m, year: y, status, amount })
    }
}

impl CreditCardOverview {
    /// The credit still available: the limit minus what is used, or zero
    /// when nothing is left. `None` when `rust_decimal` cannot compute the
    /// difference.
    pub fn available_limit(limit: &Amount, used: &Amount) -> (r: Option<Amount>)
        ensures
            limit.scaled() > used.scaled() ==> (match r {
                Some(a) => Some(a.parts()),
                None => None,
            }) == decimal_checked_sub(limit.m(), limit.s(), used.m(), used.s()),
            limit.scaled() > used.scaled() && super::amount::difference_fits(*limit, *used) ==> r is Some
                && r.unwrap().scaled() == limit.scaled() - used.scaled(),
            limit.scaled() <= used.scaled() ==> r is Some && r.unwrap().m() == 0 && r.unwrap().s()
                == 0,
    {
        if limit.exceeds(used) {
            limit.checked_sub(used)
        } else {
            Some(Amount::zero())
        }
    }

    /// The overview line of a card, given what it uses and its open
    /// invoices; `None` when the available credit cannot be computed.
    pub fn for_card(card: &CreditCard, used: Amount, open_invoices: Vec<InvoiceOverview>) -> (r: Option<
        CreditCardOverview,
    >)
        ensures
            r matches Some(o) ==> {
                &&& o.id == card.id
                &&& o.name@ == card.name.view()
                &&& o.limit == card.credit_limit.value()
                &&& o.used == used
                &&& o.open_invoices@ == open_invoices@
            },
            r is None <==> Self::available_limit_spec(card.credit_limit.value(), used) is None,
            r matches Some(o) ==> Some(o.available.parts()) == Self::available_limit_spec(
                card.credit_limit.value(),
                used,
            ),
    {
        let limit = card.credit_limit.as_decimal();
        match Self::available_limit(&limit, &used) {
            None => None,
            Some(available) => Some(
                CreditCardOverview {
                    id: card.id,
                    name: card.name.as_str().to_owned(),
                    limit,
                    used,
                    available,
                    open_invoices,
                },
            ),
        }
    }

    /// The parts of the available credit (see [`Self::available_limit`]).
    pub open spec fn available_limit_spec(limit: Amount, used: Amount) -> Option<(int, int)> {
        if limit.scaled() > used.scaled() {
            decimal_checked_sub(limit.m(), limit.s(), used.m(), used.s())
        } else {
            Some((0, 0))
        }
    }
}

impl AccountOverview {
    /// The overview line of an account with its balance.
    pub fn for_account(acc: &Account, balance: Amount) -> (r: AccountOverview)
        ensures
            r.id == acc.id,
            r.name@ == acc.name.view(),
            r.balance == balance,
    {
        AccountOverview { id: acc.id, name: acc.name.as_str().to_owned(), balance }
    }
}

impl OverviewResponse {
    /// The reference date of the overview: the one given, or today (UTC).
    pub fn reference_date_or_today(date: Option<Date>) -> (r: Date)
        ensures
            date matches Some(d) ==> r == d,
            date is None ==> r.wf(),
    {
        match date {
            Some(d) => d,
            None => Date::today_utc(),
        }
    }

    /// The accounts the overview lists: the active ones, by position, in order.
    pub fn active_accounts(accounts: &Vec<Account>) -> (r: Vec<usize>)
        ensures
            forall|k: int| 0 <= k < r@.len() ==> (#[trigger] r@[k]) < accounts@.len() && accounts@[r@[k] as int].active,
            forall|i: int| 0 <= i < accounts@.len() && accounts@[i].active ==> r@.contains(i as usize),
            forall|a: int, b: int| 0 <= a < b < r@.len() ==> r@[a] < r@[b],
    {
        let mut out: Vec<usize> = Vec::new();
        let mut i: usize = 0;
        while i < accounts.len()
            invariant
                i <= accounts@.len(),
                forall|k: int| 0 <= k < out@.len() ==> (#[trigger] out@[k]) < i && accounts@[out@[k] as int].active,
                forall|j: int| 0 <= j < i && accounts@[j].active ==> out@.contains(j as usize),
                forall|a: int, b: int| 0 <= a < b < out@.len() ==> out@[a] < out@[b],
            decreases accounts@.len() - i,
        {
            if accounts[i].active {
                let ghost before = out@;
                out.push(i);
                assert forall|j: int| 0 <= j < i + 1 && accounts@[j].active implies out@.contains(j as usize) by {
                    if j < i {
                        assert(before.contains(j as usize));
                        let w = choose|w: int| 0 <= w < before.len() && before[w] == j as usize;
                        assert(out@[w] == j as usize);
                    } else {
                        assert(out@[out@.len() - 1] == i);
                    }
                }
            }
            i = i + 1;
        }
        out
    }

    /// The credit cards the overview lists: the active ones, by position,
    /// in order.
    pub fn active_cards(cards: &Vec<CreditCard>) -> (r: Vec<usize>)
        ensures
            forall|k: int| 0 <= k < r@.len() ==> (#[trigger] r@[k]) < cards@.len() && cards@[r@[k] as int].active,
            forall|i: int| 0 <= i < cards@.len() && cards@[i].active ==> r@.contains(i as usize),
            forall|a: int, b: int| 0 <= a < b < r@.len() ==> r@[a] < r@[b],
    {
        let mut out: Vec<usize> = Vec::new();
        let mut i: usize = 0;
        while i < cards.len()
            invariant
                i <= cards@.len(),
                forall|k: int| 0 <= k < out@.len() ==> (#[trigger] out@[k]) < i && cards@[out@[k] as int].active,
                forall|j: int| 0 <= j < i && cards@[j].active ==> out@.contains(j as usize),
                forall|a: int, b: int| 0 <= a < b < out@.len() ==> out@[a] < out@[b],
            decreases cards@.len() - i,
        {
            if cards[i].active {
                let ghost before = out@;
                out.push(i);
                assert forall|j: int| 0 <= j < i + 1 && cards@[j].active implies out@.contains(j as usize) by {
                    if j < i {
                        assert(before.contains(j as usize));
                        let w = choose|w: int| 0 <= w < before.len() && before[w] == j as usize;
                        assert(out@[w] == j as usize);
                    } else {
                        assert(out@[out@.len() - 1] == i);
                    }
                }
            }
            i = i + 1;
        }
        out
    }
}

} // verus!
