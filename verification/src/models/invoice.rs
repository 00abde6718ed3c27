//! Credit card invoices: which invoice a purchase falls on, when it is due,
//! and how an invoice moves between open, closed and paid.

use super::amount::Amount;
use super::date::{
    days_in_month, lemma_safe_from_ymd_clamps, MAX_YEAR, MIN_YEAR, add_months_spec, months_in_range, safe_from_ymd, safe_from_ymd_spec, ymd, Date, Timestamp,
};
use super::text::{int_to_decimal, push_i32_text, string_from_chars};
use super::types::{InvoiceStatus, Month, Year};
use vstd::prelude::*;

verus! {

/// A stored invoice.
#[derive(Debug)]
pub struct Invoice {
    pub id: i32,
    pub credit_card_id: i32,
    pub month: Month,
    pub year: Year,
    pub status: InvoiceStatus,
    pub closing_amount: Option<Amount>,
    pub due_date: Date,
    pub created_at: Timestamp,
    pub updated_at: Timestamp,
}

/// The month whose invoice takes a purchase made on `d`: a purchase on the
/// card's billing day or later goes to the following month.
pub open spec fn invoice_month_date(d: Date, billing_day: i16) -> Date {
    if d.day >= billing_day {
        add_months_spec(d, 1)
    } else {
        d
    }
}

/// The month and year of the invoice that takes a purchase made on `d`, or
/// the error for a year the invoice cannot carry.
pub open spec fn invoice_period_spec(d: Date, billing_day: i16) -> Result<(i16, i16), Seq<char>> {
    let m = invoice_month_date(d, billing_day);
    if (m.year as i16) >= 2000 {
        Ok((m.month as i16, m.year as i16))
    } else {
        Err("Year must be greater than or equal to 2000"@)
    }
}

/// The due date of the invoice of `month`/`year`: day `due_day` of that
/// month, or of the following one when the due day comes before the billing
/// day; a day past the month's end falls on its last day.
pub open spec fn invoice_due_date_spec(month: int, year: int, billing_day: i16, due_day: i16) -> Date {
    if due_day < billing_day {
        let next = add_months_spec(ymd(year, month, 1), 1);
        safe_from_ymd_spec(next.year as int, next.month as int, (due_day as u32) as int)
    } else {
        safe_from_ymd_spec(year, month, (due_day as u32) as int)
    }
}

/// The invoice a purchase lands on and the invoice's due date.
#[derive(Debug, Clone, Copy)]
pub struct InvoicePlacement {
    pub month: Month,
    pub year: Year,
    pub due_date: Date,
}

impl Invoice {
    /// The month and year of the invoice that takes a purchase made on
    /// `transaction_date`, for a card with the given billing day.
    pub fn period_for(transaction_date: Date, billing_day: i16) -> (r: Result<(Month, Year), &'static str>)
        requires
            transaction_date.wf(),
            months_in_range(transaction_date, 1),
        ensures
            match invoice_period_spec(transaction_date, billing_day) {
                Ok((m, y)) => r is Ok && r->Ok_0.0.value() == m && r->Ok_0.1.value() == y,
                Err(e) => r is Err && r->Err_0@ == e,
            },
    {
        let day = transaction_date.day as i16;
        let mut invoice_date = transaction_date;
        if day >= billing_day {
            proof {
                super::date::lemma_add_months_wf(transaction_date, 1);
            }
            invoice_date = transaction_date.checked_add_months(1).unwrap();
        }
        let month = match Month::try_from(invoice_date.month as i16) {
            Ok(m) => m,
            Err(e) => {
                return Err(e);
            },
        };
        let year = match Year::try_from(invoice_date.year as i16) {
            Ok(y) => y,
            Err(e) => {
                return Err(e);
            },
        };
        Ok((month, year))
    }

    /// The due date of the invoice of `month`/`year` for a card with the
    /// given billing and due days.
    pub fn due_date_for(month: Month, year: Year, billing_day: i16, due_day: i16) -> (r: Date)
        ensures
            r == invoice_due_date_spec(month.value() as int, year.value() as int, billing_day, due_day),
            r.wf(),
    {
        let mut due_month = month.as_i16() as u32;
        let mut due_year = year.as_i16() as i32;
        if due_day < billing_day {
            let first = Date::from_ymd_opt(due_year, due_month, 1).unwrap();
            proof {
                super::date::lemma_add_months_wf(first, 1);
            }
            let next = first.checked_add_months(1).unwrap();
            due_month = next.month;
            due_year = next.year;
        }
        safe_from_ymd(due_year, due_month, due_day as u32)
    }

    /// The invoice a purchase made on `transaction_date` lands on, and its due
    /// date.
    pub fn placement_for(transaction_date: Date, billing_day: i16, due_day: i16) -> (r: Result<
        InvoicePlacement,
        &'static str,
    >)
        requires
            transaction_date.wf(),
            months_in_range(transaction_date, 1),
        ensures
            match invoice_period_spec(transaction_date, billing_day) {
                Ok((m, y)) => r is Ok && r->Ok_0.month.value() == m && r->Ok_0.year.value() == y
                    && r->Ok_0.due_date == invoice_due_date_spec(m as int, y as int, billing_day, due_day),
                Err(e) => r is Err && r->Err_0@ == e,
            },
    {
        let (month, year) = match Self::period_for(transaction_date, billing_day) {
            Ok(p) => p,
            Err(e) => {
                return Err(e);
            },
        };
        let due_date = Self::due_date_for(month, year, billing_day, due_day);
        Ok(InvoicePlacement { month, year, due_date })
    }

    /// The description of the transfer that pays the invoice of
    /// `month`/`year`: `"Pagamento Fatura <month>/<year>"`.
    pub fn payment_description(month: Month, year: Year) -> (r: String)
        ensures
            r@ == "Pagamento Fatura "@ + int_to_decimal(month.value() as int) + seq!['/']
                + int_to_decimal(year.value() as int),
    {
        let mut text: Vec<char> = Vec::new();
        super::text::push_str_chars(&mut text, "Pagamento Fatura ");
        push_i32_text(&mut text, month.as_i16() as i32);
        text.push('/');
        push_i32_text(&mut text, year.as_i16() as i32);
        string_from_chars(text.as_slice())
    }

    /// The amount a payment transfers: the closing amount, or zero when none
    /// was recorded.
    pub fn payment_amount(&self) -> (r: Amount)
        ensures
            match self.closing_amount {
                Some(a) => r == a,
                None => r.m() == 0 && r.s() == 0,
            },
    {
        match self.closing_amount {
            Some(a) => a,
            None => Amount::zero(),
        }
    }
}

impl InvoiceStatus {
    /// The status after closing: only an open invoice can be closed.
    pub open spec fn close_spec(self) -> Option<InvoiceStatus> {
        if self == InvoiceStatus::Open {
            Some(InvoiceStatus::Closed)
        } else {
            None
        }
    }

    /// The status after reopening: only a closed invoice can be reopened.
    pub open spec fn reopen_spec(self) -> Option<InvoiceStatus> {
        if self == InvoiceStatus::Closed {
            Some(InvoiceStatus::Open)
        } else {
            None
        }
    }

    /// The status after paying: only a closed invoice can be paid.
    pub open spec fn pay_spec(self) -> Option<InvoiceStatus> {
        if self == InvoiceStatus::Closed {
            Some(InvoiceStatus::Paid)
        } else {
            None
        }
    }

    /// The status after closing, or `None` when the invoice cannot be closed.
    pub fn after_close(&self) -> (r: Option<InvoiceStatus>)
        ensures
            r == self.close_spec(),
    {
        match self {
            InvoiceStatus::Open => Some(InvoiceStatus::Closed),
            _ => None,
        }
    }

    /// The status after reopening, or `None` when the invoice cannot be
    /// reopened.
    pub fn after_reopen(&self) -> (r: Option<InvoiceStatus>)
        ensures
            r == self.reopen_spec(),
    {
        match self {
            InvoiceStatus::Closed => Some(InvoiceStatus::Open),
            _ => None,
        }
    }

    /// The status after paying, or `None` when the invoice cannot be paid.
    pub fn after_pay(&self) -> (r: Option<InvoiceStatus>)
        ensures
            r == self.pay_spec(),
    {
        match self {
            InvoiceStatus::Closed => Some(InvoiceStatus::Paid),
            _ => None,
        }
    }
}

/// Reopening a closed invoice undoes its closing, and an invoice can only be
/// paid once it is closed.
pub proof fn lemma_reopen_undoes_close(s: InvoiceStatus)
    ensures
        s.close_spec() matches Some(c) ==> c.reopen_spec() == Some(s),
        s.pay_spec() is Some ==> s == InvoiceStatus::Closed,
{
}

/// A paid invoice is final: it can be neither closed, reopened nor paid again.
pub proof fn lemma_paid_is_final()
    ensures
        InvoiceStatus::Paid.close_spec() is None,
        InvoiceStatus::Paid.reopen_spec() is None,
        InvoiceStatus::Paid.pay_spec() is None,
{
}

/// When an invoice falls due: in the invoice's own month when the due day
/// is not before the billing day, otherwise in the calendar month after it
/// (December's invoice falls due in January of the next year); on the due
/// day, or the month's last day when the month is shorter. So the due date
/// is never before the first day of the invoice's month.
pub proof fn lemma_due_date_month(month: int, year: int, billing_day: i16, due_day: i16)
    requires
        1 <= month <= 12,
        MIN_YEAR <= year < MAX_YEAR,
        1 <= due_day,
    ensures
        ({
            let r = invoice_due_date_spec(month, year, billing_day, due_day);
            let shift: int = if due_day < billing_day {
                1
            } else {
                0
            };
            &&& r.year * 12 + r.month == year * 12 + month + shift
            &&& 1 <= r.month <= 12
            &&& r.day == (if (due_day as int) <= days_in_month(r.year as int, r.month as int) {
                due_day as int
            } else {
                days_in_month(r.year as int, r.month as int)
            })
            &&& ymd(year, month, 1).ordinal_key() <= r.ordinal_key()
        }),
{
    let u = (due_day as u32) as int;
    assert(u == due_day);
    if due_day < billing_day {
        let next = add_months_spec(ymd(year, month, 1), 1);
        assert(next.year * 12 + next.month == year * 12 + month + 1);
        lemma_safe_from_ymd_clamps(next.year as int, next.month as int, u);
    } else {
        lemma_safe_from_ymd_clamps(year, month, u);
    }
}

/// Which invoice takes a purchase: the one of the purchase's own month when
/// it is made before the card's billing day, otherwise the one of the
/// calendar month after it (a purchase on or after the billing day in
/// December goes to January's invoice of the next year).
pub proof fn lemma_invoice_period_month(d: Date, billing_day: i16)
    requires
        d.wf(),
        2000 <= d.year < 32767,
    ensures
        invoice_period_spec(d, billing_day) is Ok,
        ({
            let (m, y) = invoice_period_spec(d, billing_day)->Ok_0;
            &&& 1 <= m <= 12
            &&& y * 12 + m == d.year * 12 + d.month + (if (d.day as int) >= billing_day as int {
                1int
            } else {
                0int
            })
        }),
{
    let im = invoice_month_date(d, billing_day);
    assert(im.year * 12 + im.month == d.year * 12 + d.month + (if (d.day as int) >= billing_day as int {
        1int
    } else {
        0int
    }));
    assert(2000 <= im.year <= 32767);
    assert((im.year as i16) == im.year);
    assert((im.month as i16) == im.month);
}

} // verus!
