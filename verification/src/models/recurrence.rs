//! Recurring transactions: when each occurrence falls, which occurrences a
//! synchronisation generates, and how a recurrence is changed.

use super::date::{
    days_from_ce, days_in_month, lemma_add_days_count, lemma_safe_from_ymd_clamps, calendar_ok, add_days_spec, next_day, safe_from_ymd, safe_from_ymd_spec, Date, Timestamp, MAX_YEAR, MIN_YEAR,
};
use super::transaction::{next_source_columns, compute_next_source_columns, NewTransaction};
use super::types::{
    NonEmptyString, PositiveAmount, RecurrenceFrequency, TransactionSource, TransactionType,
};
use vstd::prelude::*;

verus! {

/// A stored recurrence.
#[derive(Debug)]
pub struct Recurrence {
    pub id: i32,
    pub category_id: i32,
    pub source: TransactionSource,
    pub transaction_type: TransactionType,
    pub amount: PositiveAmount,
    pub description: NonEmptyString,
    pub frequency: RecurrenceFrequency,
    pub start_date: Date,
    pub end_date: Option<Date>,
    pub last_processed_date: Option<Date>,
    pub created_at: Timestamp,
    pub updated_at: Timestamp,
}

/// A recurrence to be recorded.
#[derive(Debug)]
pub struct NewRecurrence {
    pub category_id: i32,
    pub source: TransactionSource,
    pub transaction_type: TransactionType,
    pub amount: PositiveAmount,
    pub description: NonEmptyString,
    pub frequency: RecurrenceFrequency,
    pub start_date: Date,
    pub end_date: Option<Date>,
}

/// The changes asked for a recurrence; `None` keeps the current value.
#[derive(Debug)]
pub struct UpdateRecurrencePayload {
    pub category_id: Option<i32>,
    pub account_id: Option<i32>,
    pub credit_card_id: Option<i32>,
    pub transaction_type: Option<TransactionType>,
    pub amount: Option<PositiveAmount>,
    pub description: Option<NonEmptyString>,
    pub frequency: Option<RecurrenceFrequency>,
    pub start_date: Option<Date>,
    pub end_date: Option<Option<Date>>,
}

/// The occurrence after the one on `from`: a day or a week later, or the
/// start date's day in the next month or year (the month's last day when that
/// day does not exist in it).
pub open spec fn next_occurrence(freq: RecurrenceFrequency, start: Date, from: Date) -> Date {
    match freq {
        RecurrenceFrequency::Daily => add_days_spec(from, 1),
        RecurrenceFrequency::Weekly => add_days_spec(from, 7),
        RecurrenceFrequency::Monthly => if from.month + 1 > 12 {
            safe_from_ymd_spec(from.year + 1, 1, start.day as int)
        } else {
            safe_from_ymd_spec(from.year as int, from.month + 1, start.day as int)
        },
        RecurrenceFrequency::Yearly => safe_from_ymd_spec(
            from.year + 1,
            from.month as int,
            start.day as int,
        ),
    }
}

/// `d` ends on or after `e` is reached: whether `d` comes after the end date.
pub open spec fn past_end(end: Option<Date>, d: Date) -> bool {
    match end {
        Some(e) => e.before(d),
        None => false,
    }
}

/// The occurrences from `current` on, up to `ref_date` and not past the end
/// date, each followed by the next occurrence.
pub open spec fn occurrences_from(
    freq: RecurrenceFrequency,
    start: Date,
    end: Option<Date>,
    current: Date,
    ref_date: Date,
) -> Seq<Date>
    decreases ref_date.ordinal_key() - current.ordinal_key(),
{
    if current.on_or_before(ref_date) && !past_end(end, current) {
        let nx = next_occurrence(freq, start, current);
        if nx.ordinal_key() > current.ordinal_key() && nx.ordinal_key() <= ref_date.ordinal_key() {
            seq![current] + occurrences_from(freq, start, end, nx, ref_date)
        } else {
            seq![current]
        }
    } else {
        Seq::empty()
    }
}

impl Recurrence {
    /// The first occurrence not yet processed.
    pub open spec fn first_pending(self) -> Date {
        match self.last_processed_date {
            Some(l) => next_occurrence(self.frequency, self.start_date, l),
            None => self.start_date,
        }
    }

    /// The occurrences a synchronisation up to `ref_date` generates.
    pub open spec fn due_dates_spec(self, ref_date: Date) -> Seq<Date> {
        occurrences_from(self.frequency, self.start_date, self.end_date, self.first_pending(), ref_date)
    }

    /// Whether a synchronisation up to `ref_date` looks at this recurrence:
    /// its start is not after its end, and it was not processed up to that
    /// date already.
    pub open spec fn is_pending_spec(self, ref_date: Date) -> bool {
        &&& match self.end_date {
            Some(e) => self.start_date.on_or_before(e),
            None => true,
        }
        &&& match self.last_processed_date {
            Some(l) => l.before(ref_date),
            None => true,
        }
    }

    /// The dates the recurrence holds are dates `chrono` can hold, and the
    /// reference date leaves room for one more occurrence.
    pub open spec fn sync_inputs_ok(self, ref_date: Date) -> bool {
        &&& ref_date.wf()
        &&& ref_date.year < MAX_YEAR
        &&& self.start_date.wf()
        &&& (self.last_processed_date matches Some(l) ==> l.wf())
        &&& (self.end_date matches Some(e) ==> e.wf())
    }
}

proof fn lemma_next_day_later(d: Date)
    requires
        calendar_ok(d),
        d.year < i32::MAX,
    ensures
        calendar_ok(next_day(d)),
        next_day(d).ordinal_key() > d.ordinal_key(),
        next_day(d).year <= d.year + 1,
        next_day(d).year >= d.year,
{
}

proof fn lemma_add_days_later(d: Date, n: nat)
    requires
        calendar_ok(d),
        d.year < MAX_YEAR,
        1 <= n <= 7,
    ensures
        calendar_ok(add_days_spec(d, n)),
        add_days_spec(d, n).ordinal_key() > d.ordinal_key(),
        add_days_spec(d, n).year == d.year || (add_days_spec(d, n).year == d.year + 1
            && add_days_spec(d, n).month == 1 && add_days_spec(d, n).day <= n),
    decreases n,
{
    if n == 1 {
        assert(add_days_spec(d, 1) == next_day(add_days_spec(d, 0)));
        lemma_next_day_later(d);
    } else {
        lemma_add_days_later(d, (n - 1) as nat);
        let p = add_days_spec(d, (n - 1) as nat);
        assert(add_days_spec(d, n) == next_day(p));
        lemma_next_day_later(p);
    }
}

proof fn lemma_add_days_bounded(d: Date, n: nat)
    requires
        calendar_ok(d),
        MIN_YEAR <= d.year < MAX_YEAR,
        1 <= n <= 7,
    ensures
        add_days_spec(d, n).wf(),
{
    lemma_add_days_later(d, n);
}

proof fn lemma_safe_from_ymd_ok(y: int, m: int, day: int)
    requires
        MIN_YEAR <= y <= MAX_YEAR,
        1 <= m <= 12,
        1 <= day <= 31,
    ensures
        safe_from_ymd_spec(y, m, day).wf(),
        safe_from_ymd_spec(y, m, day).year == y,
        safe_from_ymd_spec(y, m, day).month == m,
{
}

/// Each occurrence comes strictly after the one before it.
pub proof fn lemma_next_occurrence_later(freq: RecurrenceFrequency, start: Date, from: Date)
    requires
        calendar_ok(from),
        start.wf(),
        MIN_YEAR <= from.year < MAX_YEAR,
    ensures
        next_occurrence(freq, start, from).wf(),
        next_occurrence(freq, start, from).ordinal_key() > from.ordinal_key(),
{
    match freq {
        RecurrenceFrequency::Daily => {
            lemma_add_days_later(from, 1);
        },
        RecurrenceFrequency::Weekly => {
            lemma_add_days_later(from, 7);
        },
        RecurrenceFrequency::Monthly => {
            if from.month + 1 > 12 {
                lemma_safe_from_ymd_ok(from.year + 1, 1, start.day as int);
            } else {
                lemma_safe_from_ymd_ok(from.year as int, from.month + 1, start.day as int);
            }
        },
        RecurrenceFrequency::Yearly => {
            lemma_safe_from_ymd_ok(from.year + 1, from.month as int, start.day as int);
        },
    }
}

/// The last occurrence a synchronisation generates is followed by no other
/// one up to the same reference date.
proof fn lemma_occurrences_end(
    freq: RecurrenceFrequency,
    start: Date,
    end: Option<Date>,
    c: Date,
    ref_date: Date,
)
    requires
        calendar_ok(c),
        MIN_YEAR <= c.year,
        ref_date.wf(),
        ref_date.year < MAX_YEAR,
        start.wf(),
        occurrences_from(freq, start, end, c, ref_date).len() > 0,
    ensures
        occurrences_from(
            freq,
            start,
            end,
            next_occurrence(freq, start, occurrences_from(freq, start, end, c, ref_date).last()),
            ref_date,
        ).len() == 0,
    decreases ref_date.ordinal_key() - c.ordinal_key(),
{
    let s = occurrences_from(freq, start, end, c, ref_date);
    assert(c.on_or_before(ref_date));
    assert(c.year <= ref_date.year);
    lemma_next_occurrence_later(freq, start, c);
    let nx = next_occurrence(freq, start, c);
    if nx.ordinal_key() <= ref_date.ordinal_key() {
        let rest = occurrences_from(freq, start, end, nx, ref_date);
        assert(s == seq![c] + rest);
        if rest.len() > 0 {
            lemma_occurrences_end(freq, start, end, nx, ref_date);
            assert(s.last() == rest.last());
        } else {
            assert(s.last() == c);
        }
    } else {
        assert(s == seq![c]);
        assert(s.last() == c);
    }
}

impl Recurrence {
    /// The same recurrence, marked as processed through `d`.
    pub open spec fn processed_through(self, d: Date) -> Recurrence {
        Recurrence { last_processed_date: Some(d), ..self }
    }

    /// The occurrence after the one on `from`.
    pub fn next_date(&self, from: Date) -> (r: Date)
        requires
            calendar_ok(from),
            MIN_YEAR <= from.year < MAX_YEAR,
            self.start_date.wf(),
        ensures
            r == next_occurrence(self.frequency, self.start_date, from),
            r.wf(),
            r.ordinal_key() > from.ordinal_key(),
    {
        proof {
            lemma_next_occurrence_later(self.frequency, self.start_date, from);
        }
        match self.frequency {
            RecurrenceFrequency::Daily => {
                proof {
                    lemma_add_days_bounded(from, 1);
                }
                from.checked_add_days(1).unwrap()
            },
            RecurrenceFrequency::Weekly => {
                proof {
                    lemma_add_days_bounded(from, 7);
                }
                from.checked_add_days(7).unwrap()
            },
            RecurrenceFrequency::Monthly => {
                let mut m = from.month + 1;
                let mut y = from.year;
                if m > 12 {
                    m = 1;
                    y = y + 1;
                }
                safe_from_ymd(y, m, self.start_date.day)
            },
            RecurrenceFrequency::Yearly => safe_from_ymd(
                from.year + 1,
                from.month,
                self.start_date.day,
            ),
        }
    }

    /// Whether `d` comes after the recurrence's end date.
    pub fn is_past_end(&self, d: &Date) -> (r: bool)
        requires
            d.wf(),
            self.end_date matches Some(e) ==> e.wf(),
        ensures
            r == past_end(self.end_date, *d),
    {
        match &self.end_date {
            Some(e) => !d.is_on_or_before(e),
            None => false,
        }
    }

    /// Whether a synchronisation up to `ref_date` looks at this recurrence.
    pub fn is_pending(&self, ref_date: &Date) -> (r: bool)
        requires
            self.sync_inputs_ok(*ref_date),
        ensures
            r == self.is_pending_spec(*ref_date),
    {
        let start_ok = match &self.end_date {
            Some(e) => self.start_date.is_on_or_before(e),
            None => true,
        };
        let not_done = match &self.last_processed_date {
            Some(l) => !ref_date.is_on_or_before(l),
            None => true,
        };
        start_ok && not_done
    }

    /// The occurrences a synchronisation up to `ref_date` generates, in order:
    /// from the first one not yet processed, while not after `ref_date` and
    /// not after the end date.
    pub fn due_dates(&self, ref_date: &Date) -> (r: Vec<Date>)
        requires
            self.sync_inputs_ok(*ref_date),
            self.is_pending_spec(*ref_date),
        ensures
            r@ == self.due_dates_spec(*ref_date),
            forall|k: int| 0 <= k < r@.len() ==> (#[trigger] r@[k]).wf(),
    {
        let mut current = match self.last_processed_date {
            Some(l) => self.next_date(l),
            None => self.start_date,
        };
        let mut out: Vec<Date> = Vec::new();
        while current.is_on_or_before(ref_date) && !self.is_past_end(&current)
            invariant
                self.sync_inputs_ok(*ref_date),
                current.wf(),
                out@ + occurrences_from(
                    self.frequency,
                    self.start_date,
                    self.end_date,
                    current,
                    *ref_date,
                ) == self.due_dates_spec(*ref_date),
                forall|k: int| 0 <= k < out@.len() ==> (#[trigger] out@[k]).wf(),
            decreases (if current.on_or_before(*ref_date) {
                ref_date.ordinal_key() - current.ordinal_key() + 1
            } else {
                0
            }),
        {
            let ghost old_out = out@;
            assert(current.year <= ref_date.year);
            out.push(current);
            let nx = self.next_date(current);
            proof {
                let rest = occurrences_from(
                    self.frequency,
                    self.start_date,
                    self.end_date,
                    nx,
                    *ref_date,
                );
                if nx.ordinal_key() <= ref_date.ordinal_key() {
                    assert(occurrences_from(
                        self.frequency,
                        self.start_date,
                        self.end_date,
                        current,
                        *ref_date,
                    ) == seq![current] + rest);
                } else {
                    assert(rest.len() == 0);
                    assert(occurrences_from(
                        self.frequency,
                        self.start_date,
                        self.end_date,
                        current,
                        *ref_date,
                    ) == seq![current]);
                }
                assert(out@ + rest =~= old_out + (seq![current] + rest));
            }
            current = nx;
        }
        assert(out@ + Seq::<Date>::empty() =~= out@);
        out
    }

    /// The transaction generated for the occurrence on `date`.
    pub fn transaction_for(&self, date: Date) -> (r: NewTransaction)
        ensures
            r.category_id == Some(self.category_id),
            r.source == self.source,
            r.transaction_type == self.transaction_type,
            r.amount.value() == self.amount.value(),
            r.date == date,
            r.description.view() == self.description.view(),
            r.installment_id is None,
            r.installment_number is None,
            r.tags@.len() == 0,
    {
        NewTransaction {
            category_id: Some(self.category_id),
            source: self.source,
            transaction_type: self.transaction_type,
            amount: self.amount,
            date,
            description: self.description.clone(),
            installment_id: None,
            installment_number: None,
            tags: Vec::new(),
        }
    }

    /// The row an update writes: each field given in the update replaces the
    /// current one, the source follows the same rule as for transactions, and
    /// the end date changes only when a new one is given (it is never
    /// cleared).
    pub fn updated(self, payload: UpdateRecurrencePayload) -> (r: Recurrence)
        ensures
            r.id == self.id,
            r.category_id == (match payload.category_id {
                Some(c) => c,
                None => self.category_id,
            }),
            r.source.columns() == next_source_columns(
                self.source,
                payload.account_id,
                payload.credit_card_id,
            ),
            r.transaction_type == (match payload.transaction_type {
                Some(t) => t,
                None => self.transaction_type,
            }),
            r.amount.value() == (match payload.amount {
                Some(a) => a.value(),
                None => self.amount.value(),
            }),
            r.description.view() == (match payload.description {
                Some(d) => d.view(),
                None => self.description.view(),
            }),
            r.frequency == (match payload.frequency {
                Some(f) => f,
                None => self.frequency,
            }),
            r.start_date == (match payload.start_date {
                Some(d) => d,
                None => self.start_date,
            }),
            r.end_date == (match payload.end_date {
                Some(Some(d)) => Some(d),
                _ => self.end_date,
            }),
            r.last_processed_date == self.last_processed_date,
            r.created_at == self.created_at,
            r.updated_at == self.updated_at,
    {
        let (a, c) = compute_next_source_columns(
            &self.source,
            payload.account_id,
            payload.credit_card_id,
        );
        let source = match TransactionSource::from_columns(a, c) {
            Some(s) => s,
            None => self.source,
        };
        Recurrence {
            id: self.id,
            category_id: match payload.category_id {
                Some(c) => c,
                None => self.category_id,
            },
            source,
            transaction_type: match payload.transaction_type {
                Some(t) => t,
                None => self.transaction_type,
            },
            amount: match payload.amount {
                Some(x) => x,
                None => self.amount,
            },
            description: match payload.description {
                Some(d) => d,
                None => self.description,
            },
            frequency: match payload.frequency {
                Some(f) => f,
                None => self.frequency,
            },
            start_date: match payload.start_date {
                Some(d) => d,
                None => self.start_date,
            },
            end_date: match payload.end_date {
                Some(Some(d)) => Some(d),
                _ => self.end_date,
            },
            last_processed_date: self.last_processed_date,
            created_at: self.created_at,
            updated_at: self.updated_at,
        }
    }

    /// The source of a stored row, read from its account and credit card
    /// columns; a row with both or neither is refused.
    pub fn source_from_columns(account_id: Option<i32>, credit_card_id: Option<i32>) -> (r: Result<
        TransactionSource,
        &'static str,
    >)
        ensures
            match TransactionSource::from_columns_spec(account_id, credit_card_id) {
                Some(s) => r == Ok::<TransactionSource, &'static str>(s),
                None => r is Err && r->Err_0@ == "Recurrence must belong to account or CC."@,
            },
    {
        match TransactionSource::from_columns(account_id, credit_card_id) {
            Some(s) => Ok(s),
            None => Err("Recurrence must belong to account or CC."),
        }
    }
}

/// Synchronising twice up to the same date generates nothing the second
/// time: once a recurrence is marked as processed through the last
/// occurrence a synchronisation generated, it has no occurrence left up to
/// that date.
pub proof fn lemma_sync_idempotent(r: Recurrence, ref_date: Date)
    requires
        r.sync_inputs_ok(ref_date),
        r.is_pending_spec(ref_date),
        r.due_dates_spec(ref_date).len() > 0,
    ensures
        r.processed_through(r.due_dates_spec(ref_date).last()).due_dates_spec(ref_date).len() == 0,
{
    let first = r.first_pending();
    if let Some(l) = r.last_processed_date {
        assert(l.before(ref_date));
        lemma_next_occurrence_later(r.frequency, r.start_date, l);
    }
    lemma_occurrences_end(r.frequency, r.start_date, r.end_date, first, ref_date);
}

/// The day of the month an occurrence takes: the start date's day, or the
/// month's last day when the month is shorter.
pub open spec fn clamped_day(y: int, m: int, day: int) -> int {
    if day <= days_in_month(y, m) {
        day
    } else {
        days_in_month(y, m)
    }
}

/// How far apart two occurrences are: a daily recurrence steps one day and
/// a weekly one seven days in the count of days; a monthly one moves to the
/// next calendar month and a yearly one to the same month of the next year,
/// both on the start date's day, clamped to the month's length.
pub proof fn lemma_next_occurrence_step(freq: RecurrenceFrequency, start: Date, from: Date)
    requires
        calendar_ok(from),
        start.wf(),
        MIN_YEAR <= from.year < MAX_YEAR,
    ensures
        ({
            let r = next_occurrence(freq, start, from);
            &&& freq == RecurrenceFrequency::Daily ==> days_from_ce(r) == days_from_ce(from) + 1
            &&& freq == RecurrenceFrequency::Weekly ==> days_from_ce(r) == days_from_ce(from) + 7
            &&& freq == RecurrenceFrequency::Monthly ==> r.year * 12 + r.month == from.year * 12
                + from.month + 1 && 1 <= r.month <= 12 && r.day == clamped_day(
                r.year as int,
                r.month as int,
                start.day as int,
            )
            &&& freq == RecurrenceFrequency::Yearly ==> r.year == from.year + 1 && r.month
                == from.month && r.day == clamped_day(r.year as int, r.month as int, start.day as int)
        }),
{
    match freq {
        RecurrenceFrequency::Daily => {
            lemma_add_days_count(from, 1);
        },
        RecurrenceFrequency::Weekly => {
            lemma_add_days_count(from, 7);
        },
        RecurrenceFrequency::Monthly => {
            if from.month + 1 > 12 {
                lemma_safe_from_ymd_clamps(from.year + 1, 1, start.day as int);
            } else {
                lemma_safe_from_ymd_clamps(from.year as int, from.month + 1, start.day as int);
            }
        },
        RecurrenceFrequency::Yearly => {
            lemma_safe_from_ymd_clamps(from.year + 1, from.month as int, start.day as int);
        },
    }
}

proof fn lemma_occurrences_shape(
    freq: RecurrenceFrequency,
    start: Date,
    end: Option<Date>,
    cur: Date,
    ref_date: Date,
)
    ensures
        ({
            let s = occurrences_from(freq, start, end, cur, ref_date);
            &&& forall|k: int|
                0 <= k < s.len() ==> (#[trigger] s[k]).on_or_before(ref_date) && !past_end(end, s[k])
            &&& s.len() > 0 ==> s[0] == cur
            &&& forall|k: int|
                0 <= k < s.len() - 1 ==> #[trigger] s[k + 1] == next_occurrence(freq, start, s[k])
            &&& s.len() > 0 ==> !({
                let nx = next_occurrence(freq, start, s[s.len() - 1]);
                nx.ordinal_key() > s[s.len() - 1].ordinal_key() && nx.on_or_before(ref_date)
                    && !past_end(end, nx)
            })
            &&& s.len() == 0 ==> !(cur.on_or_before(ref_date) && !past_end(end, cur))
        }),
    decreases ref_date.ordinal_key() - cur.ordinal_key(),
{
    let s = occurrences_from(freq, start, end, cur, ref_date);
    if cur.on_or_before(ref_date) && !past_end(end, cur) {
        let nx = next_occurrence(freq, start, cur);
        if nx.ordinal_key() > cur.ordinal_key() && nx.ordinal_key() <= ref_date.ordinal_key() {
            lemma_occurrences_shape(freq, start, end, nx, ref_date);
            let rest = occurrences_from(freq, start, end, nx, ref_date);
            assert(s == seq![cur] + rest);
            assert forall|k: int| 0 <= k < s.len() implies (#[trigger] s[k]).on_or_before(ref_date)
                && !past_end(end, s[k]) by {
                if k > 0 {
                    assert(s[k] == rest[k - 1]);
                }
            }
            assert forall|k: int| 0 <= k < s.len() - 1 implies #[trigger] s[k + 1]
                == next_occurrence(freq, start, s[k]) by {
                assert(s[k + 1] == rest[k]);
                if k > 0 {
                    assert(s[k] == rest[k - 1]);
                    assert(rest[(k - 1) + 1] == next_occurrence(freq, start, rest[k - 1]));
                } else {
                    assert(s[0] == cur);
                    assert(rest[0] == nx);
                }
            }
            if rest.len() > 0 {
                assert(s[s.len() - 1] == rest[rest.len() - 1]);
            }
        } else {
            assert(s == seq![cur]);
        }
    }
}

/// What a synchronisation generates: starting from the first occurrence
/// not yet processed (the start date, or the occurrence after the last one
/// processed), each occurrence is the one after the previous, every one lies
/// on or before the reference date and not after the end date, and the
/// occurrence after the last one generated is beyond the reference date or
/// the end date; when nothing is generated, the first pending occurrence is.
pub proof fn lemma_due_dates_shape(r: Recurrence, ref_date: Date)
    ensures
        ({
            let s = r.due_dates_spec(ref_date);
            let first = match r.last_processed_date {
                Some(l) => next_occurrence(r.frequency, r.start_date, l),
                None => r.start_date,
            };
            &&& forall|k: int|
                0 <= k < s.len() ==> (#[trigger] s[k]).on_or_before(ref_date) && !past_end(
                    r.end_date,
                    s[k],
                )
            &&& s.len() > 0 ==> s[0] == first
            &&& forall|k: int|
                0 <= k < s.len() - 1 ==> #[trigger] s[k + 1] == next_occurrence(
                    r.frequency,
                    r.start_date,
                    s[k],
                )
            &&& s.len() > 0 ==> !({
                let nx = next_occurrence(r.frequency, r.start_date, s[s.len() - 1]);
                nx.ordinal_key() > s[s.len() - 1].ordinal_key() && nx.on_or_before(ref_date)
                    && !past_end(r.end_date, nx)
            })
            &&& s.len() == 0 ==> !(first.on_or_before(ref_date) && !past_end(r.end_date, first))
        }),
{
    lemma_occurrences_shape(r.frequency, r.start_date, r.end_date, r.first_pending(), ref_date);
}

} // verus!
