//! Importing transactions from CSV rows: reading a raw row into a checked
//! record, and leaving out the records the database already holds.

use super::amount::decimal_from_str;
use super::date::{naive_date_from_str, Date};
use super::text::{
    chars_of, parse_i16, parse_i16_spec, push_chars, push_str_chars,
    split_chars, split_on, string_from_chars, trim, trim_chars, views,
};
use super::transaction::Transaction;
use super::types::{NonEmptyString, PositiveAmount};
use vstd::prelude::*;

verus! {

/// A CSV row as read, every column a text.
#[derive(Debug)]
pub struct RawCsvRecord {
    pub date: String,
    pub amount: String,
    pub description: String,
    pub category: String,
    pub tags: String,
    pub installments: String,
    pub source_type: String,
    pub source_name: String,
}

/// A CSV row with every column checked.
#[derive(Debug)]
pub struct ParsedCsvRecord {
    pub date: Date,
    pub amount: PositiveAmount,
    pub description: NonEmptyString,
    pub category: NonEmptyString,
    pub tags: Vec<NonEmptyString>,
    pub installment: Option<(i16, i16)>,
    pub source_type: NonEmptyString,
    pub source_name: NonEmptyString,
}

/// The texts of a sequence of non-empty strings.
pub open spec fn texts(v: Seq<NonEmptyString>) -> Seq<Seq<char>> {
    v.map_values(|t: NonEmptyString| t.view())
}

/// Two records hold the same values.
pub open spec fn same_record(a: ParsedCsvRecord, b: ParsedCsvRecord) -> bool {
    &&& a.date == b.date
    &&& a.amount.value() == b.amount.value()
    &&& a.description.view() == b.description.view()
    &&& a.category.view() == b.category.view()
    &&& texts(a.tags@) == texts(b.tags@)
    &&& a.installment == b.installment
    &&& a.source_type.view() == b.source_type.view()
    &&& a.source_name.view() == b.source_name.view()
}

fn clone_tags(tags: &Vec<NonEmptyString>) -> (r: Vec<NonEmptyString>)
    ensures
        texts(r@) == texts(tags@),
{
    let mut out: Vec<NonEmptyString> = Vec::new();
    let mut i: usize = 0;
    while i < tags.len()
        invariant
            i <= tags@.len(),
            out@.len() == i,
            forall|k: int| 0 <= k < i ==> (#[trigger] out@[k]).view() == tags@[k].view(),
        decreases tags@.len() - i,
    {
        out.push(tags[i].clone());
        i = i + 1;
    }
    assert(texts(out@) =~= texts(tags@));
    out
}

impl ParsedCsvRecord {
    /// A copy of the record.
    pub fn duplicate(&self) -> (r: ParsedCsvRecord)
        ensures
            same_record(r, *self),
    {
        ParsedCsvRecord {
            date: self.date,
            amount: self.amount,
            description: self.description.clone(),
            category: self.category.clone(),
            tags: clone_tags(&self.tags),
            installment: self.installment,
            source_type: self.source_type.clone(),
            source_name: self.source_name.clone(),
        }
    }
}

/// The trimmed, non-empty pieces among `pieces`, in order.
pub open spec fn nonempty_trimmed(pieces: Seq<Seq<char>>) -> Seq<Seq<char>>
    decreases pieces.len(),
{
    if pieces.len() == 0 {
        Seq::empty()
    } else {
        let rest = nonempty_trimmed(pieces.drop_last());
        if trim(pieces.last()).len() > 0 {
            rest.push(trim(pieces.last()))
        } else {
            rest
        }
    }
}

/// The tags of a tags column: none when it is blank, otherwise the trimmed,
/// non-empty pieces between `|` separators.
pub open spec fn tags_spec(tags: Seq<char>) -> Seq<Seq<char>> {
    if trim(tags).len() == 0 {
        Seq::empty()
    } else {
        nonempty_trimmed(split_on(tags, '|'))
    }
}

/// The installment column read as `current/total`: none when blank, an
/// error text when it is not two positive numbers separated by `/`.
pub open spec fn installment_spec(inst: Seq<char>) -> Result<Option<(i16, i16)>, Seq<char>> {
    if trim(inst).len() == 0 {
        Ok(None)
    } else {
        let parts = split_on(inst, '/');
        if parts.len() == 2 {
            match parse_i16_spec(parts[0]) {
                None => Err("Invalid current installment number: "@ + parts[0]),
                Some(c) => match parse_i16_spec(parts[1]) {
                    None => Err("Invalid total installments number: "@ + parts[1]),
                    Some(t) => if c <= 0 || t <= 0 {
                        Err("Invalid installment values: "@ + inst)
                    } else {
                        Ok(Some((c, t)))
                    },
                },
            }
        } else {
            Err("Invalid installment format (expected x/y): "@ + inst)
        }
    }
}

/// The first check a raw row fails, as the text of its error, or `None`
/// when the row is accepted. Checked in order: date, amount, description,
/// category, installments, source type, source name.
pub open spec fn csv_record_error(raw: RawCsvRecord) -> Option<Seq<char>> {
    if naive_date_from_str(raw.date@) is Err {
        Some("Invalid date: "@ + raw.date@)
    } else if decimal_from_str(raw.amount@) is None || decimal_from_str(raw.amount@).unwrap().0 <= 0 {
        Some("Invalid amount: "@ + raw.amount@)
    } else if trim(raw.description@).len() == 0 {
        Some("Empty description for: "@ + raw.description@)
    } else if trim(raw.category@).len() == 0 {
        Some("Empty category for: "@ + raw.description@)
    } else if installment_spec(raw.installments@) is Err {
        Some(installment_spec(raw.installments@)->Err_0)
    } else if trim(raw.source_type@).len() == 0 {
        Some("Invalid source type: "@ + raw.source_type@)
    } else if trim(raw.source_name@).len() == 0 {
        Some("Empty source name: "@ + raw.source_name@)
    } else {
        None
    }
}

/// A message: the characters of `prefix` followed by those of `tail`.
fn message(prefix: &str, tail: &Vec<char>) -> (r: String)
    ensures
        r@ == prefix@ + tail@,
{
    let mut v: Vec<char> = Vec::new();
    push_str_chars(&mut v, prefix);
    push_chars(&mut v, tail);
    string_from_chars(v.as_slice())
}

/// The tags of a tags column (see [`tags_spec`]).
fn parse_tags(tags: &Vec<char>) -> (r: Vec<NonEmptyString>)
    ensures
        texts(r@) == tags_spec(tags@),
{
    let t = trim_chars(tags);
    if t.len() == 0 {
        let out: Vec<NonEmptyString> = Vec::new();
        assert(texts(out@) =~= Seq::<Seq<char>>::empty());
        return out;
    }
    let pieces = split_chars(tags, '|');
    let mut out: Vec<NonEmptyString> = Vec::new();
    let mut i: usize = 0;
    while i < pieces.len()
        invariant
            i <= pieces@.len(),
            views(pieces@) == split_on(tags@, '|'),
            texts(out@) == nonempty_trimmed(views(pieces@).subrange(0, i as int)),
        decreases pieces@.len() - i,
    {
        let ghost before = texts(out@);
        let ghost sub = views(pieces@).subrange(0, i + 1);
        assert(sub.drop_last() =~= views(pieces@).subrange(0, i as int));
        assert(sub.last() == pieces@[i as int]@);
        match NonEmptyString::from_chars(&pieces[i]) {
            Ok(tag) => {
                out.push(tag);
                assert(texts(out@) =~= before.push(trim(pieces@[i as int]@)));
            },
            Err(_) => {},
        }
        i = i + 1;
    }
    assert(views(pieces@).subrange(0, pieces@.len() as int) =~= views(pieces@));
    out
}

/// The installment column (see [`installment_spec`]).
fn parse_installment(inst: &Vec<char>) -> (r: Result<Option<(i16, i16)>, String>)
    ensures
        match installment_spec(inst@) {
            Ok(v) => r == Ok::<Option<(i16, i16)>, String>(v),
            Err(e) => r is Err && r->Err_0@ == e,
        },
{
    let t = trim_chars(inst);
    if t.len() == 0 {
        return Ok(None);
    }
    let parts = split_chars(inst, '/');
    proof {
        assert(views(parts@).len() == parts@.len());
    }
    if parts.len() == 2 {
        assert(views(parts@)[0] == parts@[0]@);
        assert(views(parts@)[1] == parts@[1]@);
        let current = match parse_i16(&parts[0]) {
            Some(c) => c,
            None => {
                return Err(message("Invalid current installment number: ", &parts[0]));
            },
        };
        let total = match parse_i16(&parts[1]) {
            Some(t) => t,
            None => {
                return Err(message("Invalid total installments number: ", &parts[1]));
            },
        };
        if current <= 0 || total <= 0 {
            return Err(message("Invalid installment values: ", inst));
        }
        Ok(Some((current, total)))
    } else {
        Err(message("Invalid installment format (expected x/y): ", inst))
    }
}

/// `p` is what the accepted raw row `raw` reads as: every column parsed
/// and trimmed.
pub open spec fn parsed_from(raw: RawCsvRecord, p: ParsedCsvRecord) -> bool {
    &&& naive_date_from_str(raw.date@) == Ok::<(int, int, int), Seq<char>>(
        (p.date.year as int, p.date.month as int, p.date.day as int),
    )
    &&& p.date.wf()
    &&& decimal_from_str(raw.amount@) == Some(p.amount.value().parts())
    &&& p.description.view() == trim(raw.description@)
    &&& p.category.view() == trim(raw.category@)
    &&& texts(p.tags@) == tags_spec(raw.tags@)
    &&& installment_spec(raw.installments@) == Ok::<Option<(i16, i16)>, Seq<char>>(p.installment)
    &&& p.source_type.view() == trim(raw.source_type@)
    &&& p.source_name.view() == trim(raw.source_name@)
}

impl ParsedCsvRecord {
    /// Checks every column of a raw row (`TryFrom<RawCsvRecord>`); the
    /// error is the text of the first check that fails.
    pub fn try_from(raw: RawCsvRecord) -> (r: Result<ParsedCsvRecord, String>)
        ensures
            r is Ok <==> csv_record_error(raw) is None,
            r is Err ==> r->Err_0@ == csv_record_error(raw)->Some_0,
            r matches Ok(p) ==> parsed_from(raw, p),
    {
        Self::from_raw(&raw)
    }

    /// Checks every column of a raw row, as [`ParsedCsvRecord::try_from`]
    /// does, without taking the row.
    pub fn from_raw(raw: &RawCsvRecord) -> (r: Result<ParsedCsvRecord, String>)
        ensures
            r is Ok <==> csv_record_error(*raw) is None,
            r is Err ==> r->Err_0@ == csv_record_error(*raw)->Some_0,
            r matches Ok(p) ==> parsed_from(*raw, p),
    {
        let date = match Date::parse(raw.date.as_str()) {
            Ok(d) => d,
            Err(_) => {
                let tail = chars_of(raw.date.as_str());
                return Err(message("Invalid date: ", &tail));
            },
        };
        let amount = match PositiveAmount::from_str(raw.amount.as_str()) {
            Ok(a) => a,
            Err(_) => {
                let tail = chars_of(raw.amount.as_str());
                return Err(message("Invalid amount: ", &tail));
            },
        };
        let description = match NonEmptyString::from_str(raw.description.as_str()) {
            Ok(d) => d,
            Err(_) => {
                let tail = chars_of(raw.description.as_str());
                return Err(message("Empty description for: ", &tail));
            },
        };
        let category = match NonEmptyString::from_str(raw.category.as_str()) {
            Ok(c) => c,
            Err(_) => {
                let tail = chars_of(raw.description.as_str());
                return Err(message("Empty category for: ", &tail));
            },
        };
        let tag_chars = chars_of(raw.tags.as_str());
        let tags = parse_tags(&tag_chars);
        let inst_chars = chars_of(raw.installments.as_str());
        let installment = match parse_installment(&inst_chars) {
            Ok(i) => i,
            Err(e) => {
                return Err(e);
            },
        };
        let source_type = match NonEmptyString::from_str(raw.source_type.as_str()) {
            Ok(s) => s,
            Err(_) => {
                let tail = chars_of(raw.source_type.as_str());
                return Err(message("Invalid source type: ", &tail));
            },
        };
        let source_name = match NonEmptyString::from_str(raw.source_name.as_str()) {
            Ok(s) => s,
            Err(_) => {
                let tail = chars_of(raw.source_name.as_str());
                return Err(message("Empty source name: ", &tail));
            },
        };
        Ok(
            ParsedCsvRecord {
                date,
                amount,
                description,
                category,
                tags,
                installment,
                source_type,
                source_name,
            },
        )
    }
}

/// What identifies a movement when de-duplicating: its date, its amount (by
/// value) and its description.
pub open spec fn record_key(r: ParsedCsvRecord) -> (Date, int, Seq<char>) {
    (r.date, r.amount.value().scaled(), r.description.view())
}

/// The de-duplication key of a stored transaction.
pub open spec fn transaction_key(t: Transaction) -> (Date, int, Seq<char>) {
    (t.date, t.amount.value().scaled(), t.description.view())
}

/// The keys of a sequence of records.
pub open spec fn record_keys(s: Seq<ParsedCsvRecord>) -> Seq<(Date, int, Seq<char>)> {
    s.map_values(|r: ParsedCsvRecord| record_key(r))
}

/// The keys of a sequence of stored transactions.
pub open spec fn transaction_keys(s: Seq<Transaction>) -> Seq<(Date, int, Seq<char>)> {
    s.map_values(|t: Transaction| transaction_key(t))
}

/// How many of the first `n` keys equal `k`.
pub open spec fn count_key(keys: Seq<(Date, int, Seq<char>)>, k: (Date, int, Seq<char>), n: int) -> int
    decreases n,
{
    if n <= 0 {
        0
    } else {
        count_key(keys, k, n - 1) + (if keys[n - 1] == k {
            1int
        } else {
            0int
        })
    }
}

/// The number of records with a key that an import keeps, when the file
/// holds `in_file` of them and the database `stored`: the surplus of the
/// file over the database, or none.
pub open spec fn kept_count(in_file: int, stored: int) -> int {
    if in_file > stored {
        in_file - stored
    } else {
        0
    }
}

/// Whether the record at position `i` of the file is kept: the records
/// before it with its key already match every stored transaction with that
/// key. So of each key the first stored-count records are left out and the
/// rest are kept.
pub open spec fn keep_record(
    csv: Seq<(Date, int, Seq<char>)>,
    db: Seq<(Date, int, Seq<char>)>,
    i: int,
) -> bool {
    count_key(csv, csv[i], i) >= count_key(db, csv[i], db.len() as int)
}

/// For each record of the file, whether it is kept.
pub open spec fn keep_flags(csv: Seq<(Date, int, Seq<char>)>, db: Seq<(Date, int, Seq<char>)>) -> Seq<
    bool,
> {
    Seq::new(csv.len(), |i: int| keep_record(csv, db, i))
}

/// The positions of the kept records, in order.
pub open spec fn kept_positions(flags: Seq<bool>) -> Seq<int>
    decreases flags.len(),
{
    if flags.len() == 0 {
        Seq::empty()
    } else {
        let rest = kept_positions(flags.drop_last());
        if flags.last() {
            rest.push(flags.len() - 1)
        } else {
            rest
        }
    }
}

proof fn lemma_kept_positions_bounds(flags: Seq<bool>)
    ensures
        kept_positions(flags).len() <= flags.len(),
        forall|t: int|
            0 <= t < kept_positions(flags).len() ==> 0 <= #[trigger] kept_positions(flags)[t]
                < flags.len() && flags[kept_positions(flags)[t]],
        forall|a: int, b: int|
            0 <= a < b < kept_positions(flags).len() ==> kept_positions(flags)[a] < kept_positions(
                flags,
            )[b],
    decreases flags.len(),
{
    if flags.len() > 0 {
        let prev = flags.drop_last();
        lemma_kept_positions_bounds(prev);
        let rest = kept_positions(prev);
        assert forall|t: int| 0 <= t < kept_positions(flags).len() implies 0
            <= #[trigger] kept_positions(flags)[t] < flags.len() && flags[kept_positions(
            flags,
        )[t]] by {
            if t < rest.len() {
                assert(kept_positions(flags)[t] == rest[t]);
                assert(prev[rest[t]] == flags[rest[t]]);
            }
        }
        assert forall|a: int, b: int| 0 <= a < b < kept_positions(flags).len() implies kept_positions(
            flags,
        )[a] < kept_positions(flags)[b] by {
            assert(kept_positions(flags)[a] == rest[a]);
            if b < rest.len() {
                assert(kept_positions(flags)[b] == rest[b]);
            } else {
                assert(0 <= rest[a] < prev.len());
            }
        }
    }
}

proof fn lemma_kept_positions_none(flags: Seq<bool>)
    requires
        forall|i: int| 0 <= i < flags.len() ==> !#[trigger] flags[i],
    ensures
        kept_positions(flags).len() == 0,
    decreases flags.len(),
{
    if flags.len() > 0 {
        let prev = flags.drop_last();
        assert forall|i: int| 0 <= i < prev.len() implies !#[trigger] prev[i] by {
            assert(prev[i] == flags[i]);
        }
        lemma_kept_positions_none(prev);
    }
}

/// Whether two records have the same key.
fn same_key_records(a: &ParsedCsvRecord, b: &ParsedCsvRecord) -> (r: bool)
    ensures
        r == (record_key(*a) == record_key(*b)),
{
    a.date == b.date && a.amount.same_value(&b.amount) && a.description.equals(&b.description)
}

/// Whether a stored transaction has the key of a record.
fn same_key_transaction(t: &Transaction, b: &ParsedCsvRecord) -> (r: bool)
    ensures
        r == (transaction_key(*t) == record_key(*b)),
{
    t.date == b.date && t.amount.same_value(&b.amount) && t.description.equals(&b.description)
}

/// The number of the first `n` records with the key of `target`.
fn count_records_before(csv: &Vec<ParsedCsvRecord>, n: usize, target: &ParsedCsvRecord) -> (r: usize)
    requires
        n <= csv@.len(),
    ensures
        r == count_key(record_keys(csv@), record_key(*target), n as int),
{
    let mut c: usize = 0;
    let mut j: usize = 0;
    while j < n
        invariant
            j <= n <= csv@.len(),
            c <= j,
            c == count_key(record_keys(csv@), record_key(*target), j as int),
        decreases n - j,
    {
        if same_key_records(&csv[j], target) {
            c = c + 1;
        }
        j = j + 1;
    }
    c
}

/// The number of stored transactions with the key of `target`.
fn count_transactions(db: &[Transaction], target: &ParsedCsvRecord) -> (r: usize)
    ensures
        r == count_key(transaction_keys(db@), record_key(*target), db@.len() as int),
{
    let mut n: usize = 0;
    let mut j: usize = 0;
    while j < db.len()
        invariant
            j <= db@.len(),
            n <= j,
            n == count_key(transaction_keys(db@), record_key(*target), j as int),
        decreases db@.len() - j,
    {
        if same_key_transaction(&db[j], target) {
            n = n + 1;
        }
        j = j + 1;
    }
    n
}

proof fn lemma_count_key_grows(keys: Seq<(Date, int, Seq<char>)>, k: (Date, int, Seq<char>), a: int, b: int)
    requires
        0 <= a <= b,
    ensures
        count_key(keys, k, a) <= count_key(keys, k, b),
        a < b && keys[a] == k ==> count_key(keys, k, a) + 1 <= count_key(keys, k, b),
    decreases b - a,
{
    if a < b {
        lemma_count_key_grows(keys, k, a, b - 1);
        assert(count_key(keys, k, b) == count_key(keys, k, b - 1) + (if keys[b - 1] == k {
            1int
        } else {
            0int
        }));
    }
}

proof fn lemma_count_key_nonneg(keys: Seq<(Date, int, Seq<char>)>, k: (Date, int, Seq<char>), n: int)
    requires
        0 <= n,
    ensures
        count_key(keys, k, n) >= 0,
{
    lemma_count_key_grows(keys, k, 0, n);
}

proof fn lemma_count_key_prefix(
    a: Seq<(Date, int, Seq<char>)>,
    b: Seq<(Date, int, Seq<char>)>,
    k: (Date, int, Seq<char>),
    n: int,
)
    requires
        0 <= n <= a.len(),
    ensures
        count_key(a + b, k, n) == count_key(a, k, n),
    decreases n,
{
    if n > 0 {
        lemma_count_key_prefix(a, b, k, n - 1);
        assert((a + b)[n - 1] == a[n - 1]);
    }
}

proof fn lemma_count_key_concat(
    a: Seq<(Date, int, Seq<char>)>,
    b: Seq<(Date, int, Seq<char>)>,
    k: (Date, int, Seq<char>),
    j: int,
)
    requires
        0 <= j <= b.len(),
    ensures
        count_key(a + b, k, a.len() + j) == count_key(a, k, a.len() as int) + count_key(b, k, j),
    decreases j,
{
    if j == 0 {
        lemma_count_key_prefix(a, b, k, a.len() as int);
    } else {
        lemma_count_key_concat(a, b, k, j - 1);
        assert((a + b)[a.len() + j - 1] == b[j - 1]);
    }
}

proof fn lemma_count_key_push(s: Seq<(Date, int, Seq<char>)>, x: (Date, int, Seq<char>), k: (Date, int, Seq<char>))
    ensures
        count_key(s.push(x), k, s.len() + 1int) == count_key(s, k, s.len() as int) + (if x == k {
            1int
        } else {
            0int
        }),
{
    assert(s.push(x) =~= s + seq![x]);
    lemma_count_key_prefix(s, seq![x], k, s.len() as int);
}

/// The records of a CSV file that are not yet in the database. Records
/// match stored transactions by date, amount (by value) and description. Of
/// the records sharing a key, as many are kept as the file holds more than
/// the database: the first ones, as many as are stored, are left out (see
/// [`keep_record`]). The kept records are copies, in their order in the file.
pub fn deduplicate_records(csv_records: &Vec<ParsedCsvRecord>, db_transactions: &[Transaction]) -> (r:
    Vec<ParsedCsvRecord>)
    ensures
        ({
            let ck = record_keys(csv_records@);
            let dk = transaction_keys(db_transactions@);
            let kept = kept_positions(keep_flags(ck, dk));
            &&& r@.len() == kept.len()
            &&& r@.len() <= csv_records@.len()
            &&& forall|t: int|
                0 <= t < r@.len() ==> 0 <= kept[t] < csv_records@.len() && same_record(
                    #[trigger] r@[t],
                    csv_records@[kept[t]],
                )
            &&& forall|a: int, b: int| 0 <= a < b < r@.len() ==> kept[a] < kept[b]
            &&& forall|k: (Date, int, Seq<char>)|
                #[trigger] count_key(record_keys(r@), k, r@.len() as int) == kept_count(
                    count_key(ck, k, ck.len() as int),
                    count_key(dk, k, dk.len() as int),
                )
        }),
{
    let ghost ck = record_keys(csv_records@);
    let ghost dk = transaction_keys(db_transactions@);
    let ghost mut flags: Seq<bool> = Seq::empty();
    let mut out: Vec<ParsedCsvRecord> = Vec::new();
    proof {
        assert forall|k: (Date, int, Seq<char>)|
            #[trigger] count_key(record_keys(out@), k, out@.len() as int) == kept_count(
                count_key(ck, k, 0),
                count_key(dk, k, dk.len() as int),
            ) by {
            lemma_count_key_nonneg(dk, k, dk.len() as int);
        }
    }
    let mut i: usize = 0;
    while i < csv_records.len()
        invariant
            i <= csv_records@.len(),
            ck == record_keys(csv_records@),
            dk == transaction_keys(db_transactions@),
            flags.len() == i,
            forall|j: int| 0 <= j < i ==> #[trigger] flags[j] == keep_record(ck, dk, j),
            out@.len() == kept_positions(flags).len(),
            forall|t: int|
                0 <= t < out@.len() ==> same_record(
                    #[trigger] out@[t],
                    csv_records@[kept_positions(flags)[t]],
                ),
            forall|k: (Date, int, Seq<char>)|
                #[trigger] count_key(record_keys(out@), k, out@.len() as int) == kept_count(
                    count_key(ck, k, i as int),
                    count_key(dk, k, dk.len() as int),
                ),
        decreases csv_records@.len() - i,
    {
        let rec = &csv_records[i];
        let before = count_records_before(csv_records, i, rec);
        let stored = count_transactions(db_transactions, rec);
        let keep = before >= stored;
        let ghost old_flags = flags;
        let ghost old_out = out@;
        proof {
            assert(ck[i as int] == record_key(csv_records@[i as int]));
            flags = flags.push(keep);
            assert(flags.drop_last() =~= old_flags);
        }
        if keep {
            let copy = rec.duplicate();
            out.push(copy);
            proof {
                assert(kept_positions(flags) == kept_positions(old_flags).push(i as int));
                assert forall|t: int| 0 <= t < out@.len() implies same_record(
                    #[trigger] out@[t],
                    csv_records@[kept_positions(flags)[t]],
                ) by {
                    if t < old_out.len() {
                        assert(out@[t] == old_out[t]);
                    }
                }
                assert(record_keys(out@) =~= record_keys(old_out).push(ck[i as int]));
            }
        } else {
            proof {
                assert(kept_positions(flags) == kept_positions(old_flags));
            }
        }
        proof {
            let ki = ck[i as int];
            assert forall|k: (Date, int, Seq<char>)|
                #[trigger] count_key(record_keys(out@), k, out@.len() as int) == kept_count(
                    count_key(ck, k, i + 1),
                    count_key(dk, k, dk.len() as int),
                ) by {
                assert(count_key(ck, k, i + 1) == count_key(ck, k, i as int) + (if ck[i as int] == k {
                    1int
                } else {
                    0int
                }));
                if keep {
                    lemma_count_key_push(record_keys(old_out), ki, k);
                }
            }
        }
        i = i + 1;
    }
    proof {
        assert(flags =~= keep_flags(ck, dk));
        lemma_kept_positions_bounds(flags);
    }
    out
}

/// Re-importing a file keeps nothing: once the records an import keeps are
/// stored (as many of each key as the file holds more than the database),
/// a second import of the same file leaves every record out.
pub proof fn lemma_reimport_keeps_nothing(
    csv: Seq<(Date, int, Seq<char>)>,
    db: Seq<(Date, int, Seq<char>)>,
    added: Seq<(Date, int, Seq<char>)>,
)
    requires
        forall|k: (Date, int, Seq<char>)|
            #[trigger] count_key(added, k, added.len() as int) == kept_count(
                count_key(csv, k, csv.len() as int),
                count_key(db, k, db.len() as int),
            ),
    ensures
        forall|i: int| 0 <= i < csv.len() ==> !#[trigger] keep_record(csv, db + added, i),
        kept_positions(keep_flags(csv, db + added)).len() == 0,
{
    let db2 = db + added;
    assert forall|i: int| 0 <= i < csv.len() implies !#[trigger] keep_record(csv, db2, i) by {
        let k = csv[i];
        lemma_count_key_concat(db, added, k, added.len() as int);
        assert(count_key(added, k, added.len() as int) == kept_count(
            count_key(csv, k, csv.len() as int),
            count_key(db, k, db.len() as int),
        ));
        lemma_count_key_grows(csv, k, i, csv.len() as int);
        assert(db2.len() == db.len() + added.len());
    }
    let flags = keep_flags(csv, db2);
    assert forall|i: int| 0 <= i < flags.len() implies !#[trigger] flags[i] by {
        assert(flags[i] == keep_record(csv, db2, i));
    }
    lemma_kept_positions_none(flags);
}

/// An installments column of two numbers above zero, `c/t`, reads as
/// `(c, t)` whichever of the two is larger; a blank column reads as no
/// installment; and what is read is always two numbers above zero.
pub proof fn lemma_installment_column_read(inst: Seq<char>, c: i16, t: i16)
    ensures
        trim(inst).len() == 0 ==> installment_spec(inst) == Ok::<Option<(i16, i16)>, Seq<char>>(
            None,
        ),
        trim(inst).len() > 0 && split_on(inst, '/').len() == 2 && parse_i16_spec(
            split_on(inst, '/')[0],
        ) == Some(c) && parse_i16_spec(split_on(inst, '/')[1]) == Some(t) && c > 0 && t > 0
            ==> installment_spec(inst) == Ok::<Option<(i16, i16)>, Seq<char>>(Some((c, t))),
        installment_spec(inst) == Ok::<Option<(i16, i16)>, Seq<char>>(Some((c, t))) ==> c > 0
            && t > 0,
{
}

/// Two records have the same de-duplication key exactly when their dates,
/// amounts (by value) and descriptions are equal; likewise a record and a
/// stored transaction.
pub proof fn lemma_keys_compare_date_amount_description(
    a: ParsedCsvRecord,
    b: ParsedCsvRecord,
    t: Transaction,
)
    ensures
        record_key(a) == record_key(b) <==> (a.date == b.date && a.amount.value().scaled()
            == b.amount.value().scaled() && a.description.view() == b.description.view()),
        transaction_key(t) == record_key(a) <==> (t.date == a.date && t.amount.value().scaled()
            == a.amount.value().scaled() && t.description.view() == a.description.view()),
{
}

proof fn lemma_count_key_absent(keys: Seq<(Date, int, Seq<char>)>, k: (Date, int, Seq<char>), n: int)
    requires
        0 <= n <= keys.len(),
        forall|j: int| 0 <= j < n ==> keys[j] != k,
    ensures
        count_key(keys, k, n) == 0,
    decreases n,
{
    if n > 0 {
        lemma_count_key_absent(keys, k, n - 1);
    }
}

proof fn lemma_kept_position_found(flags: Seq<bool>, i: int)
    requires
        0 <= i < flags.len(),
        flags[i],
    ensures
        exists|t: int| 0 <= t < kept_positions(flags).len() && kept_positions(flags)[t] == i,
    decreases flags.len(),
{
    let prev = flags.drop_last();
    if i == flags.len() - 1 {
        let t = kept_positions(prev).len() as int;
        assert(kept_positions(flags)[t] == i);
    } else {
        assert(prev[i] == flags[i]);
        lemma_kept_position_found(prev, i);
        let t = choose|t: int| 0 <= t < kept_positions(prev).len() && kept_positions(prev)[t] == i;
        assert(kept_positions(flags)[t] == i);
    }
}

/// A record of the file that no stored transaction matches on date, amount
/// (by value) and description is kept: it is among the records an import
/// returns.
pub proof fn lemma_record_without_stored_match_kept(
    csv: Seq<ParsedCsvRecord>,
    db: Seq<Transaction>,
    i: int,
)
    requires
        0 <= i < csv.len(),
        forall|j: int|
            0 <= j < db.len() ==> (#[trigger] db[j]).date != csv[i].date
                || db[j].amount.value().scaled() != csv[i].amount.value().scaled()
                || db[j].description.view() != csv[i].description.view(),
    ensures
        keep_flags(record_keys(csv), transaction_keys(db))[i],
        exists|t: int|
            0 <= t < kept_positions(keep_flags(record_keys(csv), transaction_keys(db))).len()
                && kept_positions(keep_flags(record_keys(csv), transaction_keys(db)))[t] == i,
{
    let ck = record_keys(csv);
    let dk = transaction_keys(db);
    let k = ck[i];
    assert forall|j: int| 0 <= j < dk.len() implies dk[j] != k by {
        assert(dk[j] == transaction_key(db[j]));
    }
    lemma_count_key_absent(dk, k, dk.len() as int);
    lemma_count_key_nonneg(ck, k, i);
    lemma_kept_position_found(keep_flags(ck, dk), i);
}

/// A row is accepted exactly when every column passes its check: a date,
/// an amount above zero, a description, a category, a blank or valid
/// installments column, a source type and a source name; and a refused row
/// reports the text of a failed check about the column it names.
pub proof fn lemma_row_accepted_when_every_column_passes(raw: RawCsvRecord)
    ensures
        csv_record_error(raw) is None <==> {
            &&& naive_date_from_str(raw.date@) is Ok
            &&& decimal_from_str(raw.amount@) is Some
            &&& decimal_from_str(raw.amount@).unwrap().0 > 0
            &&& trim(raw.description@).len() > 0
            &&& trim(raw.category@).len() > 0
            &&& installment_spec(raw.installments@) is Ok
            &&& trim(raw.source_type@).len() > 0
            &&& trim(raw.source_name@).len() > 0
        },
        naive_date_from_str(raw.date@) is Err ==> csv_record_error(raw) == Some(
            "Invalid date: "@ + raw.date@,
        ),
{
}

} // verus!
