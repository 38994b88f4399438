use vstd::prelude::*;
use crate::date::Date;

verus! {

/// The five top-level account categories.
#[derive(Clone, Copy, Debug, PartialEq, Eq)]
pub enum AccountType {
    Assets,
    Liabilities,
    Equity,
    Income,
    Expenses,
}

/// An account: its category and the path segments below it.
#[derive(Clone, Debug)]
pub struct Account {
    pub ty: AccountType,
    pub parts: Vec<String>,
}

/// A number with its currency. `num` is the number in decimal notation.
#[derive(Clone, Debug)]
pub struct Amount {
    pub num: String,
    pub currency: String,
}

/// An amount whose number and currency may each be left for inference.
#[derive(Clone, Debug)]
pub struct IncompleteAmount {
    pub num: Option<String>,
    pub currency: Option<String>,
}

/// The acquisition cost of a lot.
#[derive(Clone, Debug)]
pub struct CostSpec {
    pub number_per: Option<String>,
    pub number_total: Option<String>,
    pub currency: Option<String>,
    pub date: Option<Date>,
    pub label: Option<String>,
}

/// A transaction or posting flag.
#[derive(Clone, Debug)]
pub enum Flag {
    Okay,
    Warning,
    Other(String),
}

/// Inventory booking method of an account.
#[derive(Clone, Copy, Debug, PartialEq, Eq)]
pub enum Booking {
    Strict,
    Average,
    Fifo,
    Lifo,
    Unspecified,
}

/// Metadata: key and value pairs, written out in the order they are held.
/// The ledger model gives each key at most once.
#[derive(Clone, Debug)]
pub struct Meta {
    pub entries: Vec<(String, String)>,
}

impl Meta {
    /// Each key occurs at most once.
    pub open spec fn wf(&self) -> bool {
        forall|i: int, j: int|
            0 <= i < j < self.entries@.len() ==> self.entries@[i].0@ != self.entries@[j].0@
    }

    /// No entries.
    pub fn new() -> (r: Meta)
        ensures
            r.wf(),
            r.entries@.len() == 0,
    {
        Meta { entries: Vec::new() }
    }

    /// Sets the value of `key`: in place where the key is present, else as a
    /// new last entry.
    pub fn insert(&mut self, key: String, value: String)
        requires
            old(self).wf(),
        ensures
            final(self).wf(),
            forall|i: int|
                0 <= i < old(self).entries@.len() && old(self).entries@[i].0@ == key@
                    ==> final(self).entries@ == old(self).entries@.update(i, (key, value)),
            (forall|i: int|
                0 <= i < old(self).entries@.len() ==> old(self).entries@[i].0@ != key@)
                ==> final(self).entries@ == old(self).entries@.push((key, value)),
    {
        let mut i: usize = 0;
        while i < self.entries.len()
            invariant
                i <= self.entries@.len(),
                *self == *old(self),
                old(self).wf(),
                forall|j: int| 0 <= j < i ==> self.entries@[j].0@ != key@,
            decreases self.entries@.len() - i,
        {
            if self.entries[i].0 == key {
                self.entries.set(i, (key, value));
                return;
            }
            i = i + 1;
        }
        self.entries.push((key, value));
    }
}

#[derive(Clone, Debug)]
pub struct Open {
    pub date: Date,
    pub account: Account,
    pub currencies: Vec<String>,
    pub booking: Booking,
    pub meta: Meta,
}

#[derive(Clone, Debug)]
pub struct Close {
    pub date: Date,
    pub account: Account,
    pub meta: Meta,
}

#[derive(Clone, Debug)]
pub struct Balance {
    pub date: Date,
    pub account: Account,
    pub amount: Amount,
    pub meta: Meta,
}

/// A ledger option: name and value.
#[derive(Clone, Debug)]
pub struct BcOption {
    pub name: String,
    pub val: String,
}

#[derive(Clone, Debug)]
pub struct Commodity {
    pub date: Date,
    pub name: String,
    pub meta: Meta,
}

#[derive(Clone, Debug)]
pub struct Custom {
    pub date: Date,
    pub name: String,
    pub args: Vec<String>,
    pub meta: Meta,
}

#[derive(Clone, Debug)]
pub struct Document {
    pub date: Date,
    pub account: Account,
    pub path: String,
    pub meta: Meta,
}

#[derive(Clone, Debug)]
pub struct Event {
    pub date: Date,
    pub name: String,
    pub description: String,
    pub meta: Meta,
}

#[derive(Clone, Debug)]
pub struct Include {
    pub filename: String,
}

#[derive(Clone, Debug)]
pub struct Note {
    pub date: Date,
    pub account: Account,
    pub comment: String,
    pub meta: Meta,
}

#[derive(Clone, Debug)]
pub struct Pad {
    pub date: Date,
    pub pad_to_account: Account,
    pub pad_from_account: Account,
    pub meta: Meta,
}

#[derive(Clone, Debug)]
pub struct Plugin {
    pub module: String,
    pub config: Option<String>,
}

#[derive(Clone, Debug)]
pub struct Price {
    pub date: Date,
    pub currency: String,
    pub amount: Amount,
    pub meta: Meta,
}

#[derive(Clone, Debug)]
pub struct Query {
    pub date: Date,
    pub name: String,
    pub query_string: String,
    pub meta: Meta,
}

#[derive(Clone, Debug)]
pub struct Posting {
    pub flag: Option<Flag>,
    pub account: Account,
    pub units: IncompleteAmount,
    pub price: Option<Amount>,
    pub cost: Option<CostSpec>,
    pub meta: Meta,
}

#[derive(Clone, Debug)]
pub struct Transaction {
    pub date: Date,
    pub flag: Flag,
    pub payee: Option<String>,
    pub narration: String,
    pub tags: Vec<String>,
    pub links: Vec<String>,
    pub postings: Vec<Posting>,
    pub meta: Meta,
}

/// One top-level statement of a ledger. `Unsupported` stands for a statement
/// that the ledger model could not classify.
#[derive(Clone, Debug)]
pub enum Directive {
    Open(Open),
    Close(Close),
    Balance(Balance),
    BcOption(BcOption),
    Commodity(Commodity),
    Custom(Custom),
    Document(Document),
    Event(Event),
    Include(Include),
    Note(Note),
    Pad(Pad),
    Plugin(Plugin),
    Price(Price),
    Query(Query),
    Transaction(Transaction),
    Unsupported,
}

/// A ledger document: its directives in order.
#[derive(Clone, Debug)]
pub struct Ledger {
    pub directives: Vec<Directive>,
}

// ---- Text of each node ----

/// The elements of `s` separated by `sep`.
pub open spec fn join(s: Seq<String>, sep: Seq<char>) -> Seq<char>
    decreases s.len(),
{
    if s.len() == 0 {
        Seq::empty()
    } else if s.len() == 1 {
        s[0]@
    } else {
        join(s.drop_last(), sep) + sep + s.last()@
    }
}

/// Each element of `s` preceded by `pre`, one after the other.
pub open spec fn prefixed(s: Seq<String>, pre: Seq<char>) -> Seq<char>
    decreases s.len(),
{
    if s.len() == 0 {
        Seq::empty()
    } else {
        prefixed(s.drop_last(), pre) + pre + s.last()@
    }
}

/// `"s"`: the text between double quotes, not escaped.
pub open spec fn quoted(s: Seq<char>) -> Seq<char> {
    seq!['"'] + s + seq!['"']
}

/// One line per entry: a tab, the key, `: `, the value.
pub open spec fn meta_lines(m: Seq<(String, String)>) -> Seq<char>
    decreases m.len(),
{
    if m.len() == 0 {
        Seq::empty()
    } else {
        meta_lines(m.drop_last()) + seq!['\t'] + m.last().0@ + seq![':', ' '] + m.last().1@
            + seq!['\n']
    }
}

pub open spec fn meta_text(m: Meta) -> Seq<char> {
    meta_lines(m.entries@)
}

pub open spec fn account_type_name(t: AccountType) -> Seq<char> {
    match t {
        AccountType::Assets => seq!['A', 's', 's', 'e', 't', 's'],
        AccountType::Liabilities => seq!['L', 'i', 'a', 'b', 'i', 'l', 'i', 't', 'i', 'e', 's'],
        AccountType::Equity => seq!['E', 'q', 'u', 'i', 't', 'y'],
        AccountType::Income => seq!['I', 'n', 'c', 'o', 'm', 'e'],
        AccountType::Expenses => seq!['E', 'x', 'p', 'e', 'n', 's', 'e', 's'],
    }
}

/// The type name and the segments joined with `:`: `Type:part1:part2`, or
/// `Type` alone for an account with no segments.
pub open spec fn account_text(a: Account) -> Seq<char> {
    account_type_name(a.ty) + prefixed(a.parts@, seq![':'])
}

/// `number currency`.
pub open spec fn amount_text(a: Amount) -> Seq<char> {
    a.num@ + seq![' '] + a.currency@
}

/// Number and currency with a space between where both are present, the one
/// present alone, or nothing.
pub open spec fn incomplete_amount_text(a: IncompleteAmount) -> Seq<char> {
    match (a.num, a.currency) {
        (Some(n), Some(c)) => n@ + seq![' '] + c@,
        (None, Some(c)) => c@,
        (Some(n), None) => n@,
        (None, None) => Seq::empty(),
    }
}

pub open spec fn flag_text(f: Flag) -> Seq<char> {
    match f {
        Flag::Okay => seq!['*'],
        Flag::Warning => seq!['!'],
        Flag::Other(s) => s@,
    }
}

/// The cost number shown: the total where there is one, else the per-unit number.
pub open spec fn cost_number(c: CostSpec) -> Option<String> {
    if c.number_total is Some { c.number_total } else { c.number_per }
}

/// The fields of a cost spec that are present, in order, comma-separated:
/// number and currency (only where both are present), date, label.
pub open spec fn cost_fields(c: CostSpec) -> Seq<char> {
    let first = match (cost_number(c), c.currency) {
        (Some(n), Some(cur)) => n@ + seq![' '] + cur@,
        _ => Seq::empty(),
    };
    let has_first = cost_number(c) is Some && c.currency is Some;
    let with_date = match c.date {
        Some(d) => if has_first { first + seq![',', ' '] + d.text() } else { d.text() },
        None => first,
    };
    let has_date = has_first || c.date is Some;
    match c.label {
        Some(l) => if has_date { with_date + seq![',', ' '] + l@ } else { l@ },
        None => with_date,
    }
}

/// `{{fields}}` where a total number is given, else `{fields}`.
pub open spec fn cost_text(c: CostSpec) -> Seq<char> {
    if c.number_total is Some {
        seq!['{', '{'] + cost_fields(c) + seq!['}', '}']
    } else {
        seq!['{'] + cost_fields(c) + seq!['}']
    }
}

pub open spec fn booking_suffix(b: Booking) -> Seq<char> {
    match b {
        Booking::Strict => seq![' '] + quoted(seq!['s', 't', 'r', 'i', 'c', 't']),
        Booking::Average => seq![' '] + quoted(seq!['a', 'v', 'e', 'r', 'a', 'g', 'e']),
        Booking::Fifo => seq![' '] + quoted(seq!['f', 'i', 'f', 'o']),
        Booking::Lifo => seq![' '] + quoted(seq!['l', 'i', 'f', 'o']),
        Booking::Unspecified => Seq::empty(),
    }
}

/// A date, a space, a keyword and a space.
pub open spec fn head(d: Date, keyword: Seq<char>) -> Seq<char> {
    d.text() + seq![' '] + keyword + seq![' ']
}

pub open spec fn open_text(o: Open) -> Seq<char> {
    head(o.date, seq!['o', 'p', 'e', 'n']) + account_text(o.account) + prefixed(
        o.currencies@,
        seq![' '],
    ) + booking_suffix(o.booking) + seq!['\n'] + meta_text(o.meta)
}

pub open spec fn close_text(c: Close) -> Seq<char> {
    head(c.date, seq!['c', 'l', 'o', 's', 'e']) + account_text(c.account) + seq!['\n']
        + meta_text(c.meta)
}

pub open spec fn balance_text(b: Balance) -> Seq<char> {
    head(b.date, seq!['b', 'a', 'l', 'a', 'n', 'c', 'e']) + account_text(b.account) + seq!['\t']
        + amount_text(b.amount) + seq!['\n'] + meta_text(b.meta)
}

pub open spec fn option_text(o: BcOption) -> Seq<char> {
    seq!['o', 'p', 't', 'i', 'o', 'n', ' '] + quoted(o.name@) + seq![' '] + quoted(o.val@)
        + seq!['\n']
}

pub open spec fn commodity_text(c: Commodity) -> Seq<char> {
    head(c.date, seq!['c', 'o', 'm', 'm', 'o', 'd', 'i', 't', 'y']) + c.name@ + seq!['\n']
        + meta_text(c.meta)
}

pub open spec fn custom_text(c: Custom) -> Seq<char> {
    head(c.date, seq!['c', 'u', 's', 't', 'o', 'm']) + quoted(c.name@) + seq![' '] + join(
        c.args@,
        seq![' '],
    ) + seq!['\n'] + meta_text(c.meta)
}

pub open spec fn document_text(d: Document) -> Seq<char> {
    head(d.date, seq!['d', 'o', 'c', 'u', 'm', 'e', 'n', 't']) + account_text(d.account)
        + seq![' '] + quoted(d.path@) + seq!['\n'] + meta_text(d.meta)
}

pub open spec fn event_text(e: Event) -> Seq<char> {
    head(e.date, seq!['e', 'v', 'e', 'n', 't']) + quoted(e.name@) + seq![' '] + quoted(
        e.description@,
    ) + seq!['\n'] + meta_text(e.meta)
}

pub open spec fn include_text(i: Include) -> Seq<char> {
    seq!['i', 'n', 'c', 'l', 'u', 'd', 'e', ' '] + i.filename@ + seq!['\n']
}

pub open spec fn note_text(n: Note) -> Seq<char> {
    head(n.date, seq!['n', 'o', 't', 'e']) + account_text(n.account) + seq![' '] + quoted(
        n.comment@,
    ) + seq!['\n'] + meta_text(n.meta)
}

pub open spec fn pad_text(p: Pad) -> Seq<char> {
    head(p.date, seq!['p', 'a', 'd']) + account_text(p.pad_to_account) + seq![' ']
        + account_text(p.pad_from_account) + seq!['\n'] + meta_text(p.meta)
}

pub open spec fn plugin_text(p: Plugin) -> Seq<char> {
    seq!['p', 'l', 'u', 'g', 'i', 'n', ' '] + quoted(p.module@) + match p.config {
        Some(c) => seq![' '] + quoted(c@),
        None => Seq::empty(),
    } + seq!['\n']
}

pub open spec fn price_text(p: Price) -> Seq<char> {
    head(p.date, seq!['p', 'r', 'i', 'c', 'e']) + p.currency@ + seq![' '] + amount_text(p.amount)
        + seq!['\n'] + meta_text(p.meta)
}

pub open spec fn query_text(q: Query) -> Seq<char> {
    head(q.date, seq!['q', 'u', 'e', 'r', 'y']) + quoted(q.name@) + seq![' '] + quoted(
        q.query_string@,
    ) + seq!['\n'] + meta_text(q.meta)
}

/// The posting's flag and a space, where it has a flag.
pub open spec fn posting_flag_part(p: Posting) -> Seq<char> {
    match p.flag {
        Some(f) => flag_text(f) + seq![' '],
        None => Seq::empty(),
    }
}

/// ` @ price`, where the posting has a price.
pub open spec fn posting_price_part(p: Posting) -> Seq<char> {
    match p.price {
        Some(a) => seq![' ', '@', ' '] + amount_text(a),
        None => Seq::empty(),
    }
}

/// ` cost`, where the posting has a cost spec.
pub open spec fn posting_cost_part(p: Posting) -> Seq<char> {
    match p.cost {
        Some(c) => seq![' '] + cost_text(c),
        None => Seq::empty(),
    }
}

/// A tab, the flag and a space where one is given, the account, a tab, the
/// units, ` @ price` and ` cost` where given, a newline, then the metadata.
pub open spec fn posting_text(p: Posting) -> Seq<char> {
    seq!['\t'] + posting_flag_part(p) + account_text(p.account) + seq!['\t']
        + incomplete_amount_text(p.units) + posting_price_part(p) + posting_cost_part(p)
        + seq!['\n'] + meta_text(p.meta)
}

pub open spec fn postings_text(ps: Seq<Posting>) -> Seq<char>
    decreases ps.len(),
{
    if ps.len() == 0 {
        Seq::empty()
    } else {
        postings_text(ps.drop_last()) + posting_text(ps.last())
    }
}

/// The header line `date flag ["payee"] "narration" tags links`, then the
/// postings, then the metadata.
pub open spec fn transaction_header(t: Transaction) -> Seq<char> {
    t.date.text() + seq![' '] + flag_text(t.flag) + match t.payee {
        Some(p) => seq![' '] + quoted(p@),
        None => Seq::empty(),
    } + seq![' '] + quoted(t.narration@) + prefixed(t.tags@, seq![' ']) + prefixed(
        t.links@,
        seq![' '],
    ) + seq!['\n']
}

pub open spec fn transaction_text(t: Transaction) -> Seq<char> {
    transaction_header(t) + postings_text(t.postings@) + meta_text(t.meta)
}

/// The text of a supported directive; nothing for `Unsupported`.
pub open spec fn directive_text(d: Directive) -> Seq<char> {
    match d {
        Directive::Open(x) => open_text(x),
        Directive::Close(x) => close_text(x),
        Directive::Balance(x) => balance_text(x),
        Directive::BcOption(x) => option_text(x),
        Directive::Commodity(x) => commodity_text(x),
        Directive::Custom(x) => custom_text(x),
        Directive::Document(x) => document_text(x),
        Directive::Event(x) => event_text(x),
        Directive::Include(x) => include_text(x),
        Directive::Note(x) => note_text(x),
        Directive::Pad(x) => pad_text(x),
        Directive::Plugin(x) => plugin_text(x),
        Directive::Price(x) => price_text(x),
        Directive::Query(x) => query_text(x),
        Directive::Transaction(x) => transaction_text(x),
        Directive::Unsupported => Seq::empty(),
    }
}

/// Each directive's text followed by a blank line.
pub open spec fn directives_text(ds: Seq<Directive>) -> Seq<char>
    decreases ds.len(),
{
    if ds.len() == 0 {
        Seq::empty()
    } else {
        directives_text(ds.drop_last()) + directive_text(ds.last()) + seq!['\n']
    }
}

/// The position of the first `Unsupported` directive, or the length where there is none.
pub open spec fn first_unsupported(ds: Seq<Directive>) -> int
    decreases ds.len(),
{
    if ds.len() == 0 {
        0
    } else if ds[0] is Unsupported {
        0
    } else {
        1 + first_unsupported(ds.drop_first())
    }
}

/// What rendering a ledger writes: every directive before the first
/// `Unsupported` one, each followed by a blank line.
pub open spec fn ledger_text(l: Ledger) -> Seq<char> {
    directives_text(l.directives@.take(first_unsupported(l.directives@)))
}

} // verus!
