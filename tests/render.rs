use beancount_render::{
    render, render_ledger, Account, AccountType, Amount, Balance, BasicRenderer,
    BasicRendererError, BcOption, Booking, Close, Commodity, CostSpec, Custom, Date, Directive,
    Document, Event, Flag, IncompleteAmount, Include, Ledger, Meta, Note, Open, Pad, Plugin,
    Posting, Price, Query, Renderer, Transaction,
};

fn date(y: u16, m: u8, d: u8) -> Date {
    Date::new(y, m, d).unwrap()
}

fn s(x: &str) -> String {
    x.to_string()
}

fn acct(ty: AccountType, parts: &[&str]) -> Account {
    Account { ty, parts: parts.iter().map(|p| p.to_string()).collect() }
}

fn no_meta() -> Meta {
    Meta { entries: vec![] }
}

fn text_of<T>(item: T) -> String
where
    BasicRenderer: Renderer<T>,
{
    let mut out = String::new();
    BasicRenderer::new().render(item, &mut out).unwrap();
    out
}

fn checking() -> Account {
    acct(AccountType::Assets, &["Bank", "Checking"])
}

fn open_with(booking: Booking) -> Open {
    Open {
        date: date(2023, 1, 1),
        account: checking(),
        currencies: vec![s("USD")],
        booking,
        meta: no_meta(),
    }
}

fn cost(per: Option<&str>, total: Option<&str>, cur: Option<&str>, d: Option<Date>, label: Option<&str>) -> CostSpec {
    CostSpec {
        number_per: per.map(s),
        number_total: total.map(s),
        currency: cur.map(s),
        date: d,
        label: label.map(s),
    }
}

#[test]
fn open_scenario() {
    assert_eq!(text_of(&open_with(Booking::Strict)), "2023-01-01 open Assets:Bank:Checking USD \"strict\"\n");
}

#[test]
fn open_bookings() {
    assert_eq!(text_of(&open_with(Booking::Unspecified)), "2023-01-01 open Assets:Bank:Checking USD\n");
    assert_eq!(text_of(&open_with(Booking::Average)), "2023-01-01 open Assets:Bank:Checking USD \"average\"\n");
    assert_eq!(text_of(&open_with(Booking::Fifo)), "2023-01-01 open Assets:Bank:Checking USD \"fifo\"\n");
    assert_eq!(text_of(&open_with(Booking::Lifo)), "2023-01-01 open Assets:Bank:Checking USD \"lifo\"\n");
}

#[test]
fn open_several_currencies_and_meta() {
    let o = Open {
        date: date(2020, 12, 31),
        account: acct(AccountType::Liabilities, &["Card"]),
        currencies: vec![s("USD"), s("EUR")],
        booking: Booking::Unspecified,
        meta: Meta { entries: vec![(s("owner"), s("\"me\"")), (s("limit"), s("5"))] },
    };
    assert_eq!(
        text_of(&o),
        "2020-12-31 open Liabilities:Card USD EUR\n\towner: \"me\"\n\tlimit: 5\n"
    );
}

#[test]
fn balance_scenario() {
    let b = Balance {
        date: date(2023, 2, 1),
        account: checking(),
        amount: Amount { num: s("100.00"), currency: s("USD") },
        meta: no_meta(),
    };
    assert_eq!(text_of(&b), "2023-02-01 balance Assets:Bank:Checking\t100.00 USD\n");
}

#[test]
fn transaction_scenario() {
    let t = Transaction {
        date: date(2023, 3, 4),
        flag: Flag::Okay,
        payee: None,
        narration: s("Coffee"),
        tags: vec![],
        links: vec![],
        postings: vec![Posting {
            flag: None,
            account: acct(AccountType::Expenses, &["Food"]),
            units: IncompleteAmount { num: Some(s("5.00")), currency: Some(s("USD")) },
            price: None,
            cost: None,
            meta: no_meta(),
        }],
        meta: no_meta(),
    };
    assert_eq!(text_of(&t), "2023-03-04 * \"Coffee\"\n\tExpenses:Food\t5.00 USD\n");
}

#[test]
fn transaction_full() {
    let t = Transaction {
        date: date(2024, 2, 29),
        flag: Flag::Warning,
        payee: Some(s("Shop")),
        narration: s("Stock"),
        tags: vec![s("#trip")],
        links: vec![s("^inv-1")],
        postings: vec![
            Posting {
                flag: Some(Flag::Other(s("P"))),
                account: acct(AccountType::Assets, &["Broker"]),
                units: IncompleteAmount { num: Some(s("10")), currency: Some(s("ABC")) },
                price: Some(Amount { num: s("12.5"), currency: s("USD") }),
                cost: Some(cost(Some("12"), None, Some("USD"), None, None)),
                meta: Meta { entries: vec![(s("lot"), s("\"a\""))] },
            },
            Posting {
                flag: None,
                account: acct(AccountType::Assets, &["Cash"]),
                units: IncompleteAmount { num: None, currency: None },
                price: None,
                cost: None,
                meta: no_meta(),
            },
        ],
        meta: Meta { entries: vec![(s("id"), s("\"7\""))] },
    };
    assert_eq!(
        text_of(&t),
        "2024-02-29 ! \"Shop\" \"Stock\" #trip ^inv-1\n\
         \tP Assets:Broker\t10 ABC @ 12.5 USD {12 USD}\n\tlot: \"a\"\n\
         \tAssets:Cash\t\n\
         \tid: \"7\"\n"
    );
}

#[test]
fn cost_total_double_braces() {
    let c = cost(Some("1"), Some("100"), Some("USD"), None, None);
    assert_eq!(text_of(&c), "{{100 USD}}");
}

#[test]
fn cost_per_unit_single_braces() {
    let c = cost(Some("1.5"), None, Some("USD"), None, None);
    assert_eq!(text_of(&c), "{1.5 USD}");
}

#[test]
fn cost_fields_commas() {
    let c = cost(Some("2"), None, Some("EUR"), Some(date(2022, 6, 5)), Some("\"lot\""));
    assert_eq!(text_of(&c), "{2 EUR, 2022-06-05, \"lot\"}");
    let c = cost(None, None, None, Some(date(2022, 6, 5)), Some("x"));
    assert_eq!(text_of(&c), "{2022-06-05, x}");
    let c = cost(None, None, None, None, Some("x"));
    assert_eq!(text_of(&c), "{x}");
    let c = cost(None, None, None, None, None);
    assert_eq!(text_of(&c), "{}");
    let c = cost(Some("3"), None, None, None, None);
    assert_eq!(text_of(&c), "{}");
    let c = cost(None, Some("9"), None, None, Some("y"));
    assert_eq!(text_of(&c), "{{y}}");
}

#[test]
fn incomplete_amount_shapes() {
    let a = |n: Option<&str>, c: Option<&str>| IncompleteAmount { num: n.map(s), currency: c.map(s) };
    assert_eq!(text_of(&a(None, None)), "");
    assert_eq!(text_of(&a(None, Some("USD"))), "USD");
    assert_eq!(text_of(&a(Some("3"), None)), "3");
    assert_eq!(text_of(&a(Some("3"), Some("USD"))), "3 USD");
}

#[test]
fn flags_and_accounts() {
    assert_eq!(text_of(&Flag::Okay), "*");
    assert_eq!(text_of(&Flag::Warning), "!");
    assert_eq!(text_of(&Flag::Other(s("#"))), "#");
    assert_eq!(text_of(&acct(AccountType::Equity, &["Opening", "Balances"])), "Equity:Opening:Balances");
    assert_eq!(text_of(&acct(AccountType::Income, &["Salary"])), "Income:Salary");
    assert_eq!(text_of(&acct(AccountType::Expenses, &[])), "Expenses");
}

#[test]
fn simple_directives() {
    let d = date(2023, 5, 6);
    assert_eq!(
        text_of(&Close { date: d, account: checking(), meta: no_meta() }),
        "2023-05-06 close Assets:Bank:Checking\n"
    );
    assert_eq!(text_of(&BcOption { name: s("title"), val: s("Home") }), "option \"title\" \"Home\"\n");
    assert_eq!(
        text_of(&Commodity { date: d, name: s("USD"), meta: no_meta() }),
        "2023-05-06 commodity USD\n"
    );
    assert_eq!(
        text_of(&Custom { date: d, name: s("budget"), args: vec![s("a"), s("b")], meta: no_meta() }),
        "2023-05-06 custom \"budget\" a b\n"
    );
    assert_eq!(
        text_of(&Event { date: d, name: s("location"), description: s("Paris"), meta: no_meta() }),
        "2023-05-06 event \"location\" \"Paris\"\n"
    );
    assert_eq!(text_of(&Include { filename: s("other.beancount") }), "include other.beancount\n");
    assert_eq!(
        text_of(&Note { date: d, account: checking(), comment: s("hi"), meta: no_meta() }),
        "2023-05-06 note Assets:Bank:Checking \"hi\"\n"
    );
    assert_eq!(
        text_of(&Pad {
            date: d,
            pad_to_account: checking(),
            pad_from_account: acct(AccountType::Equity, &["Opening"]),
            meta: no_meta(),
        }),
        "2023-05-06 pad Assets:Bank:Checking Equity:Opening\n"
    );
    assert_eq!(text_of(&Plugin { module: s("m"), config: None }), "plugin \"m\"\n");
    assert_eq!(text_of(&Plugin { module: s("m"), config: Some(s("c")) }), "plugin \"m\" \"c\"\n");
    assert_eq!(
        text_of(&Price { date: d, currency: s("EUR"), amount: Amount { num: s("1.1"), currency: s("USD") }, meta: no_meta() }),
        "2023-05-06 price EUR 1.1 USD\n"
    );
    assert_eq!(
        text_of(&Query { date: d, name: s("q"), query_string: s("SELECT 1"), meta: no_meta() }),
        "2023-05-06 query \"q\" \"SELECT 1\"\n"
    );
}

#[test]
fn document_entry_point() {
    let doc = Document { date: date(2023, 7, 8), account: checking(), path: s("a.pdf"), meta: no_meta() };
    let mut out = String::new();
    assert!(render(&mut out, &doc).is_ok());
    assert_eq!(out, "2023-07-08 document Assets:Bank:Checking \"a.pdf\"\n");
}

#[test]
fn ledger_separates_with_blank_lines() {
    let l = Ledger {
        directives: vec![
            Directive::Include(Include { filename: s("a") }),
            Directive::BcOption(BcOption { name: s("n"), val: s("v") }),
        ],
    };
    let mut out = String::new();
    assert!(render_ledger(&mut out, &l).is_ok());
    assert_eq!(out, "include a\n\noption \"n\" \"v\"\n\n");
}

#[test]
fn ledger_empty() {
    let mut out = String::new();
    assert!(render_ledger(&mut out, &Ledger { directives: vec![] }).is_ok());
    assert_eq!(out, "");
}

#[test]
fn ledger_only_unsupported() {
    let mut out = String::new();
    let r = render_ledger(&mut out, &Ledger { directives: vec![Directive::Unsupported] });
    assert_eq!(r, Err(BasicRendererError::Unsupported));
    assert_eq!(out, "");
}

#[test]
fn ledger_stops_at_unsupported() {
    let l = Ledger {
        directives: vec![
            Directive::Include(Include { filename: s("a") }),
            Directive::Unsupported,
            Directive::Include(Include { filename: s("b") }),
        ],
    };
    let mut out = String::new();
    let r = BasicRenderer::new().render(&l, &mut out);
    assert_eq!(r, Err(BasicRendererError::Unsupported));
    assert_eq!(out, "include a\n\n");
}

#[test]
fn directive_dispatch() {
    let d = Directive::Open(open_with(Booking::Strict));
    assert_eq!(text_of(&d), "2023-01-01 open Assets:Bank:Checking USD \"strict\"\n");
    let mut out = String::new();
    assert_eq!(BasicRenderer::new().render(&Directive::Unsupported, &mut out), Err(BasicRendererError::Unsupported));
    assert_eq!(out, "");
}

#[test]
fn dates() {
    assert_eq!(text_of(&Include { filename: s("x") }), "include x\n");
    assert!(Date::new(2023, 2, 29).is_none());
    assert!(Date::new(2024, 2, 29).is_some());
    assert!(Date::new(1900, 2, 29).is_none());
    assert!(Date::new(2000, 2, 29).is_some());
    assert!(Date::new(2023, 4, 31).is_none());
    assert!(Date::new(2023, 13, 1).is_none());
    assert!(Date::new(2023, 0, 1).is_none());
    assert!(Date::new(2023, 1, 0).is_none());
    assert!(Date::new(10000, 1, 1).is_none());
    let d = Date::new(7, 3, 9).unwrap();
    assert_eq!((d.year(), d.month(), d.day()), (7, 3, 9));
    let c = Close { date: d, account: checking(), meta: no_meta() };
    assert_eq!(text_of(&c), "0007-03-09 close Assets:Bank:Checking\n");
}

#[test]
fn date_text_reads_back() {
    let c = Close { date: date(1999, 11, 30), account: checking(), meta: no_meta() };
    let text = text_of(&c);
    let ymd = &text[..10];
    assert_eq!(ymd, "1999-11-30");
    let y: u16 = ymd[0..4].parse().unwrap();
    let m: u8 = ymd[5..7].parse().unwrap();
    let d: u8 = ymd[8..10].parse().unwrap();
    assert_eq!(Date::new(y, m, d), Some(date(1999, 11, 30)));
}

#[test]
fn account_text_splits_back() {
    let a = acct(AccountType::Liabilities, &["Bank", "Card", "Visa"]);
    let text = text_of(&a);
    let fields: Vec<&str> = text.split(':').collect();
    assert_eq!(fields, vec!["Liabilities", "Bank", "Card", "Visa"]);
}

#[test]
fn account_without_segments() {
    let c = Close { date: date(2023, 5, 6), account: acct(AccountType::Equity, &[]), meta: no_meta() };
    assert_eq!(text_of(&c), "2023-05-06 close Equity\n");
}

#[test]
fn meta_insert_keeps_keys_unique() {
    let mut m = Meta::new();
    m.insert(s("a"), s("1"));
    m.insert(s("b"), s("2"));
    m.insert(s("a"), s("3"));
    assert_eq!(m.entries, vec![(s("a"), s("3")), (s("b"), s("2"))]);
    let c = Commodity { date: date(2023, 5, 6), name: s("USD"), meta: m };
    assert_eq!(text_of(&c), "2023-05-06 commodity USD\n\ta: 3\n\tb: 2\n");
}
