use vstd::prelude::*;
use crate::date::Date;
use crate::model::{
    account_text, account_type_name, amount_text, balance_text, booking_suffix, close_text,
    commodity_text, cost_fields, cost_text, custom_text, directive_text, directives_text,
    document_text, event_text, first_unsupported, flag_text, head, include_text,
    incomplete_amount_text, join, ledger_text, meta_lines, meta_text, note_text, open_text,
    option_text, pad_text, posting_cost_part, posting_flag_part, posting_price_part, plugin_text, posting_text, postings_text, prefixed, price_text,
    query_text, quoted, transaction_header, transaction_text, Account, AccountType, Amount,
    Balance, BcOption, Booking, Close, Commodity, CostSpec, Custom, Directive, Document, Event,
    Flag, IncompleteAmount, Include, Ledger, Meta, Note, Open, Pad, Plugin, Posting, Price, Query,
    Transaction,
};

verus! {

/// Why a render failed.
#[derive(Clone, Copy, Debug, PartialEq, Eq, Structural)]
pub enum BasicRendererError {
    /// The output sink rejected a write.
    Io,
    /// The ledger holds a directive that has no textual form.
    Unsupported,
}

/// The renderer. It holds no state.
#[derive(Clone, Copy, Debug, PartialEq, Eq)]
pub struct BasicRenderer {}

impl BasicRenderer {
    pub fn new() -> Self {
        BasicRenderer {  }
    }
}

/// Rendering of one kind of node into text.
pub trait Renderer<T> {
    /// The text that rendering `item` appends.
    spec fn written(&self, item: T) -> Seq<char>;

    /// Whether rendering `item` succeeds.
    spec fn outcome(&self, item: T) -> Result<(), BasicRendererError>;

    /// Appends the text of `item` to `out`.
    fn render(&self, item: T, out: &mut String) -> (r: Result<(), BasicRendererError>)
        ensures
            final(out)@ == old(out)@ + self.written(item),
            r == self.outcome(item),
    ;
}

/// Appends the elements of `s` separated by `sep`.
fn write_joined(out: &mut String, s: &Vec<String>, sep: &str)
    ensures
        final(out)@ == old(out)@ + join(s@, sep@),
{
    let ghost start = out@;
    let mut i: usize = 0;
    while i < s.len()
        invariant
            i <= s.len(),
            out@ == start + join(s@.take(i as int), sep@),
        decreases s.len() - i,
    {
        if i > 0 {
            out.append(sep);
        }
        out.append(s[i].as_str());
        proof {
            assert(s@.take(i + 1).drop_last() =~= s@.take(i as int));
            if i == 0 {
                assert(join(s@.take(1), sep@) == s@[0]@);
            }
        }
        i = i + 1;
        assert(out@ =~= start + join(s@.take(i as int), sep@));
    }
    assert(s@.take(s@.len() as int) =~= s@);
}

/// Appends each element of `s` preceded by `pre`.
fn write_prefixed(out: &mut String, s: &Vec<String>, pre: &str)
    ensures
        final(out)@ == old(out)@ + prefixed(s@, pre@),
{
    let ghost start = out@;
    let mut i: usize = 0;
    while i < s.len()
        invariant
            i <= s.len(),
            out@ == start + prefixed(s@.take(i as int), pre@),
        decreases s.len() - i,
    {
        out.append(pre);
        out.append(s[i].as_str());
        proof {
            assert(s@.take(i + 1).drop_last() =~= s@.take(i as int));
        }
        i = i + 1;
        assert(out@ =~= start + prefixed(s@.take(i as int), pre@));
    }
    assert(s@.take(s@.len() as int) =~= s@);
}

/// Appends `"s"`.
fn write_quoted(out: &mut String, s: &str)
    ensures
        final(out)@ == old(out)@ + quoted(s@),
{
    proof { reveal_strlit("\""); }
    out.append("\"");
    out.append(s);
    out.append("\"");
    assert(final(out)@ =~= old(out)@ + quoted(s@));
}

/// Appends one line per metadata entry.
fn write_meta(out: &mut String, m: &Meta)
    ensures
        final(out)@ == old(out)@ + meta_text(*m),
{
    let ghost start = out@;
    let ghost es = m.entries@;
    let mut i: usize = 0;
    while i < m.entries.len()
        invariant
            i <= es.len(),
            es == m.entries@,
            out@ == start + meta_lines(es.take(i as int)),
        decreases es.len() - i,
    {
        proof {
            reveal_strlit("\t");
            reveal_strlit(": ");
            reveal_strlit("\n");
            assert("\t"@ =~= seq!['\t']);
            assert(": "@ =~= seq![':', ' ']);
            assert("\n"@ =~= seq!['\n']);
        }
        let entry = &m.entries[i];
        out.append("\t");
        out.append(entry.0.as_str());
        out.append(": ");
        out.append(entry.1.as_str());
        out.append("\n");
        proof {
            assert(es.take(i + 1).drop_last() =~= es.take(i as int));
            assert(es.take(i + 1).last() == es[i as int]);
            assert(meta_lines(es.take(i + 1)) == meta_lines(es.take(i as int)) + seq!['\t']
                + es[i as int].0@ + seq![':', ' '] + es[i as int].1@ + seq!['\n']);
            assert(out@ =~= start + meta_lines(es.take(i + 1)));
        }
        i = i + 1;
    }
    assert(es.take(es.len() as int) =~= es);
}

/// Appends a date and a keyword, each followed by a space.
fn write_head(out: &mut String, date: &Date, keyword: &str)
    ensures
        final(out)@ == old(out)@ + head(*date, keyword@),
{
    proof { reveal_strlit(" "); }
    date.write_to(out);
    out.append(" ");
    out.append(keyword);
    out.append(" ");
    assert(final(out)@ =~= old(out)@ + head(*date, keyword@));
}

impl<'a> Renderer<&'a Account> for BasicRenderer {
    open spec fn written(&self, item: &'a Account) -> Seq<char> {
        account_text(*item)
    }

    open spec fn outcome(&self, item: &'a Account) -> Result<(), BasicRendererError> {
        Ok(())
    }

    fn render(&self, account: &'a Account, out: &mut String) -> (r: Result<(), BasicRendererError>) {
        let name = match account.ty {
            AccountType::Assets => "Assets",
            AccountType::Liabilities => "Liabilities",
            AccountType::Equity => "Equity",
            AccountType::Income => "Income",
            AccountType::Expenses => "Expenses",
        };
        proof {
            reveal_strlit(":");
            reveal_strlit("Assets");
            reveal_strlit("Liabilities");
            reveal_strlit("Equity");
            reveal_strlit("Income");
            reveal_strlit("Expenses");
            assert(name@ =~= account_type_name(account.ty));
            assert(":"@ =~= seq![':']);
        }
        out.append(name);
        write_prefixed(out, &account.parts, ":");
        assert(final(out)@ =~= old(out)@ + account_text(*account));
        Ok(())
    }
}

impl<'a> Renderer<&'a Amount> for BasicRenderer {
    open spec fn written(&self, item: &'a Amount) -> Seq<char> {
        amount_text(*item)
    }

    open spec fn outcome(&self, item: &'a Amount) -> Result<(), BasicRendererError> {
        Ok(())
    }

    fn render(&self, amount: &'a Amount, out: &mut String) -> (r: Result<(), BasicRendererError>) {
        proof { reveal_strlit(" "); }
        out.append(amount.num.as_str());
        out.append(" ");
        out.append(amount.currency.as_str());
        assert(final(out)@ =~= old(out)@ + amount_text(*amount));
        Ok(())
    }
}

impl<'a> Renderer<&'a IncompleteAmount> for BasicRenderer {
    open spec fn written(&self, item: &'a IncompleteAmount) -> Seq<char> {
        incomplete_amount_text(*item)
    }

    open spec fn outcome(&self, item: &'a IncompleteAmount) -> Result<(), BasicRendererError> {
        Ok(())
    }

    fn render(&self, amount: &'a IncompleteAmount, out: &mut String) -> (r: Result<
        (),
        BasicRendererError,
    >) {
        proof { reveal_strlit(" "); }
        match (&amount.num, &amount.currency) {
            (Some(n), Some(c)) => {
                out.append(n.as_str());
                out.append(" ");
                out.append(c.as_str());
            },
            (None, Some(c)) => {
                out.append(c.as_str());
            },
            (Some(n), None) => {
                out.append(n.as_str());
            },
            (None, None) => {},
        }
        assert(final(out)@ =~= old(out)@ + incomplete_amount_text(*amount));
        Ok(())
    }
}

impl<'a> Renderer<&'a Flag> for BasicRenderer {
    open spec fn written(&self, item: &'a Flag) -> Seq<char> {
        flag_text(*item)
    }

    open spec fn outcome(&self, item: &'a Flag) -> Result<(), BasicRendererError> {
        Ok(())
    }

    fn render(&self, flag: &'a Flag, out: &mut String) -> (r: Result<(), BasicRendererError>) {
        proof {
            reveal_strlit("*");
            reveal_strlit("!");
        }
        match flag {
            Flag::Okay => out.append("*"),
            Flag::Warning => out.append("!"),
            Flag::Other(s) => out.append(s.as_str()),
        }
        assert(final(out)@ =~= old(out)@ + flag_text(*flag));
        Ok(())
    }
}

impl<'a> Renderer<&'a CostSpec> for BasicRenderer {
    open spec fn written(&self, item: &'a CostSpec) -> Seq<char> {
        cost_text(*item)
    }

    open spec fn outcome(&self, item: &'a CostSpec) -> Result<(), BasicRendererError> {
        Ok(())
    }

    fn render(&self, cost: &'a CostSpec, out: &mut String) -> (r: Result<(), BasicRendererError>) {
        proof {
            reveal_strlit("{{");
            reveal_strlit("{");
            reveal_strlit("}}");
            reveal_strlit("}");
            reveal_strlit(", ");
            reveal_strlit(" ");
            assert("{{"@ =~= seq!['{', '{']);
            assert("}}"@ =~= seq!['}', '}']);
            assert("{"@ =~= seq!['{']);
            assert("}"@ =~= seq!['}']);
            assert(", "@ =~= seq![',', ' ']);
            assert(" "@ =~= seq![' ']);
        }
        let double_brackets = cost.number_total.is_some();
        if double_brackets {
            out.append("{{");
        } else {
            out.append("{");
        }
        let ghost opened = out@;
        let mut first = true;
        let number = if double_brackets {
            &cost.number_total
        } else {
            &cost.number_per
        };
        match (number, &cost.currency) {
            (Some(n), Some(c)) => {
                out.append(n.as_str());
                out.append(" ");
                out.append(c.as_str());
                first = false;
            },
            _ => {},
        }
        match &cost.date {
            Some(d) => {
                if !first {
                    out.append(", ");
                }
                d.write_to(out);
                first = false;
            },
            None => {},
        }
        match &cost.label {
            Some(l) => {
                if !first {
                    out.append(", ");
                }
                out.append(l.as_str());
            },
            None => {},
        }
        assert(out@ =~= opened + cost_fields(*cost));
        if double_brackets {
            out.append("}}");
        } else {
            out.append("}");
        }
        assert(final(out)@ =~= old(out)@ + cost_text(*cost));
        Ok(())
    }
}

/// Appends the posting's flag and a space, where it has a flag.
fn write_posting_flag(r: &BasicRenderer, posting: &Posting, out: &mut String)
    ensures
        final(out)@ == old(out)@ + posting_flag_part(*posting),
{
    proof {
        reveal_strlit(" ");
        assert(" "@ =~= seq![' ']);
    }
    if let Some(flag) = &posting.flag {
        let _ = r.render(flag, out);
        out.append(" ");
    }
    assert(final(out)@ =~= old(out)@ + posting_flag_part(*posting));
}

/// Appends ` @ price`, where the posting has a price.
fn write_posting_price(r: &BasicRenderer, posting: &Posting, out: &mut String)
    ensures
        final(out)@ == old(out)@ + posting_price_part(*posting),
{
    proof {
        reveal_strlit(" @ ");
        assert(" @ "@ =~= seq![' ', '@', ' ']);
    }
    if let Some(price) = &posting.price {
        out.append(" @ ");
        let _ = r.render(price, out);
    }
    assert(final(out)@ =~= old(out)@ + posting_price_part(*posting));
}

/// Appends ` cost`, where the posting has a cost spec.
fn write_posting_cost(r: &BasicRenderer, posting: &Posting, out: &mut String)
    ensures
        final(out)@ == old(out)@ + posting_cost_part(*posting),
{
    proof {
        reveal_strlit(" ");
        assert(" "@ =~= seq![' ']);
    }
    if let Some(cost) = &posting.cost {
        out.append(" ");
        let _ = r.render(cost, out);
    }
    assert(final(out)@ =~= old(out)@ + posting_cost_part(*posting));
}

impl<'a> Renderer<&'a Posting> for BasicRenderer {
    open spec fn written(&self, item: &'a Posting) -> Seq<char> {
        posting_text(*item)
    }

    open spec fn outcome(&self, item: &'a Posting) -> Result<(), BasicRendererError> {
        Ok(())
    }

    fn render(&self, posting: &'a Posting, out: &mut String) -> (r: Result<(), BasicRendererError>) {
        proof {
            reveal_strlit("\t");
            reveal_strlit(" ");
            reveal_strlit(" @ ");
            reveal_strlit("\n");
            assert("\t"@ =~= seq!['\t']);
            assert(" "@ =~= seq![' ']);
            assert(" @ "@ =~= seq![' ', '@', ' ']);
            assert("\n"@ =~= seq!['\n']);
        }
        out.append("\t");
        write_posting_flag(self, posting, out);
        let ghost s1 = out@;
        let _ = self.render(&posting.account, out);
        out.append("\t");
        let _ = self.render(&posting.units, out);
        assert(out@ =~= s1 + account_text(posting.account) + seq!['\t'] + incomplete_amount_text(
            posting.units,
        ));
        write_posting_price(self, posting, out);
        write_posting_cost(self, posting, out);
        let ghost s4 = out@;
        out.append("\n");
        write_meta(out, &posting.meta);
        assert(out@ =~= s4 + seq!['\n'] + meta_text(posting.meta));
        assert(final(out)@ =~= old(out)@ + posting_text(*posting));
        Ok(())
    }
}

impl<'a> Renderer<&'a Transaction> for BasicRenderer {
    open spec fn written(&self, item: &'a Transaction) -> Seq<char> {
        transaction_text(*item)
    }

    open spec fn outcome(&self, item: &'a Transaction) -> Result<(), BasicRendererError> {
        Ok(())
    }

    fn render(&self, transaction: &'a Transaction, out: &mut String) -> (r: Result<
        (),
        BasicRendererError,
    >) {
        proof {
            reveal_strlit(" ");
            reveal_strlit("\n");
            assert(" "@ =~= seq![' ']);
            assert("\n"@ =~= seq!['\n']);
        }
        let ghost start = out@;
        transaction.date.write_to(out);
        out.append(" ");
        let _ = self.render(&transaction.flag, out);
        if let Some(payee) = &transaction.payee {
            out.append(" ");
            write_quoted(out, payee.as_str());
        }
        out.append(" ");
        write_quoted(out, transaction.narration.as_str());
        write_prefixed(out, &transaction.tags, " ");
        write_prefixed(out, &transaction.links, " ");
        out.append("\n");
        assert(out@ =~= start + transaction_header(*transaction));
        let ghost ps = transaction.postings@;
        let mut i: usize = 0;
        while i < transaction.postings.len()
            invariant
                i <= ps.len(),
                ps == transaction.postings@,
                out@ == start + transaction_header(*transaction) + postings_text(ps.take(i as int)),
            decreases ps.len() - i,
        {
            let _ = self.render(&transaction.postings[i], out);
            proof {
                assert(ps.take(i + 1).drop_last() =~= ps.take(i as int));
                assert(ps.take(i + 1).last() == ps[i as int]);
            }
            i = i + 1;
            assert(out@ =~= start + transaction_header(*transaction) + postings_text(
                ps.take(i as int),
            ));
        }
        assert(ps.take(ps.len() as int) =~= ps);
        write_meta(out, &transaction.meta);
        assert(final(out)@ =~= old(out)@ + transaction_text(*transaction));
        Ok(())
    }
}

impl<'a> Renderer<&'a Open> for BasicRenderer {
    open spec fn written(&self, item: &'a Open) -> Seq<char> {
        open_text(*item)
    }

    open spec fn outcome(&self, item: &'a Open) -> Result<(), BasicRendererError> {
        Ok(())
    }

    fn render(&self, open: &'a Open, out: &mut String) -> (r: Result<(), BasicRendererError>) {
        proof {
            reveal_strlit("open");
            reveal_strlit(" \"strict\"");
            reveal_strlit(" \"average\"");
            reveal_strlit(" \"fifo\"");
            reveal_strlit(" \"lifo\"");
            reveal_strlit("\n");
            assert("open"@ =~= seq!['o', 'p', 'e', 'n']);
            assert("\n"@ =~= seq!['\n']);
        }
        write_head(out, &open.date, "open");
        let _ = self.render(&open.account, out);
        write_prefixed(out, &open.currencies, " ");
        let suffix = match open.booking {
            Booking::Strict => " \"strict\"",
            Booking::Average => " \"average\"",
            Booking::Fifo => " \"fifo\"",
            Booking::Lifo => " \"lifo\"",
            Booking::Unspecified => "",
        };
        proof {
            reveal_strlit("");
            assert(" "@ =~= seq![' ']) by { reveal_strlit(" "); }
            assert(suffix@ =~= booking_suffix(open.booking));
        }
        out.append(suffix);
        out.append("\n");
        write_meta(out, &open.meta);
        assert(final(out)@ =~= old(out)@ + open_text(*open));
        Ok(())
    }
}

impl<'a> Renderer<&'a Close> for BasicRenderer {
    open spec fn written(&self, item: &'a Close) -> Seq<char> {
        close_text(*item)
    }

    open spec fn outcome(&self, item: &'a Close) -> Result<(), BasicRendererError> {
        Ok(())
    }

    fn render(&self, close: &'a Close, out: &mut String) -> (r: Result<(), BasicRendererError>) {
        proof {
            reveal_strlit("close");
            reveal_strlit("\n");
            assert("close"@ =~= seq!['c', 'l', 'o', 's', 'e']);
            assert("\n"@ =~= seq!['\n']);
        }
        write_head(out, &close.date, "close");
        let _ = self.render(&close.account, out);
        out.append("\n");
        write_meta(out, &close.meta);
        assert(final(out)@ =~= old(out)@ + close_text(*close));
        Ok(())
    }
}

impl<'a> Renderer<&'a Balance> for BasicRenderer {
    open spec fn written(&self, item: &'a Balance) -> Seq<char> {
        balance_text(*item)
    }

    open spec fn outcome(&self, item: &'a Balance) -> Result<(), BasicRendererError> {
        Ok(())
    }

    fn render(&self, balance: &'a Balance, out: &mut String) -> (r: Result<(), BasicRendererError>) {
        proof {
            reveal_strlit("balance");
            reveal_strlit("\t");
            reveal_strlit("\n");
            assert("balance"@ =~= seq!['b', 'a', 'l', 'a', 'n', 'c', 'e']);
            assert("\t"@ =~= seq!['\t']);
            assert("\n"@ =~= seq!['\n']);
        }
        write_head(out, &balance.date, "balance");
        let _ = self.render(&balance.account, out);
        out.append("\t");
        let _ = self.render(&balance.amount, out);
        out.append("\n");
        write_meta(out, &balance.meta);
        assert(final(out)@ =~= old(out)@ + balance_text(*balance));
        Ok(())
    }
}

impl<'a> Renderer<&'a BcOption> for BasicRenderer {
    open spec fn written(&self, item: &'a BcOption) -> Seq<char> {
        option_text(*item)
    }

    open spec fn outcome(&self, item: &'a BcOption) -> Result<(), BasicRendererError> {
        Ok(())
    }

    fn render(&self, option: &'a BcOption, out: &mut String) -> (r: Result<(), BasicRendererError>) {
        proof {
            reveal_strlit("option ");
            reveal_strlit(" ");
            reveal_strlit("\n");
            assert("option "@ =~= seq!['o', 'p', 't', 'i', 'o', 'n', ' ']);
            assert(" "@ =~= seq![' ']);
            assert("\n"@ =~= seq!['\n']);
        }
        out.append("option ");
        write_quoted(out, option.name.as_str());
        out.append(" ");
        write_quoted(out, option.val.as_str());
        out.append("\n");
        assert(final(out)@ =~= old(out)@ + option_text(*option));
        Ok(())
    }
}

impl<'a> Renderer<&'a Commodity> for BasicRenderer {
    open spec fn written(&self, item: &'a Commodity) -> Seq<char> {
        commodity_text(*item)
    }

    open spec fn outcome(&self, item: &'a Commodity) -> Result<(), BasicRendererError> {
        Ok(())
    }

    fn render(&self, commodity: &'a Commodity, out: &mut String) -> (r: Result<
        (),
        BasicRendererError,
    >) {
        proof {
            reveal_strlit("commodity");
            reveal_strlit("\n");
            assert("commodity"@ =~= seq!['c', 'o', 'm', 'm', 'o', 'd', 'i', 't', 'y']);
            assert("\n"@ =~= seq!['\n']);
        }
        write_head(out, &commodity.date, "commodity");
        out.append(commodity.name.as_str());
        out.append("\n");
        write_meta(out, &commodity.meta);
        assert(final(out)@ =~= old(out)@ + commodity_text(*commodity));
        Ok(())
    }
}

impl<'a> Renderer<&'a Custom> for BasicRenderer {
    open spec fn written(&self, item: &'a Custom) -> Seq<char> {
        custom_text(*item)
    }

    open spec fn outcome(&self, item: &'a Custom) -> Result<(), BasicRendererError> {
        Ok(())
    }

    fn render(&self, custom: &'a Custom, out: &mut String) -> (r: Result<(), BasicRendererError>) {
        proof {
            reveal_strlit("custom");
            reveal_strlit(" ");
            reveal_strlit("\n");
            assert("custom"@ =~= seq!['c', 'u', 's', 't', 'o', 'm']);
            assert(" "@ =~= seq![' ']);
            assert("\n"@ =~= seq!['\n']);
        }
        write_head(out, &custom.date, "custom");
        write_quoted(out, custom.name.as_str());
        out.append(" ");
        write_joined(out, &custom.args, " ");
        out.append("\n");
        write_meta(out, &custom.meta);
        assert(final(out)@ =~= old(out)@ + custom_text(*custom));
        Ok(())
    }
}

impl<'a> Renderer<&'a Document> for BasicRenderer {
    open spec fn written(&self, item: &'a Document) -> Seq<char> {
        document_text(*item)
    }

    open spec fn outcome(&self, item: &'a Document) -> Result<(), BasicRendererError> {
        Ok(())
    }

    fn render(&self, document: &'a Document, out: &mut String) -> (r: Result<
        (),
        BasicRendererError,
    >) {
        proof {
            reveal_strlit("document");
            reveal_strlit(" ");
            reveal_strlit("\n");
            assert("document"@ =~= seq!['d', 'o', 'c', 'u', 'm', 'e', 'n', 't']);
            assert(" "@ =~= seq![' ']);
            assert("\n"@ =~= seq!['\n']);
        }
        write_head(out, &document.date, "document");
        let _ = self.render(&document.account, out);
        out.append(" ");
        write_quoted(out, document.path.as_str());
        out.append("\n");
        write_meta(out, &document.meta);
        assert(final(out)@ =~= old(out)@ + document_text(*document));
        Ok(())
    }
}

impl<'a> Renderer<&'a Event> for BasicRenderer {
    open spec fn written(&self, item: &'a Event) -> Seq<char> {
        event_text(*item)
    }

    open spec fn outcome(&self, item: &'a Event) -> Result<(), BasicRendererError> {
        Ok(())
    }

    fn render(&self, event: &'a Event, out: &mut String) -> (r: Result<(), BasicRendererError>) {
        proof {
            reveal_strlit("event");
            reveal_strlit(" ");
            reveal_strlit("\n");
            assert("event"@ =~= seq!['e', 'v', 'e', 'n', 't']);
            assert(" "@ =~= seq![' ']);
            assert("\n"@ =~= seq!['\n']);
        }
        write_head(out, &event.date, "event");
        write_quoted(out, event.name.as_str());
        out.append(" ");
        write_quoted(out, event.description.as_str());
        out.append("\n");
        write_meta(out, &event.meta);
        assert(final(out)@ =~= old(out)@ + event_text(*event));
        Ok(())
    }
}

impl<'a> Renderer<&'a Include> for BasicRenderer {
    open spec fn written(&self, item: &'a Include) -> Seq<char> {
        include_text(*item)
    }

    open spec fn outcome(&self, item: &'a Include) -> Result<(), BasicRendererError> {
        Ok(())
    }

    fn render(&self, inc: &'a Include, out: &mut String) -> (r: Result<(), BasicRendererError>) {
        proof {
            reveal_strlit("include ");
            reveal_strlit("\n");
            assert("include "@ =~= seq!['i', 'n', 'c', 'l', 'u', 'd', 'e', ' ']);
            assert("\n"@ =~= seq!['\n']);
        }
        out.append("include ");
        out.append(inc.filename.as_str());
        out.append("\n");
        assert(final(out)@ =~= old(out)@ + include_text(*inc));
        Ok(())
    }
}

impl<'a> Renderer<&'a Note> for BasicRenderer {
    open spec fn written(&self, item: &'a Note) -> Seq<char> {
        note_text(*item)
    }

    open spec fn outcome(&self, item: &'a Note) -> Result<(), BasicRendererError> {
        Ok(())
    }

    fn render(&self, note: &'a Note, out: &mut String) -> (r: Result<(), BasicRendererError>) {
        proof {
            reveal_strlit("note");
            reveal_strlit(" ");
            reveal_strlit("\n");
            assert("note"@ =~= seq!['n', 'o', 't', 'e']);
            assert(" "@ =~= seq![' ']);
            assert("\n"@ =~= seq!['\n']);
        }
        write_head(out, &note.date, "note");
        let _ = self.render(&note.account, out);
        out.append(" ");
        write_quoted(out, note.comment.as_str());
        out.append("\n");
        write_meta(out, &note.meta);
        assert(final(out)@ =~= old(out)@ + note_text(*note));
        Ok(())
    }
}

impl<'a> Renderer<&'a Pad> for BasicRenderer {
    open spec fn written(&self, item: &'a Pad) -> Seq<char> {
        pad_text(*item)
    }

    open spec fn outcome(&self, item: &'a Pad) -> Result<(), BasicRendererError> {
        Ok(())
    }

    fn render(&self, pad: &'a Pad, out: &mut String) -> (r: Result<(), BasicRendererError>) {
        proof {
            reveal_strlit("pad");
            reveal_strlit(" ");
            reveal_strlit("\n");
            assert("pad"@ =~= seq!['p', 'a', 'd']);
            assert(" "@ =~= seq![' ']);
            assert("\n"@ =~= seq!['\n']);
        }
        write_head(out, &pad.date, "pad");
        let _ = self.render(&pad.pad_to_account, out);
        out.append(" ");
        let _ = self.render(&pad.pad_from_account, out);
        out.append("\n");
        write_meta(out, &pad.meta);
        assert(final(out)@ =~= old(out)@ + pad_text(*pad));
        Ok(())
    }
}

impl<'a> Renderer<&'a Plugin> for BasicRenderer {
    open spec fn written(&self, item: &'a Plugin) -> Seq<char> {
        plugin_text(*item)
    }

    open spec fn outcome(&self, item: &'a Plugin) -> Result<(), BasicRendererError> {
        Ok(())
    }

    fn render(&self, plugin: &'a Plugin, out: &mut String) -> (r: Result<(), BasicRendererError>) {
        proof {
            reveal_strlit("plugin ");
            reveal_strlit(" ");
            reveal_strlit("\n");
            assert("plugin "@ =~= seq!['p', 'l', 'u', 'g', 'i', 'n', ' ']);
            assert(" "@ =~= seq![' ']);
            assert("\n"@ =~= seq!['\n']);
        }
        out.append("plugin ");
        write_quoted(out, plugin.module.as_str());
        if let Some(config) = &plugin.config {
            out.append(" ");
            write_quoted(out, config.as_str());
        }
        out.append("\n");
        assert(final(out)@ =~= old(out)@ + plugin_text(*plugin));
        Ok(())
    }
}

impl<'a> Renderer<&'a Price> for BasicRenderer {
    open spec fn written(&self, item: &'a Price) -> Seq<char> {
        price_text(*item)
    }

    open spec fn outcome(&self, item: &'a Price) -> Result<(), BasicRendererError> {
        Ok(())
    }

    fn render(&self, price: &'a Price, out: &mut String) -> (r: Result<(), BasicRendererError>) {
        proof {
            reveal_strlit("price");
            reveal_strlit(" ");
            reveal_strlit("\n");
            assert("price"@ =~= seq!['p', 'r', 'i', 'c', 'e']);
            assert(" "@ =~= seq![' ']);
            assert("\n"@ =~= seq!['\n']);
        }
        write_head(out, &price.date, "price");
        out.append(price.currency.as_str());
        out.append(" ");
        let _ = self.render(&price.amount, out);
        out.append("\n");
        write_meta(out, &price.meta);
        assert(final(out)@ =~= old(out)@ + price_text(*price));
        Ok(())
    }
}

impl<'a> Renderer<&'a Query> for BasicRenderer {
    open spec fn written(&self, item: &'a Query) -> Seq<char> {
        query_text(*item)
    }

    open spec fn outcome(&self, item: &'a Query) -> Result<(), BasicRendererError> {
        Ok(())
    }

    fn render(&self, query: &'a Query, out: &mut String) -> (r: Result<(), BasicRendererError>) {
        proof {
            reveal_strlit("query");
            reveal_strlit(" ");
            reveal_strlit("\n");
            assert("query"@ =~= seq!['q', 'u', 'e', 'r', 'y']);
            assert(" "@ =~= seq![' ']);
            assert("\n"@ =~= seq!['\n']);
        }
        write_head(out, &query.date, "query");
        write_quoted(out, query.name.as_str());
        out.append(" ");
        write_quoted(out, query.query_string.as_str());
        out.append("\n");
        write_meta(out, &query.meta);
        assert(final(out)@ =~= old(out)@ + query_text(*query));
        Ok(())
    }
}

/// The outcome of rendering a directive: only `Unsupported` fails.
pub open spec fn directive_outcome(d: Directive) -> Result<(), BasicRendererError> {
    if d is Unsupported {
        Err(BasicRendererError::Unsupported)
    } else {
        Ok(())
    }
}

/// The outcome of rendering a ledger: it fails exactly where one of its
/// directives is `Unsupported`.
pub open spec fn ledger_outcome(l: Ledger) -> Result<(), BasicRendererError> {
    if first_unsupported(l.directives@) < l.directives@.len() {
        Err(BasicRendererError::Unsupported)
    } else {
        Ok(())
    }
}

impl<'a> Renderer<&'a Directive> for BasicRenderer {
    open spec fn written(&self, item: &'a Directive) -> Seq<char> {
        directive_text(*item)
    }

    open spec fn outcome(&self, item: &'a Directive) -> Result<(), BasicRendererError> {
        directive_outcome(*item)
    }

    fn render(&self, directive: &'a Directive, out: &mut String) -> (r: Result<
        (),
        BasicRendererError,
    >) {
        match directive {
            Directive::Open(x) => self.render(x, out),
            Directive::Close(x) => self.render(x, out),
            Directive::Balance(x) => self.render(x, out),
            Directive::BcOption(x) => self.render(x, out),
            Directive::Commodity(x) => self.render(x, out),
            Directive::Custom(x) => self.render(x, out),
            Directive::Document(x) => self.render(x, out),
            Directive::Event(x) => self.render(x, out),
            Directive::Include(x) => self.render(x, out),
            Directive::Note(x) => self.render(x, out),
            Directive::Pad(x) => self.render(x, out),
            Directive::Plugin(x) => self.render(x, out),
            Directive::Price(x) => self.render(x, out),
            Directive::Query(x) => self.render(x, out),
            Directive::Transaction(x) => self.render(x, out),
            Directive::Unsupported => {
                assert(final(out)@ =~= old(out)@ + directive_text(*directive));
                Err(BasicRendererError::Unsupported)
            },
        }
    }
}

/// The first `Unsupported` directive lies within the sequence, all before it
/// are supported, and it is `Unsupported` where it is not the end.
proof fn lemma_first_unsupported_bound(ds: Seq<Directive>)
    ensures
        0 <= first_unsupported(ds) <= ds.len(),
        first_unsupported(ds) < ds.len() ==> ds[first_unsupported(ds)] is Unsupported,
        forall|j: int| 0 <= j < first_unsupported(ds) ==> !(ds[j] is Unsupported),
    decreases ds.len(),
{
    if ds.len() > 0 && !(ds[0] is Unsupported) {
        let rest = ds.drop_first();
        lemma_first_unsupported_bound(rest);
        assert forall|j: int| 0 <= j < first_unsupported(ds) implies !(ds[j] is Unsupported) by {
            if j > 0 {
                assert(ds[j] == rest[j - 1]);
            }
        }
    }
}

/// Where the first `i` directives are supported, the first unsupported one is
/// not among them, and it is the `i`-th where that one is unsupported.
pub(crate) proof fn lemma_first_unsupported_at(ds: Seq<Directive>, i: int)
    requires
        0 <= i <= ds.len(),
        forall|j: int| 0 <= j < i ==> !(ds[j] is Unsupported),
    ensures
        i <= first_unsupported(ds) <= ds.len(),
        i < ds.len() && ds[i] is Unsupported ==> first_unsupported(ds) == i,
    decreases i,
{
    lemma_first_unsupported_bound(ds);
    if i > 0 {
        let rest = ds.drop_first();
        assert forall|j: int| 0 <= j < i - 1 implies !(rest[j] is Unsupported) by {
            assert(rest[j] == ds[j + 1]);
        }
        lemma_first_unsupported_at(rest, i - 1);
        if i < ds.len() {
            assert(rest[i - 1] == ds[i]);
        }
    }
}

impl<'a> Renderer<&'a Ledger> for BasicRenderer {
    open spec fn written(&self, item: &'a Ledger) -> Seq<char> {
        ledger_text(*item)
    }

    open spec fn outcome(&self, item: &'a Ledger) -> Result<(), BasicRendererError> {
        ledger_outcome(*item)
    }

    fn render(&self, ledger: &'a Ledger, out: &mut String) -> (r: Result<(), BasicRendererError>) {
        proof {
            reveal_strlit("\n");
            assert("\n"@ =~= seq!['\n']);
        }
        let ghost start = out@;
        let ghost ds = ledger.directives@;
        let mut i: usize = 0;
        while i < ledger.directives.len()
            invariant
                i <= ds.len(),
                start == old(out)@,
                ds == ledger.directives@,
                forall|j: int| 0 <= j < i ==> !(ds[j] is Unsupported),
                out@ == start + directives_text(ds.take(i as int)),
                "\n"@ == seq!['\n'],
            decreases ds.len() - i,
        {
            let ghost before = out@;
            let result = self.render(&ledger.directives[i], out);
            if result.is_err() {
                proof {
                    assert(ds[i as int] is Unsupported);
                    assert(out@ =~= before);
                    lemma_first_unsupported_at(ds, i as int);
                    assert(out@ =~= start + ledger_text(*ledger));
                }
                return result;
            }
            out.append("\n");
            proof {
                assert(ds.take(i + 1).drop_last() =~= ds.take(i as int));
                assert(ds.take(i + 1).last() == ds[i as int]);
            }
            i = i + 1;
            assert(out@ =~= start + directives_text(ds.take(i as int)));
        }
        proof {
            lemma_first_unsupported_at(ds, ds.len() as int);
            assert(ds.take(ds.len() as int) =~= ds);
        }
        Ok(())
    }
}

/// Renders a document directive.
pub fn render(out: &mut String, document: &Document) -> (r: Result<(), BasicRendererError>)
    ensures
        final(out)@ == old(out)@ + document_text(*document),
        r is Ok,
{
    BasicRenderer::new().render(document, out)
}

/// Renders a whole ledger: each directive in order, each followed by a blank
/// line, up to the first `Unsupported` one, where it stops with that error.
pub fn render_ledger(out: &mut String, ledger: &Ledger) -> (r: Result<(), BasicRendererError>)
    ensures
        final(out)@ == old(out)@ + ledger_text(*ledger),
        r == ledger_outcome(*ledger),
        r is Err <==> exists|i: int|
            0 <= i < ledger.directives@.len() && ledger.directives@[i] is Unsupported,
        r is Err ==> r == Err::<(), BasicRendererError>(BasicRendererError::Unsupported),
{
    proof {
        lemma_first_unsupported_bound(ledger.directives@);
    }
    BasicRenderer::new().render(ledger, out)
}

} // verus!
