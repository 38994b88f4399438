use vstd::prelude::*;
use crate::model::{
    account_text, account_type_name, close_text, meta_text, prefixed, Account, Close,
    booking_suffix, cost_fields, cost_text, directives_text,
    incomplete_amount_text, ledger_text, quoted, Booking, CostSpec, IncompleteAmount,
    Ledger,
};
use crate::date::{lemma_ymd_text_reads_back, read_ymd, valid_ymd};
use crate::render::{lemma_first_unsupported_at, ledger_outcome, BasicRendererError};

verus! {

/// A ledger whose directive at `i` is `Unsupported`, all before it being
/// supported, fails with `Unsupported`, and what was written is exactly the
/// text of the directives before it: nothing after them.
pub proof fn lemma_unsupported_stops_ledger(l: Ledger, i: int)
    requires
        0 <= i < l.directives@.len(),
        l.directives@[i] is Unsupported,
        forall|j: int| 0 <= j < i ==> !(l.directives@[j] is Unsupported),
    ensures
        ledger_outcome(l) == Err::<(), BasicRendererError>(BasicRendererError::Unsupported),
        ledger_text(l) == directives_text(l.directives@.take(i)),
{
    lemma_first_unsupported_at(l.directives@, i);
}

/// A ledger of one `Unsupported` directive fails with `Unsupported` and
/// writes nothing.
pub proof fn lemma_lone_unsupported_ledger(l: Ledger)
    requires
        l.directives@.len() == 1,
        l.directives@[0] is Unsupported,
    ensures
        ledger_outcome(l) == Err::<(), BasicRendererError>(BasicRendererError::Unsupported),
        ledger_text(l) == Seq::<char>::empty(),
{
    lemma_unsupported_stops_ledger(l, 0);
}

/// A cost spec with a total number is wrapped in double braces; one without
/// is wrapped in single braces around its fields.
pub proof fn lemma_cost_braces(c: CostSpec)
    ensures
        c.number_total is Some ==> cost_text(c).take(2) == seq!['{', '{'] && cost_text(c).skip(
            cost_text(c).len() - 2,
        ) == seq!['}', '}'],
        c.number_total is None ==> cost_text(c) == seq!['{'] + cost_fields(c) + seq!['}'],
{
    let t = cost_text(c);
    if c.number_total is Some {
        assert(t.take(2) =~= seq!['{', '{']);
        assert(t.skip(t.len() - 2) =~= seq!['}', '}']);
    }
}

/// The text of an incomplete amount in each of its four shapes.
pub proof fn lemma_incomplete_amount_shapes(a: IncompleteAmount)
    ensures
        a.num is None && a.currency is None ==> incomplete_amount_text(a) == Seq::<char>::empty(),
        a.num is None && a.currency is Some ==> incomplete_amount_text(a) == a.currency->0@,
        a.num is Some && a.currency is None ==> incomplete_amount_text(a) == a.num->0@,
        a.num is Some && a.currency is Some ==> incomplete_amount_text(a) == a.num->0@ + seq![' ']
            + a.currency->0@,
{
}

/// The booking suffix is empty exactly for `Unspecified`; otherwise it is a
/// space and one quoted lowercase method name.
pub proof fn lemma_booking_suffix(b: Booking)
    ensures
        b == Booking::Unspecified <==> booking_suffix(b) == Seq::<char>::empty(),
        b != Booking::Unspecified ==> exists|name: Seq<char>|
            (name == seq!['s', 't', 'r', 'i', 'c', 't'] || name == seq![
                'a',
                'v',
                'e',
                'r',
                'a',
                'g',
                'e',
            ] || name == seq!['f', 'i', 'f', 'o'] || name == seq!['l', 'i', 'f', 'o'])
                && booking_suffix(b) == seq![' '] + quoted(name),
{
    if b != Booking::Unspecified {
        assert(booking_suffix(b).len() > 0);
        let name = match b {
            Booking::Strict => seq!['s', 't', 'r', 'i', 'c', 't'],
            Booking::Average => seq!['a', 'v', 'e', 'r', 'a', 'g', 'e'],
            Booking::Fifo => seq!['f', 'i', 'f', 'o'],
            _ => seq!['l', 'i', 'f', 'o'],
        };
        assert(booking_suffix(b) == seq![' '] + quoted(name));
    }
}

/// `f` with character `c` read: a `:` starts a new field, any other character
/// extends the last one.
pub open spec fn fields_step(f: Seq<Seq<char>>, c: char) -> Seq<Seq<char>> {
    if c == ':' {
        f.push(Seq::empty())
    } else {
        f.update(f.len() - 1, f.last().push(c))
    }
}

/// The `:`-separated fields of `s`, as a reader of account names splits them.
pub open spec fn fields(s: Seq<char>) -> Seq<Seq<char>>
    decreases s.len(),
{
    if s.len() == 0 {
        seq![Seq::empty()]
    } else {
        fields_step(fields(s.drop_last()), s.last())
    }
}

proof fn lemma_fields_nonempty(s: Seq<char>)
    ensures
        fields(s).len() >= 1,
    decreases s.len(),
{
    if s.len() > 0 {
        lemma_fields_nonempty(s.drop_last());
    }
}

/// Text without a `:` is one field.
proof fn lemma_fields_single(b: Seq<char>)
    requires
        !b.contains(':'),
    ensures
        fields(b) == seq![b],
    decreases b.len(),
{
    if b.len() > 0 {
        let d = b.drop_last();
        assert(!d.contains(':')) by {
            if d.contains(':') {
                let k = choose|k: int| 0 <= k < d.len() && d[k] == ':';
                assert(b[k] == ':');
            }
        }
        lemma_fields_single(d);
        assert(b.last() != ':') by {
            assert(b[b.len() - 1] == b.last());
        }
        assert(d.push(b.last()) =~= b);
        assert(fields(b) =~= seq![b]);
    } else {
        assert(b =~= Seq::<char>::empty());
    }
}

/// The fields of `a`, a `:`, then `y` are those of `a` followed by those of `y`.
proof fn lemma_fields_concat(a: Seq<char>, y: Seq<char>)
    ensures
        fields(a.push(':') + y) == fields(a) + fields(y),
    decreases y.len(),
{
    lemma_fields_nonempty(a);
    if y.len() == 0 {
        assert(a.push(':') + y =~= a.push(':'));
        assert(a.push(':').drop_last() =~= a);
        assert(fields(a.push(':')) =~= fields(a) + fields(y));
    } else {
        let y1 = y.drop_last();
        lemma_fields_concat(a, y1);
        lemma_fields_nonempty(y1);
        let whole = a.push(':') + y;
        assert(whole.drop_last() =~= a.push(':') + y1);
        assert(whole.last() == y.last());
        let f = fields(a);
        let g = fields(y1);
        assert(fields_step(f + g, y.last()) =~= f + fields_step(g, y.last()));
    }
}

/// Text followed by `:`-prefixed segments that hold no `:` splits into the
/// fields of that text followed by the segments.
proof fn lemma_fields_prefixed(x: Seq<char>, parts: Seq<String>)
    requires
        forall|i: int| 0 <= i < parts.len() ==> !parts[i]@.contains(':'),
    ensures
        fields(x + prefixed(parts, seq![':'])) == fields(x) + parts.map_values(|p: String| p@),
    decreases parts.len(),
{
    if parts.len() == 0 {
        assert(x + prefixed(parts, seq![':']) =~= x);
        assert(fields(x) + parts.map_values(|p: String| p@) =~= fields(x));
    } else {
        let d = parts.drop_last();
        lemma_fields_prefixed(x, d);
        lemma_fields_single(parts.last()@);
        let y = x + prefixed(d, seq![':']);
        assert(x + prefixed(parts, seq![':']) =~= y.push(':') + parts.last()@);
        lemma_fields_concat(y, parts.last()@);
        assert(parts.map_values(|p: String| p@) =~= d.map_values(|p: String| p@).push(
            parts.last()@,
        ));
        assert(fields(x + prefixed(parts, seq![':'])) =~= fields(x) + parts.map_values(
            |p: String| p@,
        ));
    }
}

/// Splitting the text of an account at each `:` gives back its type name and
/// its path segments, where none of the segments holds a `:`.
pub proof fn lemma_account_text_reads_back(a: Account)
    requires
        forall|i: int| 0 <= i < a.parts@.len() ==> !a.parts@[i]@.contains(':'),
    ensures
        fields(account_text(a)) == seq![account_type_name(a.ty)] + a.parts@.map_values(
            |p: String| p@,
        ),
{
    let name = account_type_name(a.ty);
    assert(!name.contains(':')) by {
        if name.contains(':') {
            let k = choose|k: int| 0 <= k < name.len() && name[k] == ':';
            assert(name[k] == ':');
        }
    }
    lemma_fields_single(name);
    lemma_fields_prefixed(name, a.parts@);
}

/// The text of a `Close` directive without metadata reads back to it: its
/// first ten characters give the date, ` close ` follows, and the rest of the
/// line splits at `:` into the account's type name and segments.
pub proof fn lemma_close_reads_back(c: Close)
    requires
        valid_ymd(c.date.spec_year(), c.date.spec_month(), c.date.spec_day()),
        c.meta.entries@.len() == 0,
        forall|i: int| 0 <= i < c.account.parts@.len() ==> !c.account.parts@[i]@.contains(':'),
    ensures
        read_ymd(close_text(c).take(10)) == (
            c.date.spec_year(),
            c.date.spec_month(),
            c.date.spec_day(),
        ),
        close_text(c).subrange(10, 17) == seq![' ', 'c', 'l', 'o', 's', 'e', ' '],
        close_text(c).last() == '\n',
        fields(close_text(c).subrange(17, close_text(c).len() - 1)) == seq![
            account_type_name(c.account.ty),
        ] + c.account.parts@.map_values(|p: String| p@),
{
    let t = close_text(c);
    let d = c.date.text();
    lemma_ymd_text_reads_back(c.date.spec_year(), c.date.spec_month(), c.date.spec_day());
    lemma_account_text_reads_back(c.account);
    assert(meta_text(c.meta) =~= Seq::<char>::empty());
    let a = account_text(c.account);
    assert(t =~= d + seq![' ', 'c', 'l', 'o', 's', 'e', ' '] + a + seq!['\n']);
    assert(t.take(10) =~= d);
    assert(t.subrange(10, 17) =~= seq![' ', 'c', 'l', 'o', 's', 'e', ' ']);
    assert(t.subrange(17, t.len() - 1) =~= a);
}

} // verus!
