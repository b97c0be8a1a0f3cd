//! How JSON text is read: what holds of the texts of this library because a reader gets back from
//! them what was written.
use vstd::prelude::*;

use crate::document::{comma_separated, escaped, escaped_char, hex_char};
use crate::text::decimal;
use crate::txid::{hex_value, is_hex_digit};

verus! {

/// The number that decimal digits stand for.
pub open spec fn numeral_value(digits: Seq<char>) -> nat
    decreases digits.len(),
{
    if digits.len() == 0 {
        0
    } else {
        10 * numeral_value(digits.drop_last()) + (digits.last() as nat - '0' as nat) as nat
    }
}

/// Whether `text` writes `n` in decimal digits, without a zero in front of others.
pub open spec fn writes_number(text: Seq<char>, n: nat) -> bool {
    &&& text.len() > 0
    &&& forall|i: int| 0 <= i < text.len() ==> '0' <= #[trigger] text[i] <= '9'
    &&& text.len() > 1 ==> text[0] != '0'
    &&& numeral_value(text) == n
}

/// The numeral of a number stands for that number.
pub proof fn numerals_are_read_back(n: nat)
    ensures
        writes_number(decimal(n), n),
    decreases n,
{
    let text = decimal(n);
    if n < 10 {
        reveal_with_fuel(numeral_value, 2);
        assert(text.drop_last() =~= seq![]);
    } else {
        numerals_are_read_back(n / 10);
        let shorter = decimal(n / 10);
        assert(text.drop_last() =~= shorter);
        assert(text[0] == shorter[0]);
        assert forall|i: int| 0 <= i < text.len() implies '0' <= #[trigger] text[i] <= '9' by {
            if i < shorter.len() {
                assert(text[i] == shorter[i]);
            }
        }
        if shorter.len() == 1 && shorter[0] == '0' {
            reveal_with_fuel(numeral_value, 2);
            assert(shorter.drop_last() =~= seq![]);
        }
    }
}

/// Digits without a zero in front stand for more than zero.
proof fn lemma_positive(text: Seq<char>)
    requires
        text.len() > 0,
        text[0] != '0',
        forall|i: int| 0 <= i < text.len() ==> '0' <= #[trigger] text[i] <= '9',
    ensures
        numeral_value(text) > 0,
    decreases text.len(),
{
    if text.len() > 1 {
        let shorter = text.drop_last();
        assert forall|i: int| 0 <= i < shorter.len() implies '0' <= #[trigger] shorter[i] <= '9' by {
            assert(shorter[i] == text[i]);
        }
        lemma_positive(shorter);
    }
}

/// A number is written in one way.
pub proof fn numerals_are_unique(text: Seq<char>, n: nat)
    requires
        writes_number(text, n),
    ensures
        text == decimal(n),
    decreases text.len(),
{
    let shorter = text.drop_last();
    let digit = (text.last() as nat - '0' as nat) as nat;
    assert('0' <= text[text.len() - 1] <= '9');
    assert forall|i: int| 0 <= i < shorter.len() implies '0' <= #[trigger] shorter[i] <= '9' by {
        assert(shorter[i] == text[i]);
    }
    if text.len() == 1 {
        reveal_with_fuel(numeral_value, 2);
        assert(n == digit);
        assert(text =~= decimal(n));
    } else {
        assert(shorter[0] == text[0]);
        lemma_positive(shorter);
        let m = numeral_value(shorter);
        assert(n == 10 * m + digit);
        assert(n / 10 == m && n % 10 == digit);
        numerals_are_unique(shorter, m);
        assert(text =~= shorter.push(text.last()));
    }
}

/// The character that stands for itself or for what a backslash and a letter mean, where it is one.
pub open spec fn meant_by_escape(c: char) -> Option<char> {
    if c == '"' || c == '\\' || c == '/' {
        Some(c)
    } else if c == 'b' {
        Some(8nat as char)
    } else if c == 'f' {
        Some(12nat as char)
    } else if c == 'n' {
        Some('\n')
    } else if c == 'r' {
        Some('\r')
    } else if c == 't' {
        Some('\t')
    } else {
        None
    }
}

/// The characters that `text` stands for between the quotation marks of a JSON string, where it can
/// stand there and every `\u` in it means a character below `U+0100`.
pub open spec fn unescaped(text: Seq<char>) -> Option<Seq<char>>
    decreases text.len(),
{
    if text.len() == 0 {
        Some(seq![])
    } else if text[0] == '"' || (text[0] as nat) < 0x20 {
        None
    } else if text[0] != '\\' {
        match unescaped(text.skip(1)) {
            Some(rest) => Some(seq![text[0]] + rest),
            None => None,
        }
    } else if text.len() > 1 && meant_by_escape(text[1]) is Some {
        match unescaped(text.skip(2)) {
            Some(rest) => Some(seq![meant_by_escape(text[1])->Some_0] + rest),
            None => None,
        }
    } else if text.len() > 5 && text[1] == 'u' && text[2] == '0' && text[3] == '0' && is_hex_digit(
        text[4],
    ) && is_hex_digit(text[5]) {
        match unescaped(text.skip(6)) {
            Some(rest) => Some(
                seq![(16 * hex_value(text[4]) + hex_value(text[5])) as char] + rest,
            ),
            None => None,
        }
    } else {
        None
    }
}

/// Escaping goes from front to back as well.
proof fn lemma_escaped_front(s: Seq<char>)
    requires
        s.len() > 0,
    ensures
        escaped(s) == escaped_char(s[0]) + escaped(s.skip(1)),
    decreases s.len(),
{
    if s.len() == 1 {
        assert(s.drop_last() =~= seq![]);
        assert(s.skip(1) =~= seq![]);
        assert(escaped(s) =~= escaped_char(s[0]) + escaped(s.skip(1)));
    } else {
        let shorter = s.drop_last();
        lemma_escaped_front(shorter);
        assert(shorter.skip(1) =~= s.skip(1).drop_last());
        assert(shorter[0] == s[0]);
        assert(s.skip(1).last() == s.last());
        assert(escaped(s) =~= escaped_char(s[0]) + escaped(s.skip(1)));
    }
}

/// A character is the one of its number.
proof fn lemma_char_of_number(c: char, n: nat)
    requires
        c as nat == n,
    ensures
        n as char == c,
{
}

/// A reader of a JSON string gets back the characters that were written, whatever they are.
pub proof fn strings_are_read_back(s: Seq<char>)
    ensures
        unescaped(escaped(s)) == Some(s),
    decreases s.len(),
{
    if s.len() == 0 {
        assert(s =~= seq![]);
    } else {
        let c = s[0];
        let rest = s.skip(1);
        let text = escaped(s);
        lemma_escaped_front(s);
        strings_are_read_back(rest);
        let first = escaped_char(c);
        assert(text == first + escaped(rest));
        assert(text.skip(first.len() as int) =~= escaped(rest));
        assert forall|i: int| 0 <= i < first.len() implies #[trigger] text[i] == first[i] by {}
        if first.len() == 6 {
            assert((c as nat) < 0x20);
            let d = c as nat / 16;
            let e = c as nat % 16;
            assert(text[0] == first[0] && text[1] == first[1] && text[2] == first[2] && text[3]
                == first[3] && text[4] == first[4] && text[5] == first[5]);
            assert(text[4] == hex_char(d) && text[5] == hex_char(e));
            assert(is_hex_digit(hex_char(d)) && hex_value(hex_char(d)) == d);
            assert(is_hex_digit(hex_char(e)) && hex_value(hex_char(e)) == e);
            assert(16 * d + e == c as nat);
            lemma_char_of_number(c, 16 * d + e);
        } else if first.len() == 2 {
            assert(text[0] == first[0] && text[1] == first[1]);
            if c as nat == 8 || c as nat == 12 {
                lemma_char_of_number(c, c as nat);
            }
            assert(meant_by_escape(text[1]) == Some(c));
            assert(unescaped(text.skip(2)) == Some(rest));
        } else {
            assert(text[0] == first[0]);
        }
        assert(seq![c] + rest =~= s);
    }
}

/// Whether `text` is `items` one after the other, with a comma between neighbours and nothing else.
pub open spec fn lists(text: Seq<char>, items: Seq<Seq<char>>) -> bool
    decreases items.len(),
{
    if items.len() == 0 {
        text.len() == 0
    } else if items.len() == 1 {
        text == items[0]
    } else {
        let end = items[0].len() as int;
        &&& text.len() > end
        &&& text.take(end) == items[0]
        &&& text[end] == ','
        &&& lists(text.skip(end + 1), items.skip(1))
    }
}

/// The items of a list that is written with commas follow the first one.
proof fn lemma_commas_front(items: Seq<Seq<char>>)
    requires
        items.len() > 1,
    ensures
        comma_separated(items) == items[0] + seq![','] + comma_separated(items.skip(1)),
    decreases items.len(),
{
    let shorter = items.drop_last();
    if items.len() == 2 {
        assert(comma_separated(shorter) == items[0]);
        assert(items.skip(1).len() == 1);
        assert(items.skip(1)[0] == items.last());
    } else {
        lemma_commas_front(shorter);
        assert(shorter.skip(1) =~= items.skip(1).drop_last());
        assert(shorter[0] == items[0]);
        assert(items.skip(1).last() == items.last());
    }
    assert(comma_separated(items) =~= items[0] + seq![','] + comma_separated(items.skip(1)));
}

/// A list is written with all its items, in their order.
pub proof fn lists_are_written_in_full(items: Seq<Seq<char>>)
    ensures
        lists(comma_separated(items), items),
    decreases items.len(),
{
    if items.len() > 1 {
        let text = comma_separated(items);
        let end = items[0].len() as int;
        lemma_commas_front(items);
        lists_are_written_in_full(items.skip(1));
        assert(text.take(end) =~= items[0]);
        assert(text.skip(end + 1) =~= comma_separated(items.skip(1)));
    }
}

/// How far into brackets and strings a reader of JSON text is.
pub struct Scan {
    pub depth: int,
    pub quoted: bool,
    pub escaping: bool,
}

impl Scan {
    /// Where a reader begins.
    pub open spec fn outside() -> Scan {
        Scan { depth: 0, quoted: false, escaping: false }
    }

    /// Where a reader is after one more character.
    pub open spec fn after(self, c: char) -> Scan {
        if self.escaping {
            Scan { escaping: false, ..self }
        } else if self.quoted {
            Scan { escaping: c == '\\', quoted: c != '"', ..self }
        } else if c == '[' || c == '{' {
            Scan { depth: self.depth + 1, ..self }
        } else if c == ']' || c == '}' {
            Scan { depth: self.depth - 1, ..self }
        } else {
            Scan { quoted: c == '"', ..self }
        }
    }
}

/// Where a reader is after `text`.
pub open spec fn scan(text: Seq<char>) -> Scan
    decreases text.len(),
{
    if text.len() == 0 {
        Scan::outside()
    } else {
        scan(text.drop_last()).after(text.last())
    }
}

/// Whether `text` can be one item of an array: its brackets and strings are closed, and every comma
/// in it stands inside them. This holds of the text of every JSON value.
pub open spec fn stands_alone(text: Seq<char>) -> bool {
    &&& text.len() > 0
    &&& scan(text) == Scan::outside()
    &&& forall|k: int|
        0 <= k < text.len() && #[trigger] text[k] == ',' ==> scan(text.take(k)) != Scan::outside()
}

/// The first item of one list does not end inside the first item of another that is written alike.
proof fn lemma_first_item_is_not_shorter(a: Seq<Seq<char>>, b: Seq<Seq<char>>)
    requires
        a.len() > 0,
        b.len() > 0,
        stands_alone(a[0]),
        stands_alone(b[0]),
        comma_separated(a) == comma_separated(b),
    ensures
        a[0].len() >= b[0].len(),
{
    let text = comma_separated(a);
    let end = a[0].len() as int;
    if b.len() > 1 {
        lemma_commas_front(b);
    }
    assert(text.take(b[0].len() as int) =~= b[0]);
    if end < b[0].len() {
        if a.len() > 1 {
            lemma_commas_front(a);
            assert(text[end] == ',');
            assert(b[0][end] == text[end]);
            assert(b[0].take(end) =~= a[0]);
        }
    }
}

/// Lists that differ are written differently.
pub proof fn lists_are_told_apart(a: Seq<Seq<char>>, b: Seq<Seq<char>>)
    requires
        forall|i: int| 0 <= i < a.len() ==> stands_alone(#[trigger] a[i]),
        forall|i: int| 0 <= i < b.len() ==> stands_alone(#[trigger] b[i]),
        comma_separated(a) == comma_separated(b),
    ensures
        a == b,
    decreases a.len(),
{
    if a.len() > 1 {
        lemma_commas_front(a);
    }
    if b.len() > 1 {
        lemma_commas_front(b);
    }
    if a.len() > 0 {
        assert(stands_alone(a[0]));
    }
    if b.len() > 0 {
        assert(stands_alone(b[0]));
    }
    if a.len() == 0 || b.len() == 0 {
        assert(a.len() == b.len());
        assert(a =~= b);
    } else {
        lemma_first_item_is_not_shorter(a, b);
        lemma_first_item_is_not_shorter(b, a);
        let text = comma_separated(a);
        let end = a[0].len() as int;
        assert(text.take(end) =~= a[0]);
        assert(text.take(end) =~= b[0]);
        assert(a.len() == 1 <==> text.len() == end);
        assert(b.len() == 1 <==> text.len() == end);
        if a.len() > 1 {
            assert(text.skip(end + 1) =~= comma_separated(a.skip(1)));
            assert(text.skip(end + 1) =~= comma_separated(b.skip(1)));
            assert forall|i: int| 0 <= i < a.skip(1).len() implies stands_alone(
                #[trigger] a.skip(1)[i],
            ) by {
                assert(a.skip(1)[i] == a[i + 1]);
            }
            assert forall|i: int| 0 <= i < b.skip(1).len() implies stands_alone(
                #[trigger] b.skip(1)[i],
            ) by {
                assert(b.skip(1)[i] == b[i + 1]);
            }
            lists_are_told_apart(a.skip(1), b.skip(1));
            assert(a =~= seq![a[0]] + a.skip(1));
            assert(b =~= seq![b[0]] + b.skip(1));
        } else {
            assert(a =~= b);
        }
    }
}

} // verus!
