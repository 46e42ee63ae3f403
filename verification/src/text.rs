//! The few pieces of text that the queue's users are shown: numbers in
//! decimal, and the lines that describe an order's items.

use vstd::prelude::*;
use crate::wix::{OrderLineItem, OrderLineItemOption, OrderNumber};

verus! {

/// The character for the digit `d`.
pub open spec fn digit_char(d: int) -> char
    recommends
        0 <= d < 10,
{
    if d == 0 {
        '0'
    } else if d == 1 {
        '1'
    } else if d == 2 {
        '2'
    } else if d == 3 {
        '3'
    } else if d == 4 {
        '4'
    } else if d == 5 {
        '5'
    } else if d == 6 {
        '6'
    } else if d == 7 {
        '7'
    } else if d == 8 {
        '8'
    } else {
        '9'
    }
}

/// The decimal digits of `n`, most significant first, without leading zeros.
pub open spec fn digits_of(n: nat) -> Seq<char>
    decreases n,
{
    if n < 10 {
        seq![digit_char(n as int)]
    } else {
        digits_of(n / 10).push(digit_char((n % 10) as int))
    }
}

/// `n` in decimal, with a minus sign in front if it is negative.
pub open spec fn decimal_of(n: int) -> Seq<char> {
    if n < 0 {
        seq!['-'] + digits_of((-n) as nat)
    } else {
        digits_of(n as nat)
    }
}

/// The digits `low`, which stand least significant first, as characters with
/// the most significant first.
spec fn turned(low: Seq<u8>) -> Seq<char> {
    Seq::new(low.len(), |i: int| digit_char(low[low.len() - 1 - i] as int))
}

/// The digit `d` as text.
fn digit_str(d: u8) -> (res: &'static str)
    requires
        d < 10,
    ensures
        res@ == seq![digit_char(d as int)],
{
    proof {
        reveal_strlit("0");
        reveal_strlit("1");
        reveal_strlit("2");
        reveal_strlit("3");
        reveal_strlit("4");
        reveal_strlit("5");
        reveal_strlit("6");
        reveal_strlit("7");
        reveal_strlit("8");
        reveal_strlit("9");
    }
    if d == 0 {
        "0"
    } else if d == 1 {
        "1"
    } else if d == 2 {
        "2"
    } else if d == 3 {
        "3"
    } else if d == 4 {
        "4"
    } else if d == 5 {
        "5"
    } else if d == 6 {
        "6"
    } else if d == 7 {
        "7"
    } else if d == 8 {
        "8"
    } else {
        "9"
    }
}

/// Writes `n` in decimal.
pub fn decimal(n: i64) -> (res: String)
    ensures
        res@ == decimal_of(n as int),
{
    let mut out = String::new();
    let magnitude: u64 = if n < 0 {
        proof {
            reveal_strlit("-");
        }
        out.append("-");
        ((-(n + 1)) as u64) + 1
    } else {
        n as u64
    };
    let ghost sign = out@;
    let mut rest: u64 = magnitude;
    let mut low: Vec<u8> = Vec::new();
    while rest >= 10
        invariant
            digits_of(magnitude as nat) =~= digits_of(rest as nat) + turned(low@),
            forall|i: int| 0 <= i < low@.len() ==> low@[i] < 10,
        decreases rest,
    {
        let digit: u8 = (rest % 10) as u8;
        low.push(digit);
        rest = rest / 10;
    }
    out.append(digit_str(rest as u8));
    let mut left: usize = low.len();
    while left > 0
        invariant
            left <= low@.len(),
            forall|i: int| 0 <= i < low@.len() ==> low@[i] < 10,
            out@ =~= sign + digits_of(rest as nat) + turned(low@).take(low@.len() - left),
        decreases left,
    {
        left = left - 1;
        out.append(digit_str(low[left]));
    }
    out
}

impl OrderNumber {
    /// The order number as it is shown: in decimal.
    pub fn to_text(&self) -> (res: String)
        ensures
            res@ == decimal_of(self@),
    {
        decimal(self.0 as i64)
    }
}

/// The line that shows a choice made for an item: option and selection with
/// a colon and a space between them.
pub open spec fn option_label_of(option: Seq<char>, selection: Seq<char>) -> Seq<char> {
    option + seq![':', ' '] + selection
}

/// The line that names an item: the name alone for a single piece, and for
/// more than one the quantity, an `x`, a space and the name.
pub open spec fn item_label_of(quantity: int, name: Seq<char>) -> Seq<char> {
    if quantity > 1 {
        decimal_of(quantity) + seq!['x', ' '] + name
    } else {
        name
    }
}

/// The lines of `labels` with a line feed between each two.
pub open spec fn joined_lines(labels: Seq<Seq<char>>) -> Seq<char>
    decreases labels.len(),
{
    if labels.len() == 0 {
        Seq::empty()
    } else if labels.len() == 1 {
        labels[0]
    } else {
        joined_lines(labels.drop_last()) + seq!['\n'] + labels.last()
    }
}

impl OrderLineItemOption {
    /// The line that shows this choice.
    pub fn label(&self) -> (res: String)
        ensures
            res@ == option_label_of(self@.option, self@.selection),
    {
        let mut out = self.option.clone();
        proof {
            reveal_strlit(": ");
        }
        out.append(": ");
        out.append(self.selection.as_str());
        out
    }
}

impl OrderLineItem {
    /// The line that names this item.
    pub fn label(&self) -> (res: String)
        ensures
            res@ == item_label_of(self@.quantity as int, self@.name),
    {
        if self.quantity > 1 {
            let mut out = decimal(self.quantity);
            proof {
                reveal_strlit("x ");
            }
            out.append("x ");
            out.append(self.name.as_str());
            out
        } else {
            self.name.clone()
        }
    }

    /// The choices made for this item, one line each.
    pub fn options_summary(&self) -> (res: String)
        ensures
            res@ == joined_lines(
                Seq::new(
                    self@.options.len(),
                    |i: int| option_label_of(self@.options[i].option, self@.options[i].selection),
                ),
            ),
    {
        let ghost labels = Seq::new(
            self@.options.len(),
            |i: int| option_label_of(self@.options[i].option, self@.options[i].selection),
        );
        let mut out = String::new();
        let mut at: usize = 0;
        while at < self.options.len()
            invariant
                at <= self.options@.len(),
                labels.len() == self.options@.len(),
                forall|i: int| 0 <= i < labels.len() ==> labels[i] == option_label_of(
                    (#[trigger] self.options@[i])@.option,
                    self.options@[i]@.selection,
                ),
                out@ == joined_lines(labels.take(at as int)),
            decreases self.options@.len() - at,
        {
            proof {
                assert(labels.take(at + 1).drop_last() =~= labels.take(at as int));
                reveal_strlit("\n");
            }
            if at > 0 {
                out.append("\n");
            }
            let line = self.options[at].label();
            out.append(line.as_str());
            at = at + 1;
        }
        assert(labels.take(at as int) =~= labels);
        out
    }
}

} // verus!
