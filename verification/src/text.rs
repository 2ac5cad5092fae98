//! Pieces of text: numbers in decimal, and strings joined by a separator.

use iter_tools::prelude::Itertools;
use vstd::prelude::*;
use vstd::string::StringExecFns;

verus! {

/// The character for a single decimal digit.
pub open spec fn digit(d: nat) -> char
    recommends
        d < 10,
{
    if d == 0 {
        '0'
    } else if d == 1 {
        '1'
    } else if d == 2 {
        '2'
    } else if d == 3 {
        '3'
    } else if d == 4 {
        '4'
    } else if d == 5 {
        '5'
    } else if d == 6 {
        '6'
    } else if d == 7 {
        '7'
    } else if d == 8 {
        '8'
    } else {
        '9'
    }
}

/// A number written in decimal, without sign, padding or leading zeros.
pub open spec fn decimal(n: nat) -> Seq<char>
    decreases n,
{
    if n < 10 {
        seq![digit(n)]
    } else {
        decimal(n / 10).push(digit(n % 10))
    }
}

/// The number that a string of decimal digits stands for.
pub open spec fn number(digits: Seq<char>) -> nat
    decreases digits.len(),
{
    if digits.len() == 0 {
        0
    } else {
        10 * number(digits.drop_last()) + (digits.last() as int - '0' as int) as nat
    }
}

/// `decimal` is the usual notation: at least one digit and nothing but
/// digits, no leading zero but for zero itself, and read back it gives the
/// number.
pub proof fn lemma_decimal_reads_back(n: nat)
    ensures
        decimal(n).len() >= 1,
        forall|i: int| 0 <= i < decimal(n).len() ==> '0' <= #[trigger] decimal(n)[i] <= '9',
        n > 0 ==> decimal(n)[0] != '0',
        number(decimal(n)) == n,
    decreases n,
{
    if n < 10 {
        assert(number(decimal(n).drop_last()) == 0);
    } else {
        lemma_decimal_reads_back(n / 10);
        assert(decimal(n).drop_last() =~= decimal(n / 10));
    }
}

/// All the parts one after the other.
pub open spec fn concat(parts: Seq<Seq<char>>) -> Seq<char>
    decreases parts.len(),
{
    if parts.len() == 0 {
        Seq::empty()
    } else {
        concat(parts.drop_last()) + parts.last()
    }
}

/// The parts one after the other with a separator between each two of them.
pub open spec fn joined(parts: Seq<Seq<char>>, sep: Seq<char>) -> Seq<char>
    decreases parts.len(),
{
    if parts.len() == 0 {
        Seq::empty()
    } else if parts.len() == 1 {
        parts[0]
    } else {
        joined(parts.drop_last(), sep) + sep + parts.last()
    }
}

/// The items in their order with `sep` put between each two of them: the
/// items at the even places, `sep` at the odd ones.
pub open spec fn interspersed(items: Seq<Seq<char>>, sep: Seq<char>) -> Seq<Seq<char>> {
    if items.len() == 0 {
        Seq::empty()
    } else {
        Seq::new(
            (2 * items.len() - 1) as nat,
            |i: int|
                if i % 2 == 0 {
                    items[i / 2]
                } else {
                    sep
                },
        )
    }
}

/// Putting the separator between the parts and then stringing everything
/// together is joining the parts.
pub proof fn lemma_concat_interspersed(parts: Seq<Seq<char>>, sep: Seq<char>)
    ensures
        concat(interspersed(parts, sep)) == joined(parts, sep),
    decreases parts.len(),
{
    let all = interspersed(parts, sep);
    if parts.len() == 1 {
        assert(concat(all.drop_last()) =~= Seq::<char>::empty());
    } else if parts.len() >= 2 {
        let shorter = interspersed(parts.drop_last(), sep);
        let front = all.drop_last();
        assert(front.drop_last() =~= shorter);
        assert(concat(front) == concat(shorter) + sep);
        lemma_concat_interspersed(parts.drop_last(), sep);
    }
}

/// The string of one decimal digit.
fn digit_str(d: u128) -> (s: &'static str)
    requires
        d < 10,
    ensures
        s@ == seq![digit(d as nat)],
{
    proof {
        reveal_strlit("0");
        reveal_strlit("1");
        reveal_strlit("2");
        reveal_strlit("3");
        reveal_strlit("4");
        reveal_strlit("5");
        reveal_strlit("6");
        reveal_strlit("7");
        reveal_strlit("8");
        reveal_strlit("9");
    }
    if d == 0 {
        "0"
    } else if d == 1 {
        "1"
    } else if d == 2 {
        "2"
    } else if d == 3 {
        "3"
    } else if d == 4 {
        "4"
    } else if d == 5 {
        "5"
    } else if d == 6 {
        "6"
    } else if d == 7 {
        "7"
    } else if d == 8 {
        "8"
    } else {
        "9"
    }
}

/// Writes a number in decimal at the end of a string.
pub fn push_decimal(out: &mut String, n: u128)
    ensures
        final(out)@ == old(out)@ + decimal(n as nat),
    decreases n,
{
    if n >= 10 {
        push_decimal(out, n / 10);
    }
    out.append(digit_str(n % 10));
}

/// Strings the parts together.
pub fn concat_all(parts: &Vec<String>) -> (out: String)
    ensures
        out@ == concat(parts.deep_view()),
{
    let ghost all = parts.deep_view();
    let mut out = String::new();
    let mut i: usize = 0;
    while i < parts.len()
        invariant
            i <= parts.len(),
            all == parts.deep_view(),
            out@ == concat(all.take(i as int)),
        decreases parts.len() - i,
    {
        out.append(parts[i].as_str());
        assert(all.take(i + 1).drop_last() =~= all.take(i as int));
        i += 1;
    }
    assert(all.take(parts.len() as int) =~= all);
    out
}

/// Calls `Itertools::intersperse` of iter_tools with the items as the
/// iterator and a separator as the element, and collects what the adaptor
/// yields: the items in their order, each but the first preceded by a copy
/// of the separator.
#[verifier::external_body]
fn intersperse(items: &Vec<String>, sep: &String) -> (out: Vec<String>)
    ensures
        out.deep_view() == interspersed(items.deep_view(), sep@),
{
    Itertools::intersperse(items.iter(), sep).cloned().collect()
}

/// Joins the parts with a separator between each two of them.
pub fn join(parts: &Vec<String>, sep: &String) -> (out: String)
    ensures
        out@ == joined(parts.deep_view(), sep@),
{
    let pieces = intersperse(parts, sep);
    proof {
        lemma_concat_interspersed(parts.deep_view(), sep@);
    }
    concat_all(&pieces)
}

} // verus!
