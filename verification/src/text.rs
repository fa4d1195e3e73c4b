use vstd::prelude::*;

verus! {

/// The character of a decimal digit.
pub open spec fn digit_char(digit: int) -> char {
    if digit == 0 {
        '0'
    } else if digit == 1 {
        '1'
    } else if digit == 2 {
        '2'
    } else if digit == 3 {
        '3'
    } else if digit == 4 {
        '4'
    } else if digit == 5 {
        '5'
    } else if digit == 6 {
        '6'
    } else if digit == 7 {
        '7'
    } else if digit == 8 {
        '8'
    } else {
        '9'
    }
}

/// The decimal digits of a number that is not negative, without leading zeros.
pub open spec fn digits(n: int) -> Seq<char>
    decreases n,
{
    if n < 10 {
        seq![digit_char(n)]
    } else {
        digits(n / 10).push(digit_char(n % 10))
    }
}

/// A whole number written in decimal, with a minus sign if it is negative.
pub open spec fn decimal(n: int) -> Seq<char> {
    if n < 0 {
        seq!['-'] + digits(-n)
    } else {
        digits(n)
    }
}

/// A text as the debug format writes it: between double quotes, with escapes.
pub uninterp spec fn debug_of(text: Seq<char>) -> Seq<char>;

/// A whole number written in decimal.
///
/// Calls `to_string` on an `i64`, which writes the number in decimal, with a minus
/// sign if it is negative and without leading zeros.
#[verifier::external_body]
pub(crate) fn int_text(n: i64) -> (out: String)
    ensures
        out@ == decimal(n as int),
{
    n.to_string()
}

/// A text in the debug format.
///
/// Formats a `str` with `{:?}`, which puts it between double quotes and escapes
/// what cannot stand there as it is.
#[verifier::external_body]
pub(crate) fn debug_text(text: &str) -> (out: String)
    ensures
        out@ == debug_of(text@),
{
    format!("{:?}", text)
}

/// A number that is not negative, written in decimal.
pub fn u32_text(n: u32) -> (out: String)
    ensures
        out@ == decimal(n as int),
{
    int_text(n as i64)
}

/// A whole number, written in decimal.
pub fn i64_text(n: i64) -> (out: String)
    ensures
        out@ == decimal(n as int),
{
    int_text(n)
}

/// A text as the debug format writes it.
pub fn quoted(text: &str) -> (out: String)
    ensures
        out@ == debug_of(text@),
{
    debug_text(text)
}

/// The texts of `items`, one after the other, with `separator` between each two.
pub open spec fn joined(items: Seq<Seq<char>>, separator: Seq<char>) -> Seq<char>
    decreases items.len(),
{
    if items.len() == 0 {
        Seq::empty()
    } else if items.len() == 1 {
        items[0]
    } else {
        joined(items.drop_last(), separator) + separator + items.last()
    }
}

/// Joins `items` with `separator` between each two.
pub fn join(items: &Vec<String>, separator: &str) -> (out: String)
    ensures
        out@ == joined(crate::record::texts(items@), separator@),
{
    let ghost all = crate::record::texts(items@);
    let mut out = String::new();
    let mut i: usize = 0;
    assert(all.take(0) =~= Seq::<Seq<char>>::empty());
    while i < items.len()
        invariant
            i <= items@.len(),
            all == crate::record::texts(items@),
            out@ == joined(all.take(i as int), separator@),
        decreases items@.len() - i,
    {
        let ghost before = out@;
        let ghost prefix = all.take(i + 1);
        assert(prefix.drop_last() =~= all.take(i as int));
        assert(prefix.last() == items@[i as int]@);
        if i > 0 {
            out.append(separator);
        }
        out.append(items[i].as_str());
        proof {
            if i == 0 {
                assert(before =~= Seq::<char>::empty());
                assert(out@ =~= prefix[0]);
            }
        }
        i += 1;
    }
    assert(all.take(i as int) =~= all);
    out
}

} // verus!
