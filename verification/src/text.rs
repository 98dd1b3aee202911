//! Integers written out in decimal.

use vstd::prelude::*;

verus! {

/// The ten decimal digits, in order.
pub open spec fn digits() -> Seq<char> {
    seq!['0', '1', '2', '3', '4', '5', '6', '7', '8', '9']
}

/// The decimal numeral of `n`: most significant digit first, no leading zero
/// but for zero itself.
pub open spec fn decimal_nat(n: nat) -> Seq<char>
    decreases n,
{
    if n < 10 {
        seq![digits()[n as int]]
    } else {
        decimal_nat(n / 10).push(digits()[(n % 10) as int])
    }
}

/// The decimal numeral of `n`, with a minus sign in front where `n` is negative.
pub open spec fn decimal(n: int) -> Seq<char> {
    if n < 0 {
        seq!['-'] + decimal_nat((-n) as nat)
    } else {
        decimal_nat(n as nat)
    }
}

/// The digit `d` as a string of one character.
fn digit_str(d: u8) -> (s: &'static str)
    requires
        d < 10,
    ensures
        s@ == seq![digits()[d as int]],
{
    let all = "0123456789";
    proof {
        reveal_strlit("0123456789");
        assert(all@ =~= digits());
    }
    let s = all.substring_ascii(d as usize, d as usize + 1);
    assert(s@ =~= seq![digits()[d as int]]);
    s
}

/// Writes `n` out in decimal.
pub fn decimal_u64(n: u64) -> (s: String)
    ensures
        s@ == decimal_nat(n as nat),
    decreases n,
{
    if n < 10 {
        digit_str(n as u8).to_owned()
    } else {
        let mut s = decimal_u64(n / 10);
        s.append(digit_str((n % 10) as u8));
        s
    }
}

/// Writes `n` out in decimal, with its sign where it is negative.
pub fn decimal_i64(n: i64) -> (s: String)
    ensures
        s@ == decimal(n as int),
{
    if n < 0 {
        let magnitude: u64 = if n == i64::MIN {
            9_223_372_036_854_775_808
        } else {
            (-n) as u64
        };
        let mut s = "-".to_owned();
        proof {
            reveal_strlit("-");
            assert(s@ =~= seq!['-']);
        }
        let digits = decimal_u64(magnitude);
        s.append(digits.as_str());
        s
    } else {
        decimal_u64(n as u64)
    }
}

/// The texts that a list of strings holds.
pub open spec fn texts(items: Seq<String>) -> Seq<Seq<char>> {
    Seq::new(items.len(), |i: int| items[i]@)
}

/// The decimal numerals of a list of bytes.
pub open spec fn numerals(bytes: Seq<u8>) -> Seq<Seq<char>> {
    Seq::new(bytes.len(), |i: int| decimal_nat(bytes[i] as nat))
}

/// The items one after the other, with `separator` between neighbours.
pub open spec fn joined(items: Seq<Seq<char>>, separator: Seq<char>) -> Seq<char>
    decreases items.len(),
{
    if items.len() == 0 {
        Seq::empty()
    } else if items.len() == 1 {
        items[0]
    } else {
        joined(items.drop_last(), separator) + separator + items.last()
    }
}

/// A list of bytes as `[1, 2, 3]`.
pub open spec fn byte_list(bytes: Seq<u8>) -> Seq<char> {
    seq!['['] + joined(numerals(bytes), ", "@) + seq![']']
}

/// Joins the items, putting `separator` between neighbours.
pub fn join(items: &Vec<String>, separator: &str) -> (s: String)
    ensures
        s@ == joined(texts(items@), separator@),
{
    let mut s = String::new();
    let mut i: usize = 0;
    while i < items.len()
        invariant
            i <= items.len(),
            s@ == joined(texts(items@).take(i as int), separator@),
        decreases items.len() - i,
    {
        let ghost before = texts(items@).take(i as int);
        let ghost after = texts(items@).take(i + 1);
        assert(after.drop_last() =~= before);
        assert(after.last() == items@[i as int]@);
        if i > 0 {
            s.append(separator);
        } else {
            assert(before =~= Seq::<Seq<char>>::empty());
            assert(s@ + items@[i as int]@ =~= items@[i as int]@);
        }
        s.append(items[i].as_str());
        i = i + 1;
    }
    assert(texts(items@).take(i as int) =~= texts(items@));
    s
}

/// Writes a list of bytes as `[1, 2, 3]`.
pub fn byte_list_text(bytes: &[u8]) -> (s: String)
    ensures
        s@ == byte_list(bytes@),
{
    let mut inner = String::new();
    let mut i: usize = 0;
    while i < bytes.len()
        invariant
            i <= bytes.len(),
            inner@ == joined(numerals(bytes@).take(i as int), ", "@),
        decreases bytes.len() - i,
    {
        let ghost before = numerals(bytes@).take(i as int);
        let ghost after = numerals(bytes@).take(i + 1);
        assert(after.drop_last() =~= before);
        assert(after.last() == decimal_nat(bytes@[i as int] as nat));
        let numeral = decimal_u64(bytes[i] as u64);
        if i > 0 {
            inner.append(", ");
        } else {
            assert(before =~= Seq::<Seq<char>>::empty());
            assert(inner@ + numeral@ =~= numeral@);
        }
        inner.append(numeral.as_str());
        i = i + 1;
    }
    assert(numerals(bytes@).take(i as int) =~= numerals(bytes@));
    let mut s = "[".to_owned();
    proof {
        reveal_strlit("[");
        reveal_strlit("]");
        assert("["@ =~= seq!['[']);
        assert("]"@ =~= seq![']']);
    }
    s.append(inner.as_str());
    s.append("]");
    s
}

} // verus!
