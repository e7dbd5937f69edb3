//! Text building blocks shared by the messages of this crate.

use vstd::prelude::*;
use vstd::string::StringExecFns;

verus! {

/// The character of the decimal digit `d`.
pub open spec fn digit(d: nat) -> char {
    (48 + d) as char
}

/// The decimal notation of `n`, without leading zeros.
pub open spec fn decimal(n: nat) -> Seq<char>
    decreases n,
{
    if n < 10 {
        seq![digit(n)]
    } else {
        decimal(n / 10).push(digit(n % 10))
    }
}

/// The decimal notation of `n`, with a minus sign in front of a negative number.
pub open spec fn signed_decimal(n: int) -> Seq<char> {
    if n < 0 {
        seq!['-'] + decimal((-n) as nat)
    } else {
        decimal(n as nat)
    }
}

/// The decimal numbers `items`, separated by a comma and a space.
pub open spec fn comma_list(items: Seq<usize>) -> Seq<char>
    decreases items.len(),
{
    if items.len() == 0 {
        Seq::empty()
    } else if items.len() == 1 {
        decimal(items[0] as nat)
    } else {
        comma_list(items.drop_last()) + ", "@ + decimal(items.last() as nat)
    }
}

/// `String::push` appends one character.
pub assume_specification[ String::push ](s: &mut String, ch: char)
    ensures
        final(s)@ == old(s)@.push(ch),
;

/// Appends the decimal notation of `n` to `s`.
pub fn push_decimal(s: &mut String, n: u64)
    ensures
        final(s)@ == old(s)@ + decimal(n as nat),
    decreases n,
{
    if n >= 10 {
        push_decimal(s, n / 10);
    }
    let d: u8 = (n % 10) as u8;
    s.push((48 + d) as char);
}

/// The decimal notation of `n`.
pub fn number(n: usize) -> (s: String)
    ensures
        s@ == decimal(n as nat),
{
    let mut s = String::new();
    push_decimal(&mut s, n as u64);
    s
}

/// The decimal notation of `n`.
pub fn signed_number(n: i32) -> (s: String)
    ensures
        s@ == signed_decimal(n as int),
{
    let mut s = String::new();
    if n < 0 {
        s.push('-');
        push_decimal(&mut s, (-(n as i64)) as u64);
    } else {
        push_decimal(&mut s, n as u64);
    }
    s
}

/// `prefix` followed by `value`.
pub fn labelled(prefix: &str, value: &str) -> (s: String)
    ensures
        s@ == prefix@ + value@,
{
    String::from_str(prefix).concat(value)
}

/// The decimal numbers `items`, separated by a comma and a space.
pub fn number_list(items: &[usize]) -> (s: String)
    ensures
        s@ == comma_list(items@),
{
    let mut s = String::new();
    let mut i: usize = 0;
    while i < items.len()
        invariant
            i <= items@.len(),
            s@ == comma_list(items@.take(i as int)),
        decreases items@.len() - i,
    {
        assert(items@.take(i + 1).drop_last() == items@.take(i as int));
        if i > 0 {
            s.append(", ");
        }
        push_decimal(&mut s, items[i] as u64);
        i = i + 1;
    }
    assert(items@.take(i as int) == items@);
    s
}

/// The number that a sequence of decimal digits denotes.
pub open spec fn value_of(digits: Seq<char>) -> int
    decreases digits.len(),
{
    if digits.len() == 0 {
        0
    } else {
        value_of(digits.drop_last()) * 10 + (digits.last() as int - '0' as int)
    }
}

/// The decimal notation of a number consists of digits, denotes the number, and starts with a zero
/// only where it is the number zero. So different numbers have different notations.
pub proof fn decimals_read_back(n: nat)
    ensures
        value_of(decimal(n)) == n,
        decimal(n).len() > 0,
        forall|i: int| 0 <= i < decimal(n).len() ==> '0' <= #[trigger] decimal(n)[i] <= '9',
        decimal(n)[0] == '0' ==> n == 0 && decimal(n).len() == 1,
    decreases n,
{
    reveal_with_fuel(value_of, 2);
    if n >= 10 {
        decimals_read_back(n / 10);
        let rest = decimal(n / 10);
        assert(decimal(n).drop_last() == rest);
        assert(decimal(n).last() == digit(n % 10));
        assert forall|i: int| 0 <= i < decimal(n).len() implies '0' <= #[trigger] decimal(n)[i]
            <= '9' by {
            if i < rest.len() {
                assert(decimal(n)[i] == rest[i]);
            }
        }
    } else {
        assert(decimal(n).drop_last() == Seq::<char>::empty());
        assert(decimal(n).last() == digit(n));
    }
}

/// A negative number is written as a minus sign and the digits of its magnitude, any other as its
/// digits.
pub proof fn signed_decimals_read_back(n: int)
    ensures
        n < 0 ==> signed_decimal(n)[0] == '-' && value_of(signed_decimal(n).drop_first()) == -n,
        n >= 0 ==> value_of(signed_decimal(n)) == n && '0' <= signed_decimal(n)[0] <= '9',
{
    if n < 0 {
        decimals_read_back((-n) as nat);
        assert(signed_decimal(n).drop_first() == decimal((-n) as nat));
    } else {
        decimals_read_back(n as nat);
    }
}

/// A list of numbers is the list of its first part, a comma and a space, and the list of the rest;
/// a list of one number is that number, and an empty list is empty.
pub proof fn lists_are_joined_by_commas(left: Seq<usize>, right: Seq<usize>)
    ensures
        left.len() > 0 && right.len() > 0 ==> comma_list(left + right) == comma_list(left) + seq![
            ',',
            ' ',
        ] + comma_list(right),
        left.len() == 0 ==> comma_list(left) == Seq::<char>::empty(),
        left.len() == 1 ==> value_of(comma_list(left)) == left[0],
    decreases right.len(),
{
    reveal_strlit(", ");
    assert(", "@ == seq![',', ' ']);
    if left.len() == 1 {
        decimals_read_back(left[0] as nat);
    }
    if left.len() > 0 && right.len() > 0 {
        let all = left + right;
        assert(all.drop_last() == left + right.drop_last());
        assert(all.last() == right.last());
        if right.len() == 1 {
            assert(left + right.drop_last() == left);
        } else {
            lists_are_joined_by_commas(left, right.drop_last());
        }
        assert(comma_list(all) == comma_list(left) + seq![',', ' '] + comma_list(right));
    }
}

} // verus!
