//! The textual form of IP addresses: dotted decimal for IPv4, colon-separated
//! hexadecimal with the longest run of zero groups elided for IPv6.

use vstd::prelude::*;

verus! {

/// `String::push` appends one character to the end of the string.
pub assume_specification[ String::push ](text: &mut String, ch: char)
    ensures
        final(text)@ == old(text)@.push(ch),
;

/// The character of one digit: `0` to `9`, then `a` to `f`.
pub open spec fn digit_char(digit: nat) -> char {
    if digit < 10 {
        (48 + digit) as u8 as char
    } else {
        (87 + digit) as u8 as char
    }
}

/// A number in decimal, without leading zeros.
pub open spec fn decimal(value: nat) -> Seq<char>
    decreases value,
{
    if value < 10 {
        seq![digit_char(value)]
    } else {
        decimal(value / 10).push(digit_char(value % 10))
    }
}

/// Four octets in dotted decimal.
pub open spec fn ipv4_text(octets: Seq<u8>) -> Seq<char> {
    decimal(octets[0] as nat) + seq!['.'] + decimal(octets[1] as nat) + seq!['.'] + decimal(
        octets[2] as nat,
    ) + seq!['.'] + decimal(octets[3] as nat)
}

/// The character of one digit below sixteen.
fn digit(value: u8) -> (ch: char)
    requires
        value < 16,
    ensures
        ch == digit_char(value as nat),
{
    if value < 10 {
        (48 + value) as char
    } else {
        (87 + value) as char
    }
}

/// Appends an octet in decimal.
pub fn push_decimal(text: &mut String, value: u8)
    ensures
        final(text)@ == old(text)@ + decimal(value as nat),
{
    reveal_with_fuel(decimal, 3);
    if value >= 100 {
        text.push(digit(value / 100));
    }
    if value >= 10 {
        text.push(digit((value / 10) % 10));
    }
    text.push(digit(value % 10));
    assert(text@ =~= old(text)@ + decimal(value as nat));
}

/// Writes four octets in dotted decimal.
pub fn format_ipv4(octets: &[u8; 4]) -> (text: String)
    ensures
        text@ == ipv4_text(octets@),
{
    let mut text = String::new();
    push_decimal(&mut text, octets[0]);
    text.push('.');
    push_decimal(&mut text, octets[1]);
    text.push('.');
    push_decimal(&mut text, octets[2]);
    text.push('.');
    push_decimal(&mut text, octets[3]);
    assert(text@ =~= ipv4_text(octets@));
    text
}

/// A number in lower-case hexadecimal, without leading zeros.
pub open spec fn hexadecimal(value: nat) -> Seq<char>
    decreases value,
{
    if value < 16 {
        seq![digit_char(value)]
    } else {
        hexadecimal(value / 16).push(digit_char(value % 16))
    }
}

/// The eight 16-bit groups of sixteen octets, each in network order.
pub open spec fn groups_of(octets: Seq<u8>) -> Seq<u16> {
    Seq::new(8, |i: int| (octets[2 * i] as int * 256 + octets[2 * i + 1] as int) as u16)
}

/// How many zero groups follow each other from position `from` on.
pub open spec fn zero_run(groups: Seq<u16>, from: int) -> nat
    decreases groups.len() - from,
{
    if 0 <= from < groups.len() && groups[from] == 0 {
        1 + zero_run(groups, from + 1)
    } else {
        0
    }
}

/// Among the positions below `upto`, the first one from which the longest
/// run of zero groups starts.
pub open spec fn longest_run_start(groups: Seq<u16>, upto: int) -> int
    decreases upto,
{
    if upto <= 1 {
        0
    } else {
        let before = longest_run_start(groups, upto - 1);
        if zero_run(groups, upto - 1) > zero_run(groups, before) {
            upto - 1
        } else {
            before
        }
    }
}

/// Groups in hexadecimal with a colon between neighbours.
pub open spec fn joined(groups: Seq<u16>) -> Seq<char>
    decreases groups.len(),
{
    if groups.len() == 0 {
        Seq::empty()
    } else if groups.len() == 1 {
        hexadecimal(groups[0] as nat)
    } else {
        joined(groups.drop_last()) + seq![':'] + hexadecimal(groups.last() as nat)
    }
}

/// Sixteen octets as colon-separated hexadecimal groups. The longest run of
/// two or more zero groups, the first of them if several are equally long,
/// is written as `::`.
pub open spec fn ipv6_text(octets: Seq<u8>) -> Seq<char> {
    let groups = groups_of(octets);
    let start = longest_run_start(groups, 8);
    let run = zero_run(groups, start);
    if run >= 2 {
        joined(groups.take(start)) + seq![':', ':'] + joined(groups.skip(start + run))
    } else {
        joined(groups)
    }
}

/// The run that `longest_run_start` picks is as long as any other, and
/// strictly longer than every run that starts before it.
pub proof fn longest_run_is_first_and_longest(groups: Seq<u16>, upto: int, at: int)
    requires
        0 <= at < upto,
    ensures
        0 <= longest_run_start(groups, upto) < upto,
        zero_run(groups, at) <= zero_run(groups, longest_run_start(groups, upto)),
        at < longest_run_start(groups, upto) ==> zero_run(groups, at) < zero_run(
            groups,
            longest_run_start(groups, upto),
        ),
    decreases upto,
{
    if upto > 1 {
        if at < upto - 1 {
            longest_run_is_first_and_longest(groups, upto - 1, at);
        } else {
            longest_run_is_first_and_longest(groups, upto - 1, 0);
        }
    }
}

/// A run of zero groups never reaches past the last group.
pub proof fn zero_run_stays_inside(groups: Seq<u16>, from: int)
    requires
        0 <= from <= groups.len(),
    ensures
        from + zero_run(groups, from) <= groups.len(),
        forall|i: int| from <= i < from + zero_run(groups, from) ==> groups[i] == 0,
        from + zero_run(groups, from) < groups.len() ==> groups[from + zero_run(groups, from)] != 0,
    decreases groups.len() - from,
{
    if from < groups.len() && groups[from] == 0 {
        zero_run_stays_inside(groups, from + 1);
    }
}

/// Appends a group in hexadecimal.
pub fn push_hexadecimal(text: &mut String, value: u16)
    ensures
        final(text)@ == old(text)@ + hexadecimal(value as nat),
{
    reveal_with_fuel(hexadecimal, 4);
    if value >= 4096 {
        text.push(digit((value / 4096) as u8));
    }
    if value >= 256 {
        text.push(digit(((value / 256) % 16) as u8));
    }
    if value >= 16 {
        text.push(digit(((value / 16) % 16) as u8));
    }
    text.push(digit((value % 16) as u8));
    assert(text@ =~= old(text)@ + hexadecimal(value as nat));
}

/// Splits sixteen octets into their eight groups.
pub fn split_groups(octets: &[u8; 16]) -> (groups: Vec<u16>)
    ensures
        groups@ == groups_of(octets@),
{
    let mut groups: Vec<u16> = Vec::new();
    let mut i: usize = 0;
    while i < 8
        invariant
            i <= 8,
            groups@.len() == i,
            forall|k: int| 0 <= k < i ==> groups@[k] == groups_of(octets@)[k],
        decreases 8 - i,
    {
        groups.push((octets[2 * i] as u16) * 256 + (octets[2 * i + 1] as u16));
        i += 1;
    }
    assert(groups@ =~= groups_of(octets@));
    groups
}

/// Counts the zero groups that follow each other from `from` on.
fn count_zero_run(groups: &Vec<u16>, from: usize) -> (run: usize)
    requires
        from <= groups@.len(),
    ensures
        run == zero_run(groups@, from as int),
        from + run <= groups@.len(),
{
    let mut end: usize = from;
    while end < groups.len() && groups[end] == 0
        invariant
            from <= end <= groups@.len(),
            zero_run(groups@, from as int) == (end - from) + zero_run(groups@, end as int),
        decreases groups@.len() - end,
    {
        end += 1;
    }
    end - from
}

/// Appends groups `from..to` in hexadecimal with a colon between neighbours.
fn push_joined(text: &mut String, groups: &Vec<u16>, from: usize, to: usize)
    requires
        from <= to <= groups@.len(),
    ensures
        final(text)@ == old(text)@ + joined(groups@.subrange(from as int, to as int)),
{
    let mut i: usize = from;
    assert(groups@.subrange(from as int, i as int) =~= Seq::<u16>::empty());
    while i < to
        invariant
            from <= i <= to <= groups@.len(),
            text@ == old(text)@ + joined(groups@.subrange(from as int, i as int)),
        decreases to - i,
    {
        let ghost before = groups@.subrange(from as int, i as int);
        let ghost after = groups@.subrange(from as int, i + 1);
        assert(after.drop_last() =~= before);
        assert(after.last() == groups@[i as int]);
        if i > from {
            text.push(':');
        }
        push_hexadecimal(text, groups[i]);
        assert(text@ =~= old(text)@ + joined(after));
        i += 1;
    }
}

/// Writes sixteen octets as colon-separated hexadecimal groups, the longest
/// run of two or more zero groups elided.
pub fn format_ipv6(octets: &[u8; 16]) -> (text: String)
    ensures
        text@ == ipv6_text(octets@),
{
    let groups = split_groups(octets);
    let mut start: usize = 0;
    let mut run: usize = count_zero_run(&groups, 0);
    let mut i: usize = 1;
    while i < 8
        invariant
            1 <= i <= 8,
            groups@.len() == 8,
            start == longest_run_start(groups@, i as int),
            start < i,
            run == zero_run(groups@, start as int),
            start + run <= 8,
        decreases 8 - i,
    {
        let here = count_zero_run(&groups, i);
        if here > run {
            start = i;
            run = here;
        }
        i += 1;
    }
    let mut text = String::new();
    if run >= 2 {
        push_joined(&mut text, &groups, 0, start);
        text.push(':');
        text.push(':');
        push_joined(&mut text, &groups, start + run, 8);
        assert(groups@.subrange(0, start as int) =~= groups@.take(start as int));
        assert(groups@.subrange(start + run, 8) =~= groups@.skip(start + run));
        assert(text@ =~= ipv6_text(octets@));
    } else {
        push_joined(&mut text, &groups, 0, 8);
        assert(groups@.subrange(0, 8) =~= groups@);
        assert(text@ =~= ipv6_text(octets@));
    }
    text
}

/// The digit that a character stands for.
pub open spec fn digit_value(ch: char) -> nat {
    if ch as nat >= 97 {
        (ch as nat - 87) as nat
    } else {
        (ch as nat - 48) as nat
    }
}

/// The number that a string of digits stands for in a base.
pub open spec fn numeral_value(digits: Seq<char>, base: nat) -> nat
    decreases digits.len(),
{
    if digits.len() == 0 {
        0
    } else {
        numeral_value(digits.drop_last(), base) * base + digit_value(digits.last())
    }
}

/// Every digit below sixteen has its own character, and the character
/// stands for the digit.
pub proof fn digit_reads_back(digit: nat)
    requires
        digit < 16,
    ensures
        digit_value(digit_char(digit)) == digit,
        digit < 10 ==> '0' <= digit_char(digit) <= '9',
        digit >= 10 ==> 'a' <= digit_char(digit) <= 'f',
{
}

/// The decimal text of a number stands for that number, is never empty, and
/// starts with a zero only for zero itself.
pub proof fn decimal_reads_back(value: nat)
    ensures
        numeral_value(decimal(value), 10) == value,
        decimal(value).len() >= 1,
        decimal(value)[0] == '0' <==> value == 0,
        value < 10 <==> decimal(value).len() == 1,
        value < 256 ==> decimal(value).len() <= 3,
    decreases value,
{
    if value < 10 {
        digit_reads_back(value);
        assert(decimal(value).drop_last() =~= Seq::<char>::empty());
        assert(numeral_value(Seq::<char>::empty(), 10) == 0);
    } else {
        decimal_reads_back(value / 10);
        digit_reads_back(value % 10);
        let front = decimal(value / 10);
        assert(decimal(value).drop_last() =~= front);
        assert(decimal(value)[0] == front[0]);
        if value < 256 {
            if value / 10 >= 10 {
                decimal_reads_back(value / 10 / 10);
            }
        }
    }
}

/// The hexadecimal text of a number stands for that number, is never empty,
/// and starts with a zero only for zero itself.
pub proof fn hexadecimal_reads_back(value: nat)
    ensures
        numeral_value(hexadecimal(value), 16) == value,
        hexadecimal(value).len() >= 1,
        hexadecimal(value)[0] == '0' <==> value == 0,
        value < 16 <==> hexadecimal(value).len() == 1,
    decreases value,
{
    if value < 16 {
        digit_reads_back(value);
        assert(hexadecimal(value).drop_last() =~= Seq::<char>::empty());
        assert(numeral_value(Seq::<char>::empty(), 16) == 0);
    } else {
        hexadecimal_reads_back(value / 16);
        digit_reads_back(value % 16);
        let front = hexadecimal(value / 16);
        assert(hexadecimal(value).drop_last() =~= front);
        assert(hexadecimal(value)[0] == front[0]);
    }
}

} // verus!
