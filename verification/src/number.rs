//! Process identifiers as decimal text, read and written.

use vstd::prelude::*;

use crate::words::chars_of;

verus! {

/// Whether `c` is one of the digits `0` to `9`.
pub open spec fn is_digit(c: char) -> bool {
    0x30 <= c as u32 <= 0x39
}

/// The value of the digit `c`.
pub open spec fn digit_value(c: char) -> nat {
    (c as u32 - 0x30) as nat
}

/// The digit that stands for `value`, which is below ten.
pub open spec fn digit_char(value: nat) -> char {
    (0x30 + value) as char
}

/// Whether `text` holds digits only.
pub open spec fn all_digits(text: Seq<char>) -> bool {
    forall|i: int| 0 <= i < text.len() ==> is_digit(#[trigger] text[i])
}

/// The number that the digits of `text` write in base ten.
pub open spec fn number_of(text: Seq<char>) -> nat
    decreases text.len(),
{
    if text.len() == 0 {
        0
    } else {
        10 * number_of(text.drop_last()) + digit_value(text.last())
    }
}

/// `text` without the plus sign that may lead it.
pub open spec fn unsigned(text: Seq<char>) -> Seq<char> {
    if text.len() > 0 && text[0] == '+' {
        text.drop_first()
    } else {
        text
    }
}

/// The process identifier that `text` writes, if it writes one: at least
/// one digit, after an optional plus sign and with nothing else around,
/// of a value that 32 bits hold. Leading zeros do not count.
pub open spec fn pid_of(text: Seq<char>) -> Option<u32> {
    let digits = unsigned(text);
    if digits.len() > 0 && all_digits(digits) && number_of(digits) <= u32::MAX {
        Some(number_of(digits) as u32)
    } else {
        None
    }
}

/// `n` in base ten, without leading zeros.
pub open spec fn decimal(n: nat) -> Seq<char>
    decreases n,
{
    if n < 10 {
        seq![digit_char(n)]
    } else {
        decimal(n / 10).push(digit_char(n % 10))
    }
}

/// A number is at least the number that any of its leading digits write.
proof fn number_grows(text: Seq<char>, n: int)
    requires
        0 <= n <= text.len(),
    ensures
        number_of(text.take(n)) <= number_of(text),
    decreases text.len() - n,
{
    if n < text.len() {
        number_grows(text, n + 1);
        assert(text.take(n + 1).drop_last() == text.take(n));
    } else {
        assert(text.take(n) == text);
    }
}

/// Reads a process identifier.
pub fn parse_pid(text: &str) -> (pid: Option<u32>)
    ensures
        pid == pid_of(text@),
{
    let chars = chars_of(text);
    let start: usize = if chars.len() > 0 && chars[0] == '+' {
        1
    } else {
        0
    };
    let ghost digits = unsigned(text@);
    assert(digits =~= text@.subrange(start as int, text@.len() as int));
    if start == chars.len() {
        return None;
    }
    let mut value: u64 = 0;
    let mut at: usize = start;
    assert(digits.take(0) =~= Seq::<char>::empty());
    while at < chars.len()
        invariant
            chars@ == text@,
            start <= at <= chars.len(),
            digits == unsigned(text@),
            digits == text@.subrange(start as int, text@.len() as int),
            all_digits(digits.take(at - start)),
            value == number_of(digits.take(at - start)),
            value <= u32::MAX,
        decreases chars.len() - at,
    {
        let c = chars[at];
        let code: u32 = c as u32;
        let ghost seen = digits.take(at - start + 1);
        proof {
            vstd::utf8::char_is_scalar(c);
            assert(seen.drop_last() == digits.take(at - start));
            assert(seen.last() == c);
        }
        if code < 0x30 || code > 0x39 {
            assert(!is_digit(digits[at - start]));
            return None;
        }
        value = value * 10 + (code - 0x30) as u64;
        assert forall|i: int| 0 <= i < seen.len() implies is_digit(#[trigger] seen[i]) by {
            if i < seen.len() - 1 {
                assert(seen[i] == digits.take(at - start)[i]);
            }
        }
        if value > 0xFFFF_FFFF {
            proof {
                number_grows(digits, at - start + 1);
            }
            return None;
        }
        at = at + 1;
    }
    assert(digits.take(at - start) == digits);
    Some(value as u32)
}

fn digit_text(value: u32) -> (text: &'static str)
    requires
        value < 10,
    ensures
        text@ == seq![digit_char(value as nat)],
{
    proof {
        reveal_strlit("0");
        reveal_strlit("1");
        reveal_strlit("2");
        reveal_strlit("3");
        reveal_strlit("4");
        reveal_strlit("5");
        reveal_strlit("6");
        reveal_strlit("7");
        reveal_strlit("8");
        reveal_strlit("9");
    }
    let text = match value {
        0 => "0",
        1 => "1",
        2 => "2",
        3 => "3",
        4 => "4",
        5 => "5",
        6 => "6",
        7 => "7",
        8 => "8",
        _ => "9",
    };
    assert(text@ =~= seq![digit_char(value as nat)]);
    text
}

/// Writes `n` in base ten.
pub fn to_decimal(n: u32) -> (text: String)
    ensures
        text@ == decimal(n as nat),
    decreases n,
{
    if n < 10 {
        String::from_str(digit_text(n))
    } else {
        let mut text = to_decimal(n / 10);
        text.append(digit_text(n % 10));
        assert(text@ =~= decimal((n / 10) as nat).push(digit_char((n % 10) as nat)));
        text
    }
}

/// What `decimal` writes: digits only, at least one, and the number they
/// write is `n`.
pub proof fn decimal_writes_the_number(n: nat)
    ensures
        decimal(n).len() > 0,
        all_digits(decimal(n)),
        number_of(decimal(n)) == n,
    decreases n,
{
    if n < 10 {
        let text = seq![digit_char(n)];
        assert(text.drop_last() =~= Seq::<char>::empty());
        assert(number_of(text.drop_last()) == 0);
    } else {
        decimal_writes_the_number(n / 10);
        let front = decimal(n / 10);
        let text = front.push(digit_char(n % 10));
        assert(text.drop_last() =~= front);
        assert forall|i: int| 0 <= i < text.len() implies is_digit(#[trigger] text[i]) by {
            if i < front.len() {
                assert(text[i] == front[i]);
            }
        }
    }
}

/// Reading undoes writing: the text that `to_decimal` gives for a process
/// identifier is read back as that identifier.
pub proof fn written_pid_reads_back(pid: u32)
    ensures
        pid_of(decimal(pid as nat)) == Some(pid),
{
    decimal_writes_the_number(pid as nat);
    assert(is_digit(decimal(pid as nat)[0]));
}

} // verus!
