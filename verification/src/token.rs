//! The compact text form of a callback token: the callback's name alone, or
//! the name, a `/` and the decimal number of the message of origin.

use crate::messages::{CallbackData, CallbackDataView};
use vstd::prelude::*;

verus! {

/// The decimal digit that `c` stands for; outside `0..=9` where `c` is no digit.
pub open spec fn digit_value(c: char) -> int {
    c as int - '0' as int
}

/// Whether `c` is one of `0` to `9`.
pub open spec fn is_digit(c: char) -> bool {
    0 <= digit_value(c) <= 9
}

/// The character for the decimal digit `d`.
pub open spec fn digit_char(d: int) -> char
    recommends
        0 <= d <= 9,
{
    ('0' as int + d) as char
}

/// Whether `text` holds decimal digits and nothing else.
pub open spec fn all_digits(text: Seq<char>) -> bool {
    forall|i: int| 0 <= i < text.len() ==> is_digit(#[trigger] text[i])
}

/// The number that a run of decimal digits writes down.
pub open spec fn number_value(digits: Seq<char>) -> nat
    decreases digits.len(),
{
    if digits.len() == 0 {
        0
    } else {
        (number_value(digits.drop_last()) * 10 + digit_value(digits.last())) as nat
    }
}

/// The decimal digits of `n`, without sign or leading zeros.
pub open spec fn decimal(n: nat) -> Seq<char>
    decreases n,
{
    if n < 10 {
        seq![digit_char(n as int)]
    } else {
        decimal(n / 10).push(digit_char((n % 10) as int))
    }
}

/// `text` without the one `+` that an unsigned number may begin with.
pub open spec fn unsigned_digits(text: Seq<char>) -> Seq<char> {
    if text.len() > 0 && text[0] == '+' {
        text.skip(1)
    } else {
        text
    }
}

/// The unsigned number that `text` writes down: an optional `+`, then one
/// or more decimal digits whose value fits 64 bits. Anything else is no
/// number.
pub open spec fn parsed_unsigned(text: Seq<char>) -> Option<u64> {
    let digits = unsigned_digits(text);
    if digits.len() > 0 && all_digits(digits) && number_value(digits) <= u64::MAX {
        Some(number_value(digits) as u64)
    } else {
        None
    }
}

/// The text form of a token.
pub open spec fn encode_token(token: CallbackDataView) -> Seq<char> {
    match token.message_id {
        Some(message_id) => token.command + seq!['/'] + decimal(message_id as nat),
        None => token.command,
    }
}

/// The token that `text` stands for. Without a `/` the whole text is the
/// name. With one, the text splits at the first `/`: what comes before is
/// the name, and what comes after has to be an unsigned number, or `text`
/// is no token.
pub open spec fn decode_token(text: Seq<char>) -> Option<CallbackDataView> {
    match text.index_of_first('/') {
        Some(slash) => match parsed_unsigned(text.skip(slash + 1)) {
            Some(message_id) => Some(
                CallbackDataView { command: text.take(slash), message_id: Some(message_id) },
            ),
            None => None,
        },
        None => Some(CallbackDataView { command: text, message_id: None }),
    }
}

/// One more digit at the end multiplies the value so far by ten and adds
/// the digit.
pub proof fn lemma_number_value_step(digits: Seq<char>, i: int)
    requires
        0 <= i < digits.len(),
    ensures
        number_value(digits.take(i + 1)) == (number_value(digits.take(i)) * 10 + digit_value(
            digits[i],
        )) as nat,
{
    assert(digits.take(i + 1).drop_last() =~= digits.take(i));
}

/// A run of digits is worth at least as much as any of its beginnings.
pub proof fn lemma_number_value_grows(digits: Seq<char>, i: int)
    requires
        all_digits(digits),
        0 <= i <= digits.len(),
    ensures
        number_value(digits.take(i)) <= number_value(digits),
    decreases digits.len() - i,
{
    if i == digits.len() {
        assert(digits.take(i) =~= digits);
    } else {
        lemma_number_value_step(digits, i);
        assert(is_digit(digits[i]));
        lemma_number_value_grows(digits, i + 1);
    }
}

/// The digits of a number are digits, at least one of them, and write the
/// number down again.
pub proof fn lemma_decimal_value(n: nat)
    ensures
        decimal(n).len() > 0,
        all_digits(decimal(n)),
        number_value(decimal(n)) == n,
    decreases n,
{
    if n < 10 {
        let digits = decimal(n);
        assert(digits.drop_last() =~= Seq::<char>::empty());
        assert(number_value(digits.drop_last()) == 0);
    } else {
        lemma_decimal_value(n / 10);
        let digits = decimal(n);
        assert(digits.drop_last() =~= decimal(n / 10));
        assert(digits.last() == digit_char((n % 10) as int));
    }
}

/// Reading back what was written gives the number that was written.
pub proof fn lemma_decimal_round_trip(n: u64)
    ensures
        parsed_unsigned(decimal(n as nat)) == Some(n),
{
    lemma_decimal_value(n as nat);
    assert(is_digit(decimal(n as nat)[0]));
}

/// Encoding a token and decoding the text gives the token back, with or
/// without a message of origin, whenever the name holds no `/`.
pub proof fn token_round_trip(token: CallbackDataView)
    requires
        !token.command.contains('/'),
    ensures
        decode_token(encode_token(token)) == Some(token),
{
    let text = encode_token(token);
    text.index_of_first_ensures('/');
    match token.message_id {
        Some(message_id) => {
            let at = token.command.len() as int;
            assert(text[at] == '/');
            assert(text.contains('/'));
            let slash = text.index_of_first('/').unwrap();
            assert(slash == at) by {
                if slash < at {
                    assert(token.command[slash] == '/');
                }
            }
            assert(text.take(at) =~= token.command);
            assert(text.skip(at + 1) =~= decimal(message_id as nat));
            lemma_decimal_round_trip(message_id);
        },
        None => {},
    }
}

/// The value of one decimal digit.
fn digit_of(c: char) -> (digit: Option<u64>)
    ensures
        match digit {
            Some(d) => is_digit(c) && d == digit_value(c),
            None => !is_digit(c),
        },
{
    match c {
        '0' => Some(0),
        '1' => Some(1),
        '2' => Some(2),
        '3' => Some(3),
        '4' => Some(4),
        '5' => Some(5),
        '6' => Some(6),
        '7' => Some(7),
        '8' => Some(8),
        '9' => Some(9),
        _ => None,
    }
}

/// The text of one decimal digit.
fn digit_text(d: u64) -> (text: &'static str)
    requires
        d < 10,
    ensures
        text@ == seq![digit_char(d as int)],
{
    proof {
        reveal_strlit("0");
        reveal_strlit("1");
        reveal_strlit("2");
        reveal_strlit("3");
        reveal_strlit("4");
        reveal_strlit("5");
        reveal_strlit("6");
        reveal_strlit("7");
        reveal_strlit("8");
        reveal_strlit("9");
    }
    let text = match d {
        0 => "0",
        1 => "1",
        2 => "2",
        3 => "3",
        4 => "4",
        5 => "5",
        6 => "6",
        7 => "7",
        8 => "8",
        _ => "9",
    };
    assert(text@ =~= seq![digit_char(d as int)]);
    text
}

/// Appends the decimal digits of `n` to `out`.
fn write_decimal(out: &mut String, n: u64)
    ensures
        final(out)@ == old(out)@ + decimal(n as nat),
    decreases n,
{
    if n >= 10 {
        write_decimal(out, n / 10);
    }
    out.append(digit_text(n % 10));
    assert(out@ =~= old(out)@ + decimal(n as nat));
}

/// Reads an unsigned number: an optional `+`, then decimal digits. `None`
/// where `text` is anything else, or too large for 64 bits.
pub fn parse_unsigned(text: &str) -> (number: Option<u64>)
    ensures
        number == parsed_unsigned(text@),
{
    let length: usize = text.unicode_len();
    let digits: &str = if length > 0 && text.get_char(0) == '+' {
        text.substring_char(1, length)
    } else {
        text
    };
    assert(digits@ =~= unsigned_digits(text@));
    let mut value: u64 = 0;
    let mut read: usize = 0;
    for c in it: digits.chars()
        invariant
            it.seq() == digits@,
            read == it.index(),
            digits@ == unsigned_digits(text@),
            digits@.len() <= length,
            all_digits(digits@.take(read as int)),
            value == number_value(digits@.take(read as int)),
    {
        let ghost before = digits@.take(read as int);
        let ghost after = digits@.take(read as int + 1);
        proof {
            lemma_number_value_step(digits@, read as int);
            assert(after.drop_last() =~= before);
        }
        match digit_of(c) {
            Some(d) => {
                if value > (u64::MAX - d) / 10 {
                    proof {
                        if all_digits(digits@) {
                            lemma_number_value_grows(digits@, read as int + 1);
                        }
                    }
                    return None;
                }
                value = value * 10 + d;
                assert forall|i: int| 0 <= i < after.len() implies is_digit(
                    #[trigger] after[i],
                ) by {
                    if i < read {
                        assert(after[i] == before[i]);
                    }
                }
            },
            None => {
                assert(!is_digit(digits@[read as int]));
                return None;
            },
        }
        read += 1;
    }
    assert(digits@.take(read as int) =~= digits@);
    if read == 0 {
        None
    } else {
        Some(value)
    }
}

impl CallbackData {
    /// The text that stands for this token on a button.
    pub fn encode(&self) -> (text: String)
        ensures
            text@ == encode_token(self@),
    {
        let mut text = self.command.clone();
        match self.message_id {
            Some(message_id) => {
                proof {
                    reveal_strlit("/");
                }
                text.append("/");
                write_decimal(&mut text, message_id);
                assert(text@ =~= encode_token(self@));
            },
            None => {},
        }
        text
    }

    /// Reads a token back from its text. `None` where a `/` is followed
    /// by anything but an unsigned number.
    pub fn decode(text: &str) -> (token: Option<CallbackData>)
        ensures
            match token {
                Some(token) => decode_token(text@) == Some(token@),
                None => decode_token(text@) is None,
            },
    {
        let length: usize = text.unicode_len();
        let mut slash: usize = 0;
        let mut found = false;
        for c in it: text.chars()
            invariant_except_break
                !found,
                slash == it.index(),
            invariant
                it.seq() == text@,
                length == text@.len(),
                slash <= length,
                forall|j: int| 0 <= j < slash ==> text@[j] != '/',
            ensures
                found ==> slash < length && text@[slash as int] == '/',
                !found ==> slash == length,
        {
            if c == '/' {
                found = true;
                break;
            }
            slash += 1;
        }
        proof {
            text@.index_of_first_ensures('/');
        }
        if found {
            assert(text@.contains('/'));
            assert(text@.index_of_first('/') == Some(slash as int)) by {
                let first = text@.index_of_first('/').unwrap();
                if first < slash {
                    assert(text@[first] != '/');
                }
            }
            let name = text.substring_char(0, slash);
            let rest = text.substring_char(slash + 1, length);
            assert(name@ =~= text@.take(slash as int));
            assert(rest@ =~= text@.skip(slash as int + 1));
            match parse_unsigned(rest) {
                Some(message_id) => Some(
                    CallbackData { command: name.to_owned(), message_id: Some(message_id) },
                ),
                None => None,
            }
        } else {
            Some(CallbackData { command: text.to_owned(), message_id: None })
        }
    }
}

} // verus!
