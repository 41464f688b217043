//! The request header that names a client's transaction.
use vstd::prelude::*;
use vstd::string::*;

verus! {

/// The header that carries the id of a client's transaction.
pub const TRANSACTION_ID_HEADER: &'static str = "TransactionID";

/// [`TRANSACTION_ID_HEADER`] in lower case, the form in which it travels: the client's HTTP
/// library lowercases all header keys.
pub const LOWERCASED_HEADER: &'static str = "transactionid";

/// One header of an incoming request.
#[derive(Debug, PartialEq, Eq)]
pub struct Header {
    pub field: String,
    pub value: String,
}

/// An ASCII letter in lower case, any other character unchanged.
pub open spec fn ascii_lowercase(c: char) -> char {
    if 'A' <= c <= 'Z' {
        (c as u32 + 32) as char
    } else {
        c
    }
}

/// A text with its ASCII letters in lower case.
pub open spec fn lowercased(text: Seq<char>) -> Seq<char> {
    text.map_values(|c: char| ascii_lowercase(c))
}

/// The text of the transaction id that `headers` carry: the value of the first header whose name
/// is the lowercased [`TRANSACTION_ID_HEADER`], unless that value is empty.
pub open spec fn transaction_id_text(headers: Seq<Header>) -> Option<Seq<char>>
    decreases headers.len(),
{
    if headers.len() == 0 {
        None
    } else if headers[0].field@ == lowercased(TRANSACTION_ID_HEADER@) {
        if headers[0].value@.len() == 0 {
            None
        } else {
            Some(headers[0].value@)
        }
    } else {
        transaction_id_text(headers.drop_first())
    }
}

proof fn lemma_lowercased_header()
    ensures
        LOWERCASED_HEADER@ == lowercased(TRANSACTION_ID_HEADER@),
{
    reveal_strlit("TransactionID");
    reveal_strlit("transactionid");
    assert(LOWERCASED_HEADER@ =~= lowercased(TRANSACTION_ID_HEADER@));
}

/// Only the first header of the right name counts: what follows it is not looked at, and when its
/// value is empty the request has no transaction id, whatever a later header says.
pub proof fn law_first_header_decides(headers: Seq<Header>, n: int)
    requires
        0 <= n < headers.len(),
        headers[n].field@ == lowercased(TRANSACTION_ID_HEADER@),
        forall|i: int|
            0 <= i < n ==> #[trigger] headers[i].field@ != lowercased(TRANSACTION_ID_HEADER@),
    ensures
        transaction_id_text(headers) == if headers[n].value@.len() == 0 {
            None
        } else {
            Some(headers[n].value@)
        },
    decreases n,
{
    if n > 0 {
        assert forall|i: int| 0 <= i < n - 1 implies #[trigger] headers.drop_first()[i].field@
            != lowercased(TRANSACTION_ID_HEADER@) by {
            assert(headers.drop_first()[i] == headers[i + 1]);
        }
        law_first_header_decides(headers.drop_first(), n - 1);
    }
}

/// A request without a header of the right name has no transaction id. The name is compared
/// letter by letter: a header spelled otherwise than in lower case does not count.
pub proof fn law_no_header_no_transaction(headers: Seq<Header>)
    requires
        forall|i: int|
            0 <= i < headers.len() ==> #[trigger] headers[i].field@ != lowercased(
                TRANSACTION_ID_HEADER@,
            ),
    ensures
        transaction_id_text(headers) is None,
    decreases headers.len(),
{
    if headers.len() > 0 {
        let rest = headers.drop_first();
        assert forall|i: int| 0 <= i < rest.len() implies #[trigger] rest[i].field@ != lowercased(
            TRANSACTION_ID_HEADER@,
        ) by {
            assert(rest[i] == headers[i + 1]);
        }
        law_no_header_no_transaction(rest);
    }
}

/// The text of the transaction id that a request carries, if it carries one.
pub fn transaction_id(headers: &Vec<Header>) -> (r: Option<&str>)
    ensures
        match r {
            Some(id) => transaction_id_text(headers@) == Some(id@),
            None => transaction_id_text(headers@) is None,
        },
{
    let name = LOWERCASED_HEADER.to_owned();
    proof {
        lemma_lowercased_header();
        assert(headers@.skip(0) =~= headers@);
    }
    let mut i: usize = 0;
    while i < headers.len()
        invariant
            i <= headers.len(),
            name@ == lowercased(TRANSACTION_ID_HEADER@),
            transaction_id_text(headers@) == transaction_id_text(headers@.skip(i as int)),
        decreases headers.len() - i,
    {
        if headers[i].field == name {
            let value = headers[i].value.as_str();
            // Consider an empty header as a missing header.
            return if value.is_empty() { None } else { Some(value) };
        }
        assert(headers@.skip(i as int).drop_first() =~= headers@.skip(i + 1));
        i = i + 1;
    }
    None
}

/// A decimal digit.
pub open spec fn is_digit(c: char) -> bool {
    '0' <= c <= '9'
}

/// The number that a row of decimal digits writes.
pub open spec fn decimal_value(digits: Seq<char>) -> nat
    decreases digits.len(),
{
    if digits.len() == 0 {
        0
    } else {
        decimal_value(digits.drop_last()) * 10 + (digits.last() as nat - '0' as nat) as nat
    }
}

/// The digits of an unsigned number, which a single plus sign may precede.
pub open spec fn without_sign(text: Seq<char>) -> Seq<char> {
    if text.len() > 0 && text[0] == '+' {
        text.drop_first()
    } else {
        text
    }
}

/// The 64-bit number that `text` writes in decimal, if it writes one.
pub open spec fn parsed_id(text: Seq<char>) -> Option<u64> {
    let digits = without_sign(text);
    if digits.len() > 0 && (forall|i: int| 0 <= i < digits.len() ==> is_digit(#[trigger] digits[i]))
        && decimal_value(digits) <= u64::MAX {
        Some(decimal_value(digits) as u64)
    } else {
        None
    }
}

proof fn lemma_decimal_value_grows(digits: Seq<char>, n: int)
    requires
        0 <= n <= digits.len(),
        forall|i: int| 0 <= i < digits.len() ==> is_digit(#[trigger] digits[i]),
    ensures
        decimal_value(digits.take(n)) <= decimal_value(digits),
    decreases digits.len(),
{
    if n == digits.len() {
        assert(digits.take(n) =~= digits);
    } else {
        assert(digits.drop_last().take(n) =~= digits.take(n));
        lemma_decimal_value_grows(digits.drop_last(), n);
    }
}

/// The digit that writes a number below ten.
pub open spec fn digit_char(n: nat) -> char {
    (n + '0' as nat) as char
}

/// A number in decimal, without leading zeros.
pub open spec fn decimal_text(n: nat) -> Seq<char>
    decreases n,
{
    if n < 10 {
        seq![digit_char(n)]
    } else {
        decimal_text(n / 10).push(digit_char(n % 10))
    }
}

proof fn lemma_decimal_text(n: nat)
    ensures
        decimal_text(n).len() > 0,
        forall|i: int| 0 <= i < decimal_text(n).len() ==> is_digit(#[trigger] decimal_text(n)[i]),
        decimal_value(decimal_text(n)) == n,
    decreases n,
{
    reveal_with_fuel(decimal_value, 2);
    if n >= 10 {
        lemma_decimal_text(n / 10);
        assert(decimal_text(n).drop_last() =~= decimal_text(n / 10));
    }
}

/// Every transaction id is read back from its decimal text.
pub proof fn law_id_read_back(id: u64)
    ensures
        parsed_id(decimal_text(id as nat)) == Some(id),
{
    lemma_decimal_text(id as nat);
    assert(is_digit(decimal_text(id as nat)[0]));
}

/// The characters of a text.
fn chars_of(text: &str) -> (r: Vec<char>)
    ensures
        r@ == text@,
{
    let mut r: Vec<char> = Vec::new();
    for c in it: text.chars()
        invariant
            it.seq() == text@,
            r@ == text@.take(it.index()),
    {
        r.push(c);
    }
    r
}

/// Reads a transaction id off the text of its header.
pub fn parse_transaction_id(text: &str) -> (r: Option<u64>)
    ensures
        r == parsed_id(text@),
{
    let chars = chars_of(text);
    let ghost digits = without_sign(text@);
    let start: usize = if chars.len() > 0 && chars[0] == '+' {
        1
    } else {
        0
    };
    if start == chars.len() {
        return None;
    }
    assert(digits =~= chars@.skip(start as int));
    let mut value: u64 = 0;
    let mut i: usize = start;
    while i < chars.len()
        invariant
            start <= i <= chars.len(),
            digits == without_sign(text@),
            digits == chars@.skip(start as int),
            start < chars.len(),
            forall|j: int| 0 <= j < i - start ==> is_digit(#[trigger] digits[j]),
            value == decimal_value(digits.take(i - start)),
        decreases chars.len() - i,
    {
        let c = chars[i];
        assert(digits[i - start] == c);
        if !('0' <= c && c <= '9') {
            return None;
        }
        let digit: u64 = c as u64 - '0' as u64;
        assert(digits.take(i + 1 - start).drop_last() =~= digits.take(i - start));
        assert(digits.take(i + 1 - start).last() == c);
        if value > (u64::MAX - digit) / 10 {
            proof {
                if parsed_id(text@) is Some {
                    lemma_decimal_value_grows(digits, i + 1 - start);
                }
            }
            return None;
        }
        value = value * 10 + digit;
        i = i + 1;
    }
    assert(digits.take(i - start) =~= digits);
    Some(value)
}

/// The header that names a transaction is called `transactionid`, in lower case.
pub proof fn law_header_is_lowercase()
    ensures
        lowercased(TRANSACTION_ID_HEADER@) == "transactionid"@,
{
    lemma_lowercased_header();
}

/// A number is written with its last decimal digit last, after the rest of it, if there is any.
pub proof fn law_numbers_are_written_in_decimal(n: nat)
    ensures
        decimal_text(n).len() > 0,
        decimal_text(n).last() as nat == '0' as nat + n % 10,
        n < 10 ==> decimal_text(n).len() == 1,
        n >= 10 ==> decimal_text(n).drop_last() == decimal_text(n / 10),
{
    if n >= 10 {
        assert(decimal_text(n).drop_last() =~= decimal_text(n / 10));
    }
}

/// How ids are read. Nothing is no id, and a digit is the id that it stands for. A digit behind an
/// id makes it ten times as large and adds to it, as long as that fits; any other character makes
/// it no id, and what is none, other than nothing or a lone sign, becomes none by what follows it.
/// One plus sign may stand in front.
pub proof fn law_ids_are_read_in_decimal(text: Seq<char>, c: char)
    ensures
        parsed_id(Seq::empty()) is None,
        '0' <= c <= '9' ==> parsed_id(seq![c]) == Some((c as u64 - '0' as u64) as u64),
        parsed_id(text) matches Some(id) ==> parsed_id(text.push(c)) == if '0' <= c <= '9' && id
            * 10 + (c as int - '0' as int) <= u64::MAX {
            Some((id * 10 + (c as int - '0' as int)) as u64)
        } else {
            None
        },
        parsed_id(text) is None && text.len() > 0 && text != seq!['+'] ==> parsed_id(
            text.push(c),
        ) is None,
        parsed_id(seq!['+'] + text) == if text.len() > 0 && text[0] == '+' {
            None
        } else {
            parsed_id(text)
        },
{
    reveal_with_fuel(decimal_value, 2);
    assert(seq![c].drop_last() =~= Seq::empty());
    let digits = without_sign(text);
    let longer = without_sign(text.push(c));
    if text.len() > 0 {
        assert(longer =~= digits.push(c));
        assert(longer.drop_last() =~= digits);
        assert(longer.last() == c);
        assert forall|i: int| 0 <= i < digits.len() implies digits[i] == #[trigger] longer[i] by {}
        if parsed_id(text) is Some {
            assert forall|i: int| 0 <= i < digits.len() implies is_digit(#[trigger] longer[i]) by {
                assert(is_digit(digits[i]));
            }
            if !('0' <= c <= '9') {
                assert(!is_digit(longer[longer.len() - 1]));
            }
        } else if text != seq!['+'] {
            if digits.len() == 0 {
                assert(text =~= seq!['+']);
            }
            if parsed_id(text.push(c)) is Some {
                assert forall|i: int| 0 <= i < digits.len() implies is_digit(
                    #[trigger] digits[i],
                ) by {
                    assert(is_digit(longer[i]));
                }
                assert(is_digit(longer[longer.len() - 1]));
            }
        }
    }
    let signed = seq!['+'] + text;
    assert(signed[0] == '+');
    assert(without_sign(signed) =~= text);
    if text.len() > 0 && text[0] == '+' {
        assert(!is_digit(text[0]));
    }
}

} // verus!
