use vstd::prelude::*;
use vstd::string::StringExecFns;

use crate::assembler::types::{numeral_base, radix_of, Command, NumericType, ParseError};
use crate::constants::NUM_UP_TO_16_BIT_PATTERN;
use crate::memory::types::AddressingMode;

use std::collections::HashMap;
use vstd::std_specs::hash::obeys_key_model;

pub use crate::assembler::line::parse_line;

verus! {

/// Whether `text` contains a match of the regular expression `pattern`; false when the
/// pattern does not compile.
pub uninterp spec fn regex_matches(pattern: Seq<char>, text: Seq<char>) -> bool;

/// The text of the capture group named `group` in the first match of the regular
/// expression `pattern` in `text`; `None` when there is no match, the group took no part
/// in it, or the pattern does not compile.
pub uninterp spec fn regex_group(pattern: Seq<char>, text: Seq<char>, group: Seq<char>) -> Option<
    Seq<char>,
>;

/// Relies on `regex::Regex::new` to compile `pattern` and on `regex::Regex::is_match`:
/// whether `text` contains a match; the answer depends on the pattern and the text alone.
#[verifier::external_body]
pub(crate) fn pattern_matches(pattern: &str, text: &str) -> (r: bool)
    ensures
        r == regex_matches(pattern@, text@),
{
    match regex::Regex::new(pattern) {
        Ok(re) => re.is_match(text),
        Err(_) => false,
    }
}

/// Relies on `regex::Regex::new` to compile `pattern`, and on `regex::Regex::captures`,
/// `regex::Captures::name` and `regex::Match::as_str`: the text of the group `group` in
/// the first match of `pattern` in `text`; it depends on the three texts alone.
#[verifier::external_body]
pub(crate) fn pattern_group(pattern: &str, text: &str, group: &str) -> (r: Option<String>)
    ensures
        match r {
            Some(s) => regex_group(pattern@, text@, group@) == Some(s@),
            None => regex_group(pattern@, text@, group@) is None,
        },
{
    let re = match regex::Regex::new(pattern) {
        Ok(re) => re,
        Err(_) => return None,
    };
    let captures = re.captures(text)?;
    let found = captures.name(group)?;
    Some(found.as_str().to_string())
}

/// Value of a digit character in bases up to 36: `0`-`9`, then `a`-`z` or `A`-`Z` from 10
/// on; 36 for any other character.
pub open spec fn digit_value(c: char) -> int {
    let u = c as u32;
    if 48 <= u <= 57 {
        u - 48
    } else if 97 <= u <= 122 {
        u - 97 + 10
    } else if 65 <= u <= 90 {
        u - 65 + 10
    } else {
        36
    }
}

/// Whether every character of `s` is a digit of base `radix`.
pub open spec fn all_digits(s: Seq<char>, radix: u32) -> bool {
    forall|i: int| 0 <= i < s.len() ==> #[trigger] digit_value(s[i]) < radix
}

/// The number that the digits `s` denote in base `radix`.
pub open spec fn digits_value(s: Seq<char>, radix: u32) -> int
    decreases s.len(),
{
    if s.len() == 0 {
        0
    } else {
        digits_value(s.drop_last(), radix) * radix + digit_value(s.last())
    }
}

/// The 16-bit number written in `s` in base `radix`, after an optional `+`: `None` when no
/// digit follows, a character is not a digit of the base, or the value exceeds 16 bits.
pub open spec fn radix_value(s: Seq<char>, radix: u32) -> Option<u16> {
    let digits = unsigned_digits(s);
    if digits.len() == 0 || !all_digits(digits, radix) || digits_value(digits, radix) > 0xFFFF {
        None
    } else {
        Some(digits_value(digits, radix) as u16)
    }
}

/// `s` without its leading `+`, if any.
pub open spec fn unsigned_digits(s: Seq<char>) -> Seq<char> {
    if s.len() > 0 && s[0] == '+' {
        s.subrange(1, s.len() as int)
    } else {
        s
    }
}

/// The value of the numeral `s`: its base from the prefix, then its digits.
pub open spec fn numeral_value(s: Seq<char>) -> Option<u16> {
    let (base, prefix) = numeral_base(s);
    radix_value(s.subrange(prefix, s.len() as int), radix_of(base))
}

proof fn lemma_digits_value_nonnegative(s: Seq<char>, radix: u32)
    ensures
        digits_value(s, radix) >= 0,
    decreases s.len(),
{
    if s.len() > 0 {
        lemma_digits_value_nonnegative(s.drop_last(), radix);
        let v = digits_value(s.drop_last(), radix);
        assert(v * radix >= 0) by (nonlinear_arith)
            requires
                v >= 0,
        ;
    }
}

/// More digits never make a number smaller.
proof fn lemma_prefix_value_le(s: Seq<char>, k: int, radix: u32)
    requires
        0 <= k <= s.len(),
        radix >= 1,
    ensures
        digits_value(s.subrange(0, k), radix) <= digits_value(s, radix),
    decreases s.len(),
{
    if k < s.len() {
        let init = s.drop_last();
        assert(init.subrange(0, k) == s.subrange(0, k));
        lemma_prefix_value_le(init, k, radix);
        lemma_digits_value_nonnegative(init, radix);
        let v = digits_value(init, radix);
        assert(v * radix >= v) by (nonlinear_arith)
            requires
                v >= 0,
                radix >= 1,
        ;
    } else {
        assert(s.subrange(0, k) == s);
    }
}

/// Value of a digit character, as `digit_value`.
fn digit_of(c: char) -> (r: u32)
    ensures
        r == digit_value(c),
{
    let u = c as u32;
    if 48 <= u && u <= 57 {
        u - 48
    } else if 97 <= u && u <= 122 {
        u - 97 + 10
    } else if 65 <= u && u <= 90 {
        u - 65 + 10
    } else {
        36
    }
}

/// The 16-bit number written in `s` in base `radix`, after an optional `+`.
pub fn parse_radix(s: &str, radix: u32) -> (r: Option<u16>)
    requires
        2 <= radix <= 36,
    ensures
        r == radix_value(s@, radix),
{
    let n = s.unicode_len();
    let start: usize = if n > 0 && s.get_char(0) == '+' {
        1
    } else {
        0
    };
    let ghost digits = s@.subrange(start as int, n as int);
    assert(digits == unsigned_digits(s@));
    if start == n {
        return None;
    }
    let mut i: usize = start;
    let mut acc: u32 = 0;
    while i < n
        invariant
            start <= i <= n,
            n == s@.len(),
            2 <= radix <= 36,
            digits == s@.subrange(start as int, n as int),
            digits == unsigned_digits(s@),
            acc == digits_value(s@.subrange(start as int, i as int), radix),
            acc <= 0xFFFF,
            all_digits(s@.subrange(start as int, i as int), radix),
        decreases n - i,
    {
        let d = digit_of(s.get_char(i));
        let ghost before = s@.subrange(start as int, i as int);
        let ghost after = s@.subrange(start as int, i + 1);
        assert(after.drop_last() == before);
        assert(after.last() == s@[i as int]);
        if d >= radix {
            assert(digits[i - start] == s@[i as int]);
            assert(digit_value(digits[i - start]) >= radix);
            return None;
        }
        assert(acc * radix + d <= 0xFFFF * 36 + 36) by (nonlinear_arith)
            requires
                acc <= 0xFFFF,
                radix <= 36,
                d < 36,
        ;
        acc = acc * radix + d;
        assert(digits_value(after, radix) == acc);
        if acc > 0xFFFF {
            proof {
                if all_digits(digits, radix) {
                    assert(digits.subrange(0, i + 1 - start) == after);
                    lemma_prefix_value_le(digits, i + 1 - start, radix);
                }
            }
            return None;
        }
        assert forall|j: int| 0 <= j < after.len() implies #[trigger] digit_value(after[j])
            < radix by {
            if j < before.len() {
                assert(after[j] == before[j]);
            }
        }
        i = i + 1;
    }
    assert(s@.subrange(start as int, n as int) == digits);
    Some(acc as u16)
}

/// The number that the capture group `number` of `pattern` holds in `data`:
/// `FatalError` when there is no such group, `InvalidNumber` when it is not a number.
pub fn parse_number(pattern: &str, data: &str) -> (r: Result<u16, ParseError>)
    ensures
        match regex_group(pattern@, data@, "number"@) {
            None => r is Err && r->Err_0 is FatalError,
            Some(s) => match numeral_value(s) {
                Some(v) => r == Ok::<u16, ParseError>(v),
                None => r is Err && r->Err_0 is InvalidNumber,
            },
        },
{
    match pattern_group(pattern, data, "number") {
        Some(numeric_string) => {
            let (numeric_type, value) = NumericType::detect_type_in_string(numeric_string.as_str());
            match parse_radix(value, numeric_type.to_radix()) {
                Some(result) => Ok(result),
                None => {
                    let mut message = String::from_str("Invalid integer: ");
                    message.append(numeric_string.as_str());
                    Err(ParseError::InvalidNumber(message))
                },
            }
        },
        None => Err(ParseError::FatalError(String::from_str("Error detecting number value"))),
    }
}

/// The machine code of one instruction: the opcode byte `op`, then the operand that the
/// group `number` of the pattern of `addressing_mode` holds in `data`, in as many bytes as
/// the mode has operand bytes: two, low byte first, in the three-byte modes, one in the
/// two-byte modes, none in Accumulator and Implicit. Empty operand text gives the opcode
/// alone. `None` when the operand cannot be read or does not fit in one byte where one
/// byte is due.
pub open spec fn encoded(op: u8, addressing_mode: AddressingMode, data: Seq<char>) -> Option<
    Seq<u8>,
> {
    if data.len() == 0 || addressing_mode.size() == 1 {
        Some(seq![op])
    } else {
        match number_in(addressing_mode.pattern_text(), data) {
            None => None,
            Some(n) => if addressing_mode.size() == 3 {
                Some(seq![op, (n % 0x100) as u8, (n / 0x100) as u8])
            } else if n < 0x100 {
                Some(seq![op, n as u8])
            } else {
                None
            },
        }
    }
}

/// The machine code of one instruction: the opcode byte `op` followed by the operand
/// bytes read from `data` in `addressing_mode`.
pub fn parse_instruction_data(op: u8, addressing_mode: AddressingMode, data: &str) -> (r: Result<
    Vec<u8>,
    ParseError,
>)
    ensures
        match encoded(op, addressing_mode, data@) {
            Some(bytes) => r matches Ok(v) && v@ == bytes,
            None => r is Err,
        },
{
    let mut result: Vec<u8> = Vec::new();
    result.push(op);
    let size = addressing_mode.byte_size();
    if data.unicode_len() == 0 || size == 1 {
        return Ok(result);
    }
    let number = match parse_number(addressing_mode.pattern(), data) {
        Ok(number) => number,
        Err(e) => return Err(e),
    };
    if size == 3 {
        // Two operand bytes, little endian: low byte first.
        result.push((number % 0x100) as u8);
        result.push((number / 0x100) as u8);
    } else if number < 0x100 {
        result.push(number as u8);
    } else {
        let mut message = String::from_str("Operand does not fit in one byte: ");
        message.append(data);
        return Err(ParseError::InvalidNumber(message));
    }
    Ok(result)
}

/// The number that the group `number` of `pattern` holds in `text`, if it is one.
pub open spec fn number_in(pattern: Seq<char>, text: Seq<char>) -> Option<u16> {
    match regex_group(pattern, text, "number"@) {
        Some(s) => numeral_value(s),
        None => None,
    }
}

/// The address an `.org` directive sets: its argument as a number, or else the number
/// that the symbol it names stands for. `SymbolNotDefined` when it is neither.
pub fn parse_org_data(org: Command, symbol_table: &HashMap<String, Command>) -> (r: Result<
    u16,
    ParseError,
>)
    ensures
        match number_in(NUM_UP_TO_16_BIT_PATTERN@, org.data@) {
            Some(n) => r == Ok::<u16, ParseError>(n),
            None => obeys_key_model::<String>() ==> if symbol_table@.contains_key(org.data) {
                match number_in(NUM_UP_TO_16_BIT_PATTERN@, symbol_table@[org.data].data@) {
                    Some(n) => r == Ok::<u16, ParseError>(n),
                    None => r is Err,
                }
            } else {
                r matches Err(ParseError::SymbolNotDefined(m)) && m@ == "Symbol ["@ + org.data@
                    + "] not defined"@
            },
        },
{
    broadcast use vstd::std_specs::hash::group_hash_axioms;

    match parse_number(NUM_UP_TO_16_BIT_PATTERN, org.data.as_str()) {
        Ok(number) => Ok(number),
        Err(_) => {
            // Not a number: maybe a symbol that stands for one.
            match symbol_table.get(&org.data) {
                Some(symbol) => parse_number(NUM_UP_TO_16_BIT_PATTERN, symbol.data.as_str()),
                None => {
                    let mut message = String::from_str("Symbol [");
                    message.append(org.data.as_str());
                    message.append("] not defined");
                    Err(ParseError::SymbolNotDefined(message))
                },
            }
        },
    }
}

/// `s` with every occurrence of `from` replaced by `to`, occurrences taken from left to
/// right without overlap; an empty `from` matches before each character and at the end.
pub open spec fn replaced(s: Seq<char>, from: Seq<char>, to: Seq<char>) -> Seq<char>
    decreases s.len(),
{
    if from.len() == 0 {
        if s.len() == 0 {
            to
        } else {
            to + seq![s[0]] + replaced(s.drop_first(), from, to)
        }
    } else if s.len() < from.len() {
        s
    } else if s.subrange(0, from.len() as int) == from {
        to + replaced(s.subrange(from.len() as int, s.len() as int), from, to)
    } else {
        seq![s[0]] + replaced(s.drop_first(), from, to)
    }
}

/// Relies on `str::replace`: a new string with every match of `from` replaced by `to`.
#[verifier::external_body]
fn replace_text(s: &str, from: &str, to: &str) -> (r: String)
    ensures
        r@ == replaced(s@, from@, to@),
{
    s.replace(from, to)
}

/// `s` after replacing, in order, the name of each pair by its text.
pub open spec fn replaced_all(s: Seq<char>, pairs: Seq<(Seq<char>, Seq<char>)>) -> Seq<char>
    decreases pairs.len(),
{
    if pairs.len() == 0 {
        s
    } else {
        replaced(replaced_all(s, pairs.drop_last()), pairs.last().0, pairs.last().1)
    }
}

/// Whether each name and text of `pairs` are the name and the data of an entry of `table`.
pub open spec fn pairs_of(pairs: Seq<(Seq<char>, Seq<char>)>, table: Map<String, Command>) -> bool {
    forall|i: int|
        0 <= i < pairs.len() ==> exists|k: String|
            #![trigger table[k]]
            table.contains_key(k) && #[trigger] pairs[i] == (k@, table[k].data@)
}

/// Relies on `HashMap::iter` (whose `next` vstd does not specify): the name and the data
/// of each entry of the table, in the iterator's order, which the map does not fix.
#[verifier::external_body]
fn table_entries(symbol_table: &HashMap<String, Command>) -> (r: Vec<(String, String)>)
    ensures
        obeys_key_model::<String>() ==> r@.len() == symbol_table@.len() && pairs_of(
            r@.map_values(|p: (String, String)| (p.0@, p.1@)),
            symbol_table@,
        ),
{
    symbol_table.iter().map(|(name, command)| (name.clone(), command.data.clone())).collect()
}

/// Replaces, in the operand text of `command`, the name of each symbol of the table by its
/// data, the symbols taken in the order the table hands them out.
pub fn replace_symbols(command: &mut Command, symbol_table: &HashMap<String, Command>)
    ensures
        final(command).symbol == old(command).symbol,
        exists|pairs: Seq<(Seq<char>, Seq<char>)>|
            #![trigger replaced_all(old(command).data@, pairs)]
            final(command).data@ == replaced_all(old(command).data@, pairs) && (obeys_key_model::<
                String,
            >() ==> pairs.len() == symbol_table@.len() && pairs_of(pairs, symbol_table@)),
{
    let entries = table_entries(symbol_table);
    let ghost pairs = entries@.map_values(|p: (String, String)| (p.0@, p.1@));
    let mut i: usize = 0;
    while i < entries.len()
        invariant
            i <= entries@.len(),
            pairs == entries@.map_values(|p: (String, String)| (p.0@, p.1@)),
            command.symbol == old(command).symbol,
            command.data@ == replaced_all(old(command).data@, pairs.subrange(0, i as int)),
        decreases entries@.len() - i,
    {
        // Change each occurrence of a symbol of the table.
        let replaced_data = replace_text(
            command.data.as_str(),
            entries[i].0.as_str(),
            entries[i].1.as_str(),
        );
        assert(pairs.subrange(0, i + 1).drop_last() == pairs.subrange(0, i as int));
        command.data = replaced_data;
        i = i + 1;
    }
    assert(pairs.subrange(0, entries@.len() as int) == pairs);
}

} // verus!
