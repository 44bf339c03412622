use vstd::prelude::*;
use vstd::string::StringExecFns;

use crate::assembler::types::{
    constant_not_expected_message,
    directive_after_symbol_message,
    mnemonic_expected_message,
    non_constant_message,
    Command,
    ParseError,
    SymbolType,
};
use crate::cpu::opcode::{is_valid_mnemonic, names_instruction};
use crate::text::same_text;

use std::collections::HashMap;
use vstd::std_specs::hash::obeys_key_model;

verus! {

/// Unicode white space, the characters that `char::is_whitespace` accepts.
pub open spec fn is_white_space(c: char) -> bool {
    let u = c as u32;
    (9 <= u <= 13) || u == 32 || u == 0x85 || u == 0xA0 || u == 0x1680 || (0x2000 <= u <= 0x200A)
        || u == 0x2028 || u == 0x2029 || u == 0x202F || u == 0x205F || u == 0x3000
}

fn white_space(c: char) -> (r: bool)
    ensures
        r == is_white_space(c),
{
    let u = c as u32;
    (9 <= u && u <= 13) || u == 32 || u == 0x85 || u == 0xA0 || u == 0x1680 || (0x2000 <= u && u
        <= 0x200A) || u == 0x2028 || u == 0x2029 || u == 0x202F || u == 0x205F || u == 0x3000
}

/// The words of `s` from the current partial word `current` on, appended to `done`: the
/// maximal runs of characters other than the space character.
pub open spec fn split_words(s: Seq<char>, current: Seq<char>, done: Seq<Seq<char>>) -> Seq<
    Seq<char>,
>
    decreases s.len(),
{
    let finished = if current.len() > 0 {
        done.push(current)
    } else {
        done
    };
    if s.len() == 0 {
        finished
    } else if s[0] == ' ' {
        split_words(s.drop_first(), Seq::empty(), finished)
    } else {
        split_words(s.drop_first(), current.push(s[0]), done)
    }
}

/// `s` without its leading white space.
pub open spec fn trim_front(s: Seq<char>) -> Seq<char>
    decreases s.len(),
{
    if s.len() > 0 && is_white_space(s[0]) {
        trim_front(s.drop_first())
    } else {
        s
    }
}

/// `s` without its trailing white space.
pub open spec fn trim_back(s: Seq<char>) -> Seq<char>
    decreases s.len(),
{
    if s.len() > 0 && is_white_space(s.last()) {
        trim_back(s.drop_last())
    } else {
        s
    }
}

/// The words of a source line: after leading and trailing white space is removed, the
/// maximal runs of characters other than the space character.
pub open spec fn words_of(line: Seq<char>) -> Seq<Seq<char>> {
    split_words(trim_back(trim_front(line)), Seq::empty(), Seq::empty())
}

/// The words of `line` between `start` and `end`.
pub open spec fn line_words(line: Seq<char>, start: int, end: int) -> Seq<Seq<char>> {
    split_words(line.subrange(start, end), Seq::empty(), Seq::empty())
}

/// Bounds of `line` without its leading and trailing white space.
fn trimmed_bounds(line: &str) -> (r: (usize, usize))
    ensures
        r.0 <= r.1 <= line@.len(),
        line@.subrange(r.0 as int, r.1 as int) == trim_back(trim_front(line@)),
{
    let n = line.unicode_len();
    let mut i: usize = 0;
    assert(line@.subrange(0, n as int) == line@);
    while i < n && white_space(line.get_char(i))
        invariant
            i <= n,
            n == line@.len(),
            trim_front(line@) == trim_front(line@.subrange(i as int, n as int)),
        decreases n - i,
    {
        assert(line@.subrange(i as int, n as int).drop_first() == line@.subrange(i + 1, n as int));
        i = i + 1;
    }
    let mut j: usize = n;
    while j > i && white_space(line.get_char(j - 1))
        invariant
            i <= j <= n,
            n == line@.len(),
            trim_front(line@) == line@.subrange(i as int, n as int),
            trim_back(trim_front(line@)) == trim_back(line@.subrange(i as int, j as int)),
        decreases j - i,
    {
        assert(line@.subrange(i as int, j as int).drop_last() == line@.subrange(i as int, j - 1));
        j = j - 1;
    }
    (i, j)
}

/// The words of `line` between `start` and `end`, as slices of it.
fn words(line: &str, start: usize, end: usize) -> (r: Vec<&str>)
    requires
        start <= end <= line@.len(),
    ensures
        r@.map_values(|w: &str| w@) == line_words(line@, start as int, end as int),
{
    let mut tokens: Vec<&str> = Vec::new();
    let mut word_start: usize = start;
    let mut i: usize = start;
    let ghost whole = line@.subrange(start as int, end as int);
    assert(line@.subrange(start as int, start as int) =~= Seq::<char>::empty());
    assert(tokens@.map_values(|w: &str| w@) =~= Seq::<Seq<char>>::empty());
    while i < end
        invariant
            start <= word_start <= i <= end <= line@.len(),
            whole == line@.subrange(start as int, end as int),
            split_words(whole, Seq::empty(), Seq::empty()) == split_words(
                line@.subrange(i as int, end as int),
                line@.subrange(word_start as int, i as int),
                tokens@.map_values(|w: &str| w@),
            ),
        decreases end - i,
    {
        let ghost rest = line@.subrange(i as int, end as int);
        let ghost before = tokens@;
        assert(rest.drop_first() =~= line@.subrange(i + 1, end as int));
        assert(rest[0] == line@[i as int]);
        if line.get_char(i) == ' ' {
            if word_start < i {
                let w = line.substring_char(word_start, i);
                tokens.push(w);
                assert(tokens@.map_values(|w: &str| w@) =~= before.map_values(|w: &str| w@).push(
                    w@,
                ));
            }
            word_start = i + 1;
            assert(line@.subrange(word_start as int, word_start as int) =~= Seq::<char>::empty());
        } else {
            assert(line@.subrange(word_start as int, i + 1) =~= line@.subrange(
                word_start as int,
                i as int,
            ).push(line@[i as int]));
        }
        i = i + 1;
    }
    let ghost before = tokens@;
    assert(line@.subrange(end as int, end as int) =~= Seq::<char>::empty());
    if word_start < end {
        let w = line.substring_char(word_start, end);
        tokens.push(w);
        assert(tokens@.map_values(|w: &str| w@) =~= before.map_values(|w: &str| w@).push(w@));
    }
    tokens
}

/// The decimal digit `d` as text.
pub open spec fn digit_text(d: int) -> Seq<char> {
    if d == 0 {
        "0"@
    } else if d == 1 {
        "1"@
    } else if d == 2 {
        "2"@
    } else if d == 3 {
        "3"@
    } else if d == 4 {
        "4"@
    } else if d == 5 {
        "5"@
    } else if d == 6 {
        "6"@
    } else if d == 7 {
        "7"@
    } else if d == 8 {
        "8"@
    } else {
        "9"@
    }
}

/// `n` written in decimal, without leading zeros.
pub open spec fn decimal(n: nat) -> Seq<char>
    decreases n,
{
    if n < 10 {
        digit_text(n as int)
    } else {
        decimal(n / 10) + digit_text((n % 10) as int)
    }
}

fn digit_str(d: u16) -> (r: &'static str)
    requires
        d < 10,
    ensures
        r@ == digit_text(d as int),
{
    if d == 0 {
        "0"
    } else if d == 1 {
        "1"
    } else if d == 2 {
        "2"
    } else if d == 3 {
        "3"
    } else if d == 4 {
        "4"
    } else if d == 5 {
        "5"
    } else if d == 6 {
        "6"
    } else if d == 7 {
        "7"
    } else if d == 8 {
        "8"
    } else {
        "9"
    }
}

/// `n` written in decimal.
pub fn decimal_text(n: u16) -> (r: String)
    ensures
        r@ == decimal(n as nat),
    decreases n,
{
    if n < 10 {
        String::from_str(digit_str(n))
    } else {
        let mut text = decimal_text(n / 10);
        text.append(digit_str(n % 10));
        text
    }
}

/// A symbol table entry recorded while reading a line: name, symbol type and data.
pub type Entry = (Seq<char>, SymbolType, Seq<char>);

/// Where the reading of a line stands: the current symbol and its type, the kind of
/// word expected next, the operand words seen and the symbol table entries recorded.
pub struct LineScan {
    pub symbol: Seq<char>,
    pub symbol_type: SymbolType,
    pub expected: SymbolType,
    pub data: Seq<Seq<char>>,
    pub entries: Seq<Entry>,
}

/// Why a line was rejected.
pub enum LineError {
    DirectiveAfterSymbol,
    NonConstant(SymbolType),
    ConstantNotExpected,
    MnemonicExpected(Seq<char>),
}

/// The state before the first word of a line.
pub open spec fn scan_start() -> LineScan {
    LineScan {
        symbol: Seq::empty(),
        symbol_type: SymbolType::UNDEFINED,
        expected: SymbolType::UNDEFINED,
        data: Seq::empty(),
        entries: Seq::empty(),
    }
}

/// One word of a line read in state `st`, the line standing at `address`: a directive
/// (`.name`) only first, a label (`name:`) recorded with the address, `=` making the
/// current symbol a constant, then a constant's value recorded, an operand word kept, or
/// a mnemonic recognised. On error the state is the one before the word.
pub open spec fn scan_word(st: LineScan, word: Seq<char>, address: u16) -> (
    LineScan,
    Option<LineError>,
) {
    if word.len() > 0 && word[0] == '.' {
        if st.symbol_type != SymbolType::UNDEFINED {
            (st, Some(LineError::DirectiveAfterSymbol))
        } else {
            (
                LineScan {
                    symbol: word,
                    symbol_type: SymbolType::DIRECTIVE,
                    expected: SymbolType::DATA,
                    ..st
                },
                None,
            )
        }
    } else if word.len() > 0 && word.last() == ':' {
        let label = word.drop_last();
        (
            LineScan {
                symbol: label,
                symbol_type: SymbolType::LABEL,
                expected: SymbolType::MNEMONIC,
                entries: st.entries.push((label, SymbolType::LABEL, decimal(address as nat))),
                ..st
            },
            None,
        )
    } else if word == "="@ {
        match st.symbol_type {
            SymbolType::UNDEFINED => (
                LineScan { symbol_type: SymbolType::CONSTANT, expected: SymbolType::VALUE, ..st },
                None,
            ),
            SymbolType::CONSTANT => (st, Some(LineError::ConstantNotExpected)),
            t => (st, Some(LineError::NonConstant(t))),
        }
    } else if st.expected == SymbolType::VALUE {
        (LineScan { entries: st.entries.push((st.symbol, st.symbol_type, word)), ..st }, None)
    } else if st.expected == SymbolType::DATA {
        (LineScan { data: st.data.push(word), ..st }, None)
    } else if (st.expected == SymbolType::MNEMONIC || st.expected == SymbolType::UNDEFINED)
        && names_instruction(word) {
        (
            LineScan {
                symbol: word,
                symbol_type: SymbolType::MNEMONIC,
                expected: SymbolType::DATA,
                ..st
            },
            None,
        )
    } else if st.expected == SymbolType::MNEMONIC {
        (st, Some(LineError::MnemonicExpected(word)))
    } else {
        (LineScan { symbol: word, ..st }, None)
    }
}

/// The words of a line from index `i` on, read from state `st`, up to a comment (a word
/// starting with `;`) or the first error.
pub open spec fn scan_words(words: Seq<Seq<char>>, i: int, st: LineScan, address: u16) -> (
    LineScan,
    Option<LineError>,
)
    decreases words.len() - i,
{
    if i < 0 || i >= words.len() || (words[i].len() > 0 && words[i][0] == ';') {
        (st, None)
    } else {
        let (next, error) = scan_word(st, words[i], address);
        if error is Some {
            (next, error)
        } else {
            scan_words(words, i + 1, next, address)
        }
    }
}

/// The operand words joined with single spaces.
pub open spec fn joined(parts: Seq<Seq<char>>) -> Seq<char>
    decreases parts.len(),
{
    if parts.len() == 0 {
        Seq::empty()
    } else if parts.len() == 1 {
        parts[0]
    } else {
        joined(parts.drop_last()) + seq![' '] + parts.last()
    }
}

/// Whether the parse error `pe` reports the line error `e`.
pub open spec fn reports(pe: ParseError, e: LineError) -> bool {
    match e {
        LineError::DirectiveAfterSymbol => pe matches ParseError::SyntaxError(m) && m@
            == directive_after_symbol_message(),
        LineError::NonConstant(t) => pe matches ParseError::SyntaxError(m) && m@
            == non_constant_message(t),
        LineError::ConstantNotExpected => pe matches ParseError::FatalError(m) && m@
            == constant_not_expected_message(),
        LineError::MnemonicExpected(w) => pe matches ParseError::SyntaxError(m) && m@
            == mnemonic_expected_message(w),
    }
}

/// The table `m` after inserting each key of `keys` with the value at the same position.
pub open spec fn inserted(m: Map<String, Command>, keys: Seq<String>, values: Seq<Command>) -> Map<
    String,
    Command,
>
    decreases keys.len(),
{
    if keys.len() == 0 || values.len() != keys.len() {
        m
    } else {
        inserted(m, keys.drop_last(), values.drop_last()).insert(keys.last(), values.last())
    }
}

/// Whether `keys` and `values` hold the entries `entries`, in order.
pub open spec fn holds_entries(
    keys: Seq<String>,
    values: Seq<Command>,
    entries: Seq<Entry>,
) -> bool {
    &&& keys.len() == entries.len()
    &&& values.len() == entries.len()
    &&& forall|j: int|
        #![trigger entries[j]]
        0 <= j < entries.len() ==> keys[j]@ == entries[j].0 && values[j].symbol.name@
            == entries[j].0
            && values[j].symbol.symbol_type == entries[j].1 && values[j].data@ == entries[j].2
}

/// Whether `c` is the command of a line read to state `st`: the symbol with its operand
/// words when one was expected, the empty command otherwise.
pub open spec fn line_command(c: Command, st: LineScan) -> bool {
    if st.expected == SymbolType::DATA {
        c.symbol.name@ == st.symbol && c.symbol.symbol_type == st.symbol_type && c.data@
            == joined(st.data)
    } else {
        c.symbol.name@ == Seq::<char>::empty() && c.symbol.symbol_type == SymbolType::UNDEFINED
            && c.data@ == Seq::<char>::empty()
    }
}

/// The words joined with single spaces.
fn join_words(parts: &Vec<&str>) -> (r: String)
    ensures
        r@ == joined(parts@.map_values(|w: &str| w@)),
{
    let mut text = String::new();
    let mut i: usize = 0;
    while i < parts.len()
        invariant
            i <= parts@.len(),
            text@ == joined(parts@.subrange(0, i as int).map_values(|w: &str| w@)),
        decreases parts@.len() - i,
    {
        let ghost before = parts@.subrange(0, i as int).map_values(|w: &str| w@);
        let ghost after = parts@.subrange(0, i + 1).map_values(|w: &str| w@);
        assert(after.drop_last() =~= before);
        assert(after.last() == parts@[i as int]@);
        if i > 0 {
            text.append(" ");
            proof {
                reveal_strlit(" ");
            }
            assert(" "@ =~= seq![' ']);
        }
        text.append(parts[i]);
        i = i + 1;
    }
    assert(parts@.subrange(0, parts@.len() as int) =~= parts@);
    text
}

/// Reads one line of source: directives, labels, constants, and instructions with their
/// operand text. Labels and constants go into `symbol_table`, a label with the decimal
/// text of `address_number`. A comment starts with `;`.
pub fn parse_line(
    line: &str,
    address_number: u16,
    symbol_table: &mut HashMap<String, Command>,
) -> (r: Result<Command, ParseError>)
    ensures
        ({
            let (st, error) = scan_words(words_of(line@), 0, scan_start(), address_number);
            &&& match error {
                Some(e) => r is Err && reports(r->Err_0, e),
                None => r is Ok && line_command(r->Ok_0, st),
            }
            &&& obeys_key_model::<String>() ==> exists|keys: Seq<String>, values: Seq<Command>|
                holds_entries(keys, values, st.entries) && final(symbol_table)@ == inserted(
                    old(symbol_table)@,
                    keys,
                    values,
                )
        }),
{
    broadcast use vstd::std_specs::hash::group_hash_axioms;

    let (start, end) = trimmed_bounds(line);
    let tokens = words(line, start, end);
    let ghost ws = tokens@.map_values(|w: &str| w@);
    let mut current_symbol_type = SymbolType::UNDEFINED;
    let mut expected_symbol_type = SymbolType::UNDEFINED;
    let mut current_symbol: String = String::new();
    let mut data_tokens: Vec<&str> = Vec::new();
    let ghost mut entries: Seq<Entry> = Seq::empty();
    let ghost mut keys: Seq<String> = Seq::empty();
    let ghost mut values: Seq<Command> = Seq::empty();
    let mut i: usize = 0;
    let mut comment = false;
    assert(data_tokens@.map_values(|w: &str| w@) =~= Seq::<Seq<char>>::empty());
    while i < tokens.len() && !comment
        invariant
            i <= tokens@.len(),
            ws == words_of(line@),
            ws == tokens@.map_values(|w: &str| w@),
            comment ==> i < tokens@.len() && ws[i as int].len() > 0 && ws[i as int][0] == ';',
            scan_words(ws, 0, scan_start(), address_number) == scan_words(
                ws,
                i as int,
                LineScan {
                    symbol: current_symbol@,
                    symbol_type: current_symbol_type,
                    expected: expected_symbol_type,
                    data: data_tokens@.map_values(|w: &str| w@),
                    entries,
                },
                address_number,
            ),
            holds_entries(keys, values, entries),
            obeys_key_model::<String>() ==> symbol_table@ == inserted(
                old(symbol_table)@,
                keys,
                values,
            ),
        decreases tokens@.len() - i + if comment {
            0int
        } else {
            1int
        },
    {
        let token = tokens[i];
        assert(ws[i as int] == token@);
        let ghost st = LineScan {
            symbol: current_symbol@,
            symbol_type: current_symbol_type,
            expected: expected_symbol_type,
            data: data_tokens@.map_values(|w: &str| w@),
            entries,
        };
        let n = token.unicode_len();
        if n > 0 && token.get_char(0) == ';' {
            // The rest of the line is a comment.
            comment = true;
        } else {
            if n > 0 && token.get_char(0) == '.' {
                // A directive may only start a line.
                if current_symbol_type != SymbolType::UNDEFINED {
                    return Err(ParseError::cannot_define_directive_after_other_symbol());
                }
                current_symbol = token.to_owned();
                current_symbol_type = SymbolType::DIRECTIVE;
                expected_symbol_type = SymbolType::DATA;
            } else if n > 0 && token.get_char(n - 1) == ':' {
                // A label: recorded with the address of the line.
                current_symbol = token.substring_char(0, n - 1).to_owned();
                current_symbol_type = SymbolType::LABEL;
                expected_symbol_type = SymbolType::MNEMONIC;
                let command = Command::new(
                    current_symbol.clone(),
                    current_symbol_type,
                    decimal_text(address_number),
                );
                let key = current_symbol.clone();
                let ghost value = command;
                let ghost before = (keys, values);
                proof {
                    let address_text = decimal(address_number as nat);
                    entries = entries.push((current_symbol@, SymbolType::LABEL, address_text));
                    keys = keys.push(key);
                    values = values.push(value);
                    assert(keys.drop_last() == before.0 && values.drop_last() == before.1);
                }
                symbol_table.insert(key, command);
            } else if same_text(token, "=") {
                proof {
                    reveal_strlit("=");
                }
                // Only a symbol of its own can be given a value.
                match current_symbol_type {
                    SymbolType::LABEL | SymbolType::DIRECTIVE | SymbolType::MNEMONIC
                    | SymbolType::DATA | SymbolType::VALUE => {
                        return Err(
                            ParseError::cannot_assign_value_to_non_constant(current_symbol_type),
                        );
                    },
                    SymbolType::CONSTANT => {
                        return Err(ParseError::constant_not_expected());
                    },
                    SymbolType::UNDEFINED => {},
                }
                current_symbol_type = SymbolType::CONSTANT;
                expected_symbol_type = SymbolType::VALUE;
            } else if expected_symbol_type == SymbolType::VALUE {
                // The value of a constant.
                let command = Command::new(
                    current_symbol.clone(),
                    current_symbol_type,
                    token.to_owned(),
                );
                let key = current_symbol.clone();
                let ghost value = command;
                let ghost before = (keys, values);
                proof {
                    entries = entries.push((current_symbol@, current_symbol_type, token@));
                    keys = keys.push(key);
                    values = values.push(value);
                    assert(keys.drop_last() == before.0 && values.drop_last() == before.1);
                }
                symbol_table.insert(key, command);
            } else if expected_symbol_type == SymbolType::DATA {
                // Operand words.
                let ghost before = data_tokens@;
                data_tokens.push(token);
                assert(data_tokens@.map_values(|w: &str| w@) =~= before.map_values(
                    |w: &str| w@,
                ).push(token@));
            } else {
                current_symbol = token.to_owned();
                if (expected_symbol_type == SymbolType::MNEMONIC || expected_symbol_type
                    == SymbolType::UNDEFINED) && is_valid_mnemonic(token) {
                    current_symbol_type = SymbolType::MNEMONIC;
                    expected_symbol_type = SymbolType::DATA;
                } else if expected_symbol_type == SymbolType::MNEMONIC {
                    return Err(ParseError::mnemonic_expected(current_symbol));
                }
            }
            i = i + 1;
        }
    }
    if expected_symbol_type == SymbolType::DATA {
        let data = join_words(&data_tokens);
        Ok(Command::new(current_symbol, current_symbol_type, data))
    } else {
        Ok(Command::empty())
    }
}

} // verus!
