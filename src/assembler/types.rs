use vstd::prelude::*;
use vstd::string::StringExecFns;

use crate::cpu::types::InstructionError;

verus! {

/// Errors found while parsing a line of assembly source.
#[derive(Debug, PartialEq, Clone)]
pub enum ParseError {
    SyntaxError(String),
    SymbolAlreadyDefined(String),
    InvalidNumber(String),
    SymbolNotDefined(String),
    InstructionError(InstructionError),
    FatalError(String),
}

pub open spec fn directive_after_symbol_message() -> Seq<char> {
    "Cannot define a DIRECTIVE after other types of symbols"@
}

pub open spec fn non_constant_message(t: SymbolType) -> Seq<char> {
    "Cannot assign a value to a non-constant symbol. Current symbol type: "@ + t.name()
}

pub open spec fn constant_not_expected_message() -> Seq<char> {
    "What? Should not have the symbol type CONSTANT here"@
}

pub open spec fn mnemonic_expected_message(symbol: Seq<char>) -> Seq<char> {
    "Was expecting a mnemonic, but got \""@ + symbol + "\""@
}

impl ParseError {
    /// A directive may only start a line.
    pub fn cannot_define_directive_after_other_symbol() -> (r: Self)
        ensures
            r matches ParseError::SyntaxError(m) && m@ == directive_after_symbol_message(),
    {
        let message = String::from_str("Cannot define a DIRECTIVE after other types of symbols");
        ParseError::SyntaxError(message)
    }

    /// Only a constant can be given a value with `=`.
    pub fn cannot_assign_value_to_non_constant(current_symbol_type: SymbolType) -> (r: Self)
        ensures
            r matches ParseError::SyntaxError(m) && m@ == non_constant_message(current_symbol_type),
    {
        let mut message = String::from_str(
            "Cannot assign a value to a non-constant symbol. Current symbol type: ",
        );
        message.append(current_symbol_type.label_text());
        ParseError::SyntaxError(message)
    }

    /// A second `=` after a constant.
    pub fn constant_not_expected() -> (r: Self)
        ensures
            r matches ParseError::FatalError(m) && m@ == constant_not_expected_message(),
    {
        let message = String::from_str("What? Should not have the symbol type CONSTANT here");
        ParseError::FatalError(message)
    }

    /// Something other than a mnemonic where a mnemonic was due.
    pub fn mnemonic_expected(symbol: String) -> (r: Self)
        ensures
            r matches ParseError::SyntaxError(m) && m@ == mnemonic_expected_message(symbol@),
    {
        let mut message = String::from_str("Was expecting a mnemonic, but got \"");
        message.append(symbol.as_str());
        message.append("\"");
        ParseError::SyntaxError(message)
    }
}

/// Base in which a numeral is written.
#[derive(Debug, Clone, Copy, PartialEq, Eq, Structural)]
#[allow(non_camel_case_types)]
pub enum NumericType {
    BINARY,
    HEXADECIMAL,
    OCTAL,
    DECIMAL,
}

/// The radix of each base.
pub open spec fn radix_of(t: NumericType) -> u32 {
    match t {
        NumericType::BINARY => 2,
        NumericType::OCTAL => 8,
        NumericType::DECIMAL => 10,
        NumericType::HEXADECIMAL => 16,
    }
}

/// The base a numeral is written in, from its prefix, and the length of that prefix:
/// `$` or `0x` for hexadecimal, `%` or `0b` for binary, `@` or `0o` for octal, none for decimal.
pub open spec fn numeral_base(s: Seq<char>) -> (NumericType, int) {
    if s.len() >= 1 && s[0] == '$' {
        (NumericType::HEXADECIMAL, 1)
    } else if s.len() >= 2 && s[0] == '0' && s[1] == 'x' {
        (NumericType::HEXADECIMAL, 2)
    } else if s.len() >= 1 && s[0] == '%' {
        (NumericType::BINARY, 1)
    } else if s.len() >= 2 && s[0] == '0' && s[1] == 'b' {
        (NumericType::BINARY, 2)
    } else if s.len() >= 1 && s[0] == '@' {
        (NumericType::OCTAL, 1)
    } else if s.len() >= 2 && s[0] == '0' && s[1] == 'o' {
        (NumericType::OCTAL, 2)
    } else {
        (NumericType::DECIMAL, 0)
    }
}

impl NumericType {
    /// The radix of the base.
    pub fn to_radix(&self) -> (r: u32)
        ensures
            r == radix_of(*self),
    {
        match self {
            NumericType::BINARY => 2,
            NumericType::OCTAL => 8,
            NumericType::DECIMAL => 10,
            NumericType::HEXADECIMAL => 16,
        }
    }

    /// The base of a numeral, read from its first one or two characters, and the digits
    /// that follow the prefix.
    pub fn detect_type_in_string(numeric_string: &str) -> (r: (Self, &str))
        ensures
            r.0 == numeral_base(numeric_string@).0,
            r.1@ == numeric_string@.subrange(
                numeral_base(numeric_string@).1,
                numeric_string@.len() as int,
            ),
    {
        let n = numeric_string.unicode_len();
        let first = if n >= 1 {
            numeric_string.get_char(0)
        } else {
            ' '
        };
        let second = if n >= 2 {
            numeric_string.get_char(1)
        } else {
            ' '
        };
        if n >= 1 && first == '$' {
            (NumericType::HEXADECIMAL, numeric_string.substring_char(1, n))
        } else if n >= 2 && first == '0' && second == 'x' {
            (NumericType::HEXADECIMAL, numeric_string.substring_char(2, n))
        } else if n >= 1 && first == '%' {
            (NumericType::BINARY, numeric_string.substring_char(1, n))
        } else if n >= 2 && first == '0' && second == 'b' {
            (NumericType::BINARY, numeric_string.substring_char(2, n))
        } else if n >= 1 && first == '@' {
            (NumericType::OCTAL, numeric_string.substring_char(1, n))
        } else if n >= 2 && first == '0' && second == 'o' {
            (NumericType::OCTAL, numeric_string.substring_char(2, n))
        } else {
            (NumericType::DECIMAL, numeric_string.substring_char(0, n))
        }
    }
}

/// What a token of a source line is.
#[derive(Debug, Clone, Copy, Eq, PartialEq, Structural)]
#[allow(non_camel_case_types)]
pub enum SymbolType {
    LABEL,
    MNEMONIC,
    DATA,
    DIRECTIVE,
    CONSTANT,
    VALUE,
    UNDEFINED,
}

impl SymbolType {
    /// The name of the symbol type.
    pub open spec fn name(self) -> Seq<char> {
        match self {
            SymbolType::LABEL => "LABEL"@,
            SymbolType::MNEMONIC => "MNEMONIC"@,
            SymbolType::DATA => "DATA"@,
            SymbolType::DIRECTIVE => "DIRECTIVE"@,
            SymbolType::CONSTANT => "CONSTANT"@,
            SymbolType::VALUE => "VALUE"@,
            SymbolType::UNDEFINED => "UNDEFINED"@,
        }
    }

    /// The name of the symbol type.
    pub fn label_text(&self) -> (r: &'static str)
        ensures
            r@ == self.name(),
    {
        match self {
            SymbolType::LABEL => "LABEL",
            SymbolType::MNEMONIC => "MNEMONIC",
            SymbolType::DATA => "DATA",
            SymbolType::DIRECTIVE => "DIRECTIVE",
            SymbolType::CONSTANT => "CONSTANT",
            SymbolType::VALUE => "VALUE",
            SymbolType::UNDEFINED => "UNDEFINED",
        }
    }
}

/// A named symbol of the source and what kind of symbol it is.
#[derive(Debug, Eq, PartialEq, Clone)]
pub struct Symbol {
    pub name: String,
    pub symbol_type: SymbolType,
}

/// A symbol with the text that goes with it: the operand of an instruction, the argument
/// of a directive, the value of a constant or the address of a label.
#[derive(Debug, Eq, PartialEq)]
pub struct Command {
    pub symbol: Symbol,
    pub data: String,
}

impl Symbol {
    pub fn new(sname: String, stype: SymbolType) -> (r: Self)
        ensures
            r.name@ == sname@,
            r.symbol_type == stype,
    {
        Symbol { name: sname, symbol_type: stype }
    }

    /// The undefined symbol with an empty name.
    pub fn empty() -> (r: Self)
        ensures
            r.name@ == Seq::<char>::empty(),
            r.symbol_type == SymbolType::UNDEFINED,
    {
        Symbol { name: String::new(), symbol_type: SymbolType::UNDEFINED }
    }
}

impl Command {
    pub fn new(command_name: String, command_type: SymbolType, data: String) -> (r: Self)
        ensures
            r.symbol.name@ == command_name@,
            r.symbol.symbol_type == command_type,
            r.data@ == data@,
    {
        Command { symbol: Symbol::new(command_name, command_type), data }
    }

    pub fn from_symbol(command: Symbol, data: String) -> (r: Self)
        ensures
            r.symbol == command,
            r.data@ == data@,
    {
        Command { symbol: command, data }
    }

    /// The command of a line that holds nothing to assemble.
    pub fn empty() -> (r: Self)
        ensures
            r.symbol.name@ == Seq::<char>::empty(),
            r.symbol.symbol_type == SymbolType::UNDEFINED,
            r.data@ == Seq::<char>::empty(),
    {
        Command { symbol: Symbol::empty(), data: String::new() }
    }
}

} // verus!
