use vstd::prelude::*;
use vstd::string::StringExecFns;

pub mod line;
pub mod parser;
pub mod types;

use std::collections::HashMap;
use vstd::std_specs::hash::obeys_key_model;

use crate::cpu::opcode::{
    addressing_modes_from_mnemonic,
    modes_of,
    opcode_for,
    translate_instruction_to_opcode,
};
use crate::cpu::types::InstructionError;
use crate::memory::types::AddressingMode;

use line::{holds_entries, inserted, joined, reports, scan_start, scan_words, words_of};
use parser::{
    encoded,
    parse_instruction_data,
    parse_line,
    pairs_of,
    parse_org_data,
    pattern_matches,
    regex_matches,
    replace_symbols,
    replaced_all,
};
use types::{Command, ParseError, SymbolType};
use crate::text::same_text;

verus! {

/// The first of `modes` whose pattern `data` matches.
pub open spec fn first_matching(modes: Seq<AddressingMode>, data: Seq<char>) -> Option<
    AddressingMode,
>
    decreases modes.len(),
{
    if modes.len() == 0 {
        None
    } else if regex_matches(modes[0].pattern_text(), data) {
        Some(modes[0])
    } else {
        first_matching(modes.drop_first(), data)
    }
}

/// The addressing mode in which the operand text `data` is written: the first of
/// `addressing_modes` whose pattern it matches.
pub fn define_addressing_mode(data: &str, addressing_modes: &Vec<AddressingMode>) -> (r: Result<
    AddressingMode,
    InstructionError,
>)
    ensures
        match first_matching(addressing_modes@, data@) {
            Some(mode) => r == Ok::<AddressingMode, InstructionError>(mode),
            None => r matches Err(InstructionError::AddressingModeNotRecognized(d)) && d@ == data@,
        },
{
    let mut i: usize = 0;
    assert(addressing_modes@.subrange(0, addressing_modes@.len() as int) == addressing_modes@);
    while i < addressing_modes.len()
        invariant
            i <= addressing_modes@.len(),
            first_matching(addressing_modes@, data@) == first_matching(
                addressing_modes@.subrange(i as int, addressing_modes@.len() as int),
                data@,
            ),
        decreases addressing_modes@.len() - i,
    {
        let ghost rest = addressing_modes@.subrange(i as int, addressing_modes@.len() as int);
        assert(rest.drop_first() == addressing_modes@.subrange(
            i + 1,
            addressing_modes@.len() as int,
        ));
        let mode = addressing_modes[i];
        if pattern_matches(mode.pattern(), data) {
            return Ok(mode);
        }
        i = i + 1;
    }
    Err(InstructionError::AddressingModeNotRecognized(data.to_owned()))
}

/// The machine code of the instruction `mnemonic` with operand text `data`: the opcode
/// for the first listed mode whose pattern the text matches, then the operand bytes of
/// that mode. `None` when any step fails.
pub open spec fn assembly(mnemonic: Seq<char>, data: Seq<char>) -> Option<Seq<u8>> {
    match modes_of(mnemonic) {
        None => None,
        Some(modes) => match first_matching(modes, data) {
            None => None,
            Some(mode) => match opcode_for(mnemonic, mode) {
                None => None,
                Some(op) => encoded(op, mode, data),
            },
        },
    }
}

/// Assembles one instruction: the opcode byte for `mnemonic` in the addressing mode that
/// the operand text `data` is written in, followed by the little-endian operand.
pub fn assemble_instruction(mnemonic: &str, data: &str) -> (r: Result<Vec<u8>, InstructionError>)
    ensures
        match assembly(mnemonic@, data@) {
            Some(code) => r matches Ok(v) && v@ == code,
            None => r is Err,
        },
        match modes_of(mnemonic@) {
            None => r matches Err(InstructionError::InvalidInstruction(m)) && m@ == mnemonic@,
            Some(modes) => match first_matching(modes, data@) {
                None => r matches Err(InstructionError::AddressingModeNotRecognized(d)) && d@
                    == data@,
                Some(mode) => match opcode_for(mnemonic@, mode) {
                    None => r matches Err(
                        InstructionError::InvalidIMnemonicAndAddressingModePair(m, a),
                    ) && m@ == mnemonic@ && a@ == mode.name(),
                    Some(op) => encoded(op, mode, data@) is None ==> r matches Err(
                        InstructionError::FatalError(_),
                    ),
                },
            },
        },
{
    // All possible addressing modes of the mnemonic.
    let addressing_modes = match addressing_modes_from_mnemonic(mnemonic) {
        Ok(modes) => modes,
        Err(e) => return Err(e),
    };
    // The first mode whose pattern the operand text matches.
    let addressing_mode = match define_addressing_mode(data, &addressing_modes) {
        Ok(mode) => mode,
        Err(e) => return Err(e),
    };
    let op = match translate_instruction_to_opcode(mnemonic, addressing_mode) {
        Ok(op) => op,
        Err(e) => return Err(e),
    };
    match parse_instruction_data(op, addressing_mode, data) {
        Ok(bytes) => Ok(bytes),
        Err(_) => {
            let mut message = String::from_str("Invalid operand: ");
            message.append(data);
            Err(InstructionError::FatalError(message))
        },
    }
}

/// Processes one line of source: records its labels and constants, moves the address to
/// the argument of an `.org` directive, and appends the machine code of an instruction to
/// `program_binary`, advancing the address past it. Symbols of the table that appear in
/// an operand are replaced by their data first.
pub fn process_line(
    line: &str,
    address: &mut u16,
    program_binary: &mut Vec<u8>,
    symbol_table: &mut HashMap<String, Command>,
) -> (r: Result<(), ParseError>)
    ensures
        ({
            let (st, error) = scan_words(words_of(line@), 0, scan_start(), *old(address));
            let before = old(program_binary)@;
            let after = final(program_binary)@;
            let unchanged = *final(address) == *old(address) && after == before;
            let directive = st.symbol_type == SymbolType::DIRECTIVE;
            let instruction = error is None && st.expected == SymbolType::DATA && st.symbol_type
                == SymbolType::MNEMONIC;
            &&& error matches Some(e) ==> r is Err && reports(r->Err_0, e)
            &&& (error is Some || st.expected != SymbolType::DATA) ==> unchanged
            &&& (error is None && st.expected != SymbolType::DATA) ==> r is Ok
            &&& (directive && st.symbol != ".org"@) ==> unchanged
            &&& directive ==> after == before
            &&& instruction ==> exists|pairs: Seq<(Seq<char>, Seq<char>)>|
                #![trigger replaced_all(joined(st.data), pairs)]
                (obeys_key_model::<String>() ==> pairs.len() == final(symbol_table)@.len()
                    && pairs_of(pairs, final(symbol_table)@)) && match assembly(
                    st.symbol,
                    replaced_all(joined(st.data), pairs),
                ) {
                    Some(code) => r is Ok && after == before + code && *final(address) == (*old(
                        address,
                    ) + code.len()) % 0x10000,
                    None => r is Err && r->Err_0 is InstructionError && unchanged,
                }
            &&& obeys_key_model::<String>() ==> exists|keys: Seq<String>, values: Seq<Command>|
                holds_entries(keys, values, st.entries) && final(symbol_table)@ == inserted(
                    old(symbol_table)@,
                    keys,
                    values,
                )
        }),
{
    let mut command = match parse_line(line, *address, symbol_table) {
        Ok(command) => command,
        Err(e) => return Err(e),
    };
    if command.symbol.symbol_type != SymbolType::UNDEFINED {
        // Symbols defined so far stand for their data.
        replace_symbols(&mut command, symbol_table);
        if command.symbol.symbol_type == SymbolType::DIRECTIVE {
            if same_text(command.symbol.name.as_str(), ".org") {
                *address = match parse_org_data(command, symbol_table) {
                    Ok(org) => org,
                    Err(e) => return Err(e),
                };
            }
        } else if command.symbol.symbol_type == SymbolType::MNEMONIC {
            match assemble_instruction(command.symbol.name.as_str(), command.data.as_str()) {
                Err(e) => return Err(ParseError::InstructionError(e)),
                Ok(mut instruction_binary) => {
                    let ghost code = instruction_binary@;
                    *address = address.wrapping_add(instruction_binary.len() as u16);
                    program_binary.append(&mut instruction_binary);
                    assert(program_binary@ == old(program_binary)@ + code);
                },
            }
        }
    }
    Ok(())
}

} // verus!
