//! What the engine reports about an opcode that it does not execute: the
//! opcode's entry in a table of opcode metadata, a JSON document with
//! one object for each of the two opcode tables.

use vstd::prelude::*;
use vstd::string::*;

verus! {

#[verifier::external_type_specification]
#[verifier::external_body]
pub struct ExJsonValue(serde_json::Value);

#[verifier::external_type_specification]
#[verifier::external_body]
pub struct ExJsonError(serde_json::Error);

/// What a JSON value holds: for each path of object keys that leads to a
/// value inside it, the compact JSON text of that value. The empty path
/// leads to the value itself.
pub uninterp spec fn json_entries(value: serde_json::Value) -> Map<Seq<Seq<char>>, Seq<char>>;

/// What the document that `text` spells holds, if `text` is a JSON
/// document.
pub uninterp spec fn json_document(text: Seq<char>) -> Option<Map<Seq<Seq<char>>, Seq<char>>>;

/// What the member `key` of a value holds, given what the value holds.
pub open spec fn entries_below(entries: Map<Seq<Seq<char>>, Seq<char>>, key: Seq<char>) -> Map<Seq<Seq<char>>, Seq<char>> {
    Map::new(|path: Seq<Seq<char>>| entries.dom().contains(seq![key] + path), |path: Seq<Seq<char>>| entries[seq![key] + path])
}

/// Whether a value with these entries is an object with a member `key`.
pub open spec fn has_member(entries: Map<Seq<Seq<char>>, Seq<char>>, key: Seq<char>) -> bool {
    entries.dom().contains(seq![key])
}

/// The text of the member `key`.
pub open spec fn member_text(entries: Map<Seq<Seq<char>>, Seq<char>>, key: Seq<char>) -> Seq<char> {
    entries_below(entries, key)[Seq::empty()]
}

/// The lowercase hexadecimal digit of a number below 16.
pub open spec fn hex_digit(nibble: int) -> char {
    seq!['0', '1', '2', '3', '4', '5', '6', '7', '8', '9', 'a', 'b', 'c', 'd', 'e', 'f'][nibble]
}

/// Two lowercase hexadecimal digits for each byte, the high nibble
/// first.
pub open spec fn hex_text(data: Seq<u8>) -> Seq<char> {
    Seq::new(2 * data.len(), |i: int| hex_digit(if i % 2 == 0 { data[i / 2] as int / 16 } else { data[i / 2] as int % 16 }))
}

/// `hex::encode` of the crate `hex`: the bytes as lowercase hexadecimal
/// text, two digits for each byte.
#[verifier::external_body]
fn hex_encode(data: Vec<u8>) -> (r: String)
    ensures
        r@ == hex_text(data@),
{
    hex::encode(data)
}

/// `format!` of std with two `{}` and nothing else: the one text
/// followed by the other.
#[verifier::external_body]
fn concat(head: &str, tail: &str) -> (r: String)
    ensures
        r@ == head@ + tail@,
{
    format!("{}{}", head, tail)
}

/// `serde_json::from_str` for a `serde_json::Value`: the value that the
/// text spells, or the parser's error where the text is no JSON
/// document. Which of the two depends on the text alone.
#[verifier::external_body]
fn json_parse(text: &str) -> (r: Result<serde_json::Value, serde_json::Error>)
    ensures
        match r {
            Ok(value) => json_document(text@) == Some(json_entries(value)),
            Err(_) => json_document(text@) is None,
        },
{
    serde_json::from_str(text)
}

/// `serde_json::Value::get` with a string index: the member `key` of an
/// object that has one, and nothing for another object or for a value
/// that is no object.
#[verifier::external_body]
fn json_get<'a>(value: &'a serde_json::Value, key: &str) -> (r: Option<&'a serde_json::Value>)
    ensures
        match r {
            Some(member) => has_member(json_entries(*value), key@) && json_entries(*member) == entries_below(
                json_entries(*value),
                key@,
            ),
            None => !has_member(json_entries(*value), key@),
        },
{
    value.get(key)
}

/// `to_string` of a `serde_json::Value`: its compact JSON text.
#[verifier::external_body]
fn json_text(value: &serde_json::Value) -> (r: String)
    ensures
        r@ == json_entries(*value)[Seq::empty()],
{
    value.to_string()
}

/// Why no report could be made from a table of opcode metadata.
#[derive(Clone, Copy, Debug, PartialEq, Eq, Structural)]
pub enum TableError {
    /// The table is no JSON document.
    NotJson,
    /// The table has no object for the opcode's table.
    NoSection,
    /// The section has no entry for the opcode.
    NoEntry,
    /// The entry does not give the opcode's address.
    NoAddress,
    /// The entry does not give the opcode's mnemonic.
    NoMnemonic,
}

/// The name of the section for each of the two opcode tables.
pub open spec fn spec_section_name(prefixed: bool) -> Seq<char> {
    if prefixed { "cbprefixed"@ } else { "unprefixed"@ }
}

/// The key of an opcode in its section: `0x` and the opcode in
/// lowercase hexadecimal digits, without a leading zero.
pub open spec fn opcode_key_text(opcode: u8) -> Seq<char> {
    if opcode < 16 {
        seq!['0', 'x', hex_digit(opcode as int)]
    } else {
        seq!['0', 'x', hex_digit(opcode as int / 16), hex_digit(opcode as int % 16)]
    }
}

/// What stands for an operand that the entry does not give.
pub open spec fn absent_operand() -> Seq<char> {
    "{\"\":\"\"}"@
}

/// The report on an opcode, from the texts of its entry.
pub open spec fn message_text(address: Seq<char>, mnemonic: Seq<char>, operand1: Seq<char>, operand2: Seq<char>) -> Seq<char> {
    "Opcode Not implemented: "@ + address + ", which corresponds to "@ + mnemonic + " "@ + operand1 + ", "@ + operand2
}

/// The text of an operand of an entry.
pub open spec fn operand_text(entry: Map<Seq<Seq<char>>, Seq<char>>, name: Seq<char>) -> Seq<char> {
    if has_member(entry, name) { member_text(entry, name) } else { absent_operand() }
}

/// The report on an opcode from a document with the entries `document`.
pub open spec fn report_from(document: Map<Seq<Seq<char>>, Seq<char>>, opcode: u8, prefixed: bool) -> Result<Seq<char>, TableError> {
    let section = entries_below(document, spec_section_name(prefixed));
    let entry = entries_below(section, opcode_key_text(opcode));
    if !has_member(document, spec_section_name(prefixed)) {
        Err(TableError::NoSection)
    } else if !has_member(section, opcode_key_text(opcode)) {
        Err(TableError::NoEntry)
    } else if !has_member(entry, "addr"@) {
        Err(TableError::NoAddress)
    } else if !has_member(entry, "mnemonic"@) {
        Err(TableError::NoMnemonic)
    } else {
        Ok(
            message_text(
                member_text(entry, "addr"@),
                member_text(entry, "mnemonic"@),
                operand_text(entry, "operand1"@),
                operand_text(entry, "operand2"@),
            ),
        )
    }
}

/// The report on an opcode from the table that `table` spells.
pub open spec fn report(table: Seq<char>, opcode: u8, prefixed: bool) -> Result<Seq<char>, TableError> {
    match json_document(table) {
        None => Err(TableError::NotJson),
        Some(document) => report_from(document, opcode, prefixed),
    }
}

pub fn section_name(prefixed: bool) -> (r: &'static str)
    ensures
        r@ == spec_section_name(prefixed),
{
    if prefixed {
        "cbprefixed"
    } else {
        "unprefixed"
    }
}

/// The key of `opcode` in its section of the table.
pub fn opcode_key(opcode: u8) -> (r: String)
    ensures
        r@ == opcode_key_text(opcode),
{
    let encoded: String = hex_encode(vec![opcode]);
    let digits: &str = encoded.as_str();
    assert(digits@.len() == 2);
    assert(digits@[0] == hex_digit(opcode as int / 16));
    assert(digits@[1] == hex_digit(opcode as int % 16));
    proof {
        reveal_strlit("0x");
    }
    let key: String = if digits.get_char(0) == '0' {
        concat("0x", digits.substring_char(1, 2))
    } else {
        concat("0x", digits)
    };
    assert(key@ =~= opcode_key_text(opcode));
    key
}

/// The report on an opcode that the engine does not execute, from the
/// texts of the opcode's address, mnemonic and two operands.
pub fn unimplemented_message(address: &str, mnemonic: &str, operand1: &str, operand2: &str) -> (r: String)
    ensures
        r@ == message_text(address@, mnemonic@, operand1@, operand2@),
{
    let a: String = concat("Opcode Not implemented: ", address);
    let b: String = concat(a.as_str(), ", which corresponds to ");
    let c: String = concat(b.as_str(), mnemonic);
    let d: String = concat(c.as_str(), " ");
    let e: String = concat(d.as_str(), operand1);
    let f: String = concat(e.as_str(), ", ");
    concat(f.as_str(), operand2)
}

/// The text of the operand `name` of `entry`.
fn operand_of(entry: &serde_json::Value, name: &str) -> (r: String)
    ensures
        r@ == operand_text(json_entries(*entry), name@),
{
    match json_get(entry, name) {
        Some(operand) => json_text(operand),
        None => "{\"\":\"\"}".to_owned(),
    }
}

/// Looks `opcode` up in the table of opcode metadata that `table`
/// spells, and makes the report on it.
pub fn handle_unimplemented_instruction(table: &str, opcode: u8, prefixed: bool) -> (r: Result<String, TableError>)
    ensures
        match r {
            Ok(message) => report(table@, opcode, prefixed) == Ok::<Seq<char>, TableError>(message@),
            Err(e) => report(table@, opcode, prefixed) == Err::<Seq<char>, TableError>(e),
        },
{
    let opcodes: serde_json::Value = match json_parse(table) {
        Ok(value) => value,
        Err(_) => {
            return Err(TableError::NotJson);
        },
    };
    let final_opcodes: &serde_json::Value = match json_get(&opcodes, section_name(prefixed)) {
        Some(section) => section,
        None => {
            return Err(TableError::NoSection);
        },
    };
    let formatted_opcode: String = opcode_key(opcode);
    let missing_opcode: &serde_json::Value = match json_get(final_opcodes, formatted_opcode.as_str()) {
        Some(entry) => entry,
        None => {
            return Err(TableError::NoEntry);
        },
    };
    let address: String = match json_get(missing_opcode, "addr") {
        Some(member) => json_text(member),
        None => {
            return Err(TableError::NoAddress);
        },
    };
    let mnemonic: String = match json_get(missing_opcode, "mnemonic") {
        Some(member) => json_text(member),
        None => {
            return Err(TableError::NoMnemonic);
        },
    };
    let operand1: String = operand_of(missing_opcode, "operand1");
    let operand2: String = operand_of(missing_opcode, "operand2");
    Ok(unimplemented_message(address.as_str(), mnemonic.as_str(), operand1.as_str(), operand2.as_str()))
}

} // verus!
