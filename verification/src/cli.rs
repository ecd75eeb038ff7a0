//! The choice of a ROM among the entries of a folder: what a line of
//! input means.

use vstd::prelude::*;

verus! {

/// What a line of input means for a folder with a given number of
/// entries.
#[derive(Clone, Copy, Debug, PartialEq, Eq, Structural)]
pub enum EntryChoice {
    /// The entry with this index was chosen.
    Chosen(usize),
    /// The line is a number, but the folder has no entry with it.
    OutOfRange,
    /// The line is no number.
    NotANumber,
}

/// `line` without the whitespace at its two ends.
pub uninterp spec fn trimmed(line: Seq<char>) -> Seq<char>;

/// The number that `text` spells in decimal digits, if it spells one
/// that 64 bits hold.
pub uninterp spec fn decimal_value(text: Seq<char>) -> Option<u64>;

/// `str::trim` of std: the line without leading and trailing
/// whitespace.
#[verifier::external_body]
fn trim_line(line: &str) -> (r: &str)
    ensures
        r@ == trimmed(line@),
{
    line.trim()
}

/// `str::parse` of std for `u64`: the number that the text spells, or
/// nothing where it spells none.
#[verifier::external_body]
fn parse_number(text: &str) -> (r: Option<u64>)
    ensures
        r == decimal_value(text@),
{
    text.parse::<u64>().ok()
}

/// What a parsed line means: a number below the number of entries
/// chooses that entry.
pub open spec fn spec_judge_entry(number: Option<u64>, roms_number: usize) -> EntryChoice {
    match number {
        Some(n) => if n < roms_number { EntryChoice::Chosen(n as usize) } else { EntryChoice::OutOfRange },
        None => EntryChoice::NotANumber,
    }
}

#[verifier::when_used_as_spec(spec_judge_entry)]
pub fn judge_entry(number: Option<u64>, roms_number: usize) -> (r: EntryChoice)
    ensures
        r == spec_judge_entry(number, roms_number),
{
    match number {
        Some(n) => {
            if n < roms_number as u64 {
                EntryChoice::Chosen(n as usize)
            } else {
                EntryChoice::OutOfRange
            }
        },
        None => EntryChoice::NotANumber,
    }
}

/// What the line `line` means for a folder of `roms_number` entries.
pub fn read_entry(line: &str, roms_number: usize) -> (r: EntryChoice)
    ensures
        r == spec_judge_entry(decimal_value(trimmed(line@)), roms_number),
{
    judge_entry(parse_number(trim_line(line)), roms_number)
}

} // verus!
