//! Names of the per-vault log files.
//!
//! The mounting process writes its standard output and standard error to two
//! append-mode files below the application's `logs` directory. Their names
//! depend on the vault id alone, so that every run of a vault appends to the
//! same pair of files.

use crate::numeral::{append_decimal, decimal, lemma_decimal_reads_back, numeral_value};
use vstd::prelude::*;
use vstd::string::StringExecFns;

verus! {

/// Which of the two streams of the mounting process a log file receives.
#[derive(Debug, Clone, Copy, PartialEq, Eq, Structural)]
pub enum LogStream {
    Output,
    Error,
}

/// The extension that tells the two log files of a vault apart.
pub open spec fn extension(stream: LogStream) -> Seq<char> {
    match stream {
        LogStream::Output => ".out"@,
        LogStream::Error => ".err"@,
    }
}

/// The file name, without directory, of the log that receives `stream` for
/// the vault `id`: `vault_`, the id in decimal, and `.out` or `.err`.
pub open spec fn log_name(id: u32, stream: LogStream) -> Seq<char> {
    "vault_"@ + decimal(id as nat) + extension(stream)
}

/// No two log files share a name: the name tells both the vault and the
/// stream.
pub proof fn lemma_log_names_differ(id: u32, stream: LogStream, other_id: u32, other: LogStream)
    requires
        log_name(id, stream) == log_name(other_id, other),
    ensures
        id == other_id,
        stream == other,
{
    reveal_strlit("vault_");
    reveal_strlit(".out");
    reveal_strlit(".err");
    let name = log_name(id, stream);
    let digits = decimal(id as nat);
    let other_digits = decimal(other_id as nat);
    lemma_decimal_reads_back(id as nat);
    lemma_decimal_reads_back(other_id as nat);
    assert(name.len() == 6 + digits.len() + 4);
    assert(name.len() == 6 + other_digits.len() + 4);
    assert(name.subrange(6, 6 + digits.len() as int) =~= digits);
    assert(name.subrange(6, 6 + other_digits.len() as int) =~= other_digits);
    assert(numeral_value(digits) == numeral_value(other_digits));
    assert(name[name.len() - 1] == extension(stream)[3]);
    assert(name[name.len() - 1] == extension(other)[3]);
}

/// The directory, below the application's local data directory, that
/// holds the log files of all vaults.
pub fn log_directory() -> (name: &'static str)
    ensures
        name@ == "logs"@,
{
    "logs"
}

/// Names the log file that receives `stream` for the vault `id`.
pub fn log_file_name(id: u32, stream: LogStream) -> (name: String)
    ensures
        name@ == log_name(id, stream),
{
    let mut name = String::from_str("vault_");
    append_decimal(&mut name, id);
    match stream {
        LogStream::Output => name.append(".out"),
        LogStream::Error => name.append(".err"),
    }
    name
}

} // verus!
