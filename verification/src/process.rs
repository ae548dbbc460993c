//! Process introspection: the command-line record of a process, and the
//! interpretation of a captured program run. The filesystem reads and the
//! spawning itself happen outside; this module builds the paths, parses the
//! records, and turns every raw outcome into the typed result the caller is
//! owed.
use vstd::prelude::*;
use vstd::string::*;

use crate::numeral::decimal;
use crate::numeral::decimal_string;

verus! {

/// The typed failures of process introspection.
///
/// `IoError` carries a description of the record or program that could not
/// be reached; `ExecutionError` names the program that exited non-zero.
#[derive(Debug, PartialEq, Eq)]
pub enum ProcessError {
    IoError(String),
    ParseError,
    InvocationError,
    ExecutionError(String),
    EncodingError,
}

/// The platform's canonical root of the process-information filesystem,
/// for callers that carry no override.
pub fn default_proc_root() -> (root: String)
    ensures
        root@ == "/proc"@,
{
    String::from_str("/proc")
}

/// The location of the command-line record of process `pid` under `root`:
/// `<root>/<pid>/cmdline`.
pub fn cmdline_path(root: &str, pid: u64) -> (path: String)
    ensures
        path@ == root@ + "/"@ + decimal(pid as nat) + "/cmdline"@,
{
    let mut path = String::from_str(root);
    path.append("/");
    let digits = decimal_string(pid);
    path.append(digits.as_str());
    path.append("/cmdline");
    proof {
        assert(path@ =~= root@ + "/"@ + decimal(pid as nat) + "/cmdline"@);
    }
    path
}

/// The first NUL-delimited field of a record: everything before the first
/// NUL character, or the whole record when it holds none.
pub open spec fn first_nul_field(data: Seq<char>) -> Seq<char>
    decreases data.len(),
{
    if data.len() == 0 {
        Seq::<char>::empty()
    } else if data[0] == '\0' {
        Seq::<char>::empty()
    } else {
        seq![data[0]] + first_nul_field(data.drop_first())
    }
}

proof fn lemma_first_nul_field_prefix(data: Seq<char>, i: int)
    requires
        0 <= i <= data.len(),
        forall|j: int| 0 <= j < i ==> data[j] != '\0',
        i == data.len() || data[i] == '\0',
    ensures
        first_nul_field(data) == data.subrange(0, i),
    decreases data.len(),
{
    if data.len() == 0 || i == 0 {
        assert(first_nul_field(data) =~= data.subrange(0, i));
    } else {
        lemma_first_nul_field_prefix(data.drop_first(), i - 1);
        assert(seq![data[0]] + data.drop_first().subrange(0, i - 1) =~= data.subrange(0, i));
    }
}

/// Splits a command-line record on NUL and keeps only its first field, the
/// executable's path or name, discarding the arguments that follow. An empty
/// record is structurally empty and is rejected as a parse failure.
pub fn parse_cmdline(data: &str) -> (cmd: Result<String, ProcessError>)
    ensures
        data@.len() == 0 ==> (cmd matches Err(e) && e is ParseError),
        data@.len() > 0 ==> (cmd matches Ok(first) && first@ == first_nul_field(data@)),
{
    let len = data.unicode_len();
    if len == 0 {
        return Err(ProcessError::ParseError);
    }
    let mut i: usize = 0;
    while i < len
        invariant
            0 <= i <= len,
            len == data@.len(),
            forall|j: int| 0 <= j < i ==> data@[j] != '\0',
        decreases len - i,
    {
        if data.get_char(i) == '\0' {
            proof {
                lemma_first_nul_field_prefix(data@, i as int);
            }
            return Ok(String::from_str(data.substring_char(0, i)));
        }
        i = i + 1;
    }
    proof {
        lemma_first_nul_field_prefix(data@, len as int);
        assert(data@.subrange(0, len as int) =~= data@);
    }
    Ok(String::from_str(data))
}

/// Turns the raw outcome of reading a command-line record into the typed
/// result: a record that could not be read — process gone, permission
/// denied, path unresolvable — is an `IoError` carrying the reader's
/// description, and a record that was read is parsed for its first field.
pub fn cmdline_outcome(read: Result<String, String>) -> (cmd: Result<String, ProcessError>)
    ensures
        read matches Err(m) ==> (cmd matches Err(e) && e matches ProcessError::IoError(d) && d@
            == m@),
        read matches Ok(data) ==> (data@.len() == 0 ==> (cmd matches Err(e)
            && e is ParseError)),
        read matches Ok(data) ==> (data@.len() > 0 ==> (cmd matches Ok(first) && first@
            == first_nul_field(data@))),
{
    match read {
        Err(description) => Err(ProcessError::IoError(description)),
        Ok(data) => parse_cmdline(data.as_str()),
    }
}

/// Guards a program invocation: an empty argument list is a caller error,
/// to be rejected before anything is spawned.
pub fn validate_invocation(args: &Vec<String>) -> (check: Result<(), ProcessError>)
    ensures
        args@.len() == 0 ==> (check matches Err(e) && e is InvocationError),
        args@.len() > 0 ==> check is Ok,
{
    if args.len() == 0 {
        Err(ProcessError::InvocationError)
    } else {
        Ok(())
    }
}

/// Turns the raw outcome of a finished program run into the typed result:
/// a non-zero exit is an `ExecutionError` naming the program, captured
/// output that was not valid text is an `EncodingError`, and otherwise the
/// captured standard-output text is returned as it came.
pub fn capture_outcome(program: &str, exit_ok: bool, stdout_text: Option<String>) -> (captured:
    Result<String, ProcessError>)
    ensures
        !exit_ok ==> (captured matches Err(e) && e matches ProcessError::ExecutionError(p) && p@
            == program@),
        exit_ok && stdout_text is None ==> (captured matches Err(e) && e is EncodingError),
        stdout_text matches Some(text) ==> (exit_ok ==> (captured matches Ok(out) && out@
            == text@)),
{
    if !exit_ok {
        return Err(ProcessError::ExecutionError(String::from_str(program)));
    }
    match stdout_text {
        None => Err(ProcessError::EncodingError),
        Some(text) => Ok(text),
    }
}

} // verus!
