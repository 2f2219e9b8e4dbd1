use vstd::prelude::*;
use vstd::utf8::{decode_utf8, valid_utf8};

use crate::error::ProcessError;

verus! {

/// How a process ended: its exit code, absent when it was ended by a signal.
#[derive(Clone, Copy, Debug, PartialEq, Eq, Structural)]
pub struct LuaExitStatus {
    pub code: Option<i32>,
}

impl LuaExitStatus {
    pub fn from_code(code: Option<i32>) -> (r: LuaExitStatus)
        ensures
            r.code == code,
    {
        LuaExitStatus { code }
    }

    /// True when the process exited normally with code zero.
    pub fn success(&self) -> (r: bool)
        ensures
            r == (self.code == Some(0i32)),
    {
        match self.code {
            Some(c) => c == 0,
            None => false,
        }
    }

    pub fn code(&self) -> (r: Option<i32>)
        ensures
            r == self.code,
    {
        self.code
    }
}

/// Relies on String::from_utf8: it succeeds exactly when the bytes are valid
/// UTF-8, and then holds the characters they encode.
#[verifier::external_body]
fn utf8_text(bytes: Vec<u8>) -> (r: Option<String>)
    ensures
        r is Some <==> valid_utf8(bytes@),
        r matches Some(s) ==> s@ == decode_utf8(bytes@),
{
    String::from_utf8(bytes).ok()
}

/// Decodes captured bytes as text, or reports `InvalidEncoding`.
pub fn decode_text(bytes: &Vec<u8>) -> (r: Result<String, ProcessError>)
    ensures
        r is Ok <==> valid_utf8(bytes@),
        r matches Ok(s) ==> s@ == decode_utf8(bytes@),
        r is Err ==> r == Err::<String, ProcessError>(ProcessError::InvalidEncoding),
{
    match utf8_text(bytes.clone()) {
        Some(s) => Ok(s),
        None => Err(ProcessError::InvalidEncoding),
    }
}

/// The outcome of running a process to completion: everything it wrote to
/// its standard output and error, and how it ended.
#[derive(Clone, Debug, PartialEq, Eq)]
pub struct LuaOutput {
    pub stdout: Vec<u8>,
    pub stderr: Vec<u8>,
    pub status: LuaExitStatus,
}

impl LuaOutput {
    pub fn new(stdout: Vec<u8>, stderr: Vec<u8>, status: LuaExitStatus) -> (r: LuaOutput)
        ensures
            r.stdout@ == stdout@,
            r.stderr@ == stderr@,
            r.status == status,
    {
        LuaOutput { stdout, stderr, status }
    }

    /// The outcome of a run to completion from what the system reported:
    /// the captured output, error and exit code, or why the spawn was
    /// refused. Only a refused spawn is an error; an exit code of any value,
    /// and captured bytes of any kind, give an output.
    pub fn from_run(run: Result<(Vec<u8>, Vec<u8>, Option<i32>), String>) -> (r: Result<
        LuaOutput,
        ProcessError,
    >)
        ensures
            match run {
                Err(m) => r == Err::<LuaOutput, ProcessError>((ProcessError::SpawnFailed { detail: m })),
                Ok((out, err, code)) => {
                    &&& r is Ok
                    &&& r->Ok_0.stdout@ == out@
                    &&& r->Ok_0.stderr@ == err@
                    &&& r->Ok_0.status.code == code
                },
            },
    {
        match run {
            Err(m) => Err(ProcessError::SpawnFailed { detail: m }),
            Ok((out, err, code)) => Ok(LuaOutput::new(out, err, LuaExitStatus::from_code(code))),
        }
    }

    pub fn status(&self) -> (r: LuaExitStatus)
        ensures
            r == self.status,
    {
        self.status
    }

    /// The captured standard output as text. Whether or not it decodes, the
    /// output itself and its status stay as they were.
    pub fn stdout(&self) -> (r: Result<String, ProcessError>)
        ensures
            r is Ok <==> valid_utf8(self.stdout@),
            r matches Ok(s) ==> s@ == decode_utf8(self.stdout@),
            r is Err ==> r == Err::<String, ProcessError>(ProcessError::InvalidEncoding),
    {
        decode_text(&self.stdout)
    }

    /// The captured standard error as text.
    pub fn stderr(&self) -> (r: Result<String, ProcessError>)
        ensures
            r is Ok <==> valid_utf8(self.stderr@),
            r matches Ok(s) ==> s@ == decode_utf8(self.stderr@),
            r is Err ==> r == Err::<String, ProcessError>(ProcessError::InvalidEncoding),
    {
        decode_text(&self.stderr)
    }
}

} // verus!
