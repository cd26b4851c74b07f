//! The run index: how the controller tells a re-spawned subject which scenario to run.
use vstd::prelude::*;

use crate::text::{decimal, parse_unsigned, parse_unsigned_spec, chars_of, usize_to_decimal};

verus! {

/// Name of the environment variable that carries the run index.
pub const CALLIPER_RUN_ID: &'static str = "CALLIPER_RUN_ID";

/// Why an environment variable could not be read (`std::env::VarError`).
#[derive(Clone, Copy, Debug, PartialEq, Eq, Structural)]
pub enum EnvVarError {
    /// The variable is not set.
    NotPresent,
    /// The variable's value is not valid Unicode.
    NotUnicode,
}

/// Errors in reading the run index.
#[derive(Clone, Copy, Debug, PartialEq, Eq, Structural)]
pub enum RunIdError {
    /// The value is not an unsigned integer that fits in `usize`.
    NotAnInteger,
    /// The variable could not be read.
    EnvironmentVariableError(EnvVarError),
}

/// The contents of an environment variable as `std::env::var` gives it, characters viewed.
pub open spec fn var_view(var: Result<String, EnvVarError>) -> Result<Seq<char>, EnvVarError> {
    match var {
        Ok(s) => Ok(s@),
        Err(e) => Err(e),
    }
}

/// The run index that the variable holds: its value read as a `usize`.
pub open spec fn run_id_of(var: Result<Seq<char>, EnvVarError>) -> Result<nat, RunIdError> {
    match var {
        Err(e) => Err(RunIdError::EnvironmentVariableError(e)),
        Ok(s) => match parse_unsigned_spec(s, usize::MAX as nat) {
            Some(v) => Ok(v),
            None => Err(RunIdError::NotAnInteger),
        },
    }
}

/// Reads the run index from the variable's contents `var`.
pub fn get_run_id(var: &Result<String, EnvVarError>) -> (r: Result<usize, RunIdError>)
    ensures
        match run_id_of(var_view(*var)) {
            Ok(v) => r == Ok::<usize, RunIdError>(v as usize),
            Err(e) => r == Err::<usize, RunIdError>(e),
        },
{
    match var {
        Err(e) => Err(RunIdError::EnvironmentVariableError(*e)),
        Ok(s) => {
            let cs = chars_of(s.as_str());
            match parse_unsigned(&cs, 0, cs.len(), usize::MAX as u64) {
                Some(v) => {
                    assert(cs@.subrange(0, cs@.len() as int) =~= s@);
                    Ok(v as usize)
                },
                None => {
                    assert(cs@.subrange(0, cs@.len() as int) =~= s@);
                    Err(RunIdError::NotAnInteger)
                },
            }
        },
    }
}

/// Tells whether this process is the controller, not a subject: true unless the variable holds
/// a valid run index.
pub fn is_setup_run(var: &Result<String, EnvVarError>) -> (r: bool)
    ensures
        r == run_id_of(var_view(*var)) is Err,
{
    get_run_id(var).is_err()
}

/// The value of the run-index variable for the scenario at `index`.
pub fn encode_run_id(index: usize) -> (r: String)
    ensures
        r@ == decimal(index as nat),
{
    usize_to_decimal(index)
}

} // verus!
