//! Run configuration and the checks applied to command-line values.

use crate::number::{number_of, parse_unsigned};
use vstd::prelude::*;

verus! {

/// Number of inserts of a run started without arguments.
pub const DEFAULT_N: usize = 1_000_000;

/// Number of lookups of a run started without arguments.
pub const DEFAULT_Q: usize = 200_000;

/// Seed of a run started without arguments.
pub const DEFAULT_SEED: u64 = 42;

/// Smallest number of inserts between two memory samples.
pub const MIN_SAMPLE_STEP: usize = 10_000;

/// Mask applied to the values stored by the hash-table strategy.
pub const HM_MASK: u64 = 0xDEAD_BEEF;

/// Mask applied to the values stored by the ordered-tree strategy.
pub const BT_MASK: u64 = 0xC0FF_EE00;

/// Salt that derives the seed of the query indices from the run seed.
pub const QUERY_SEED_SALT: u64 = 0x000A_11CE;

/// Salt that derives the seed of the delete indices from the run seed.
pub const DELETE_SEED_SALT: u64 = 0x0BAD_5EED;

/// The sampling cadence for a run of `n` inserts: one sample every `n / 50`
/// inserts, but never more often than every `MIN_SAMPLE_STEP`.
pub open spec fn step_for(n: nat) -> nat {
    if n / 50 >= MIN_SAMPLE_STEP as nat {
        n / 50
    } else {
        MIN_SAMPLE_STEP as nat
    }
}

/// Computes the sampling cadence for a run of `n` inserts.
pub fn sample_step(n: usize) -> (step: usize)
    ensures
        step == step_for(n as nat),
        step >= MIN_SAMPLE_STEP,
        step >= n / 50,
{
    let fiftieth: usize = n / 50;
    if fiftieth >= MIN_SAMPLE_STEP {
        fiftieth
    } else {
        MIN_SAMPLE_STEP
    }
}

/// The parameters of one benchmark run.
#[derive(Clone, Copy, Debug)]
pub struct Config {
    /// Total inserts (collection size).
    pub n: usize,
    /// Total lookups.
    pub q: usize,
    /// Seed of the workload.
    pub seed: u64,
    /// Number of inserts between two memory samples.
    pub step: usize,
}

impl Config {
    /// A configuration that a benchmark accepts: at least one insert, at
    /// least one lookup, and the cadence that belongs to `n`.
    pub open spec fn valid(&self) -> bool {
        &&& self.n > 0
        &&& self.q > 0
        &&& self.step == step_for(self.n as nat)
    }

    /// Builds the configuration of a run from its three free parameters.
    pub fn new(n: usize, q: usize, seed: u64) -> (cfg: Self)
        ensures
            cfg.n == n,
            cfg.q == q,
            cfg.seed == seed,
            cfg.step == step_for(n as nat),
            cfg.valid() <==> n > 0 && q > 0,
    {
        let step: usize = sample_step(n);
        Config { n, q, seed, step }
    }

    /// The configuration used when no argument is given.
    pub fn default_run_all() -> (cfg: Self)
        ensures
            cfg.n == DEFAULT_N,
            cfg.q == DEFAULT_Q,
            cfg.seed == DEFAULT_SEED,
            cfg.step == 20_000,
            cfg.valid(),
    {
        Config::new(DEFAULT_N, DEFAULT_Q, DEFAULT_SEED)
    }
}

/// Why a pair of counts is refused.
#[derive(Clone, Copy, Debug, PartialEq, Eq, Structural)]
pub enum InputError {
    /// The number of inserts is zero.
    ZeroInserts,
    /// The number of lookups is zero.
    ZeroLookups,
}

impl InputError {
    /// The line shown to the user for this error.
    pub fn message(&self) -> (text: &'static str)
        ensures
            text@ == match *self {
                InputError::ZeroInserts => "N must be > 0"@,
                InputError::ZeroLookups => "Q must be > 0"@,
            },
    {
        match self {
            InputError::ZeroInserts => "N must be > 0",
            InputError::ZeroLookups => "Q must be > 0",
        }
    }
}

/// Refuses runs without inserts or without lookups. The number of inserts is
/// looked at first.
pub fn validate_inputs(n: usize, q: usize) -> (checked: Result<(), InputError>)
    ensures
        checked is Ok <==> n > 0 && q > 0,
        checked == Err::<(), InputError>(InputError::ZeroInserts) <==> n == 0,
        checked == Err::<(), InputError>(InputError::ZeroLookups) <==> n > 0 && q == 0,
{
    if n == 0 {
        Err(InputError::ZeroInserts)
    } else if q == 0 {
        Err(InputError::ZeroLookups)
    } else {
        Ok(())
    }
}

/// An unsigned integer type that a command-line value can be read into.
pub trait ArgNumber: Sized {
    /// The largest number the type holds.
    spec fn limit() -> nat;

    /// The number that a value of the type stands for.
    spec fn number(&self) -> nat;

    /// The largest number the type holds.
    fn limit_u64() -> (limit: u64)
        ensures
            limit as nat == Self::limit(),
    ;

    /// Converts a number that the type holds.
    fn from_u64(number: u64) -> (value: Self)
        requires
            number as nat <= Self::limit(),
        ensures
            value.number() == number as nat,
    ;
}

impl ArgNumber for u64 {
    open spec fn limit() -> nat {
        u64::MAX as nat
    }

    open spec fn number(&self) -> nat {
        *self as nat
    }

    fn limit_u64() -> (limit: u64) {
        u64::MAX
    }

    fn from_u64(number: u64) -> (value: u64) {
        number
    }
}

impl ArgNumber for usize {
    open spec fn limit() -> nat {
        usize::MAX as nat
    }

    open spec fn number(&self) -> nat {
        *self as nat
    }

    fn limit_u64() -> (limit: u64) {
        usize::MAX as u64
    }

    fn from_u64(number: u64) -> (value: usize) {
        number as usize
    }
}

/// A command-line value that is no number of the type asked for.
#[derive(Debug)]
pub struct ArgError {
    /// The name of the field, as shown to the user.
    pub name: String,
    /// The text that was given for it.
    pub raw: String,
}

impl ArgError {
    /// The text of the error: `Invalid`, the field and the value as given.
    pub open spec fn text(&self) -> Seq<char> {
        "Invalid "@ + self.name@ + ": '"@ + self.raw@ + "'"@
    }

    /// The line shown to the user for this error.
    pub fn message(&self) -> (line: String)
        ensures
            line@ == self.text(),
    {
        let mut line = String::from_str("Invalid ");
        line.append(self.name.as_str());
        line.append(": '");
        line.append(self.raw.as_str());
        line.append("'");
        line
    }
}

/// Reads the command-line value `raw` of the field `name` as a number of
/// type `T`: an optional `+`, then decimal digits, within the range of `T`.
/// Anything else is refused with the field and the text as given.
pub fn try_parse_arg<T: ArgNumber>(raw: &str, name: &str) -> (parsed: Result<T, ArgError>)
    ensures
        parsed is Ok <==> number_of(raw@, T::limit()) is Some,
        parsed matches Ok(value) ==> value.number() == number_of(raw@, T::limit())->0,
        parsed matches Err(error) ==> error.name@ == name@ && error.raw@ == raw@,
{
    match parse_unsigned(raw, T::limit_u64()) {
        Some(number) => Ok(T::from_u64(number)),
        None => Err(ArgError { name: String::from_str(name), raw: String::from_str(raw) }),
    }
}

/// Reads the command-line value `raw` of the field `name` as a number of
/// type `T`. The text must be a number within the range of `T`; use
/// `try_parse_arg` for a text that may be anything.
pub fn parse_arg<T: ArgNumber>(raw: &str, name: &str) -> (value: T)
    requires
        number_of(raw@, T::limit()) is Some,
    ensures
        value.number() == number_of(raw@, T::limit())->0,
{
    match try_parse_arg::<T>(raw, name) {
        Ok(value) => value,
        Err(_) => vstd::pervasive::unreached(),
    }
}

} // verus!
