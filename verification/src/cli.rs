//! Orchestration: which strategy a selector names, what a command line asks
//! for, and what is run for it.

use crate::benches::btreemap::bench_btreemap;
use crate::benches::hashmap::bench_hashmap;
use crate::benches::vec_sorted::bench_vec_sorted;
use crate::benches::{map_removals, BenchReport};
use crate::config::{try_parse_arg, validate_inputs, ArgError, ArgNumber, Config, InputError};
use crate::data::run_deletes;
use crate::number::number_of;
use vstd::prelude::*;

verus! {

/// One of the three collection strategies under test.
#[derive(Clone, Copy, Debug, PartialEq, Eq, Structural)]
pub enum Strategy {
    /// The hash table.
    HashMap,
    /// The ordered tree map.
    BTreeMap,
    /// The sorted array searched by bisection.
    SortedVec,
}

/// The labels of the three timed phases in the printed results.
#[derive(Clone, Copy, Debug)]
pub struct PhaseLabels {
    /// Label of the insert duration.
    pub insert: &'static str,
    /// Label of the query duration.
    pub query: &'static str,
    /// Label of the delete duration.
    pub remove: &'static str,
}

/// The strategy that a selector names, if it names one.
pub open spec fn strategy_named(text: Seq<char>) -> Option<Strategy> {
    if text == "hashmap"@ {
        Some(Strategy::HashMap)
    } else if text == "btreemap"@ {
        Some(Strategy::BTreeMap)
    } else if text == "vec"@ {
        Some(Strategy::SortedVec)
    } else {
        None
    }
}

/// How many deletions of a run of `cfg` find their key under `strategy`.
pub open spec fn removed_by(strategy: Strategy, cfg: Config) -> nat {
    match strategy {
        Strategy::HashMap => map_removals(
            crate::benches::hashmap::after_insert(cfg),
            run_deletes(cfg),
        ),
        Strategy::BTreeMap => map_removals(
            crate::benches::btreemap::after_insert(cfg),
            run_deletes(cfg),
        ),
        Strategy::SortedVec => crate::benches::vec_sorted::removals(
            crate::benches::vec_sorted::after_insert(cfg),
            run_deletes(cfg),
        ),
    }
}

/// What every run of `strategy` for `cfg` reports, whatever the clock and
/// the memory readings were: every lookup found its key, the deletions that
/// found theirs are counted, and the peak covers the snapshot.
pub open spec fn reports_run(report: BenchReport, strategy: Strategy, cfg: Config) -> bool {
    &&& report.hits == cfg.q
    &&& report.removed == removed_by(strategy, cfg)
    &&& report.mem_peak >= report.mem_after_insert
}

/// Whether two texts are the same, character by character.
fn same_text(left: &str, right: &str) -> (same: bool)
    ensures
        same == (left@ == right@),
{
    let a = String::from_str(left);
    let b = String::from_str(right);
    a == b
}

impl Strategy {
    /// The name that selects the strategy on the command line.
    pub open spec fn spec_name(&self) -> Seq<char> {
        match *self {
            Strategy::HashMap => "hashmap"@,
            Strategy::BTreeMap => "btreemap"@,
            Strategy::SortedVec => "vec"@,
        }
    }

    /// The name that selects the strategy on the command line.
    pub fn name(&self) -> (text: &'static str)
        ensures
            text@ == self.spec_name(),
    {
        match self {
            Strategy::HashMap => "hashmap",
            Strategy::BTreeMap => "btreemap",
            Strategy::SortedVec => "vec",
        }
    }

    /// The strategy that `text` names, if it names one.
    pub fn from_name(text: &str) -> (found: Option<Strategy>)
        ensures
            found == strategy_named(text@),
    {
        if same_text(text, "hashmap") {
            Some(Strategy::HashMap)
        } else if same_text(text, "btreemap") {
            Some(Strategy::BTreeMap)
        } else if same_text(text, "vec") {
            Some(Strategy::SortedVec)
        } else {
            None
        }
    }

    /// The three strategies in the order in which a full run takes them.
    pub fn all() -> (order: [Strategy; 3])
        ensures
            order@ == seq![Strategy::HashMap, Strategy::BTreeMap, Strategy::SortedVec],
    {
        [Strategy::HashMap, Strategy::BTreeMap, Strategy::SortedVec]
    }

    /// The labels under which the strategy prints its three durations.
    pub fn labels(&self) -> (labels: PhaseLabels)
        ensures
            labels.insert@ == (if *self == Strategy::SortedVec {
                "Insert(+sort):    "@
            } else {
                "Insert: "@
            }),
            labels.query@ == (if *self == Strategy::SortedVec {
                "Query(binsearch): "@
            } else {
                "Query:  "@
            }),
            labels.remove@ == (if *self == Strategy::SortedVec {
                "Remove:           "@
            } else {
                "Remove: "@
            }),
    {
        match self {
            Strategy::SortedVec => PhaseLabels {
                insert: "Insert(+sort):    ",
                query: "Query(binsearch): ",
                remove: "Remove:           ",
            },
            _ => PhaseLabels { insert: "Insert: ", query: "Query:  ", remove: "Remove: " },
        }
    }

    /// Runs the benchmark of the strategy in this process.
    pub fn run(&self, cfg: Config, pid: u32) -> (report: BenchReport)
        requires
            cfg.n > 0,
        ensures
            reports_run(report, *self, cfg),
    {
        match self {
            Strategy::HashMap => bench_hashmap(cfg, pid),
            Strategy::BTreeMap => bench_btreemap(cfg, pid),
            Strategy::SortedVec => bench_vec_sorted(cfg, pid),
        }
    }
}

/// Every strategy is found again by its own name, and by no other name.
pub proof fn lemma_names_identify(strategy: Strategy, other: Strategy)
    ensures
        strategy_named(strategy.spec_name()) == Some(strategy),
        strategy.spec_name() == other.spec_name() ==> strategy == other,
{
    reveal_strlit("hashmap");
    reveal_strlit("btreemap");
    reveal_strlit("vec");
    assert("hashmap"@.len() == 7);
    assert("btreemap"@.len() == 8);
    assert("vec"@.len() == 3);
}

/// The text of the error for a selector that names no strategy.
pub open spec fn unknown_text(name: Seq<char>) -> Seq<char> {
    "Unknown type: '"@ + name + "'. Use: hashmap | btreemap | vec"@
}

/// The line shown for a selector that names no strategy: it quotes the
/// selector and lists the names that are accepted.
pub fn unknown_message(name: &str) -> (line: String)
    ensures
        line@ == unknown_text(name@),
{
    let mut line = String::from_str("Unknown type: '");
    line.append(name);
    line.append("'. Use: hashmap | btreemap | vec");
    line
}

/// The text of the usage line of the program called `program`.
pub open spec fn usage_text(program: Seq<char>) -> Seq<char> {
    "Usage: "@ + program + " <hashmap|btreemap|vec> N Q SEED"@
}

/// The usage line of the program called `program`.
pub fn usage_message(program: &str) -> (line: String)
    ensures
        line@ == usage_text(program@),
{
    let mut line = String::from_str("Usage: ");
    line.append(program);
    line.append(" <hashmap|btreemap|vec> N Q SEED");
    line
}

/// One benchmark to be run in a process of its own: the strategy and the
/// three numbers that are handed to that process.
#[derive(Clone, Copy, Debug)]
pub struct ChildRun {
    /// The strategy to run.
    pub strategy: Strategy,
    /// Total inserts.
    pub n: usize,
    /// Total lookups.
    pub q: usize,
    /// Seed of the workload.
    pub seed: u64,
}

/// The child run of `strategy` for `cfg`.
pub open spec fn child_of(strategy: Strategy, cfg: Config) -> ChildRun {
    ChildRun { strategy, n: cfg.n, q: cfg.q, seed: cfg.seed }
}

/// The three benchmarks of a full run, in order, each to be run in a process
/// of its own with the numbers of `cfg`.
pub fn run_all(cfg: Config) -> (children: Vec<ChildRun>)
    ensures
        children@ == seq![
            child_of(Strategy::HashMap, cfg),
            child_of(Strategy::BTreeMap, cfg),
            child_of(Strategy::SortedVec, cfg),
        ],
{
    let order = Strategy::all();
    let mut children: Vec<ChildRun> = Vec::with_capacity(3);
    let mut i: usize = 0;
    while i < 3
        invariant
            i <= 3,
            order@ == seq![Strategy::HashMap, Strategy::BTreeMap, Strategy::SortedVec],
            children@.len() == i,
            forall|k: int| 0 <= k < i ==> children@[k] == child_of(order@[k], cfg),
        decreases 3 - i,
    {
        children.push(ChildRun { strategy: order[i], n: cfg.n, q: cfg.q, seed: cfg.seed });
        i += 1;
    }
    assert(children@ =~= seq![
        child_of(Strategy::HashMap, cfg),
        child_of(Strategy::BTreeMap, cfg),
        child_of(Strategy::SortedVec, cfg),
    ]);
    children
}

/// A child process that builds its configuration from the numbers it is
/// handed works on the configuration of its parent.
pub proof fn lemma_child_rebuilds_config(strategy: Strategy, cfg: Config)
    requires
        cfg.step == crate::config::step_for(cfg.n as nat),
    ensures
        ({
            let child = child_of(strategy, cfg);
            Config {
                n: child.n,
                q: child.q,
                seed: child.seed,
                step: crate::config::step_for(child.n as nat) as usize,
            } == cfg
        }),
{
}

/// What became of a dispatch.
#[derive(Debug)]
pub enum Outcome {
    /// The named strategy was run in this process.
    Ran(Strategy, BenchReport),
    /// No strategy was named: these runs are to be made, one process each.
    RunAll(Vec<ChildRun>),
    /// The selector names no strategy; nothing was run.
    Unknown(String),
}

/// Runs the strategy that `which` names, in this process, reading the memory
/// of process `pid`. Without a selector nothing is run here: the three child
/// runs of `cfg` are returned. A selector that names no strategy is handed
/// back, and nothing is run.
pub fn dispatch_or_run_all(which: Option<String>, cfg: Config, pid: u32) -> (outcome: Outcome)
    requires
        cfg.n > 0,
    ensures
        which is None ==> (outcome matches Outcome::RunAll(children) && children@ == seq![
            child_of(Strategy::HashMap, cfg),
            child_of(Strategy::BTreeMap, cfg),
            child_of(Strategy::SortedVec, cfg),
        ]),
        which matches Some(name) ==> match strategy_named(name@) {
            Some(strategy) => outcome matches Outcome::Ran(ran, report) && ran == strategy
                && reports_run(report, strategy, cfg),
            None => outcome matches Outcome::Unknown(rejected) && rejected@ == name@,
        },
{
    match which {
        None => Outcome::RunAll(run_all(cfg)),
        Some(name) => match Strategy::from_name(name.as_str()) {
            Some(strategy) => Outcome::Ran(strategy, strategy.run(cfg, pid)),
            None => Outcome::Unknown(name),
        },
    }
}

/// What a command line asks for.
#[derive(Debug)]
pub enum Invocation {
    /// No argument: all three benchmarks with the default configuration.
    RunAll(Config),
    /// A selector and three numbers: one benchmark in this process.
    Single(String, Config),
}

/// Why a command line is refused.
#[derive(Debug)]
pub enum CliError {
    /// Arguments were given, but fewer than four. Holds the program's name.
    Usage(String),
    /// One of the three numbers is no number.
    Number(ArgError),
    /// A count is zero.
    Input(InputError),
}

/// The configuration that three command-line texts denote, if all three are
/// numbers of their types.
pub open spec fn numbers_of(n: Seq<char>, q: Seq<char>, seed: Seq<char>) -> Option<
    (nat, nat, nat),
> {
    if number_of(n, usize::limit()) is Some && number_of(q, usize::limit()) is Some && number_of(
        seed,
        u64::limit(),
    ) is Some {
        Some(
            (
                number_of(n, usize::limit())->0,
                number_of(q, usize::limit())->0,
                number_of(seed, u64::limit())->0,
            ),
        )
    } else {
        None
    }
}

/// Decides what a command line asks for. `args` holds the program's name
/// and then the arguments.
///
/// Without arguments the default configuration is run in full. With fewer
/// than four arguments the command line is refused with the usage. Otherwise
/// the second to fourth argument are read as `N`, `Q` and `SEED`, in this
/// order, the first that is no number is reported, then a zero count is
/// refused, and what is left is one benchmark under the first argument's
/// name, which is not looked at here.
pub fn plan_invocation(args: &Vec<String>) -> (plan: Result<Invocation, CliError>)
    requires
        args.len() >= 1,
    ensures
        args.len() == 1 ==> (plan matches Ok(Invocation::RunAll(cfg)) && cfg.n == 1_000_000 && cfg.q
            == 200_000 && cfg.seed == 42 && cfg.step == 20_000),
        1 < args.len() < 5 ==> (plan matches Err(CliError::Usage(program)) && program@
            == args[0]@),
        args.len() >= 5 ==> match numbers_of(args[2]@, args[3]@, args[4]@) {
            Some((n, q, seed)) => if n == 0 {
                plan matches Err(CliError::Input(error)) && error == InputError::ZeroInserts
            } else if q == 0 {
                plan matches Err(CliError::Input(error)) && error == InputError::ZeroLookups
            } else {
                plan matches Ok(Invocation::Single(which, cfg)) && which@ == args[1]@ && cfg.n == n
                    && cfg.q == q && cfg.seed == seed && cfg.valid()
            },
            None => plan matches Err(CliError::Number(error)) && (if number_of(
                args[2]@,
                usize::limit(),
            ) is None {
                error.name@ == "N"@ && error.raw@ == args[2]@
            } else if number_of(args[3]@, usize::limit()) is None {
                error.name@ == "Q"@ && error.raw@ == args[3]@
            } else {
                error.name@ == "SEED"@ && error.raw@ == args[4]@
            }),
        },
{
    if args.len() == 1 {
        return Ok(Invocation::RunAll(Config::default_run_all()));
    }
    if args.len() < 5 {
        return Err(CliError::Usage(args[0].clone()));
    }
    let n: usize = match try_parse_arg::<usize>(args[2].as_str(), "N") {
        Ok(n) => n,
        Err(error) => {
            return Err(CliError::Number(error));
        },
    };
    let q: usize = match try_parse_arg::<usize>(args[3].as_str(), "Q") {
        Ok(q) => q,
        Err(error) => {
            return Err(CliError::Number(error));
        },
    };
    let seed: u64 = match try_parse_arg::<u64>(args[4].as_str(), "SEED") {
        Ok(seed) => seed,
        Err(error) => {
            return Err(CliError::Number(error));
        },
    };
    match validate_inputs(n, q) {
        Ok(()) => Ok(Invocation::Single(args[1].clone(), Config::new(n, q, seed))),
        Err(error) => Err(CliError::Input(error)),
    }
}

} // verus!
