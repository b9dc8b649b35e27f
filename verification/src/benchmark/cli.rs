//! Which benchmark to run, from the environment and the command line.
use vstd::prelude::*;
use vstd::string::*;

use crate::text::{spec_trim, trim_whitespace};

verus! {

/// The environment variable that names the benchmark to run.
pub const BENCHMARK_NAME_ENV: &'static str = "NECRON_BENCHMARK";

/// The benchmarks there are.
#[derive(Clone, Copy, Debug, PartialEq, Eq, Structural)]
pub enum BenchmarkKind {
    Mc,
    Kernel,
    Compare,
}

/// The benchmark a name selects: `mc`, `kernel` or `compare`, each also
/// under its long name.
pub open spec fn spec_benchmark_kind(name: Seq<char>) -> Option<BenchmarkKind> {
    if name == "mc"@ || name == "mc_bench"@ {
        Some(BenchmarkKind::Mc)
    } else if name == "kernel"@ || name == "kernel_bench"@ {
        Some(BenchmarkKind::Kernel)
    } else if name == "compare"@ || name == "relay_compare_bench"@ {
        Some(BenchmarkKind::Compare)
    } else {
        None
    }
}

/// The benchmark `name` selects, where it selects one.
pub fn benchmark_kind(name: &str) -> (kind: Option<BenchmarkKind>)
    ensures
        kind == spec_benchmark_kind(name@),
{
    let n = name.to_string();
    if n == String::from_str("mc") || n == String::from_str("mc_bench") {
        Some(BenchmarkKind::Mc)
    } else if n == String::from_str("kernel") || n == String::from_str("kernel_bench") {
        Some(BenchmarkKind::Kernel)
    } else if n == String::from_str("compare") || n == String::from_str("relay_compare_bench") {
        Some(BenchmarkKind::Compare)
    } else {
        None
    }
}

/// Why the command line selects no benchmark.
#[derive(Clone, Copy, Debug, PartialEq, Eq, Structural)]
pub enum CliError {
    /// `--benchmark` ends the command line.
    MissingValue,
    /// `--benchmark` is followed by nothing but whitespace.
    EmptyValue,
    /// Neither the environment nor the command line names a benchmark.
    MissingSelection,
}

impl CliError {
    /// The message for the error.
    pub fn message(&self) -> (m: &'static str)
        ensures
            m@ == match *self {
                CliError::MissingValue => "--benchmark requires a value"@,
                CliError::EmptyValue => "--benchmark requires a non-empty value"@,
                CliError::MissingSelection => "missing benchmark selection. Set NECRON_BENCHMARK=<mc|kernel|compare> or pass --benchmark <mc|kernel|compare>"@,
            },
    {
        match self {
            CliError::MissingValue => "--benchmark requires a value",
            CliError::EmptyValue => "--benchmark requires a non-empty value",
            CliError::MissingSelection => "missing benchmark selection. Set NECRON_BENCHMARK=<mc|kernel|compare> or pass --benchmark <mc|kernel|compare>",
        }
    }
}

/// What to do: run the named benchmark here, or start the program again
/// with the benchmark named in its environment and the arguments at
/// `forwarded` (indices into the command line).
#[derive(Debug)]
pub enum CliMode {
    Run { benchmark: String },
    Reexec { benchmark: String, forwarded: Vec<usize> },
}

/// Reads the command line `args` from `i` on, with `selected` named so far
/// and the arguments at `forwarded` passed on: `--benchmark` takes the next
/// argument, trimmed, as the selection; every other argument is passed on.
pub open spec fn spec_scan_args(
    args: Seq<Seq<char>>,
    i: nat,
    selected: Option<Seq<char>>,
    forwarded: Seq<usize>,
) -> Result<(Option<Seq<char>>, Seq<usize>), CliError>
    decreases args.len() - i,
{
    if i >= args.len() {
        Ok((selected, forwarded))
    } else if args[i as int] == "--benchmark"@ {
        if i + 1 >= args.len() {
            Err(CliError::MissingValue)
        } else if spec_trim(args[i + 1 as int]).len() == 0 {
            Err(CliError::EmptyValue)
        } else {
            spec_scan_args(args, i + 2, Some(spec_trim(args[i + 1 as int])), forwarded)
        }
    } else {
        spec_scan_args(args, i + 1, selected, forwarded.push(i as usize))
    }
}

/// The benchmark the environment names: its value, trimmed, unless that
/// is empty.
pub open spec fn spec_env_selection(env_value: Option<Seq<char>>) -> Option<Seq<char>> {
    match env_value {
        Some(v) => if spec_trim(v).len() > 0 {
            Some(spec_trim(v))
        } else {
            None
        },
        None => None,
    }
}

/// Strings as their texts.
pub open spec fn texts(v: Seq<String>) -> Seq<Seq<char>> {
    v.map_values(|s: String| s@)
}

/// Decides which benchmark to run. `env_value` is the text of
/// `NECRON_BENCHMARK` where it is set and readable, `env_is_set` whether it
/// is set at all, `args` the command line after the program name. A
/// `--benchmark` value overrides the environment; where the variable is
/// not set, the program is started again with it set.
pub fn normalize_cli_args(env_value: Option<&str>, env_is_set: bool, args: &Vec<String>) -> (res:
    Result<CliMode, CliError>)
    ensures
        match spec_scan_args(
            texts(args@),
            0,
            spec_env_selection(
                match env_value {
                    Some(v) => Some(v@),
                    None => None,
                },
            ),
            Seq::empty(),
        ) {
            Err(e) => res == Err::<CliMode, CliError>(e),
            Ok((None, _)) => res == Err::<CliMode, CliError>(CliError::MissingSelection),
            Ok((Some(b), f)) => if env_is_set {
                res matches Ok(CliMode::Run { benchmark }) && benchmark@ == b
            } else {
                res matches Ok(CliMode::Reexec { benchmark, forwarded }) && benchmark@ == b
                    && forwarded@ == f
            },
        },
{
    let ghost env_view = match env_value {
        Some(v) => Some(v@),
        None => None,
    };
    let mut selected: Option<String> = match env_value {
        Some(v) => {
            let t = trim_whitespace(v);
            if t.unicode_len() > 0 {
                Some(t)
            } else {
                None
            }
        },
        None => None,
    };
    let mut forwarded: Vec<usize> = Vec::new();
    let ghost whole = spec_scan_args(texts(args@), 0, spec_env_selection(env_view), Seq::empty());
    let mut i: usize = 0;
    let n = args.len();
    while i < n
        invariant
            n == args@.len(),
            i <= n,
            whole == spec_scan_args(
                texts(args@),
                0,
                spec_env_selection(
                    match env_value {
                        Some(v) => Some(v@),
                        None => None,
                    },
                ),
                Seq::empty(),
            ),
            whole == spec_scan_args(
                texts(args@),
                i as nat,
                match selected {
                    Some(s) => Some(s@),
                    None => None,
                },
                forwarded@,
            ),
        decreases n - i,
    {
        assert(texts(args@)[i as int] == args@[i as int]@);
        if args[i] == String::from_str("--benchmark") {
            assert(texts(args@)[i as int] == "--benchmark"@);
            if i + 1 >= n {
                return Err(CliError::MissingValue);
            }
            assert(texts(args@)[i + 1] == args@[i + 1]@);
            let value = trim_whitespace(args[i + 1].as_str());
            if value.unicode_len() == 0 {
                return Err(CliError::EmptyValue);
            }
            selected = Some(value);
            i = i + 2;
        } else {
            forwarded.push(i);
            i = i + 1;
        }
    }
    match selected {
        None => Err(CliError::MissingSelection),
        Some(benchmark) => if env_is_set {
            Ok(CliMode::Run { benchmark })
        } else {
            Ok(CliMode::Reexec { benchmark, forwarded })
        },
    }
}

} // verus!
