//! Command-line options of the render benchmark
//! (`--bench-render <scenario> [--n N] [--frames F] [--width W] [--height H]`).

use vstd::prelude::*;

use crate::state::simple::BenchOptions;
use crate::text::{chars_of, has_prefix, parse_usize, parse_usize_spec, starts_with_chars, str_eq, to_owned_string};

verus! {

/// Position of the first argument equal to `flag`, searching from `i`.
pub open spec fn arg_position_from(args: Seq<String>, flag: Seq<char>, i: int) -> Option<int>
    decreases args.len() - i,
{
    if i < 0 || i >= args.len() {
        None
    } else if args[i]@ == flag {
        Some(i)
    } else {
        arg_position_from(args, flag, i + 1)
    }
}

/// Position of the first argument equal to `flag`.
pub open spec fn arg_position(args: Seq<String>, flag: Seq<char>) -> Option<int> {
    arg_position_from(args, flag, 0)
}

/// The number after the first `flag`, if it is there and parses.
pub open spec fn flag_value(args: Seq<String>, flag: Seq<char>) -> Option<usize> {
    match arg_position(args, flag) {
        Some(i) => if i + 1 < args.len() {
            parse_usize_spec(args[i + 1]@)
        } else {
            None
        },
        None => None,
    }
}

/// The options the arguments select: `None` without `--bench-render`;
/// otherwise the defaults, overridden by the scenario that follows the
/// flag (unless it is another flag) and by each numeric flag whose value
/// parses. Width and height keep the low 16 bits.
pub open spec fn bench_options_match(args: Seq<String>, r: Option<BenchOptions>) -> bool {
    match arg_position(args, "--bench-render"@) {
        None => r is None,
        Some(pos) => r matches Some(o) && {
            &&& o.scenario@ == if pos + 1 < args.len() && !has_prefix(args[pos + 1]@, "--"@) {
                args[pos + 1]@
            } else {
                "feed"@
            }
            &&& o.n == match flag_value(args, "--n"@) {
                Some(v) => v,
                None => 1000,
            }
            &&& o.frames == match flag_value(args, "--frames"@) {
                Some(v) => v,
                None => 200,
            }
            &&& o.width == match flag_value(args, "--width"@) {
                Some(v) => v as u16,
                None => 160,
            }
            &&& o.height == match flag_value(args, "--height"@) {
                Some(v) => v as u16,
                None => 48,
            }
        },
    }
}

fn find_arg(args: &Vec<String>, flag: &str) -> (r: Option<usize>)
    ensures
        r matches Some(i) ==> i < args@.len(),
        match r {
            Some(i) => arg_position(args@, flag@) == Some(i as int),
            None => arg_position(args@, flag@) is None,
        },
{
    let mut i: usize = 0;
    while i < args.len() && !str_eq(args[i].as_str(), flag)
        invariant
            i <= args@.len(),
            arg_position(args@, flag@) == arg_position_from(args@, flag@, i as int),
        decreases args@.len() - i,
    {
        i += 1;
    }
    if i < args.len() {
        Some(i)
    } else {
        None
    }
}

fn take_value(args: &Vec<String>, flag: &str) -> (r: Option<usize>)
    ensures
        r == flag_value(args@, flag@),
{
    let len = args.len();
    match find_arg(args, flag) {
        Some(i) => if i + 1 < len {
            parse_usize(args[i + 1].as_str())
        } else {
            None
        },
        None => None,
    }
}

/// Parse the benchmark options out of the command-line arguments; `None`
/// when `--bench-render` is absent. Unknown flags are ignored.
pub fn parse_bench_args(args: &Vec<String>) -> (r: Option<BenchOptions>)
    ensures
        bench_options_match(args@, r),
{
    let pos = match find_arg(args, "--bench-render") {
        Some(p) => p,
        None => return None,
    };
    let mut opts = BenchOptions::default();
    let len = args.len();
    if pos + 1 < len {
        let s = args[pos + 1].as_str();
        if !starts_with_chars(&chars_of(s), &chars_of("--")) {
            opts.scenario = to_owned_string(s);
        }
    }
    if let Some(n) = take_value(args, "--n") {
        opts.n = n;
    }
    if let Some(f) = take_value(args, "--frames") {
        opts.frames = f;
    }
    if let Some(w) = take_value(args, "--width") {
        opts.width = #[verifier::truncate] (w as u16);
    }
    if let Some(h) = take_value(args, "--height") {
        opts.height = #[verifier::truncate] (h as u16);
    }
    Some(opts)
}

} // verus!
