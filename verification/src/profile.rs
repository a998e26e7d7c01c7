//! The compute-unit profile report: the flame graph's title and which
//! functions the summary lists.
use vstd::prelude::*;

verus! {

/// The most functions the summary lists.
pub const SUMMARY_TOP: usize = 20;

/// `<program> — CU Profile`.
pub fn flamegraph_title(program_name: &str) -> (t: String)
    ensures
        t@ == program_name@ + " — CU Profile"@,
{
    let mut t = String::from_str(program_name);
    t.append(" — CU Profile");
    t
}

/// How many of `n` functions the summary lists: at most twenty.
pub fn summary_count(n: usize) -> (k: usize)
    ensures
        k == if n < SUMMARY_TOP {
            n
        } else {
            SUMMARY_TOP
        },
{
    if n < SUMMARY_TOP {
        n
    } else {
        SUMMARY_TOP
    }
}

/// The number of functions the summary leaves out, when it leaves some out.
pub fn functions_left_out(n: usize) -> (r: Option<usize>)
    ensures
        n > SUMMARY_TOP ==> r == Some((n - SUMMARY_TOP) as usize),
        n <= SUMMARY_TOP ==> r is None,
{
    let k = summary_count(n);
    if n > k {
        Some(n - k)
    } else {
        None
    }
}

} // verus!
