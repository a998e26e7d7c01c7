//! ANSI styling of terminal text.
use vstd::prelude::*;
use crate::text::{decimal, decimal_u8};

verus! {

pub const RESET: &'static str = "\x1b[0m";

pub const FG_256: &'static str = "\x1b[38;5;";

pub const BOLD: &'static str = "\x1b[1m";

pub const DIM: &'static str = "\x1b[2m";

/// The 256-colour code used for failures.
pub const FAIL_COLOR: u8 = 196;

/// The 256-colour code used for warnings.
pub const WARN_COLOR: u8 = 214;

/// `s` in the 256-colour palette colour `code`, then reset.
pub open spec fn color_spec(code: u8, s: Seq<char>) -> Seq<char> {
    FG_256@ + decimal(code as nat) + seq!['m'] + s + RESET@
}

pub fn color(code: u8, s: &str) -> (r: String)
    ensures
        r@ == color_spec(code, s@),
{
    let mut r = String::from_str(FG_256);
    let digits = decimal_u8(code);
    r.append(digits.as_str());
    r.append("m");
    proof {
        reveal_strlit("m");
    }
    r.append(s);
    r.append(RESET);
    assert(r@ =~= color_spec(code, s@));
    r
}

pub fn bold(s: &str) -> (r: String)
    ensures
        r@ == BOLD@ + s@ + RESET@,
{
    let mut r = String::from_str(BOLD);
    r.append(s);
    r.append(RESET);
    r
}

pub fn dim(s: &str) -> (r: String)
    ensures
        r@ == DIM@ + s@ + RESET@,
{
    let mut r = String::from_str(DIM);
    r.append(s);
    r.append(RESET);
    r
}

/// A failure message, in the failure colour.
pub fn fail(s: &str) -> (r: String)
    ensures
        r@ == color_spec(FAIL_COLOR, s@),
{
    color(FAIL_COLOR, s)
}

/// A warning, in the warning colour.
pub fn warn(s: &str) -> (r: String)
    ensures
        r@ == color_spec(WARN_COLOR, s@),
{
    color(WARN_COLOR, s)
}

} // verus!
