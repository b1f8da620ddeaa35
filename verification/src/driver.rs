use vstd::prelude::*;

use crate::utils::{dec_str, push_dec64, push_str};

verus! {

/// The process exit code after `main` returned: a `Unit` main exits with
/// zero; an `Int32` main exits with its return value.
pub fn main_exit_code(main_returns_unit: bool, result: i32) -> (r: i32)
    ensures
        main_returns_unit ==> r == 0,
        !main_returns_unit ==> r == result,
{
    if main_returns_unit {
        0
    } else {
        result
    }
}

/// The summary line printed after a test run.
pub open spec fn test_summary_text(tests: nat, passed: nat) -> Seq<char> {
    dec_str(tests) + " tests executed; "@ + dec_str(passed) + " passed; "@ + dec_str(
        (tests - passed) as nat,
    ) + " failed."@
}

/// Builds the test summary: how many tests ran, passed and failed.
pub fn test_summary(tests: u64, passed: u64) -> (r: String)
    requires
        passed <= tests,
    ensures
        r@ == test_summary_text(tests as nat, passed as nat),
{
    let mut s = String::new();
    push_dec64(&mut s, tests);
    push_str(&mut s, " tests executed; ");
    push_dec64(&mut s, passed);
    push_str(&mut s, " passed; ");
    push_dec64(&mut s, tests - passed);
    push_str(&mut s, " failed.");
    proof {
        assert(s@ =~= test_summary_text(tests as nat, passed as nat));
    }
    s
}

/// The process exit code after a test run: zero exactly when every test
/// passed.
pub fn tests_exit_code(tests: u64, passed: u64) -> (r: i32)
    requires
        passed <= tests,
    ensures
        r == 0 <==> passed == tests,
        r == 0 || r == 1,
{
    if tests == passed {
        0
    } else {
        1
    }
}

} // verus!
