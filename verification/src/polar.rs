//! The failure budget of the polar-alignment adjustment loop.
use vstd::prelude::*;

verus! {

/// Consecutive failed rounds after which the adjustment loop gives up.
pub const MAX_ADJUSTMENT_FAILURES: u32 = 5;

/// The error the adjustment loop ends with when its failure budget is spent.
pub open spec fn too_many_failures_message() -> Seq<char> {
    "Too many consecutive failures (5) in adjustment loop"@
}

/// The failure count after one round of the adjustment loop, or the error it
/// ends with: a good round (captured, read, written and solved) clears the
/// count; a failed round counts one more and, at the fifth in a row, ends the loop.
pub open spec fn adjustment_outcome_spec(failures: u32, succeeded: bool) -> Result<u32, Seq<char>> {
    if succeeded {
        Ok(0)
    } else if failures + 1 >= MAX_ADJUSTMENT_FAILURES {
        Err(too_many_failures_message())
    } else {
        Ok((failures + 1) as u32)
    }
}

/// The failure count after one round of the adjustment loop, or its final error.
pub fn adjustment_outcome(failures: u32, succeeded: bool) -> (r: Result<u32, String>)
    requires
        failures < u32::MAX,
    ensures
        match r {
            Ok(n) => adjustment_outcome_spec(failures, succeeded) == Ok::<u32, Seq<char>>(n),
            Err(m) => adjustment_outcome_spec(failures, succeeded) == Err::<u32, Seq<char>>(m@),
        },
{
    if succeeded {
        Ok(0)
    } else if failures + 1 >= MAX_ADJUSTMENT_FAILURES {
        Err(String::from_str("Too many consecutive failures (5) in adjustment loop"))
    } else {
        Ok(failures + 1)
    }
}

/// The failure count after `n` failed rounds in a row from a fresh start,
/// while the loop is still running.
pub open spec fn count_after_failures(n: nat) -> Result<u32, Seq<char>>
    decreases n,
{
    if n == 0 {
        Ok(0)
    } else {
        match count_after_failures((n - 1) as nat) {
            Ok(f) => adjustment_outcome_spec(f, false),
            Err(m) => Err(m),
        }
    }
}

/// Law: from a fresh start, the loop survives four failed rounds in a row
/// (counting them) and gives up on the fifth.
pub proof fn law_adjustment_gives_up_on_fifth_failure(n: nat)
    requires
        n <= MAX_ADJUSTMENT_FAILURES,
    ensures
        n < MAX_ADJUSTMENT_FAILURES ==> count_after_failures(n) == Ok::<u32, Seq<char>>(n as u32),
        n == MAX_ADJUSTMENT_FAILURES ==> count_after_failures(n) == Err::<u32, Seq<char>>(
            too_many_failures_message(),
        ),
    decreases n,
{
    if n > 0 {
        law_adjustment_gives_up_on_fifth_failure((n - 1) as nat);
    }
}

/// Law: a good round always clears the failure count.
pub proof fn law_adjustment_success_clears(failures: u32)
    ensures
        adjustment_outcome_spec(failures, true) == Ok::<u32, Seq<char>>(0),
{
}

} // verus!
