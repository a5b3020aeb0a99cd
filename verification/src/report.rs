//! Collecting failures before reporting them, so that one report names
//! every failing combination instead of stopping at the first.

use vstd::prelude::*;
use crate::decimal::{decimal, decimal_string};
use crate::reference_page::strings_view;

verus! {

/// `lines` joined with `'\n'` between consecutive entries.
pub open spec fn join_lines(lines: Seq<Seq<char>>) -> Seq<char>
    decreases lines.len(),
{
    if lines.len() == 0 {
        Seq::empty()
    } else if lines.len() == 1 {
        lines[0]
    } else {
        join_lines(lines.drop_last()) + "\n"@ + lines.last()
    }
}

/// The report for a non-empty list of failures: their count, then each
/// failure on a line of its own.
pub open spec fn failure_report(failures: Seq<Seq<char>>) -> Seq<char> {
    decimal(failures.len()) + " failing combination(s):\n"@ + join_lines(failures)
}

/// Checks that no failure was collected. `Ok` when `failures` is empty;
/// otherwise the report that states how many combinations failed and
/// lists every one of them.
pub fn assert_no_failures(failures: Vec<String>) -> (outcome: Result<(), String>)
    ensures
        failures@.len() == 0 <==> outcome is Ok,
        outcome matches Err(report) ==> report@ == failure_report(strings_view(failures@)),
{
    if failures.len() == 0 {
        return Ok(());
    }
    let ghost lines = strings_view(failures@);
    let mut report = decimal_string(failures.len() as u64);
    report.append(" failing combination(s):\n");
    let ghost head = report@;
    let mut i: usize = 0;
    while i < failures.len()
        invariant
            0 <= i <= failures@.len(),
            lines == strings_view(failures@),
            report@ == head + join_lines(lines.take(i as int)),
        decreases failures@.len() - i,
    {
        proof {
            reveal_strlit("\n");
            assert(lines.take(i + 1).drop_last() =~= lines.take(i as int));
        }
        if i > 0 {
            report.append("\n");
        }
        report.append(failures[i].as_str());
        proof {
            assert(head + join_lines(lines.take(i + 1)) =~= report@);
        }
        i = i + 1;
    }
    assert(lines.take(failures@.len() as int) =~= lines);
    Err(report)
}

} // verus!
