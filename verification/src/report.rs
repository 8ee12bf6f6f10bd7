//! The report format: one line per valid finding,
//! `<script-description>:<user>:<password>`.

use vstd::prelude::*;

use crate::scheduler::Attempt;

verus! {

/// The report line recorded for a valid finding: script description, user
/// and password, colon-separated.
pub fn format_report_line(attempt: &Attempt) -> (r: String)
    ensures
        r@ == attempt.script.descr@ + seq![':'] + attempt.user@ + seq![':'] + attempt.password@,
{
    proof {
        reveal_strlit(":");
    }
    let mut out = attempt.script.descr.clone();
    out.append(":");
    out.append(attempt.user.as_str());
    out.append(":");
    out.append(attempt.password.as_str());
    proof {
        assert(out@ =~= attempt.script.descr@ + seq![':'] + attempt.user@ + seq![':']
            + attempt.password@);
    }
    out
}

} // verus!
