//! The short security-violation message and the audit line for a failed
//! assessment.

use vstd::prelude::*;
use vstd::string::StringExecFns;

verus! {

/// The short violation message: the banner with category and action only.
pub open spec fn short_violation_message(category: Seq<char>, action: Seq<char>) -> Seq<char> {
    "\u{26a0}\u{fe0f} This response was blocked due to security policy violations:\n\n\u{2022} Category: "@
        + category + "\n\u{2022} Action: "@ + action
        + "\n\nPlease reformulate your request to comply with security policies."@
}

/// The audit line recorded when an assessment fails.
pub open spec fn security_failure_line(
    context: Seq<char>,
    category: Seq<char>,
    action: Seq<char>,
) -> Seq<char> {
    "Security issue detected in "@ + context + ": category="@ + category + ", action="@ + action
}

/// Formats the short violation message from a verdict's category and action.
pub fn format_security_violation_message(category: &str, action: &str) -> (r: String)
    ensures
        r@ == short_violation_message(category@, action@),
{
    let mut out = String::new();
    out.append(
        "\u{26a0}\u{fe0f} This response was blocked due to security policy violations:\n\n\u{2022} Category: ",
    );
    out.append(category);
    out.append("\n\u{2022} Action: ");
    out.append(action);
    out.append("\n\nPlease reformulate your request to comply with security policies.");
    proof {
        assert(out@ =~= short_violation_message(category@, action@));
    }
    out
}

/// Composes the audit line for a failed assessment; the surrounding program
/// writes it to its log.
pub fn log_security_failure(context: &str, category: &str, action: &str) -> (r: String)
    ensures
        r@ == security_failure_line(context@, category@, action@),
{
    let mut out = String::new();
    out.append("Security issue detected in ");
    out.append(context);
    out.append(": category=");
    out.append(category);
    out.append(", action=");
    out.append(action);
    proof {
        assert(out@ =~= security_failure_line(context@, category@, action@));
    }
    out
}

} // verus!
