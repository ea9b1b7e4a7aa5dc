//! The detailed security-violation message: a banner with the verdict's
//! category and action and a bulleted list of the detections that fired.

use vstd::prelude::*;
use vstd::string::StringExecFns;
use crate::security::Assessment;
use crate::types::{PromptDetected, ResponseDetected};

verus! {

/// The reasons whose flag is raised, in order.
pub open spec fn reasons_rec(pairs: Seq<(bool, Seq<char>)>) -> Seq<Seq<char>>
    decreases pairs.len(),
{
    if pairs.len() == 0 {
        Seq::empty()
    } else {
        reasons_rec(pairs.drop_last()) + if pairs.last().0 {
            seq![pairs.last().1]
        } else {
            Seq::empty()
        }
    }
}

/// Every detection flag of a verdict with its human-readable reason, in the
/// fixed order of the message: the prompt-side flags, then the
/// response-side ones.
pub open spec fn flag_pairs(p: PromptDetected, d: ResponseDetected) -> Seq<(bool, Seq<char>)> {
    seq![
        (p.url_cats, "Prompt contains malicious URLs"@),
        (p.dlp, "Prompt contains sensitive information"@),
        (p.injection, "Prompt contains injection threats"@),
        (p.toxic_content, "Prompt contains harmful content"@),
        (p.malicious_code, "Prompt contains malicious code"@),
        (p.agent, "Prompt contains any Agent related threats"@),
        (p.topic_violation, "Prompt contains any content violates topic guardrails"@),
        (d.url_cats, "Response contains malicious URLs"@),
        (d.dlp, "Response contains sensitive information"@),
        (d.db_security, "Response contains database security threats"@),
        (d.toxic_content, "Response contains harmful content"@),
        (d.malicious_code, "Response contains malicious code"@),
        (d.agent, "Response contains any Agent related threats"@),
        (d.ungrounded, "Response contains any ungrounded content"@),
        (d.topic_violation, "Response contains any content violates topic guardrails"@),
    ]
}

/// All reasons that a verdict raises, the prompt-side flags first and the
/// response-side ones after them.
pub open spec fn all_reasons(p: PromptDetected, d: ResponseDetected) -> Seq<Seq<char>> {
    reasons_rec(flag_pairs(p, d))
}

/// The reasons joined with the list separator.
pub open spec fn join_reasons(rs: Seq<Seq<char>>) -> Seq<char>
    decreases rs.len(),
{
    if rs.len() == 0 {
        Seq::empty()
    } else if rs.len() == 1 {
        rs[0]
    } else {
        join_reasons(rs.drop_last()) + "\n - "@ + rs.last()
    }
}

/// The reasons block of the message: the joined reasons, or a fixed line
/// when no detection fired.
pub open spec fn reasons_text(p: PromptDetected, d: ResponseDetected) -> Seq<char> {
    if all_reasons(p, d).len() == 0 {
        "Unspecified security concern"@
    } else {
        join_reasons(all_reasons(p, d))
    }
}

/// The full violation message for a verdict.
pub open spec fn violation_message(
    category: Seq<char>,
    action: Seq<char>,
    p: PromptDetected,
    d: ResponseDetected,
) -> Seq<char> {
    "\n\n\u{26a0}\u{fe0f} This content was blocked due to security policy violations:\n\n\u{2022} Category: "@
        + category + "\n\u{2022} Action: "@ + action + "\n\u{2022} Reasons: \n- "@ + reasons_text(
        p,
        d,
    ) + "\n\nPlease reformulate your request to comply with security policies.\n\n"@
}

#[verifier::rlimit(100)]
fn flag_list(p: &PromptDetected, d: &ResponseDetected) -> (r: Vec<(bool, &'static str)>)
    ensures
        r@.len() == flag_pairs(*p, *d).len(),
        forall|k: int|
            0 <= k < r@.len() ==> #[trigger] r@[k].0 == flag_pairs(*p, *d)[k].0 && r@[k].1@
                == flag_pairs(*p, *d)[k].1,
{
    let mut v: Vec<(bool, &'static str)> = Vec::new();
    v.push((p.url_cats, "Prompt contains malicious URLs"));
    v.push((p.dlp, "Prompt contains sensitive information"));
    v.push((p.injection, "Prompt contains injection threats"));
    v.push((p.toxic_content, "Prompt contains harmful content"));
    v.push((p.malicious_code, "Prompt contains malicious code"));
    v.push((p.agent, "Prompt contains any Agent related threats"));
    v.push((p.topic_violation, "Prompt contains any content violates topic guardrails"));
    v.push((d.url_cats, "Response contains malicious URLs"));
    v.push((d.dlp, "Response contains sensitive information"));
    v.push((d.db_security, "Response contains database security threats"));
    v.push((d.toxic_content, "Response contains harmful content"));
    v.push((d.malicious_code, "Response contains malicious code"));
    v.push((d.agent, "Response contains any Agent related threats"));
    v.push((d.ungrounded, "Response contains any ungrounded content"));
    v.push((d.topic_violation, "Response contains any content violates topic guardrails"));
    v
}

fn reason_list(p: &PromptDetected, d: &ResponseDetected) -> (r: Vec<&'static str>)
    ensures
        r@.map_values(|s: &'static str| s@) == all_reasons(*p, *d),
{
    let pairs = flag_list(p, d);
    let ghost fp = flag_pairs(*p, *d);
    let mut v: Vec<&'static str> = Vec::new();
    let mut i: usize = 0;
    proof {
        assert(v@.map_values(|s: &'static str| s@) =~= reasons_rec(fp.take(0)));
    }
    while i < pairs.len()
        invariant
            i <= pairs@.len(),
            pairs@.len() == fp.len(),
            forall|k: int|
                0 <= k < pairs@.len() ==> #[trigger] pairs@[k].0 == fp[k].0 && pairs@[k].1@
                    == fp[k].1,
            v@.map_values(|s: &'static str| s@) == reasons_rec(fp.take(i as int)),
        decreases pairs@.len() - i,
    {
        let ghost before = v@.map_values(|s: &'static str| s@);
        proof {
            assert(fp.take(i as int + 1).drop_last() =~= fp.take(i as int));
            assert(fp.take(i as int + 1).last() == fp[i as int]);
        }
        if pairs[i].0 {
            v.push(pairs[i].1);
            proof {
                assert(v@.map_values(|s: &'static str| s@) =~= before + seq![fp[i as int].1]);
            }
        } else {
            proof {
                assert(v@.map_values(|s: &'static str| s@) =~= before
                    + Seq::<Seq<char>>::empty());
            }
        }
        i = i + 1;
    }
    proof {
        assert(fp.take(fp.len() as int) =~= fp);
    }
    v
}

fn joined_reasons(p: &PromptDetected, d: &ResponseDetected) -> (r: String)
    ensures
        r@ == reasons_text(*p, *d),
{
    let list = reason_list(p, d);
    let ghost rs = all_reasons(*p, *d);
    if list.len() == 0 {
        return "Unspecified security concern".to_owned();
    }
    let mut out = String::new();
    let mut i: usize = 0;
    while i < list.len()
        invariant
            0 <= i <= list@.len(),
            list@.map_values(|s: &'static str| s@) == rs,
            rs.len() == list@.len(),
            rs.len() > 0,
            i > 0 ==> out@ == join_reasons(rs.take(i as int)),
            i == 0 ==> out@ == Seq::<char>::empty(),
        decreases list@.len() - i,
    {
        proof {
            assert(rs.take(i as int + 1).drop_last() =~= rs.take(i as int));
            assert(rs.take(i as int + 1).last() == rs[i as int]);
            assert(rs[i as int] == list@[i as int]@);
        }
        if i > 0 {
            out.append("\n - ");
        }
        out.append(list[i]);
        proof {
            if i == 0 {
                assert(out@ =~= join_reasons(rs.take(1)));
            } else {
                assert(out@ =~= join_reasons(rs.take(i as int + 1)));
            }
        }
        i = i + 1;
    }
    proof {
        assert(rs.take(rs.len() as int) =~= rs);
    }
    out
}

/// Formats the detailed violation message for a verdict, made of the
/// banner, the verdict's category and action, and each detection that
/// fired as a bulleted reason.
pub fn format_security_violation_message(assessment: &Assessment) -> (r: String)
    ensures
        r@ == violation_message(
            assessment.category@,
            assessment.action@,
            assessment.details.prompt_detected,
            assessment.details.response_detected,
        ),
{
    let mut out = String::new();
    out.append(
        "\n\n\u{26a0}\u{fe0f} This content was blocked due to security policy violations:\n\n\u{2022} Category: ",
    );
    out.append(assessment.category.as_str());
    out.append("\n\u{2022} Action: ");
    out.append(assessment.action.as_str());
    out.append("\n\u{2022} Reasons: \n- ");
    let reasons = joined_reasons(
        &assessment.details.prompt_detected,
        &assessment.details.response_detected,
    );
    out.append(reasons.as_str());
    out.append("\n\nPlease reformulate your request to comply with security policies.\n\n");
    proof {
        assert(out@ =~= violation_message(
            assessment.category@,
            assessment.action@,
            assessment.details.prompt_detected,
            assessment.details.response_detected,
        ));
    }
    out
}

} // verus!
