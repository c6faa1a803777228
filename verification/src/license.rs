//! SPDX license expression validation, over the `spdx` crate.
//!
//! Which strings are valid SPDX expressions cannot be restated here, so
//! validity is given a name: `spdx_expr_valid(s)` stands for whether the
//! `spdx` crate's strict parser accepts `s`. Every contract about license
//! validation speaks of that name.

use vstd::prelude::*;
use vstd::string::StringExecFns;

verus! {

/// Whether the `spdx` crate's strict parser (`spdx::Expression::parse`)
/// accepts `s` as an SPDX license expression. A function of the text
/// alone.
pub uninterp spec fn spdx_expr_valid(s: Seq<char>) -> bool;

#[verifier::external_type_specification]
#[verifier::external_body]
pub struct ExSpdxExpression(spdx::Expression);

/// Relies on `spdx::Expression::parse`: strict parsing of an SPDX
/// expression, failing exactly on the texts the crate rejects.
#[verifier::external_body]
fn parse_spdx(expr: &str) -> (r: Option<spdx::Expression>)
    ensures
        r is Some <==> spdx_expr_valid(expr@),
{
    spdx::Expression::parse(expr).ok()
}

/// One license requirement that failed an evaluation: its textual form
/// and where it stands in the evaluated expression.
pub struct FailedRequirement {
    /// The requirement, as the `spdx` crate prints it.
    pub req: String,
    /// Start of the requirement within the expression.
    pub start: u64,
    /// End of the requirement within the expression.
    pub end: u64,
}

/// The failed requirements of evaluating one SPDX expression.
pub struct EvaluationError {
    /// The expression the requirements were evaluated against.
    pub expression: String,
    /// The requirements that were not met.
    pub failed: Vec<FailedRequirement>,
}

/// Why a license expression is not acceptable.
pub enum Error {
    /// There is no license specified.
    NoLicense,
    /// The expression is not in a valid SPDX format.
    ParsingFailed,
    /// The expression is valid, but the licensing scheme is not
    /// approved.
    NotApproved(EvaluationError),
}

/// Relies on `spdx::Expression::evaluate_with_failures`, with
/// `spdx::LicenseId::is_osi_approved` as the acceptance test: succeeds
/// when the expression is satisfied by OSI-approved licenses, and
/// otherwise reports the requirements that failed. The error carries the
/// expression it was evaluated against.
#[verifier::external_body]
pub fn check_osi_approval(expr: &str, spdx_expr: &spdx::Expression) -> (r: Result<
    (),
    EvaluationError,
>)
    ensures
        r matches Err(e) ==> e.expression@ == expr@,
{
    spdx_expr.evaluate_with_failures(|req| {
        if let spdx::LicenseItem::Spdx { id, .. } = req.license { id.is_osi_approved() } else { false }
    }).map_err(|failures| EvaluationError {
        expression: expr.to_owned(),
        failed: failures.iter().map(|f| FailedRequirement {
            req: f.req.to_string(),
            start: f.span.start as u64,
            end: f.span.end as u64,
        }).collect(),
    })
}

/// Validates a license expression: empty expressions are missing
/// licenses, non-SPDX expressions fail to parse, and, when OSI approval
/// is required, valid expressions may still be rejected by the approval
/// evaluation.
pub fn validate_spdx_expr(expr: &str, require_osi_approval: bool) -> (r: Result<(), Error>)
    ensures
        r matches Err(Error::NoLicense) <==> expr@.len() == 0,
        r matches Err(Error::ParsingFailed) <==> expr@.len() > 0 && !spdx_expr_valid(expr@),
        r is Ok ==> expr@.len() > 0 && spdx_expr_valid(expr@),
        !require_osi_approval ==> (r is Ok <==> expr@.len() > 0 && spdx_expr_valid(expr@)),
        r matches Err(Error::NotApproved(_)) ==> require_osi_approval && expr@.len() > 0
            && spdx_expr_valid(expr@),
{
    if expr.unicode_len() == 0 {
        return Result::Err(Error::NoLicense);
    }
    let parsed = match parse_spdx(expr) {
        Option::Some(p) => p,
        Option::None => {
            return Result::Err(Error::ParsingFailed);
        },
    };
    if require_osi_approval {
        return match check_osi_approval(expr, &parsed) {
            Result::Ok(()) => Result::Ok(()),
            Result::Err(e) => Result::Err(Error::NotApproved(e)),
        };
    }
    Result::Ok(())
}

/// What bringing a license identifier into SPDX form yields: a valid
/// non-empty SPDX expression passes through unchanged, anything else is
/// turned into a `LicenseRef-` identifier.
pub open spec fn spec_ensure_spdx(s: Seq<char>) -> Seq<char> {
    if s.len() > 0 && spdx_expr_valid(s) {
        s
    } else {
        "LicenseRef-"@ + s
    }
}

/// Brings a license identifier into SPDX form: a valid non-empty SPDX
/// expression passes through unchanged, anything else is turned into a
/// `LicenseRef-` identifier.
pub fn ensure_spdx_license_id(license_id: &str) -> (r: String)
    ensures
        r@ == spec_ensure_spdx(license_id@),
{
    match validate_spdx_expr(license_id, false) {
        Result::Ok(()) => String::from_str(license_id),
        Result::Err(_) => {
            let mut out = String::from_str("LicenseRef-");
            out.append(license_id);
            out
        },
    }
}

} // verus!
