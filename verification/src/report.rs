//! The diagnostic report that every decode produces and every output
//! format renders.

use vstd::prelude::*;

verus! {

/// How serious a diagnosed problem is.
#[derive(Debug, Clone, Copy, PartialEq, Eq, Structural)]
pub enum Severity {
    Error,
    Warning,
    Info,
}

/// A fix that the report suggests.
#[derive(Debug, Clone)]
pub struct SuggestedFix {
    pub description: String,
    /// `easy`, `medium` or `hard` (in any letter case), or free text.
    pub difficulty: String,
    pub requires_upgrade: bool,
    pub example: Option<String>,
}

/// A suggested fix as mathematical values.
#[verifier::ext_equal]
pub struct SuggestedFixView {
    pub description: Seq<char>,
    pub difficulty: Seq<char>,
    pub requires_upgrade: bool,
    pub example: Option<Seq<char>>,
}

impl View for SuggestedFix {
    type V = SuggestedFixView;

    open spec fn view(&self) -> SuggestedFixView {
        SuggestedFixView {
            description: self.description@,
            difficulty: self.difficulty@,
            requires_upgrade: self.requires_upgrade,
            example: match &self.example {
                Some(e) => Some(e@),
                None => None,
            },
        }
    }
}

/// The structured diagnosis of a failed transaction (or of raw input).
#[derive(Debug, Clone)]
pub struct DiagnosticReport {
    pub error_category: String,
    pub error_code: u32,
    pub error_name: String,
    pub summary: String,
    pub detailed_explanation: String,
    pub severity: Severity,
    pub root_causes: Vec<String>,
    pub suggested_fixes: Vec<SuggestedFix>,
    pub related_errors: Vec<String>,
}

/// The suggested fixes of a report, as mathematical values.
pub open spec fn fixes_view(fixes: Seq<SuggestedFix>) -> Seq<SuggestedFixView> {
    fixes.map_values(|f: SuggestedFix| f@)
}

} // verus!
