//! Request, response and check types shared by every module.

use vstd::prelude::*;

verus! {

/// One post to analyze. Absent fields are empty strings.
pub struct AnalyzeRequest {
    pub title: String,
    pub content: String,
    pub slug: String,
    pub focus_keyword: String,
    pub meta_description: String,
}

/// The outcome of an analysis: the score out of 100, its grade, every check,
/// and the keyword-matching engine that was used.
pub struct AnalyzeResponse {
    pub score: u32,
    pub grade: &'static str,
    pub checks: Vec<Check>,
    pub engine: &'static str,
}

/// One SEO check.
#[derive(Debug)]
pub struct Check {
    pub id: &'static str,
    pub label: &'static str,
    pub status: Status,
    pub message: String,
    pub weight: u32,
}

/// A check's verdict. `Na` checks do not count towards the score.
#[derive(Debug, Clone, Copy, PartialEq, Eq, Structural)]
pub enum Status {
    Pass,
    Warning,
    Fail,
    Na,
}

/// A check as a mathematical value.
pub struct CheckView {
    pub id: Seq<char>,
    pub label: Seq<char>,
    pub status: Status,
    pub message: Seq<char>,
    pub weight: u32,
}

impl View for Check {
    type V = CheckView;

    open spec fn view(&self) -> CheckView {
        CheckView {
            id: self.id@,
            label: self.label@,
            status: self.status,
            message: self.message@,
            weight: self.weight,
        }
    }
}

/// The check with the given fields.
pub open spec fn check_view(
    id: Seq<char>,
    label: Seq<char>,
    status: Status,
    message: Seq<char>,
    weight: u32,
) -> CheckView {
    CheckView { id, label, status, message, weight }
}

/// The views of a list of checks.
pub open spec fn views(checks: Seq<Check>) -> Seq<CheckView> {
    checks.map_values(|c: Check| c@)
}

/// Builds a check.
pub fn mk(
    id: &'static str,
    label: &'static str,
    status: Status,
    message: String,
    weight: u32,
) -> (c: Check)
    ensures
        c@ == check_view(id@, label@, status, message@, weight),
{
    Check { id, label, status, message, weight }
}

} // verus!
