//! Alerts: what a rule or a built-in check reports about a flow.

use vstd::prelude::*;
use crate::flow::{copy_opt_text, opt_text};
use crate::time::Timestamp;

verus! {

/// How serious a finding is.
#[derive(Debug, Clone, Copy, PartialEq, Eq, Structural)]
pub enum Severity {
    Low,
    Medium,
    High,
}

impl Severity {
    /// The name of the level, as it is written in the alert table.
    pub open spec fn name(self) -> Seq<char> {
        match self {
            Severity::Low => "Low"@,
            Severity::Medium => "Medium"@,
            Severity::High => "High"@,
        }
    }

    /// The name of the level, as it is written in the alert table.
    pub fn as_str(&self) -> (r: &'static str)
        ensures
            r@ == self.name(),
    {
        match self {
            Severity::Low => "Low",
            Severity::Medium => "Medium",
            Severity::High => "High",
        }
    }
}

/// The texts held by a sequence of strings.
pub open spec fn string_texts(v: Seq<String>) -> Seq<Seq<char>> {
    v.map_values(|s: String| s@)
}

/// A finding about one or more flows.
#[derive(Debug)]
pub struct Alert {
    pub id: String,
    pub ts: Timestamp,
    pub severity: Severity,
    pub rule_id: String,
    pub summary: String,
    pub flow_refs: Vec<String>,
    pub process_ref: Option<String>,
    pub rationale: String,
    pub suggested_action: Option<String>,
}

/// An [`Alert`] with its strings as texts.
pub struct AlertView {
    pub id: Seq<char>,
    pub ts: Timestamp,
    pub severity: Severity,
    pub rule_id: Seq<char>,
    pub summary: Seq<char>,
    pub flow_refs: Seq<Seq<char>>,
    pub process_ref: Option<Seq<char>>,
    pub rationale: Seq<char>,
    pub suggested_action: Option<Seq<char>>,
}

impl View for Alert {
    type V = AlertView;

    open spec fn view(&self) -> AlertView {
        AlertView {
            id: self.id@,
            ts: self.ts,
            severity: self.severity,
            rule_id: self.rule_id@,
            summary: self.summary@,
            flow_refs: string_texts(self.flow_refs@),
            process_ref: opt_text(self.process_ref),
            rationale: self.rationale@,
            suggested_action: opt_text(self.suggested_action),
        }
    }
}

impl Clone for Alert {
    fn clone(&self) -> (r: Self)
        ensures
            r@ == self@,
    {
        let mut refs: Vec<String> = Vec::new();
        let mut i: usize = 0;
        while i < self.flow_refs.len()
            invariant
                i <= self.flow_refs.len(),
                refs@.len() == i,
                forall|k: int| 0 <= k < i ==> (#[trigger] refs@[k])@ == self.flow_refs@[k]@,
            decreases self.flow_refs.len() - i,
        {
            refs.push(self.flow_refs[i].clone());
            i = i + 1;
        }
        assert(string_texts(refs@) =~= string_texts(self.flow_refs@));
        Alert {
            id: self.id.clone(),
            ts: self.ts,
            severity: self.severity,
            rule_id: self.rule_id.clone(),
            summary: self.summary.clone(),
            flow_refs: refs,
            process_ref: copy_opt_text(&self.process_ref),
            rationale: self.rationale.clone(),
            suggested_action: copy_opt_text(&self.suggested_action),
        }
    }
}

/// The views of a sequence of alerts.
pub open spec fn alert_views(v: Seq<Alert>) -> Seq<AlertView> {
    v.map_values(|a: Alert| a@)
}

} // verus!
