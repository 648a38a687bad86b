//! The analyzer: a bounded history of normalized flows and the rules that
//! every new flow is held against.

use vstd::prelude::*;
use std::collections::VecDeque;
use crate::alert::{alert_views, Alert, AlertView, Severity};
use crate::dsl::Rule;
use crate::flow::{copy_opt_text, opt_text, process_name, process_name_of, FlowDirection, FlowEvent};
use crate::normalizer::{NormalizedFlow, NormalizedFlowView};
use crate::text::{decimal, push_decimal, push_text, str_eq};
use crate::time::{wall_clock, Duration, Timestamp};

verus! {

/// The text `ip:port`.
pub open spec fn endpoint_text(ip: Seq<char>, port: u16) -> Seq<char> {
    ip + ":"@ + decimal(port as nat)
}

/// The reference to a flow inside an alert: `src_ip:src_port->dst_ip:dst_port`.
pub open spec fn flow_ref_text(flow: NormalizedFlowView) -> Seq<char> {
    endpoint_text(flow.src_ip, flow.src_port) + "->"@ + endpoint_text(flow.dst_ip, flow.dst_port)
}

/// The text that an optional text stands for, with a default.
pub open spec fn text_or(o: Option<Seq<char>>, default: Seq<char>) -> Seq<char> {
    match o {
        Some(t) => t,
        None => default,
    }
}

/// The alert that a matching rule raises on a flow at time `now`.
pub open spec fn rule_alert(rule: Rule, flow: NormalizedFlowView, now: Timestamp) -> AlertView {
    AlertView {
        id: "alert-"@ + rule.id@ + "-"@ + decimal(flow.dst_port as nat),
        ts: now,
        severity: rule.severity,
        rule_id: rule.id@,
        summary: text_or(opt_text(rule.summary), "Rule match"@),
        flow_refs: seq![flow_ref_text(flow)],
        process_ref: flow.process,
        rationale: text_or(opt_text(rule.rationale), "Matched DSL condition"@),
        suggested_action: opt_text(rule.suggested_action),
    }
}

/// The id of an alert depends on the id of its rule and on the destination
/// port of its flow alone: the same rule on the same port raises the same id,
/// whenever and on whatever else it matches.
pub proof fn lemma_alert_id_is_stable(
    rule: Rule,
    again: Rule,
    flow: NormalizedFlowView,
    later_flow: NormalizedFlowView,
    now: Timestamp,
    later: Timestamp,
)
    requires
        rule.id@ == again.id@,
        flow.dst_port == later_flow.dst_port,
    ensures
        rule_alert(rule, flow, now).id == rule_alert(again, later_flow, later).id,
{
}

/// The alerts that a list of rules raises on a flow: one for each rule that
/// matches, in the order of the rules.
pub open spec fn alerts_for(rules: Seq<Rule>, flow: NormalizedFlowView, now: Timestamp) -> Seq<
    AlertView,
>
    decreases rules.len(),
{
    if rules.len() == 0 {
        Seq::empty()
    } else {
        let earlier = alerts_for(rules.drop_last(), flow, now);
        if rules.last().holds_of(flow) {
            earlier.push(rule_alert(rules.last(), flow, now))
        } else {
            earlier
        }
    }
}

/// The history after one more flow: the flow is appended, and where the
/// history was full its oldest entry leaves first.
pub open spec fn history_after<T>(history: Seq<T>, flow: T, max: nat) -> Seq<T> {
    if history.len() >= max {
        history.drop_first().push(flow)
    } else {
        history.push(flow)
    }
}

/// The history after a run of flows, taken in one by one.
pub open spec fn history_after_all<T>(history: Seq<T>, flows: Seq<T>, max: nat) -> Seq<T>
    decreases flows.len(),
{
    if flows.len() == 0 {
        history
    } else {
        history_after(history_after_all(history, flows.drop_last(), max), flows.last(), max)
    }
}

/// A history that was within its bound stays within it, and once enough flows
/// have come in it is full and holds exactly the latest ones, in the order in
/// which they came.
pub proof fn lemma_history_keeps_latest<T>(history: Seq<T>, flows: Seq<T>, max: nat)
    requires
        max >= 1,
        history.len() <= max,
    ensures
        history_after_all(history, flows, max).len() <= max,
        history.len() + flows.len() >= max ==> history_after_all(history, flows, max) == (history
            + flows).skip(history.len() + flows.len() - max),
        history.len() + flows.len() < max ==> history_after_all(history, flows, max) == history
            + flows,
        flows.len() > max ==> history_after_all(history, flows, max) == flows.skip(
            flows.len() - max,
        ),
    decreases flows.len(),
{
    if flows.len() == 0 {
        assert(history + flows == history);
        assert(history.skip(0) == history);
    } else {
        let before = flows.drop_last();
        let h = history_after_all(history, before, max);
        lemma_history_keeps_latest(history, before, max);
        let all = history + flows;
        assert(all == (history + before).push(flows.last()));
        let n = history.len() + before.len();
        if n < max {
            assert(h == history + before);
            if n + 1 >= max {
                assert(all.skip(n + 1 - max) == all);
            }
        } else {
            assert(h == (history + before).skip(n - max));
            assert(h.len() == max);
            assert(h.drop_first().push(flows.last()) == all.skip(n + 1 - max));
        }
        if flows.len() > max {
            assert(all.skip(history.len() + flows.len() - max) == flows.skip(flows.len() - max));
        }
    }
}

/// The number of flows that a baseline window keeps: sixty for each whole
/// minute of the window, and for at least one minute.
pub open spec fn capacity_for(window: Duration) -> int {
    (if window.whole_minutes() > 1 {
        window.whole_minutes()
    } else {
        1
    }) * 60
}

/// Holds the rules and the latest flows.
pub struct Analyzer {
    baseline_window: Duration,
    history: VecDeque<NormalizedFlow>,
    max_history: usize,
    rules: Vec<Rule>,
}

impl Analyzer {
    /// The flows kept, oldest first.
    pub closed spec fn history(&self) -> Seq<NormalizedFlow> {
        self.history@
    }

    /// The largest number of flows kept.
    pub closed spec fn max_history(&self) -> nat {
        self.max_history as nat
    }

    /// The rules, in the order in which they are tried.
    pub closed spec fn rules(&self) -> Seq<Rule> {
        self.rules@
    }

    /// The window that the analyzer was made for.
    pub closed spec fn window(&self) -> Duration {
        self.baseline_window
    }

    /// The history is within its bound, and the bound is at least one.
    pub open spec fn wf(&self) -> bool {
        self.max_history() >= 1 && self.history().len() <= self.max_history()
    }

    /// An analyzer with an empty history.
    pub fn new(baseline_window: Duration, rules: Vec<Rule>) -> (r: Self)
        requires
            capacity_for(baseline_window) <= usize::MAX,
        ensures
            r.wf(),
            r.max_history() == capacity_for(baseline_window),
            r.history() == Seq::<NormalizedFlow>::empty(),
            r.rules() == rules@,
            r.window() == baseline_window,
    {
        let minutes = baseline_window.num_minutes();
        let whole: i64 = if minutes > 1 {
            minutes
        } else {
            1
        };
        let max_history: usize = (whole as usize) * 60;
        Analyzer { baseline_window, history: VecDeque::new(), max_history, rules }
    }

    /// The window that the analyzer was made for.
    pub fn baseline_window(&self) -> (w: Duration)
        ensures
            w == self.window(),
    {
        self.baseline_window
    }

    /// The number of flows kept.
    pub fn history_len(&self) -> (n: usize)
        ensures
            n == self.history().len(),
    {
        self.history.len()
    }

    /// The flow at place `i` of the history, the oldest being at place 0.
    pub fn history_entry(&self, i: usize) -> (f: &NormalizedFlow)
        requires
            i < self.history().len(),
        ensures
            *f == self.history()[i as int],
    {
        &self.history[i]
    }

    /// Takes a flow into the history and returns the alerts that the rules
    /// raise on it, stamped with the wall clock's time.
    pub fn ingest(&mut self, flow: NormalizedFlow) -> (r: Vec<Alert>)
        requires
            old(self).wf(),
        ensures
            final(self).wf(),
            final(self).max_history() == old(self).max_history(),
            final(self).rules() == old(self).rules(),
            final(self).window() == old(self).window(),
            final(self).history() == history_after(old(self).history(), flow, old(self).max_history()),
            exists|now: Timestamp|
                now.wf() && alert_views(r@) == alerts_for(old(self).rules(), flow@, now),
    {
        let now = wall_clock();
        let alerts = self.ingest_at(flow, now);
        assert(now.wf() && alert_views(alerts@) == alerts_for(old(self).rules(), flow@, now));
        alerts
    }

    /// Takes a flow into the history and returns the alerts that the rules
    /// raise on it, stamped with `now`.
    pub fn ingest_at(&mut self, flow: NormalizedFlow, now: Timestamp) -> (r: Vec<Alert>)
        requires
            old(self).wf(),
        ensures
            final(self).wf(),
            final(self).max_history() == old(self).max_history(),
            final(self).rules() == old(self).rules(),
            final(self).window() == old(self).window(),
            final(self).history() == history_after(old(self).history(), flow, old(self).max_history()),
            alert_views(r@) == alerts_for(old(self).rules(), flow@, now),
    {
        let alerts = self.evaluate_rules(&flow, now);
        if self.history.len() >= self.max_history {
            let _ = self.history.pop_front();
        }
        self.history.push_back(flow);
        alerts
    }

    /// The alerts that the rules raise on a flow.
    pub fn evaluate_rules(&self, flow: &NormalizedFlow, now: Timestamp) -> (r: Vec<Alert>)
        ensures
            alert_views(r@) == alerts_for(self.rules(), flow@, now),
    {
        let mut alerts: Vec<Alert> = Vec::new();
        let mut i: usize = 0;
        assert(alert_views(alerts@) =~= Seq::<AlertView>::empty());
        while i < self.rules.len()
            invariant
                i <= self.rules.len(),
                alert_views(alerts@) == alerts_for(self.rules@.take(i as int), flow@, now),
            decreases self.rules.len() - i,
        {
            let rule = &self.rules[i];
            assert(self.rules@.take(i + 1).drop_last() == self.rules@.take(i as int));
            assert(self.rules@.take(i + 1).last() == *rule);
            if rule.matches(flow) {
                let ghost before = alert_views(alerts@);
                let alert = alert_for_rule(rule, flow, now);
                alerts.push(alert);
                assert(alert_views(alerts@) =~= before.push(alert@));
            }
            i = i + 1;
        }
        assert(self.rules@.take(self.rules.len() as int) == self.rules@);
        alerts
    }
}

/// Appends `ip:port` to `out`.
pub fn push_endpoint(out: &mut String, ip: &str, port: u16)
    ensures
        final(out)@ == old(out)@ + endpoint_text(ip@, port),
{
    push_text(out, ip);
    push_text(out, ":");
    push_decimal(out, port as u64);
    assert(out@ == old(out)@ + endpoint_text(ip@, port));
}

/// A copy of an optional text, or of a default where there is none.
pub fn text_or_default(o: &Option<String>, default: &str) -> (r: String)
    ensures
        r@ == text_or(opt_text(*o), default@),
{
    match o {
        Some(s) => s.clone(),
        None => default.to_owned(),
    }
}

/// The alert that `rule` raises on `flow` at time `now`.
pub fn alert_for_rule(rule: &Rule, flow: &NormalizedFlow, now: Timestamp) -> (r: Alert)
    ensures
        r@ == rule_alert(*rule, flow@, now),
{
    let mut id = String::new();
    push_text(&mut id, "alert-");
    push_text(&mut id, rule.id.as_str());
    push_text(&mut id, "-");
    push_decimal(&mut id, flow.dst_port as u64);
    assert(id@ == "alert-"@ + rule.id@ + "-"@ + decimal(flow.dst_port as nat));
    let mut flow_ref = String::new();
    push_endpoint(&mut flow_ref, flow.src_ip.as_str(), flow.src_port);
    push_text(&mut flow_ref, "->");
    push_endpoint(&mut flow_ref, flow.dst_ip.as_str(), flow.dst_port);
    assert(flow_ref@ == flow_ref_text(flow@));
    let mut flow_refs: Vec<String> = Vec::new();
    flow_refs.push(flow_ref);
    assert(crate::alert::string_texts(flow_refs@) =~= seq![flow_ref_text(flow@)]);
    Alert {
        id,
        ts: now,
        severity: rule.severity,
        rule_id: rule.id.clone(),
        summary: text_or_default(&rule.summary, "Rule match"),
        flow_refs,
        process_ref: copy_opt_text(&flow.process),
        rationale: text_or_default(&rule.rationale, "Matched DSL condition"),
        suggested_action: copy_opt_text(&rule.suggested_action),
    }
}

/// Whether a flow is a listener: inbound, and in the `LISTEN` state.
pub open spec fn is_listener(flow: FlowEvent) -> bool {
    flow.direction == FlowDirection::Inbound && opt_text(flow.state) == Some("LISTEN"@)
}

/// The alert of the built-in listener rule on a flow at time `now`.
pub open spec fn listener_alert(flow: FlowEvent, now: Timestamp) -> AlertView {
    AlertView {
        id: "listener-"@ + flow.src_ip@ + "-"@ + decimal(flow.src_port as nat),
        ts: now,
        severity: Severity::Medium,
        rule_id: "builtin.listener"@,
        summary: "New listener on "@ + endpoint_text(flow.src_ip@, flow.src_port),
        flow_refs: seq![endpoint_text(flow.src_ip@, flow.src_port)],
        process_ref: process_name(flow.process),
        rationale: "Listener state observed from collector"@,
        suggested_action: Some("Validate service legitimacy or quarantine process"@),
    }
}

/// Executable [`is_listener`].
pub fn listens(flow: &FlowEvent) -> (r: bool)
    ensures
        r == is_listener(*flow),
{
    flow.direction == FlowDirection::Inbound && match &flow.state {
        Some(s) => str_eq(s.as_str(), "LISTEN"),
        None => false,
    }
}

/// The built-in listener rule, stamped with the wall clock's time: an alert
/// for a listener, nothing for any other flow.
pub fn detect_listener(flow: &FlowEvent) -> (r: Option<Alert>)
    ensures
        r is Some == is_listener(*flow),
        r matches Some(a) ==> exists|now: Timestamp| now.wf() && a@ == listener_alert(*flow, now),
{
    let now = wall_clock();
    let r = detect_listener_at(flow, now);
    assert(r matches Some(a) ==> now.wf() && a@ == listener_alert(*flow, now));
    r
}

/// The built-in listener rule, stamped with `now`.
pub fn detect_listener_at(flow: &FlowEvent, now: Timestamp) -> (r: Option<Alert>)
    ensures
        r is Some == is_listener(*flow),
        r matches Some(a) ==> a@ == listener_alert(*flow, now),
{
    if !listens(flow) {
        return None;
    }
    let mut id = String::new();
    push_text(&mut id, "listener-");
    push_text(&mut id, flow.src_ip.as_str());
    push_text(&mut id, "-");
    push_decimal(&mut id, flow.src_port as u64);
    assert(id@ == "listener-"@ + flow.src_ip@ + "-"@ + decimal(flow.src_port as nat));
    let mut summary = String::new();
    push_text(&mut summary, "New listener on ");
    push_endpoint(&mut summary, flow.src_ip.as_str(), flow.src_port);
    let mut flow_ref = String::new();
    push_endpoint(&mut flow_ref, flow.src_ip.as_str(), flow.src_port);
    assert(flow_ref@ == endpoint_text(flow.src_ip@, flow.src_port));
    let mut flow_refs: Vec<String> = Vec::new();
    flow_refs.push(flow_ref);
    assert(crate::alert::string_texts(flow_refs@) =~= seq![
        endpoint_text(flow.src_ip@, flow.src_port),
    ]);
    Some(
        Alert {
            id,
            ts: now,
            severity: Severity::Medium,
            rule_id: "builtin.listener".to_owned(),
            summary,
            flow_refs,
            process_ref: process_name_of(&flow.process),
            rationale: "Listener state observed from collector".to_owned(),
            suggested_action: Some("Validate service legitimacy or quarantine process".to_owned()),
        },
    )
}

} // verus!
