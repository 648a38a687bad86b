//! The rule language: a condition on one field of a flow, written as three
//! words, `field operator value`, or as `regex(pattern)` on the addresses.

use vstd::prelude::*;
use crate::alert::Severity;
use crate::normalizer::{NormalizedFlow, NormalizedFlowView};
use crate::text::{
    chars_of, decimal, occurs, occurs_at, push_decimal, push_text, same_chars, slice_of, spells, split,
    split_on, split_whitespace, string_of, texts, trim, trim_end, trim_start, trimmed, trimmed_end,
    trimmed_start, words, CharSet,
};

verus! {

/// A compiled pattern of the `regex` crate.
#[verifier::external_type_specification]
#[verifier::external_body]
pub struct ExRegex(regex::Regex);

/// The error of the `regex` crate for a pattern that it does not compile.
#[verifier::external_type_specification]
#[verifier::external_body]
pub struct ExRegexError(regex::Error);

/// Whether the `regex` crate compiles a pattern.
pub uninterp spec fn pattern_compiles(pattern: Seq<char>) -> bool;

/// The pattern text that a compiled pattern was made from.
pub uninterp spec fn pattern_source(re: regex::Regex) -> Seq<char>;

/// Whether the compiled form of a pattern finds a match anywhere in a text.
pub uninterp spec fn pattern_matches(pattern: Seq<char>, text: Seq<char>) -> bool;

/// `regex::Regex::new`: compiles a pattern, or refuses it. Which patterns
/// compile is the crate's affair; a compiled pattern remembers its text.
#[verifier::external_body]
fn compile_pattern(pattern: &str) -> (r: Result<regex::Regex, regex::Error>)
    ensures
        r is Ok == pattern_compiles(pattern@),
        r matches Ok(re) ==> pattern_source(re) == pattern@,
{
    regex::Regex::new(pattern)
}

/// `regex::Regex::is_match`: whether the pattern matches anywhere in `text`.
/// The answer depends on the pattern's text and on `text` alone.
#[verifier::external_body]
fn pattern_is_match(re: &regex::Regex, text: &str) -> (r: bool)
    ensures
        r == pattern_matches(pattern_source(*re), text@),
{
    re.is_match(text)
}

/// Why an expression has no truth value.
#[derive(Debug)]
pub enum DslError {
    /// The expression has fewer than three words.
    InvalidExpression,
    /// The first word names no field of a flow.
    UnsupportedField(String),
    /// The pattern inside `regex(..)` does not compile.
    InvalidPattern(String),
}

/// A [`DslError`] with its strings as texts.
pub enum DslFault {
    InvalidExpression,
    UnsupportedField(Seq<char>),
    InvalidPattern(Seq<char>),
}

impl View for DslError {
    type V = DslFault;

    open spec fn view(&self) -> DslFault {
        match self {
            DslError::InvalidExpression => DslFault::InvalidExpression,
            DslError::UnsupportedField(f) => DslFault::UnsupportedField(f@),
            DslError::InvalidPattern(p) => DslFault::InvalidPattern(p@),
        }
    }
}

impl DslError {
    /// The text of the error as shown to an operator.
    pub open spec fn message_text(self) -> Seq<char> {
        match self {
            DslError::InvalidExpression => "invalid expression"@,
            DslError::UnsupportedField(field) => "unsupported field: "@ + field@,
            DslError::InvalidPattern(pattern) => "invalid pattern: "@ + pattern@,
        }
    }

    /// The text of the error as shown to an operator.
    pub fn message(&self) -> (r: String)
        ensures
            r@ == self.message_text(),
    {
        let mut out = String::new();
        match self {
            DslError::InvalidExpression => {
                push_text(&mut out, "invalid expression");
            },
            DslError::UnsupportedField(field) => {
                push_text(&mut out, "unsupported field: ");
                push_text(&mut out, field.as_str());
            },
            DslError::InvalidPattern(pattern) => {
                push_text(&mut out, "invalid pattern: ");
                push_text(&mut out, pattern.as_str());
            },
        }
        out
    }
}

/// A field of a flow that a condition can test.
#[derive(Debug, Clone, Copy, PartialEq, Eq, Structural)]
pub enum Field {
    ProcName,
    DstPort,
    SrcIp,
    DstIp,
}

/// A parsed expression.
#[derive(Debug)]
pub enum Condition {
    /// `field op value`.
    Compare { field: Field, op: String, value: String },
    /// `regex(source)`, tested against both addresses.
    Pattern { source: String },
}

/// A [`Condition`] with its strings as texts.
pub enum ConditionView {
    Compare { field: Field, op: Seq<char>, value: Seq<char> },
    Pattern { source: Seq<char> },
}

impl View for Condition {
    type V = ConditionView;

    open spec fn view(&self) -> ConditionView {
        match self {
            Condition::Compare { field, op, value } => ConditionView::Compare {
                field: *field,
                op: op@,
                value: value@,
            },
            Condition::Pattern { source } => ConditionView::Pattern { source: source@ },
        }
    }
}

/// The field that a word names.
pub open spec fn field_named(word: Seq<char>) -> Option<Field> {
    if word == "proc.name"@ {
        Some(Field::ProcName)
    } else if word == "dst.port"@ {
        Some(Field::DstPort)
    } else if word == "src.ip"@ {
        Some(Field::SrcIp)
    } else if word == "dst.ip"@ {
        Some(Field::DstIp)
    } else {
        None
    }
}

/// `s` without every leading copy of `p`.
pub open spec fn strip_prefixes(s: Seq<char>, p: Seq<char>) -> Seq<char>
    decreases s.len(),
{
    if p.len() > 0 && occurs_at(s, p, 0) {
        strip_prefixes(s.skip(p.len() as int), p)
    } else {
        s
    }
}

/// The pattern inside a `regex(..)` word: the word without its leading
/// `regex(` and without the closing parentheses at its end.
pub open spec fn pattern_in(word: Seq<char>) -> Seq<char> {
    trim_end(strip_prefixes(word, "regex("@), CharSet::Just(')'))
}

/// The condition that an expression denotes. The expression is cut into words
/// at white space. The first three words are the field, the operator and the
/// value; double quotes around the value are dropped. A first word that begins
/// with `regex(` is a pattern, and the two words after it count for nothing.
pub open spec fn parse(expr: Seq<char>) -> Result<ConditionView, DslFault> {
    let w = words(expr);
    if w.len() < 3 {
        Err(DslFault::InvalidExpression)
    } else {
        match field_named(w[0]) {
            Some(field) => Ok(
                ConditionView::Compare { field, op: w[1], value: trim(w[2], CharSet::Just('"')) },
            ),
            None => if occurs_at(w[0], "regex("@, 0) {
                Ok(ConditionView::Pattern { source: pattern_in(w[0]) })
            } else {
                Err(DslFault::UnsupportedField(w[0]))
            },
        }
    }
}

/// The text of a field of a flow. A flow without a process has the empty
/// name; a port is its decimal numeral.
pub open spec fn field_text(field: Field, flow: NormalizedFlowView) -> Seq<char> {
    match field {
        Field::ProcName => match flow.process {
            Some(name) => name,
            None => Seq::empty(),
        },
        Field::DstPort => decimal(flow.dst_port as nat),
        Field::SrcIp => flow.src_ip,
        Field::DstIp => flow.dst_ip,
    }
}

/// The candidates of a list value: the value without opening brackets at its
/// start and closing brackets at its end, cut at commas, each piece without
/// the white space around it.
pub open spec fn candidates(expected: Seq<char>) -> Seq<Seq<char>> {
    split(
        trim_end(trim_start(expected, CharSet::Just('[')), CharSet::Just(']')),
        ',',
    ).map_values(|c: Seq<char>| trim(c, CharSet::Whitespace))
}

/// Whether `actual` stands in relation `op` to `expected`. `==` and `!=`
/// compare the two texts character by character; `in` asks whether `actual` is
/// one of the [`candidates`] of `expected`; no other operator holds of
/// anything.
pub open spec fn operator_holds(actual: Seq<char>, op: Seq<char>, expected: Seq<char>) -> bool {
    if op == "=="@ {
        actual == expected
    } else if op == "!="@ {
        actual != expected
    } else if op == "in"@ {
        candidates(expected).contains(actual)
    } else {
        false
    }
}

/// Whether a condition holds of a flow. A pattern holds when it matches the
/// destination or the source address; a pattern that does not compile has no
/// truth value.
pub open spec fn condition_holds(c: ConditionView, flow: NormalizedFlowView) -> Result<
    bool,
    DslFault,
> {
    match c {
        ConditionView::Compare { field, op, value } => Ok(
            operator_holds(field_text(field, flow), op, value),
        ),
        ConditionView::Pattern { source } => if pattern_compiles(source) {
            Ok(pattern_matches(source, flow.dst_ip) || pattern_matches(source, flow.src_ip))
        } else {
            Err(DslFault::InvalidPattern(source))
        },
    }
}

/// The truth value of an expression on a flow.
pub open spec fn evaluate(expr: Seq<char>, flow: NormalizedFlowView) -> Result<bool, DslFault> {
    match parse(expr) {
        Ok(c) => condition_holds(c, flow),
        Err(e) => Err(e),
    }
}

/// The view of the outcome of an evaluation.
pub open spec fn outcome_view(r: Result<bool, DslError>) -> Result<bool, DslFault> {
    match r {
        Ok(b) => Ok(b),
        Err(e) => Err(e@),
    }
}

/// The view of the outcome of parsing.
pub open spec fn parsed_view(r: Result<Condition, DslError>) -> Result<ConditionView, DslFault> {
    match r {
        Ok(c) => Ok(c@),
        Err(e) => Err(e@),
    }
}

/// Executable [`strip_prefixes`].
pub fn without_prefixes(v: &Vec<char>, p: &Vec<char>) -> (r: Vec<char>)
    ensures
        r@ == strip_prefixes(v@, p@),
{
    if p.len() == 0 {
        return slice_of(v, 0, v.len());
    }
    let mut start: usize = 0;
    assert(v@.skip(0) == v@);
    while occurs(v, p, start)
        invariant
            start <= v.len(),
            p.len() > 0,
            strip_prefixes(v@, p@) == strip_prefixes(v@.skip(start as int), p@),
        decreases v.len() - start,
    {
        proof {
            let rest = v@.skip(start as int);
            assert(rest.subrange(0, p.len() as int) == v@.subrange(start as int, start + p.len()));
            assert(occurs_at(rest, p@, 0));
            assert(rest.skip(p.len() as int) == v@.skip(start + p.len()));
        }
        start = start + p.len();
    }
    proof {
        let rest = v@.skip(start as int);
        if occurs_at(rest, p@, 0) {
            assert(rest.subrange(0, p.len() as int) == v@.subrange(start as int, start + p.len()));
            assert(occurs_at(v@, p@, start as int));
        }
        assert(v@.subrange(start as int, v.len() as int) == rest);
    }
    slice_of(v, start, v.len())
}

/// Executable [`field_named`].
pub fn field_of(word: &Vec<char>) -> (r: Option<Field>)
    ensures
        r == field_named(word@),
{
    if spells(word, "proc.name") {
        Some(Field::ProcName)
    } else if spells(word, "dst.port") {
        Some(Field::DstPort)
    } else if spells(word, "src.ip") {
        Some(Field::SrcIp)
    } else if spells(word, "dst.ip") {
        Some(Field::DstIp)
    } else {
        None
    }
}

/// Reads an expression as a condition.
pub fn parse_expression(expr: &str) -> (r: Result<Condition, DslError>)
    ensures
        parsed_view(r) == parse(expr@),
{
    let v = chars_of(expr);
    let w = split_whitespace(&v);
    if w.len() < 3 {
        return Err(DslError::InvalidExpression);
    }
    assert(texts(w@)[0] == w@[0]@);
    assert(texts(w@)[1] == w@[1]@);
    assert(texts(w@)[2] == w@[2]@);
    match field_of(&w[0]) {
        Some(field) => {
            let value = trimmed(&w[2], CharSet::Just('"'));
            Ok(Condition::Compare { field, op: string_of(&w[1]), value: string_of(&value) })
        },
        None => {
            let prefix = chars_of("regex(");
            if occurs(&w[0], &prefix, 0) {
                let body = without_prefixes(&w[0], &prefix);
                let source = trimmed_end(&body, CharSet::Just(')'));
                Ok(Condition::Pattern { source: string_of(&source) })
            } else {
                Err(DslError::UnsupportedField(string_of(&w[0])))
            }
        },
    }
}

/// Whether `actual` stands in relation `op` to `expected`.
pub fn apply_operator(actual: &str, op: &str, expected: &str) -> (r: bool)
    ensures
        r == operator_holds(actual@, op@, expected@),
{
    let a = chars_of(actual);
    let o = chars_of(op);
    let e = chars_of(expected);
    if spells(&o, "==") {
        same_chars(&a, &e)
    } else if spells(&o, "!=") {
        !same_chars(&a, &e)
    } else if spells(&o, "in") {
        let inner = trimmed_end(&trimmed_start(&e, CharSet::Just('[')), CharSet::Just(']'));
        let pieces = split_on(&inner, ',');
        let ghost cands = candidates(expected@);
        assert(cands.len() == pieces.len());
        let mut i: usize = 0;
        while i < pieces.len()
            invariant
                i <= pieces.len(),
                cands.len() == pieces.len(),
                cands == candidates(expected@),
                texts(pieces@) == split(inner@, ','),
                inner@ == trim_end(trim_start(e@, CharSet::Just('[')), CharSet::Just(']')),
                e@ == expected@,
                a@ == actual@,
                op@ != "=="@,
                op@ != "!="@,
                op@ == "in"@,
                forall|k: int| 0 <= k < i ==> cands[k] != actual@,
            decreases pieces.len() - i,
        {
            let candidate = trimmed(&pieces[i], CharSet::Whitespace);
            assert(texts(pieces@)[i as int] == pieces@[i as int]@);
            assert(cands[i as int] == candidate@);
            if same_chars(&candidate, &a) {
                assert(cands[i as int] == actual@);
                return true;
            }
            i = i + 1;
        }
        false
    } else {
        false
    }
}

/// The text of a field of a flow, as a string.
pub fn field_value(field: Field, flow: &NormalizedFlow) -> (r: String)
    ensures
        r@ == field_text(field, flow@),
{
    match field {
        Field::ProcName => match &flow.process {
            Some(name) => name.clone(),
            None => String::new(),
        },
        Field::DstPort => {
            let mut out = String::new();
            push_decimal(&mut out, flow.dst_port as u64);
            out
        },
        Field::SrcIp => flow.src_ip.clone(),
        Field::DstIp => flow.dst_ip.clone(),
    }
}

/// Whether a condition holds of a flow.
pub fn evaluate_condition(c: &Condition, flow: &NormalizedFlow) -> (r: Result<bool, DslError>)
    ensures
        outcome_view(r) == condition_holds(c@, flow@),
{
    match c {
        Condition::Compare { field, op, value } => {
            let actual = field_value(*field, flow);
            Ok(apply_operator(actual.as_str(), op.as_str(), value.as_str()))
        },
        Condition::Pattern { source } => match compile_pattern(source.as_str()) {
            Ok(re) => Ok(
                pattern_is_match(&re, flow.dst_ip.as_str()) || pattern_is_match(
                    &re,
                    flow.src_ip.as_str(),
                ),
            ),
            Err(_) => Err(DslError::InvalidPattern(source.clone())),
        },
    }
}

/// The truth value of an expression on a flow, or why it has none.
pub fn evaluate_expression(expr: &str, flow: &NormalizedFlow) -> (r: Result<bool, DslError>)
    ensures
        outcome_view(r) == evaluate(expr@, flow@),
{
    match parse_expression(expr) {
        Ok(c) => evaluate_condition(&c, flow),
        Err(e) => Err(e),
    }
}

/// A named condition with the alert texts that go with it.
#[derive(Debug)]
pub struct Rule {
    pub id: String,
    pub severity: Severity,
    pub summary: Option<String>,
    pub rationale: Option<String>,
    pub suggested_action: Option<String>,
    pub expression: String,
}

impl Rule {
    /// Whether the rule's expression is true of a flow.
    pub open spec fn holds_of(self, flow: NormalizedFlowView) -> bool {
        evaluate(self.expression@, flow) == Ok::<bool, DslFault>(true)
    }

    /// Whether the rule matches a flow. A rule whose expression has no truth
    /// value matches nothing.
    pub fn matches(&self, flow: &NormalizedFlow) -> (r: bool)
        ensures
            r == self.holds_of(flow@),
    {
        match evaluate_expression(self.expression.as_str(), flow) {
            Ok(v) => v,
            Err(_) => false,
        }
    }
}

/// The truth value of an expression is a function of the expression and of
/// four fields of the flow: the process name, the destination port and the two
/// addresses. Two flows that agree on these get the same verdict from the same
/// expression.
pub proof fn lemma_evaluation_is_a_function(
    e1: Seq<char>,
    e2: Seq<char>,
    f1: NormalizedFlowView,
    f2: NormalizedFlowView,
)
    requires
        e1 == e2,
        f1.process == f2.process,
        f1.dst_port == f2.dst_port,
        f1.src_ip == f2.src_ip,
        f1.dst_ip == f2.dst_ip,
    ensures
        evaluate(e1, f1) == evaluate(e2, f2),
{
    match parse(e1) {
        Ok(ConditionView::Compare { field, op, value }) => {
            assert(field_text(field, f1) == field_text(field, f2));
        },
        _ => {},
    }
}

} // verus!
