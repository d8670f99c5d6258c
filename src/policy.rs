//! The decisions of the policy advisor: where its rules and preprocessing
//! filter come from, the input handed to the rule engine, and which of the
//! engine's findings are advice.

use vstd::prelude::*;
use std::rc::Rc;
use crate::advice::{advice_models, Advice, AdviceModel};
use crate::sample::Sample;
use crate::semconv::{Attribute, ResolvedGroup};

verus! {

/// The path that identifies the embedded default rule set, in error messages
/// as elsewhere.
pub const DEFAULT_LIVE_CHECK_REGO_POLICY_PATH: &'static str = "defaults/policies/live_check_advice/otel.rego";

/// The file pattern of rule files in a configured policy directory.
pub const POLICY_FILE_PATTERN: &'static str = "*.rego";

/// The rule stage that the policy advisor evaluates.
pub const LIVE_CHECK_ADVICE_STAGE: &'static str = "live_check_advice";

/// Where the policy advisor's rules come from.
#[derive(Clone, Debug, PartialEq)]
pub enum PolicySource {
    /// Every file matching `pattern` in the directory `dir`.
    Directory { dir: String, pattern: String },
    /// The embedded default rule set, identified by `path`.
    Embedded { path: String },
}

/// Where the policy advisor's preprocessing filter comes from.
#[derive(Clone, Debug, PartialEq)]
pub enum FilterSource {
    /// The filter program in the file at this path.
    File(String),
    /// The embedded default filter program.
    Embedded,
}

/// The sources that initialization loads, in order: rules, then filter.
#[derive(Clone, Debug, PartialEq)]
pub struct PolicySetup {
    pub policies: PolicySource,
    pub filter: FilterSource,
}

impl PolicySetup {
    /// Chooses the sources from the configuration. A configured directory is
    /// used alone, even where no file in it matches: it never falls back to
    /// the embedded rule set.
    pub fn new(policy_dir: &Option<String>, jq_preprocessor: &Option<String>) -> (r: PolicySetup)
        ensures
            match *policy_dir {
                Some(dir) => r.policies matches PolicySource::Directory { dir: d, pattern: p }
                    && d@ == dir@ && p@ == POLICY_FILE_PATTERN@,
                None => r.policies matches PolicySource::Embedded { path }
                    && path@ == DEFAULT_LIVE_CHECK_REGO_POLICY_PATH@,
            },
            match *jq_preprocessor {
                Some(file) => r.filter matches FilterSource::File(f) && f@ == file@,
                None => r.filter is Embedded,
            },
    {
        let policies = match policy_dir {
            Some(dir) => PolicySource::Directory {
                dir: dir.clone(),
                pattern: POLICY_FILE_PATTERN.to_owned(),
            },
            None => PolicySource::Embedded { path: DEFAULT_LIVE_CHECK_REGO_POLICY_PATH.to_owned() },
        };
        let filter = match jq_preprocessor {
            Some(file) => FilterSource::File(file.clone()),
            None => FilterSource::Embedded,
        };
        PolicySetup { policies, filter }
    }
}

/// The input of one rule evaluation: the sample and its registry matches.
pub struct PolicyInput<'a> {
    pub sample: &'a Sample,
    pub registry_attribute: Option<Rc<Attribute>>,
    pub registry_group: Option<Rc<ResolvedGroup>>,
}

impl<'a> PolicyInput<'a> {
    pub fn new(
        sample: &'a Sample,
        registry_attribute: Option<Rc<Attribute>>,
        registry_group: Option<Rc<ResolvedGroup>>,
    ) -> (r: PolicyInput<'a>)
        ensures
            r.sample == sample,
            r.registry_attribute == registry_attribute,
            r.registry_group == registry_group,
    {
        PolicyInput { sample, registry_attribute, registry_group }
    }
}

/// A raw finding of the rule engine: advice for this stage, or a violation
/// meant for another stage.
#[derive(Debug, PartialEq)]
pub enum Finding {
    Advice(Advice),
    Violation { id: String, category: String },
}

/// The advice among `findings`, in the engine's order.
pub open spec fn advice_among(findings: Seq<Finding>) -> Seq<AdviceModel>
    decreases findings.len(),
{
    if findings.len() == 0 {
        seq![]
    } else {
        let earlier = advice_among(findings.drop_last());
        match findings.last() {
            Finding::Advice(a) => earlier.push(a@),
            Finding::Violation { .. } => earlier,
        }
    }
}

/// Keeps the findings that are advice, in the engine's order, and drops the
/// other kinds.
pub fn advice_from_findings(findings: &[Finding]) -> (r: Vec<Advice>)
    ensures
        advice_models(r@) == advice_among(findings@),
{
    let mut out: Vec<Advice> = Vec::new();
    let mut i: usize = 0;
    while i < findings.len()
        invariant
            i <= findings.len(),
            advice_models(out@) == advice_among(findings@.subrange(0, i as int)),
        decreases findings.len() - i,
    {
        let ghost before = out@;
        assert(findings@.subrange(0, i + 1).drop_last() =~= findings@.subrange(0, i as int));
        match &findings[i] {
            Finding::Advice(a) => {
                out.push(a.duplicate());
                assert(advice_models(out@) =~= advice_models(before).push(a@));
            },
            Finding::Violation { .. } => {},
        }
        i = i + 1;
    }
    assert(findings@.subrange(0, findings.len() as int) =~= findings@);
    out
}

} // verus!
