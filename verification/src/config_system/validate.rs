//! Validation of a resolved Datadog configuration against the overlay classification: keys that
//! ADP cannot honor, set to a non-default value, stop startup when they affect an active
//! pipeline.

use vstd::prelude::*;

use crate::config_system::translate::PipelineGates;
use crate::text::{decimal, decimal_string, owned, push_str};

verus! {

/// A data pipeline a key can affect.
#[derive(Clone, Copy, Debug, PartialEq, Eq, Structural)]
pub enum Pipeline {
    /// DogStatsD.
    DogStatsD,
    /// Checks.
    Checks,
    /// OTLP.
    Otlp,
    /// Traces.
    Traces,
}

/// Which pipelines a key affects.
#[derive(Debug)]
pub enum PipelineAffinity {
    /// The listed pipelines.
    Pipelines(Vec<Pipeline>),
    /// Every pipeline.
    CrossCutting,
}

/// How severe an incompatibility is.
#[derive(Clone, Copy, Debug, PartialEq, Eq, Structural)]
pub enum Severity {
    /// Proceed silently.
    Low,
    /// Proceed with a warning.
    Medium,
    /// ADP cannot run safely.
    High,
}

/// How well ADP supports a key.
#[derive(Clone, Copy, Debug, PartialEq, Eq, Structural)]
pub enum SupportLevel {
    /// Fully supported.
    Full,
    /// Partially supported.
    Partial,
    /// Not supported, with the given severity.
    Incompatible(Severity),
    /// Not applicable to ADP.
    Ignored,
    /// Not known to the classifier.
    Unrecognized,
}

/// The classification of one configured key.
#[derive(Debug)]
pub struct Classification {
    /// How well the key is supported.
    pub support_level: SupportLevel,
    /// Which pipelines the key affects.
    pub pipeline_affinity: PipelineAffinity,
    /// Whether the key holds its default value.
    pub is_default: bool,
}

/// What validation makes of one key.
#[derive(Clone, Copy, Debug, PartialEq, Eq, Structural)]
pub enum Finding {
    /// Unclassified, or affecting no active pipeline: nothing to report.
    Unaffected,
    /// Holding its default value.
    Default,
    /// Supported, ignored or unrecognized: nothing to report.
    NotApplicable,
    /// Incompatible with low severity: proceed.
    LowSeverity,
    /// Partially supported: proceed with a warning.
    Partial,
    /// Incompatible with medium severity: proceed with a warning.
    Unsupported,
    /// Incompatible with high severity: ADP cannot start.
    Blocking,
}

/// The pipelines the gates make active; OTLP makes traces active too.
pub open spec fn is_active(gates: PipelineGates, p: Pipeline) -> bool {
    match p {
        Pipeline::DogStatsD => gates.dogstatsd_enabled,
        Pipeline::Checks => gates.checks_enabled,
        Pipeline::Otlp => gates.otlp_enabled,
        Pipeline::Traces => gates.otlp_enabled,
    }
}

/// The gates decide the active pipelines: DogStatsD, Checks and OTLP are active exactly when
/// their own gates are on, and enabling OTLP makes the traces pipeline active as well.
pub proof fn active_pipelines_follow_gates(gates: PipelineGates)
    ensures
        is_active(gates, Pipeline::DogStatsD) == gates.dogstatsd_enabled,
        is_active(gates, Pipeline::Checks) == gates.checks_enabled,
        is_active(gates, Pipeline::Otlp) == gates.otlp_enabled,
        is_active(gates, Pipeline::Traces) == gates.otlp_enabled,
        gates.otlp_enabled ==> is_active(gates, Pipeline::Traces),
{
}

/// Returns the pipelines the gates make active, each once.
pub fn active_pipelines(gates: PipelineGates) -> (r: Vec<Pipeline>)
    ensures
        forall|p: Pipeline| r@.contains(p) <==> is_active(gates, p),
        r@.contains(Pipeline::DogStatsD) == gates.dogstatsd_enabled,
        r@.contains(Pipeline::Checks) == gates.checks_enabled,
        r@.contains(Pipeline::Otlp) == gates.otlp_enabled,
        r@.contains(Pipeline::Traces) == gates.otlp_enabled,
        r@.no_duplicates(),
{
    let mut r: Vec<Pipeline> = Vec::new();
    if gates.dogstatsd_enabled {
        r.push(Pipeline::DogStatsD);
    }
    if gates.checks_enabled {
        r.push(Pipeline::Checks);
    }
    if gates.otlp_enabled {
        r.push(Pipeline::Otlp);
        r.push(Pipeline::Traces);
    }
    proof {
        assert forall|p: Pipeline| r@.contains(p) <==> is_active(gates, p) by {
            if is_active(gates, p) {
                match p {
                    Pipeline::DogStatsD => assert(r@[0] == p),
                    Pipeline::Checks => assert(r@[if gates.dogstatsd_enabled { 1int } else { 0int }] == p),
                    Pipeline::Otlp => assert(r@[r@.len() - 2] == p),
                    Pipeline::Traces => assert(r@[r@.len() - 1] == p),
                }
            }
        }
        assert(r@.contains(Pipeline::DogStatsD) == is_active(gates, Pipeline::DogStatsD));
        assert(r@.contains(Pipeline::Checks) == is_active(gates, Pipeline::Checks));
        assert(r@.contains(Pipeline::Otlp) == is_active(gates, Pipeline::Otlp));
        assert(r@.contains(Pipeline::Traces) == is_active(gates, Pipeline::Traces));
    }
    r
}

/// Whether a key with `affinity` affects a pipeline in `active`.
pub open spec fn affects(active: Seq<Pipeline>, affinity: PipelineAffinity) -> bool {
    match affinity {
        PipelineAffinity::Pipelines(affected) => any_active(active, affected@),
        PipelineAffinity::CrossCutting => true,
    }
}

/// Whether one of `affected` is in `active`.
pub open spec fn any_active(active: Seq<Pipeline>, affected: Seq<Pipeline>) -> bool {
    exists|i: int| 0 <= i < affected.len() && active.contains(#[trigger] affected[i])
}

fn contains_pipeline(v: &Vec<Pipeline>, p: Pipeline) -> (r: bool)
    ensures
        r == v@.contains(p),
{
    let mut i: usize = 0;
    while i < v.len()
        invariant
            i <= v.len(),
            forall|k: int| 0 <= k < i ==> v@[k] != p,
        decreases v.len() - i,
    {
        if v[i] == p {
            return true;
        }
        i = i + 1;
    }
    false
}

/// Returns whether a key with `affinity` affects a pipeline in `active`.
pub fn is_a_pipeline_affected(active: &Vec<Pipeline>, affinity: &PipelineAffinity) -> (r: bool)
    ensures
        r == affects(active@, *affinity),
{
    match affinity {
        PipelineAffinity::Pipelines(affected) => {
            let mut i: usize = 0;
            while i < affected.len()
                invariant
                    i <= affected.len(),
                    *affinity == PipelineAffinity::Pipelines(*affected),
                    forall|k: int| 0 <= k < i ==> !active@.contains(#[trigger] affected@[k]),
                decreases affected.len() - i,
            {
                if contains_pipeline(active, affected[i]) {
                    assert(active@.contains(affected@[i as int]));
                    assert(any_active(active@, affected@));
                    return true;
                }
                i = i + 1;
            }
            false
        },
        PipelineAffinity::CrossCutting => true,
    }
}

/// What validation makes of a key's classification, given the active pipelines.
pub open spec fn finding_of(c: Option<Classification>, active: Seq<Pipeline>) -> Finding {
    match c {
        None => Finding::Unaffected,
        Some(c) => if !affects(active, c.pipeline_affinity) {
            Finding::Unaffected
        } else if c.is_default {
            Finding::Default
        } else {
            match c.support_level {
                SupportLevel::Incompatible(Severity::Low) => Finding::LowSeverity,
                SupportLevel::Partial => Finding::Partial,
                SupportLevel::Incompatible(Severity::Medium) => Finding::Unsupported,
                SupportLevel::Incompatible(Severity::High) => Finding::Blocking,
                _ => Finding::NotApplicable,
            }
        },
    }
}

/// A key blocks startup exactly when it is classified, affects an active pipeline, is not at its
/// default, and is incompatible with high severity; a key that affects no active pipeline, or is
/// at its default, is never blocking. A key affects the active pipelines when it is cross-cutting
/// or one of its pipelines is active.
pub proof fn blocking_keys(c: Option<Classification>, active: Seq<Pipeline>)
    ensures
        (finding_of(c, active) == Finding::Blocking) == (c matches Some(k) && affects(
            active,
            k.pipeline_affinity,
        ) && !k.is_default && k.support_level == SupportLevel::Incompatible(Severity::High)),
        c matches Some(k) && !affects(active, k.pipeline_affinity) ==> finding_of(c, active)
            == Finding::Unaffected,
        c matches Some(k) && affects(active, k.pipeline_affinity) && k.is_default ==> finding_of(
            c,
            active,
        ) == Finding::Default,
        c matches Some(k) ==> (k.pipeline_affinity == PipelineAffinity::CrossCutting ==> affects(
            active,
            k.pipeline_affinity,
        )),
        c matches Some(k) ==> (k.pipeline_affinity matches PipelineAffinity::Pipelines(ps) ==> (
        affects(active, k.pipeline_affinity) <==> exists|i: int|
            0 <= i < ps@.len() && active.contains(#[trigger] ps@[i]))),
{
}

/// Assesses one key's classification.
pub fn assess(c: &Option<Classification>, active: &Vec<Pipeline>) -> (f: Finding)
    ensures
        f == finding_of(*c, active@),
{
    match c {
        None => Finding::Unaffected,
        Some(c) => {
            if !is_a_pipeline_affected(active, &c.pipeline_affinity) {
                Finding::Unaffected
            } else if c.is_default {
                Finding::Default
            } else {
                match c.support_level {
                    SupportLevel::Incompatible(Severity::Low) => Finding::LowSeverity,
                    SupportLevel::Partial => Finding::Partial,
                    SupportLevel::Incompatible(Severity::Medium) => Finding::Unsupported,
                    SupportLevel::Incompatible(Severity::High) => Finding::Blocking,
                    _ => Finding::NotApplicable,
                }
            }
        },
    }
}

/// The number of blocking findings among the first `n` classifications.
pub open spec fn blocking_count(cs: Seq<Option<Classification>>, active: Seq<Pipeline>, n: int) -> nat
    decreases n,
{
    if n <= 0 {
        0
    } else {
        blocking_count(cs, active, n - 1) + if finding_of(cs[n - 1], active) == Finding::Blocking {
            1nat
        } else {
            0nat
        }
    }
}

proof fn lemma_blocking_count_bounded(cs: Seq<Option<Classification>>, active: Seq<Pipeline>, n: int)
    requires
        0 <= n,
    ensures
        blocking_count(cs, active, n) <= n,
    decreases n,
{
    if n > 0 {
        lemma_blocking_count_bounded(cs, active, n - 1);
    }
}

/// Validates the classifications of every configured key against the active pipelines: the
/// findings of each key, and the number of blocking ones.
pub fn validate_classifications(classifications: &Vec<Option<Classification>>, gates: PipelineGates) -> (r: (
    Vec<Finding>,
    u32,
))
    requires
        classifications@.len() <= u32::MAX,
    ensures
        r.0@.len() == classifications@.len(),
        exists|active: Seq<Pipeline>|
            {
                &&& forall|p: Pipeline| #[trigger] active.contains(p) <==> is_active(gates, p)
                &&& forall|i: int|
                    0 <= i < classifications@.len() ==> #[trigger] r.0@[i] == finding_of(
                        classifications@[i],
                        active,
                    )
                &&& r.1 == blocking_count(classifications@, active, classifications@.len() as int)
            },
{
    let active = active_pipelines(gates);
    let mut findings: Vec<Finding> = Vec::new();
    let mut blocking: u32 = 0;
    let mut i: usize = 0;
    while i < classifications.len()
        invariant
            i <= classifications.len(),
            classifications@.len() <= u32::MAX,
            findings@.len() == i,
            forall|k: int| 0 <= k < i ==> #[trigger] findings@[k] == finding_of(classifications@[k], active@),
            blocking == blocking_count(classifications@, active@, i as int),
        decreases classifications.len() - i,
    {
        let f = assess(&classifications[i], &active);
        findings.push(f);
        proof {
            lemma_blocking_count_bounded(classifications@, active@, i as int);
        }
        if f == Finding::Blocking {
            blocking = blocking + 1;
        }
        i = i + 1;
    }
    (findings, blocking)
}

/// The message that stops startup after `count` blocking findings.
pub open spec fn incompatibility_message(count: nat) -> Seq<char> {
    decimal(count) + " incompatible configuration detected. ADP cannot start. Review error logs for details."@
}

/// Decides startup after `count` blocking findings: it proceeds when there are none, and stops
/// with the incompatibility message otherwise.
pub fn validation_result(count: u32) -> (r: Result<(), String>)
    ensures
        count == 0 ==> r is Ok,
        count > 0 ==> (r matches Err(m) && m@ == incompatibility_message(count as nat)),
{
    if count == 0 {
        return Ok(());
    }
    let mut r = decimal_string(count as u64);
    push_str(&mut r, " incompatible configuration detected. ADP cannot start. Review error logs for details.");
    Err(r)
}

} // verus!
