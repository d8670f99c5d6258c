//! The advisor interface and the built-in structural advisors.

use vstd::prelude::*;
use std::rc::Rc;
use vstd::string::*;
use crate::advice::{advice_models, text_advice, Advice, AdviceLevel, AdviceModel};
use crate::error::Error;
use crate::json::{JsonModel, JsonValue};
use crate::sample::{Sample, SampleAttribute, SampleInstrument, SampleMetric};
use crate::semconv::{
    Attribute, AttributeType, Deprecated, EnumEntry, PrimitiveOrArrayType, RequirementLevel,
    ResolvedGroup, Stability, ValueSpec,
};

verus! {

/// Provides advice on a sample, given the registry entries it matched.
pub trait Advisor {
    /// Provide advice on a sample.
    fn advise(
        &mut self,
        sample: &Sample,
        registry_attribute: Option<Rc<Attribute>>,
        registry_group: Option<Rc<ResolvedGroup>>,
    ) -> Result<Vec<Advice>, Error>;
}

/// The advice reported for a deprecated entry.
pub open spec fn deprecation_advice(d: Deprecated) -> AdviceModel {
    text_advice("deprecated"@, d.spec_kind(), d.spec_description(), AdviceLevel::Violation)
}

/// What the deprecation advisor reports for an optional deprecation marker.
pub open spec fn deprecation_findings(d: Option<Deprecated>) -> Seq<AdviceModel> {
    match d {
        Some(d) => seq![deprecation_advice(d)],
        None => seq![],
    }
}

/// What the deprecation advisor reports on a sample and its matches.
pub open spec fn deprecated_advice(
    sample: Sample,
    registry_attribute: Option<Rc<Attribute>>,
    registry_group: Option<Rc<ResolvedGroup>>,
) -> Seq<AdviceModel> {
    match sample {
        Sample::Attribute(_) => match registry_attribute {
            Some(a) => deprecation_findings(a.deprecated),
            None => seq![],
        },
        Sample::Metric(_) => match registry_group {
            Some(g) => deprecation_findings(g.deprecated),
            None => seq![],
        },
        _ => seq![],
    }
}

fn deprecation_to_advice(d: &Option<Deprecated>) -> (r: Vec<Advice>)
    ensures
        advice_models(r@) == deprecation_findings(*d),
{
    let mut advices: Vec<Advice> = Vec::new();
    if let Some(deprecated) = d {
        advices.push(
            Advice::text("deprecated", deprecated.kind(), deprecated.description(), AdviceLevel::Violation),
        );
    }
    assert(advice_models(advices@) =~= deprecation_findings(*d));
    advices
}

/// An advisor that reports deprecated attributes and metrics.
pub struct DeprecatedAdvisor;

impl Advisor for DeprecatedAdvisor {
    fn advise(
        &mut self,
        sample: &Sample,
        registry_attribute: Option<Rc<Attribute>>,
        registry_group: Option<Rc<ResolvedGroup>>,
    ) -> (r: Result<Vec<Advice>, Error>)
        ensures
            r matches Ok(v) && advice_models(v@) == deprecated_advice(*sample, registry_attribute, registry_group),
    {
        match sample {
            Sample::Attribute(_) => {
                if let Some(attribute) = registry_attribute {
                    Ok(deprecation_to_advice(&attribute.deprecated))
                } else {
                    Ok(Vec::new())
                }
            },
            Sample::Metric(_) => {
                if let Some(group) = registry_group {
                    Ok(deprecation_to_advice(&group.deprecated))
                } else {
                    Ok(Vec::new())
                }
            },
            _ => Ok(Vec::new()),
        }
    }
}

/// What the stability advisor reports for an optional stability level.
pub open spec fn stability_findings(s: Option<Stability>) -> Seq<AdviceModel> {
    match s {
        Some(st) => if st != Stability::Stable {
            seq![text_advice("stability"@, st.spec_name(), "Is not stable."@, AdviceLevel::Improvement)]
        } else {
            seq![]
        },
        None => seq![],
    }
}

/// What the stability advisor reports on a sample and its matches.
pub open spec fn stability_advice(
    sample: Sample,
    registry_attribute: Option<Rc<Attribute>>,
    registry_group: Option<Rc<ResolvedGroup>>,
) -> Seq<AdviceModel> {
    match sample {
        Sample::Attribute(_) => match registry_attribute {
            Some(a) => stability_findings(a.stability),
            None => seq![],
        },
        Sample::Metric(_) => match registry_group {
            Some(g) => stability_findings(g.stability),
            None => seq![],
        },
        _ => seq![],
    }
}

fn stability_to_advice(s: &Option<Stability>) -> (r: Vec<Advice>)
    ensures
        advice_models(r@) == stability_findings(*s),
{
    let mut advices: Vec<Advice> = Vec::new();
    match s {
        Some(stability) => {
            if *stability != Stability::Stable {
                advices.push(
                    Advice::text(
                        "stability",
                        stability.name(),
                        "Is not stable.".to_owned(),
                        AdviceLevel::Improvement,
                    ),
                );
            }
        },
        None => {},
    }
    assert(advice_models(advices@) =~= stability_findings(*s));
    advices
}

/// An advisor that reports attributes and metrics that are not stable.
pub struct StabilityAdvisor;

impl Advisor for StabilityAdvisor {
    fn advise(
        &mut self,
        sample: &Sample,
        registry_attribute: Option<Rc<Attribute>>,
        registry_group: Option<Rc<ResolvedGroup>>,
    ) -> (r: Result<Vec<Advice>, Error>)
        ensures
            r matches Ok(v) && advice_models(v@) == stability_advice(*sample, registry_attribute, registry_group),
    {
        match sample {
            Sample::Attribute(_) => {
                if let Some(attribute) = registry_attribute {
                    Ok(stability_to_advice(&attribute.stability))
                } else {
                    Ok(Vec::new())
                }
            },
            Sample::Metric(_) => {
                if let Some(group) = registry_group {
                    Ok(stability_to_advice(&group.stability))
                } else {
                    Ok(Vec::new())
                }
            },
            _ => Ok(Vec::new()),
        }
    }
}

/// Whether some observed attribute carries the name `name`.
pub open spec fn is_observed(observed: Seq<SampleAttribute>, name: Seq<char>) -> bool {
    exists|i: int| 0 <= i < observed.len() && #[trigger] observed[i].name@ == name
}

/// The advice for a registry attribute that is missing from a sample, keyed
/// by its requirement level.
pub open spec fn presence_advice(a: Attribute) -> AdviceModel {
    match a.requirement_level {
        RequirementLevel::Required => text_advice(
            "required_attribute_not_present"@,
            a.name@,
            "Required attribute is not present"@,
            AdviceLevel::Violation,
        ),
        RequirementLevel::Recommended { .. } => text_advice(
            "recommended_attribute_not_present"@,
            a.name@,
            "Recommended attribute is not present"@,
            AdviceLevel::Improvement,
        ),
        RequirementLevel::OptIn { .. } => text_advice(
            "opt_in_attribute_not_present"@,
            a.name@,
            "Opt-in attribute is not present"@,
            AdviceLevel::Information,
        ),
        RequirementLevel::ConditionallyRequired { .. } => text_advice(
            "conditionally_required_attribute_not_present"@,
            a.name@,
            "Conditionally required attribute is not present"@,
            AdviceLevel::Information,
        ),
    }
}

/// The presence advice for the registry attributes `schema` against the
/// observed attributes, in the order of `schema`.
pub open spec fn missing_advice(schema: Seq<Attribute>, observed: Seq<SampleAttribute>) -> Seq<
    AdviceModel,
>
    decreases schema.len(),
{
    if schema.len() == 0 {
        seq![]
    } else {
        let earlier = missing_advice(schema.drop_last(), observed);
        if is_observed(observed, schema.last().name@) {
            earlier
        } else {
            earlier.push(presence_advice(schema.last()))
        }
    }
}

fn observed_contains(observed: &[SampleAttribute], name: &String) -> (r: bool)
    ensures
        r == is_observed(observed@, name@),
{
    let mut i: usize = 0;
    while i < observed.len()
        invariant
            i <= observed.len(),
            forall|j: int| 0 <= j < i ==> #[trigger] observed@[j].name@ != name@,
        decreases observed.len() - i,
    {
        if observed[i].name == *name {
            return true;
        }
        i = i + 1;
    }
    false
}

fn presence_to_advice(a: &Attribute) -> (r: Advice)
    ensures
        r@ == presence_advice(*a),
{
    match &a.requirement_level {
        RequirementLevel::Required => Advice::text(
            "required_attribute_not_present",
            a.name.clone(),
            "Required attribute is not present".to_owned(),
            AdviceLevel::Violation,
        ),
        RequirementLevel::Recommended { .. } => Advice::text(
            "recommended_attribute_not_present",
            a.name.clone(),
            "Recommended attribute is not present".to_owned(),
            AdviceLevel::Improvement,
        ),
        RequirementLevel::OptIn { .. } => Advice::text(
            "opt_in_attribute_not_present",
            a.name.clone(),
            "Opt-in attribute is not present".to_owned(),
            AdviceLevel::Information,
        ),
        RequirementLevel::ConditionallyRequired { .. } => Advice::text(
            "conditionally_required_attribute_not_present",
            a.name.clone(),
            "Conditionally required attribute is not present".to_owned(),
            AdviceLevel::Information,
        ),
    }
}

/// Checks which registry attributes are missing from a list of observed
/// attributes: one advice per missing attribute, with a type and level keyed
/// by its requirement level, in the order of the registry attributes.
///
/// | Requirement level      | Advice level |
/// |------------------------|--------------|
/// | Required               | Violation    |
/// | Recommended            | Improvement  |
/// | Opt-In                 | Information  |
/// | Conditionally Required | Information  |
pub fn check_attributes(
    semconv_attributes: &[Attribute],
    sample_attributes: &[SampleAttribute],
) -> (r: Vec<Advice>)
    ensures
        advice_models(r@) == missing_advice(semconv_attributes@, sample_attributes@),
{
    let mut advice_list: Vec<Advice> = Vec::new();
    let mut i: usize = 0;
    while i < semconv_attributes.len()
        invariant
            i <= semconv_attributes.len(),
            advice_models(advice_list@) == missing_advice(
                semconv_attributes@.subrange(0, i as int),
                sample_attributes@,
            ),
        decreases semconv_attributes.len() - i,
    {
        let ghost before = advice_list@;
        let semconv_attribute = &semconv_attributes[i];
        if !observed_contains(sample_attributes, &semconv_attribute.name) {
            advice_list.push(presence_to_advice(semconv_attribute));
            assert(advice_models(advice_list@) =~= advice_models(before).push(
                presence_advice(*semconv_attribute),
            ));
        }
        assert(semconv_attributes@.subrange(0, i + 1).drop_last() =~= semconv_attributes@.subrange(
            0,
            i as int,
        ));
        i = i + 1;
    }
    assert(semconv_attributes@.subrange(0, semconv_attributes.len() as int) =~= semconv_attributes@);
    advice_list
}

/// The message `"<subject> should be `<expected>`"`.
pub open spec fn should_be_message(subject: Seq<char>, expected: Seq<char>) -> Seq<char> {
    subject + " should be `"@ + expected + "`"@
}

fn should_be(subject: &str, expected: String) -> (r: String)
    ensures
        r@ == should_be_message(subject@, expected@),
{
    let mut message = subject.to_owned();
    message.append(" should be `");
    message.append(expected.as_str());
    message.append("`");
    message
}

/// A type mismatch on an observed attribute of type `observed`.
pub open spec fn type_mismatch(observed: PrimitiveOrArrayType, message: Seq<char>) -> AdviceModel {
    text_advice("type_mismatch"@, observed.spec_name(), message, AdviceLevel::Violation)
}

/// What the type advisor reports when `observed` is checked against the
/// concrete type `expected`.
pub open spec fn compatibility_advice(
    observed: PrimitiveOrArrayType,
    expected: PrimitiveOrArrayType,
) -> Seq<AdviceModel> {
    if observed.spec_is_compatible(expected) {
        seq![]
    } else {
        seq![type_mismatch(observed, should_be_message("Type"@, expected.spec_name()))]
    }
}

/// What the type advisor reports when an attribute observed with type
/// `observed` is declared with type `declared`.
pub open spec fn attribute_type_advice(
    observed: PrimitiveOrArrayType,
    declared: AttributeType,
) -> Seq<AdviceModel> {
    match declared {
        AttributeType::PrimitiveOrArray(p) => compatibility_advice(observed, p),
        AttributeType::Template(t) => compatibility_advice(observed, t.spec_primitive()),
        AttributeType::Enum { .. } => if observed != PrimitiveOrArrayType::String && observed
            != PrimitiveOrArrayType::Int {
            seq![type_mismatch(observed, "Type should be `string` or `int`"@)]
        } else {
            seq![]
        },
    }
}

/// What the type advisor reports on the instrument of an observed metric.
pub open spec fn instrument_advice(m: SampleMetric, g: ResolvedGroup) -> Seq<AdviceModel> {
    match m.instrument {
        SampleInstrument::Unsupported(name) => seq![
            text_advice(
                "unsupported_instrument"@,
                name@,
                "Instrument is not supported"@,
                AdviceLevel::Violation,
            ),
        ],
        SampleInstrument::Supported(observed) => match g.instrument {
            Some(expected) => if expected != observed {
                seq![
                    text_advice(
                        "instrument_mismatch"@,
                        observed.spec_name(),
                        should_be_message("Instrument"@, expected.spec_name()),
                        AdviceLevel::Violation,
                    ),
                ]
            } else {
                seq![]
            },
            None => seq![],
        },
    }
}

/// What the type advisor reports on the unit of an observed metric.
pub open spec fn unit_advice(m: SampleMetric, g: ResolvedGroup) -> Seq<AdviceModel> {
    match g.unit {
        Some(expected) => if expected@ != m.unit@ {
            seq![
                text_advice(
                    "unit_mismatch"@,
                    m.unit@,
                    should_be_message("Unit"@, expected@),
                    AdviceLevel::Violation,
                ),
            ]
        } else {
            seq![]
        },
        None => seq![],
    }
}

/// What the type advisor reports on a sample and its matches.
pub open spec fn type_advice(
    sample: Sample,
    registry_attribute: Option<Rc<Attribute>>,
    registry_group: Option<Rc<ResolvedGroup>>,
) -> Seq<AdviceModel> {
    match sample {
        Sample::Attribute(s) => match (registry_attribute, s.attr_type) {
            (Some(a), Some(t)) => attribute_type_advice(t, a.attr_type),
            _ => seq![],
        },
        Sample::Metric(m) => match registry_group {
            Some(g) => instrument_advice(m, *g) + unit_advice(m, *g),
            None => seq![],
        },
        Sample::NumberDataPoint(p) => match registry_group {
            Some(g) => missing_advice(g.attributes@, p.attributes@),
            None => seq![],
        },
        Sample::HistogramDataPoint(p) => match registry_group {
            Some(g) => missing_advice(g.attributes@, p.attributes@),
            None => seq![],
        },
        _ => seq![],
    }
}

fn attribute_type_to_advice(observed: PrimitiveOrArrayType, declared: &AttributeType) -> (r: Vec<
    Advice,
>)
    ensures
        advice_models(r@) == attribute_type_advice(observed, *declared),
{
    let expected = match declared {
        AttributeType::PrimitiveOrArray(p) => *p,
        AttributeType::Template(t) => t.primitive(),
        AttributeType::Enum { .. } => {
            // An enum takes either string or int values.
            if observed != PrimitiveOrArrayType::String && observed != PrimitiveOrArrayType::Int {
                let r = vec![
                    Advice::text(
                        "type_mismatch",
                        observed.name(),
                        "Type should be `string` or `int`".to_owned(),
                        AdviceLevel::Violation,
                    ),
                ];
                assert(advice_models(r@) =~= attribute_type_advice(observed, *declared));
                return r;
            } else {
                let r: Vec<Advice> = Vec::new();
                assert(advice_models(r@) =~= attribute_type_advice(observed, *declared));
                return r;
            }
        },
    };
    let mut r: Vec<Advice> = Vec::new();
    if !observed.is_compatible(&expected) {
        r.push(
            Advice::text(
                "type_mismatch",
                observed.name(),
                should_be("Type", expected.name()),
                AdviceLevel::Violation,
            ),
        );
    }
    assert(advice_models(r@) =~= attribute_type_advice(observed, *declared));
    r
}

fn metric_to_advice(m: &SampleMetric, g: &ResolvedGroup) -> (r: Vec<Advice>)
    ensures
        advice_models(r@) == instrument_advice(*m, *g) + unit_advice(*m, *g),
{
    let mut advice_list: Vec<Advice> = Vec::new();
    match &m.instrument {
        SampleInstrument::Unsupported(name) => {
            advice_list.push(
                Advice::text(
                    "unsupported_instrument",
                    name.clone(),
                    "Instrument is not supported".to_owned(),
                    AdviceLevel::Violation,
                ),
            );
        },
        SampleInstrument::Supported(observed) => {
            if let Some(expected) = &g.instrument {
                if *expected != *observed {
                    advice_list.push(
                        Advice::text(
                            "instrument_mismatch",
                            observed.name(),
                            should_be("Instrument", expected.name()),
                            AdviceLevel::Violation,
                        ),
                    );
                }
            }
        },
    }
    assert(advice_models(advice_list@) =~= instrument_advice(*m, *g));
    let ghost first = advice_list@;
    if let Some(expected) = &g.unit {
        if *expected != m.unit {
            advice_list.push(
                Advice::text(
                    "unit_mismatch",
                    m.unit.clone(),
                    should_be("Unit", expected.clone()),
                    AdviceLevel::Violation,
                ),
            );
        }
    }
    assert(advice_models(advice_list@) =~= advice_models(first) + unit_advice(*m, *g));
    advice_list
}

/// An advisor that checks observed types, instruments, units and the
/// presence of registry attributes on data points.
pub struct TypeAdvisor;

impl Advisor for TypeAdvisor {
    fn advise(
        &mut self,
        sample: &Sample,
        registry_attribute: Option<Rc<Attribute>>,
        registry_group: Option<Rc<ResolvedGroup>>,
    ) -> (r: Result<Vec<Advice>, Error>)
        ensures
            r matches Ok(v) && advice_models(v@) == type_advice(*sample, registry_attribute, registry_group),
    {
        match sample {
            Sample::Attribute(sample_attribute) => {
                // Advice only where the attribute matched and its type was observed.
                match (registry_attribute, sample_attribute.attr_type) {
                    (Some(semconv_attribute), Some(attribute_type)) => Ok(
                        attribute_type_to_advice(attribute_type, &semconv_attribute.attr_type),
                    ),
                    _ => Ok(Vec::new()),
                }
            },
            Sample::Metric(sample_metric) => {
                if let Some(semconv_metric) = registry_group {
                    Ok(metric_to_advice(sample_metric, &semconv_metric))
                } else {
                    Ok(Vec::new())
                }
            },
            Sample::NumberDataPoint(point) => {
                if let Some(semconv_metric) = registry_group {
                    Ok(check_attributes(semconv_metric.attributes.as_slice(), point.attributes.as_slice()))
                } else {
                    Ok(Vec::new())
                }
            },
            Sample::HistogramDataPoint(point) => {
                if let Some(semconv_metric) = registry_group {
                    Ok(check_attributes(semconv_metric.attributes.as_slice(), point.attributes.as_slice()))
                } else {
                    Ok(Vec::new())
                }
            },
            _ => Ok(Vec::new()),
        }
    }
}

/// Whether the enum member `member` holds the observed `value`, read with
/// the observed type: int members against an int value, string members
/// against a string value.
pub open spec fn member_matches(
    member: EnumEntry,
    observed_type: PrimitiveOrArrayType,
    value: JsonModel,
) -> bool {
    match observed_type {
        PrimitiveOrArrayType::Int => match (member.value, value) {
            (ValueSpec::Int(m), JsonModel::Int(v)) => m as int == v,
            _ => false,
        },
        PrimitiveOrArrayType::String => match (member.value, value) {
            (ValueSpec::String(m), JsonModel::Str(v)) => m@ == v,
            _ => false,
        },
        _ => false,
    }
}

/// The advice for an observed value that no enum member holds.
pub open spec fn undefined_variant(value: JsonModel) -> AdviceModel {
    AdviceModel {
        advice_type: "undefined_enum_variant"@,
        value,
        message: "Is not a defined variant."@,
        advice_level: AdviceLevel::Information,
    }
}

/// What the enum advisor reports for an observed value and type against the
/// members of an enum.
pub open spec fn enum_value_advice(
    members: Seq<EnumEntry>,
    observed_type: PrimitiveOrArrayType,
    value: JsonModel,
) -> Seq<AdviceModel> {
    if observed_type != PrimitiveOrArrayType::Int && observed_type
        != PrimitiveOrArrayType::String {
        seq![]
    } else if exists|i: int|
        0 <= i < members.len() && member_matches(#[trigger] members[i], observed_type, value) {
        seq![]
    } else {
        seq![undefined_variant(value)]
    }
}

/// What the enum advisor reports on a sample and its matches.
pub open spec fn enum_advice(sample: Sample, registry_attribute: Option<Rc<Attribute>>) -> Seq<
    AdviceModel,
> {
    match sample {
        Sample::Attribute(s) => match (registry_attribute, s.value, s.attr_type) {
            (Some(a), Some(v), Some(t)) => match a.attr_type {
                AttributeType::Enum { members } => enum_value_advice(members@, t, v@),
                _ => seq![],
            },
            _ => seq![],
        },
        _ => seq![],
    }
}

fn member_holds(member: &EnumEntry, observed_type: PrimitiveOrArrayType, value: &JsonValue) -> (r:
    bool)
    ensures
        r == member_matches(*member, observed_type, value@),
{
    match observed_type {
        PrimitiveOrArrayType::Int => match (&member.value, value) {
            (ValueSpec::Int(m), JsonValue::Int(v)) => *m == *v,
            _ => false,
        },
        PrimitiveOrArrayType::String => match (&member.value, value) {
            (ValueSpec::String(m), JsonValue::Str(v)) => *m == *v,
            _ => false,
        },
        _ => false,
    }
}

fn enum_to_advice(
    members: &Vec<EnumEntry>,
    observed_type: PrimitiveOrArrayType,
    value: &JsonValue,
) -> (r: Vec<Advice>)
    ensures
        advice_models(r@) == enum_value_advice(members@, observed_type, value@),
{
    if observed_type != PrimitiveOrArrayType::Int && observed_type != PrimitiveOrArrayType::String {
        // Any other type is the type advisor's to report.
        let r: Vec<Advice> = Vec::new();
        assert(advice_models(r@) =~= enum_value_advice(members@, observed_type, value@));
        return r;
    }
    let mut i: usize = 0;
    while i < members.len()
        invariant
            i <= members.len(),
            forall|j: int|
                0 <= j < i ==> !member_matches(#[trigger] members@[j], observed_type, value@),
        decreases members.len() - i,
    {
        if member_holds(&members[i], observed_type, value) {
            let r: Vec<Advice> = Vec::new();
            assert(advice_models(r@) =~= enum_value_advice(members@, observed_type, value@));
            return r;
        }
        i = i + 1;
    }
    let r = vec![
        Advice {
            advice_type: "undefined_enum_variant".to_owned(),
            value: value.duplicate(),
            message: "Is not a defined variant.".to_owned(),
            advice_level: AdviceLevel::Information,
        },
    ];
    assert(advice_models(r@) =~= enum_value_advice(members@, observed_type, value@));
    r
}

/// An advisor that reports observed values that are not a defined variant of
/// the matched enum.
pub struct EnumAdvisor;

impl Advisor for EnumAdvisor {
    fn advise(
        &mut self,
        sample: &Sample,
        registry_attribute: Option<Rc<Attribute>>,
        _registry_group: Option<Rc<ResolvedGroup>>,
    ) -> (r: Result<Vec<Advice>, Error>)
        ensures
            r matches Ok(v) && advice_models(v@) == enum_advice(*sample, registry_attribute),
    {
        match sample {
            Sample::Attribute(sample_attribute) => {
                // Advice only where the attribute matched and its value and type were observed.
                match (registry_attribute, &sample_attribute.value, sample_attribute.attr_type) {
                    (Some(semconv_attribute), Some(attribute_value), Some(attribute_type)) => {
                        match &semconv_attribute.attr_type {
                            AttributeType::Enum { members } => Ok(
                                enum_to_advice(members, attribute_type, attribute_value),
                            ),
                            _ => Ok(Vec::new()),
                        }
                    },
                    _ => Ok(Vec::new()),
                }
            },
            _ => Ok(Vec::new()),
        }
    }
}

} // verus!
