use std::collections::HashMap;
use std::rc::Rc;

use weaver_live_check::advice::{Advice, AdviceLevel};
use weaver_live_check::advisors::{
    check_attributes, Advisor, DeprecatedAdvisor, EnumAdvisor, StabilityAdvisor, TypeAdvisor,
};
use weaver_live_check::json::JsonValue;
use weaver_live_check::sample::{
    Sample, SampleAttribute, SampleHistogramDataPoint, SampleInstrument, SampleMetric,
    SampleNumberDataPoint, SampleOther,
};
use weaver_live_check::semconv::{
    Attribute, AttributeType, Deprecated, EnumEntry, InstrumentSpec, PrimitiveOrArrayType,
    RequirementLevel, ResolvedGroup, Stability, TemplateType, ValueSpec,
};

fn create_test_attribute(name: &str, requirement_level: RequirementLevel) -> Attribute {
    Attribute {
        name: name.to_owned(),
        attr_type: AttributeType::PrimitiveOrArray(PrimitiveOrArrayType::String),
        requirement_level,
        brief: "test attribute".to_owned(),
        stability: None,
        deprecated: None,
    }
}

fn create_sample_attribute(name: &str) -> SampleAttribute {
    SampleAttribute {
        name: name.to_owned(),
        value: None,
        attr_type: None,
    }
}

fn typed_attribute(name: &str, attr_type: AttributeType) -> Attribute {
    Attribute {
        name: name.to_owned(),
        attr_type,
        requirement_level: RequirementLevel::Required,
        brief: String::new(),
        stability: None,
        deprecated: None,
    }
}

fn observed(name: &str, value: Option<JsonValue>, t: Option<PrimitiveOrArrayType>) -> Sample {
    Sample::Attribute(SampleAttribute {
        name: name.to_owned(),
        value,
        attr_type: t,
    })
}

fn metric_group(instrument: Option<InstrumentSpec>, unit: Option<&str>) -> ResolvedGroup {
    ResolvedGroup {
        id: "metric.test".to_owned(),
        attributes: vec![],
        instrument,
        unit: unit.map(|u| u.to_owned()),
        stability: None,
        deprecated: None,
    }
}

fn metric(instrument: SampleInstrument, unit: &str) -> Sample {
    Sample::Metric(SampleMetric {
        name: "test".to_owned(),
        instrument,
        unit: unit.to_owned(),
        number_data_points: vec![],
        histogram_data_points: vec![],
    })
}

fn str_value(s: &str) -> JsonValue {
    JsonValue::Str(s.to_owned())
}

#[test]
fn test_check_attributes_all_requirement_levels() {
    let semconv_attributes = vec![
        create_test_attribute("required_attr", RequirementLevel::Required),
        create_test_attribute("recommended_basic", RequirementLevel::Recommended { text: None }),
        create_test_attribute(
            "recommended_text",
            RequirementLevel::Recommended {
                text: Some("This is recommended".to_owned()),
            },
        ),
        create_test_attribute("opt_in_basic", RequirementLevel::OptIn { text: None }),
        create_test_attribute(
            "opt_in_text",
            RequirementLevel::OptIn {
                text: Some("This is opt-in".to_owned()),
            },
        ),
        create_test_attribute(
            "conditional",
            RequirementLevel::ConditionallyRequired {
                text: "Required when X".to_owned(),
            },
        ),
    ];

    // Provide no attributes
    let sample_attributes: Vec<SampleAttribute> = vec![];

    let advice = check_attributes(&semconv_attributes, &sample_attributes);
    assert_eq!(advice.len(), 6);

    // Verify each advice type and level
    let advice_map: HashMap<_, _> = advice
        .iter()
        .map(|a| (a.advice_type.clone(), a.advice_level))
        .collect();

    assert_eq!(
        advice_map.get("recommended_attribute_not_present"),
        Some(&AdviceLevel::Improvement)
    );
    assert_eq!(
        advice_map.get("opt_in_attribute_not_present"),
        Some(&AdviceLevel::Information)
    );
    assert_eq!(
        advice_map.get("conditionally_required_attribute_not_present"),
        Some(&AdviceLevel::Information)
    );
    assert_eq!(
        advice_map.get("required_attribute_not_present"),
        Some(&AdviceLevel::Violation)
    );

    // Count advice levels
    let violations = advice
        .iter()
        .filter(|a| a.advice_level == AdviceLevel::Violation)
        .count();
    let improvements = advice
        .iter()
        .filter(|a| a.advice_level == AdviceLevel::Improvement)
        .count();
    let information = advice
        .iter()
        .filter(|a| a.advice_level == AdviceLevel::Information)
        .count();

    assert_eq!(violations, 1);
    assert_eq!(improvements, 2);
    assert_eq!(information, 3);
}

#[test]
fn test_check_attributes_no_missing_attributes() {
    let semconv_attributes = vec![
        create_test_attribute("attr1", RequirementLevel::Required),
        create_test_attribute("attr2", RequirementLevel::Recommended { text: None }),
    ];
    let sample_attributes = vec![
        create_sample_attribute("attr1"),
        create_sample_attribute("attr2"),
    ];

    let advice = check_attributes(&semconv_attributes, &sample_attributes);
    assert!(advice.is_empty());
}

#[test]
fn presence_reports_only_missing_in_registry_order() {
    let semconv_attributes = vec![
        create_test_attribute("a", RequirementLevel::OptIn { text: None }),
        create_test_attribute("b", RequirementLevel::Required),
        create_test_attribute("c", RequirementLevel::Recommended { text: None }),
    ];
    let sample_attributes = vec![create_sample_attribute("b"), create_sample_attribute("z")];
    let advice = check_attributes(&semconv_attributes, &sample_attributes);
    assert_eq!(advice.len(), 2);
    assert_eq!(advice[0].value, str_value("a"));
    assert_eq!(advice[0].advice_type, "opt_in_attribute_not_present");
    assert_eq!(advice[0].message, "Opt-in attribute is not present");
    assert_eq!(advice[1].value, str_value("c"));
    assert_eq!(advice[1].advice_type, "recommended_attribute_not_present");
    assert_eq!(advice[1].message, "Recommended attribute is not present");
}

#[test]
fn presence_with_empty_registry_list_is_silent() {
    let sample_attributes = vec![create_sample_attribute("x")];
    assert!(check_attributes(&[], &sample_attributes).is_empty());
}

#[test]
fn each_requirement_level_gives_its_severity() {
    let cases = vec![
        (RequirementLevel::Required, "required_attribute_not_present", AdviceLevel::Violation, "Required attribute is not present"),
        (RequirementLevel::Recommended { text: Some("t".to_owned()) }, "recommended_attribute_not_present", AdviceLevel::Improvement, "Recommended attribute is not present"),
        (RequirementLevel::OptIn { text: Some("t".to_owned()) }, "opt_in_attribute_not_present", AdviceLevel::Information, "Opt-in attribute is not present"),
        (RequirementLevel::ConditionallyRequired { text: "t".to_owned() }, "conditionally_required_attribute_not_present", AdviceLevel::Information, "Conditionally required attribute is not present"),
    ];
    for (level, advice_type, advice_level, message) in cases {
        let advice = check_attributes(&[create_test_attribute("gone", level)], &[]);
        assert_eq!(advice.len(), 1);
        assert_eq!(advice[0].advice_type, advice_type);
        assert_eq!(advice[0].advice_level, advice_level);
        assert_eq!(advice[0].message, message);
        assert_eq!(advice[0].value, str_value("gone"));
    }
}

fn enum_attribute() -> Rc<Attribute> {
    Rc::new(typed_attribute(
        "status",
        AttributeType::Enum {
            members: vec![
                EnumEntry { id: "a".to_owned(), value: ValueSpec::Int(1) },
                EnumEntry { id: "b".to_owned(), value: ValueSpec::Int(2) },
            ],
        },
    ))
}

#[test]
fn enum_undefined_int_variant() {
    let sample = observed("status", Some(JsonValue::Int(3)), Some(PrimitiveOrArrayType::Int));
    let advice = EnumAdvisor.advise(&sample, Some(enum_attribute()), None).unwrap();
    assert_eq!(
        advice,
        vec![Advice {
            advice_type: "undefined_enum_variant".to_owned(),
            value: JsonValue::Int(3),
            message: "Is not a defined variant.".to_owned(),
            advice_level: AdviceLevel::Information,
        }]
    );
}

#[test]
fn enum_defined_int_variant() {
    let sample = observed("status", Some(JsonValue::Int(1)), Some(PrimitiveOrArrayType::Int));
    let advice = EnumAdvisor.advise(&sample, Some(enum_attribute()), None).unwrap();
    assert!(advice.is_empty());
}

#[test]
fn enum_string_variants() {
    let attribute = Rc::new(typed_attribute(
        "kind",
        AttributeType::Enum {
            members: vec![EnumEntry { id: "x".to_owned(), value: ValueSpec::String("x".to_owned()) }],
        },
    ));
    let good = observed("kind", Some(str_value("x")), Some(PrimitiveOrArrayType::String));
    assert!(EnumAdvisor.advise(&good, Some(attribute.clone()), None).unwrap().is_empty());
    let bad = observed("kind", Some(str_value("y")), Some(PrimitiveOrArrayType::String));
    let advice = EnumAdvisor.advise(&bad, Some(attribute.clone()), None).unwrap();
    assert_eq!(advice.len(), 1);
    assert_eq!(advice[0].value, str_value("y"));
    // A value that is not a string under a string type matches no member.
    let mismatched = observed("kind", Some(JsonValue::Int(1)), Some(PrimitiveOrArrayType::String));
    assert_eq!(EnumAdvisor.advise(&mismatched, Some(attribute.clone()), None).unwrap().len(), 1);
    // Other observed types are left to the type advisor.
    let other = observed("kind", Some(JsonValue::Bool(true)), Some(PrimitiveOrArrayType::Boolean));
    assert!(EnumAdvisor.advise(&other, Some(attribute), None).unwrap().is_empty());
}

#[test]
fn enum_needs_match_value_and_type() {
    let no_value = observed("status", None, Some(PrimitiveOrArrayType::Int));
    assert!(EnumAdvisor.advise(&no_value, Some(enum_attribute()), None).unwrap().is_empty());
    let no_type = observed("status", Some(JsonValue::Int(3)), None);
    assert!(EnumAdvisor.advise(&no_type, Some(enum_attribute()), None).unwrap().is_empty());
    let some = observed("status", Some(JsonValue::Int(3)), Some(PrimitiveOrArrayType::Int));
    assert!(EnumAdvisor.advise(&some, None, None).unwrap().is_empty());
}

#[test]
fn type_any_accepts_every_type() {
    let attribute = Rc::new(typed_attribute("x", AttributeType::PrimitiveOrArray(PrimitiveOrArrayType::Any)));
    let all = [
        PrimitiveOrArrayType::Boolean,
        PrimitiveOrArrayType::Int,
        PrimitiveOrArrayType::Double,
        PrimitiveOrArrayType::String,
        PrimitiveOrArrayType::Any,
        PrimitiveOrArrayType::Strings,
        PrimitiveOrArrayType::Ints,
        PrimitiveOrArrayType::Doubles,
        PrimitiveOrArrayType::Booleans,
    ];
    for t in all {
        let sample = observed("x", None, Some(t));
        assert!(TypeAdvisor.advise(&sample, Some(attribute.clone()), None).unwrap().is_empty());
    }
}

#[test]
fn type_mismatch_reports_expected_type() {
    let attribute = Rc::new(typed_attribute("x", AttributeType::PrimitiveOrArray(PrimitiveOrArrayType::Ints)));
    let sample = observed("x", None, Some(PrimitiveOrArrayType::Int));
    let advice = TypeAdvisor.advise(&sample, Some(attribute), None).unwrap();
    assert_eq!(
        advice,
        vec![Advice {
            advice_type: "type_mismatch".to_owned(),
            value: str_value("int"),
            message: "Type should be `int[]`".to_owned(),
            advice_level: AdviceLevel::Violation,
        }]
    );
}

#[test]
fn type_template_reduces_to_primitive() {
    let attribute = Rc::new(typed_attribute("x", AttributeType::Template(TemplateType::Booleans)));
    let ok = observed("x", None, Some(PrimitiveOrArrayType::Booleans));
    assert!(TypeAdvisor.advise(&ok, Some(attribute.clone()), None).unwrap().is_empty());
    let bad = observed("x", None, Some(PrimitiveOrArrayType::String));
    let advice = TypeAdvisor.advise(&bad, Some(attribute), None).unwrap();
    assert_eq!(advice.len(), 1);
    assert_eq!(advice[0].message, "Type should be `boolean[]`");
    assert_eq!(advice[0].value, str_value("string"));
}

#[test]
fn type_enum_accepts_string_or_int() {
    let attribute = enum_attribute();
    for t in [PrimitiveOrArrayType::String, PrimitiveOrArrayType::Int] {
        let sample = observed("status", None, Some(t));
        assert!(TypeAdvisor.advise(&sample, Some(attribute.clone()), None).unwrap().is_empty());
    }
    let sample = observed("status", None, Some(PrimitiveOrArrayType::Double));
    let advice = TypeAdvisor.advise(&sample, Some(attribute), None).unwrap();
    assert_eq!(advice.len(), 1);
    assert_eq!(advice[0].advice_type, "type_mismatch");
    assert_eq!(advice[0].value, str_value("double"));
    assert_eq!(advice[0].message, "Type should be `string` or `int`");
    assert_eq!(advice[0].advice_level, AdviceLevel::Violation);
}

#[test]
fn metric_instrument_and_unit_mismatch() {
    let group = Rc::new(metric_group(Some(InstrumentSpec::Counter), Some("ms")));
    let sample = metric(SampleInstrument::Supported(InstrumentSpec::Gauge), "s");
    let advice = TypeAdvisor.advise(&sample, None, Some(group)).unwrap();
    assert_eq!(
        advice,
        vec![
            Advice {
                advice_type: "instrument_mismatch".to_owned(),
                value: str_value("Gauge"),
                message: "Instrument should be `Counter`".to_owned(),
                advice_level: AdviceLevel::Violation,
            },
            Advice {
                advice_type: "unit_mismatch".to_owned(),
                value: str_value("s"),
                message: "Unit should be `ms`".to_owned(),
                advice_level: AdviceLevel::Violation,
            },
        ]
    );
}

#[test]
fn metric_unsupported_instrument() {
    let group = Rc::new(metric_group(Some(InstrumentSpec::Counter), Some("ms")));
    let sample = metric(SampleInstrument::Unsupported("summary".to_owned()), "ms");
    let advice = TypeAdvisor.advise(&sample, None, Some(group)).unwrap();
    assert_eq!(advice.len(), 1);
    assert_eq!(advice[0].advice_type, "unsupported_instrument");
    assert_eq!(advice[0].value, str_value("summary"));
    assert_eq!(advice[0].message, "Instrument is not supported");
}

#[test]
fn metric_matching_or_undeclared_is_silent() {
    let group = Rc::new(metric_group(Some(InstrumentSpec::Histogram), Some("s")));
    let sample = metric(SampleInstrument::Supported(InstrumentSpec::Histogram), "s");
    assert!(TypeAdvisor.advise(&sample, None, Some(group)).unwrap().is_empty());
    let open = Rc::new(metric_group(None, None));
    let sample = metric(SampleInstrument::Supported(InstrumentSpec::UpDownCounter), "By");
    assert!(TypeAdvisor.advise(&sample, None, Some(open)).unwrap().is_empty());
    assert!(TypeAdvisor.advise(&sample, None, None).unwrap().is_empty());
}

#[test]
fn data_points_check_presence() {
    let mut group = metric_group(None, None);
    group.attributes = vec![
        create_test_attribute("http.method", RequirementLevel::Required),
        create_test_attribute("http.route", RequirementLevel::OptIn { text: None }),
    ];
    let group = Rc::new(group);
    let number = Sample::NumberDataPoint(SampleNumberDataPoint {
        attributes: vec![create_sample_attribute("http.route")],
    });
    let advice = TypeAdvisor.advise(&number, None, Some(group.clone())).unwrap();
    assert_eq!(advice.len(), 1);
    assert_eq!(advice[0].advice_type, "required_attribute_not_present");
    assert_eq!(advice[0].value, str_value("http.method"));
    let histogram = Sample::HistogramDataPoint(SampleHistogramDataPoint { attributes: vec![] });
    assert_eq!(TypeAdvisor.advise(&histogram, None, Some(group)).unwrap().len(), 2);
    assert!(TypeAdvisor.advise(&histogram, None, None).unwrap().is_empty());
}

#[test]
fn deprecated_kinds_and_messages() {
    let cases = vec![
        (Deprecated::Renamed { renamed_to: "new.name".to_owned(), note: "Replaced by `new.name`.".to_owned() }, "renamed"),
        (Deprecated::Obsoleted { note: "Removed.".to_owned() }, "obsoleted"),
        (Deprecated::Uncategorized { note: "Gone.".to_owned() }, "uncategorized"),
        (Deprecated::Unspecified { note: "Old.".to_owned() }, "uncategorized"),
    ];
    for (deprecated, kind) in cases {
        let note = match &deprecated {
            Deprecated::Renamed { note, .. }
            | Deprecated::Obsoleted { note }
            | Deprecated::Uncategorized { note }
            | Deprecated::Unspecified { note } => note.clone(),
        };
        let mut attribute = typed_attribute("old", AttributeType::PrimitiveOrArray(PrimitiveOrArrayType::String));
        attribute.deprecated = Some(deprecated.clone());
        let sample = observed("old", None, None);
        let advice = DeprecatedAdvisor.advise(&sample, Some(Rc::new(attribute)), None).unwrap();
        assert_eq!(
            advice,
            vec![Advice {
                advice_type: "deprecated".to_owned(),
                value: str_value(kind),
                message: note,
                advice_level: AdviceLevel::Violation,
            }]
        );
        let mut group = metric_group(None, None);
        group.deprecated = Some(deprecated);
        let sample = metric(SampleInstrument::Supported(InstrumentSpec::Gauge), "1");
        let advice = DeprecatedAdvisor.advise(&sample, None, Some(Rc::new(group))).unwrap();
        assert_eq!(advice.len(), 1);
        assert_eq!(advice[0].value, str_value(kind));
    }
}

#[test]
fn stability_reports_unstable_only() {
    let mut attribute = typed_attribute("a", AttributeType::PrimitiveOrArray(PrimitiveOrArrayType::String));
    attribute.stability = Some(Stability::Development);
    let sample = observed("a", None, None);
    let advice = StabilityAdvisor.advise(&sample, Some(Rc::new(attribute)), None).unwrap();
    assert_eq!(
        advice,
        vec![Advice {
            advice_type: "stability".to_owned(),
            value: str_value("development"),
            message: "Is not stable.".to_owned(),
            advice_level: AdviceLevel::Improvement,
        }]
    );
    let mut stable = metric_group(None, None);
    stable.stability = Some(Stability::Stable);
    let m = metric(SampleInstrument::Supported(InstrumentSpec::Gauge), "1");
    assert!(StabilityAdvisor.advise(&m, None, Some(Rc::new(stable))).unwrap().is_empty());
    let undeclared = typed_attribute("a", AttributeType::PrimitiveOrArray(PrimitiveOrArrayType::String));
    assert!(StabilityAdvisor.advise(&sample, Some(Rc::new(undeclared)), None).unwrap().is_empty());
    let mut beta = metric_group(None, None);
    beta.stability = Some(Stability::ReleaseCandidate);
    let advice = StabilityAdvisor.advise(&m, None, Some(Rc::new(beta))).unwrap();
    assert_eq!(advice[0].value, str_value("release_candidate"));
}

#[test]
fn lifecycle_advisors_silent_without_match() {
    let samples = vec![
        observed("a", None, None),
        metric(SampleInstrument::Supported(InstrumentSpec::Gauge), "1"),
        Sample::NumberDataPoint(SampleNumberDataPoint { attributes: vec![] }),
        Sample::HistogramDataPoint(SampleHistogramDataPoint { attributes: vec![] }),
        Sample::Span(SampleOther { name: "s".to_owned() }),
        Sample::Resource(SampleOther { name: "r".to_owned() }),
    ];
    for sample in &samples {
        assert!(DeprecatedAdvisor.advise(sample, None, None).unwrap().is_empty());
        assert!(StabilityAdvisor.advise(sample, None, None).unwrap().is_empty());
    }
}

#[test]
fn unchecked_sample_kinds_get_no_advice() {
    let mut attribute = typed_attribute("a", AttributeType::PrimitiveOrArray(PrimitiveOrArrayType::Int));
    attribute.deprecated = Some(Deprecated::Obsoleted { note: "x".to_owned() });
    let attribute = Rc::new(attribute);
    let span = Sample::SpanEvent(SampleOther { name: "e".to_owned() });
    assert!(DeprecatedAdvisor.advise(&span, Some(attribute.clone()), None).unwrap().is_empty());
    assert!(TypeAdvisor.advise(&span, Some(attribute.clone()), None).unwrap().is_empty());
    assert!(EnumAdvisor.advise(&span, Some(attribute), None).unwrap().is_empty());
}
