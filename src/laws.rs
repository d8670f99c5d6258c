//! Laws that relate the advisors' results across all inputs.

use vstd::prelude::*;
use std::rc::Rc;
use crate::advice::{AdviceLevel, AdviceModel};
use crate::advisors::{
    deprecated_advice, is_observed, missing_advice, presence_advice, stability_advice, type_advice,
};
use crate::sample::{Sample, SampleAttribute};
use crate::semconv::{Attribute, AttributeType, PrimitiveOrArrayType, ResolvedGroup};

verus! {

/// The registry attributes of `schema` that no observed attribute names.
pub open spec fn unobserved(schema: Seq<Attribute>, observed: Seq<SampleAttribute>) -> Seq<
    Attribute,
> {
    schema.filter(|a: Attribute| !is_observed(observed, a.name@))
}

/// The presence check reports exactly the registry attributes that are not
/// observed: one advice for each of them, in registry order, and none for an
/// observed one; so the number of advice items is the number of unobserved
/// registry attributes.
pub proof fn presence_reports_exactly_the_missing(
    schema: Seq<Attribute>,
    observed: Seq<SampleAttribute>,
)
    ensures
        missing_advice(schema, observed) == unobserved(schema, observed).map_values(
            |a: Attribute| presence_advice(a),
        ),
        missing_advice(schema, observed).len() == unobserved(schema, observed).len(),
    decreases schema.len(),
{
    reveal(Seq::filter);
    if schema.len() > 0 {
        presence_reports_exactly_the_missing(schema.drop_last(), observed);
        let earlier = unobserved(schema.drop_last(), observed);
        if !is_observed(observed, schema.last().name@) {
            assert(unobserved(schema, observed) == earlier.push(schema.last()));
            assert(earlier.push(schema.last()).map_values(|a: Attribute| presence_advice(a))
                =~= earlier.map_values(|a: Attribute| presence_advice(a)).push(
                presence_advice(schema.last()),
            ));
        } else {
            assert(unobserved(schema, observed) == earlier);
        }
    } else {
        assert(unobserved(schema, observed).map_values(|a: Attribute| presence_advice(a)) =~= seq![]);
    }
}

/// A missing registry attribute is reported with the type and level that its
/// requirement level fixes, for each of the four levels.
pub proof fn requirement_level_fixes_severity(a: Attribute, observed: Seq<SampleAttribute>)
    requires
        !is_observed(observed, a.name@),
    ensures
        missing_advice(seq![a], observed).len() == 1,
        missing_advice(seq![a], observed)[0].value == crate::json::JsonModel::Str(a.name@),
        a.requirement_level is Required ==> missing_advice(seq![a], observed)[0].advice_type
            == "required_attribute_not_present"@ && missing_advice(seq![a], observed)[0].advice_level
            == AdviceLevel::Violation,
        a.requirement_level is Recommended ==> missing_advice(seq![a], observed)[0].advice_type
            == "recommended_attribute_not_present"@ && missing_advice(
            seq![a],
            observed,
        )[0].advice_level == AdviceLevel::Improvement,
        a.requirement_level is OptIn ==> missing_advice(seq![a], observed)[0].advice_type
            == "opt_in_attribute_not_present"@ && missing_advice(seq![a], observed)[0].advice_level
            == AdviceLevel::Information,
        a.requirement_level is ConditionallyRequired ==> missing_advice(
            seq![a],
            observed,
        )[0].advice_type == "conditionally_required_attribute_not_present"@ && missing_advice(
            seq![a],
            observed,
        )[0].advice_level == AdviceLevel::Information,
{
    assert(seq![a].drop_last() =~= Seq::<Attribute>::empty());
    assert(seq![a].last() == a);
    assert(missing_advice(Seq::<Attribute>::empty(), observed) =~= Seq::<AdviceModel>::empty());
    assert(missing_advice(seq![a], observed) =~= seq![presence_advice(a)]);
}

/// An attribute declared with type `any` accepts every observed type: the
/// type advisor reports nothing on it.
pub proof fn any_type_accepts_every_observed_type(
    sample: SampleAttribute,
    registry_attribute: Rc<Attribute>,
    registry_group: Option<Rc<ResolvedGroup>>,
)
    requires
        registry_attribute.attr_type == AttributeType::PrimitiveOrArray(PrimitiveOrArrayType::Any),
    ensures
        type_advice(Sample::Attribute(sample), Some(registry_attribute), registry_group)
            == Seq::<AdviceModel>::empty(),
{
    assert(type_advice(Sample::Attribute(sample), Some(registry_attribute), registry_group)
        =~= Seq::<AdviceModel>::empty());
}

/// Without a registry match the deprecation and stability advisors report
/// nothing, whatever the sample.
pub proof fn no_match_no_lifecycle_advice(sample: Sample)
    ensures
        deprecated_advice(sample, None, None) == Seq::<AdviceModel>::empty(),
        stability_advice(sample, None, None) == Seq::<AdviceModel>::empty(),
{
    assert(deprecated_advice(sample, None, None) =~= Seq::<AdviceModel>::empty());
    assert(stability_advice(sample, None, None) =~= Seq::<AdviceModel>::empty());
}

} // verus!
