//! The telemetry samples that advisors evaluate.

use vstd::prelude::*;
use crate::json::JsonValue;
use crate::semconv::{InstrumentSpec, PrimitiveOrArrayType};

verus! {

/// An observed attribute: its name, and its value and type where known.
#[derive(Debug, PartialEq)]
pub struct SampleAttribute {
    pub name: String,
    pub value: Option<JsonValue>,
    pub attr_type: Option<PrimitiveOrArrayType>,
}

/// The instrument of an observed metric.
#[derive(Clone, Debug, PartialEq)]
pub enum SampleInstrument {
    Supported(InstrumentSpec),
    Unsupported(String),
}

/// An observed number data point.
#[derive(Debug, PartialEq)]
pub struct SampleNumberDataPoint {
    pub attributes: Vec<SampleAttribute>,
}

/// An observed histogram data point.
#[derive(Debug, PartialEq)]
pub struct SampleHistogramDataPoint {
    pub attributes: Vec<SampleAttribute>,
}

/// An observed metric.
#[derive(Debug, PartialEq)]
pub struct SampleMetric {
    pub name: String,
    pub instrument: SampleInstrument,
    pub unit: String,
    pub number_data_points: Vec<SampleNumberDataPoint>,
    pub histogram_data_points: Vec<SampleHistogramDataPoint>,
}

/// An observed span, event, link or resource: carried through, not checked
/// by the built-in advisors.
#[derive(Debug, PartialEq)]
pub struct SampleOther {
    pub name: String,
}

/// One telemetry unit to be checked.
#[derive(Debug, PartialEq)]
pub enum Sample {
    Attribute(SampleAttribute),
    Span(SampleOther),
    SpanEvent(SampleOther),
    SpanLink(SampleOther),
    Resource(SampleOther),
    Metric(SampleMetric),
    NumberDataPoint(SampleNumberDataPoint),
    HistogramDataPoint(SampleHistogramDataPoint),
}

} // verus!
