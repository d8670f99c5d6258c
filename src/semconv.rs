//! The resolved semantic-convention entries that samples are matched to.

use vstd::prelude::*;

verus! {

/// A primitive or array attribute type.
#[derive(Clone, Copy, Debug, PartialEq, Eq, Structural)]
pub enum PrimitiveOrArrayType {
    Boolean,
    Int,
    Double,
    String,
    Any,
    Strings,
    Ints,
    Doubles,
    Booleans,
}

impl PrimitiveOrArrayType {
    /// The textual form of the type.
    pub open spec fn spec_name(self) -> Seq<char> {
        match self {
            PrimitiveOrArrayType::Boolean => "boolean"@,
            PrimitiveOrArrayType::Int => "int"@,
            PrimitiveOrArrayType::Double => "double"@,
            PrimitiveOrArrayType::String => "string"@,
            PrimitiveOrArrayType::Any => "any"@,
            PrimitiveOrArrayType::Strings => "string[]"@,
            PrimitiveOrArrayType::Ints => "int[]"@,
            PrimitiveOrArrayType::Doubles => "double[]"@,
            PrimitiveOrArrayType::Booleans => "boolean[]"@,
        }
    }

    pub fn name(&self) -> (r: String)
        ensures
            r@ == self.spec_name(),
    {
        match self {
            PrimitiveOrArrayType::Boolean => "boolean".to_owned(),
            PrimitiveOrArrayType::Int => "int".to_owned(),
            PrimitiveOrArrayType::Double => "double".to_owned(),
            PrimitiveOrArrayType::String => "string".to_owned(),
            PrimitiveOrArrayType::Any => "any".to_owned(),
            PrimitiveOrArrayType::Strings => "string[]".to_owned(),
            PrimitiveOrArrayType::Ints => "int[]".to_owned(),
            PrimitiveOrArrayType::Doubles => "double[]".to_owned(),
            PrimitiveOrArrayType::Booleans => "boolean[]".to_owned(),
        }
    }

    /// An observed value of type `self` is acceptable where `expected` is
    /// declared: the types are the same, or `expected` is `any`.
    pub open spec fn spec_is_compatible(self, expected: PrimitiveOrArrayType) -> bool {
        self == expected || expected == PrimitiveOrArrayType::Any
    }

    pub fn is_compatible(&self, expected: &PrimitiveOrArrayType) -> (r: bool)
        ensures
            r == self.spec_is_compatible(*expected),
    {
        *self == *expected || *expected == PrimitiveOrArrayType::Any
    }
}

/// The type parameter of a template attribute.
#[derive(Clone, Copy, Debug, PartialEq, Eq, Structural)]
pub enum TemplateType {
    Boolean,
    Int,
    Double,
    String,
    Any,
    Strings,
    Ints,
    Doubles,
    Booleans,
}

impl TemplateType {
    /// The primitive or array type that a template of this kind holds.
    pub open spec fn spec_primitive(self) -> PrimitiveOrArrayType {
        match self {
            TemplateType::Boolean => PrimitiveOrArrayType::Boolean,
            TemplateType::Int => PrimitiveOrArrayType::Int,
            TemplateType::Double => PrimitiveOrArrayType::Double,
            TemplateType::String => PrimitiveOrArrayType::String,
            TemplateType::Any => PrimitiveOrArrayType::Any,
            TemplateType::Strings => PrimitiveOrArrayType::Strings,
            TemplateType::Ints => PrimitiveOrArrayType::Ints,
            TemplateType::Doubles => PrimitiveOrArrayType::Doubles,
            TemplateType::Booleans => PrimitiveOrArrayType::Booleans,
        }
    }

    pub fn primitive(&self) -> (r: PrimitiveOrArrayType)
        ensures
            r == self.spec_primitive(),
    {
        match self {
            TemplateType::Boolean => PrimitiveOrArrayType::Boolean,
            TemplateType::Int => PrimitiveOrArrayType::Int,
            TemplateType::Double => PrimitiveOrArrayType::Double,
            TemplateType::String => PrimitiveOrArrayType::String,
            TemplateType::Any => PrimitiveOrArrayType::Any,
            TemplateType::Strings => PrimitiveOrArrayType::Strings,
            TemplateType::Ints => PrimitiveOrArrayType::Ints,
            TemplateType::Doubles => PrimitiveOrArrayType::Doubles,
            TemplateType::Booleans => PrimitiveOrArrayType::Booleans,
        }
    }
}

/// The literal value of an enum member.
#[derive(Clone, Debug, PartialEq)]
pub enum ValueSpec {
    Int(i64),
    String(String),
}

/// One member of an enum attribute type.
#[derive(Clone, Debug, PartialEq)]
pub struct EnumEntry {
    pub id: String,
    pub value: ValueSpec,
}

/// The declared type of a registry attribute.
#[derive(Clone, Debug, PartialEq)]
pub enum AttributeType {
    PrimitiveOrArray(PrimitiveOrArrayType),
    Template(TemplateType),
    Enum { members: Vec<EnumEntry> },
}

/// How necessary an attribute is. A `text` qualifies the level in words.
#[derive(Clone, Debug, PartialEq)]
pub enum RequirementLevel {
    Required,
    Recommended { text: Option<String> },
    OptIn { text: Option<String> },
    ConditionallyRequired { text: String },
}

/// The stability of a registry entry.
#[derive(Clone, Copy, Debug, PartialEq, Eq, Structural)]
pub enum Stability {
    Stable,
    Development,
    Deprecated,
    ReleaseCandidate,
    Alpha,
    Beta,
}

impl Stability {
    /// The textual form of the stability level.
    pub open spec fn spec_name(self) -> Seq<char> {
        match self {
            Stability::Stable => "stable"@,
            Stability::Development => "development"@,
            Stability::Deprecated => "deprecated"@,
            Stability::ReleaseCandidate => "release_candidate"@,
            Stability::Alpha => "alpha"@,
            Stability::Beta => "beta"@,
        }
    }

    pub fn name(&self) -> (r: String)
        ensures
            r@ == self.spec_name(),
    {
        match self {
            Stability::Stable => "stable".to_owned(),
            Stability::Development => "development".to_owned(),
            Stability::Deprecated => "deprecated".to_owned(),
            Stability::ReleaseCandidate => "release_candidate".to_owned(),
            Stability::Alpha => "alpha".to_owned(),
            Stability::Beta => "beta".to_owned(),
        }
    }
}

/// A deprecation marker with its description.
#[derive(Clone, Debug, PartialEq)]
pub enum Deprecated {
    Renamed { renamed_to: String, note: String },
    Obsoleted { note: String },
    Uncategorized { note: String },
    Unspecified { note: String },
}

impl Deprecated {
    /// The short classification of the deprecation; a marker without a
    /// structured reason counts as uncategorized.
    pub open spec fn spec_kind(&self) -> Seq<char> {
        match self {
            Deprecated::Renamed { .. } => "renamed"@,
            Deprecated::Obsoleted { .. } => "obsoleted"@,
            Deprecated::Uncategorized { .. } => "uncategorized"@,
            Deprecated::Unspecified { .. } => "uncategorized"@,
        }
    }

    pub fn kind(&self) -> (r: String)
        ensures
            r@ == self.spec_kind(),
    {
        match self {
            Deprecated::Renamed { .. } => "renamed".to_owned(),
            Deprecated::Obsoleted { .. } => "obsoleted".to_owned(),
            Deprecated::Uncategorized { .. } | Deprecated::Unspecified { .. } => {
                "uncategorized".to_owned()
            },
        }
    }

    /// The rendered description of the deprecation.
    pub open spec fn spec_description(&self) -> Seq<char> {
        match self {
            Deprecated::Renamed { note, .. } => note@,
            Deprecated::Obsoleted { note } => note@,
            Deprecated::Uncategorized { note } => note@,
            Deprecated::Unspecified { note } => note@,
        }
    }

    pub fn description(&self) -> (r: String)
        ensures
            r@ == self.spec_description(),
    {
        match self {
            Deprecated::Renamed { note, .. } => note.clone(),
            Deprecated::Obsoleted { note } => note.clone(),
            Deprecated::Uncategorized { note } => note.clone(),
            Deprecated::Unspecified { note } => note.clone(),
        }
    }
}

/// The kind of a metric instrument.
#[derive(Clone, Copy, Debug, PartialEq, Eq, Structural)]
pub enum InstrumentSpec {
    UpDownCounter,
    Counter,
    Gauge,
    Histogram,
}

impl InstrumentSpec {
    /// The textual form of the instrument kind.
    pub open spec fn spec_name(self) -> Seq<char> {
        match self {
            InstrumentSpec::UpDownCounter => "UpDownCounter"@,
            InstrumentSpec::Counter => "Counter"@,
            InstrumentSpec::Gauge => "Gauge"@,
            InstrumentSpec::Histogram => "Histogram"@,
        }
    }

    pub fn name(&self) -> (r: String)
        ensures
            r@ == self.spec_name(),
    {
        match self {
            InstrumentSpec::UpDownCounter => "UpDownCounter".to_owned(),
            InstrumentSpec::Counter => "Counter".to_owned(),
            InstrumentSpec::Gauge => "Gauge".to_owned(),
            InstrumentSpec::Histogram => "Histogram".to_owned(),
        }
    }
}

/// A resolved registry attribute.
#[derive(Clone, Debug, PartialEq)]
pub struct Attribute {
    pub name: String,
    pub attr_type: AttributeType,
    pub requirement_level: RequirementLevel,
    pub brief: String,
    pub stability: Option<Stability>,
    pub deprecated: Option<Deprecated>,
}

/// A resolved registry group (for metrics: the metric's definition).
#[derive(Clone, Debug, PartialEq)]
pub struct ResolvedGroup {
    pub id: String,
    pub attributes: Vec<Attribute>,
    pub instrument: Option<InstrumentSpec>,
    pub unit: Option<String>,
    pub stability: Option<Stability>,
    pub deprecated: Option<Deprecated>,
}

} // verus!
