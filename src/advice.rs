//! The advice model: one finding with its severity.

use vstd::prelude::*;
use crate::json::{JsonMember, JsonModel, JsonValue};

verus! {

/// Severity of one piece of advice, ordered from least to most severe.
#[derive(Clone, Copy, Debug, PartialEq, Eq, Structural, PartialOrd, Ord, Hash)]
pub enum AdviceLevel {
    Information,
    Improvement,
    Violation,
}

impl AdviceLevel {
    /// The wire name of the level.
    pub open spec fn spec_name(self) -> Seq<char> {
        match self {
            AdviceLevel::Information => "information"@,
            AdviceLevel::Improvement => "improvement"@,
            AdviceLevel::Violation => "violation"@,
        }
    }

    pub fn name(&self) -> (r: String)
        ensures
            r@ == self.spec_name(),
    {
        match self {
            AdviceLevel::Information => "information".to_owned(),
            AdviceLevel::Improvement => "improvement".to_owned(),
            AdviceLevel::Violation => "violation".to_owned(),
        }
    }
}

/// One finding of an advisor.
#[derive(Debug, PartialEq)]
pub struct Advice {
    /// A short stable identifier such as `type_mismatch`.
    pub advice_type: String,
    /// The offending or expected value.
    pub value: JsonValue,
    /// A human-readable explanation.
    pub message: String,
    pub advice_level: AdviceLevel,
}

/// The mathematical model of an [`Advice`].
pub struct AdviceModel {
    pub advice_type: Seq<char>,
    pub value: JsonModel,
    pub message: Seq<char>,
    pub advice_level: AdviceLevel,
}

impl View for Advice {
    type V = AdviceModel;

    open spec fn view(&self) -> AdviceModel {
        AdviceModel {
            advice_type: self.advice_type@,
            value: self.value@,
            message: self.message@,
            advice_level: self.advice_level,
        }
    }
}

/// The models of a sequence of advice.
pub open spec fn advice_models(v: Seq<Advice>) -> Seq<AdviceModel> {
    v.map_values(|a: Advice| a@)
}

/// An advice model whose value is a string.
pub open spec fn text_advice(
    advice_type: Seq<char>,
    value: Seq<char>,
    message: Seq<char>,
    advice_level: AdviceLevel,
) -> AdviceModel {
    AdviceModel { advice_type, value: JsonModel::Str(value), message, advice_level }
}

impl Advice {
    /// A copy of the advice with the same model.
    pub fn duplicate(&self) -> (r: Advice)
        ensures
            r@ == self@,
    {
        Advice {
            advice_type: self.advice_type.clone(),
            value: self.value.duplicate(),
            message: self.message.clone(),
            advice_level: self.advice_level,
        }
    }

    /// An advice whose value is the string `value`.
    pub fn text(advice_type: &str, value: String, message: String, advice_level: AdviceLevel) -> (r:
        Advice)
        ensures
            r@ == text_advice(advice_type@, value@, message@, advice_level),
    {
        Advice { advice_type: advice_type.to_owned(), value: JsonValue::Str(value), message, advice_level }
    }
}

/// The level named `name` on the wire, if any.
pub open spec fn level_of_name(name: Seq<char>) -> Option<AdviceLevel> {
    if name == "violation"@ {
        Some(AdviceLevel::Violation)
    } else if name == "improvement"@ {
        Some(AdviceLevel::Improvement)
    } else if name == "information"@ {
        Some(AdviceLevel::Information)
    } else {
        None
    }
}

/// The wire shape of an advice: an object with the members `advice_type`,
/// `value`, `message` and `advice_level`.
pub open spec fn wire_of(a: AdviceModel) -> JsonModel {
    JsonModel::Object(
        seq![
            ("advice_type"@, JsonModel::Str(a.advice_type)),
            ("value"@, a.value),
            ("message"@, JsonModel::Str(a.message)),
            ("advice_level"@, JsonModel::Str(a.advice_level.spec_name())),
        ],
    )
}

/// The value of the first member named `key`, if any.
pub open spec fn member_value(members: Seq<(Seq<char>, JsonModel)>, key: Seq<char>) -> Option<
    JsonModel,
>
    decreases members.len(),
{
    if members.len() == 0 {
        None
    } else if members[0].0 == key {
        Some(members[0].1)
    } else {
        member_value(members.drop_first(), key)
    }
}

/// The advice that a wire value describes, if it has the wire shape.
pub open spec fn advice_of_wire(j: JsonModel) -> Option<AdviceModel> {
    match j {
        JsonModel::Object(m) => match (
            member_value(m, "advice_type"@),
            member_value(m, "value"@),
            member_value(m, "message"@),
            member_value(m, "advice_level"@),
        ) {
            (
                Some(JsonModel::Str(advice_type)),
                Some(value),
                Some(JsonModel::Str(message)),
                Some(JsonModel::Str(level)),
            ) => match level_of_name(level) {
                Some(advice_level) => Some(AdviceModel { advice_type, value, message, advice_level }),
                None => None,
            },
            _ => None,
        },
        _ => None,
    }
}

fn find_member<'a>(members: &'a Vec<JsonMember>, key: &str) -> (r: Option<&'a JsonValue>)
    ensures
        member_value(JsonValue::Object(*members)@->Object_0, key@) == match r {
            Some(v) => Some(v@),
            None => None::<JsonModel>,
        },
{
    let wanted = key.to_owned();
    let ghost all = JsonValue::Object(*members)@->Object_0;
    assert(all.subrange(0, all.len() as int) =~= all);
    let mut i: usize = 0;
    while i < members.len()
        invariant
            i <= members.len(),
            all.len() == members.len(),
            forall|j: int| 0 <= j < members.len() ==> #[trigger] all[j] == (members@[j].key@, members@[j].value@),
            wanted@ == key@,
            all == JsonValue::Object(*members)@->Object_0,
            member_value(all, key@) == member_value(all.subrange(i as int, all.len() as int), key@),
        decreases members.len() - i,
    {
        let ghost rest = all.subrange(i as int, all.len() as int);
        assert(rest.drop_first() =~= all.subrange(i + 1, all.len() as int));
        assert(rest[0] == all[i as int]);
        if members[i].key == wanted {
            assert(member_value(rest, key@) == Some(members@[i as int].value@));
            let found = &members[i].value;
            assert(member_value(all, key@) == Some(found@));
            return Some(found);
        }
        i = i + 1;
    }
    None
}

fn level_from_name(name: &String) -> (r: Option<AdviceLevel>)
    ensures
        r == level_of_name(name@),
{
    if *name == "violation".to_owned() {
        Some(AdviceLevel::Violation)
    } else if *name == "improvement".to_owned() {
        Some(AdviceLevel::Improvement)
    } else if *name == "information".to_owned() {
        Some(AdviceLevel::Information)
    } else {
        None
    }
}

impl Advice {
    /// The advice in its wire shape.
    pub fn to_wire(&self) -> (r: JsonValue)
        ensures
            r@ == wire_of(self@),
    {
        let advice_type = self.advice_type.clone();
        let message = self.message.clone();
        assert(advice_type@ == self.advice_type@ && message@ == self.message@);
        let level = JsonValue::Str(self.advice_level.name());
        assert(level@ == JsonModel::Str(self.advice_level.spec_name()));
        let advice_type = JsonValue::Str(advice_type);
        let message = JsonValue::Str(message);
        assert(advice_type@ == JsonModel::Str(self.advice_type@));
        assert(message@ == JsonModel::Str(self.message@));
        let members = vec![
            JsonMember { key: "advice_type".to_owned(), value: advice_type },
            JsonMember { key: "value".to_owned(), value: self.value.duplicate() },
            JsonMember { key: "message".to_owned(), value: message },
            JsonMember { key: "advice_level".to_owned(), value: level },
        ];
        let r = JsonValue::Object(members);
        let ghost m = r@->Object_0;
        assert(m.len() == 4);
        assert(m[0] == ("advice_type"@, JsonModel::Str(self.advice_type@)));
        assert(m[1] == ("value"@, self.value@));
        assert(m[2] == ("message"@, JsonModel::Str(self.message@)));
        assert(m[3] == ("advice_level"@, JsonModel::Str(self.advice_level.spec_name())));
        assert(m =~= wire_of(self@)->Object_0);
        r
    }

    /// The advice that a wire value describes; `None` where the value does
    /// not have the wire shape.
    pub fn from_wire(j: &JsonValue) -> (r: Option<Advice>)
        ensures
            advice_of_wire(j@) == match r {
                Some(a) => Some(a@),
                None => None::<AdviceModel>,
            },
    {
        match j {
            JsonValue::Object(members) => {
                let advice_type = find_member(members, "advice_type");
                let value = find_member(members, "value");
                let message = find_member(members, "message");
                let level = find_member(members, "advice_level");
                match (advice_type, value, message, level) {
                    (
                        Some(JsonValue::Str(advice_type)),
                        Some(value),
                        Some(JsonValue::Str(message)),
                        Some(JsonValue::Str(level)),
                    ) => match level_from_name(level) {
                        Some(advice_level) => Some(
                            Advice {
                                advice_type: advice_type.clone(),
                                value: value.duplicate(),
                                message: message.clone(),
                                advice_level,
                            },
                        ),
                        None => None,
                    },
                    _ => None,
                }
            },
            _ => None,
        }
    }
}

/// Writing an advice in its wire shape and reading it back gives the same
/// type, value, message and level.
pub proof fn wire_round_trip(a: Advice)
    ensures
        advice_of_wire(wire_of(a@)) == Some(a@),
{
    reveal_strlit("advice_type");
    reveal_strlit("value");
    reveal_strlit("message");
    reveal_strlit("advice_level");
    reveal_strlit("violation");
    reveal_strlit("improvement");
    reveal_strlit("information");
    let m = wire_of(a@)->Object_0;
    let m1 = m.drop_first();
    let m2 = m1.drop_first();
    let m3 = m2.drop_first();
    assert(m1[0] == m[1]);
    assert(m2[0] == m[2]);
    assert(m3[0] == m[3]);
    assert("advice_type"@.len() == 11);
    assert("value"@.len() == 5);
    assert("message"@.len() == 7);
    assert("advice_level"@.len() == 12);
    assert("violation"@.len() == 9);
    assert("improvement"@.len() == 11);
    assert("improvement"@[1] != "information"@[1]);
    assert(member_value(m, "advice_type"@) == Some(JsonModel::Str(a.advice_type@)));
    assert(member_value(m1, "value"@) == Some(a.value@));
    assert(member_value(m, "value"@) == Some(a.value@));
    assert(member_value(m2, "message"@) == Some(JsonModel::Str(a.message@)));
    assert(member_value(m1, "message"@) == Some(JsonModel::Str(a.message@)));
    assert(member_value(m, "message"@) == Some(JsonModel::Str(a.message@)));
    let level = JsonModel::Str(a.advice_level.spec_name());
    assert(member_value(m3, "advice_level"@) == Some(level));
    assert(member_value(m2, "advice_level"@) == Some(level));
    assert(member_value(m1, "advice_level"@) == Some(level));
    assert(member_value(m, "advice_level"@) == Some(level));
    assert(level_of_name(a.advice_level.spec_name()) == Some(a.advice_level));
}

} // verus!
