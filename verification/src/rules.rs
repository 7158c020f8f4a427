//! The conversion rules, as one mathematical function from an event tree to
//! a value or an error.
//!
//! `convert_spec` is the root dispatcher: primitive events map one-to-one to
//! leaf cases, composite events are folded front-first, and wherever an
//! event carries a name the token registry decides between a reserved
//! reconstruction rule and the generic fallback of that call site.
use vstd::prelude::*;
use crate::decimal::decimal_of_i128;
use crate::decimal::decimal_of_u128;
use crate::error::ErrorV;
use crate::error::IntLiteral;
use crate::error::NumericKind;
use crate::event::EventV;
use crate::token::Token;
use crate::token::spec_token;
use crate::value::Constant;
use crate::value::Dir;
use crate::value::Duration;
use crate::value::Datetime;
use crate::value::EdgesV;
use crate::value::EntryV;
use crate::value::ExpressionV;
use crate::value::FunctionV;
use crate::value::GeometryV;
use crate::value::IdV;
use crate::value::ModelV;
use crate::value::Number;
use crate::value::Operator;
use crate::value::PartV;
use crate::value::RangeBoundV;
use crate::value::RangeV;
use crate::value::SubqueryV;
use crate::value::ThingV;
use crate::value::ValueV;

verus! {

/// Wrapping narrowing of an unsigned 64-bit integer into the signed
/// 64-bit numeric leaf, as a two's-complement cast.
pub open spec fn u64_wrap(n: u64) -> i64 {
    if n <= i64::MAX as u64 {
        n as i64
    } else {
        (n as int - 0x10000000000000000) as i64
    }
}

/// Every byte becomes its own numeric leaf.
pub open spec fn bytes_values(bs: Seq<u8>) -> Seq<ValueV> {
    bs.map_values(|b: u8| ValueV::Number(Number::Int(b as i64)))
}

/// The string-only sub-rule: the rule behind map keys and text-wrapped
/// payloads. Only a string or a single character is text.
pub open spec fn string_rule(e: EventV) -> Result<Seq<char>, ErrorV> {
    match e {
        EventV::Str(s) => Ok(s),
        EventV::Char(c) => Ok(seq![c]),
        _ => Err(ErrorV::ExpectedString),
    }
}

/// The four sentinel leaves, matched by case name under the sentinel token.
pub open spec fn sentinel_rule(variant: Seq<char>) -> Result<ValueV, ErrorV> {
    if variant == "None"@ {
        Ok(ValueV::Absent)
    } else if variant == "Null"@ {
        Ok(ValueV::Null)
    } else if variant == "False"@ {
        Ok(ValueV::False)
    } else if variant == "True"@ {
        Ok(ValueV::True)
    } else {
        Err(ErrorV::UnknownSentinel { variant })
    }
}

/// The constant-lookup rule under the constant token.
pub open spec fn constant_rule(variant: Seq<char>) -> Result<ValueV, ErrorV> {
    if variant == "MathE"@ {
        Ok(ValueV::Constant(Constant::MathE))
    } else if variant == "MathPi"@ {
        Ok(ValueV::Constant(Constant::MathPi))
    } else {
        Err(ErrorV::UnknownConstant { variant })
    }
}

/// The numeric reconstruction rule under the number token.
pub open spec fn number_rule(variant: Seq<char>, value: EventV) -> Result<Number, ErrorV> {
    if variant == "Int"@ {
        match value {
            EventV::I64(n) => Ok(Number::Int(n)),
            _ => Err(ErrorV::Shape),
        }
    } else if variant == "Float"@ {
        match value {
            EventV::Float(bits) => Ok(Number::Float(bits)),
            _ => Err(ErrorV::Shape),
        }
    } else if variant == "Decimal"@ {
        match value {
            EventV::Decimal(d) => Ok(Number::Decimal(d)),
            _ => Err(ErrorV::Shape),
        }
    } else {
        Err(ErrorV::Shape)
    }
}

/// A record-identifier key.
pub open spec fn id_rule(e: EventV) -> Result<IdV, ErrorV> {
    match e {
        EventV::NewtypeVariant { name: _, variant, value } => if variant == "Number"@ {
            match *value {
                EventV::I64(n) => Ok(IdV::Number(n)),
                _ => Err(ErrorV::Shape),
            }
        } else if variant == "Text"@ {
            match *value {
                EventV::Str(s) => Ok(IdV::Text(s)),
                _ => Err(ErrorV::Shape),
            }
        } else {
            Err(ErrorV::Shape)
        },
        _ => Err(ErrorV::Shape),
    }
}

/// The direction of a graph-edge set.
pub open spec fn dir_rule(e: EventV) -> Result<Dir, ErrorV> {
    match e {
        EventV::UnitVariant { name: _, variant } => if variant == "In"@ {
            Ok(Dir::In)
        } else if variant == "Out"@ {
            Ok(Dir::Out)
        } else if variant == "Both"@ {
            Ok(Dir::Both)
        } else {
            Err(ErrorV::Shape)
        },
        _ => Err(ErrorV::Shape),
    }
}

/// A binary operator.
pub open spec fn operator_rule(e: EventV) -> Result<Operator, ErrorV> {
    match e {
        EventV::UnitVariant { name: _, variant } => if variant == "Equal"@ {
            Ok(Operator::Equal)
        } else if variant == "NotEqual"@ {
            Ok(Operator::NotEqual)
        } else {
            Err(ErrorV::Shape)
        },
        _ => Err(ErrorV::Shape),
    }
}

/// One end of a record range.
pub open spec fn bound_rule(e: EventV) -> Result<RangeBoundV, ErrorV> {
    match e {
        EventV::UnitVariant { name: _, variant } => if variant == "Unbounded"@ {
            Ok(RangeBoundV::Unbounded)
        } else {
            Err(ErrorV::Shape)
        },
        EventV::NewtypeVariant { name: _, variant, value } => if variant == "Included"@ {
            match id_rule(*value) {
                Ok(id) => Ok(RangeBoundV::Included(id)),
                Err(er) => Err(er),
            }
        } else if variant == "Excluded"@ {
            match id_rule(*value) {
                Ok(id) => Ok(RangeBoundV::Excluded(id)),
                Err(er) => Err(er),
            }
        } else {
            Err(ErrorV::Shape)
        },
        _ => Err(ErrorV::Shape),
    }
}

/// One step of a path expression.
pub open spec fn part_rule(e: EventV) -> Result<PartV, ErrorV> {
    match e {
        EventV::UnitVariant { name: _, variant } => if variant == "All"@ {
            Ok(PartV::All)
        } else {
            Err(ErrorV::Shape)
        },
        EventV::NewtypeVariant { name: _, variant, value } => if variant == "Field"@ {
            match *value {
                EventV::Str(s) => Ok(PartV::Field(s)),
                _ => Err(ErrorV::Shape),
            }
        } else {
            Err(ErrorV::Shape)
        },
        _ => Err(ErrorV::Shape),
    }
}

pub open spec fn part_list_rule(s: Seq<EventV>) -> Result<Seq<PartV>, ErrorV>
    decreases s,
{
    if s.len() == 0 {
        Ok(Seq::empty())
    } else {
        match part_rule(s[0]) {
            Err(er) => Err(er),
            Ok(p) => match part_list_rule(s.subrange(1, s.len() as int)) {
                Err(er) => Err(er),
                Ok(ps) => Ok(seq![p] + ps),
            },
        }
    }
}

/// A table reference inside an edge set: a one-field wrapper around text.
pub open spec fn table_rule(e: EventV) -> Result<Seq<char>, ErrorV> {
    match e {
        EventV::NewtypeStruct { name: _, value } => match *value {
            EventV::Str(s) => Ok(s),
            _ => Err(ErrorV::Shape),
        },
        _ => Err(ErrorV::Shape),
    }
}

pub open spec fn table_list_rule(s: Seq<EventV>) -> Result<Seq<Seq<char>>, ErrorV>
    decreases s,
{
    if s.len() == 0 {
        Ok(Seq::empty())
    } else {
        match table_rule(s[0]) {
            Err(er) => Err(er),
            Ok(t) => match table_list_rule(s.subrange(1, s.len() as int)) {
                Err(er) => Err(er),
                Ok(ts) => Ok(seq![t] + ts),
            },
        }
    }
}

/// A span of time: whole seconds and nanoseconds below one billion.
pub open spec fn duration_rule(value: EventV) -> Result<Duration, ErrorV> {
    match value {
        EventV::Struct { name: _, fields } => if fields.len() == 2 && fields[0].0 == "secs"@
            && fields[1].0 == "nanos"@ {
            match (fields[0].1, fields[1].1) {
                (EventV::U64(secs), EventV::U32(nanos)) => if nanos < 1000000000 {
                    Ok(Duration { secs, nanos })
                } else {
                    Err(ErrorV::Shape)
                },
                _ => Err(ErrorV::Shape),
            }
        } else {
            Err(ErrorV::Shape)
        },
        _ => Err(ErrorV::Shape),
    }
}

/// A point in time: epoch seconds and nanoseconds below one billion.
pub open spec fn datetime_rule(value: EventV) -> Result<Datetime, ErrorV> {
    match value {
        EventV::Struct { name: _, fields } => if fields.len() == 2 && fields[0].0 == "secs"@
            && fields[1].0 == "nanos"@ {
            match (fields[0].1, fields[1].1) {
                (EventV::I64(secs), EventV::U32(nanos)) => if nanos < 1000000000 {
                    Ok(Datetime { secs, nanos })
                } else {
                    Err(ErrorV::Shape)
                },
                _ => Err(ErrorV::Shape),
            }
        } else {
            Err(ErrorV::Shape)
        },
        _ => Err(ErrorV::Shape),
    }
}

/// A unique identifier: exactly sixteen raw bytes.
pub open spec fn uuid_rule(value: EventV) -> Result<Seq<u8>, ErrorV> {
    match value {
        EventV::Bytes(bs) => if bs.len() == 16 {
            Ok(bs)
        } else {
            Err(ErrorV::Shape)
        },
        _ => Err(ErrorV::Shape),
    }
}

/// The record-identifier accumulator: a table name and a key.
pub open spec fn thing_fields_rule(fields: Seq<(Seq<char>, EventV)>) -> Result<ThingV, ErrorV> {
    if fields.len() == 2 && fields[0].0 == "tb"@ && fields[1].0 == "id"@ {
        match fields[0].1 {
            EventV::Str(tb) => match id_rule(fields[1].1) {
                Ok(id) => Ok(ThingV { tb, id }),
                Err(er) => Err(er),
            },
            _ => Err(ErrorV::Shape),
        }
    } else {
        Err(ErrorV::Shape)
    }
}

/// A record identifier carried as a named-field structure.
pub open spec fn thing_rule(e: EventV) -> Result<ThingV, ErrorV> {
    match e {
        EventV::Struct { name: _, fields } => thing_fields_rule(fields),
        _ => Err(ErrorV::Shape),
    }
}

/// The range accumulator: a table name and two bounds.
pub open spec fn range_fields_rule(fields: Seq<(Seq<char>, EventV)>) -> Result<RangeV, ErrorV> {
    if fields.len() == 3 && fields[0].0 == "tb"@ && fields[1].0 == "beg"@ && fields[2].0
        == "end"@ {
        match fields[0].1 {
            EventV::Str(tb) => match bound_rule(fields[1].1) {
                Ok(beg) => match bound_rule(fields[2].1) {
                    Ok(end) => Ok(RangeV { tb, beg, end }),
                    Err(er) => Err(er),
                },
                Err(er) => Err(er),
            },
            _ => Err(ErrorV::Shape),
        }
    } else {
        Err(ErrorV::Shape)
    }
}

/// The graph-edge-set accumulator: a direction, a source record and the
/// target tables.
pub open spec fn edges_fields_rule(fields: Seq<(Seq<char>, EventV)>) -> Result<EdgesV, ErrorV> {
    if fields.len() == 3 && fields[0].0 == "dir"@ && fields[1].0 == "from"@ && fields[2].0
        == "what"@ {
        match dir_rule(fields[0].1) {
            Ok(dir) => match thing_rule(fields[1].1) {
                Ok(from) => match fields[2].1 {
                    EventV::Sequence(items) => match table_list_rule(items) {
                        Ok(what) => Ok(EdgesV { dir, from, what }),
                        Err(er) => Err(er),
                    },
                    _ => Err(ErrorV::Shape),
                },
                Err(er) => Err(er),
            },
            Err(er) => Err(er),
        }
    } else {
        Err(ErrorV::Shape)
    }
}

/// The model accumulator: a name with a count or a version range.
pub open spec fn model_rule(variant: Seq<char>, fields: Seq<EventV>) -> Result<ModelV, ErrorV> {
    if variant == "Count"@ {
        if fields.len() == 2 {
            match (fields[0], fields[1]) {
                (EventV::Str(name), EventV::U64(n)) => Ok(ModelV::Count(name, n)),
                _ => Err(ErrorV::Shape),
            }
        } else {
            Err(ErrorV::Shape)
        }
    } else if variant == "Range"@ {
        if fields.len() == 3 {
            match (fields[0], fields[1], fields[2]) {
                (EventV::Str(name), EventV::U64(a), EventV::U64(b)) => Ok(
                    ModelV::Range(name, a, b),
                ),
                _ => Err(ErrorV::Shape),
            }
        } else {
            Err(ErrorV::Shape)
        }
    } else {
        Err(ErrorV::Shape)
    }
}

// ------------------------------------------------------------------
// The mutually recursive core.

/// Inserting into the ordered object: a later duplicate key overwrites the
/// earlier value in place, a fresh key is appended.
pub open spec fn obj_insert(
    es: Seq<(Seq<char>, ValueV)>,
    k: Seq<char>,
    v: ValueV,
) -> Seq<(Seq<char>, ValueV)>
    decreases es,
{
    if es.len() == 0 {
        seq![(k, v)]
    } else if es[0].0 == k {
        seq![(k, v)] + es.subrange(1, es.len() as int)
    } else {
        seq![es[0]] + obj_insert(es.subrange(1, es.len() as int), k, v)
    }
}

/// The root dispatcher: one event in, one value or one error out.
pub open spec fn convert_spec(e: EventV) -> Result<ValueV, ErrorV>
    decreases e, 0int,
{
    match e {
        EventV::Bool(b) => Ok(if b { ValueV::True } else { ValueV::False }),
        EventV::I8(n) => Ok(ValueV::Number(Number::Int(n as i64))),
        EventV::I16(n) => Ok(ValueV::Number(Number::Int(n as i64))),
        EventV::I32(n) => Ok(ValueV::Number(Number::Int(n as i64))),
        EventV::I64(n) => Ok(ValueV::Number(Number::Int(n))),
        EventV::I128(n) => Ok(ValueV::Number(Number::Decimal(decimal_of_i128(n)))),
        EventV::U8(n) => Ok(ValueV::Number(Number::Int(n as i64))),
        EventV::U16(n) => Ok(ValueV::Number(Number::Int(n as i64))),
        EventV::U32(n) => Ok(ValueV::Number(Number::Int(n as i64))),
        EventV::U64(n) => Ok(ValueV::Number(Number::Int(u64_wrap(n)))),
        EventV::U128(n) => Ok(ValueV::Number(Number::Decimal(decimal_of_u128(n)))),
        EventV::Float(bits) => Ok(ValueV::Number(Number::Float(bits))),
        EventV::Char(c) => Ok(ValueV::Strand(seq![c])),
        EventV::Str(s) => Ok(ValueV::Strand(s)),
        EventV::Bytes(bs) => Ok(ValueV::Array(bytes_values(bs))),
        EventV::Unit => Ok(ValueV::Absent),
        EventV::UnitStruct(_) => Ok(ValueV::Absent),
        EventV::AbsentOption => Ok(ValueV::Absent),
        EventV::PresentOption(inner) => convert_spec(*inner),
        EventV::UnitVariant { name, variant } => unit_variant_rule(name, variant),
        EventV::NewtypeStruct { name, value } => newtype_struct_rule(name, *value),
        EventV::NewtypeVariant { name, variant, value } => newtype_variant_rule(
            name,
            variant,
            *value,
        ),
        EventV::Sequence(items) => match convert_list(items) {
            Ok(vs) => Ok(ValueV::Array(vs)),
            Err(er) => Err(er),
        },
        EventV::TupleVariant { name, variant, fields } => tuple_variant_rule(
            name,
            variant,
            fields,
        ),
        EventV::Mapping(pairs) => match convert_map(pairs, Seq::empty()) {
            Ok(es) => Ok(ValueV::Object(es)),
            Err(er) => Err(er),
        },
        EventV::Struct { name, fields } => struct_rule(name, fields),
        EventV::StructVariant { name: _, variant, fields } => struct_variant_rule(
            variant,
            fields,
        ),
        EventV::Decimal(d) => Ok(ValueV::Number(Number::Decimal(d))),
    }
}

/// A named zero-field union case: the constant rule, the sentinel rule, or
/// plain text under any other name.
pub open spec fn unit_variant_rule(name: Seq<char>, variant: Seq<char>) -> Result<
    ValueV,
    ErrorV,
> {
    match spec_token(name) {
        Some(Token::Constant) => constant_rule(variant),
        Some(Token::Value) => sentinel_rule(variant),
        _ => Ok(ValueV::Strand(variant)),
    }
}

/// A named one-field wrapper: twelve reserved tokens select leaf
/// reconstruction rules; any other name is a pure pass-through.
pub open spec fn newtype_struct_rule(name: Seq<char>, value: EventV) -> Result<ValueV, ErrorV>
    decreases value, 2int,
{
    match spec_token(name) {
        Some(Token::Strand) => match string_rule(value) {
            Ok(s) => Ok(ValueV::Strand(s)),
            Err(er) => Err(er),
        },
        Some(Token::Block) => match value {
            EventV::Sequence(items) => match entry_list_rule(items) {
                Ok(es) => Ok(ValueV::Block(es)),
                Err(er) => Err(er),
            },
            _ => Err(ErrorV::Shape),
        },
        Some(Token::Duration) => match duration_rule(value) {
            Ok(d) => Ok(ValueV::Duration(d)),
            Err(er) => Err(er),
        },
        Some(Token::Future) => match value {
            EventV::Sequence(items) => match entry_list_rule(items) {
                Ok(es) => Ok(ValueV::Future(es)),
                Err(er) => Err(er),
            },
            _ => Err(ErrorV::Shape),
        },
        Some(Token::Regex) => match string_rule(value) {
            Ok(s) => Ok(ValueV::Regex(s)),
            Err(er) => Err(er),
        },
        Some(Token::Table) => match string_rule(value) {
            Ok(s) => Ok(ValueV::Table(s)),
            Err(er) => Err(er),
        },
        Some(Token::Idiom) => match value {
            EventV::Sequence(items) => match part_list_rule(items) {
                Ok(ps) => Ok(ValueV::Idiom(ps)),
                Err(er) => Err(er),
            },
            _ => Err(ErrorV::Shape),
        },
        Some(Token::Param) => match string_rule(value) {
            Ok(s) => Ok(ValueV::Param(s)),
            Err(er) => Err(er),
        },
        Some(Token::Array) => match value {
            EventV::Sequence(items) => match convert_list(items) {
                Ok(vs) => Ok(ValueV::Array(vs)),
                Err(er) => Err(er),
            },
            _ => Err(ErrorV::Shape),
        },
        Some(Token::Object) => match value {
            EventV::Mapping(pairs) => match convert_map(pairs, Seq::empty()) {
                Ok(es) => Ok(ValueV::Object(es)),
                Err(er) => Err(er),
            },
            _ => Err(ErrorV::Shape),
        },
        Some(Token::Uuid) => match uuid_rule(value) {
            Ok(bs) => Ok(ValueV::Uuid(bs)),
            Err(er) => Err(er),
        },
        Some(Token::Datetime) => match datetime_rule(value) {
            Ok(d) => Ok(ValueV::Datetime(d)),
            Err(er) => Err(er),
        },
        _ => convert_spec(value),
    }
}

/// A named one-field union case: three reserved tokens select the numeric,
/// subquery and geometry accumulators, the value token re-dispatches its
/// payload, and any other name wraps the converted payload as a single-key
/// object keyed by the case name.
pub open spec fn newtype_variant_rule(
    name: Seq<char>,
    variant: Seq<char>,
    value: EventV,
) -> Result<ValueV, ErrorV>
    decreases value, 2int,
{
    match spec_token(name) {
        Some(Token::Number) => match number_rule(variant, value) {
            Ok(n) => Ok(ValueV::Number(n)),
            Err(er) => Err(er),
        },
        Some(Token::Subquery) => match subquery_rule(variant, value) {
            Ok(s) => Ok(ValueV::Subquery(s)),
            Err(er) => Err(er),
        },
        Some(Token::Geometry) => match geometry_rule(variant, value) {
            Ok(g) => Ok(ValueV::Geometry(g)),
            Err(er) => Err(er),
        },
        Some(Token::Value) => convert_spec(value),
        _ => match convert_spec(value) {
            Ok(v) => Ok(ValueV::Object(seq![(variant, v)])),
            Err(er) => Err(er),
        },
    }
}

/// A positional-field union case: two reserved tokens select the model and
/// function accumulators; any other name yields a single-key object keyed
/// by the case name over the accumulated list.
pub open spec fn tuple_variant_rule(
    name: Seq<char>,
    variant: Seq<char>,
    fields: Seq<EventV>,
) -> Result<ValueV, ErrorV>
    decreases fields, 2int,
{
    match spec_token(name) {
        Some(Token::Model) => match model_rule(variant, fields) {
            Ok(m) => Ok(ValueV::Model(m)),
            Err(er) => Err(er),
        },
        Some(Token::Function) => match function_rule(variant, fields) {
            Ok(f) => Ok(ValueV::Function(f)),
            Err(er) => Err(er),
        },
        _ => match convert_list(fields) {
            Ok(vs) => Ok(ValueV::Object(seq![(variant, ValueV::Array(vs))])),
            Err(er) => Err(er),
        },
    }
}

/// A named-field structure: four reserved tokens select the
/// record-identifier, expression, edge-set and range accumulators; any
/// other name builds a generic object whose keys are the field names.
pub open spec fn struct_rule(name: Seq<char>, fields: Seq<(Seq<char>, EventV)>) -> Result<
    ValueV,
    ErrorV,
>
    decreases fields, 2int,
{
    match spec_token(name) {
        Some(Token::Thing) => match thing_fields_rule(fields) {
            Ok(t) => Ok(ValueV::Thing(t)),
            Err(er) => Err(er),
        },
        Some(Token::Expression) => match expr_fields_rule(fields) {
            Ok(x) => Ok(ValueV::Expression(x)),
            Err(er) => Err(er),
        },
        Some(Token::Edges) => match edges_fields_rule(fields) {
            Ok(ed) => Ok(ValueV::Edges(ed)),
            Err(er) => Err(er),
        },
        Some(Token::Range) => match range_fields_rule(fields) {
            Ok(r) => Ok(ValueV::Range(r)),
            Err(er) => Err(er),
        },
        _ => match convert_fields(fields, Seq::empty()) {
            Ok(es) => Ok(ValueV::Object(es)),
            Err(er) => Err(er),
        },
    }
}

/// A named-field union case: always a generic object of the fields,
/// wrapped as a single-key object keyed by the case name.
pub open spec fn struct_variant_rule(
    variant: Seq<char>,
    fields: Seq<(Seq<char>, EventV)>,
) -> Result<ValueV, ErrorV>
    decreases fields, 2int,
{
    match convert_fields(fields, Seq::empty()) {
        Ok(es) => Ok(ValueV::Object(seq![(variant, ValueV::Object(es))])),
        Err(er) => Err(er),
    }
}

/// The sequence builder: each element converts in order, the first failure
/// aborts the whole list.
pub open spec fn convert_list(s: Seq<EventV>) -> Result<Seq<ValueV>, ErrorV>
    decreases s, 0int,
{
    if s.len() == 0 {
        Ok(Seq::empty())
    } else {
        match convert_spec(s[0]) {
            Err(er) => Err(er),
            Ok(v) => match convert_list(s.subrange(1, s.len() as int)) {
                Err(er) => Err(er),
                Ok(vs) => Ok(seq![v] + vs),
            },
        }
    }
}

/// The map builder: keys go through the string-only sub-rule, values
/// through the root dispatcher, and entries land in insertion order with
/// later duplicates overwriting in place.
pub open spec fn convert_map(
    pairs: Seq<(EventV, EventV)>,
    acc: Seq<(Seq<char>, ValueV)>,
) -> Result<Seq<(Seq<char>, ValueV)>, ErrorV>
    decreases pairs, 0int,
{
    if pairs.len() == 0 {
        Ok(acc)
    } else {
        match string_rule(pairs[0].0) {
            Err(er) => Err(er),
            Ok(k) => match convert_spec(pairs[0].1) {
                Err(er) => Err(er),
                Ok(v) => convert_map(
                    pairs.subrange(1, pairs.len() as int),
                    obj_insert(acc, k, v),
                ),
            },
        }
    }
}

/// The generic structure builder: field names become keys directly, field
/// values go through the root dispatcher.
pub open spec fn convert_fields(
    fields: Seq<(Seq<char>, EventV)>,
    acc: Seq<(Seq<char>, ValueV)>,
) -> Result<Seq<(Seq<char>, ValueV)>, ErrorV>
    decreases fields, 0int,
{
    if fields.len() == 0 {
        Ok(acc)
    } else {
        match convert_spec(fields[0].1) {
            Err(er) => Err(er),
            Ok(v) => convert_fields(
                fields.subrange(1, fields.len() as int),
                obj_insert(acc, fields[0].0, v),
            ),
        }
    }
}

/// The expression accumulator: a left value, an operator and a right value.
pub open spec fn expr_fields_rule(fields: Seq<(Seq<char>, EventV)>) -> Result<
    ExpressionV,
    ErrorV,
>
    decreases fields, 1int,
{
    if fields.len() == 3 && fields[0].0 == "l"@ && fields[1].0 == "o"@ && fields[2].0 == "r"@ {
        match convert_spec(fields[0].1) {
            Ok(l) => match operator_rule(fields[1].1) {
                Ok(o) => match convert_spec(fields[2].1) {
                    Ok(r) => Ok(ExpressionV { l: Box::new(l), o, r: Box::new(r) }),
                    Err(er) => Err(er),
                },
                Err(er) => Err(er),
            },
            Err(er) => Err(er),
        }
    } else {
        Err(ErrorV::Shape)
    }
}

/// The function accumulator: a cast over one value, or a named call over a
/// list of arguments.
pub open spec fn function_rule(variant: Seq<char>, fields: Seq<EventV>) -> Result<
    FunctionV,
    ErrorV,
>
    decreases fields, 1int,
{
    if variant == "Cast"@ {
        if fields.len() == 2 {
            match fields[0] {
                EventV::Str(name) => match convert_spec(fields[1]) {
                    Ok(v) => Ok(FunctionV::Cast(name, Box::new(v))),
                    Err(er) => Err(er),
                },
                _ => Err(ErrorV::Shape),
            }
        } else {
            Err(ErrorV::Shape)
        }
    } else if variant == "Normal"@ {
        if fields.len() == 2 {
            match (fields[0], fields[1]) {
                (EventV::Str(name), EventV::Sequence(args)) => match convert_list(args) {
                    Ok(vs) => Ok(FunctionV::Normal(name, vs)),
                    Err(er) => Err(er),
                },
                _ => Err(ErrorV::Shape),
            }
        } else {
            Err(ErrorV::Shape)
        }
    } else {
        Err(ErrorV::Shape)
    }
}

/// The subquery accumulator.
pub open spec fn subquery_rule(variant: Seq<char>, value: EventV) -> Result<SubqueryV, ErrorV>
    decreases value, 1int,
{
    if variant == "Value"@ {
        match convert_spec(value) {
            Ok(v) => Ok(SubqueryV::Value(Box::new(v))),
            Err(er) => Err(er),
        }
    } else {
        Err(ErrorV::Shape)
    }
}

/// The geometry accumulator: a point from two binary64 bit patterns, or a
/// collection of geometries.
pub open spec fn geometry_rule(variant: Seq<char>, value: EventV) -> Result<GeometryV, ErrorV>
    decreases value, 1int,
{
    if variant == "Point"@ {
        match value {
            EventV::Sequence(items) => if items.len() == 2 {
                match (items[0], items[1]) {
                    (EventV::Float(x), EventV::Float(y)) => Ok(GeometryV::Point { x, y }),
                    _ => Err(ErrorV::Shape),
                }
            } else {
                Err(ErrorV::Shape)
            },
            _ => Err(ErrorV::Shape),
        }
    } else if variant == "Collection"@ {
        match value {
            EventV::Sequence(items) => match geometry_list_rule(items) {
                Ok(gs) => Ok(GeometryV::Collection(gs)),
                Err(er) => Err(er),
            },
            _ => Err(ErrorV::Shape),
        }
    } else {
        Err(ErrorV::Shape)
    }
}

/// One geometry inside a collection.
pub open spec fn geometry_item_rule(e: EventV) -> Result<GeometryV, ErrorV>
    decreases e, 2int,
{
    match e {
        EventV::NewtypeVariant { name: _, variant, value } => geometry_rule(variant, *value),
        _ => Err(ErrorV::Shape),
    }
}

pub open spec fn geometry_list_rule(s: Seq<EventV>) -> Result<Seq<GeometryV>, ErrorV>
    decreases s, 0int,
{
    if s.len() == 0 {
        Ok(Seq::empty())
    } else {
        match geometry_item_rule(s[0]) {
            Err(er) => Err(er),
            Ok(g) => match geometry_list_rule(s.subrange(1, s.len() as int)) {
                Err(er) => Err(er),
                Ok(gs) => Ok(seq![g] + gs),
            },
        }
    }
}

/// One entry of a code block.
pub open spec fn entry_rule(e: EventV) -> Result<EntryV, ErrorV>
    decreases e, 1int,
{
    match e {
        EventV::NewtypeVariant { name: _, variant, value } => if variant == "Value"@ {
            match convert_spec(*value) {
                Ok(v) => Ok(EntryV::Value(v)),
                Err(er) => Err(er),
            }
        } else {
            Err(ErrorV::Shape)
        },
        _ => Err(ErrorV::Shape),
    }
}

pub open spec fn entry_list_rule(s: Seq<EventV>) -> Result<Seq<EntryV>, ErrorV>
    decreases s, 0int,
{
    if s.len() == 0 {
        Ok(Seq::empty())
    } else {
        match entry_rule(s[0]) {
            Err(er) => Err(er),
            Ok(en) => match entry_list_rule(s.subrange(1, s.len() as int)) {
                Err(er) => Err(er),
                Ok(es) => Ok(seq![en] + es),
            },
        }
    }
}

// ------------------------------------------------------------------
// Names of union cases told apart by the rules above.

/// Each case-name chain of the rules tells its names apart: the literals
/// that share a chain denote distinct character sequences.
pub proof fn lemma_variant_names()
    ensures
        "Null"@ != "None"@,
        "False"@ != "None"@,
        "False"@ != "Null"@,
        "True"@ != "None"@,
        "True"@ != "Null"@,
        "True"@ != "False"@,
        "MathPi"@ != "MathE"@,
        "Float"@ != "Int"@,
        "Decimal"@ != "Int"@,
        "Decimal"@ != "Float"@,
        "Text"@ != "Number"@,
        "Out"@ != "In"@,
        "Both"@ != "In"@,
        "Both"@ != "Out"@,
        "NotEqual"@ != "Equal"@,
        "Excluded"@ != "Included"@,
        "Unbounded"@ != "Included"@,
        "Unbounded"@ != "Excluded"@,
        "Field"@ != "All"@,
        "Collection"@ != "Point"@,
        "Range"@ != "Count"@,
        "Normal"@ != "Cast"@,
{
    reveal_strlit("None");
    reveal_strlit("Null");
    reveal_strlit("False");
    reveal_strlit("True");
    reveal_strlit("MathE");
    reveal_strlit("MathPi");
    reveal_strlit("Int");
    reveal_strlit("Float");
    reveal_strlit("Decimal");
    reveal_strlit("Number");
    reveal_strlit("Text");
    reveal_strlit("In");
    reveal_strlit("Out");
    reveal_strlit("Both");
    reveal_strlit("Equal");
    reveal_strlit("NotEqual");
    reveal_strlit("Included");
    reveal_strlit("Excluded");
    reveal_strlit("Unbounded");
    reveal_strlit("All");
    reveal_strlit("Field");
    reveal_strlit("Point");
    reveal_strlit("Collection");
    reveal_strlit("Count");
    reveal_strlit("Range");
    reveal_strlit("Cast");
    reveal_strlit("Normal");
    assert("None"@.len() == 4);
    assert("Null"@.len() == 4);
    assert("False"@.len() == 5);
    assert("True"@.len() == 4);
    assert("None"@[1] == 'o');
    assert("Null"@[1] == 'u');
    assert("True"@[0] == 'T');
    assert("None"@[0] == 'N');
    assert("Null"@[0] == 'N');
    assert("MathE"@.len() == 5);
    assert("MathPi"@.len() == 6);
    assert("Int"@.len() == 3);
    assert("Float"@.len() == 5);
    assert("Decimal"@.len() == 7);
    assert("Number"@.len() == 6);
    assert("Text"@.len() == 4);
    assert("In"@.len() == 2);
    assert("Out"@.len() == 3);
    assert("Both"@.len() == 4);
    assert("Equal"@.len() == 5);
    assert("NotEqual"@.len() == 8);
    assert("Included"@.len() == 8);
    assert("Excluded"@.len() == 8);
    assert("Included"@[0] == 'I');
    assert("Excluded"@[0] == 'E');
    assert("Unbounded"@.len() == 9);
    assert("All"@.len() == 3);
    assert("Field"@.len() == 5);
    assert("Point"@.len() == 5);
    assert("Collection"@.len() == 10);
    assert("Count"@.len() == 5);
    assert("Range"@.len() == 5);
    assert("Count"@[0] == 'C');
    assert("Range"@[0] == 'R');
    assert("Cast"@.len() == 4);
    assert("Normal"@.len() == 6);
}


} // verus!
