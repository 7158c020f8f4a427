//! The executable conversion engine, verified against the rules of
//! `crate::rules`: each function returns exactly what its rule computes,
//! for the success case and for the failure case alike.
use vstd::prelude::*;
use crate::decimal::decimal_from_i128;
use crate::decimal::decimal_from_u128;
use crate::error::Error;
use crate::error::IntLiteral;
use crate::error::NumericKind;
use crate::event::Event;
use crate::event::event_fields_view;
use crate::event::event_pairs_view;
use crate::event::event_view;
use crate::event::events_view;
use crate::event::lemma_event_fields_view_index;
use crate::event::lemma_event_fields_view_len;
use crate::event::lemma_events_view_index;
use crate::event::lemma_events_view_len;
use crate::rules::bytes_values;
use crate::rules::constant_rule;
use crate::rules::convert_fields;
use crate::rules::convert_list;
use crate::rules::convert_map;
use crate::rules::convert_spec;
use crate::rules::datetime_rule;
use crate::rules::dir_rule;
use crate::rules::duration_rule;
use crate::rules::edges_fields_rule;
use crate::rules::entry_list_rule;
use crate::rules::entry_rule;
use crate::rules::expr_fields_rule;
use crate::rules::function_rule;
use crate::rules::geometry_item_rule;
use crate::rules::geometry_list_rule;
use crate::rules::geometry_rule;
use crate::rules::id_rule;
use crate::rules::model_rule;
use crate::rules::newtype_struct_rule;
use crate::rules::newtype_variant_rule;
use crate::rules::number_rule;
use crate::rules::obj_insert;
use crate::rules::operator_rule;
use crate::rules::part_list_rule;
use crate::rules::part_rule;
use crate::rules::range_fields_rule;
use crate::rules::sentinel_rule;
use crate::rules::string_rule;
use crate::rules::struct_rule;
use crate::rules::struct_variant_rule;
use crate::rules::subquery_rule;
use crate::rules::table_list_rule;
use crate::rules::table_rule;
use crate::rules::thing_fields_rule;
use crate::rules::thing_rule;
use crate::rules::tuple_variant_rule;
use crate::rules::u64_wrap;
use crate::rules::unit_variant_rule;
use crate::rules::uuid_rule;
use crate::token::Token;
use crate::token::lookup_token;
use crate::value::Constant;
use crate::value::Datetime;
use crate::value::Dir;
use crate::value::Duration;
use crate::value::Edges;
use crate::value::Entry;
use crate::value::Expression;
use crate::value::Function;
use crate::value::Geometry;
use crate::value::Id;
use crate::value::Model;
use crate::value::Number;
use crate::value::Operator;
use crate::value::Part;
use crate::value::Range;
use crate::value::RangeBound;
use crate::value::Subquery;
use crate::value::Thing;
use crate::value::Value;
use crate::value::bound_view;
use crate::value::edges_view;
use crate::value::entries_view;
use crate::value::entry_view;
use crate::value::expression_view;
use crate::value::function_view;
use crate::value::geometries_view;
use crate::value::geometry_view;
use crate::value::id_view;
use crate::value::lemma_object_view_index;
use crate::value::lemma_values_view_index;
use crate::value::model_view;
use crate::value::object_view;
use crate::value::part_view;
use crate::value::range_view;
use crate::value::subquery_view;
use crate::value::thing_view;
use crate::value::value_view;
use crate::value::values_view;

verus! {

/// Relies on `char`'s `to_string`: the string of exactly that character.
#[verifier::external_body]
fn char_to_string(c: char) -> (r: String)
    ensures
        r@ == seq![c],
{
    c.to_string()
}

/// The string-only sub-converter.
fn string_value(e: Event) -> (r: Result<String, Error>)
    ensures
        r matches Ok(s) ==> string_rule(event_view(e)) == Ok::<Seq<char>, crate::error::ErrorV>(
            s@,
        ),
        r matches Err(er) ==> string_rule(event_view(e)) == Err::<
            Seq<char>,
            crate::error::ErrorV,
        >(er@),
{
    match e {
        Event::Str(s) => Ok(s),
        Event::Char(c) => Ok(char_to_string(c)),
        _ => Err(Error::ExpectedString),
    }
}

/// The four sentinel leaves by case name, or the sentinel error.
fn sentinel_value(variant: String) -> (r: Result<Value, Error>)
    ensures
        r matches Ok(v) ==> sentinel_rule(variant@) == Ok::<_, crate::error::ErrorV>(
            value_view(v),
        ),
        r matches Err(er) ==> sentinel_rule(variant@) == Err::<crate::value::ValueV, _>(er@),
{
    if variant == "None".to_owned() {
        Ok(Value::Absent)
    } else if variant == "Null".to_owned() {
        Ok(Value::Null)
    } else if variant == "False".to_owned() {
        Ok(Value::False)
    } else if variant == "True".to_owned() {
        Ok(Value::True)
    } else {
        Err(Error::UnknownSentinel { variant })
    }
}

/// The constant-lookup rule.
fn constant_value(variant: String) -> (r: Result<Value, Error>)
    ensures
        r matches Ok(v) ==> constant_rule(variant@) == Ok::<_, crate::error::ErrorV>(
            value_view(v),
        ),
        r matches Err(er) ==> constant_rule(variant@) == Err::<crate::value::ValueV, _>(er@),
{
    if variant == "MathE".to_owned() {
        Ok(Value::Constant(Constant::MathE))
    } else if variant == "MathPi".to_owned() {
        Ok(Value::Constant(Constant::MathPi))
    } else {
        Err(Error::UnknownConstant { variant })
    }
}

/// The numeric accumulator.
fn number_value(variant: String, value: Event) -> (r: Result<Number, Error>)
    ensures
        r matches Ok(n) ==> number_rule(variant@, event_view(value)) == Ok::<
            _,
            crate::error::ErrorV,
        >(n),
        r matches Err(er) ==> number_rule(variant@, event_view(value)) == Err::<Number, _>(er@),
{
    if variant == "Int".to_owned() {
        match value {
            Event::I64(n) => Ok(Number::Int(n)),
            _ => Err(Error::Shape),
        }
    } else if variant == "Float".to_owned() {
        match value {
            Event::Float(bits) => Ok(Number::Float(bits)),
            _ => Err(Error::Shape),
        }
    } else if variant == "Decimal".to_owned() {
        match value {
            Event::Decimal(d) => Ok(Number::Decimal(d)),
            _ => Err(Error::Shape),
        }
    } else {
        Err(Error::Shape)
    }
}

/// A record-identifier key.
fn id_value(e: Event) -> (r: Result<Id, Error>)
    ensures
        r matches Ok(id) ==> id_rule(event_view(e)) == Ok::<_, crate::error::ErrorV>(
            id_view(id),
        ),
        r matches Err(er) ==> id_rule(event_view(e)) == Err::<crate::value::IdV, _>(er@),
{
    match e {
        Event::NewtypeVariant { name: _, variant, value } => {
            proof {
                reveal_with_fuel(event_view, 2);
            }
            let inner = *value;
            if variant == "Number".to_owned() {
                match inner {
                    Event::I64(n) => Ok(Id::Number(n)),
                    _ => Err(Error::Shape),
                }
            } else if variant == "Text".to_owned() {
                match inner {
                    Event::Str(s) => Ok(Id::Text(s)),
                    _ => Err(Error::Shape),
                }
            } else {
                Err(Error::Shape)
            }
        },
        _ => Err(Error::Shape),
    }
}

/// The direction of a graph-edge set.
fn dir_value(e: Event) -> (r: Result<Dir, Error>)
    ensures
        r matches Ok(d) ==> dir_rule(event_view(e)) == Ok::<_, crate::error::ErrorV>(d),
        r matches Err(er) ==> dir_rule(event_view(e)) == Err::<Dir, _>(er@),
{
    match e {
        Event::UnitVariant { name: _, variant } => {
            if variant == "In".to_owned() {
                Ok(Dir::In)
            } else if variant == "Out".to_owned() {
                Ok(Dir::Out)
            } else if variant == "Both".to_owned() {
                Ok(Dir::Both)
            } else {
                Err(Error::Shape)
            }
        },
        _ => Err(Error::Shape),
    }
}

/// A binary operator.
fn operator_value(e: Event) -> (r: Result<Operator, Error>)
    ensures
        r matches Ok(o) ==> operator_rule(event_view(e)) == Ok::<_, crate::error::ErrorV>(o),
        r matches Err(er) ==> operator_rule(event_view(e)) == Err::<Operator, _>(er@),
{
    match e {
        Event::UnitVariant { name: _, variant } => {
            if variant == "Equal".to_owned() {
                Ok(Operator::Equal)
            } else if variant == "NotEqual".to_owned() {
                Ok(Operator::NotEqual)
            } else {
                Err(Error::Shape)
            }
        },
        _ => Err(Error::Shape),
    }
}

/// One end of a record range.
fn bound_value(e: Event) -> (r: Result<RangeBound, Error>)
    ensures
        r matches Ok(b) ==> crate::rules::bound_rule(event_view(e)) == Ok::<
            _,
            crate::error::ErrorV,
        >(bound_view(b)),
        r matches Err(er) ==> crate::rules::bound_rule(event_view(e)) == Err::<
            crate::value::RangeBoundV,
            _,
        >(er@),
{
    match e {
        Event::UnitVariant { name: _, variant } => {
            if variant == "Unbounded".to_owned() {
                Ok(RangeBound::Unbounded)
            } else {
                Err(Error::Shape)
            }
        },
        Event::NewtypeVariant { name: _, variant, value } => {
            if variant == "Included".to_owned() {
                match id_value(*value) {
                    Ok(id) => Ok(RangeBound::Included(id)),
                    Err(er) => Err(er),
                }
            } else if variant == "Excluded".to_owned() {
                match id_value(*value) {
                    Ok(id) => Ok(RangeBound::Excluded(id)),
                    Err(er) => Err(er),
                }
            } else {
                Err(Error::Shape)
            }
        },
        _ => Err(Error::Shape),
    }
}

/// One step of a path expression.
fn part_value(e: Event) -> (r: Result<Part, Error>)
    ensures
        r matches Ok(p) ==> part_rule(event_view(e)) == Ok::<_, crate::error::ErrorV>(
            part_view(p),
        ),
        r matches Err(er) ==> part_rule(event_view(e)) == Err::<crate::value::PartV, _>(er@),
{
    match e {
        Event::UnitVariant { name: _, variant } => {
            if variant == "All".to_owned() {
                Ok(Part::All)
            } else {
                Err(Error::Shape)
            }
        },
        Event::NewtypeVariant { name: _, variant, value } => {
            proof {
                reveal_with_fuel(event_view, 2);
            }
            let inner = *value;
            if variant == "Field".to_owned() {
                match inner {
                    Event::Str(s) => Ok(Part::Field(s)),
                    _ => Err(Error::Shape),
                }
            } else {
                Err(Error::Shape)
            }
        },
        _ => Err(Error::Shape),
    }
}

fn part_list_value(items: Vec<Event>) -> (r: Result<Vec<Part>, Error>)
    ensures
        r matches Ok(ps) ==> part_list_rule(events_view(items@)) == Ok::<
            _,
            crate::error::ErrorV,
        >(ps@.map_values(|p: Part| part_view(p))),
        r matches Err(er) ==> part_list_rule(events_view(items@)) == Err::<
            Seq<crate::value::PartV>,
            _,
        >(er@),
    decreases items@,
{
    let ghost orig = items@;
    let mut items = items;
    if items.len() == 0 {
        let r: Vec<Part> = Vec::new();
        proof {
            assert(r@.map_values(|p: Part| part_view(p)) =~= Seq::<crate::value::PartV>::empty());
        }
        return Ok(r);
    }
    let first = items.remove(0);
    proof {
        assert(first == orig[0]);
        assert(items@ =~= orig.subrange(1, orig.len() as int));
        assert(decreases_to!(orig => orig.subrange(1, orig.len() as int)));
        assert(decreases_to!(orig => orig[0]));
        assert(events_view(orig).subrange(1, events_view(orig).len() as int) =~= events_view(
            orig.subrange(1, orig.len() as int),
        ));
    }
    match part_value(first) {
        Err(er) => Err(er),
        Ok(p) => match part_list_value(items) {
            Err(er) => Err(er),
            Ok(mut ps) => {
                let ghost ps0 = ps@;
                ps.insert(0, p);
                proof {
                    assert(ps@ =~= seq![p] + ps0);
                    assert(ps@.map_values(|q: Part| part_view(q)) =~= seq![part_view(p)]
                        + ps0.map_values(|q: Part| part_view(q)));
                }
                Ok(ps)
            },
        },
    }
}



fn table_value(e: Event) -> (r: Result<String, Error>)
    ensures
        r matches Ok(s) ==> table_rule(event_view(e)) == Ok::<_, crate::error::ErrorV>(s@),
        r matches Err(er) ==> table_rule(event_view(e)) == Err::<Seq<char>, _>(er@),
{
    match e {
        Event::NewtypeStruct { name: _, value } => {
            proof {
                reveal_with_fuel(event_view, 2);
            }
            let inner = *value;
            match inner {
                Event::Str(s) => Ok(s),
                _ => Err(Error::Shape),
            }
        },
        _ => Err(Error::Shape),
    }
}

fn table_list_value(items: Vec<Event>) -> (r: Result<Vec<String>, Error>)
    ensures
        r matches Ok(ts) ==> table_list_rule(events_view(items@)) == Ok::<
            _,
            crate::error::ErrorV,
        >(ts@.map_values(|t: String| t@)),
        r matches Err(er) ==> table_list_rule(events_view(items@)) == Err::<
            Seq<Seq<char>>,
            _,
        >(er@),
    decreases items@,
{
    let ghost orig = items@;
    let mut items = items;
    if items.len() == 0 {
        let r: Vec<String> = Vec::new();
        proof {
            assert(r@.map_values(|t: String| t@) =~= Seq::<Seq<char>>::empty());
        }
        return Ok(r);
    }
    let first = items.remove(0);
    proof {
        assert(first == orig[0]);
        assert(items@ =~= orig.subrange(1, orig.len() as int));
        assert(decreases_to!(orig => orig.subrange(1, orig.len() as int)));
        assert(decreases_to!(orig => orig[0]));
        assert(events_view(orig).subrange(1, events_view(orig).len() as int) =~= events_view(
            orig.subrange(1, orig.len() as int),
        ));
    }
    match table_value(first) {
        Err(er) => Err(er),
        Ok(t) => match table_list_value(items) {
            Err(er) => Err(er),
            Ok(mut ts) => {
                let ghost ts0 = ts@;
                ts.insert(0, t);
                proof {
                    assert(ts@ =~= seq![t] + ts0);
                    assert(ts@.map_values(|q: String| q@) =~= seq![t@] + ts0.map_values(
                        |q: String| q@,
                    ));
                }
                Ok(ts)
            },
        },
    }
}

fn duration_value(value: Event) -> (r: Result<Duration, Error>)
    ensures
        r matches Ok(d) ==> duration_rule(event_view(value)) == Ok::<_, crate::error::ErrorV>(
            d,
        ),
        r matches Err(er) ==> duration_rule(event_view(value)) == Err::<Duration, _>(er@),
{
    match value {
        Event::Struct { name: _, fields } => {
            if fields.len() == 2 {
                let ghost orig = fields@;
                proof {
                    lemma_event_fields_view_index(orig, 0);
                    lemma_event_fields_view_index(orig, 1);
                }
                let mut fields = fields;
                let (k0, v0) = fields.remove(0);
                let (k1, v1) = fields.remove(0);
                proof {
                    assert((k0, v0) == orig[0]);
                    assert((k1, v1) == orig[1]);
                }
                if k0 == "secs".to_owned() && k1 == "nanos".to_owned() {
                    match (v0, v1) {
                        (Event::U64(secs), Event::U32(nanos)) => {
                            if nanos < 1000000000 {
                                Ok(Duration { secs, nanos })
                            } else {
                                Err(Error::Shape)
                            }
                        },
                        _ => Err(Error::Shape),
                    }
                } else {
                    Err(Error::Shape)
                }
            } else {
                proof {
                    lemma_event_fields_view_len(fields@);
                }
                Err(Error::Shape)
            }
        },
        _ => Err(Error::Shape),
    }
}

fn datetime_value(value: Event) -> (r: Result<Datetime, Error>)
    ensures
        r matches Ok(d) ==> datetime_rule(event_view(value)) == Ok::<_, crate::error::ErrorV>(
            d,
        ),
        r matches Err(er) ==> datetime_rule(event_view(value)) == Err::<Datetime, _>(er@),
{
    match value {
        Event::Struct { name: _, fields } => {
            if fields.len() == 2 {
                let ghost orig = fields@;
                proof {
                    lemma_event_fields_view_index(orig, 0);
                    lemma_event_fields_view_index(orig, 1);
                }
                let mut fields = fields;
                let (k0, v0) = fields.remove(0);
                let (k1, v1) = fields.remove(0);
                proof {
                    assert((k0, v0) == orig[0]);
                    assert((k1, v1) == orig[1]);
                }
                if k0 == "secs".to_owned() && k1 == "nanos".to_owned() {
                    match (v0, v1) {
                        (Event::I64(secs), Event::U32(nanos)) => {
                            if nanos < 1000000000 {
                                Ok(Datetime { secs, nanos })
                            } else {
                                Err(Error::Shape)
                            }
                        },
                        _ => Err(Error::Shape),
                    }
                } else {
                    Err(Error::Shape)
                }
            } else {
                proof {
                    lemma_event_fields_view_len(fields@);
                }
                Err(Error::Shape)
            }
        },
        _ => Err(Error::Shape),
    }
}

fn uuid_value(value: Event) -> (r: Result<Vec<u8>, Error>)
    ensures
        r matches Ok(bs) ==> uuid_rule(event_view(value)) == Ok::<_, crate::error::ErrorV>(
            bs@,
        ),
        r matches Err(er) ==> uuid_rule(event_view(value)) == Err::<Seq<u8>, _>(er@),
{
    match value {
        Event::Bytes(bs) => {
            if bs.len() == 16 {
                Ok(bs)
            } else {
                Err(Error::Shape)
            }
        },
        _ => Err(Error::Shape),
    }
}

fn thing_fields_value(fields: Vec<(String, Event)>) -> (r: Result<Thing, Error>)
    ensures
        r matches Ok(t) ==> thing_fields_rule(event_fields_view(fields@)) == Ok::<
            _,
            crate::error::ErrorV,
        >(thing_view(t)),
        r matches Err(er) ==> thing_fields_rule(event_fields_view(fields@)) == Err::<
            crate::value::ThingV,
            _,
        >(er@),
{
    if fields.len() == 2 {
        let ghost orig = fields@;
        proof {
            lemma_event_fields_view_index(orig, 0);
            lemma_event_fields_view_index(orig, 1);
        }
        let mut fields = fields;
        let (k0, v0) = fields.remove(0);
        let (k1, v1) = fields.remove(0);
        proof {
            assert((k0, v0) == orig[0]);
            assert((k1, v1) == orig[1]);
        }
        if k0 == "tb".to_owned() && k1 == "id".to_owned() {
            match v0 {
                Event::Str(tb) => match id_value(v1) {
                    Ok(id) => Ok(Thing { tb, id }),
                    Err(er) => Err(er),
                },
                _ => Err(Error::Shape),
            }
        } else {
            Err(Error::Shape)
        }
    } else {
        proof {
            lemma_event_fields_view_len(fields@);
        }
        Err(Error::Shape)
    }
}

fn thing_value(e: Event) -> (r: Result<Thing, Error>)
    ensures
        r matches Ok(t) ==> thing_rule(event_view(e)) == Ok::<_, crate::error::ErrorV>(
            thing_view(t),
        ),
        r matches Err(er) ==> thing_rule(event_view(e)) == Err::<crate::value::ThingV, _>(er@),
{
    match e {
        Event::Struct { name: _, fields } => thing_fields_value(fields),
        _ => Err(Error::Shape),
    }
}

fn range_fields_value(fields: Vec<(String, Event)>) -> (r: Result<Range, Error>)
    ensures
        r matches Ok(rg) ==> range_fields_rule(event_fields_view(fields@)) == Ok::<
            _,
            crate::error::ErrorV,
        >(range_view(rg)),
        r matches Err(er) ==> range_fields_rule(event_fields_view(fields@)) == Err::<
            crate::value::RangeV,
            _,
        >(er@),
{
    if fields.len() == 3 {
        let ghost orig = fields@;
        proof {
            lemma_event_fields_view_index(orig, 0);
            lemma_event_fields_view_index(orig, 1);
            lemma_event_fields_view_index(orig, 2);
        }
        let mut fields = fields;
        let (k0, v0) = fields.remove(0);
        let (k1, v1) = fields.remove(0);
        let (k2, v2) = fields.remove(0);
        proof {
            assert((k0, v0) == orig[0]);
            assert((k1, v1) == orig[1]);
            assert((k2, v2) == orig[2]);
        }
        if k0 == "tb".to_owned() && k1 == "beg".to_owned() && k2 == "end".to_owned() {
            match v0 {
                Event::Str(tb) => match bound_value(v1) {
                    Ok(beg) => match bound_value(v2) {
                        Ok(end) => Ok(Range { tb, beg, end }),
                        Err(er) => Err(er),
                    },
                    Err(er) => Err(er),
                },
                _ => Err(Error::Shape),
            }
        } else {
            Err(Error::Shape)
        }
    } else {
        proof {
            lemma_event_fields_view_len(fields@);
        }
        Err(Error::Shape)
    }
}

fn edges_fields_value(fields: Vec<(String, Event)>) -> (r: Result<Edges, Error>)
    ensures
        r matches Ok(ed) ==> edges_fields_rule(event_fields_view(fields@)) == Ok::<
            _,
            crate::error::ErrorV,
        >(edges_view(ed)),
        r matches Err(er) ==> edges_fields_rule(event_fields_view(fields@)) == Err::<
            crate::value::EdgesV,
            _,
        >(er@),
{
    if fields.len() == 3 {
        let ghost orig = fields@;
        proof {
            lemma_event_fields_view_index(orig, 0);
            lemma_event_fields_view_index(orig, 1);
            lemma_event_fields_view_index(orig, 2);
        }
        let mut fields = fields;
        let (k0, v0) = fields.remove(0);
        let (k1, v1) = fields.remove(0);
        let (k2, v2) = fields.remove(0);
        proof {
            assert((k0, v0) == orig[0]);
            assert((k1, v1) == orig[1]);
            assert((k2, v2) == orig[2]);
        }
        if k0 == "dir".to_owned() && k1 == "from".to_owned() && k2 == "what".to_owned() {
            match dir_value(v0) {
                Ok(dir) => match thing_value(v1) {
                    Ok(from) => match v2 {
                        Event::Sequence(items) => match table_list_value(items) {
                            Ok(what) => Ok(Edges { dir, from, what }),
                            Err(er) => Err(er),
                        },
                        _ => Err(Error::Shape),
                    },
                    Err(er) => Err(er),
                },
                Err(er) => Err(er),
            }
        } else {
            Err(Error::Shape)
        }
    } else {
        proof {
            lemma_event_fields_view_len(fields@);
        }
        Err(Error::Shape)
    }
}

fn model_value(variant: String, fields: Vec<Event>) -> (r: Result<Model, Error>)
    ensures
        r matches Ok(m) ==> model_rule(variant@, events_view(fields@)) == Ok::<
            _,
            crate::error::ErrorV,
        >(model_view(m)),
        r matches Err(er) ==> model_rule(variant@, events_view(fields@)) == Err::<
            crate::value::ModelV,
            _,
        >(er@),
{
    let ghost orig = fields@;
    proof {
        lemma_events_view_len(orig);
    }
    if variant == "Count".to_owned() {
        if fields.len() == 2 {
            proof {
                lemma_events_view_index(orig, 0);
                lemma_events_view_index(orig, 1);
            }
            let mut fields = fields;
            let f0 = fields.remove(0);
            let f1 = fields.remove(0);
            proof {
                assert(f0 == orig[0]);
                assert(f1 == orig[1]);
            }
            match (f0, f1) {
                (Event::Str(name), Event::U64(n)) => Ok(Model::Count(name, n)),
                _ => Err(Error::Shape),
            }
        } else {
            Err(Error::Shape)
        }
    } else if variant == "Range".to_owned() {
        if fields.len() == 3 {
            proof {
                lemma_events_view_index(orig, 0);
                lemma_events_view_index(orig, 1);
                lemma_events_view_index(orig, 2);
            }
            let mut fields = fields;
            let f0 = fields.remove(0);
            let f1 = fields.remove(0);
            let f2 = fields.remove(0);
            proof {
                assert(f0 == orig[0]);
                assert(f1 == orig[1]);
                assert(f2 == orig[2]);
            }
            match (f0, f1, f2) {
                (Event::Str(name), Event::U64(a), Event::U64(b)) => Ok(Model::Range(name, a, b)),
                _ => Err(Error::Shape),
            }
        } else {
            Err(Error::Shape)
        }
    } else {
        Err(Error::Shape)
    }
}

/// Every byte of the sequence becomes its own numeric leaf.
fn bytes_to_values(bs: Vec<u8>) -> (r: Vec<Value>)
    ensures
        values_view(r@) == bytes_values(bs@),
{
    let mut out: Vec<Value> = Vec::new();
    let mut i: usize = 0;
    while i < bs.len()
        invariant
            0 <= i <= bs@.len(),
            out@.len() == i,
            forall|j: int|
                0 <= j < i ==> out@[j] == Value::Number(Number::Int(bs@[j] as i64)),
        decreases bs@.len() - i,
    {
        let b = bs[i];
        out.push(Value::Number(Number::Int(b as i64)));
        i = i + 1;
    }
    proof {
        assert forall|j: int| 0 <= j < out@.len() implies values_view(out@)[j] == bytes_values(
            bs@,
        )[j] by {
            lemma_values_view_index(out@, j);
        }
        crate::value::lemma_values_view_len(out@);
        assert(values_view(out@) =~= bytes_values(bs@));
    }
    out
}

/// Insert into the ordered object: a duplicate key overwrites in place, a
/// fresh key is appended.
fn insert_entry(es: Vec<(String, Value)>, k: String, v: Value) -> (r: Vec<(String, Value)>)
    ensures
        object_view(r@) == obj_insert(object_view(es@), k@, value_view(v)),
    decreases es@,
{
    let ghost orig = es@;
    let mut es = es;
    if es.len() == 0 {
        es.push((k, v));
        proof {
            assert(es@ =~= seq![(k, v)]);
            assert(object_view(es@).subrange(1, object_view(es@).len() as int)
                =~= object_view(es@.subrange(1, es@.len() as int)));
            assert(object_view(seq![(k, v)]) =~= seq![(k@, value_view(v))]);
            assert(obj_insert(object_view(orig), k@, value_view(v)) =~= seq![(
                k@,
                value_view(v),
            )]);
        }
        return es;
    }
    let same = es[0].0 == k;
    proof {
        lemma_object_view_index(orig, 0);
    }
    if same {
        let _first = es.remove(0);
        let ghost rest = es@;
        es.insert(0, (k, v));
        proof {
            assert(rest =~= orig.subrange(1, orig.len() as int));
            assert(es@ =~= seq![(k, v)] + rest);
            assert(es@.subrange(1, es@.len() as int) =~= rest);
            assert(object_view(es@).subrange(1, object_view(es@).len() as int) =~= object_view(
                rest,
            ));
            assert(object_view(es@) =~= seq![(k@, value_view(v))] + object_view(rest));
            assert(object_view(orig).subrange(1, object_view(orig).len() as int) =~= object_view(
                orig.subrange(1, orig.len() as int),
            ));
            assert(obj_insert(object_view(orig), k@, value_view(v)) =~= seq![(
                k@,
                value_view(v),
            )] + object_view(orig).subrange(1, object_view(orig).len() as int));
            assert(object_view(es@) =~= obj_insert(object_view(orig), k@, value_view(v)));
        }
        es
    } else {
        let first = es.remove(0);
        proof {
            assert(first == orig[0]);
            assert(es@ =~= orig.subrange(1, orig.len() as int));
            assert(decreases_to!(orig => orig.subrange(1, orig.len() as int)));
        }
        let mut rest = insert_entry(es, k, v);
        let ghost restv = rest@;
        rest.insert(0, first);
        proof {
            assert(rest@ =~= seq![first] + restv);
            assert(rest@.subrange(1, rest@.len() as int) =~= restv);
            assert(object_view(rest@).subrange(1, object_view(rest@).len() as int)
                =~= object_view(restv));
            assert(object_view(rest@) =~= seq![(first.0@, value_view(first.1))] + object_view(
                restv,
            ));
            assert(object_view(orig).subrange(1, object_view(orig).len() as int) =~= object_view(
                orig.subrange(1, orig.len() as int),
            ));
            assert(object_view(rest@) =~= obj_insert(object_view(orig), k@, value_view(v)));
        }
        rest
    }
}


proof fn lemma_object_view_singleton(p: (String, Value))
    ensures
        object_view(seq![p]) =~= seq![(p.0@, value_view(p.1))],
{
    reveal_with_fuel(object_view, 2);
    assert(seq![p].subrange(1, 1) =~= Seq::<(String, Value)>::empty());
}

/// The root dispatcher: one event in, one finished value or one failure
/// out, exactly as the rules prescribe.
pub fn to_value(e: Event) -> (r: Result<Value, Error>)
    ensures
        r matches Ok(v) ==> convert_spec(event_view(e)) == Ok::<_, crate::error::ErrorV>(value_view(v)),
        r matches Err(er) ==> convert_spec(event_view(e)) == Err::<crate::value::ValueV, _>(er@),
    decreases e, 0int,
{
    match e {
        Event::Bool(b) => Ok(if b { Value::True } else { Value::False }),
        Event::I8(n) => Ok(Value::Number(Number::Int(n as i64))),
        Event::I16(n) => Ok(Value::Number(Number::Int(n as i64))),
        Event::I32(n) => Ok(Value::Number(Number::Int(n as i64))),
        Event::I64(n) => Ok(Value::Number(Number::Int(n))),
        Event::I128(n) => match decimal_from_i128(n) {
            Some(d) => Ok(Value::Number(Number::Decimal(d))),
            None => Err(
                Error::Range { literal: IntLiteral::Signed(n), target: NumericKind::Decimal },
            ),
        },
        Event::U8(n) => Ok(Value::Number(Number::Int(n as i64))),
        Event::U16(n) => Ok(Value::Number(Number::Int(n as i64))),
        Event::U32(n) => Ok(Value::Number(Number::Int(n as i64))),
        Event::U64(n) => {
            let w: i64 = if n <= (i64::MAX as u64) {
                n as i64
            } else {
                let d: u64 = u64::MAX - n;
                -(d as i64) - 1
            };
            proof {
                assert(w == u64_wrap(n));
            }
            Ok(Value::Number(Number::Int(w)))
        },
        Event::U128(n) => match decimal_from_u128(n) {
            Some(d) => Ok(Value::Number(Number::Decimal(d))),
            None => Err(
                Error::Range { literal: IntLiteral::Unsigned(n), target: NumericKind::Decimal },
            ),
        },
        Event::Float(bits) => Ok(Value::Number(Number::Float(bits))),
        Event::Char(c) => Ok(Value::Strand(char_to_string(c))),
        Event::Str(s) => Ok(Value::Strand(s)),
        Event::Bytes(bs) => Ok(Value::Array(bytes_to_values(bs))),
        Event::Unit => Ok(Value::Absent),
        Event::UnitStruct(_) => Ok(Value::Absent),
        Event::AbsentOption => Ok(Value::Absent),
        Event::PresentOption(inner) => to_value(*inner),
        Event::UnitVariant { name, variant } => unit_variant_value(name, variant),
        Event::NewtypeStruct { name, value } => newtype_struct_value(name, *value),
        Event::NewtypeVariant { name, variant, value } => newtype_variant_value(
            name,
            variant,
            *value,
        ),
        Event::Sequence(items) => {
            proof {
                assert(decreases_to!(items => items@));
            }
            match convert_vec(items) {
                Ok(vs) => Ok(Value::Array(vs)),
                Err(er) => Err(er),
            }
        },
        Event::TupleVariant { name, variant, fields } => {
            proof {
                assert(decreases_to!(fields => fields@));
            }
            tuple_variant_value(name, variant, fields)
        },
        Event::Mapping(pairs) => {
            proof {
                assert(decreases_to!(pairs => pairs@));
                assert(object_view(Seq::<(String, Value)>::empty())
                    =~= Seq::<(Seq<char>, crate::value::ValueV)>::empty());
            }
            let acc: Vec<(String, Value)> = Vec::new();
            match convert_map_exec(pairs, acc) {
                Ok(es) => Ok(Value::Object(es)),
                Err(er) => Err(er),
            }
        },
        Event::Struct { name, fields } => {
            proof {
                assert(decreases_to!(fields => fields@));
            }
            struct_value(name, fields)
        },
        Event::StructVariant { name: _, variant, fields } => {
            proof {
                assert(decreases_to!(fields => fields@));
            }
            struct_variant_value(variant, fields)
        },
        Event::Decimal(d) => Ok(Value::Number(Number::Decimal(d))),
    }
}

fn unit_variant_value(name: String, variant: String) -> (r: Result<Value, Error>)
    ensures
        r matches Ok(v) ==> unit_variant_rule(name@, variant@) == Ok::<_, crate::error::ErrorV>(value_view(v)),
        r matches Err(er) ==> unit_variant_rule(name@, variant@) == Err::<crate::value::ValueV, _>(er@),
{
    match lookup_token(&name) {
        Some(Token::Constant) => constant_value(variant),
        Some(Token::Value) => sentinel_value(variant),
        _ => Ok(Value::Strand(variant)),
    }
}

fn newtype_struct_value(name: String, value: Event) -> (r: Result<Value, Error>)
    ensures
        r matches Ok(v) ==> newtype_struct_rule(name@, event_view(value)) == Ok::<_, crate::error::ErrorV>(value_view(v)),
        r matches Err(er) ==> newtype_struct_rule(name@, event_view(value)) == Err::<crate::value::ValueV, _>(er@),
    decreases value, 2int,
{
    match lookup_token(&name) {
        Some(Token::Strand) => match string_value(value) {
            Ok(s) => Ok(Value::Strand(s)),
            Err(er) => Err(er),
        },
        Some(Token::Block) => match value {
            Event::Sequence(items) => {
                proof {
                    assert(decreases_to!(items => items@));
                }
                match entry_list_value(items) {
                    Ok(es) => Ok(Value::Block(es)),
                    Err(er) => Err(er),
                }
            },
            _ => Err(Error::Shape),
        },
        Some(Token::Duration) => match duration_value(value) {
            Ok(d) => Ok(Value::Duration(d)),
            Err(er) => Err(er),
        },
        Some(Token::Future) => match value {
            Event::Sequence(items) => {
                proof {
                    assert(decreases_to!(items => items@));
                }
                match entry_list_value(items) {
                    Ok(es) => Ok(Value::Future(es)),
                    Err(er) => Err(er),
                }
            },
            _ => Err(Error::Shape),
        },
        Some(Token::Regex) => match string_value(value) {
            Ok(s) => Ok(Value::Regex(s)),
            Err(er) => Err(er),
        },
        Some(Token::Table) => match string_value(value) {
            Ok(s) => Ok(Value::Table(s)),
            Err(er) => Err(er),
        },
        Some(Token::Idiom) => match value {
            Event::Sequence(items) => {
                proof {
                    assert(decreases_to!(items => items@));
                }
                match part_list_value(items) {
                    Ok(ps) => Ok(Value::Idiom(ps)),
                    Err(er) => Err(er),
                }
            },
            _ => Err(Error::Shape),
        },
        Some(Token::Param) => match string_value(value) {
            Ok(s) => Ok(Value::Param(s)),
            Err(er) => Err(er),
        },
        Some(Token::Array) => match value {
            Event::Sequence(items) => {
                proof {
                    assert(decreases_to!(items => items@));
                }
                match convert_vec(items) {
                    Ok(vs) => Ok(Value::Array(vs)),
                    Err(er) => Err(er),
                }
            },
            _ => Err(Error::Shape),
        },
        Some(Token::Object) => match value {
            Event::Mapping(pairs) => {
                proof {
                    assert(decreases_to!(pairs => pairs@));
                    assert(object_view(Seq::<(String, Value)>::empty())
                        =~= Seq::<(Seq<char>, crate::value::ValueV)>::empty());
                }
                let acc: Vec<(String, Value)> = Vec::new();
                match convert_map_exec(pairs, acc) {
                    Ok(es) => Ok(Value::Object(es)),
                    Err(er) => Err(er),
                }
            },
            _ => Err(Error::Shape),
        },
        Some(Token::Uuid) => match uuid_value(value) {
            Ok(bs) => Ok(Value::Uuid(bs)),
            Err(er) => Err(er),
        },
        Some(Token::Datetime) => match datetime_value(value) {
            Ok(d) => Ok(Value::Datetime(d)),
            Err(er) => Err(er),
        },
        _ => to_value(value),
    }
}

fn newtype_variant_value(name: String, variant: String, value: Event) -> (r: Result<
    Value,
    Error,
>)
    ensures
        r matches Ok(v) ==> newtype_variant_rule(name@, variant@, event_view(value)) == Ok::<_, crate::error::ErrorV>(
            value_view(v),
        ),
        r matches Err(er) ==> newtype_variant_rule(name@, variant@, event_view(value)) == Err::<crate::value::ValueV, _>(
            er@,
        ),
    decreases value, 2int,
{
    match lookup_token(&name) {
        Some(Token::Number) => match number_value(variant, value) {
            Ok(n) => Ok(Value::Number(n)),
            Err(er) => Err(er),
        },
        Some(Token::Subquery) => match subquery_value(variant, value) {
            Ok(sq) => Ok(Value::Subquery(Box::new(sq))),
            Err(er) => Err(er),
        },
        Some(Token::Geometry) => match geometry_value(variant, value) {
            Ok(g) => Ok(Value::Geometry(g)),
            Err(er) => Err(er),
        },
        Some(Token::Value) => to_value(value),
        _ => match to_value(value) {
            Ok(v) => {
                let mut entries: Vec<(String, Value)> = Vec::new();
                let ghost vv = value_view(v);
                entries.push((variant, v));
                proof {
                    assert(entries@ =~= seq![(entries@[0].0, entries@[0].1)]);
                    lemma_object_view_singleton(entries@[0]);
                }
                Ok(Value::Object(entries))
            },
            Err(er) => Err(er),
        },
    }
}

fn tuple_variant_value(name: String, variant: String, fields: Vec<Event>) -> (r: Result<
    Value,
    Error,
>)
    ensures
        r matches Ok(v) ==> tuple_variant_rule(name@, variant@, events_view(fields@)) == Ok::<_, crate::error::ErrorV>(
            value_view(v),
        ),
        r matches Err(er) ==> tuple_variant_rule(name@, variant@, events_view(fields@)) == Err::<crate::value::ValueV, _>(
            er@,
        ),
    decreases fields@, 2int,
{
    match lookup_token(&name) {
        Some(Token::Model) => match model_value(variant, fields) {
            Ok(m) => Ok(Value::Model(m)),
            Err(er) => Err(er),
        },
        Some(Token::Function) => match function_value(variant, fields) {
            Ok(f) => Ok(Value::Function(Box::new(f))),
            Err(er) => Err(er),
        },
        _ => match convert_vec(fields) {
            Ok(vs) => {
                let mut entries: Vec<(String, Value)> = Vec::new();
                entries.push((variant, Value::Array(vs)));
                proof {
                    assert(entries@ =~= seq![(entries@[0].0, entries@[0].1)]);
                    lemma_object_view_singleton(entries@[0]);
                }
                Ok(Value::Object(entries))
            },
            Err(er) => Err(er),
        },
    }
}

fn struct_value(name: String, fields: Vec<(String, Event)>) -> (r: Result<Value, Error>)
    ensures
        r matches Ok(v) ==> struct_rule(name@, event_fields_view(fields@)) == Ok::<_, crate::error::ErrorV>(value_view(v)),
        r matches Err(er) ==> struct_rule(name@, event_fields_view(fields@)) == Err::<crate::value::ValueV, _>(er@),
    decreases fields@, 2int,
{
    match lookup_token(&name) {
        Some(Token::Thing) => match thing_fields_value(fields) {
            Ok(t) => Ok(Value::Thing(t)),
            Err(er) => Err(er),
        },
        Some(Token::Expression) => match expr_fields_value(fields) {
            Ok(x) => Ok(Value::Expression(Box::new(x))),
            Err(er) => Err(er),
        },
        Some(Token::Edges) => match edges_fields_value(fields) {
            Ok(ed) => Ok(Value::Edges(Box::new(ed))),
            Err(er) => Err(er),
        },
        Some(Token::Range) => match range_fields_value(fields) {
            Ok(rg) => Ok(Value::Range(Box::new(rg))),
            Err(er) => Err(er),
        },
        _ => {
            proof {
                assert(object_view(Seq::<(String, Value)>::empty())
                    =~= Seq::<(Seq<char>, crate::value::ValueV)>::empty());
            }
            let acc: Vec<(String, Value)> = Vec::new();
            match convert_fields_exec(fields, acc) {
                Ok(es) => Ok(Value::Object(es)),
                Err(er) => Err(er),
            }
        },
    }
}

fn struct_variant_value(variant: String, fields: Vec<(String, Event)>) -> (r: Result<
    Value,
    Error,
>)
    ensures
        r matches Ok(v) ==> struct_variant_rule(variant@, event_fields_view(fields@)) == Ok::<_, crate::error::ErrorV>(
            value_view(v),
        ),
        r matches Err(er) ==> struct_variant_rule(variant@, event_fields_view(fields@)) == Err::<crate::value::ValueV, _>(
            er@,
        ),
    decreases fields@, 2int,
{
    proof {
        assert(object_view(Seq::<(String, Value)>::empty()) =~= Seq::<
            (Seq<char>, crate::value::ValueV),
        >::empty());
    }
    let acc: Vec<(String, Value)> = Vec::new();
    match convert_fields_exec(fields, acc) {
        Ok(es) => {
            let mut entries: Vec<(String, Value)> = Vec::new();
            entries.push((variant, Value::Object(es)));
            proof {
                assert(entries@ =~= seq![(entries@[0].0, entries@[0].1)]);
                lemma_object_view_singleton(entries@[0]);
            }
            Ok(Value::Object(entries))
        },
        Err(er) => Err(er),
    }
}

fn convert_vec(events: Vec<Event>) -> (r: Result<Vec<Value>, Error>)
    ensures
        r matches Ok(vs) ==> convert_list(events_view(events@)) == Ok::<_, crate::error::ErrorV>(values_view(vs@)),
        r matches Err(er) ==> convert_list(events_view(events@)) == Err::<Seq<crate::value::ValueV>, _>(er@),
    decreases events@, 0int,
{
    let ghost orig = events@;
    let mut events = events;
    if events.len() == 0 {
        let r: Vec<Value> = Vec::new();
        return Ok(r);
    }
    let first = events.remove(0);
    proof {
        assert(first == orig[0]);
        assert(events@ =~= orig.subrange(1, orig.len() as int));
        assert(decreases_to!(orig => orig.subrange(1, orig.len() as int)));
        assert(decreases_to!(orig => orig[0]));
        assert(events_view(orig).subrange(1, events_view(orig).len() as int) =~= events_view(
            orig.subrange(1, orig.len() as int),
        ));
    }
    match to_value(first) {
        Err(er) => Err(er),
        Ok(v) => match convert_vec(events) {
            Err(er) => Err(er),
            Ok(mut vs) => {
                let ghost vs0 = vs@;
                vs.insert(0, v);
                proof {
                    assert(vs@ =~= seq![v] + vs0);
                    assert(vs@.subrange(1, vs@.len() as int) =~= vs0);
                    assert(values_view(vs@) =~= seq![value_view(v)] + values_view(vs0));
                }
                Ok(vs)
            },
        },
    }
}

fn convert_map_exec(pairs: Vec<(Event, Event)>, acc: Vec<(String, Value)>) -> (r: Result<
    Vec<(String, Value)>,
    Error,
>)
    ensures
        r matches Ok(es) ==> convert_map(event_pairs_view(pairs@), object_view(acc@)) == Ok::<_, crate::error::ErrorV>(
            object_view(es@),
        ),
        r matches Err(er) ==> convert_map(event_pairs_view(pairs@), object_view(acc@)) == Err::<Seq<(Seq<char>, crate::value::ValueV)>, _>(
            er@,
        ),
    decreases pairs@, 0int,
{
    let ghost orig = pairs@;
    let mut pairs = pairs;
    if pairs.len() == 0 {
        return Ok(acc);
    }
    let (ke, ve) = pairs.remove(0);
    proof {
        assert((ke, ve) == orig[0]);
        assert(pairs@ =~= orig.subrange(1, orig.len() as int));
        assert(decreases_to!(orig => orig.subrange(1, orig.len() as int)));
        assert(decreases_to!(orig => orig[0]));
        assert(decreases_to!(orig[0] => orig[0].1));
        assert(event_pairs_view(orig).subrange(1, event_pairs_view(orig).len() as int)
            =~= event_pairs_view(orig.subrange(1, orig.len() as int)));
    }
    match string_value(ke) {
        Err(er) => Err(er),
        Ok(k) => match to_value(ve) {
            Err(er) => Err(er),
            Ok(v) => {
                let acc2 = insert_entry(acc, k, v);
                convert_map_exec(pairs, acc2)
            },
        },
    }
}

fn convert_fields_exec(fields: Vec<(String, Event)>, acc: Vec<(String, Value)>) -> (r: Result<
    Vec<(String, Value)>,
    Error,
>)
    ensures
        r matches Ok(es) ==> convert_fields(event_fields_view(fields@), object_view(acc@))
            == Ok::<_, crate::error::ErrorV>(object_view(es@)),
        r matches Err(er) ==> convert_fields(event_fields_view(fields@), object_view(acc@))
            == Err::<Seq<(Seq<char>, crate::value::ValueV)>, _>(er@),
    decreases fields@, 0int,
{
    let ghost orig = fields@;
    let mut fields = fields;
    if fields.len() == 0 {
        return Ok(acc);
    }
    let (k, ve) = fields.remove(0);
    proof {
        assert((k, ve) == orig[0]);
        assert(fields@ =~= orig.subrange(1, orig.len() as int));
        assert(decreases_to!(orig => orig.subrange(1, orig.len() as int)));
        assert(decreases_to!(orig => orig[0]));
        assert(decreases_to!(orig[0] => orig[0].1));
        assert(event_fields_view(orig).subrange(1, event_fields_view(orig).len() as int)
            =~= event_fields_view(orig.subrange(1, orig.len() as int)));
    }
    match to_value(ve) {
        Err(er) => Err(er),
        Ok(v) => {
            let acc2 = insert_entry(acc, k, v);
            convert_fields_exec(fields, acc2)
        },
    }
}

fn entry_value(e: Event) -> (r: Result<Entry, Error>)
    ensures
        r matches Ok(en) ==> entry_rule(event_view(e)) == Ok::<_, crate::error::ErrorV>(entry_view(en)),
        r matches Err(er) ==> entry_rule(event_view(e)) == Err::<crate::value::EntryV, _>(er@),
    decreases e, 1int,
{
    match e {
        Event::NewtypeVariant { name: _, variant, value } => {
            if variant == "Value".to_owned() {
                match to_value(*value) {
                    Ok(v) => Ok(Entry::Value(v)),
                    Err(er) => Err(er),
                }
            } else {
                Err(Error::Shape)
            }
        },
        _ => Err(Error::Shape),
    }
}

fn entry_list_value(items: Vec<Event>) -> (r: Result<Vec<Entry>, Error>)
    ensures
        r matches Ok(es) ==> entry_list_rule(events_view(items@)) == Ok::<_, crate::error::ErrorV>(entries_view(es@)),
        r matches Err(er) ==> entry_list_rule(events_view(items@)) == Err::<Seq<crate::value::EntryV>, _>(er@),
    decreases items@, 0int,
{
    let ghost orig = items@;
    let mut items = items;
    if items.len() == 0 {
        let r: Vec<Entry> = Vec::new();
        return Ok(r);
    }
    let first = items.remove(0);
    proof {
        assert(first == orig[0]);
        assert(items@ =~= orig.subrange(1, orig.len() as int));
        assert(decreases_to!(orig => orig.subrange(1, orig.len() as int)));
        assert(decreases_to!(orig => orig[0]));
        assert(events_view(orig).subrange(1, events_view(orig).len() as int) =~= events_view(
            orig.subrange(1, orig.len() as int),
        ));
    }
    match entry_value(first) {
        Err(er) => Err(er),
        Ok(en) => match entry_list_value(items) {
            Err(er) => Err(er),
            Ok(mut es) => {
                let ghost es0 = es@;
                es.insert(0, en);
                proof {
                    assert(es@ =~= seq![en] + es0);
                    assert(es@.subrange(1, es@.len() as int) =~= es0);
                    assert(entries_view(es@) =~= seq![entry_view(en)] + entries_view(es0));
                }
                Ok(es)
            },
        },
    }
}

fn geometry_value(variant: String, value: Event) -> (r: Result<Geometry, Error>)
    ensures
        r matches Ok(g) ==> geometry_rule(variant@, event_view(value)) == Ok::<_, crate::error::ErrorV>(geometry_view(g)),
        r matches Err(er) ==> geometry_rule(variant@, event_view(value)) == Err::<crate::value::GeometryV, _>(er@),
    decreases value, 1int,
{
    if variant == "Point".to_owned() {
        match value {
            Event::Sequence(items) => {
                if items.len() == 2 {
                    let ghost orig = items@;
                    proof {
                        lemma_events_view_index(orig, 0);
                        lemma_events_view_index(orig, 1);
                    }
                    let mut items = items;
                    let f0 = items.remove(0);
                    let f1 = items.remove(0);
                    proof {
                        assert(f0 == orig[0]);
                        assert(f1 == orig[1]);
                    }
                    match (f0, f1) {
                        (Event::Float(x), Event::Float(y)) => Ok(Geometry::Point { x, y }),
                        _ => Err(Error::Shape),
                    }
                } else {
                    proof {
                        lemma_events_view_len(items@);
                    }
                    Err(Error::Shape)
                }
            },
            _ => Err(Error::Shape),
        }
    } else if variant == "Collection".to_owned() {
        match value {
            Event::Sequence(items) => {
                proof {
                    assert(decreases_to!(items => items@));
                }
                match geometry_list_value(items) {
                    Ok(gs) => Ok(Geometry::Collection(gs)),
                    Err(er) => Err(er),
                }
            },
            _ => Err(Error::Shape),
        }
    } else {
        Err(Error::Shape)
    }
}

fn geometry_item_value(e: Event) -> (r: Result<Geometry, Error>)
    ensures
        r matches Ok(g) ==> geometry_item_rule(event_view(e)) == Ok::<_, crate::error::ErrorV>(geometry_view(g)),
        r matches Err(er) ==> geometry_item_rule(event_view(e)) == Err::<crate::value::GeometryV, _>(er@),
    decreases e, 2int,
{
    match e {
        Event::NewtypeVariant { name: _, variant, value } => geometry_value(variant, *value),
        _ => Err(Error::Shape),
    }
}

fn geometry_list_value(items: Vec<Event>) -> (r: Result<Vec<Geometry>, Error>)
    ensures
        r matches Ok(gs) ==> geometry_list_rule(events_view(items@)) == Ok::<_, crate::error::ErrorV>(
            geometries_view(gs@),
        ),
        r matches Err(er) ==> geometry_list_rule(events_view(items@)) == Err::<Seq<crate::value::GeometryV>, _>(er@),
    decreases items@, 0int,
{
    let ghost orig = items@;
    let mut items = items;
    if items.len() == 0 {
        let r: Vec<Geometry> = Vec::new();
        return Ok(r);
    }
    let first = items.remove(0);
    proof {
        assert(first == orig[0]);
        assert(items@ =~= orig.subrange(1, orig.len() as int));
        assert(decreases_to!(orig => orig.subrange(1, orig.len() as int)));
        assert(decreases_to!(orig => orig[0]));
        assert(events_view(orig).subrange(1, events_view(orig).len() as int) =~= events_view(
            orig.subrange(1, orig.len() as int),
        ));
    }
    match geometry_item_value(first) {
        Err(er) => Err(er),
        Ok(g) => match geometry_list_value(items) {
            Err(er) => Err(er),
            Ok(mut gs) => {
                let ghost gs0 = gs@;
                gs.insert(0, g);
                proof {
                    assert(gs@ =~= seq![g] + gs0);
                    assert(gs@.subrange(1, gs@.len() as int) =~= gs0);
                    assert(geometries_view(gs@) =~= seq![geometry_view(g)] + geometries_view(
                        gs0,
                    ));
                }
                Ok(gs)
            },
        },
    }
}

fn function_value(variant: String, fields: Vec<Event>) -> (r: Result<Function, Error>)
    ensures
        r matches Ok(f) ==> function_rule(variant@, events_view(fields@)) == Ok::<_, crate::error::ErrorV>(
            function_view(f),
        ),
        r matches Err(er) ==> function_rule(variant@, events_view(fields@)) == Err::<crate::value::FunctionV, _>(er@),
    decreases fields@, 1int,
{
    let ghost orig = fields@;
    proof {
        lemma_events_view_len(orig);
    }
    if variant == "Cast".to_owned() {
        if fields.len() == 2 {
            proof {
                lemma_events_view_index(orig, 0);
                lemma_events_view_index(orig, 1);
                assert(decreases_to!(orig => orig[1]));
            }
            let mut fields = fields;
            let f0 = fields.remove(0);
            let f1 = fields.remove(0);
            proof {
                assert(f0 == orig[0]);
                assert(f1 == orig[1]);
            }
            match f0 {
                Event::Str(name) => match to_value(f1) {
                    Ok(v) => Ok(Function::Cast(name, v)),
                    Err(er) => Err(er),
                },
                _ => Err(Error::Shape),
            }
        } else {
            Err(Error::Shape)
        }
    } else if variant == "Normal".to_owned() {
        if fields.len() == 2 {
            proof {
                lemma_events_view_index(orig, 0);
                lemma_events_view_index(orig, 1);
                assert(decreases_to!(orig => orig[1]));
            }
            let mut fields = fields;
            let f0 = fields.remove(0);
            let f1 = fields.remove(0);
            proof {
                assert(f0 == orig[0]);
                assert(f1 == orig[1]);
            }
            match (f0, f1) {
                (Event::Str(name), Event::Sequence(args)) => {
                    proof {
                        assert(decreases_to!(f1 => args));
                        assert(decreases_to!(args => args@));
                    }
                    match convert_vec(args) {
                        Ok(vs) => Ok(Function::Normal(name, vs)),
                        Err(er) => Err(er),
                    }
                },
                _ => Err(Error::Shape),
            }
        } else {
            Err(Error::Shape)
        }
    } else {
        Err(Error::Shape)
    }
}

fn subquery_value(variant: String, value: Event) -> (r: Result<Subquery, Error>)
    ensures
        r matches Ok(sq) ==> subquery_rule(variant@, event_view(value)) == Ok::<_, crate::error::ErrorV>(
            subquery_view(sq),
        ),
        r matches Err(er) ==> subquery_rule(variant@, event_view(value)) == Err::<crate::value::SubqueryV, _>(er@),
    decreases value, 1int,
{
    if variant == "Value".to_owned() {
        match to_value(value) {
            Ok(v) => Ok(Subquery::Value(v)),
            Err(er) => Err(er),
        }
    } else {
        Err(Error::Shape)
    }
}

fn expr_fields_value(fields: Vec<(String, Event)>) -> (r: Result<Expression, Error>)
    ensures
        r matches Ok(x) ==> expr_fields_rule(event_fields_view(fields@)) == Ok::<_, crate::error::ErrorV>(
            expression_view(x),
        ),
        r matches Err(er) ==> expr_fields_rule(event_fields_view(fields@)) == Err::<crate::value::ExpressionV, _>(er@),
    decreases fields@, 1int,
{
    if fields.len() == 3 {
        let ghost orig = fields@;
        proof {
            lemma_event_fields_view_index(orig, 0);
            lemma_event_fields_view_index(orig, 1);
            lemma_event_fields_view_index(orig, 2);
            assert(decreases_to!(orig => orig[0]));
            assert(decreases_to!(orig[0] => orig[0].1));
            assert(decreases_to!(orig => orig[2]));
            assert(decreases_to!(orig[2] => orig[2].1));
        }
        let mut fields = fields;
        let (k0, v0) = fields.remove(0);
        let (k1, v1) = fields.remove(0);
        let (k2, v2) = fields.remove(0);
        proof {
            assert((k0, v0) == orig[0]);
            assert((k1, v1) == orig[1]);
            assert((k2, v2) == orig[2]);
        }
        if k0 == "l".to_owned() && k1 == "o".to_owned() && k2 == "r".to_owned() {
            match to_value(v0) {
                Ok(l) => match operator_value(v1) {
                    Ok(o) => match to_value(v2) {
                        Ok(rv) => Ok(Expression { l, o, r: rv }),
                        Err(er) => Err(er),
                    },
                    Err(er) => Err(er),
                },
                Err(er) => Err(er),
            }
        } else {
            Err(Error::Shape)
        }
    } else {
        proof {
            lemma_event_fields_view_len(fields@);
        }
        Err(Error::Shape)
    }
}

} // verus!
