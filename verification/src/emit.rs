//! The canonical emission of a value: the event tree that a `Value` itself
//! presents to the engine when it is used as a source.
//!
//! The central law of the engine is stated on `Value::to_event`: for every
//! well-formed value, converting the events it emits yields that value back
//! unchanged. Every emitter here carries its share of that proof.
use vstd::prelude::*;
use crate::error::ErrorV;
use crate::event::Event;
use crate::event::EventV;
use crate::event::event_fields_view;
use crate::event::event_pairs_view;
use crate::event::event_view;
use crate::event::events_view;
use crate::event::lemma_event_fields_view_index;
use crate::event::lemma_event_fields_view_len;
use crate::event::lemma_events_view_index;
use crate::event::lemma_events_view_len;
use crate::rules::bound_rule;
use crate::rules::convert_list;
use crate::rules::convert_map;
use crate::rules::convert_spec;
use crate::rules::datetime_rule;
use crate::rules::dir_rule;
use crate::rules::duration_rule;
use crate::rules::edges_fields_rule;
use crate::rules::entry_list_rule;
use crate::rules::entry_rule;
use crate::rules::expr_fields_rule;
use crate::rules::function_rule;
use crate::rules::geometry_item_rule;
use crate::rules::geometry_list_rule;
use crate::rules::geometry_rule;
use crate::rules::id_rule;
use crate::rules::lemma_variant_names;
use crate::rules::model_rule;
use crate::rules::obj_insert;
use crate::rules::operator_rule;
use crate::rules::part_list_rule;
use crate::rules::part_rule;
use crate::rules::range_fields_rule;
use crate::rules::string_rule;
use crate::rules::subquery_rule;
use crate::rules::table_list_rule;
use crate::rules::table_rule;
use crate::rules::thing_fields_rule;
use crate::rules::thing_rule;
use crate::token::lemma_token_values;
use crate::value::Datetime;
use crate::value::Dir;
use crate::value::Duration;
use crate::value::Edges;
use crate::value::Entry;
use crate::value::Expression;
use crate::value::Function;
use crate::value::Geometry;
use crate::value::Id;
use crate::value::Model;
use crate::value::Number;
use crate::value::Operator;
use crate::value::Part;
use crate::value::Range;
use crate::value::RangeBound;
use crate::value::Subquery;
use crate::value::Thing;
use crate::value::Value;
use crate::value::ValueV;
use crate::value::bound_view;
use crate::value::edges_view;
use crate::value::entries_view;
use crate::value::entry_view;
use crate::value::expression_view;
use crate::value::function_view;
use crate::value::geometries_view;
use crate::value::geometry_view;
use crate::value::id_view;
use crate::value::keys_distinct;
use crate::value::model_view;
use crate::value::object_view;
use crate::value::part_view;
use crate::value::range_view;
use crate::value::subquery_view;
use crate::value::thing_view;
use crate::value::value_view;
use crate::value::values_view;
use crate::value::wf_entries;
use crate::value::wf_entry;
use crate::value::wf_object;
use crate::value::wf_value;
use crate::value::wf_values;

verus! {

fn emit_id(id: Id) -> (e: Event)
    ensures
        id_rule(event_view(e)) == Ok::<_, ErrorV>(id_view(id)),
{
    proof {
        lemma_variant_names();
        reveal_with_fuel(event_view, 3);
    }
    match id {
        Id::Number(n) => Event::NewtypeVariant {
            name: "Id".to_owned(),
            variant: "Number".to_owned(),
            value: Box::new(Event::I64(n)),
        },
        Id::Text(s) => Event::NewtypeVariant {
            name: "Id".to_owned(),
            variant: "Text".to_owned(),
            value: Box::new(Event::Str(s)),
        },
    }
}

fn emit_bound(b: RangeBound) -> (e: Event)
    ensures
        bound_rule(event_view(e)) == Ok::<_, ErrorV>(bound_view(b)),
{
    proof {
        lemma_variant_names();
        reveal_with_fuel(event_view, 2);
    }
    match b {
        RangeBound::Unbounded => Event::UnitVariant {
            name: "Bound".to_owned(),
            variant: "Unbounded".to_owned(),
        },
        RangeBound::Included(id) => Event::NewtypeVariant {
            name: "Bound".to_owned(),
            variant: "Included".to_owned(),
            value: Box::new(emit_id(id)),
        },
        RangeBound::Excluded(id) => Event::NewtypeVariant {
            name: "Bound".to_owned(),
            variant: "Excluded".to_owned(),
            value: Box::new(emit_id(id)),
        },
    }
}

fn emit_dir(d: Dir) -> (e: Event)
    ensures
        dir_rule(event_view(e)) == Ok::<_, ErrorV>(d),
{
    proof {
        lemma_variant_names();
        reveal_with_fuel(event_view, 2);
    }
    match d {
        Dir::In => Event::UnitVariant { name: "Dir".to_owned(), variant: "In".to_owned() },
        Dir::Out => Event::UnitVariant { name: "Dir".to_owned(), variant: "Out".to_owned() },
        Dir::Both => Event::UnitVariant { name: "Dir".to_owned(), variant: "Both".to_owned() },
    }
}

fn emit_operator(o: Operator) -> (e: Event)
    ensures
        operator_rule(event_view(e)) == Ok::<_, ErrorV>(o),
{
    proof {
        lemma_variant_names();
        reveal_with_fuel(event_view, 2);
    }
    match o {
        Operator::Equal => Event::UnitVariant {
            name: "Operator".to_owned(),
            variant: "Equal".to_owned(),
        },
        Operator::NotEqual => Event::UnitVariant {
            name: "Operator".to_owned(),
            variant: "NotEqual".to_owned(),
        },
    }
}

fn emit_parts(ps: Vec<Part>) -> (r: Vec<Event>)
    ensures
        part_list_rule(events_view(r@)) == Ok::<_, ErrorV>(
            ps@.map_values(|p: Part| part_view(p)),
        ),
    decreases ps@,
{
    let ghost orig = ps@;
    let mut ps = ps;
    if ps.len() == 0 {
        let r: Vec<Event> = Vec::new();
        proof {
            assert(orig.map_values(|p: Part| part_view(p)) =~= Seq::<
                crate::value::PartV,
            >::empty());
        }
        return r;
    }
    let first = ps.remove(0);
    proof {
        assert(first == orig[0]);
        assert(ps@ =~= orig.subrange(1, orig.len() as int));
        assert(decreases_to!(orig => orig.subrange(1, orig.len() as int)));
        lemma_variant_names();
        reveal_with_fuel(event_view, 3);
    }
    let ev: Event = match first {
        Part::All => Event::UnitVariant { name: "Part".to_owned(), variant: "All".to_owned() },
        Part::Field(s) => Event::NewtypeVariant {
            name: "Part".to_owned(),
            variant: "Field".to_owned(),
            value: Box::new(Event::Str(s)),
        },
    };
    let mut rest = emit_parts(ps);
    let ghost restv = rest@;
    rest.insert(0, ev);
    proof {
        assert(rest@ =~= seq![ev] + restv);
        assert(rest@.subrange(1, rest@.len() as int) =~= restv);
        assert(events_view(rest@) =~= seq![event_view(ev)] + events_view(restv));
        assert(events_view(rest@).subrange(1, events_view(rest@).len() as int) =~= events_view(
            restv,
        ));
        assert(part_rule(event_view(ev)) == Ok::<_, ErrorV>(part_view(first)));
        assert(orig.map_values(|p: Part| part_view(p)) =~= seq![part_view(first)]
            + orig.subrange(1, orig.len() as int).map_values(|p: Part| part_view(p)));
    }
    rest
}

fn emit_tables(ts: Vec<String>) -> (r: Vec<Event>)
    ensures
        table_list_rule(events_view(r@)) == Ok::<_, ErrorV>(
            ts@.map_values(|t: String| t@),
        ),
    decreases ts@,
{
    let ghost orig = ts@;
    let mut ts = ts;
    if ts.len() == 0 {
        let r: Vec<Event> = Vec::new();
        proof {
            assert(orig.map_values(|t: String| t@) =~= Seq::<Seq<char>>::empty());
        }
        return r;
    }
    let first = ts.remove(0);
    proof {
        assert(first == orig[0]);
        assert(ts@ =~= orig.subrange(1, orig.len() as int));
        assert(decreases_to!(orig => orig.subrange(1, orig.len() as int)));
        reveal_with_fuel(event_view, 3);
    }
    let ev = Event::NewtypeStruct {
        name: "$dynval::Table".to_owned(),
        value: Box::new(Event::Str(first)),
    };
    let mut rest = emit_tables(ts);
    let ghost restv = rest@;
    rest.insert(0, ev);
    proof {
        assert(rest@ =~= seq![ev] + restv);
        assert(rest@.subrange(1, rest@.len() as int) =~= restv);
        assert(events_view(rest@) =~= seq![event_view(ev)] + events_view(restv));
        assert(events_view(rest@).subrange(1, events_view(rest@).len() as int) =~= events_view(
            restv,
        ));
        assert(table_rule(event_view(ev)) == Ok::<_, ErrorV>(orig[0]@));
        assert(orig.map_values(|t: String| t@) =~= seq![orig[0]@] + orig.subrange(
            1,
            orig.len() as int,
        ).map_values(|t: String| t@));
    }
    rest
}

fn emit_duration(d: Duration) -> (e: Event)
    requires
        d.nanos < 1000000000,
    ensures
        duration_rule(event_view(e)) == Ok::<_, ErrorV>(d),
{
    let mut fields: Vec<(String, Event)> = Vec::new();
    fields.push(("secs".to_owned(), Event::U64(d.secs)));
    fields.push(("nanos".to_owned(), Event::U32(d.nanos)));
    proof {
        reveal_with_fuel(event_view, 2);
        lemma_event_fields_view_len(fields@);
        lemma_event_fields_view_index(fields@, 0);
        lemma_event_fields_view_index(fields@, 1);
        assert(event_view(fields@[0].1) == EventV::U64(d.secs));
        assert(event_view(fields@[1].1) == EventV::U32(d.nanos));
    }
    Event::Struct { name: "Duration".to_owned(), fields }
}

fn emit_datetime(d: Datetime) -> (e: Event)
    requires
        d.nanos < 1000000000,
    ensures
        datetime_rule(event_view(e)) == Ok::<_, ErrorV>(d),
{
    let mut fields: Vec<(String, Event)> = Vec::new();
    fields.push(("secs".to_owned(), Event::I64(d.secs)));
    fields.push(("nanos".to_owned(), Event::U32(d.nanos)));
    proof {
        reveal_with_fuel(event_view, 2);
        lemma_event_fields_view_len(fields@);
        lemma_event_fields_view_index(fields@, 0);
        lemma_event_fields_view_index(fields@, 1);
        assert(event_view(fields@[0].1) == EventV::I64(d.secs));
        assert(event_view(fields@[1].1) == EventV::U32(d.nanos));
    }
    Event::Struct { name: "Datetime".to_owned(), fields }
}

fn emit_thing(t: Thing) -> (e: Event)
    ensures
        thing_rule(event_view(e)) == Ok::<_, ErrorV>(thing_view(t)),
        e matches Event::Struct { name, fields } && name@ == "$dynval::Thing"@
            && thing_fields_rule(event_fields_view(fields@)) == Ok::<_, ErrorV>(thing_view(t)),
{
    let id_ev = emit_id(t.id);
    let mut fields: Vec<(String, Event)> = Vec::new();
    let ghost tbv = t.tb@;
    fields.push(("tb".to_owned(), Event::Str(t.tb)));
    fields.push(("id".to_owned(), id_ev));
    proof {
        reveal_with_fuel(event_view, 2);
        lemma_event_fields_view_len(fields@);
        lemma_event_fields_view_index(fields@, 0);
        lemma_event_fields_view_index(fields@, 1);
        assert(event_view(fields@[0].1) == EventV::Str(tbv));
    }
    Event::Struct { name: "$dynval::Thing".to_owned(), fields }
}

fn emit_range(rg: Range) -> (e: Event)
    ensures
        e matches Event::Struct { name, fields } && name@ == "$dynval::Range"@
            && range_fields_rule(event_fields_view(fields@)) == Ok::<_, ErrorV>(
            range_view(rg),
        ),
{
    let beg_ev = emit_bound(rg.beg);
    let end_ev = emit_bound(rg.end);
    let mut fields: Vec<(String, Event)> = Vec::new();
    let ghost tbv = rg.tb@;
    fields.push(("tb".to_owned(), Event::Str(rg.tb)));
    fields.push(("beg".to_owned(), beg_ev));
    fields.push(("end".to_owned(), end_ev));
    proof {
        reveal_with_fuel(event_view, 2);
        lemma_event_fields_view_len(fields@);
        lemma_event_fields_view_index(fields@, 0);
        lemma_event_fields_view_index(fields@, 1);
        lemma_event_fields_view_index(fields@, 2);
        assert(event_view(fields@[0].1) == EventV::Str(tbv));
    }
    Event::Struct { name: "$dynval::Range".to_owned(), fields }
}

fn emit_edges(ed: Edges) -> (e: Event)
    ensures
        e matches Event::Struct { name, fields } && name@ == "$dynval::Edges"@
            && edges_fields_rule(event_fields_view(fields@)) == Ok::<_, ErrorV>(
            edges_view(ed),
        ),
{
    let dir_ev = emit_dir(ed.dir);
    let from_ev = emit_thing(ed.from);
    let tables = emit_tables(ed.what);
    let ghost whatv = tables@;
    let what_ev = Event::Sequence(tables);
    let mut fields: Vec<(String, Event)> = Vec::new();
    fields.push(("dir".to_owned(), dir_ev));
    fields.push(("from".to_owned(), from_ev));
    fields.push(("what".to_owned(), what_ev));
    proof {
        reveal_with_fuel(event_view, 2);
        lemma_event_fields_view_len(fields@);
        lemma_event_fields_view_index(fields@, 0);
        lemma_event_fields_view_index(fields@, 1);
        lemma_event_fields_view_index(fields@, 2);
        assert(event_view(fields@[2].1) == EventV::Sequence(events_view(whatv)));
    }
    Event::Struct { name: "$dynval::Edges".to_owned(), fields }
}

fn emit_model(m: Model) -> (e: Event)
    ensures
        e matches Event::TupleVariant { name, variant, fields } && name@ == "$dynval::Model"@
            && model_rule(variant@, events_view(fields@)) == Ok::<_, ErrorV>(model_view(m)),
{
    proof {
        lemma_variant_names();
        reveal_with_fuel(event_view, 2);
    }
    match m {
        Model::Count(name, n) => {
            let mut fs: Vec<Event> = Vec::new();
            fs.push(Event::Str(name));
            fs.push(Event::U64(n));
            proof {
                lemma_events_view_len(fs@);
                lemma_events_view_index(fs@, 0);
                lemma_events_view_index(fs@, 1);
            }
            Event::TupleVariant {
                name: "$dynval::Model".to_owned(),
                variant: "Count".to_owned(),
                fields: fs,
            }
        },
        Model::Range(name, a, b) => {
            let mut fs: Vec<Event> = Vec::new();
            fs.push(Event::Str(name));
            fs.push(Event::U64(a));
            fs.push(Event::U64(b));
            proof {
                lemma_events_view_len(fs@);
                lemma_events_view_index(fs@, 0);
                lemma_events_view_index(fs@, 1);
                lemma_events_view_index(fs@, 2);
            }
            Event::TupleVariant {
                name: "$dynval::Model".to_owned(),
                variant: "Range".to_owned(),
                fields: fs,
            }
        },
    }
}


/// Inserting a key that no entry of the object holds appends the entry.
proof fn lemma_obj_insert_fresh(es: Seq<(Seq<char>, ValueV)>, k: Seq<char>, v: ValueV)
    requires
        forall|i: int| 0 <= i < es.len() ==> es[i].0 != k,
    ensures
        obj_insert(es, k, v) == es + seq![(k, v)],
    decreases es,
{
    if es.len() == 0 {
        assert(obj_insert(es, k, v) =~= es + seq![(k, v)]);
    } else {
        lemma_obj_insert_fresh(es.subrange(1, es.len() as int), k, v);
        assert(obj_insert(es, k, v) =~= es + seq![(k, v)]);
    }
}

fn emit_values(vs: Vec<Value>) -> (r: Vec<Event>)
    requires
        wf_values(values_view(vs@)),
    ensures
        convert_list(events_view(r@)) == Ok::<_, ErrorV>(values_view(vs@)),
    decreases vs@,
{
    let ghost orig = vs@;
    let mut vs = vs;
    if vs.len() == 0 {
        let r: Vec<Event> = Vec::new();
        return r;
    }
    let first = vs.remove(0);
    proof {
        assert(first == orig[0]);
        assert(vs@ =~= orig.subrange(1, orig.len() as int));
        assert(decreases_to!(orig => orig.subrange(1, orig.len() as int)));
        assert(decreases_to!(orig => orig[0]));
        assert(values_view(orig).subrange(1, values_view(orig).len() as int) =~= values_view(
            orig.subrange(1, orig.len() as int),
        ));
    }
    let ev = first.to_event();
    let mut rest = emit_values(vs);
    let ghost restv = rest@;
    rest.insert(0, ev);
    proof {
        assert(rest@ =~= seq![ev] + restv);
        assert(rest@.subrange(1, rest@.len() as int) =~= restv);
        assert(events_view(rest@) =~= seq![event_view(ev)] + events_view(restv));
        assert(events_view(rest@).subrange(1, events_view(rest@).len() as int) =~= events_view(
            restv,
        ));
    }
    rest
}

fn emit_entries(es: Vec<Entry>) -> (r: Vec<Event>)
    requires
        wf_entries(entries_view(es@)),
    ensures
        entry_list_rule(events_view(r@)) == Ok::<_, ErrorV>(entries_view(es@)),
    decreases es@,
{
    let ghost orig = es@;
    let mut es = es;
    if es.len() == 0 {
        let r: Vec<Event> = Vec::new();
        return r;
    }
    let first = es.remove(0);
    proof {
        assert(first == orig[0]);
        assert(es@ =~= orig.subrange(1, orig.len() as int));
        assert(decreases_to!(orig => orig.subrange(1, orig.len() as int)));
        assert(decreases_to!(orig => orig[0]));
        assert(entries_view(orig).subrange(1, entries_view(orig).len() as int) =~= entries_view(
            orig.subrange(1, orig.len() as int),
        ));
        assert(entries_view(orig)[0] == entry_view(first));
        assert(wf_entry(entry_view(first)));
    }
    let ev: Event = match first {
        Entry::Value(v) => Event::NewtypeVariant {
            name: "Entry".to_owned(),
            variant: "Value".to_owned(),
            value: Box::new(v.to_event()),
        },
    };
    proof {
        reveal_with_fuel(event_view, 2);
        assert(entry_rule(event_view(ev)) == Ok::<_, ErrorV>(entry_view(first)));
    }
    let mut rest = emit_entries(es);
    let ghost restv = rest@;
    rest.insert(0, ev);
    proof {
        assert(rest@ =~= seq![ev] + restv);
        assert(rest@.subrange(1, rest@.len() as int) =~= restv);
        assert(events_view(rest@) =~= seq![event_view(ev)] + events_view(restv));
        assert(events_view(rest@).subrange(1, events_view(rest@).len() as int) =~= events_view(
            restv,
        ));
    }
    rest
}

fn emit_geometry(g: Geometry) -> (e: Event)
    ensures
        geometry_item_rule(event_view(e)) == Ok::<_, ErrorV>(geometry_view(g)),
        e matches Event::NewtypeVariant { name, variant, value } && name@
            == "$dynval::Geometry"@ && geometry_rule(variant@, event_view(*value)) == Ok::<
            _,
            ErrorV,
        >(geometry_view(g)),
    decreases g,
{
    proof {
        lemma_variant_names();
    }
    match g {
        Geometry::Point { x, y } => {
            let mut coords: Vec<Event> = Vec::new();
            coords.push(Event::Float(x));
            coords.push(Event::Float(y));
            proof {
                reveal_with_fuel(event_view, 3);
                lemma_events_view_len(coords@);
                lemma_events_view_index(coords@, 0);
                lemma_events_view_index(coords@, 1);
                assert(event_view(coords@[0]) == EventV::Float(x));
                assert(event_view(coords@[1]) == EventV::Float(y));
            }
            Event::NewtypeVariant {
                name: "$dynval::Geometry".to_owned(),
                variant: "Point".to_owned(),
                value: Box::new(Event::Sequence(coords)),
            }
        },
        Geometry::Collection(gs) => {
            proof {
                assert(decreases_to!(gs => gs@));
            }
            let items = emit_geometries(gs);
            proof {
                reveal_with_fuel(event_view, 2);
            }
            Event::NewtypeVariant {
                name: "$dynval::Geometry".to_owned(),
                variant: "Collection".to_owned(),
                value: Box::new(Event::Sequence(items)),
            }
        },
    }
}

fn emit_geometries(gs: Vec<Geometry>) -> (r: Vec<Event>)
    ensures
        geometry_list_rule(events_view(r@)) == Ok::<_, ErrorV>(geometries_view(gs@)),
    decreases gs@,
{
    let ghost orig = gs@;
    let mut gs = gs;
    if gs.len() == 0 {
        let r: Vec<Event> = Vec::new();
        return r;
    }
    let first = gs.remove(0);
    proof {
        assert(first == orig[0]);
        assert(gs@ =~= orig.subrange(1, orig.len() as int));
        assert(decreases_to!(orig => orig.subrange(1, orig.len() as int)));
        assert(decreases_to!(orig => orig[0]));
        assert(geometries_view(orig).subrange(1, geometries_view(orig).len() as int)
            =~= geometries_view(orig.subrange(1, orig.len() as int)));
    }
    let ev = emit_geometry(first);
    let mut rest = emit_geometries(gs);
    let ghost restv = rest@;
    rest.insert(0, ev);
    proof {
        assert(rest@ =~= seq![ev] + restv);
        assert(rest@.subrange(1, rest@.len() as int) =~= restv);
        assert(events_view(rest@) =~= seq![event_view(ev)] + events_view(restv));
        assert(events_view(rest@).subrange(1, events_view(rest@).len() as int) =~= events_view(
            restv,
        ));
    }
    rest
}

fn emit_object(es: Vec<(String, Value)>, Ghost(acc): Ghost<Seq<(Seq<char>, ValueV)>>) -> (r:
    Vec<(Event, Event)>)
    requires
        wf_object(object_view(es@)),
        keys_distinct(acc + object_view(es@)),
    ensures
        convert_map(event_pairs_view(r@), acc) == Ok::<_, ErrorV>(acc + object_view(es@)),
    decreases es@,
{
    let ghost orig = es@;
    let mut es = es;
    if es.len() == 0 {
        let r: Vec<(Event, Event)> = Vec::new();
        proof {
            assert(acc + object_view(orig) =~= acc);
        }
        return r;
    }
    let (k, v) = es.remove(0);
    let ghost kv = k@;
    let ghost vv = value_view(v);
    proof {
        assert((k, v) == orig[0]);
        assert(es@ =~= orig.subrange(1, orig.len() as int));
        assert(decreases_to!(orig => orig.subrange(1, orig.len() as int)));
        assert(decreases_to!(orig => orig[0]));
        assert(decreases_to!(orig[0] => orig[0].1));
        crate::value::lemma_object_view_len(orig);
        assert(object_view(orig)[0] == (kv, vv));
        assert(object_view(orig).subrange(1, object_view(orig).len() as int) =~= object_view(
            orig.subrange(1, orig.len() as int),
        ));
    }
    let kev = Event::Str(k);
    let vev = v.to_event();
    let ghost acc2 = obj_insert(acc, kv, vv);
    proof {
        assert forall|i: int| 0 <= i < acc.len() implies acc[i].0 != kv by {
            assert((acc + object_view(orig))[i] == acc[i]);
            assert((acc + object_view(orig))[acc.len() as int] == object_view(orig)[0]);
        }
        lemma_obj_insert_fresh(acc, kv, vv);
        assert(acc2 + object_view(es@) =~= acc + object_view(orig));
    }
    let mut rest = emit_object(es, Ghost(acc2));
    let ghost restv = rest@;
    rest.insert(0, (kev, vev));
    proof {
        assert(rest@ =~= seq![(kev, vev)] + restv);
        assert(rest@.subrange(1, rest@.len() as int) =~= restv);
        assert(event_pairs_view(rest@) =~= seq![(event_view(kev), event_view(vev))]
            + event_pairs_view(restv));
        assert(event_pairs_view(rest@).subrange(1, event_pairs_view(rest@).len() as int)
            =~= event_pairs_view(restv));
        assert(string_rule(event_view(kev)) == Ok::<_, ErrorV>(kv));
    }
    rest
}

fn emit_function(f: Function) -> (e: Event)
    requires
        wf_value(ValueV::Function(function_view(f))),
    ensures
        e matches Event::TupleVariant { name, variant, fields } && name@
            == "$dynval::Function"@ && function_rule(variant@, events_view(fields@)) == Ok::<
            _,
            ErrorV,
        >(function_view(f)),
    decreases f,
{
    proof {
        lemma_variant_names();
    }
    match f {
        Function::Cast(name, v) => {
            let vev = v.to_event();
            let mut fs: Vec<Event> = Vec::new();
            let ghost namev = name@;
            fs.push(Event::Str(name));
            fs.push(vev);
            proof {
                reveal_with_fuel(event_view, 2);
                lemma_events_view_len(fs@);
                lemma_events_view_index(fs@, 0);
                lemma_events_view_index(fs@, 1);
                assert(event_view(fs@[0]) == EventV::Str(namev));
            }
            Event::TupleVariant {
                name: "$dynval::Function".to_owned(),
                variant: "Cast".to_owned(),
                fields: fs,
            }
        },
        Function::Normal(name, args) => {
            proof {
                assert(decreases_to!(args => args@));
            }
            let argevs = emit_values(args);
            let ghost argevsv = argevs@;
            let mut fs: Vec<Event> = Vec::new();
            let ghost namev = name@;
            fs.push(Event::Str(name));
            fs.push(Event::Sequence(argevs));
            proof {
                reveal_with_fuel(event_view, 2);
                lemma_events_view_len(fs@);
                lemma_events_view_index(fs@, 0);
                lemma_events_view_index(fs@, 1);
                assert(event_view(fs@[0]) == EventV::Str(namev));
                assert(event_view(fs@[1]) == EventV::Sequence(events_view(argevsv)));
            }
            Event::TupleVariant {
                name: "$dynval::Function".to_owned(),
                variant: "Normal".to_owned(),
                fields: fs,
            }
        },
    }
}

fn emit_subquery(s: Subquery) -> (e: Event)
    requires
        wf_value(ValueV::Subquery(subquery_view(s))),
    ensures
        e matches Event::NewtypeVariant { name, variant, value } && name@
            == "$dynval::Subquery"@ && subquery_rule(variant@, event_view(*value)) == Ok::<
            _,
            ErrorV,
        >(subquery_view(s)),
    decreases s,
{
    match s {
        Subquery::Value(v) => {
            let vev = v.to_event();
            Event::NewtypeVariant {
                name: "$dynval::Subquery".to_owned(),
                variant: "Value".to_owned(),
                value: Box::new(vev),
            }
        },
    }
}

fn emit_expression(x: Expression) -> (e: Event)
    requires
        wf_value(ValueV::Expression(expression_view(x))),
    ensures
        e matches Event::Struct { name, fields } && name@ == "$dynval::Expression"@
            && expr_fields_rule(event_fields_view(fields@)) == Ok::<_, ErrorV>(
            expression_view(x),
        ),
    decreases x,
{
    let lev = x.l.to_event();
    let oev = emit_operator(x.o);
    let rev = x.r.to_event();
    let mut fields: Vec<(String, Event)> = Vec::new();
    fields.push(("l".to_owned(), lev));
    fields.push(("o".to_owned(), oev));
    fields.push(("r".to_owned(), rev));
    proof {
        lemma_event_fields_view_len(fields@);
        lemma_event_fields_view_index(fields@, 0);
        lemma_event_fields_view_index(fields@, 1);
        lemma_event_fields_view_index(fields@, 2);
    }
    Event::Struct { name: "$dynval::Expression".to_owned(), fields }
}

impl Value {
    /// The canonical emission of a well-formed value, and the round-trip
    /// law of the engine: converting the events that a value emits yields
    /// that value back, unchanged, for every case of the union.
    #[verifier::rlimit(100)]
    #[verifier::spinoff_prover]
    pub fn to_event(self) -> (e: Event)
        requires
            wf_value(value_view(self)),
        ensures
            convert_spec(event_view(e)) == Ok::<_, ErrorV>(value_view(self)),
        decreases self,
    {
        proof {
            lemma_token_values();
            lemma_variant_names();
            reveal_with_fuel(event_view, 4);
            reveal_with_fuel(convert_spec, 3);
            reveal_with_fuel(crate::rules::newtype_struct_rule, 2);
            reveal_with_fuel(crate::rules::newtype_variant_rule, 2);
            reveal_with_fuel(crate::rules::tuple_variant_rule, 2);
            reveal_with_fuel(crate::rules::struct_rule, 2);
        }
        match self {
            Value::Absent => {
                let e0 = Event::UnitVariant {
                    name: "$dynval::Value".to_owned(),
                    variant: "None".to_owned(),
                };
                proof {
                    assert(event_view(e0) == EventV::UnitVariant {
                        name: "$dynval::Value"@,
                        variant: "None"@,
                    });
                    assert(convert_spec(event_view(e0)) == Ok::<_, ErrorV>(ValueV::Absent));
                    assert(value_view(self) == ValueV::Absent);
                }
                e0
            },
            Value::Null => Event::UnitVariant {
                name: "$dynval::Value".to_owned(),
                variant: "Null".to_owned(),
            },
            Value::False => Event::UnitVariant {
                name: "$dynval::Value".to_owned(),
                variant: "False".to_owned(),
            },
            Value::True => Event::UnitVariant {
                name: "$dynval::Value".to_owned(),
                variant: "True".to_owned(),
            },
            Value::Number(n) => {
                let inner: Event = match n {
                    Number::Int(v) => Event::NewtypeVariant {
                        name: "$dynval::Number".to_owned(),
                        variant: "Int".to_owned(),
                        value: Box::new(Event::I64(v)),
                    },
                    Number::Float(bits) => Event::NewtypeVariant {
                        name: "$dynval::Number".to_owned(),
                        variant: "Float".to_owned(),
                        value: Box::new(Event::Float(bits)),
                    },
                    Number::Decimal(d) => Event::NewtypeVariant {
                        name: "$dynval::Number".to_owned(),
                        variant: "Decimal".to_owned(),
                        value: Box::new(Event::Decimal(d)),
                    },
                };
                {
                    let eout = Event::NewtypeVariant {
                        name: "$dynval::Value".to_owned(),
                        variant: "Number".to_owned(),
                        value: Box::new(inner),
                    };
                    proof {
                        assert(convert_spec(event_view(inner)) == Ok::<_, ErrorV>(
                            value_view(self),
                        ));
                        assert(convert_spec(event_view(eout)) == Ok::<_, ErrorV>(
                            value_view(self),
                        ));
                    }
                    eout
                }
            },
            Value::Strand(s) => {
                let inner = Event::NewtypeStruct {
                    name: "$dynval::Strand".to_owned(),
                    value: Box::new(Event::Str(s)),
                };
                {
                    let eout = Event::NewtypeVariant {
                        name: "$dynval::Value".to_owned(),
                        variant: "Strand".to_owned(),
                        value: Box::new(inner),
                    };
                    proof {
                        assert(convert_spec(event_view(inner)) == Ok::<_, ErrorV>(
                            value_view(self),
                        ));
                        assert(convert_spec(event_view(eout)) == Ok::<_, ErrorV>(
                            value_view(self),
                        ));
                    }
                    eout
                }
            },
            Value::Duration(d) => {
                let inner = Event::NewtypeStruct {
                    name: "$dynval::Duration".to_owned(),
                    value: Box::new(emit_duration(d)),
                };
                {
                    let eout = Event::NewtypeVariant {
                        name: "$dynval::Value".to_owned(),
                        variant: "Duration".to_owned(),
                        value: Box::new(inner),
                    };
                    proof {
                        assert(convert_spec(event_view(inner)) == Ok::<_, ErrorV>(
                            value_view(self),
                        ));
                        assert(convert_spec(event_view(eout)) == Ok::<_, ErrorV>(
                            value_view(self),
                        ));
                    }
                    eout
                }
            },
            Value::Datetime(d) => {
                let inner = Event::NewtypeStruct {
                    name: "$dynval::Datetime".to_owned(),
                    value: Box::new(emit_datetime(d)),
                };
                {
                    let eout = Event::NewtypeVariant {
                        name: "$dynval::Value".to_owned(),
                        variant: "Datetime".to_owned(),
                        value: Box::new(inner),
                    };
                    proof {
                        assert(convert_spec(event_view(inner)) == Ok::<_, ErrorV>(
                            value_view(self),
                        ));
                        assert(convert_spec(event_view(eout)) == Ok::<_, ErrorV>(
                            value_view(self),
                        ));
                    }
                    eout
                }
            },
            Value::Uuid(bs) => {
                let inner = Event::NewtypeStruct {
                    name: "$dynval::Uuid".to_owned(),
                    value: Box::new(Event::Bytes(bs)),
                };
                {
                    let eout = Event::NewtypeVariant {
                        name: "$dynval::Value".to_owned(),
                        variant: "Uuid".to_owned(),
                        value: Box::new(inner),
                    };
                    proof {
                        assert(convert_spec(event_view(inner)) == Ok::<_, ErrorV>(
                            value_view(self),
                        ));
                        assert(convert_spec(event_view(eout)) == Ok::<_, ErrorV>(
                            value_view(self),
                        ));
                    }
                    eout
                }
            },
            Value::Array(vs) => {
                proof {
                    assert(decreases_to!(vs => vs@));
                }
                let items = emit_values(vs);
                let inner = Event::NewtypeStruct {
                    name: "$dynval::Array".to_owned(),
                    value: Box::new(Event::Sequence(items)),
                };
                {
                    let eout = Event::NewtypeVariant {
                        name: "$dynval::Value".to_owned(),
                        variant: "Array".to_owned(),
                        value: Box::new(inner),
                    };
                    proof {
                        assert(convert_spec(event_view(inner)) == Ok::<_, ErrorV>(
                            value_view(self),
                        ));
                        assert(convert_spec(event_view(eout)) == Ok::<_, ErrorV>(
                            value_view(self),
                        ));
                    }
                    eout
                }
            },
            Value::Object(es) => {
                proof {
                    assert(decreases_to!(es => es@));
                    assert(Seq::<(Seq<char>, ValueV)>::empty() + object_view(es@)
                        =~= object_view(es@));
                }
                let pairs = emit_object(es, Ghost(Seq::empty()));
                let inner = Event::NewtypeStruct {
                    name: "$dynval::Object".to_owned(),
                    value: Box::new(Event::Mapping(pairs)),
                };
                {
                    let eout = Event::NewtypeVariant {
                        name: "$dynval::Value".to_owned(),
                        variant: "Object".to_owned(),
                        value: Box::new(inner),
                    };
                    proof {
                        assert(convert_spec(event_view(inner)) == Ok::<_, ErrorV>(
                            value_view(self),
                        ));
                        assert(convert_spec(event_view(eout)) == Ok::<_, ErrorV>(
                            value_view(self),
                        ));
                    }
                    eout
                }
            },
            Value::Geometry(g) => {
                let inner = emit_geometry(g);
                proof {
                    assert(inner matches Event::NewtypeVariant { .. });
                }
                {
                    let eout = Event::NewtypeVariant {
                        name: "$dynval::Value".to_owned(),
                        variant: "Geometry".to_owned(),
                        value: Box::new(inner),
                    };
                    proof {
                        assert(convert_spec(event_view(inner)) == Ok::<_, ErrorV>(
                            value_view(self),
                        ));
                        assert(convert_spec(event_view(eout)) == Ok::<_, ErrorV>(
                            value_view(self),
                        ));
                    }
                    eout
                }
            },
            Value::Param(s) => {
                let inner = Event::NewtypeStruct {
                    name: "$dynval::Param".to_owned(),
                    value: Box::new(Event::Str(s)),
                };
                {
                    let eout = Event::NewtypeVariant {
                        name: "$dynval::Value".to_owned(),
                        variant: "Param".to_owned(),
                        value: Box::new(inner),
                    };
                    proof {
                        assert(convert_spec(event_view(inner)) == Ok::<_, ErrorV>(
                            value_view(self),
                        ));
                        assert(convert_spec(event_view(eout)) == Ok::<_, ErrorV>(
                            value_view(self),
                        ));
                    }
                    eout
                }
            },
            Value::Idiom(ps) => {
                proof {
                    assert(decreases_to!(ps => ps@));
                }
                let items = emit_parts(ps);
                let inner = Event::NewtypeStruct {
                    name: "$dynval::Idiom".to_owned(),
                    value: Box::new(Event::Sequence(items)),
                };
                {
                    let eout = Event::NewtypeVariant {
                        name: "$dynval::Value".to_owned(),
                        variant: "Idiom".to_owned(),
                        value: Box::new(inner),
                    };
                    proof {
                        assert(convert_spec(event_view(inner)) == Ok::<_, ErrorV>(
                            value_view(self),
                        ));
                        assert(convert_spec(event_view(eout)) == Ok::<_, ErrorV>(
                            value_view(self),
                        ));
                    }
                    eout
                }
            },
            Value::Table(s) => {
                let inner = Event::NewtypeStruct {
                    name: "$dynval::Table".to_owned(),
                    value: Box::new(Event::Str(s)),
                };
                {
                    let eout = Event::NewtypeVariant {
                        name: "$dynval::Value".to_owned(),
                        variant: "Table".to_owned(),
                        value: Box::new(inner),
                    };
                    proof {
                        assert(convert_spec(event_view(inner)) == Ok::<_, ErrorV>(
                            value_view(self),
                        ));
                        assert(convert_spec(event_view(eout)) == Ok::<_, ErrorV>(
                            value_view(self),
                        ));
                    }
                    eout
                }
            },
            Value::Thing(t) => {
                let inner = emit_thing(t);
                proof {
                    assert(inner matches Event::Struct { .. });
                }
                {
                    let eout = Event::NewtypeVariant {
                        name: "$dynval::Value".to_owned(),
                        variant: "Thing".to_owned(),
                        value: Box::new(inner),
                    };
                    proof {
                        assert(convert_spec(event_view(inner)) == Ok::<_, ErrorV>(
                            value_view(self),
                        ));
                        assert(convert_spec(event_view(eout)) == Ok::<_, ErrorV>(
                            value_view(self),
                        ));
                    }
                    eout
                }
            },
            Value::Model(m) => {
                let inner = emit_model(m);
                {
                    let eout = Event::NewtypeVariant {
                        name: "$dynval::Value".to_owned(),
                        variant: "Model".to_owned(),
                        value: Box::new(inner),
                    };
                    proof {
                        assert(convert_spec(event_view(inner)) == Ok::<_, ErrorV>(
                            value_view(self),
                        ));
                        assert(convert_spec(event_view(eout)) == Ok::<_, ErrorV>(
                            value_view(self),
                        ));
                    }
                    eout
                }
            },
            Value::Regex(s) => {
                let inner = Event::NewtypeStruct {
                    name: "$dynval::Regex".to_owned(),
                    value: Box::new(Event::Str(s)),
                };
                {
                    let eout = Event::NewtypeVariant {
                        name: "$dynval::Value".to_owned(),
                        variant: "Regex".to_owned(),
                        value: Box::new(inner),
                    };
                    proof {
                        assert(convert_spec(event_view(inner)) == Ok::<_, ErrorV>(
                            value_view(self),
                        ));
                        assert(convert_spec(event_view(eout)) == Ok::<_, ErrorV>(
                            value_view(self),
                        ));
                    }
                    eout
                }
            },
            Value::Block(es) => {
                proof {
                    assert(decreases_to!(es => es@));
                }
                let items = emit_entries(es);
                let inner = Event::NewtypeStruct {
                    name: "$dynval::Block".to_owned(),
                    value: Box::new(Event::Sequence(items)),
                };
                {
                    let eout = Event::NewtypeVariant {
                        name: "$dynval::Value".to_owned(),
                        variant: "Block".to_owned(),
                        value: Box::new(inner),
                    };
                    proof {
                        assert(convert_spec(event_view(inner)) == Ok::<_, ErrorV>(
                            value_view(self),
                        ));
                        assert(convert_spec(event_view(eout)) == Ok::<_, ErrorV>(
                            value_view(self),
                        ));
                    }
                    eout
                }
            },
            Value::Range(rg) => {
                let inner = emit_range(*rg);
                {
                    let eout = Event::NewtypeVariant {
                        name: "$dynval::Value".to_owned(),
                        variant: "Range".to_owned(),
                        value: Box::new(inner),
                    };
                    proof {
                        assert(convert_spec(event_view(inner)) == Ok::<_, ErrorV>(
                            value_view(self),
                        ));
                        assert(convert_spec(event_view(eout)) == Ok::<_, ErrorV>(
                            value_view(self),
                        ));
                    }
                    eout
                }
            },
            Value::Edges(ed) => {
                let inner = emit_edges(*ed);
                {
                    let eout = Event::NewtypeVariant {
                        name: "$dynval::Value".to_owned(),
                        variant: "Edges".to_owned(),
                        value: Box::new(inner),
                    };
                    proof {
                        assert(convert_spec(event_view(inner)) == Ok::<_, ErrorV>(
                            value_view(self),
                        ));
                        assert(convert_spec(event_view(eout)) == Ok::<_, ErrorV>(
                            value_view(self),
                        ));
                    }
                    eout
                }
            },
            Value::Future(es) => {
                proof {
                    assert(decreases_to!(es => es@));
                }
                let items = emit_entries(es);
                let inner = Event::NewtypeStruct {
                    name: "$dynval::Future".to_owned(),
                    value: Box::new(Event::Sequence(items)),
                };
                {
                    let eout = Event::NewtypeVariant {
                        name: "$dynval::Value".to_owned(),
                        variant: "Future".to_owned(),
                        value: Box::new(inner),
                    };
                    proof {
                        assert(convert_spec(event_view(inner)) == Ok::<_, ErrorV>(
                            value_view(self),
                        ));
                        assert(convert_spec(event_view(eout)) == Ok::<_, ErrorV>(
                            value_view(self),
                        ));
                    }
                    eout
                }
            },
            Value::Constant(c) => {
                let inner: Event = match c {
                    crate::value::Constant::MathE => Event::UnitVariant {
                        name: "$dynval::Constant".to_owned(),
                        variant: "MathE".to_owned(),
                    },
                    crate::value::Constant::MathPi => Event::UnitVariant {
                        name: "$dynval::Constant".to_owned(),
                        variant: "MathPi".to_owned(),
                    },
                };
                {
                    let eout = Event::NewtypeVariant {
                        name: "$dynval::Value".to_owned(),
                        variant: "Constant".to_owned(),
                        value: Box::new(inner),
                    };
                    proof {
                        assert(convert_spec(event_view(inner)) == Ok::<_, ErrorV>(
                            value_view(self),
                        ));
                        assert(convert_spec(event_view(eout)) == Ok::<_, ErrorV>(
                            value_view(self),
                        ));
                    }
                    eout
                }
            },
            Value::Function(f) => {
                let inner = emit_function(*f);
                {
                    let eout = Event::NewtypeVariant {
                        name: "$dynval::Value".to_owned(),
                        variant: "Function".to_owned(),
                        value: Box::new(inner),
                    };
                    proof {
                        assert(convert_spec(event_view(inner)) == Ok::<_, ErrorV>(
                            value_view(self),
                        ));
                        assert(convert_spec(event_view(eout)) == Ok::<_, ErrorV>(
                            value_view(self),
                        ));
                    }
                    eout
                }
            },
            Value::Subquery(sq) => {
                let inner = emit_subquery(*sq);
                {
                    let eout = Event::NewtypeVariant {
                        name: "$dynval::Value".to_owned(),
                        variant: "Subquery".to_owned(),
                        value: Box::new(inner),
                    };
                    proof {
                        assert(convert_spec(event_view(inner)) == Ok::<_, ErrorV>(
                            value_view(self),
                        ));
                        assert(convert_spec(event_view(eout)) == Ok::<_, ErrorV>(
                            value_view(self),
                        ));
                    }
                    eout
                }
            },
            Value::Expression(x) => {
                let inner = emit_expression(*x);
                {
                    let eout = Event::NewtypeVariant {
                        name: "$dynval::Value".to_owned(),
                        variant: "Expression".to_owned(),
                        value: Box::new(inner),
                    };
                    proof {
                        assert(convert_spec(event_view(inner)) == Ok::<_, ErrorV>(
                            value_view(self),
                        ));
                        assert(convert_spec(event_view(eout)) == Ok::<_, ErrorV>(
                            value_view(self),
                        ));
                    }
                    eout
                }
            },
        }
    }
}


} // verus!
