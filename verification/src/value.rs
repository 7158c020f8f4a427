//! The dynamic value: a closed tagged union with one case per kind of
//! runtime value, together with the mathematical image of each case and the
//! well-formedness condition that the engine's laws assume.
use vstd::prelude::*;
use bigdecimal::BigDecimal;

verus! {

/// The numeric leaf: a machine integer, a binary64 float carried by its bit
/// pattern, or an arbitrary-precision decimal.
#[derive(Debug, Clone, PartialEq)]
pub enum Number {
    Int(i64),
    Float(u64),
    Decimal(BigDecimal),
}

/// A span of time: whole seconds and a sub-second nanosecond part, which a
/// well-formed value keeps below one billion.
#[derive(Debug, Clone, PartialEq)]
pub struct Duration {
    pub secs: u64,
    pub nanos: u32,
}

/// A point in time: seconds relative to an epoch and a nanosecond part,
/// which a well-formed value keeps below one billion.
#[derive(Debug, Clone, PartialEq)]
pub struct Datetime {
    pub secs: i64,
    pub nanos: u32,
}

/// The key part of a record identifier.
#[derive(Debug, Clone, PartialEq)]
pub enum Id {
    Number(i64),
    Text(String),
}

/// A record identifier: a table name and a key within the table.
#[derive(Debug, Clone, PartialEq)]
pub struct Thing {
    pub tb: String,
    pub id: Id,
}

/// One step of a path expression.
#[derive(Debug, Clone, PartialEq)]
pub enum Part {
    All,
    Field(String),
}

/// The direction of a graph-edge set.
#[derive(Debug, Clone, PartialEq)]
pub enum Dir {
    In,
    Out,
    Both,
}

/// A set of graph edges: a direction, a source record, and the tables the
/// edges point at.
#[derive(Debug, Clone, PartialEq)]
pub struct Edges {
    pub dir: Dir,
    pub from: Thing,
    pub what: Vec<String>,
}

/// One end of a record range.
#[derive(Debug, Clone, PartialEq)]
pub enum RangeBound {
    Included(Id),
    Excluded(Id),
    Unbounded,
}

/// A range of records of one table.
#[derive(Debug, Clone, PartialEq)]
pub struct Range {
    pub tb: String,
    pub beg: RangeBound,
    pub end: RangeBound,
}

/// A binary operator of an expression.
#[derive(Debug, Clone, PartialEq)]
pub enum Operator {
    Equal,
    NotEqual,
}

/// A binary expression over two values.
#[derive(Debug, PartialEq)]
pub struct Expression {
    pub l: Value,
    pub o: Operator,
    pub r: Value,
}

/// A machine-learning model reference: a name with either an invocation
/// count or a version range.
#[derive(Debug, Clone, PartialEq)]
pub enum Model {
    Count(String, u64),
    Range(String, u64, u64),
}

/// A function call: a cast applied to one value, or a named call over a
/// list of arguments.
#[derive(Debug, PartialEq)]
pub enum Function {
    Cast(String, Value),
    Normal(String, Vec<Value>),
}

/// A subquery payload.
#[derive(Debug, PartialEq)]
pub enum Subquery {
    Value(Value),
}

/// A named constant.
#[derive(Debug, Clone, PartialEq)]
pub enum Constant {
    MathE,
    MathPi,
}

/// One entry of a code block.
#[derive(Debug, PartialEq)]
pub enum Entry {
    Value(Value),
}

/// A geometric value: a point carried by the bit patterns of its two
/// binary64 coordinates, or a collection of geometries.
#[derive(Debug, PartialEq)]
pub enum Geometry {
    Point { x: u64, y: u64 },
    Collection(Vec<Geometry>),
}

/// The dynamic value. Leaf scalars, the two generic composites (list and
/// insertion-ordered object), and the domain composites.
#[derive(Debug, PartialEq)]
pub enum Value {
    Absent,
    Null,
    False,
    True,
    Number(Number),
    Strand(String),
    Duration(Duration),
    Datetime(Datetime),
    Uuid(Vec<u8>),
    Array(Vec<Value>),
    Object(Vec<(String, Value)>),
    Geometry(Geometry),
    Param(String),
    Idiom(Vec<Part>),
    Table(String),
    Thing(Thing),
    Model(Model),
    Regex(String),
    Block(Vec<Entry>),
    Range(Box<Range>),
    Edges(Box<Edges>),
    Future(Vec<Entry>),
    Constant(Constant),
    Function(Box<Function>),
    Subquery(Box<Subquery>),
    Expression(Box<Expression>),
}

// ------------------------------------------------------------------
// Mathematical images.

pub enum IdV {
    Number(i64),
    Text(Seq<char>),
}

pub struct ThingV {
    pub tb: Seq<char>,
    pub id: IdV,
}

pub enum PartV {
    All,
    Field(Seq<char>),
}

pub struct EdgesV {
    pub dir: Dir,
    pub from: ThingV,
    pub what: Seq<Seq<char>>,
}

pub enum RangeBoundV {
    Included(IdV),
    Excluded(IdV),
    Unbounded,
}

pub struct RangeV {
    pub tb: Seq<char>,
    pub beg: RangeBoundV,
    pub end: RangeBoundV,
}

pub struct ExpressionV {
    pub l: Box<ValueV>,
    pub o: Operator,
    pub r: Box<ValueV>,
}

pub enum ModelV {
    Count(Seq<char>, u64),
    Range(Seq<char>, u64, u64),
}

pub enum FunctionV {
    Cast(Seq<char>, Box<ValueV>),
    Normal(Seq<char>, Seq<ValueV>),
}

pub enum SubqueryV {
    Value(Box<ValueV>),
}

pub enum EntryV {
    Value(ValueV),
}

pub enum GeometryV {
    Point { x: u64, y: u64 },
    Collection(Seq<GeometryV>),
}

/// Mathematical image of a `Value`: strings become character sequences,
/// vectors become sequences, heap indirections disappear.
pub enum ValueV {
    Absent,
    Null,
    False,
    True,
    Number(Number),
    Strand(Seq<char>),
    Duration(Duration),
    Datetime(Datetime),
    Uuid(Seq<u8>),
    Array(Seq<ValueV>),
    Object(Seq<(Seq<char>, ValueV)>),
    Geometry(GeometryV),
    Param(Seq<char>),
    Idiom(Seq<PartV>),
    Table(Seq<char>),
    Thing(ThingV),
    Model(ModelV),
    Regex(Seq<char>),
    Block(Seq<EntryV>),
    Range(RangeV),
    Edges(EdgesV),
    Future(Seq<EntryV>),
    Constant(Constant),
    Function(FunctionV),
    Subquery(SubqueryV),
    Expression(ExpressionV),
}

// ------------------------------------------------------------------
// View functions.

pub open spec fn id_view(id: Id) -> IdV {
    match id {
        Id::Number(n) => IdV::Number(n),
        Id::Text(s) => IdV::Text(s@),
    }
}

pub open spec fn thing_view(t: Thing) -> ThingV {
    ThingV { tb: t.tb@, id: id_view(t.id) }
}

pub open spec fn part_view(p: Part) -> PartV {
    match p {
        Part::All => PartV::All,
        Part::Field(s) => PartV::Field(s@),
    }
}

pub open spec fn bound_view(b: RangeBound) -> RangeBoundV {
    match b {
        RangeBound::Included(id) => RangeBoundV::Included(id_view(id)),
        RangeBound::Excluded(id) => RangeBoundV::Excluded(id_view(id)),
        RangeBound::Unbounded => RangeBoundV::Unbounded,
    }
}

pub open spec fn range_view(r: Range) -> RangeV {
    RangeV { tb: r.tb@, beg: bound_view(r.beg), end: bound_view(r.end) }
}

pub open spec fn edges_view(e: Edges) -> EdgesV {
    EdgesV {
        dir: e.dir,
        from: thing_view(e.from),
        what: e.what@.map_values(|s: String| s@),
    }
}

pub open spec fn model_view(m: Model) -> ModelV {
    match m {
        Model::Count(name, n) => ModelV::Count(name@, n),
        Model::Range(name, a, b) => ModelV::Range(name@, a, b),
    }
}

pub open spec fn geometry_view(g: Geometry) -> GeometryV
    decreases g,
{
    match g {
        Geometry::Point { x, y } => GeometryV::Point { x, y },
        Geometry::Collection(gs) => GeometryV::Collection(geometries_view(gs@)),
    }
}

pub open spec fn geometries_view(s: Seq<Geometry>) -> Seq<GeometryV>
    decreases s,
{
    if s.len() == 0 {
        Seq::empty()
    } else {
        seq![geometry_view(s[0])] + geometries_view(s.subrange(1, s.len() as int))
    }
}

pub open spec fn value_view(v: Value) -> ValueV
    decreases v,
{
    match v {
        Value::Absent => ValueV::Absent,
        Value::Null => ValueV::Null,
        Value::False => ValueV::False,
        Value::True => ValueV::True,
        Value::Number(n) => ValueV::Number(n),
        Value::Strand(s) => ValueV::Strand(s@),
        Value::Duration(d) => ValueV::Duration(d),
        Value::Datetime(d) => ValueV::Datetime(d),
        Value::Uuid(bs) => ValueV::Uuid(bs@),
        Value::Array(vs) => ValueV::Array(values_view(vs@)),
        Value::Object(es) => ValueV::Object(object_view(es@)),
        Value::Geometry(g) => ValueV::Geometry(geometry_view(g)),
        Value::Param(s) => ValueV::Param(s@),
        Value::Idiom(ps) => ValueV::Idiom(ps@.map_values(|p: Part| part_view(p))),
        Value::Table(s) => ValueV::Table(s@),
        Value::Thing(t) => ValueV::Thing(thing_view(t)),
        Value::Model(m) => ValueV::Model(model_view(m)),
        Value::Regex(s) => ValueV::Regex(s@),
        Value::Block(es) => ValueV::Block(entries_view(es@)),
        Value::Range(r) => ValueV::Range(range_view(*r)),
        Value::Edges(e) => ValueV::Edges(edges_view(*e)),
        Value::Future(es) => ValueV::Future(entries_view(es@)),
        Value::Constant(c) => ValueV::Constant(c),
        Value::Function(f) => ValueV::Function(function_view(*f)),
        Value::Subquery(s) => ValueV::Subquery(subquery_view(*s)),
        Value::Expression(x) => ValueV::Expression(expression_view(*x)),
    }
}

pub open spec fn values_view(s: Seq<Value>) -> Seq<ValueV>
    decreases s,
{
    if s.len() == 0 {
        Seq::empty()
    } else {
        seq![value_view(s[0])] + values_view(s.subrange(1, s.len() as int))
    }
}

pub open spec fn object_view(s: Seq<(String, Value)>) -> Seq<(Seq<char>, ValueV)>
    decreases s,
{
    if s.len() == 0 {
        Seq::empty()
    } else {
        seq![(s[0].0@, value_view(s[0].1))] + object_view(s.subrange(1, s.len() as int))
    }
}

pub open spec fn entries_view(s: Seq<Entry>) -> Seq<EntryV>
    decreases s,
{
    if s.len() == 0 {
        Seq::empty()
    } else {
        seq![entry_view(s[0])] + entries_view(s.subrange(1, s.len() as int))
    }
}

pub open spec fn entry_view(e: Entry) -> EntryV
    decreases e,
{
    match e {
        Entry::Value(v) => EntryV::Value(value_view(v)),
    }
}

pub open spec fn function_view(f: Function) -> FunctionV
    decreases f,
{
    match f {
        Function::Cast(name, v) => FunctionV::Cast(name@, Box::new(value_view(v))),
        Function::Normal(name, args) => FunctionV::Normal(name@, values_view(args@)),
    }
}

pub open spec fn subquery_view(s: Subquery) -> SubqueryV
    decreases s,
{
    match s {
        Subquery::Value(v) => SubqueryV::Value(Box::new(value_view(v))),
    }
}

pub open spec fn expression_view(x: Expression) -> ExpressionV
    decreases x,
{
    ExpressionV {
        l: Box::new(value_view(x.l)),
        o: x.o,
        r: Box::new(value_view(x.r)),
    }
}

impl View for Value {
    type V = ValueV;

    open spec fn view(&self) -> ValueV {
        value_view(*self)
    }
}

// ------------------------------------------------------------------
// Well-formedness.

/// The keys of an object are pairwise distinct.
pub open spec fn keys_distinct(es: Seq<(Seq<char>, ValueV)>) -> bool {
    forall|i: int, j: int| 0 <= i < j < es.len() ==> es[i].0 != es[j].0
}

/// A well-formed value: nanosecond parts are below one billion, unique
/// identifiers hold exactly sixteen bytes, object keys are distinct, and the
/// same holds of every nested value.
pub open spec fn wf_value(v: ValueV) -> bool
    decreases v,
{
    match v {
        ValueV::Duration(d) => d.nanos < 1000000000,
        ValueV::Datetime(d) => d.nanos < 1000000000,
        ValueV::Uuid(bs) => bs.len() == 16,
        ValueV::Array(vs) => wf_values(vs),
        ValueV::Object(es) => keys_distinct(es) && wf_object(es),
        ValueV::Block(es) => wf_entries(es),
        ValueV::Future(es) => wf_entries(es),
        ValueV::Function(f) => match f {
            FunctionV::Cast(_, v) => wf_value(*v),
            FunctionV::Normal(_, args) => wf_values(args),
        },
        ValueV::Subquery(s) => match s {
            SubqueryV::Value(v) => wf_value(*v),
        },
        ValueV::Expression(x) => wf_value(*x.l) && wf_value(*x.r),
        _ => true,
    }
}

pub open spec fn wf_values(s: Seq<ValueV>) -> bool
    decreases s,
{
    if s.len() == 0 {
        true
    } else {
        wf_value(s[0]) && wf_values(s.subrange(1, s.len() as int))
    }
}

pub open spec fn wf_object(s: Seq<(Seq<char>, ValueV)>) -> bool
    decreases s,
{
    if s.len() == 0 {
        true
    } else {
        wf_value(s[0].1) && wf_object(s.subrange(1, s.len() as int))
    }
}

pub open spec fn wf_entries(s: Seq<EntryV>) -> bool
    decreases s,
{
    if s.len() == 0 {
        true
    } else {
        wf_entry(s[0]) && wf_entries(s.subrange(1, s.len() as int))
    }
}

pub open spec fn wf_entry(e: EntryV) -> bool
    decreases e,
{
    match e {
        EntryV::Value(v) => wf_value(v),
    }
}


/// The image of a sequence of values has the same length and maps each
/// element in place.
pub proof fn lemma_values_view_index(s: Seq<Value>, i: int)
    requires
        0 <= i < s.len(),
    ensures
        values_view(s).len() == s.len(),
        values_view(s)[i] == value_view(s[i]),
    decreases s,
{
    lemma_values_view_len(s);
    if i > 0 {
        lemma_values_view_index(s.subrange(1, s.len() as int), i - 1);
    }
}

pub proof fn lemma_values_view_len(s: Seq<Value>)
    ensures
        values_view(s).len() == s.len(),
    decreases s,
{
    if s.len() > 0 {
        lemma_values_view_len(s.subrange(1, s.len() as int));
    }
}

pub proof fn lemma_object_view_index(s: Seq<(String, Value)>, i: int)
    requires
        0 <= i < s.len(),
    ensures
        object_view(s).len() == s.len(),
        object_view(s)[i] == (s[i].0@, value_view(s[i].1)),
    decreases s,
{
    lemma_object_view_len(s);
    if i > 0 {
        lemma_object_view_index(s.subrange(1, s.len() as int), i - 1);
    }
}

pub proof fn lemma_object_view_len(s: Seq<(String, Value)>)
    ensures
        object_view(s).len() == s.len(),
    decreases s,
{
    if s.len() > 0 {
        lemma_object_view_len(s.subrange(1, s.len() as int));
    }
}





} // verus!
