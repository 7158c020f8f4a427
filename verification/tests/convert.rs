use dynval::to_value;
use dynval::Datetime;
use dynval::Duration;
use dynval::Edges;
use dynval::Entry;
use dynval::Event;
use dynval::Expression;
use dynval::Function;
use dynval::Geometry;
use dynval::Id;
use dynval::Model;
use dynval::Number;
use dynval::Operator;
use dynval::Range;
use dynval::RangeBound;
use dynval::Subquery;
use dynval::Thing;
use dynval::Value;
use dynval::Constant;
use dynval::Dir;

fn value_token() -> String {
    "$dynval::Value".to_owned()
}

fn wrap(variant: &str, inner: Event) -> Event {
    Event::NewtypeVariant {
        name: value_token(),
        variant: variant.to_owned(),
        value: Box::new(inner),
    }
}

fn strand_event(s: &str) -> Event {
    Event::NewtypeStruct {
        name: "$dynval::Strand".to_owned(),
        value: Box::new(Event::Str(s.to_owned())),
    }
}

fn thing_event(tb: &str, id: &str) -> Event {
    Event::Struct {
        name: "$dynval::Thing".to_owned(),
        fields: vec![
            ("tb".to_owned(), Event::Str(tb.to_owned())),
            (
                "id".to_owned(),
                Event::NewtypeVariant {
                    name: "Id".to_owned(),
                    variant: "Text".to_owned(),
                    value: Box::new(Event::Str(id.to_owned())),
                },
            ),
        ],
    }
}

fn foo_thing() -> Thing {
    Thing { tb: "foo".to_owned(), id: Id::Text("bar".to_owned()) }
}

fn roundtrip(make: fn() -> Value) {
    let expected = make();
    assert_eq!(expected, to_value(make().to_event()).unwrap());
}

#[test]
fn none() {
    let expected = Value::Absent;
    assert_eq!(expected, to_value(Event::AbsentOption).unwrap());
    roundtrip(|| Value::Absent);
}

#[test]
fn null() {
    roundtrip(|| Value::Null);
}

#[test]
fn false_leaf() {
    let expected = Value::False;
    assert_eq!(expected, to_value(Event::Bool(false)).unwrap());
    roundtrip(|| Value::False);
}

#[test]
fn true_leaf() {
    let expected = Value::True;
    assert_eq!(expected, to_value(Event::Bool(true)).unwrap());
    roundtrip(|| Value::True);
}

#[test]
fn number() {
    let value = to_value(Event::NewtypeVariant {
        name: "$dynval::Number".to_owned(),
        variant: "Int".to_owned(),
        value: Box::new(Event::I64(0)),
    })
    .unwrap();
    assert_eq!(value, Value::Number(Number::Int(0)));
    roundtrip(|| Value::Number(Number::Int(0)));

    let value = to_value(Event::NewtypeVariant {
        name: "$dynval::Number".to_owned(),
        variant: "Float".to_owned(),
        value: Box::new(Event::Float(0.0f64.to_bits())),
    })
    .unwrap();
    assert_eq!(value, Value::Number(Number::Float(0.0f64.to_bits())));
    roundtrip(|| Value::Number(Number::Float(0.0f64.to_bits())));

    let value = to_value(Event::NewtypeVariant {
        name: "$dynval::Number".to_owned(),
        variant: "Decimal".to_owned(),
        value: Box::new(Event::Decimal(bigdecimal::BigDecimal::default())),
    })
    .unwrap();
    assert_eq!(value, Value::Number(Number::Decimal(bigdecimal::BigDecimal::default())));
    roundtrip(|| Value::Number(Number::Decimal(bigdecimal::BigDecimal::default())));
}

#[test]
fn strand() {
    let expected = Value::Strand("foobar".to_owned());
    assert_eq!(expected, to_value(strand_event("foobar")).unwrap());
    assert_eq!(expected, to_value(Event::Str("foobar".to_owned())).unwrap());
    roundtrip(|| Value::Strand("foobar".to_owned()));
}

#[test]
fn duration() {
    let expected = Value::Duration(Duration { secs: 0, nanos: 0 });
    let event = Event::NewtypeStruct {
        name: "$dynval::Duration".to_owned(),
        value: Box::new(Event::Struct {
            name: "Duration".to_owned(),
            fields: vec![
                ("secs".to_owned(), Event::U64(0)),
                ("nanos".to_owned(), Event::U32(0)),
            ],
        }),
    };
    assert_eq!(expected, to_value(event).unwrap());
    roundtrip(|| Value::Duration(Duration { secs: 0, nanos: 0 }));
}

#[test]
fn datetime() {
    let expected = Value::Datetime(Datetime { secs: 0, nanos: 0 });
    let event = Event::NewtypeStruct {
        name: "$dynval::Datetime".to_owned(),
        value: Box::new(Event::Struct {
            name: "Datetime".to_owned(),
            fields: vec![
                ("secs".to_owned(), Event::I64(0)),
                ("nanos".to_owned(), Event::U32(0)),
            ],
        }),
    };
    assert_eq!(expected, to_value(event).unwrap());
    roundtrip(|| Value::Datetime(Datetime { secs: 0, nanos: 0 }));
}

#[test]
fn uuid() {
    let expected = Value::Uuid(vec![0u8; 16]);
    let event = Event::NewtypeStruct {
        name: "$dynval::Uuid".to_owned(),
        value: Box::new(Event::Bytes(vec![0u8; 16])),
    };
    assert_eq!(expected, to_value(event).unwrap());
    roundtrip(|| Value::Uuid(vec![0u8; 16]));
}

#[test]
fn array() {
    let expected = Value::Array(Vec::new());
    let event = Event::NewtypeStruct {
        name: "$dynval::Array".to_owned(),
        value: Box::new(Event::Sequence(Vec::new())),
    };
    assert_eq!(expected, to_value(event).unwrap());
    roundtrip(|| Value::Array(Vec::new()));
}

#[test]
fn object() {
    let expected = Value::Object(Vec::new());
    let event = Event::NewtypeStruct {
        name: "$dynval::Object".to_owned(),
        value: Box::new(Event::Mapping(Vec::new())),
    };
    assert_eq!(expected, to_value(event).unwrap());
    roundtrip(|| Value::Object(Vec::new()));
}

#[test]
fn geometry() {
    let expected = Value::Geometry(Geometry::Collection(Vec::new()));
    let event = Event::NewtypeVariant {
        name: "$dynval::Geometry".to_owned(),
        variant: "Collection".to_owned(),
        value: Box::new(Event::Sequence(Vec::new())),
    };
    assert_eq!(expected, to_value(event).unwrap());
    roundtrip(|| Value::Geometry(Geometry::Collection(Vec::new())));
}

#[test]
fn param() {
    let expected = Value::Param(String::new());
    let event = Event::NewtypeStruct {
        name: "$dynval::Param".to_owned(),
        value: Box::new(Event::Str(String::new())),
    };
    assert_eq!(expected, to_value(event).unwrap());
    roundtrip(|| Value::Param(String::new()));
}

#[test]
fn idiom() {
    let expected = Value::Idiom(Vec::new());
    let event = Event::NewtypeStruct {
        name: "$dynval::Idiom".to_owned(),
        value: Box::new(Event::Sequence(Vec::new())),
    };
    assert_eq!(expected, to_value(event).unwrap());
    roundtrip(|| Value::Idiom(Vec::new()));
}

#[test]
fn table() {
    let expected = Value::Table("foo".to_owned());
    let event = Event::NewtypeStruct {
        name: "$dynval::Table".to_owned(),
        value: Box::new(Event::Str("foo".to_owned())),
    };
    assert_eq!(expected, to_value(event).unwrap());
    roundtrip(|| Value::Table("foo".to_owned()));
}

#[test]
fn thing() {
    let expected = Value::Thing(foo_thing());
    assert_eq!(expected, to_value(thing_event("foo", "bar")).unwrap());
    roundtrip(|| Value::Thing(foo_thing()));
}

#[test]
fn model() {
    let expected = Value::Model(Model::Count("foo".to_owned(), 0));
    let event = Event::TupleVariant {
        name: "$dynval::Model".to_owned(),
        variant: "Count".to_owned(),
        fields: vec![Event::Str("foo".to_owned()), Event::U64(0)],
    };
    assert_eq!(expected, to_value(event).unwrap());
    roundtrip(|| Value::Model(Model::Count("foo".to_owned(), 0)));
}

#[test]
fn regex() {
    let expected = Value::Regex(String::new());
    let event = Event::NewtypeStruct {
        name: "$dynval::Regex".to_owned(),
        value: Box::new(Event::Str(String::new())),
    };
    assert_eq!(expected, to_value(event).unwrap());
    roundtrip(|| Value::Regex(String::new()));
}

#[test]
fn block() {
    let expected = Value::Block(Vec::new());
    let event = Event::NewtypeStruct {
        name: "$dynval::Block".to_owned(),
        value: Box::new(Event::Sequence(Vec::new())),
    };
    assert_eq!(expected, to_value(event).unwrap());
    roundtrip(|| Value::Block(Vec::new()));
}

#[test]
fn range() {
    fn make() -> Value {
        Value::Range(Box::new(Range {
            tb: "foo".to_owned(),
            beg: RangeBound::Included(Id::Text("foo".to_owned())),
            end: RangeBound::Unbounded,
        }))
    }
    let event = Event::Struct {
        name: "$dynval::Range".to_owned(),
        fields: vec![
            ("tb".to_owned(), Event::Str("foo".to_owned())),
            (
                "beg".to_owned(),
                Event::NewtypeVariant {
                    name: "Bound".to_owned(),
                    variant: "Included".to_owned(),
                    value: Box::new(Event::NewtypeVariant {
                        name: "Id".to_owned(),
                        variant: "Text".to_owned(),
                        value: Box::new(Event::Str("foo".to_owned())),
                    }),
                },
            ),
            (
                "end".to_owned(),
                Event::UnitVariant {
                    name: "Bound".to_owned(),
                    variant: "Unbounded".to_owned(),
                },
            ),
        ],
    };
    assert_eq!(make(), to_value(event).unwrap());
    roundtrip(make);
}

#[test]
fn edges() {
    fn make() -> Value {
        Value::Edges(Box::new(Edges {
            dir: Dir::In,
            from: Thing { tb: "foo".to_owned(), id: Id::Text("bar".to_owned()) },
            what: vec!["foo".to_owned()],
        }))
    }
    let event = Event::Struct {
        name: "$dynval::Edges".to_owned(),
        fields: vec![
            (
                "dir".to_owned(),
                Event::UnitVariant { name: "Dir".to_owned(), variant: "In".to_owned() },
            ),
            ("from".to_owned(), thing_event("foo", "bar")),
            (
                "what".to_owned(),
                Event::Sequence(vec![Event::NewtypeStruct {
                    name: "$dynval::Table".to_owned(),
                    value: Box::new(Event::Str("foo".to_owned())),
                }]),
            ),
        ],
    };
    assert_eq!(make(), to_value(event).unwrap());
    roundtrip(make);
}

#[test]
fn future() {
    fn make() -> Value {
        Value::Future(vec![Entry::Value(Value::Absent)])
    }
    let event = Event::NewtypeStruct {
        name: "$dynval::Future".to_owned(),
        value: Box::new(Event::Sequence(vec![Event::NewtypeVariant {
            name: "Entry".to_owned(),
            variant: "Value".to_owned(),
            value: Box::new(Event::UnitVariant {
                name: value_token(),
                variant: "None".to_owned(),
            }),
        }])),
    };
    assert_eq!(make(), to_value(event).unwrap());
    roundtrip(make);
}

#[test]
fn constant() {
    let expected = Value::Constant(Constant::MathPi);
    let event = Event::UnitVariant {
        name: "$dynval::Constant".to_owned(),
        variant: "MathPi".to_owned(),
    };
    assert_eq!(expected, to_value(event).unwrap());
    roundtrip(|| Value::Constant(Constant::MathPi));
}

#[test]
fn function() {
    fn make() -> Value {
        Value::Function(Box::new(Function::Cast("foo".to_owned(), Value::Absent)))
    }
    let event = Event::TupleVariant {
        name: "$dynval::Function".to_owned(),
        variant: "Cast".to_owned(),
        fields: vec![
            Event::Str("foo".to_owned()),
            Event::UnitVariant { name: value_token(), variant: "None".to_owned() },
        ],
    };
    assert_eq!(make(), to_value(event).unwrap());
    roundtrip(make);
}

#[test]
fn subquery() {
    fn make() -> Value {
        Value::Subquery(Box::new(Subquery::Value(Value::Absent)))
    }
    let event = Event::NewtypeVariant {
        name: "$dynval::Subquery".to_owned(),
        variant: "Value".to_owned(),
        value: Box::new(Event::UnitVariant {
            name: value_token(),
            variant: "None".to_owned(),
        }),
    };
    assert_eq!(make(), to_value(event).unwrap());
    roundtrip(make);
}

#[test]
fn expression() {
    fn make() -> Value {
        Value::Expression(Box::new(Expression {
            l: Value::Strand("foo".to_owned()),
            o: Operator::Equal,
            r: Value::Strand("Bar".to_owned()),
        }))
    }
    let event = Event::Struct {
        name: "$dynval::Expression".to_owned(),
        fields: vec![
            ("l".to_owned(), wrap("Strand", strand_event("foo"))),
            (
                "o".to_owned(),
                Event::UnitVariant {
                    name: "Operator".to_owned(),
                    variant: "Equal".to_owned(),
                },
            ),
            ("r".to_owned(), wrap("Strand", strand_event("Bar"))),
        ],
    };
    assert_eq!(make(), to_value(event).unwrap());
    roundtrip(make);
}

#[test]
fn unknown_struct() {
    fn make() -> Value {
        Value::Object(vec![
            ("foo".to_owned(), Value::Strand("Foo".to_owned())),
            ("bar".to_owned(), Value::Number(Number::Int(0))),
        ])
    }
    let event = Event::Struct {
        name: "FooBar".to_owned(),
        fields: vec![
            ("foo".to_owned(), Event::Str("Foo".to_owned())),
            ("bar".to_owned(), Event::I32(0)),
        ],
    };
    assert_eq!(make(), to_value(event).unwrap());
    roundtrip(make);
}
