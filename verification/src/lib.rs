//! A generic-to-dynamic-value conversion engine.
//!
//! The engine consumes one tree of generic serialization events — primitive
//! scalars, optionals, named wrappers, named union cases, sequences, maps and
//! named-field structures — and produces one dynamic `Value`, a closed tagged
//! union able to represent every runtime value a query-language interpreter
//! manipulates. Reserved type tokens, matched exactly against the name that
//! an event carries, select non-generic reconstruction rules; every other
//! name falls through to one generic rule per call site. Converting the
//! events that a well-formed `Value` itself emits reproduces that value
//! unchanged.

mod convert;
mod decimal;
mod emit;
mod error;
mod event;
mod rules;
mod token;
mod value;

pub use convert::to_value;
pub use decimal::decimal_of_i128;
pub use decimal::decimal_of_u128;
pub use event::Event;
pub use event::EventV;
pub use event::event_view;
pub use token::Token;
pub use token::spec_token;
pub use error::Error;
pub use error::ErrorV;
pub use error::IntLiteral;
pub use error::NumericKind;
pub use value::Constant;
pub use value::Datetime;
pub use value::Dir;
pub use value::Duration;
pub use value::Edges;
pub use value::Entry;
pub use value::Expression;
pub use value::Function;
pub use value::Geometry;
pub use value::Id;
pub use value::Model;
pub use value::Number;
pub use value::Operator;
pub use value::Part;
pub use value::Range;
pub use value::RangeBound;
pub use value::Subquery;
pub use value::Thing;
pub use value::Value;
pub use value::ValueV;
pub use value::value_view;
pub use value::wf_value;
pub use rules::convert_spec;
