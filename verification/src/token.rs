//! The token registry: a fixed table mapping reserved type identifiers to
//! the reconstruction rule they select. Tokens match exactly; any other
//! name falls through to the generic rule of the call site that consulted
//! the registry.
use vstd::prelude::*;

verus! {

/// The closed set of reserved type tokens.
#[derive(Debug, Clone, Copy, PartialEq, Eq)]
pub enum Token {
    Strand,
    Block,
    Duration,
    Future,
    Regex,
    Table,
    Idiom,
    Param,
    Array,
    Object,
    Uuid,
    Datetime,
    Number,
    Subquery,
    Geometry,
    Value,
    Constant,
    Thing,
    Expression,
    Edges,
    Range,
    Model,
    Function,
}

/// The reconstruction rule that a name selects, if any.
pub open spec fn spec_token(name: Seq<char>) -> Option<Token> {
    if name == "$dynval::Strand"@ {
        Some(Token::Strand)
    } else if name == "$dynval::Block"@ {
        Some(Token::Block)
    } else if name == "$dynval::Duration"@ {
        Some(Token::Duration)
    } else if name == "$dynval::Future"@ {
        Some(Token::Future)
    } else if name == "$dynval::Regex"@ {
        Some(Token::Regex)
    } else if name == "$dynval::Table"@ {
        Some(Token::Table)
    } else if name == "$dynval::Idiom"@ {
        Some(Token::Idiom)
    } else if name == "$dynval::Param"@ {
        Some(Token::Param)
    } else if name == "$dynval::Array"@ {
        Some(Token::Array)
    } else if name == "$dynval::Object"@ {
        Some(Token::Object)
    } else if name == "$dynval::Uuid"@ {
        Some(Token::Uuid)
    } else if name == "$dynval::Datetime"@ {
        Some(Token::Datetime)
    } else if name == "$dynval::Number"@ {
        Some(Token::Number)
    } else if name == "$dynval::Subquery"@ {
        Some(Token::Subquery)
    } else if name == "$dynval::Geometry"@ {
        Some(Token::Geometry)
    } else if name == "$dynval::Value"@ {
        Some(Token::Value)
    } else if name == "$dynval::Constant"@ {
        Some(Token::Constant)
    } else if name == "$dynval::Thing"@ {
        Some(Token::Thing)
    } else if name == "$dynval::Expression"@ {
        Some(Token::Expression)
    } else if name == "$dynval::Edges"@ {
        Some(Token::Edges)
    } else if name == "$dynval::Range"@ {
        Some(Token::Range)
    } else if name == "$dynval::Model"@ {
        Some(Token::Model)
    } else if name == "$dynval::Function"@ {
        Some(Token::Function)
    } else {
        None
    }
}

/// Exact-match lookup of a name in the registry.
pub fn lookup_token(name: &String) -> (t: Option<Token>)
    ensures
        t == spec_token(name@),
{
    if *name == "$dynval::Strand".to_owned() {
        Some(Token::Strand)
    } else if *name == "$dynval::Block".to_owned() {
        Some(Token::Block)
    } else if *name == "$dynval::Duration".to_owned() {
        Some(Token::Duration)
    } else if *name == "$dynval::Future".to_owned() {
        Some(Token::Future)
    } else if *name == "$dynval::Regex".to_owned() {
        Some(Token::Regex)
    } else if *name == "$dynval::Table".to_owned() {
        Some(Token::Table)
    } else if *name == "$dynval::Idiom".to_owned() {
        Some(Token::Idiom)
    } else if *name == "$dynval::Param".to_owned() {
        Some(Token::Param)
    } else if *name == "$dynval::Array".to_owned() {
        Some(Token::Array)
    } else if *name == "$dynval::Object".to_owned() {
        Some(Token::Object)
    } else if *name == "$dynval::Uuid".to_owned() {
        Some(Token::Uuid)
    } else if *name == "$dynval::Datetime".to_owned() {
        Some(Token::Datetime)
    } else if *name == "$dynval::Number".to_owned() {
        Some(Token::Number)
    } else if *name == "$dynval::Subquery".to_owned() {
        Some(Token::Subquery)
    } else if *name == "$dynval::Geometry".to_owned() {
        Some(Token::Geometry)
    } else if *name == "$dynval::Value".to_owned() {
        Some(Token::Value)
    } else if *name == "$dynval::Constant".to_owned() {
        Some(Token::Constant)
    } else if *name == "$dynval::Thing".to_owned() {
        Some(Token::Thing)
    } else if *name == "$dynval::Expression".to_owned() {
        Some(Token::Expression)
    } else if *name == "$dynval::Edges".to_owned() {
        Some(Token::Edges)
    } else if *name == "$dynval::Range".to_owned() {
        Some(Token::Range)
    } else if *name == "$dynval::Model".to_owned() {
        Some(Token::Model)
    } else if *name == "$dynval::Function".to_owned() {
        Some(Token::Function)
    } else {
        None
    }
}

/// Evaluates the registry at each reserved name: every token resolves to
/// its own rule, so an emitter that writes a reserved name is routed to the
/// rule it meant.
pub proof fn lemma_token_values()
    ensures
        spec_token("$dynval::Strand"@) == Some(Token::Strand),
        spec_token("$dynval::Block"@) == Some(Token::Block),
        spec_token("$dynval::Duration"@) == Some(Token::Duration),
        spec_token("$dynval::Future"@) == Some(Token::Future),
        spec_token("$dynval::Regex"@) == Some(Token::Regex),
        spec_token("$dynval::Table"@) == Some(Token::Table),
        spec_token("$dynval::Idiom"@) == Some(Token::Idiom),
        spec_token("$dynval::Param"@) == Some(Token::Param),
        spec_token("$dynval::Array"@) == Some(Token::Array),
        spec_token("$dynval::Object"@) == Some(Token::Object),
        spec_token("$dynval::Uuid"@) == Some(Token::Uuid),
        spec_token("$dynval::Datetime"@) == Some(Token::Datetime),
        spec_token("$dynval::Number"@) == Some(Token::Number),
        spec_token("$dynval::Subquery"@) == Some(Token::Subquery),
        spec_token("$dynval::Geometry"@) == Some(Token::Geometry),
        spec_token("$dynval::Value"@) == Some(Token::Value),
        spec_token("$dynval::Constant"@) == Some(Token::Constant),
        spec_token("$dynval::Thing"@) == Some(Token::Thing),
        spec_token("$dynval::Expression"@) == Some(Token::Expression),
        spec_token("$dynval::Edges"@) == Some(Token::Edges),
        spec_token("$dynval::Range"@) == Some(Token::Range),
        spec_token("$dynval::Model"@) == Some(Token::Model),
        spec_token("$dynval::Function"@) == Some(Token::Function),
{
    reveal_strlit("$dynval::Strand");
    reveal_strlit("$dynval::Block");
    reveal_strlit("$dynval::Duration");
    reveal_strlit("$dynval::Future");
    reveal_strlit("$dynval::Regex");
    reveal_strlit("$dynval::Table");
    reveal_strlit("$dynval::Idiom");
    reveal_strlit("$dynval::Param");
    reveal_strlit("$dynval::Array");
    reveal_strlit("$dynval::Object");
    reveal_strlit("$dynval::Uuid");
    reveal_strlit("$dynval::Datetime");
    reveal_strlit("$dynval::Number");
    reveal_strlit("$dynval::Subquery");
    reveal_strlit("$dynval::Geometry");
    reveal_strlit("$dynval::Value");
    reveal_strlit("$dynval::Constant");
    reveal_strlit("$dynval::Thing");
    reveal_strlit("$dynval::Expression");
    reveal_strlit("$dynval::Edges");
    reveal_strlit("$dynval::Range");
    reveal_strlit("$dynval::Model");
    reveal_strlit("$dynval::Function");
    assert("$dynval::Strand"@.len() == 15);
    assert("$dynval::Block"@.len() == 14);
    assert("$dynval::Duration"@.len() == 17);
    assert("$dynval::Future"@.len() == 15);
    assert("$dynval::Regex"@.len() == 14);
    assert("$dynval::Table"@.len() == 14);
    assert("$dynval::Idiom"@.len() == 14);
    assert("$dynval::Param"@.len() == 14);
    assert("$dynval::Array"@.len() == 14);
    assert("$dynval::Object"@.len() == 15);
    assert("$dynval::Uuid"@.len() == 13);
    assert("$dynval::Datetime"@.len() == 17);
    assert("$dynval::Number"@.len() == 15);
    assert("$dynval::Subquery"@.len() == 17);
    assert("$dynval::Geometry"@.len() == 17);
    assert("$dynval::Value"@.len() == 14);
    assert("$dynval::Constant"@.len() == 17);
    assert("$dynval::Thing"@.len() == 14);
    assert("$dynval::Expression"@.len() == 19);
    assert("$dynval::Edges"@.len() == 14);
    assert("$dynval::Range"@.len() == 14);
    assert("$dynval::Model"@.len() == 14);
    assert("$dynval::Function"@.len() == 17);
    assert("$dynval::Strand"@[9] == 'S');
    assert("$dynval::Block"@[9] == 'B');
    assert("$dynval::Duration"@[9] == 'D');
    assert("$dynval::Future"@[9] == 'F');
    assert("$dynval::Regex"@[9] == 'R');
    assert("$dynval::Table"@[9] == 'T');
    assert("$dynval::Idiom"@[9] == 'I');
    assert("$dynval::Param"@[9] == 'P');
    assert("$dynval::Array"@[9] == 'A');
    assert("$dynval::Object"@[9] == 'O');
    assert("$dynval::Uuid"@[9] == 'U');
    assert("$dynval::Datetime"@[9] == 'D');
    assert("$dynval::Number"@[9] == 'N');
    assert("$dynval::Subquery"@[9] == 'S');
    assert("$dynval::Geometry"@[9] == 'G');
    assert("$dynval::Value"@[9] == 'V');
    assert("$dynval::Constant"@[9] == 'C');
    assert("$dynval::Thing"@[9] == 'T');
    assert("$dynval::Expression"@[9] == 'E');
    assert("$dynval::Edges"@[9] == 'E');
    assert("$dynval::Range"@[9] == 'R');
    assert("$dynval::Model"@[9] == 'M');
    assert("$dynval::Function"@[9] == 'F');
    assert("$dynval::Regex"@[10] == 'e');
    assert("$dynval::Range"@[10] == 'a');
    assert("$dynval::Table"@[10] == 'a');
    assert("$dynval::Thing"@[10] == 'h');
    assert("$dynval::Duration"@[10] == 'u');
    assert("$dynval::Datetime"@[10] == 'a');
}

} // verus!
