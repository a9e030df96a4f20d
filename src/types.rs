use vstd::prelude::*;

verus! {

/// The native SQL types that a column may be declared with.
#[derive(Clone, Copy, Debug, PartialEq, Eq, Structural)]
pub enum SqlType {
    Bool,
    SmallInt,
    Integer,
    BigInt,
    Text,
}

/// A value that can be bound to a placeholder of a statement.
#[derive(Debug, PartialEq, Eq)]
pub enum Value {
    Bool(bool),
    SmallInt(i16),
    Integer(i32),
    BigInt(i64),
    Text(String),
}

/// The SQL type that a value is bound as.
pub open spec fn value_type(v: Value) -> SqlType {
    match v {
        Value::Bool(_) => SqlType::Bool,
        Value::SmallInt(_) => SqlType::SmallInt,
        Value::Integer(_) => SqlType::Integer,
        Value::BigInt(_) => SqlType::BigInt,
        Value::Text(_) => SqlType::Text,
    }
}

/// The fused SQL type of a sequence of values: each value's type, in order.
pub open spec fn value_types(vs: Seq<Value>) -> Seq<SqlType> {
    vs.map_values(|v: Value| value_type(v))
}

impl Value {
    pub fn sql_type(&self) -> (r: SqlType)
        ensures
            r == value_type(*self),
    {
        match self {
            Value::Bool(_) => SqlType::Bool,
            Value::SmallInt(_) => SqlType::SmallInt,
            Value::Integer(_) => SqlType::Integer,
            Value::BigInt(_) => SqlType::BigInt,
            Value::Text(_) => SqlType::Text,
        }
    }

    /// An equal value that the caller owns.
    pub fn duplicate(&self) -> (r: Value)
        ensures
            r == *self,
    {
        match self {
            Value::Bool(b) => Value::Bool(*b),
            Value::SmallInt(n) => Value::SmallInt(*n),
            Value::Integer(n) => Value::Integer(*n),
            Value::BigInt(n) => Value::BigInt(*n),
            Value::Text(s) => Value::Text(s.clone()),
        }
    }
}

} // verus!
