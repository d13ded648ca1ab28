//! Resolved slot values, and the resolution of raw cells into them.
use vstd::prelude::*;
use crate::error::{outcome, DecodeError};
use crate::json::{Json, JsonView, Number, NumberView};
use crate::text::{contains_non_digit, decimal_value, has_non_digit, parse_decimal};

verus! {

/// Either a number or a text, the latter often the identifier of another block.
#[derive(Debug)]
pub enum Value {
    Number(Number),
    String(String),
    /// Nothing: a null or empty cell.
    Null,
}

/// The mathematical model of a [`Value`].
pub ghost enum ValueView {
    Number(NumberView),
    String(Seq<char>),
    Null,
}

impl View for Value {
    type V = ValueView;

    open spec fn view(&self) -> ValueView {
        match self {
            Value::Number(n) => ValueView::Number(n@),
            Value::String(s) => ValueView::String(s@),
            Value::Null => ValueView::Null,
        }
    }
}

impl DeepView for Value {
    type V = ValueView;

    open spec fn deep_view(&self) -> ValueView {
        self@
    }
}

impl PartialEq for Value {
    fn eq(&self, other: &Value) -> (same: bool) {
        match (self, other) {
            (Value::Number(a), Value::Number(b)) => *a == *b,
            (Value::String(a), Value::String(b)) => *a == *b,
            (Value::Null, Value::Null) => true,
            _ => false,
        }
    }
}

impl vstd::std_specs::cmp::PartialEqSpecImpl for Value {
    open spec fn obeys_eq_spec() -> bool {
        true
    }

    /// Two values are equal when their models are.
    open spec fn eq_spec(&self, other: &Value) -> bool {
        self@ == other@
    }
}

impl Clone for Value {
    fn clone(&self) -> (copy: Value)
        ensures
            copy@ == self@,
    {
        match self {
            Value::Number(n) => Value::Number(n.clone()),
            Value::String(s) => Value::String(s.clone()),
            Value::Null => Value::Null,
        }
    }
}

impl Value {
    /// The number that a run of digits writes: a 64-bit integer where it
    /// fits, and the digits themselves where it does not.
    pub open spec fn of_digits(t: Seq<char>) -> NumberView {
        if decimal_value(t) <= u64::MAX {
            NumberView::Unsigned(decimal_value(t) as u64)
        } else {
            NumberView::Large(t)
        }
    }

    /// What a text resolves to: nothing when empty, itself when any character
    /// is not a digit, and otherwise the number it writes.
    pub open spec fn of_text(t: Seq<char>) -> ValueView {
        if t.len() == 0 {
            ValueView::Null
        } else if has_non_digit(t) {
            ValueView::String(t)
        } else {
            ValueView::Number(Self::of_digits(t))
        }
    }

    /// What a scalar resolves to. Only null, numbers and text are scalars here.
    pub open spec fn of_scalar(cell: JsonView) -> Result<ValueView, DecodeError> {
        match cell {
            JsonView::Null => Ok(ValueView::Null),
            JsonView::Number(n) => Ok(ValueView::Number(n)),
            JsonView::String(t) => Ok(Self::of_text(t)),
            _ => Err(DecodeError::MalformedValue),
        }
    }

    /// What the element of a wrapper resolves to: a scalar directly, and a
    /// typed literal (a sequence of a type tag and a scalar) as its scalar.
    pub open spec fn of_element(element: JsonView) -> Result<ValueView, DecodeError> {
        match element {
            JsonView::Array(literal) => if literal.len() > 1 {
                Self::of_scalar(literal[1])
            } else {
                Err(DecodeError::MalformedValue)
            },
            _ => Self::of_scalar(element),
        }
    }

    /// What a cell resolves to: a wrapper as its element at `offset`, and
    /// anything else as the scalar it is.
    pub open spec fn resolved(cell: JsonView, offset: nat) -> Result<ValueView, DecodeError> {
        match cell {
            JsonView::Array(items) => if offset < items.len() {
                Self::of_element(items[offset as int])
            } else {
                Err(DecodeError::MalformedValue)
            },
            _ => Self::of_scalar(cell),
        }
    }

    /// Whether this value is nothing.
    pub fn is_null(&self) -> (null: bool)
        ensures
            null == (self@ is Null),
    {
        match self {
            Value::Null => true,
            _ => false,
        }
    }

    /// Resolves a text. Every text resolves.
    pub fn from_text(t: &str) -> (value: Value)
        ensures
            value@ == Self::of_text(t@),
    {
        if t.is_empty() {
            Value::Null
        } else if contains_non_digit(t) {
            Value::String(t.to_owned())
        } else {
            match parse_decimal(t) {
                Some(n) => Value::Number(Number::Unsigned(n)),
                None => Value::Number(Number::Large(t.to_owned())),
            }
        }
    }

    /// Resolves a scalar.
    pub fn from_scalar(cell: &Json) -> (r: Result<Value, DecodeError>)
        ensures
            outcome(r) == Self::of_scalar(cell@),
    {
        match cell {
            Json::Null => Ok(Value::Null),
            Json::Number(n) => Ok(Value::Number(n.clone())),
            Json::String(t) => Ok(Self::from_text(t.as_str())),
            _ => Err(DecodeError::MalformedValue),
        }
    }

    /// Resolves the element of a wrapper.
    pub fn from_element(element: &Json) -> (r: Result<Value, DecodeError>)
        ensures
            outcome(r) == Self::of_element(element@),
    {
        match element {
            Json::Array(literal) => {
                if literal.len() > 1 {
                    Self::from_scalar(&literal[1])
                } else {
                    Err(DecodeError::MalformedValue)
                }
            },
            _ => Self::from_scalar(element),
        }
    }

    /// Resolves one raw cell. Inputs keep their element at offset 1, fields
    /// and parameters at offset 0.
    pub fn resolve(cell: &Json, offset: usize) -> (r: Result<Value, DecodeError>)
        ensures
            outcome(r) == Self::resolved(cell@, offset as nat),
    {
        match cell {
            Json::Array(items) => {
                if offset < items.len() {
                    Self::from_element(&items[offset])
                } else {
                    Err(DecodeError::MalformedValue)
                }
            },
            _ => Self::from_scalar(cell),
        }
    }

    /// Resolution sorts every text into one of three cases and never fails:
    /// the empty text is nothing, a text with a character that is no digit
    /// is itself, and a run of digits is the number it writes, however long
    /// it is. A null cell is nothing.
    pub proof fn lemma_text_resolution(t: Seq<char>, offset: nat)
        ensures
            Self::resolved(JsonView::String(t), offset) == Ok::<ValueView, DecodeError>(
                Self::of_text(t),
            ),
            t.len() == 0 ==> Self::of_text(t) is Null,
            t.len() > 0 && has_non_digit(t) ==> Self::of_text(t) == ValueView::String(t),
            t.len() > 0 && !has_non_digit(t) ==> (Self::of_text(t) matches ValueView::Number(n)
                && n.natural() == Some(decimal_value(t))),
            Self::resolved(JsonView::Null, offset) matches Ok(ValueView::Null),
    {
    }

    /// A wrapper around a scalar resolves as that scalar does on its own.
    pub proof fn lemma_wrapper_transparent(items: Seq<JsonView>, offset: nat)
        requires
            offset < items.len(),
            !(items[offset as int] is Array),
        ensures
            Self::resolved(JsonView::Array(items), offset) == Self::resolved(
                items[offset as int],
                offset,
            ),
    {
    }

    /// A wrapper around a typed literal resolves as the literal's scalar.
    pub proof fn lemma_wrapper_of_literal(items: Seq<JsonView>, offset: nat, literal: Seq<JsonView>)
        requires
            offset < items.len(),
            items[offset as int] == JsonView::Array(literal),
            literal.len() > 1,
        ensures
            Self::resolved(JsonView::Array(items), offset) == Self::of_scalar(literal[1]),
    {
    }
}

} // verus!
