use vstd::prelude::*;
use crate::frame::{DataFrame, Series, SeriesView};
use crate::num::{Num, Vec2};

verus! {

/// The type of a port and the tag of a value.
#[derive(Clone, Copy, PartialEq, Eq, Structural, Debug)]
pub enum MyDataType {
    Scalar,
    Vec2,
    String,
    Series,
    DataFrame,
}

/// A value that flows along the graph's connections or sits in an input as its constant.
#[derive(Debug)]
pub enum MyValueType {
    Vec2 { value: Vec2 },
    Scalar { value: Num },
    String { value: String },
    Series { value: Series },
    DataFrame { value: DataFrame },
}

/// What a value is, with its strings and sequences as mathematical sequences.
pub enum ValueView {
    Vec2(Vec2),
    Scalar(Num),
    String(Seq<char>),
    Series(SeriesView),
    DataFrame(Seq<SeriesView>),
}

impl View for MyValueType {
    type V = ValueView;

    open spec fn view(&self) -> ValueView {
        match self {
            MyValueType::Vec2 { value } => ValueView::Vec2(*value),
            MyValueType::Scalar { value } => ValueView::Scalar(*value),
            MyValueType::String { value } => ValueView::String(value@),
            MyValueType::Series { value } => ValueView::Series(value@),
            MyValueType::DataFrame { value } => ValueView::DataFrame(value@),
        }
    }
}

/// Why an evaluation failed.
#[derive(Clone, Debug)]
pub enum EvalError {
    /// A value had another tag than the one asked for.
    TypeMismatch { expected: MyDataType, actual: MyDataType },
    /// The node has no port of that name.
    UnknownPort { node: usize, name: String },
    /// No node has that identity.
    UnknownNode { node: usize },
    /// The chain of dependencies still to evaluate is longer than the graph has nodes.
    CycleDetected { node: usize },
    /// A file could not be read.
    FileReadFailure { message: String },
    /// A file could not be parsed as a table.
    ParseFailure { message: String },
}

pub open spec fn tag_of(v: ValueView) -> MyDataType {
    match v {
        ValueView::Vec2(_) => MyDataType::Vec2,
        ValueView::Scalar(_) => MyDataType::Scalar,
        ValueView::String(_) => MyDataType::String,
        ValueView::Series(_) => MyDataType::Series,
        ValueView::DataFrame(_) => MyDataType::DataFrame,
    }
}

/// The error of asking a value of tag `actual` for one of tag `expected`.
pub open spec fn is_mismatch(e: EvalError, expected: MyDataType, actual: MyDataType) -> bool {
    e matches EvalError::TypeMismatch { expected: x, actual: a } && x == expected && a == actual
}

impl MyDataType {
    /// The name shown for values of this type.
    pub fn name(&self) -> (r: &'static str)
        ensures
            r@ == data_type_name(*self),
    {
        match self {
            MyDataType::Scalar => "scalar",
            MyDataType::Vec2 => "2d vector",
            MyDataType::String => "string",
            MyDataType::Series => "series",
            MyDataType::DataFrame => "dataframe",
        }
    }

    /// The colour (red, green, blue) in which ports of this type are drawn.
    pub fn data_type_color(&self) -> (r: (u8, u8, u8))
        ensures
            r == type_color(*self),
    {
        match self {
            MyDataType::Scalar => (38, 109, 211),
            MyDataType::Vec2 => (238, 207, 109),
            MyDataType::String => (134, 51, 109),
            MyDataType::Series => (31, 207, 180),
            MyDataType::DataFrame => (60, 100, 80),
        }
    }
}

pub open spec fn data_type_name(t: MyDataType) -> Seq<char> {
    match t {
        MyDataType::Scalar => "scalar"@,
        MyDataType::Vec2 => "2d vector"@,
        MyDataType::String => "string"@,
        MyDataType::Series => "series"@,
        MyDataType::DataFrame => "dataframe"@,
    }
}

pub open spec fn type_color(t: MyDataType) -> (u8, u8, u8) {
    match t {
        MyDataType::Scalar => (38, 109, 211),
        MyDataType::Vec2 => (238, 207, 109),
        MyDataType::String => (134, 51, 109),
        MyDataType::Series => (31, 207, 180),
        MyDataType::DataFrame => (60, 100, 80),
    }
}

impl MyValueType {
    /// The scalar zero, the value of a fresh input.
    pub fn default() -> (r: MyValueType)
        ensures
            r@ == ValueView::Scalar(Num { bits: 0 }),
    {
        MyValueType::Scalar { value: Num::zero() }
    }

    /// The tag of this value.
    pub fn data_type(&self) -> (r: MyDataType)
        ensures
            r == tag_of(self@),
    {
        match self {
            MyValueType::Vec2 { .. } => MyDataType::Vec2,
            MyValueType::Scalar { .. } => MyDataType::Scalar,
            MyValueType::String { .. } => MyDataType::String,
            MyValueType::Series { .. } => MyDataType::Series,
            MyValueType::DataFrame { .. } => MyDataType::DataFrame,
        }
    }

    /// A copy of this value.
    pub fn clone_value(&self) -> (r: MyValueType)
        ensures
            r@ == self@,
    {
        match self {
            MyValueType::Vec2 { value } => MyValueType::Vec2 { value: *value },
            MyValueType::Scalar { value } => MyValueType::Scalar { value: *value },
            MyValueType::String { value } => MyValueType::String { value: value.clone() },
            MyValueType::Series { value } => MyValueType::Series { value: value.clone_series() },
            MyValueType::DataFrame { value } => MyValueType::DataFrame { value: value.clone_frame() },
        }
    }

    /// The vector inside, or a type mismatch.
    pub fn try_to_vec2(self) -> (r: Result<Vec2, EvalError>)
        ensures
            self@ matches ValueView::Vec2(v) ==> r == Ok::<Vec2, EvalError>(v),
            !(self@ is Vec2) ==> (r matches Err(e) && is_mismatch(e, MyDataType::Vec2, tag_of(self@))),
    {
        match self {
            MyValueType::Vec2 { value } => Ok(value),
            _ => Err(EvalError::TypeMismatch { expected: MyDataType::Vec2, actual: self.data_type() }),
        }
    }

    /// The scalar inside, or a type mismatch.
    pub fn try_to_scalar(self) -> (r: Result<Num, EvalError>)
        ensures
            self@ matches ValueView::Scalar(v) ==> r == Ok::<Num, EvalError>(v),
            !(self@ is Scalar) ==> (r matches Err(e) && is_mismatch(e, MyDataType::Scalar, tag_of(self@))),
    {
        match self {
            MyValueType::Scalar { value } => Ok(value),
            _ => Err(EvalError::TypeMismatch { expected: MyDataType::Scalar, actual: self.data_type() }),
        }
    }

    /// The text inside, or a type mismatch.
    pub fn try_to_string(self) -> (r: Result<String, EvalError>)
        ensures
            self@ matches ValueView::String(v) ==> (r matches Ok(s) && s@ == v),
            !(self@ is String) ==> (r matches Err(e) && is_mismatch(e, MyDataType::String, tag_of(self@))),
    {
        match self {
            MyValueType::String { value } => Ok(value),
            _ => Err(EvalError::TypeMismatch { expected: MyDataType::String, actual: self.data_type() }),
        }
    }

    /// The series inside, or a type mismatch.
    pub fn try_to_series(self) -> (r: Result<Series, EvalError>)
        ensures
            self@ matches ValueView::Series(v) ==> (r matches Ok(s) && s@ == v),
            !(self@ is Series) ==> (r matches Err(e) && is_mismatch(e, MyDataType::Series, tag_of(self@))),
    {
        match self {
            MyValueType::Series { value } => Ok(value),
            _ => Err(EvalError::TypeMismatch { expected: MyDataType::Series, actual: self.data_type() }),
        }
    }

    /// The frame inside, or a type mismatch.
    pub fn try_to_dataframe(self) -> (r: Result<DataFrame, EvalError>)
        ensures
            self@ matches ValueView::DataFrame(v) ==> (r matches Ok(s) && s@ == v),
            !(self@ is DataFrame) ==> (r matches Err(e) && is_mismatch(e, MyDataType::DataFrame, tag_of(self@))),
    {
        match self {
            MyValueType::DataFrame { value } => Ok(value),
            _ => Err(EvalError::TypeMismatch { expected: MyDataType::DataFrame, actual: self.data_type() }),
        }
    }
}

} // verus!
