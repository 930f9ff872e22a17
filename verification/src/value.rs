//! The value codec: the untyped value model on one side, the native
//! parameters and columns of the relational store on the other.

use crate::text_safe::{base64_encoding, encodable, encode, is_encodable};
use vstd::prelude::*;

verus! {

/// A value without a schema, as it crosses the boundary to callers.
///
/// A floating-point number is carried by the 64 bits of its IEEE 754 binary64
/// form. Binary data never appears raw: it travels as text-safe encoded text.
#[derive(Debug, Clone, PartialEq, Eq)]
pub enum UntypedValue {
    Null,
    Bool(bool),
    /// A number that a 64-bit signed integer represents.
    Integer(i64),
    /// A number that is not an integer, by the bits of its binary64 form.
    Float(u64),
    /// Any other number, such as an integer beyond the 64-bit signed range,
    /// by its decimal text: nothing of it is lost.
    Decimal(String),
    Text(String),
    /// An array or an object, by its serialized text.
    Composite(String),
}

/// The mathematical content of an [`UntypedValue`].
pub enum ValueModel {
    Null,
    Bool(bool),
    Integer(i64),
    Float(u64),
    Decimal(Seq<char>),
    Text(Seq<char>),
    Composite(Seq<char>),
}

impl View for UntypedValue {
    type V = ValueModel;

    open spec fn view(&self) -> ValueModel {
        match self {
            UntypedValue::Null => ValueModel::Null,
            UntypedValue::Bool(b) => ValueModel::Bool(*b),
            UntypedValue::Integer(i) => ValueModel::Integer(*i),
            UntypedValue::Float(bits) => ValueModel::Float(*bits),
            UntypedValue::Decimal(text) => ValueModel::Decimal(text@),
            UntypedValue::Text(text) => ValueModel::Text(text@),
            UntypedValue::Composite(text) => ValueModel::Composite(text@),
        }
    }
}

/// The value of a number, from what the number answers when it is asked for
/// each native form. An integer that a 64-bit signed integer represents is
/// that integer. An integer beyond the signed range, which answers only as
/// unsigned, is kept by its decimal text. A number that is not an integer
/// is a float where a binary64 represents it, and else its decimal text.
pub open spec fn number_model(
    integer: Option<i64>,
    unsigned: Option<u64>,
    float: Option<u64>,
    decimal: Seq<char>,
) -> ValueModel {
    match integer {
        Some(i) => ValueModel::Integer(i),
        None => match unsigned {
            Some(_) => ValueModel::Decimal(decimal),
            None => match float {
                Some(bits) => ValueModel::Float(bits),
                None => ValueModel::Decimal(decimal),
            },
        },
    }
}

/// An integer never binds as a float: a number that answers as signed or as
/// unsigned integer becomes an integer or its decimal text.
pub proof fn lemma_integer_is_not_a_float(
    integer: Option<i64>,
    unsigned: Option<u64>,
    float: Option<u64>,
    decimal: Seq<char>,
)
    requires
        integer is Some || unsigned is Some,
    ensures
        !(to_parameter(number_model(integer, unsigned, float, decimal)) is Real),
        integer is None ==> to_parameter(number_model(integer, unsigned, float, decimal))
            == ParamModel::Text(decimal),
{
}

impl UntypedValue {
    /// Classifies a number by the native forms that it has: its value as a
    /// signed and as an unsigned 64-bit integer, the bits of its binary64
    /// form, and its decimal text.
    pub fn number(
        integer: Option<i64>,
        unsigned: Option<u64>,
        float: Option<u64>,
        decimal: String,
    ) -> (value: UntypedValue)
        ensures
            value@ == number_model(integer, unsigned, float, decimal@),
    {
        match integer {
            Some(i) => UntypedValue::Integer(i),
            None => match unsigned {
                Some(_) => UntypedValue::Decimal(decimal),
                None => match float {
                    Some(bits) => UntypedValue::Float(bits),
                    None => UntypedValue::Decimal(decimal),
                },
            },
        }
    }
}

/// A native statement parameter of the relational store.
#[derive(Debug, Clone, PartialEq, Eq)]
pub enum SqlParam {
    Null,
    Bool(bool),
    Integer(i64),
    /// A 64-bit floating-point number, by its bits.
    Real(u64),
    Text(String),
}

/// The mathematical content of a [`SqlParam`].
pub enum ParamModel {
    Null,
    Bool(bool),
    Integer(i64),
    Real(u64),
    Text(Seq<char>),
}

impl View for SqlParam {
    type V = ParamModel;

    open spec fn view(&self) -> ParamModel {
        match self {
            SqlParam::Null => ParamModel::Null,
            SqlParam::Bool(b) => ParamModel::Bool(*b),
            SqlParam::Integer(i) => ParamModel::Integer(*i),
            SqlParam::Real(bits) => ParamModel::Real(*bits),
            SqlParam::Text(text) => ParamModel::Text(text@),
        }
    }
}

/// One column of one result row, as the store hands it out: what each
/// native extraction yields, `None` where the extraction fails. The store
/// reports no reliable dynamic type ahead of extraction, so a column may
/// answer to several of them.
#[derive(Debug, Clone, PartialEq, Eq)]
pub struct RawColumn {
    pub text: Option<String>,
    pub integer: Option<i64>,
    /// The column as a 64-bit floating-point number, by its bits.
    pub float: Option<u64>,
    pub boolean: Option<bool>,
    pub binary: Option<Vec<u8>>,
}

/// The mathematical content of a [`RawColumn`].
pub struct ColumnModel {
    pub text: Option<Seq<char>>,
    pub integer: Option<i64>,
    pub float: Option<u64>,
    pub boolean: Option<bool>,
    pub binary: Option<Seq<u8>>,
}

impl View for RawColumn {
    type V = ColumnModel;

    open spec fn view(&self) -> ColumnModel {
        ColumnModel {
            text: match self.text {
                Some(text) => Some(text@),
                None => None,
            },
            integer: self.integer,
            float: self.float,
            boolean: self.boolean,
            binary: match self.binary {
                Some(bytes) => Some(bytes@),
                None => None,
            },
        }
    }
}

/// The parameter that stands for a value: null for null, an integer, a
/// float and a boolean each as its native kind, and every remaining shape
/// as text (a string as it is, a number that is kept by its decimal text as
/// that text, an array or object by its serialized text).
pub open spec fn to_parameter(value: ValueModel) -> ParamModel {
    match value {
        ValueModel::Null => ParamModel::Null,
        ValueModel::Bool(b) => ParamModel::Bool(b),
        ValueModel::Integer(i) => ParamModel::Integer(i),
        ValueModel::Float(bits) => ParamModel::Real(bits),
        ValueModel::Decimal(text) => ParamModel::Text(text),
        ValueModel::Text(text) => ParamModel::Text(text),
        ValueModel::Composite(text) => ParamModel::Text(text),
    }
}

/// The value that a column decodes to: the first extraction that succeeds,
/// tried as text, integer, float, boolean, binary, in that order; null where
/// none does. Binary data comes out as its text-safe encoding.
pub open spec fn from_column(column: ColumnModel) -> ValueModel {
    if let Some(text) = column.text {
        ValueModel::Text(text)
    } else if let Some(i) = column.integer {
        ValueModel::Integer(i)
    } else if let Some(bits) = column.float {
        ValueModel::Float(bits)
    } else if let Some(b) = column.boolean {
        ValueModel::Bool(b)
    } else if let Some(bytes) = column.binary {
        ValueModel::Text(base64_encoding(bytes))
    } else {
        ValueModel::Null
    }
}

/// Whether the column can be decoded on this machine. Only a column that
/// answers to nothing but binary is ever encoded, and its encoding must have
/// a length that the machine can represent.
pub open spec fn decodable(column: ColumnModel) -> bool {
    (column.text is None && column.integer is None && column.float is None && column.boolean is None
        && column.binary is Some) ==> encodable(column.binary->0.len())
}

/// How a column that holds nothing but the stored parameter reads back: a
/// null answers to no extraction, a boolean is kept as the integer 0 or 1,
/// an integer answers as integer and never as text, a float as float only,
/// and text as text.
pub open spec fn reads_back(column: ColumnModel, stored: ParamModel) -> bool {
    match stored {
        ParamModel::Null => column.text is None && column.integer is None && column.float is None
            && column.boolean is None && column.binary is None,
        ParamModel::Bool(b) => column.text is None && column.integer == Some(
            if b {
                1i64
            } else {
                0i64
            },
        ),
        ParamModel::Integer(i) => column.text is None && column.integer == Some(i),
        ParamModel::Real(bits) => column.text is None && column.integer is None && column.float
            == Some(bits),
        ParamModel::Text(text) => column.text == Some(text),
    }
}

/// The value that comes back for a value that went into the store: itself,
/// but for a boolean, which returns as the integer it was kept as, and for
/// the shapes that were stored as text, which return as text.
pub open spec fn returned(value: ValueModel) -> ValueModel {
    match value {
        ValueModel::Null => ValueModel::Null,
        ValueModel::Bool(b) => ValueModel::Integer(
            if b {
                1i64
            } else {
                0i64
            },
        ),
        ValueModel::Integer(i) => ValueModel::Integer(i),
        ValueModel::Float(bits) => ValueModel::Float(bits),
        ValueModel::Decimal(text) => ValueModel::Text(text),
        ValueModel::Text(text) => ValueModel::Text(text),
        ValueModel::Composite(text) => ValueModel::Text(text),
    }
}

/// A value that is stored as its parameter and read back through the column
/// that holds it returns as [`returned`] says.
pub proof fn lemma_value_round_trip(value: ValueModel, column: ColumnModel)
    requires
        reads_back(column, to_parameter(value)),
    ensures
        from_column(column) == returned(value),
{
}

/// Text wins: a column that answers as text decodes to that text, whatever
/// else it answers to.
pub proof fn lemma_text_has_priority(column: ColumnModel)
    requires
        column.text is Some,
    ensures
        from_column(column) == ValueModel::Text(column.text->0),
{
}

/// Decides [`decodable`] for a column at hand.
pub fn is_decodable(column: &RawColumn) -> (fits: bool)
    ensures
        fits == decodable(column@),
{
    if column.text.is_some() || column.integer.is_some() || column.float.is_some()
        || column.boolean.is_some() {
        true
    } else {
        match &column.binary {
            Some(bytes) => is_encodable(bytes.len()),
            None => true,
        }
    }
}

/// Converts a value to the store's native parameter. Every value has one.
pub fn json_to_sql(value: &UntypedValue) -> (param: SqlParam)
    ensures
        param@ == to_parameter(value@),
{
    match value {
        UntypedValue::Null => SqlParam::Null,
        UntypedValue::Bool(b) => SqlParam::Bool(*b),
        UntypedValue::Integer(i) => SqlParam::Integer(*i),
        UntypedValue::Float(bits) => SqlParam::Real(*bits),
        UntypedValue::Decimal(text) => SqlParam::Text(text.clone()),
        UntypedValue::Text(text) => SqlParam::Text(text.clone()),
        UntypedValue::Composite(text) => SqlParam::Text(text.clone()),
    }
}

/// Decodes one column of a result row.
pub fn row_value_to_json(column: &RawColumn) -> (value: UntypedValue)
    requires
        decodable(column@),
    ensures
        value@ == from_column(column@),
{
    if let Some(text) = &column.text {
        UntypedValue::Text(text.clone())
    } else if let Some(i) = column.integer {
        UntypedValue::Integer(i)
    } else if let Some(bits) = column.float {
        UntypedValue::Float(bits)
    } else if let Some(b) = column.boolean {
        UntypedValue::Bool(b)
    } else if let Some(bytes) = &column.binary {
        UntypedValue::Text(encode(bytes.as_slice()))
    } else {
        UntypedValue::Null
    }
}

} // verus!
