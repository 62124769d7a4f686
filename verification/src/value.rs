//! Values as they come from clients and from the engine, and the formats in
//! which they travel.

use vstd::prelude::*;

verus! {

/// How a field is encoded on the wire.
#[derive(Clone, Copy, Debug, PartialEq, Eq, Structural)]
pub enum FieldFormat {
    Text,
    Binary,
}

/// How a list of fields is encoded: all alike, or each by a format code of its
/// own, where 1 stands for binary and everything else for text.
#[derive(Debug, PartialEq, Eq)]
pub enum Format {
    UnifiedText,
    UnifiedBinary,
    Individual(Vec<i16>),
}

impl Format {
    /// Whether the format of field `index` is settled.
    pub open spec fn covers(self, index: int) -> bool {
        self matches Format::Individual(codes) ==> 0 <= index < codes@.len()
    }

    /// The format of field `index`.
    pub open spec fn format_of(self, index: int) -> FieldFormat {
        match self {
            Format::UnifiedText => FieldFormat::Text,
            Format::UnifiedBinary => FieldFormat::Binary,
            Format::Individual(codes) => if codes@[index] == 1 {
                FieldFormat::Binary
            } else {
                FieldFormat::Text
            },
        }
    }

    /// The format of field `index`.
    pub fn format_for(&self, index: usize) -> (r: FieldFormat)
        requires
            self.covers(index as int),
        ensures
            r == self.format_of(index as int),
    {
        match self {
            Format::UnifiedText => FieldFormat::Text,
            Format::UnifiedBinary => FieldFormat::Binary,
            Format::Individual(codes) => {
                if codes[index] == 1 {
                    FieldFormat::Binary
                } else {
                    FieldFormat::Text
                }
            },
        }
    }
}

/// A value that a client binds to a parameter. A floating point number is kept
/// as the text that stands for it.
#[derive(Debug, PartialEq, Eq)]
pub enum BindValue {
    Null,
    Integer(i64),
    Real(String),
    Text(String),
    Blob(Vec<u8>),
}

/// What a [`BindValue`] holds.
pub enum BindValueView {
    Null,
    Integer(int),
    Real(Seq<char>),
    Text(Seq<char>),
    Blob(Seq<u8>),
}

impl View for BindValue {
    type V = BindValueView;

    open spec fn view(&self) -> BindValueView {
        match *self {
            BindValue::Null => BindValueView::Null,
            BindValue::Integer(i) => BindValueView::Integer(i as int),
            BindValue::Real(text) => BindValueView::Real(text@),
            BindValue::Text(text) => BindValueView::Text(text@),
            BindValue::Blob(bytes) => BindValueView::Blob(bytes@),
        }
    }
}

/// A value that the engine hands out in a row. A floating point number is kept
/// as its bits.
#[derive(Debug, PartialEq, Eq)]
pub enum Value {
    Null,
    Integer(i64),
    Real(u64),
    Text(String),
    Blob(Vec<u8>),
}

} // verus!
