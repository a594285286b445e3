//! The ClickHouse data type tree and its text form.

use crate::text::{decimal, number_text};
use vstd::prelude::*;
use vstd::string::*;

verus! {

/// An identifier, with the quoting it is written in.
#[derive(Debug, PartialEq, Eq)]
pub enum Identifier {
    DoubleQuoted(String),
    BacktickQuoted(String),
    Unquoted(String),
}

/// The mathematical value of an [`Identifier`].
pub enum IdentifierView {
    DoubleQuoted(Seq<char>),
    BacktickQuoted(Seq<char>),
    Unquoted(Seq<char>),
}

impl IdentifierView {
    /// The name itself, without its quotes.
    pub open spec fn value(self) -> Seq<char> {
        match self {
            IdentifierView::DoubleQuoted(s) => s,
            IdentifierView::BacktickQuoted(s) => s,
            IdentifierView::Unquoted(s) => s,
        }
    }

    /// The identifier as it is written in a type expression: the name between
    /// the quotes of its kind, or bare.
    pub open spec fn render(self) -> Seq<char> {
        match self {
            IdentifierView::DoubleQuoted(s) => "\""@ + s + "\""@,
            IdentifierView::BacktickQuoted(s) => "`"@ + s + "`"@,
            IdentifierView::Unquoted(s) => s,
        }
    }
}

impl View for Identifier {
    type V = IdentifierView;

    open spec fn view(&self) -> IdentifierView {
        match self {
            Identifier::DoubleQuoted(s) => IdentifierView::DoubleQuoted(s@),
            Identifier::BacktickQuoted(s) => IdentifierView::BacktickQuoted(s@),
            Identifier::Unquoted(s) => IdentifierView::Unquoted(s@),
        }
    }
}

impl Clone for Identifier {
    fn clone(&self) -> (res: Self)
        ensures
            res@ == self@,
    {
        match self {
            Identifier::DoubleQuoted(s) => Identifier::DoubleQuoted(s.clone()),
            Identifier::BacktickQuoted(s) => Identifier::BacktickQuoted(s.clone()),
            Identifier::Unquoted(s) => Identifier::Unquoted(s.clone()),
        }
    }
}

impl Identifier {
    /// The name itself, without its quotes.
    pub fn value(&self) -> (res: &String)
        ensures
            res@ == self@.value(),
    {
        match self {
            Identifier::DoubleQuoted(s) => s,
            Identifier::BacktickQuoted(s) => s,
            Identifier::Unquoted(s) => s,
        }
    }

    /// The identifier as it is written in a type expression.
    pub fn render(&self) -> (res: String)
        ensures
            res@ == self@.render(),
    {
        match self {
            Identifier::DoubleQuoted(s) => {
                let mut out = String::from_str("\"");
                out.append(s.as_str());
                out.append("\"");
                out
            },
            Identifier::BacktickQuoted(s) => {
                let mut out = String::from_str("`");
                out.append(s.as_str());
                out.append("`");
                out
            },
            Identifier::Unquoted(s) => s.clone(),
        }
    }
}

/// A ClickHouse data type.
#[derive(Debug, PartialEq, Eq)]
pub enum DataType {
    Nullable(Box<DataType>),
    Array(Box<DataType>),
    MapOf { key: Box<DataType>, value: Box<DataType> },
    Tuple(Vec<(Option<Identifier>, DataType)>),
    LowCardinality(Box<DataType>),
    FixedString(u32),
    Decimal { precision: u32, scale: u32 },
    DateTime64 { precision: u32 },
    Bool,
    String,
    UInt8,
    UInt16,
    UInt32,
    UInt64,
    UInt128,
    UInt256,
    Int8,
    Int16,
    Int32,
    Int64,
    Int128,
    Int256,
    Float32,
    Float64,
    Date,
    Date32,
    DateTime,
    Json,
    Uuid,
    IPv4,
    IPv6,
    Nothing,
}

/// The mathematical value of a [`DataType`].
pub enum DataTypeView {
    Nullable(Box<DataTypeView>),
    Array(Box<DataTypeView>),
    MapOf { key: Box<DataTypeView>, value: Box<DataTypeView> },
    Tuple(Seq<(Option<IdentifierView>, DataTypeView)>),
    LowCardinality(Box<DataTypeView>),
    FixedString(nat),
    Decimal { precision: nat, scale: nat },
    DateTime64 { precision: nat },
    Bool,
    String,
    UInt8,
    UInt16,
    UInt32,
    UInt64,
    UInt128,
    UInt256,
    Int8,
    Int16,
    Int32,
    Int64,
    Int128,
    Int256,
    Float32,
    Float64,
    Date,
    Date32,
    DateTime,
    Json,
    Uuid,
    IPv4,
    IPv6,
    Nothing,
}

/// The value of a tuple member's name, where it has one.
pub open spec fn name_view(name: Option<Identifier>) -> Option<IdentifierView> {
    match name {
        Some(n) => Some(n@),
        None => None,
    }
}

impl DataType {
    /// The value of this type as a tree over sequences.
    pub open spec fn model(self) -> DataTypeView
        decreases self,
    {
        match self {
            DataType::Nullable(inner) => DataTypeView::Nullable(Box::new(inner.model())),
            DataType::Array(inner) => DataTypeView::Array(Box::new(inner.model())),
            DataType::MapOf { key, value } => DataTypeView::MapOf {
                key: Box::new(key.model()),
                value: Box::new(value.model()),
            },
            DataType::Tuple(members) => DataTypeView::Tuple(
                Seq::new(
                    members.len() as nat,
                    |i: int|
                        if 0 <= i < members.len() {
                            (name_view(members[i].0), members[i].1.model())
                        } else {
                            (None, DataTypeView::Nothing)
                        },
                ),
            ),
            DataType::LowCardinality(inner) => DataTypeView::LowCardinality(
                Box::new(inner.model()),
            ),
            DataType::FixedString(length) => DataTypeView::FixedString(length as nat),
            DataType::Decimal { precision, scale } => DataTypeView::Decimal {
                precision: precision as nat,
                scale: scale as nat,
            },
            DataType::DateTime64 { precision } => DataTypeView::DateTime64 {
                precision: precision as nat,
            },
            DataType::Bool => DataTypeView::Bool,
            DataType::String => DataTypeView::String,
            DataType::UInt8 => DataTypeView::UInt8,
            DataType::UInt16 => DataTypeView::UInt16,
            DataType::UInt32 => DataTypeView::UInt32,
            DataType::UInt64 => DataTypeView::UInt64,
            DataType::UInt128 => DataTypeView::UInt128,
            DataType::UInt256 => DataTypeView::UInt256,
            DataType::Int8 => DataTypeView::Int8,
            DataType::Int16 => DataTypeView::Int16,
            DataType::Int32 => DataTypeView::Int32,
            DataType::Int64 => DataTypeView::Int64,
            DataType::Int128 => DataTypeView::Int128,
            DataType::Int256 => DataTypeView::Int256,
            DataType::Float32 => DataTypeView::Float32,
            DataType::Float64 => DataTypeView::Float64,
            DataType::Date => DataTypeView::Date,
            DataType::Date32 => DataTypeView::Date32,
            DataType::DateTime => DataTypeView::DateTime,
            DataType::Json => DataTypeView::Json,
            DataType::Uuid => DataTypeView::Uuid,
            DataType::IPv4 => DataTypeView::IPv4,
            DataType::IPv6 => DataTypeView::IPv6,
            DataType::Nothing => DataTypeView::Nothing,
        }
    }
}

impl View for DataType {
    type V = DataTypeView;

    open spec fn view(&self) -> DataTypeView {
        self.model()
    }
}

/// One member of a tuple as it is written: its name, where it has one, a
/// space, and its type.
pub open spec fn render_member(member: (Option<IdentifierView>, DataTypeView)) -> Seq<char>
    decreases member, 0nat,
{
    match member.0 {
        Some(name) => name.render() + " "@ + member.1.render(),
        None => member.1.render(),
    }
}

/// The first `n` members of a tuple as they are written, separated by a comma
/// and a space.
pub open spec fn render_members(
    members: Seq<(Option<IdentifierView>, DataTypeView)>,
    n: nat,
) -> Seq<char>
    decreases members, n,
{
    if n == 0 || n > members.len() {
        Seq::empty()
    } else if n == 1 {
        render_member(members[0])
    } else {
        render_members(members, (n - 1) as nat) + ", "@ + render_member(members[n - 1])
    }
}

impl DataTypeView {
    /// The type as ClickHouse writes it.
    pub open spec fn render(self) -> Seq<char>
        decreases self, 0nat,
    {
        match self {
            DataTypeView::Nullable(inner) => "Nullable("@ + inner.render() + ")"@,
            DataTypeView::Array(inner) => "Array("@ + inner.render() + ")"@,
            DataTypeView::MapOf { key, value } => "Map("@ + key.render() + ", "@ + value.render()
                + ")"@,
            DataTypeView::Tuple(members) => "Tuple("@ + render_members(members, members.len())
                + ")"@,
            DataTypeView::LowCardinality(inner) => "LowCardinality("@ + inner.render() + ")"@,
            DataTypeView::FixedString(length) => "FixedString("@ + decimal(length) + ")"@,
            DataTypeView::Decimal { precision, scale } => "Decimal("@ + decimal(precision) + ", "@
                + decimal(scale) + ")"@,
            DataTypeView::DateTime64 { precision } => "DateTime64("@ + decimal(precision) + ")"@,
            DataTypeView::Bool => "Bool"@,
            DataTypeView::String => "String"@,
            DataTypeView::UInt8 => "UInt8"@,
            DataTypeView::UInt16 => "UInt16"@,
            DataTypeView::UInt32 => "UInt32"@,
            DataTypeView::UInt64 => "UInt64"@,
            DataTypeView::UInt128 => "UInt128"@,
            DataTypeView::UInt256 => "UInt256"@,
            DataTypeView::Int8 => "Int8"@,
            DataTypeView::Int16 => "Int16"@,
            DataTypeView::Int32 => "Int32"@,
            DataTypeView::Int64 => "Int64"@,
            DataTypeView::Int128 => "Int128"@,
            DataTypeView::Int256 => "Int256"@,
            DataTypeView::Float32 => "Float32"@,
            DataTypeView::Float64 => "Float64"@,
            DataTypeView::Date => "Date"@,
            DataTypeView::Date32 => "Date32"@,
            DataTypeView::DateTime => "DateTime"@,
            DataTypeView::Json => "JSON"@,
            DataTypeView::Uuid => "UUID"@,
            DataTypeView::IPv4 => "IPv4"@,
            DataTypeView::IPv6 => "IPv6"@,
            DataTypeView::Nothing => "Nothing"@,
        }
    }
}

impl Clone for DataType {
    fn clone(&self) -> (res: Self)
        ensures
            res@ == self@,
    {
        self.duplicate()
    }
}

impl DataType {
    /// A copy of this type.
    pub fn duplicate(&self) -> (res: Self)
        ensures
            res@ == self@,
        decreases self,
    {
        match self {
            DataType::Nullable(inner) => DataType::Nullable(Box::new(inner.duplicate())),
            DataType::Array(inner) => DataType::Array(Box::new(inner.duplicate())),
            DataType::MapOf { key, value } => DataType::MapOf {
                key: Box::new(key.duplicate()),
                value: Box::new(value.duplicate()),
            },
            DataType::Tuple(members) => {
                let mut copy: Vec<(Option<Identifier>, DataType)> = Vec::new();
                let mut i: usize = 0;
                while i < members.len()
                    invariant
                        *self == DataType::Tuple(*members),
                        i <= members.len(),
                        copy.len() == i,
                        forall|j: int|
                            0 <= j < i ==> name_view(#[trigger] copy[j].0) == name_view(
                                members[j].0,
                            ) && copy[j].1@ == members[j].1@,
                    decreases members.len() - i,
                {
                    let name = match &members[i].0 {
                        Some(n) => Some(n.clone()),
                        None => None,
                    };
                    assert(self->Tuple_0 == *members);
                    assert(decreases_to!(*members => members[i as int]));
                    copy.push((name, members[i].1.duplicate()));
                    i += 1;
                }
                let res = DataType::Tuple(copy);
                assert(res@->Tuple_0 =~= self@->Tuple_0);
                res
            },
            DataType::LowCardinality(inner) => DataType::LowCardinality(
                Box::new(inner.duplicate()),
            ),
            DataType::FixedString(length) => DataType::FixedString(*length),
            DataType::Decimal { precision, scale } => DataType::Decimal {
                precision: *precision,
                scale: *scale,
            },
            DataType::DateTime64 { precision } => DataType::DateTime64 { precision: *precision },
            DataType::Bool => DataType::Bool,
            DataType::String => DataType::String,
            DataType::UInt8 => DataType::UInt8,
            DataType::UInt16 => DataType::UInt16,
            DataType::UInt32 => DataType::UInt32,
            DataType::UInt64 => DataType::UInt64,
            DataType::UInt128 => DataType::UInt128,
            DataType::UInt256 => DataType::UInt256,
            DataType::Int8 => DataType::Int8,
            DataType::Int16 => DataType::Int16,
            DataType::Int32 => DataType::Int32,
            DataType::Int64 => DataType::Int64,
            DataType::Int128 => DataType::Int128,
            DataType::Int256 => DataType::Int256,
            DataType::Float32 => DataType::Float32,
            DataType::Float64 => DataType::Float64,
            DataType::Date => DataType::Date,
            DataType::Date32 => DataType::Date32,
            DataType::DateTime => DataType::DateTime,
            DataType::Json => DataType::Json,
            DataType::Uuid => DataType::Uuid,
            DataType::IPv4 => DataType::IPv4,
            DataType::IPv6 => DataType::IPv6,
            DataType::Nothing => DataType::Nothing,
        }
    }
}

impl DataType {
    /// The type as ClickHouse writes it.
    pub fn render(&self) -> (res: String)
        ensures
            res@ == self@.render(),
        decreases self,
    {
        match self {
            DataType::Nullable(inner) => {
                let mut out = String::from_str("Nullable(");
                out.append(inner.render().as_str());
                out.append(")");
                out
            },
            DataType::Array(inner) => {
                let mut out = String::from_str("Array(");
                out.append(inner.render().as_str());
                out.append(")");
                out
            },
            DataType::MapOf { key, value } => {
                let mut out = String::from_str("Map(");
                out.append(key.render().as_str());
                out.append(", ");
                out.append(value.render().as_str());
                out.append(")");
                out
            },
            DataType::Tuple(members) => {
                let mut out = String::from_str("Tuple(");
                let mut i: usize = 0;
                while i < members.len()
                    invariant
                        *self == DataType::Tuple(*members),
                        i <= members.len(),
                        self@ is Tuple,
                        self@->Tuple_0.len() == members.len(),
                        forall|j: int|
                            0 <= j < members.len() ==> #[trigger] self@->Tuple_0[j] == (
                                name_view(members[j].0),
                                members[j].1@,
                            ),
                        out@ == "Tuple("@ + render_members(self@->Tuple_0, i as nat),
                    decreases members.len() - i,
                {
                    let ghost before = out@;
                    let ghost all = self@->Tuple_0;
                    if i > 0 {
                        out.append(", ");
                    }
                    match &members[i].0 {
                        Some(name) => {
                            out.append(name.render().as_str());
                            out.append(" ");
                        },
                        None => {},
                    }
                    out.append(members[i].1.render().as_str());
                    i += 1;
                    proof {
                        assert(all[i - 1] == (name_view(members[i - 1].0), members[i - 1].1@));
                        let sep = if i > 1 {
                            ", "@
                        } else {
                            Seq::<char>::empty()
                        };
                        assert(out@ =~= before + sep + render_member(all[i - 1]));
                        assert(out@ =~= "Tuple("@ + render_members(all, i as nat));
                    }
                }
                out.append(")");
                out
            },
            DataType::LowCardinality(inner) => {
                let mut out = String::from_str("LowCardinality(");
                out.append(inner.render().as_str());
                out.append(")");
                out
            },
            DataType::FixedString(length) => {
                let mut out = String::from_str("FixedString(");
                out.append(number_text(*length).as_str());
                out.append(")");
                out
            },
            DataType::Decimal { precision, scale } => {
                let mut out = String::from_str("Decimal(");
                out.append(number_text(*precision).as_str());
                out.append(", ");
                out.append(number_text(*scale).as_str());
                out.append(")");
                out
            },
            DataType::DateTime64 { precision } => {
                let mut out = String::from_str("DateTime64(");
                out.append(number_text(*precision).as_str());
                out.append(")");
                out
            },
            DataType::Bool => String::from_str("Bool"),
            DataType::String => String::from_str("String"),
            DataType::UInt8 => String::from_str("UInt8"),
            DataType::UInt16 => String::from_str("UInt16"),
            DataType::UInt32 => String::from_str("UInt32"),
            DataType::UInt64 => String::from_str("UInt64"),
            DataType::UInt128 => String::from_str("UInt128"),
            DataType::UInt256 => String::from_str("UInt256"),
            DataType::Int8 => String::from_str("Int8"),
            DataType::Int16 => String::from_str("Int16"),
            DataType::Int32 => String::from_str("Int32"),
            DataType::Int64 => String::from_str("Int64"),
            DataType::Int128 => String::from_str("Int128"),
            DataType::Int256 => String::from_str("Int256"),
            DataType::Float32 => String::from_str("Float32"),
            DataType::Float64 => String::from_str("Float64"),
            DataType::Date => String::from_str("Date"),
            DataType::Date32 => String::from_str("Date32"),
            DataType::DateTime => String::from_str("DateTime"),
            DataType::Json => String::from_str("JSON"),
            DataType::Uuid => String::from_str("UUID"),
            DataType::IPv4 => String::from_str("IPv4"),
            DataType::IPv6 => String::from_str("IPv6"),
            DataType::Nothing => String::from_str("Nothing"),
        }
    }
}

} // verus!
