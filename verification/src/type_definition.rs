//! The shape of a column as a selection sees it: scalar, nullable, array or
//! object.

use crate::datatype::{name_view, DataType, DataTypeView, Identifier, IdentifierView};
use crate::text::{join3, text_eq};
use vstd::prelude::*;
use vstd::string::*;

verus! {

/// What a column's data type means to a selection.
#[derive(Debug, PartialEq, Eq)]
pub enum TypeDefinition {
    /// A type that is selected whole.
    Scalar(DataType),
    /// A type that may be null. Its inner type is never nullable itself.
    Nullable { inner: Box<TypeDefinition> },
    /// A list, of which a selection may pick parts of each element.
    Array { element_type: Box<TypeDefinition> },
    /// A record with named fields, no name twice.
    Object { name: String, fields: Vec<(String, TypeDefinition)> },
}

/// The mathematical value of a [`TypeDefinition`].
pub enum TypeDefinitionView {
    Scalar(DataTypeView),
    Nullable { inner: Box<TypeDefinitionView> },
    Array { element_type: Box<TypeDefinitionView> },
    Object { name: Seq<char>, fields: Seq<(Seq<char>, TypeDefinitionView)> },
}

impl TypeDefinition {
    /// The value of this definition as a tree over sequences.
    pub open spec fn model(self) -> TypeDefinitionView
        decreases self,
    {
        match self {
            TypeDefinition::Scalar(t) => TypeDefinitionView::Scalar(t@),
            TypeDefinition::Nullable { inner } => TypeDefinitionView::Nullable {
                inner: Box::new(inner.model()),
            },
            TypeDefinition::Array { element_type } => TypeDefinitionView::Array {
                element_type: Box::new(element_type.model()),
            },
            TypeDefinition::Object { name, fields } => TypeDefinitionView::Object {
                name: name@,
                fields: Seq::new(
                    fields.len() as nat,
                    |i: int|
                        if 0 <= i < fields.len() {
                            (fields[i].0@, fields[i].1.model())
                        } else {
                            (Seq::empty(), TypeDefinitionView::Scalar(DataTypeView::Nothing))
                        },
                ),
            },
        }
    }
}

impl View for TypeDefinition {
    type V = TypeDefinitionView;

    open spec fn view(&self) -> TypeDefinitionView {
        self.model()
    }
}

/// The name of a tuple member, without quotes. Meant for named members.
pub open spec fn member_name(member: (Option<IdentifierView>, DataTypeView)) -> Seq<char> {
    match member.0 {
        Some(name) => name.value(),
        None => Seq::empty(),
    }
}

/// Whether the first `n` members of a tuple are all named, no name twice.
pub open spec fn is_record_upto(
    members: Seq<(Option<IdentifierView>, DataTypeView)>,
    n: int,
) -> bool {
    &&& forall|i: int| 0 <= i < n ==> (#[trigger] members[i]).0 is Some
    &&& forall|i: int, j: int|
        0 <= i < j < n ==> member_name(#[trigger] members[i]) != member_name(
            #[trigger] members[j],
        )
}

/// Whether a tuple is a record: every member named, no name twice.
pub open spec fn is_record(members: Seq<(Option<IdentifierView>, DataTypeView)>) -> bool {
    is_record_upto(members, members.len() as int)
}

/// The definition of a data type found under the path `namespace`.
///
/// A nullable type is nullable once, however often the data type says so. An
/// array stays an array. A tuple that is a record becomes an object named by
/// its path, each field found under the path extended by the separator and the
/// field's name. Everything else is a scalar.
pub open spec fn classify(
    data_type: DataTypeView,
    namespace: Seq<char>,
    separator: Seq<char>,
) -> TypeDefinitionView
    decreases data_type,
{
    match data_type {
        DataTypeView::Nullable(inner) => {
            let definition = classify(*inner, namespace, separator);
            if definition is Nullable {
                definition
            } else {
                TypeDefinitionView::Nullable { inner: Box::new(definition) }
            }
        },
        DataTypeView::Array(inner) => TypeDefinitionView::Array {
            element_type: Box::new(classify(*inner, namespace, separator)),
        },
        DataTypeView::Tuple(members) => if is_record(members) {
            TypeDefinitionView::Object {
                name: namespace,
                fields: Seq::new(
                    members.len(),
                    |i: int|
                        if 0 <= i < members.len() {
                            (
                                member_name(members[i]),
                                classify(
                                    members[i].1,
                                    namespace + separator + member_name(members[i]),
                                    separator,
                                ),
                            )
                        } else {
                            (Seq::empty(), TypeDefinitionView::Scalar(DataTypeView::Nothing))
                        },
                ),
            }
        } else {
            TypeDefinitionView::Scalar(data_type)
        },
        _ => TypeDefinitionView::Scalar(data_type),
    }
}

/// The definition of a column of a table: its data type, found under the
/// table's type name extended by the separator and the column's name.
pub open spec fn column_definition(
    data_type: DataTypeView,
    column_alias: Seq<char>,
    object_type_name: Seq<char>,
    separator: Seq<char>,
) -> TypeDefinitionView {
    classify(data_type, object_type_name + separator + column_alias, separator)
}

impl TypeDefinitionView {
    /// The definition below any nullability.
    pub open spec fn non_nullable(self) -> TypeDefinitionView
        decreases self,
    {
        match self {
            TypeDefinitionView::Nullable { inner } => inner.non_nullable(),
            _ => self,
        }
    }

    /// The data type that a value of this definition is cast to. The fields of
    /// an object become the members of a tuple, their names in double quotes.
    pub open spec fn cast_type(self) -> DataTypeView
        decreases self,
    {
        match self {
            TypeDefinitionView::Scalar(t) => t,
            TypeDefinitionView::Nullable { inner } => DataTypeView::Nullable(
                Box::new(inner.cast_type()),
            ),
            TypeDefinitionView::Array { element_type } => DataTypeView::Array(
                Box::new(element_type.cast_type()),
            ),
            TypeDefinitionView::Object { name, fields } => DataTypeView::Tuple(
                Seq::new(
                    fields.len(),
                    |i: int|
                        if 0 <= i < fields.len() {
                            (
                                Some(IdentifierView::DoubleQuoted(fields[i].0)),
                                fields[i].1.cast_type(),
                            )
                        } else {
                            (None, DataTypeView::Nothing)
                        },
                ),
            ),
        }
    }

    /// Whether no field name occurs twice among `fields`.
    pub open spec fn distinct_names(fields: Seq<(Seq<char>, TypeDefinitionView)>) -> bool {
        forall|i: int, j: int|
            0 <= i < j < fields.len() ==> (#[trigger] fields[i]).0 != (#[trigger] fields[j]).0
    }

    /// The invariant of a definition: nothing is nullable twice over, and no
    /// object has two fields of one name.
    pub open spec fn well_formed(self) -> bool
        decreases self,
    {
        match self {
            TypeDefinitionView::Scalar(_) => true,
            TypeDefinitionView::Nullable { inner } => !(*inner is Nullable) && inner.well_formed(),
            TypeDefinitionView::Array { element_type } => element_type.well_formed(),
            TypeDefinitionView::Object { name, fields } => {
                &&& Self::distinct_names(fields)
                &&& forall|i: int|
                    0 <= i < fields.len() ==> (#[trigger] fields[i]).1.well_formed()
            },
        }
    }
}

impl TypeDefinition {
    /// The definition of a column of a table.
    pub fn from_table_column(
        data_type: &DataType,
        column_alias: &str,
        object_type_name: &str,
        separator: &str,
    ) -> (definition: Self)
        ensures
            definition@ == column_definition(
                data_type@,
                column_alias@,
                object_type_name@,
                separator@,
            ),
            definition@.well_formed(),
    {
        let namespace = join3(object_type_name, separator, column_alias);
        Self::new(data_type, namespace.as_str(), separator)
    }

    /// The definition of a data type found under the path `namespace`.
    pub fn new(data_type: &DataType, namespace: &str, separator: &str) -> (definition: Self)
        ensures
            definition@ == classify(data_type@, namespace@, separator@),
            definition@.well_formed(),
        decreases data_type,
    {
        proof {
            lemma_classify_well_formed(data_type@, namespace@, separator@);
        }
        match data_type {
            DataType::Nullable(inner) => {
                let definition = Self::new(inner, namespace, separator);
                match definition {
                    TypeDefinition::Nullable { inner } => TypeDefinition::Nullable { inner },
                    other => TypeDefinition::Nullable { inner: Box::new(other) },
                }
            },
            DataType::Array(inner) => TypeDefinition::Array {
                element_type: Box::new(Self::new(inner, namespace, separator)),
            },
            DataType::Tuple(members) => {
                let ghost all = data_type@->Tuple_0;
                let mut fields: Vec<(String, TypeDefinition)> = Vec::new();
                let mut i: usize = 0;
                while i < members.len()
                    invariant
                        *data_type == DataType::Tuple(*members),
                        all == data_type@->Tuple_0,
                        all.len() == members.len(),
                        forall|j: int|
                            0 <= j < members.len() ==> #[trigger] all[j] == (
                                name_view(members[j].0),
                                members[j].1@,
                            ),
                        i <= members.len(),
                        fields.len() == i,
                        is_record_upto(all, i as int),
                        forall|j: int|
                            0 <= j < i ==> (#[trigger] fields[j]).0@ == member_name(all[j])
                                && fields[j].1@ == classify(
                                all[j].1,
                                namespace@ + separator@ + member_name(all[j]),
                                separator@,
                            ),
                    decreases members.len() - i,
                {
                    match &members[i].0 {
                        None => {
                            assert(all[i as int].0 is None);
                            return TypeDefinition::Scalar(data_type.duplicate());
                        },
                        Some(identifier) => {
                            let name = identifier.value();
                            assert(name@ == member_name(all[i as int]));
                            let mut k: usize = 0;
                            while k < i
                                invariant
                                    *data_type == DataType::Tuple(*members),
                                    k <= i,
                                    i < members.len(),
                                    fields.len() == i,
                                    all.len() == members.len(),
                                    all == data_type@->Tuple_0,
                                    name@ == member_name(all[i as int]),
                                    forall|j: int|
                                        0 <= j < i ==> (#[trigger] fields[j]).0@ == member_name(
                                            all[j],
                                        ),
                                    forall|j: int|
                                        0 <= j < k ==> member_name(#[trigger] all[j]) != name@,
                                decreases i - k,
                            {
                                if text_eq(fields[k].0.as_str(), name.as_str()) {
                                    assert(member_name(all[k as int]) == member_name(
                                        all[i as int],
                                    ));
                                    return TypeDefinition::Scalar(data_type.duplicate());
                                }
                                k += 1;
                            }
                            let path = join3(namespace, separator, name.as_str());
                            assert(decreases_to!(data_type => members[i as int].1)) by {
                                assert(data_type->Tuple_0 == *members);
                                assert(decreases_to!(*members => members[i as int]));
                            }
                            let definition = Self::new(&members[i].1, path.as_str(), separator);
                            fields.push((name.clone(), definition));
                        },
                    }
                    i += 1;
                }
                let definition = TypeDefinition::Object { name: String::from_str(namespace), fields };
                assert(definition@->fields =~= classify(
                    data_type@,
                    namespace@,
                    separator@,
                )->fields);
                definition
            },
            _ => TypeDefinition::Scalar(data_type.duplicate()),
        }
    }

    /// The definition below any nullability.
    pub fn non_nullable(&self) -> (inner: &Self)
        ensures
            inner@ == self@.non_nullable(),
        decreases self,
    {
        match self {
            TypeDefinition::Nullable { inner } => inner.non_nullable(),
            _ => self,
        }
    }

    /// The data type that a value of this definition is cast to.
    pub fn cast_type(&self) -> (data_type: DataType)
        ensures
            data_type@ == self@.cast_type(),
        decreases self,
    {
        match self {
            TypeDefinition::Scalar(t) => t.duplicate(),
            TypeDefinition::Nullable { inner } => DataType::Nullable(Box::new(inner.cast_type())),
            TypeDefinition::Array { element_type } => DataType::Array(
                Box::new(element_type.cast_type()),
            ),
            TypeDefinition::Object { name, fields } => {
                let mut members: Vec<(Option<Identifier>, DataType)> = Vec::new();
                let mut i: usize = 0;
                while i < fields.len()
                    invariant
                        self is Object,
                        self->fields == *fields,
                        i <= fields.len(),
                        members.len() == i,
                        forall|j: int|
                            0 <= j < i ==> name_view((#[trigger] members[j]).0) == Some(
                                IdentifierView::DoubleQuoted(fields[j].0@),
                            ) && members[j].1@ == fields[j].1@.cast_type(),
                    decreases fields.len() - i,
                {
                    assert(decreases_to!(*fields => fields[i as int]));
                    let member = fields[i].1.cast_type();
                    members.push((Some(Identifier::DoubleQuoted(fields[i].0.clone())), member));
                    i += 1;
                }
                let data_type = DataType::Tuple(members);
                assert(data_type@->Tuple_0 =~= self@.cast_type()->Tuple_0);
                data_type
            },
        }
    }
}

/// Whether classifying a data type loses nothing of it: it is nowhere nullable
/// twice over, and the members of each record among its tuples carry their
/// names in double quotes.
pub open spec fn lossless(data_type: DataTypeView) -> bool
    decreases data_type,
{
    match data_type {
        DataTypeView::Nullable(inner) => !(*inner is Nullable) && lossless(*inner),
        DataTypeView::Array(inner) => lossless(*inner),
        DataTypeView::Tuple(members) => is_record(members) ==> forall|i: int|
            0 <= i < members.len() ==> ((#[trigger] members[i]).0 matches Some(name)
                && name is DoubleQuoted && lossless(members[i].1)),
        _ => true,
    }
}

/// A data type classifies as nullable exactly when it is nullable itself.
pub proof fn lemma_classify_nullable(
    data_type: DataTypeView,
    namespace: Seq<char>,
    separator: Seq<char>,
)
    ensures
        classify(data_type, namespace, separator) is Nullable <==> data_type is Nullable,
    decreases data_type,
{
    if let DataTypeView::Nullable(inner) = data_type {
        lemma_classify_nullable(*inner, namespace, separator);
    }
}

/// Every classification is well formed: nothing in it is nullable twice over,
/// and no object in it has two fields of one name.
pub proof fn lemma_classify_well_formed(
    data_type: DataTypeView,
    namespace: Seq<char>,
    separator: Seq<char>,
)
    ensures
        classify(data_type, namespace, separator).well_formed(),
    decreases data_type,
{
    match data_type {
        DataTypeView::Nullable(inner) => {
            lemma_classify_well_formed(*inner, namespace, separator);
        },
        DataTypeView::Array(inner) => {
            lemma_classify_well_formed(*inner, namespace, separator);
        },
        DataTypeView::Tuple(members) => {
            if is_record(members) {
                let fields = classify(data_type, namespace, separator)->fields;
                assert forall|i: int| 0 <= i < fields.len() implies (#[trigger] fields[i]).1.well_formed() by {
                    lemma_classify_well_formed(
                        members[i].1,
                        namespace + separator + member_name(members[i]),
                        separator,
                    );
                }
                assert forall|i: int, j: int| 0 <= i < j < fields.len() implies (#[trigger] fields[i]).0
                    != (#[trigger] fields[j]).0 by {
                    assert(member_name(members[i]) != member_name(members[j]));
                }
            }
        },
        _ => {},
    }
}

/// Classifying a data type and asking for the cast type of the outcome gives
/// the data type back, where classifying loses nothing of it.
pub proof fn lemma_classify_cast_type(
    data_type: DataTypeView,
    namespace: Seq<char>,
    separator: Seq<char>,
)
    requires
        lossless(data_type),
    ensures
        classify(data_type, namespace, separator).cast_type() == data_type,
    decreases data_type,
{
    match data_type {
        DataTypeView::Nullable(inner) => {
            lemma_classify_nullable(*inner, namespace, separator);
            lemma_classify_cast_type(*inner, namespace, separator);
        },
        DataTypeView::Array(inner) => {
            lemma_classify_cast_type(*inner, namespace, separator);
        },
        DataTypeView::Tuple(members) => {
            if is_record(members) {
                let back = classify(data_type, namespace, separator).cast_type()->Tuple_0;
                assert forall|i: int| 0 <= i < members.len() implies back[i] == members[i] by {
                    lemma_classify_cast_type(
                        members[i].1,
                        namespace + separator + member_name(members[i]),
                        separator,
                    );
                }
                assert(back =~= members);
            }
        },
        _ => {},
    }
}

/// The cast type of a classification is nullable exactly when the data type
/// is.
pub proof fn lemma_cast_type_nullable(
    data_type: DataTypeView,
    namespace: Seq<char>,
    separator: Seq<char>,
)
    ensures
        classify(data_type, namespace, separator).cast_type() is Nullable <==> data_type
            is Nullable,
    decreases data_type,
{
    if let DataTypeView::Nullable(inner) = data_type {
        lemma_cast_type_nullable(*inner, namespace, separator);
        lemma_classify_nullable(*inner, namespace, separator);
    }
}

/// Only where classifying loses nothing of a data type does the cast type of
/// the outcome give the data type back.
pub proof fn lemma_cast_type_back(
    data_type: DataTypeView,
    namespace: Seq<char>,
    separator: Seq<char>,
)
    requires
        classify(data_type, namespace, separator).cast_type() == data_type,
    ensures
        lossless(data_type),
    decreases data_type,
{
    match data_type {
        DataTypeView::Nullable(inner) => {
            lemma_classify_nullable(*inner, namespace, separator);
            if *inner is Nullable {
                // The outcome is that of the inner type, nullable over what
                // is not nullable, while the data type is nullable twice.
                lemma_nullable_once(*inner, namespace, separator);
            } else {
                lemma_cast_type_back(*inner, namespace, separator);
            }
        },
        DataTypeView::Array(inner) => {
            lemma_cast_type_back(*inner, namespace, separator);
        },
        DataTypeView::Tuple(members) => {
            if is_record(members) {
                let back = classify(data_type, namespace, separator).cast_type()->Tuple_0;
                assert forall|i: int| 0 <= i < members.len() implies ((
                #[trigger] members[i]).0 matches Some(name) && name is DoubleQuoted && lossless(
                    members[i].1,
                )) by {
                    assert(back[i] == members[i]);
                    lemma_cast_type_back(
                        members[i].1,
                        namespace + separator + member_name(members[i]),
                        separator,
                    );
                }
            }
        },
        _ => {},
    }
}

/// The cast type of the classification of a nullable data type is nullable
/// over what is not nullable.
pub proof fn lemma_nullable_once(
    data_type: DataTypeView,
    namespace: Seq<char>,
    separator: Seq<char>,
)
    requires
        data_type is Nullable,
    ensures
        classify(data_type, namespace, separator).cast_type() matches DataTypeView::Nullable(
            below,
        ) && !(*below is Nullable),
    decreases data_type,
{
    let inner = *data_type->Nullable_0;
    lemma_classify_nullable(inner, namespace, separator);
    if inner is Nullable {
        lemma_nullable_once(inner, namespace, separator);
    } else {
        lemma_cast_type_nullable(inner, namespace, separator);
    }
}

} // verus!
