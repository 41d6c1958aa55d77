//! Entity definitions and their ingestion.
//!
//! A definition arrives raw: the storage location may be missing, a field may
//! lack a name, and flags are still tokens. Ingestion either accepts the whole
//! definition or rejects it with the first fault found, in declaration order.

use vstd::prelude::*;

use crate::flags::{flag_of_token, Flag, FlagSet};
use crate::type_expr::{TypeExpr, TypeModel};

verus! {

/// A field as it is declared, before anything is checked.
#[derive(Debug, PartialEq, Eq)]
pub struct RawField {
    /// The field's name; `None` for a positional field.
    pub name: Option<String>,
    /// The declared type.
    pub declared_type: TypeExpr,
    /// The flag tokens, in the order in which they are written.
    pub flag_tokens: Vec<String>,
}

/// The mathematical value of a [`RawField`].
pub struct RawFieldModel {
    pub name: Option<Seq<char>>,
    pub declared_type: TypeModel,
    pub flag_tokens: Seq<Seq<char>>,
}

impl View for RawField {
    type V = RawFieldModel;

    open spec fn view(&self) -> RawFieldModel {
        RawFieldModel {
            name: match self.name {
                Some(name) => Some(name@),
                None => None,
            },
            declared_type: self.declared_type@,
            flag_tokens: self.flag_tokens.deep_view(),
        }
    }
}

impl RawField {
    /// A field with a name, a type and, so far, no flag.
    pub fn new(name: &str, declared_type: TypeExpr) -> (field: RawField)
        ensures
            field@ == (RawFieldModel {
                name: Some(name@),
                declared_type: declared_type@,
                flag_tokens: Seq::empty(),
            }),
    {
        let field = RawField { name: Some(name.to_owned()), declared_type, flag_tokens: Vec::new() };
        assert(field@.flag_tokens =~= Seq::empty());
        field
    }

    /// A field without a name.
    pub fn positional(declared_type: TypeExpr) -> (field: RawField)
        ensures
            field@ == (RawFieldModel {
                name: None,
                declared_type: declared_type@,
                flag_tokens: Seq::empty(),
            }),
    {
        let field = RawField { name: None, declared_type, flag_tokens: Vec::new() };
        assert(field@.flag_tokens =~= Seq::empty());
        field
    }

    /// The field with one more flag token, written after those it has.
    pub fn with_flag(self, token: &str) -> (field: RawField)
        ensures
            field@ == (RawFieldModel {
                flag_tokens: self@.flag_tokens.push(token@),
                ..self@
            }),
    {
        let mut field = self;
        field.flag_tokens.push(token.to_owned());
        assert(field@.flag_tokens =~= self@.flag_tokens.push(token@));
        field
    }
}

/// An entity as it is declared, before anything is checked.
#[derive(Debug, PartialEq, Eq)]
pub struct RawEntity {
    /// The entity's name.
    pub name: String,
    /// Where the entity is stored, if the declaration says so.
    pub storage_location: Option<String>,
    /// The fields, in declaration order.
    pub fields: Vec<RawField>,
}

/// The mathematical value of a [`RawEntity`].
pub struct RawEntityModel {
    pub name: Seq<char>,
    pub storage_location: Option<Seq<char>>,
    pub fields: Seq<RawFieldModel>,
}

impl View for RawEntity {
    type V = RawEntityModel;

    open spec fn view(&self) -> RawEntityModel {
        RawEntityModel {
            name: self.name@,
            storage_location: match self.storage_location {
                Some(location) => Some(location@),
                None => None,
            },
            fields: Seq::new(self.fields@.len(), |i: int| self.fields@[i]@),
        }
    }
}

impl RawEntity {
    /// An entity with a name and, so far, neither storage location nor field.
    pub fn new(name: &str) -> (entity: RawEntity)
        ensures
            entity@ == (RawEntityModel {
                name: name@,
                storage_location: None,
                fields: Seq::empty(),
            }),
    {
        let entity = RawEntity { name: name.to_owned(), storage_location: None, fields: Vec::new() };
        assert(entity@.fields =~= Seq::empty());
        entity
    }

    /// The entity, stored at `location`.
    pub fn stored_in(self, location: &str) -> (entity: RawEntity)
        ensures
            entity@ == (RawEntityModel { storage_location: Some(location@), ..self@ }),
    {
        let mut entity = self;
        entity.storage_location = Some(location.to_owned());
        entity
    }

    /// The entity with one more field, declared after those it has.
    pub fn with_field(self, field: RawField) -> (entity: RawEntity)
        ensures
            entity@ == (RawEntityModel { fields: self@.fields.push(field@), ..self@ }),
    {
        let mut entity = self;
        entity.fields.push(field);
        assert(entity@.fields =~= self@.fields.push(field@));
        entity
    }
}

/// A field of an accepted entity.
#[derive(Debug, PartialEq, Eq)]
pub struct FieldSpec {
    /// The field's name.
    pub name: String,
    /// The declared type.
    pub declared_type: TypeExpr,
    /// The field's flags.
    pub flags: FlagSet,
}

/// The mathematical value of a [`FieldSpec`].
pub struct FieldModel {
    pub name: Seq<char>,
    pub declared_type: TypeModel,
    pub flags: Set<Flag>,
}

impl View for FieldSpec {
    type V = FieldModel;

    open spec fn view(&self) -> FieldModel {
        FieldModel { name: self.name@, declared_type: self.declared_type@, flags: self.flags@ }
    }
}

/// An accepted entity: the sole input of the derivation.
#[derive(Debug, PartialEq, Eq)]
pub struct EntityDefinition {
    /// The entity's name, from which the names of the derived shapes are made.
    pub name: String,
    /// Where the entity is stored.
    pub storage_location: String,
    /// The fields, in declaration order.
    pub fields: Vec<FieldSpec>,
}

/// The mathematical value of an [`EntityDefinition`].
pub struct EntityModel {
    pub name: Seq<char>,
    pub storage_location: Seq<char>,
    pub fields: Seq<FieldModel>,
}

impl View for EntityDefinition {
    type V = EntityModel;

    open spec fn view(&self) -> EntityModel {
        EntityModel {
            name: self.name@,
            storage_location: self.storage_location@,
            fields: Seq::new(self.fields@.len(), |i: int| self.fields@[i]@),
        }
    }
}

/// Why a definition is rejected.
#[derive(Debug, PartialEq, Eq)]
pub enum DeriveError {
    /// The entity does not say where it is stored.
    MissingStorageLocation,
    /// A field has no name.
    NonNamedField,
    /// A field carries a token that names no flag.
    UnknownFlag { field: String, token: String },
}

/// The mathematical value of a [`DeriveError`].
pub enum DeriveErrorModel {
    MissingStorageLocation,
    NonNamedField,
    UnknownFlag { field: Seq<char>, token: Seq<char> },
}

impl View for DeriveError {
    type V = DeriveErrorModel;

    open spec fn view(&self) -> DeriveErrorModel {
        match self {
            DeriveError::MissingStorageLocation => DeriveErrorModel::MissingStorageLocation,
            DeriveError::NonNamedField => DeriveErrorModel::NonNamedField,
            DeriveError::UnknownFlag { field, token } => DeriveErrorModel::UnknownFlag {
                field: field@,
                token: token@,
            },
        }
    }
}

/// Every token names a flag.
pub open spec fn all_known(tokens: Seq<Seq<char>>) -> bool {
    forall|j: int| 0 <= j < tokens.len() ==> flag_of_token(#[trigger] tokens[j]) is Some
}

/// `at` is the position of the first token that names no flag.
pub open spec fn is_first_unknown(tokens: Seq<Seq<char>>, at: int) -> bool {
    &&& 0 <= at < tokens.len()
    &&& flag_of_token(tokens[at]) is None
    &&& forall|j: int| 0 <= j < at ==> flag_of_token(#[trigger] tokens[j]) is Some
}

/// The flags that the tokens name. A flag named twice is in the set once.
pub open spec fn flags_of_tokens(tokens: Seq<Seq<char>>) -> Set<Flag> {
    Set::new(
        |flag: Flag|
            exists|j: int| 0 <= j < tokens.len() && flag_of_token(#[trigger] tokens[j]) == Some(flag),
    )
}

/// One more token that names a flag adds that flag to the set.
proof fn lemma_flags_of_tokens_step(tokens: Seq<Seq<char>>, i: int)
    requires
        0 <= i < tokens.len(),
        flag_of_token(tokens[i]) is Some,
    ensures
        flags_of_tokens(tokens.take(i + 1)) == flags_of_tokens(tokens.take(i)).insert(
            flag_of_token(tokens[i]).unwrap(),
        ),
{
    let shorter = tokens.take(i);
    let longer = tokens.take(i + 1);
    let added = flag_of_token(tokens[i]).unwrap();
    assert forall|flag: Flag| flags_of_tokens(longer).contains(flag) implies flags_of_tokens(
        shorter,
    ).insert(added).contains(flag) by {
        let j = choose|j: int|
            0 <= j < longer.len() && flag_of_token(#[trigger] longer[j]) == Some(flag);
        if j < i {
            assert(flag_of_token(shorter[j]) == Some(flag));
        }
    }
    assert forall|flag: Flag| flags_of_tokens(shorter).insert(added).contains(
        flag,
    ) implies flags_of_tokens(longer).contains(flag) by {
        if flag == added {
            assert(flag_of_token(longer[i]) == Some(flag));
        } else {
            let j = choose|j: int|
                0 <= j < shorter.len() && flag_of_token(#[trigger] shorter[j]) == Some(flag);
            assert(flag_of_token(longer[j]) == Some(flag));
        }
    }
    assert(flags_of_tokens(longer) =~= flags_of_tokens(shorter).insert(added));
}

impl FlagSet {
    /// Reads a set of flags from tokens. Fails at the first token that names
    /// no flag, and says where it stands.
    pub fn from_tokens(tokens: &Vec<String>) -> (result: Result<FlagSet, usize>)
        ensures
            match result {
                Ok(flags) => all_known(tokens.deep_view()) && flags@ == flags_of_tokens(
                    tokens.deep_view(),
                ),
                Err(at) => is_first_unknown(tokens.deep_view(), at as int),
            },
    {
        let ghost texts = tokens.deep_view();
        let mut flags = FlagSet::empty();
        let mut i: usize = 0;
        while i < tokens.len()
            invariant
                i <= tokens.len(),
                texts == tokens.deep_view(),
                texts.len() == tokens.len(),
                forall|j: int| 0 <= j < i ==> flag_of_token(#[trigger] texts[j]) is Some,
                flags@ == flags_of_tokens(texts.take(i as int)),
            decreases tokens.len() - i,
        {
            match Flag::from_token(tokens[i].as_str()) {
                Some(flag) => {
                    proof {
                        lemma_flags_of_tokens_step(texts, i as int);
                    }
                    flags = flags.insert(flag);
                },
                None => {
                    return Err(i);
                },
            }
            i += 1;
        }
        assert(texts.take(i as int) =~= texts);
        Ok(flags)
    }
}

/// The field has a name and all its tokens name flags.
pub open spec fn field_accepted(field: RawFieldModel) -> bool {
    field.name is Some && all_known(field.flag_tokens)
}

/// What an accepted field becomes.
pub open spec fn accepted_field(field: RawFieldModel) -> FieldModel {
    FieldModel {
        name: field.name.unwrap(),
        declared_type: field.declared_type,
        flags: flags_of_tokens(field.flag_tokens),
    }
}

/// The fault of a field that is not accepted: it has no name, or else the
/// first of its tokens that names no flag.
pub open spec fn field_rejected_with(field: RawFieldModel, error: DeriveErrorModel) -> bool {
    match field.name {
        None => error == DeriveErrorModel::NonNamedField,
        Some(name) => exists|at: int|
            is_first_unknown(field.flag_tokens, at) && error == (DeriveErrorModel::UnknownFlag {
                field: name,
                token: #[trigger] field.flag_tokens[at],
            }),
    }
}

/// `at` is the position of the first field that is not accepted.
pub open spec fn is_first_rejected(fields: Seq<RawFieldModel>, at: int) -> bool {
    &&& 0 <= at < fields.len()
    &&& !field_accepted(fields[at])
    &&& forall|j: int| 0 <= j < at ==> field_accepted(#[trigger] fields[j])
}

/// The definition names its storage location and every field is accepted.
pub open spec fn accepted(raw: RawEntityModel) -> bool {
    &&& raw.storage_location is Some
    &&& forall|i: int| 0 <= i < raw.fields.len() ==> field_accepted(#[trigger] raw.fields[i])
}

/// What an accepted definition becomes.
pub open spec fn ingested(raw: RawEntityModel) -> EntityModel {
    EntityModel {
        name: raw.name,
        storage_location: raw.storage_location.unwrap(),
        fields: raw.fields.map_values(|field: RawFieldModel| accepted_field(field)),
    }
}

/// The fault of a definition that is not accepted. A missing storage location
/// comes before any fault of a field; among fields the first one at fault
/// decides.
pub open spec fn rejected_with(raw: RawEntityModel, error: DeriveErrorModel) -> bool {
    if raw.storage_location is None {
        error == DeriveErrorModel::MissingStorageLocation
    } else {
        exists|at: int|
            is_first_rejected(raw.fields, at) && field_rejected_with(
                #[trigger] raw.fields[at],
                error,
            )
    }
}

/// Checks one field.
pub fn ingest_field(field: &RawField) -> (result: Result<FieldSpec, DeriveError>)
    ensures
        match result {
            Ok(spec) => field_accepted(field@) && spec@ == accepted_field(field@),
            Err(error) => !field_accepted(field@) && field_rejected_with(field@, error@),
        },
{
    match &field.name {
        None => Err(DeriveError::NonNamedField),
        Some(name) => {
            match FlagSet::from_tokens(&field.flag_tokens) {
                Ok(flags) => Ok(
                    FieldSpec {
                        name: name.clone(),
                        declared_type: field.declared_type.clone(),
                        flags,
                    },
                ),
                Err(at) => {
                    Err(
                        DeriveError::UnknownFlag {
                            field: name.clone(),
                            token: field.flag_tokens[at].clone(),
                        },
                    )
                },
            }
        },
    }
}

/// Finds the first field that is not accepted, if there is one: the field at
/// which a definition that names its storage location is rejected.
pub fn first_rejected(raw: &RawEntity) -> (position: Option<usize>)
    ensures
        match position {
            Some(at) => is_first_rejected(raw@.fields, at as int),
            None => forall|i: int|
                0 <= i < raw@.fields.len() ==> field_accepted(#[trigger] raw@.fields[i]),
        },
{
    let mut i: usize = 0;
    while i < raw.fields.len()
        invariant
            i <= raw.fields.len(),
            forall|j: int| 0 <= j < i ==> field_accepted(#[trigger] raw@.fields[j]),
        decreases raw.fields.len() - i,
    {
        if ingest_field(&raw.fields[i]).is_err() {
            return Some(i);
        }
        i += 1;
    }
    None
}

/// Checks a definition and makes it an [`EntityDefinition`].
///
/// Succeeds exactly when the storage location is there and every field is
/// accepted. Otherwise nothing is produced but the first fault.
pub fn ingest(raw: &RawEntity) -> (result: Result<EntityDefinition, DeriveError>)
    ensures
        match result {
            Ok(entity) => accepted(raw@) && entity@ == ingested(raw@),
            Err(error) => !accepted(raw@) && rejected_with(raw@, error@),
        },
{
    let storage_location = match &raw.storage_location {
        None => {
            return Err(DeriveError::MissingStorageLocation);
        },
        Some(location) => location.clone(),
    };
    let mut fields: Vec<FieldSpec> = Vec::new();
    let mut i: usize = 0;
    while i < raw.fields.len()
        invariant
            i <= raw.fields.len(),
            fields@.len() == i,
            raw@.storage_location is Some,
            forall|j: int| 0 <= j < i ==> field_accepted(#[trigger] raw@.fields[j]),
            forall|j: int| 0 <= j < i ==> (#[trigger] fields@[j])@ == accepted_field(raw@.fields[j]),
        decreases raw.fields.len() - i,
    {
        match ingest_field(&raw.fields[i]) {
            Ok(spec) => {
                fields.push(spec);
            },
            Err(error) => {
                assert(is_first_rejected(raw@.fields, i as int));
                return Err(error);
            },
        }
        i += 1;
    }
    let entity = EntityDefinition { name: raw.name.clone(), storage_location, fields };
    assert(entity@.fields =~= ingested(raw@).fields);
    Ok(entity)
}

} // verus!
