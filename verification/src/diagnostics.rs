//! What is reported of a definition: the fault for which it is rejected, and
//! what is doubtful in one that is accepted.

use vstd::prelude::*;
use vstd::string::*;

use crate::entity::{
    accepted, first_rejected, ingest, is_first_rejected, rejected_with, DeriveError,
    DeriveErrorModel, EntityDefinition, FieldModel, RawEntity, RawEntityModel,
};
use crate::flags::Flag;

verus! {

/// The report of a fault.
#[derive(Debug, PartialEq, Eq)]
pub struct Diagnostic {
    /// The entity at fault.
    pub entity: String,
    /// The position of the field at fault among the declared fields, where the
    /// fault is one of a field.
    pub position: Option<usize>,
    /// The name of the field at fault, where it has one.
    pub field: Option<String>,
    /// A message for the reader.
    pub message: String,
}

/// The mathematical value of a [`Diagnostic`].
pub struct DiagnosticModel {
    pub entity: Seq<char>,
    pub position: Option<usize>,
    pub field: Option<Seq<char>>,
    pub message: Seq<char>,
}

impl View for Diagnostic {
    type V = DiagnosticModel;

    open spec fn view(&self) -> DiagnosticModel {
        DiagnosticModel {
            entity: self.entity@,
            position: self.position,
            field: match self.field {
                Some(field) => Some(field@),
                None => None,
            },
            message: self.message@,
        }
    }
}

/// The message that tells of the fault.
pub open spec fn message_of(error: DeriveErrorModel) -> Seq<char> {
    match error {
        DeriveErrorModel::MissingStorageLocation =>
            "No #[diesel(table_name = ...)] attribute encountered"@,
        DeriveErrorModel::NonNamedField => "Non-struct field encountered"@,
        DeriveErrorModel::UnknownFlag { field, token } => "Unknown meta "@ + token
            + ". Expected a value in (NotUpdatable, NotViewable, NotSettable, Id, RepresentableAsString, HasDefault)"@,
    }
}

/// The field at fault, where the fault names one.
pub open spec fn field_of(error: DeriveErrorModel) -> Option<Seq<char>> {
    match error {
        DeriveErrorModel::UnknownFlag { field, token } => Some(field),
        _ => None,
    }
}

impl DeriveError {
    /// The message that tells of the fault.
    pub fn message(&self) -> (text: String)
        ensures
            text@ == message_of(self@),
    {
        match self {
            DeriveError::MissingStorageLocation => String::from_str(
                "No #[diesel(table_name = ...)] attribute encountered",
            ),
            DeriveError::NonNamedField => String::from_str("Non-struct field encountered"),
            DeriveError::UnknownFlag { field, token } => String::from_str("Unknown meta ").concat(
                token.as_str(),
            ).concat(
                ". Expected a value in (NotUpdatable, NotViewable, NotSettable, Id, RepresentableAsString, HasDefault)",
            ),
        }
    }

    /// The name of the field at fault, where the fault names one.
    pub fn field(&self) -> (name: Option<String>)
        ensures
            match name {
                Some(name) => field_of(self@) == Some(name@),
                None => field_of(self@) is None,
            },
    {
        match self {
            DeriveError::UnknownFlag { field, token } => Some(field.clone()),
            _ => None,
        }
    }
}

/// `report` tells of the fault `error` of `raw`: it names the entity, places
/// the fault at the first field that is not accepted, or nowhere where the
/// storage location is missing, and carries the fault's field and message.
pub open spec fn reports(raw: RawEntityModel, error: DeriveErrorModel, report: DiagnosticModel) -> bool {
    &&& rejected_with(raw, error)
    &&& report.entity == raw.name
    &&& report.field == field_of(error)
    &&& report.message == message_of(error)
    &&& match report.position {
        None => raw.storage_location is None,
        Some(at) => raw.storage_location is Some && is_first_rejected(raw.fields, at as int),
    }
}

/// Reports the fault for which a definition is rejected; `None` for a
/// definition that is accepted.
pub fn diagnose(raw: &RawEntity) -> (report: Option<Diagnostic>)
    ensures
        match report {
            None => accepted(raw@),
            Some(report) => !accepted(raw@) && exists|error: DeriveErrorModel|
                reports(raw@, error, report@),
        },
{
    match ingest(raw) {
        Ok(_) => None,
        Err(error) => {
            let position = if raw.storage_location.is_none() {
                None
            } else {
                first_rejected(raw)
            };
            let report = Diagnostic {
                entity: raw.name.clone(),
                position,
                field: error.field(),
                message: error.message(),
            };
            assert(reports(raw@, error@, report@));
            Some(report)
        },
    }
}

/// An identifier that the user could set: flagged `Id` without `NotSettable`,
/// it stays in the request to create the entity.
pub open spec fn settable_identifier(flags: Set<Flag>) -> bool {
    flags.contains(Flag::Id) && !flags.contains(Flag::NotSettable)
}

/// The name of the field if it is an identifier that the user could set.
pub open spec fn settable_identifier_name(field: FieldModel) -> Option<Seq<char>> {
    if settable_identifier(field.flags) {
        Some(field.name)
    } else {
        None
    }
}

/// The names of the identifiers that the user could set, in declaration order.
pub open spec fn settable_identifiers(fields: Seq<FieldModel>) -> Seq<Seq<char>> {
    fields.filter_map(|field: FieldModel| settable_identifier_name(field))
}

impl EntityDefinition {
    /// Names the fields flagged `Id` without `NotSettable`, in declaration
    /// order. Such a field is derived as its flags say, and is worth a warning:
    /// nothing makes `Id` imply `NotSettable`.
    pub fn settable_identifiers(&self) -> (names: Vec<String>)
        ensures
            names.deep_view() == settable_identifiers(self@.fields),
    {
        let ghost declared = self@.fields;
        let mut names: Vec<String> = Vec::new();
        let mut i: usize = 0;
        while i < self.fields.len()
            invariant
                i <= self.fields.len(),
                declared == self@.fields,
                declared.len() == self.fields.len(),
                names.deep_view() == settable_identifiers(declared.take(i as int)),
            decreases self.fields.len() - i,
        {
            let field = &self.fields[i];
            proof {
                declared.lemma_filter_map_take_succ(
                    |field: FieldModel| settable_identifier_name(field),
                    i as int,
                );
            }
            if field.flags.contains(Flag::Id) && !field.flags.contains(Flag::NotSettable) {
                names.push(field.name.clone());
            }
            i += 1;
        }
        assert(declared.take(i as int) =~= declared);
        names
    }
}

} // verus!
