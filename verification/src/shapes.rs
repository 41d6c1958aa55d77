//! The five shapes derived from an entity, and their emission.
//!
//! Each shape keeps, in declaration order, the fields that its row of the
//! decision table admits, each under the name and type that the shape calls
//! for. The two shapes that are written to the store also say where.

use vstd::prelude::*;
use vstd::string::*;

use crate::entity::{
    accepted, ingest, ingested, rejected_with, DeriveError, EntityDefinition, EntityModel,
    FieldModel, FieldSpec, RawEntity,
};
use crate::flags::{classify, classify_spec, Flag};
use crate::transform::{visible_name, visible_type};
use crate::type_expr::{make_option, TypeExpr, TypeModel};

verus! {

/// One of the five derived shapes.
#[derive(Clone, Copy, Debug, PartialEq, Eq, Structural)]
pub enum ShapeKind {
    /// What is written to the store to create an entity.
    New,
    /// What the user sends to create an entity.
    CreateRequest,
    /// What is written to the store to change an entity; every field may be absent.
    Update,
    /// What the user sends to change an entity; every field may be absent.
    UpdateRequest,
    /// What the user is shown.
    Response,
}

/// A field of a derived shape.
#[derive(Debug, PartialEq, Eq)]
pub struct ShapeField {
    pub name: String,
    pub ty: TypeExpr,
}

/// The mathematical value of a [`ShapeField`].
pub struct ShapeFieldModel {
    pub name: Seq<char>,
    pub ty: TypeModel,
}

impl View for ShapeField {
    type V = ShapeFieldModel;

    open spec fn view(&self) -> ShapeFieldModel {
        ShapeFieldModel { name: self.name@, ty: self.ty@ }
    }
}

/// A derived shape: a named, ordered list of fields.
#[derive(Debug, PartialEq, Eq)]
pub struct DerivedShape {
    /// The name of the generated type.
    pub name: String,
    /// Where the shape is stored; `None` for the shapes that face the user.
    pub storage_location: Option<String>,
    /// The fields, in declaration order.
    pub fields: Vec<ShapeField>,
}

/// The mathematical value of a [`DerivedShape`].
pub struct DerivedShapeModel {
    pub name: Seq<char>,
    pub storage_location: Option<Seq<char>>,
    pub fields: Seq<ShapeFieldModel>,
}

/// The values of a list of shape fields.
pub open spec fn field_models(fields: Seq<ShapeField>) -> Seq<ShapeFieldModel> {
    fields.map_values(|field: ShapeField| field@)
}

impl View for DerivedShape {
    type V = DerivedShapeModel;

    open spec fn view(&self) -> DerivedShapeModel {
        DerivedShapeModel {
            name: self.name@,
            storage_location: match self.storage_location {
                Some(location) => Some(location@),
                None => None,
            },
            fields: field_models(self.fields@),
        }
    }
}

/// The five shapes of one entity.
#[derive(Debug, PartialEq, Eq)]
pub struct DerivedShapes {
    pub new_entity: DerivedShape,
    pub create_request: DerivedShape,
    pub update: DerivedShape,
    pub update_request: DerivedShape,
    pub response: DerivedShape,
}

/// The mathematical value of [`DerivedShapes`].
pub struct DerivedShapesModel {
    pub new_entity: DerivedShapeModel,
    pub create_request: DerivedShapeModel,
    pub update: DerivedShapeModel,
    pub update_request: DerivedShapeModel,
    pub response: DerivedShapeModel,
}

impl View for DerivedShapes {
    type V = DerivedShapesModel;

    open spec fn view(&self) -> DerivedShapesModel {
        DerivedShapesModel {
            new_entity: self.new_entity@,
            create_request: self.create_request@,
            update: self.update@,
            update_request: self.update_request@,
            response: self.response@,
        }
    }
}

impl DerivedShapes {
    /// The shape of the given kind.
    pub fn shape(&self, kind: ShapeKind) -> (shape: &DerivedShape)
        ensures
            shape@ == match kind {
                ShapeKind::New => self@.new_entity,
                ShapeKind::CreateRequest => self@.create_request,
                ShapeKind::Update => self@.update,
                ShapeKind::UpdateRequest => self@.update_request,
                ShapeKind::Response => self@.response,
            },
    {
        match kind {
            ShapeKind::New => &self.new_entity,
            ShapeKind::CreateRequest => &self.create_request,
            ShapeKind::Update => &self.update,
            ShapeKind::UpdateRequest => &self.update_request,
            ShapeKind::Response => &self.response,
        }
    }
}

/// Whether a field with these flags is in the shape.
pub open spec fn included(kind: ShapeKind, flags: Set<Flag>) -> bool {
    let decisions = classify_spec(flags);
    match kind {
        ShapeKind::New => decisions.include_in_create,
        ShapeKind::CreateRequest => decisions.include_in_create_request,
        ShapeKind::Update => decisions.include_in_update,
        ShapeKind::UpdateRequest => decisions.include_in_update_request,
        ShapeKind::Response => decisions.include_in_response,
    }
}

/// A type as it stands in a creation shape: optional where the flags grant a
/// default, else unchanged.
pub open spec fn on_create(ty: TypeModel, flags: Set<Flag>) -> TypeModel {
    if classify_spec(flags).wrap_optional_on_create {
        ty.wrap_optional()
    } else {
        ty
    }
}

/// The name and type that the field takes in the shape.
///
/// The shapes that are written to the store keep the declared name and start
/// from the declared type; those that face the user take the visible name and
/// start from the visible type. Creation makes the type optional where a
/// default exists, an update always does, and the response never does.
pub open spec fn shape_field(kind: ShapeKind, field: FieldModel) -> ShapeFieldModel {
    match kind {
        ShapeKind::New => ShapeFieldModel {
            name: field.name,
            ty: on_create(field.declared_type, field.flags),
        },
        ShapeKind::CreateRequest => ShapeFieldModel {
            name: visible_name(field),
            ty: on_create(visible_type(field), field.flags),
        },
        ShapeKind::Update => ShapeFieldModel {
            name: field.name,
            ty: field.declared_type.wrap_optional(),
        },
        ShapeKind::UpdateRequest => ShapeFieldModel {
            name: visible_name(field),
            ty: on_create(visible_type(field), field.flags).wrap_optional(),
        },
        ShapeKind::Response => ShapeFieldModel {
            name: visible_name(field),
            ty: visible_type(field),
        },
    }
}

/// What the field contributes to the shape: itself, suitably named and
/// typed, or nothing.
pub open spec fn shape_entry(kind: ShapeKind, field: FieldModel) -> Option<ShapeFieldModel> {
    if included(kind, field.flags) {
        Some(shape_field(kind, field))
    } else {
        None
    }
}

/// The fields of the shape: what each declared field contributes, in
/// declaration order.
pub open spec fn shape_fields(kind: ShapeKind, fields: Seq<FieldModel>) -> Seq<ShapeFieldModel> {
    fields.filter_map(|field: FieldModel| shape_entry(kind, field))
}

/// Whether the shape is bound to the entity's storage location.
pub open spec fn bound_to_storage(kind: ShapeKind) -> bool {
    kind is New || kind is Update
}

/// The name of the shape's generated type.
pub open spec fn shape_name(kind: ShapeKind, entity: Seq<char>) -> Seq<char> {
    match kind {
        ShapeKind::New => "New"@ + entity,
        ShapeKind::CreateRequest => "Create"@ + entity + "Request"@,
        ShapeKind::Update => "Update"@ + entity,
        ShapeKind::UpdateRequest => "Update"@ + entity + "Request"@,
        ShapeKind::Response => entity + "Response"@,
    }
}

/// The shape of the given kind that the entity gives rise to.
pub open spec fn derived_shape(kind: ShapeKind, entity: EntityModel) -> DerivedShapeModel {
    DerivedShapeModel {
        name: shape_name(kind, entity.name),
        storage_location: if bound_to_storage(kind) {
            Some(entity.storage_location)
        } else {
            None
        },
        fields: shape_fields(kind, entity.fields),
    }
}

/// The five shapes that the entity gives rise to.
pub open spec fn derived_shapes(entity: EntityModel) -> DerivedShapesModel {
    DerivedShapesModel {
        new_entity: derived_shape(ShapeKind::New, entity),
        create_request: derived_shape(ShapeKind::CreateRequest, entity),
        update: derived_shape(ShapeKind::Update, entity),
        update_request: derived_shape(ShapeKind::UpdateRequest, entity),
        response: derived_shape(ShapeKind::Response, entity),
    }
}

impl ShapeKind {
    /// The name of the type generated for this shape of the entity `entity`.
    pub fn generated_name(self, entity: &str) -> (name: String)
        ensures
            name@ == shape_name(self, entity@),
    {
        match self {
            ShapeKind::New => String::from_str("New").concat(entity),
            ShapeKind::CreateRequest => String::from_str("Create").concat(entity).concat(
                "Request",
            ),
            ShapeKind::Update => String::from_str("Update").concat(entity),
            ShapeKind::UpdateRequest => String::from_str("Update").concat(entity).concat(
                "Request",
            ),
            ShapeKind::Response => String::from_str(entity).concat("Response"),
        }
    }

    /// Whether this shape is bound to the entity's storage location.
    pub fn is_bound_to_storage(self) -> (bound: bool)
        ensures
            bound == bound_to_storage(self),
    {
        match self {
            ShapeKind::New => true,
            ShapeKind::Update => true,
            _ => false,
        }
    }
}

impl FieldSpec {
    /// The field as it stands in the shape of the given kind, or `None` where
    /// the shape does not hold it.
    pub fn project(&self, kind: ShapeKind) -> (entry: Option<ShapeField>)
        ensures
            match entry {
                Some(field) => shape_entry(kind, self@) == Some(field@),
                None => shape_entry(kind, self@) is None,
            },
    {
        let decisions = classify(&self.flags);
        match kind {
            ShapeKind::New => {
                if !decisions.include_in_create {
                    return None;
                }
                let ty = if decisions.wrap_optional_on_create {
                    make_option(&self.declared_type)
                } else {
                    self.declared_type.clone()
                };
                Some(ShapeField { name: self.name.clone(), ty })
            },
            ShapeKind::CreateRequest => {
                if !decisions.include_in_create_request {
                    return None;
                }
                let seen = self.visible_type();
                let ty = if decisions.wrap_optional_on_create {
                    make_option(&seen)
                } else {
                    seen
                };
                Some(ShapeField { name: self.visible_name(), ty })
            },
            ShapeKind::Update => {
                if !decisions.include_in_update {
                    return None;
                }
                Some(ShapeField { name: self.name.clone(), ty: make_option(&self.declared_type) })
            },
            ShapeKind::UpdateRequest => {
                if !decisions.include_in_update_request {
                    return None;
                }
                let seen = self.visible_type();
                let created = if decisions.wrap_optional_on_create {
                    make_option(&seen)
                } else {
                    seen
                };
                Some(ShapeField { name: self.visible_name(), ty: make_option(&created) })
            },
            ShapeKind::Response => {
                if !decisions.include_in_response {
                    return None;
                }
                Some(ShapeField { name: self.visible_name(), ty: self.visible_type() })
            },
        }
    }
}

/// Appends to `list` what `field` contributes to the shape of the given kind.
fn collect(list: &mut Vec<ShapeField>, kind: ShapeKind, field: &FieldSpec)
    ensures
        field_models(final(list)@) == field_models(old(list)@) + match shape_entry(kind, field@) {
            Some(entry) => seq![entry],
            None => Seq::empty(),
        },
{
    if let Some(entry) = field.project(kind) {
        list.push(entry);
    }
}

/// Derives the five shapes of an entity.
///
/// Cannot fail: whatever could be wrong with a definition was found at
/// ingestion. The entity is left as it is; every shape is built afresh.
pub fn emit(entity: &EntityDefinition) -> (shapes: DerivedShapes)
    ensures
        shapes@ == derived_shapes(entity@),
{
    let mut new_fields: Vec<ShapeField> = Vec::new();
    let mut create_request_fields: Vec<ShapeField> = Vec::new();
    let mut update_fields: Vec<ShapeField> = Vec::new();
    let mut update_request_fields: Vec<ShapeField> = Vec::new();
    let mut response_fields: Vec<ShapeField> = Vec::new();
    let ghost declared = entity@.fields;
    let mut i: usize = 0;
    while i < entity.fields.len()
        invariant
            i <= entity.fields.len(),
            declared == entity@.fields,
            declared.len() == entity.fields.len(),
            field_models(new_fields@) == shape_fields(ShapeKind::New, declared.take(i as int)),
            field_models(create_request_fields@) == shape_fields(
                ShapeKind::CreateRequest,
                declared.take(i as int),
            ),
            field_models(update_fields@) == shape_fields(ShapeKind::Update, declared.take(i as int)),
            field_models(update_request_fields@) == shape_fields(
                ShapeKind::UpdateRequest,
                declared.take(i as int),
            ),
            field_models(response_fields@) == shape_fields(
                ShapeKind::Response,
                declared.take(i as int),
            ),
        decreases entity.fields.len() - i,
    {
        let field = &entity.fields[i];
        proof {
            lemma_shape_fields_step(ShapeKind::New, declared, i as int);
            lemma_shape_fields_step(ShapeKind::CreateRequest, declared, i as int);
            lemma_shape_fields_step(ShapeKind::Update, declared, i as int);
            lemma_shape_fields_step(ShapeKind::UpdateRequest, declared, i as int);
            lemma_shape_fields_step(ShapeKind::Response, declared, i as int);
        }
        collect(&mut new_fields, ShapeKind::New, field);
        collect(&mut create_request_fields, ShapeKind::CreateRequest, field);
        collect(&mut update_fields, ShapeKind::Update, field);
        collect(&mut update_request_fields, ShapeKind::UpdateRequest, field);
        collect(&mut response_fields, ShapeKind::Response, field);
        i += 1;
    }
    assert(declared.take(i as int) =~= declared);
    DerivedShapes {
        new_entity: DerivedShape {
            name: ShapeKind::New.generated_name(entity.name.as_str()),
            storage_location: Some(entity.storage_location.clone()),
            fields: new_fields,
        },
        create_request: DerivedShape {
            name: ShapeKind::CreateRequest.generated_name(entity.name.as_str()),
            storage_location: None,
            fields: create_request_fields,
        },
        update: DerivedShape {
            name: ShapeKind::Update.generated_name(entity.name.as_str()),
            storage_location: Some(entity.storage_location.clone()),
            fields: update_fields,
        },
        update_request: DerivedShape {
            name: ShapeKind::UpdateRequest.generated_name(entity.name.as_str()),
            storage_location: None,
            fields: update_request_fields,
        },
        response: DerivedShape {
            name: ShapeKind::Response.generated_name(entity.name.as_str()),
            storage_location: None,
            fields: response_fields,
        },
    }
}

/// One more declared field adds to a shape exactly what that field contributes.
pub proof fn lemma_shape_fields_step(kind: ShapeKind, fields: Seq<FieldModel>, i: int)
    requires
        0 <= i < fields.len(),
    ensures
        shape_fields(kind, fields.take(i + 1)) == shape_fields(kind, fields.take(i)) + match shape_entry(
            kind,
            fields[i],
        ) {
            Some(entry) => seq![entry],
            None => Seq::empty(),
        },
{
    fields.lemma_filter_map_take_succ(|field: FieldModel| shape_entry(kind, field), i);
}

/// Derives the five shapes from a raw definition: ingestion, then emission.
///
/// Succeeds exactly when the definition is accepted. A rejected definition
/// yields its first fault and no shape at all.
pub fn entity_macro(raw: &RawEntity) -> (result: Result<DerivedShapes, DeriveError>)
    ensures
        match result {
            Ok(shapes) => accepted(raw@) && shapes@ == derived_shapes(ingested(raw@)),
            Err(error) => !accepted(raw@) && rejected_with(raw@, error@),
        },
{
    match ingest(raw) {
        Ok(entity) => Ok(emit(&entity)),
        Err(error) => Err(error),
    }
}

} // verus!
