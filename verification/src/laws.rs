//! What holds of every derivation.
//!
//! The laws follow the derivation's course: what is reported of a definition,
//! what flags decide, what the user sees of a field, and how the shapes keep
//! the fields.

use vstd::prelude::*;

use crate::entity::{
    accepted, all_known, field_accepted, field_rejected_with, flags_of_tokens, is_first_rejected,
    is_first_unknown, rejected_with, DeriveErrorModel, FieldModel, RawEntityModel, RawFieldModel,
};
use crate::flags::{classify_spec, flag_of_token, Flag};
use crate::shapes::{
    bound_to_storage, included, shape_entry, shape_field, shape_fields, ShapeKind,
};
use crate::transform::{id_suffix, strip_id_suffix, visible_name, visible_type};
use crate::type_expr::TypeModel;

verus! {

/// Among tokens of which one names no flag, one is the first to do so.
proof fn lemma_first_unknown_exists(tokens: Seq<Seq<char>>) -> (at: int)
    requires
        !all_known(tokens),
    ensures
        is_first_unknown(tokens, at),
    decreases tokens.len(),
{
    let earlier = tokens.drop_last();
    if all_known(earlier) {
        let unknown = choose|j: int|
            0 <= j < tokens.len() && !(flag_of_token(#[trigger] tokens[j]) is Some);
        assert(unknown == tokens.len() - 1) by {
            if unknown < tokens.len() - 1 {
                assert(earlier[unknown] == tokens[unknown]);
            }
        }
        assert forall|j: int| 0 <= j < tokens.len() - 1 implies flag_of_token(
            #[trigger] tokens[j],
        ) is Some by {
            assert(earlier[j] == tokens[j]);
        }
        tokens.len() - 1
    } else {
        let at = lemma_first_unknown_exists(earlier);
        assert forall|j: int| 0 <= j < at implies flag_of_token(#[trigger] tokens[j]) is Some by {
            assert(earlier[j] == tokens[j]);
        }
        at
    }
}

/// Among fields of which one is not accepted, one is the first not to be.
proof fn lemma_first_rejected_exists(fields: Seq<RawFieldModel>) -> (at: int)
    requires
        exists|i: int| 0 <= i < fields.len() && !field_accepted(#[trigger] fields[i]),
    ensures
        is_first_rejected(fields, at),
    decreases fields.len(),
{
    let earlier = fields.drop_last();
    if exists|i: int| 0 <= i < earlier.len() && !field_accepted(#[trigger] earlier[i]) {
        let at = lemma_first_rejected_exists(earlier);
        assert forall|j: int| 0 <= j < at implies field_accepted(#[trigger] fields[j]) by {
            assert(earlier[j] == fields[j]);
        }
        at
    } else {
        let rejected = choose|i: int| 0 <= i < fields.len() && !field_accepted(#[trigger] fields[i]);
        assert(rejected == fields.len() - 1) by {
            if rejected < fields.len() - 1 {
                assert(earlier[rejected] == fields[rejected]);
            }
        }
        assert forall|j: int| 0 <= j < fields.len() - 1 implies field_accepted(
            #[trigger] fields[j],
        ) by {
            assert(earlier[j] == fields[j]);
        }
        fields.len() - 1
    }
}

/// A definition is accepted or has a fault, never both, and it has no two
/// faults: what is reported of a definition is decided by the definition.
pub proof fn lemma_one_verdict(raw: RawEntityModel, error: DeriveErrorModel, other: DeriveErrorModel)
    ensures
        accepted(raw) || exists|fault: DeriveErrorModel| rejected_with(raw, fault),
        accepted(raw) ==> !rejected_with(raw, error),
        rejected_with(raw, error) && rejected_with(raw, other) ==> error == other,
{
    if !accepted(raw) {
        if raw.storage_location is None {
            assert(rejected_with(raw, DeriveErrorModel::MissingStorageLocation));
        } else {
            let at = lemma_first_rejected_exists(raw.fields);
            let field = raw.fields[at];
            match field.name {
                None => {
                    assert(rejected_with(raw, DeriveErrorModel::NonNamedField));
                },
                Some(name) => {
                    let unknown = lemma_first_unknown_exists(field.flag_tokens);
                    let fault = DeriveErrorModel::UnknownFlag {
                        field: name,
                        token: field.flag_tokens[unknown],
                    };
                    assert(rejected_with(raw, fault));
                },
            }
        }
    }
    if rejected_with(raw, error) && rejected_with(raw, other) && raw.storage_location is Some {
        let first = choose|at: int|
            is_first_rejected(raw.fields, at) && field_rejected_with(#[trigger] raw.fields[at], error);
        let second = choose|at: int|
            is_first_rejected(raw.fields, at) && field_rejected_with(#[trigger] raw.fields[at], other);
        assert(first == second);
        let field = raw.fields[first];
        if field.name is Some {
            let name = field.name.unwrap();
            let one = choose|at: int|
                is_first_unknown(field.flag_tokens, at) && error == (DeriveErrorModel::UnknownFlag {
                    field: name,
                    token: #[trigger] field.flag_tokens[at],
                });
            let two = choose|at: int|
                is_first_unknown(field.flag_tokens, at) && other == (DeriveErrorModel::UnknownFlag {
                    field: name,
                    token: #[trigger] field.flag_tokens[at],
                });
            assert(one == two);
        }
    }
}

/// The flags of a field are a set: tokens that differ only in order and
/// repetition name the same flags.
pub proof fn lemma_flags_ignore_order_and_repetition(
    tokens: Seq<Seq<char>>,
    others: Seq<Seq<char>>,
)
    requires
        forall|token: Seq<char>| tokens.contains(token) <==> others.contains(token),
    ensures
        flags_of_tokens(tokens) == flags_of_tokens(others),
        all_known(tokens) == all_known(others),
{
    assert forall|flag: Flag| flags_of_tokens(tokens).contains(flag) implies flags_of_tokens(
        others,
    ).contains(flag) by {
        let j = choose|j: int|
            0 <= j < tokens.len() && flag_of_token(#[trigger] tokens[j]) == Some(flag);
        assert(tokens.contains(tokens[j]));
        let k = choose|k: int| 0 <= k < others.len() && others[k] == tokens[j];
        assert(flag_of_token(others[k]) == Some(flag));
    }
    assert forall|flag: Flag| flags_of_tokens(others).contains(flag) implies flags_of_tokens(
        tokens,
    ).contains(flag) by {
        let j = choose|j: int|
            0 <= j < others.len() && flag_of_token(#[trigger] others[j]) == Some(flag);
        assert(others.contains(others[j]));
        let k = choose|k: int| 0 <= k < tokens.len() && tokens[k] == others[j];
        assert(flag_of_token(tokens[k]) == Some(flag));
    }
    assert(flags_of_tokens(tokens) =~= flags_of_tokens(others));
    if all_known(tokens) {
        assert forall|j: int| 0 <= j < others.len() implies flag_of_token(
            #[trigger] others[j],
        ) is Some by {
            assert(others.contains(others[j]));
            let k = choose|k: int| 0 <= k < tokens.len() && tokens[k] == others[j];
            assert(flag_of_token(tokens[k]) is Some);
        }
    }
    if all_known(others) {
        assert forall|j: int| 0 <= j < tokens.len() implies flag_of_token(
            #[trigger] tokens[j],
        ) is Some by {
            assert(tokens.contains(tokens[j]));
            let k = choose|k: int| 0 <= k < others.len() && others[k] == tokens[j];
            assert(flag_of_token(others[k]) is Some);
        }
    }
}

/// Every flag is read back from the token that names it.
pub proof fn lemma_token_names_its_flag(flag: Flag)
    ensures
        flag_of_token(flag.token_spec()) == Some(flag),
{
    reveal_strlit("NotUpdatable");
    reveal_strlit("NotViewable");
    reveal_strlit("HasDefault");
    reveal_strlit("NotSettable");
    reveal_strlit("Id");
    reveal_strlit("RepresentableAsString");
    assert("NotUpdatable"@.len() == 12);
    assert("NotViewable"@.len() == 11 && "NotViewable"@[3] == 'V');
    assert("HasDefault"@.len() == 10);
    assert("NotSettable"@.len() == 11 && "NotSettable"@[3] == 'S');
    assert("Id"@.len() == 2);
    assert("RepresentableAsString"@.len() == 21);
}

/// Making a type optional twice is making it optional once.
pub proof fn lemma_wrap_optional_idempotent(ty: TypeModel)
    ensures
        ty.wrap_optional().wrap_optional() == ty.wrap_optional(),
        ty.wrap_optional().is_optional(),
        ty.is_optional() ==> ty.wrap_optional() == ty,
{
}

/// A flag can take a field out of a shape and can never put it in: a field
/// that is in a shape with more flags is in it with fewer. The one thing that
/// a flag grants, optionality on creation, no further flag takes away.
pub proof fn lemma_flags_only_exclude(kind: ShapeKind, fewer: Set<Flag>, more: Set<Flag>)
    requires
        fewer.subset_of(more),
    ensures
        included(kind, more) ==> included(kind, fewer),
        classify_spec(fewer).wrap_optional_on_create ==> classify_spec(more).wrap_optional_on_create,
{
}

/// With `NotViewable` among its flags a field is not in the response,
/// whatever else is among them.
pub proof fn lemma_not_viewable_hides(flags: Set<Flag>)
    ensures
        !included(ShapeKind::Response, flags.insert(Flag::NotViewable)),
        flags.contains(Flag::NotViewable) ==> !included(ShapeKind::Response, flags),
{
}

/// With `NotUpdatable` or `NotSettable` among its flags a field is in neither
/// update shape, whatever else is among them.
pub proof fn lemma_not_updatable_or_settable_freezes(flags: Set<Flag>)
    ensures
        !included(ShapeKind::Update, flags.insert(Flag::NotUpdatable)),
        !included(ShapeKind::UpdateRequest, flags.insert(Flag::NotUpdatable)),
        !included(ShapeKind::Update, flags.insert(Flag::NotSettable)),
        !included(ShapeKind::UpdateRequest, flags.insert(Flag::NotSettable)),
        flags.contains(Flag::NotUpdatable) || flags.contains(Flag::NotSettable) ==> !included(
            ShapeKind::Update,
            flags,
        ) && !included(ShapeKind::UpdateRequest, flags),
{
}

/// `picks` names positions below `len`, each greater than the one before.
pub open spec fn increasing_positions(picks: Seq<int>, len: nat) -> bool {
    &&& forall|k: int| 0 <= k < picks.len() ==> 0 <= #[trigger] picks[k] < len
    &&& forall|j: int, k: int| 0 <= j < k < picks.len() ==> picks[j] < picks[k]
}

/// A shape holds its fields in declaration order: nothing is moved, only left
/// out. The positions returned tell, for each field of the shape, which
/// declared field it comes from; they increase, they cover every declared
/// field that the shape admits, and no other.
pub proof fn lemma_order_preserved(kind: ShapeKind, fields: Seq<FieldModel>) -> (picks: Seq<int>)
    ensures
        picks.len() == shape_fields(kind, fields).len(),
        increasing_positions(picks, fields.len()),
        forall|k: int|
            0 <= k < picks.len() ==> included(kind, fields[#[trigger] picks[k]].flags)
                && shape_fields(kind, fields)[k] == shape_field(kind, fields[picks[k]]),
        forall|i: int|
            0 <= i < fields.len() && included(kind, (#[trigger] fields[i]).flags)
                ==> picks.contains(i),
    decreases fields.len(),
{
    if fields.len() == 0 {
        Seq::empty()
    } else {
        let earlier = fields.drop_last();
        let before = lemma_order_preserved(kind, earlier);
        let last = fields.len() - 1;
        if included(kind, fields.last().flags) {
            let picks = before.push(last);
            assert(shape_fields(kind, fields) == shape_fields(kind, earlier) + seq![
                shape_field(kind, fields.last()),
            ]);
            assert forall|i: int|
                0 <= i < fields.len() && included(kind, (#[trigger] fields[i]).flags) implies picks.contains(
                i,
            ) by {
                if i < last {
                    assert(earlier[i] == fields[i]);
                    let k = choose|k: int| 0 <= k < before.len() && before[k] == i;
                    assert(picks[k] == i);
                } else {
                    assert(picks[before.len() as int] == i);
                }
            }
            picks
        } else {
            assert forall|i: int|
                0 <= i < fields.len() && included(kind, (#[trigger] fields[i]).flags) implies before.contains(
                i,
            ) by {
                assert(earlier[i] == fields[i]);
            }
            before
        }
    }
}

/// Every field of an update shape is optional, whatever its declared type and
/// its flags: to leave a field out of an update is to leave it unchanged.
pub proof fn lemma_update_fields_are_optional(kind: ShapeKind, fields: Seq<FieldModel>)
    requires
        kind is Update || kind is UpdateRequest,
    ensures
        forall|k: int|
            0 <= k < shape_fields(kind, fields).len() ==> (#[trigger] shape_fields(
                kind,
                fields,
            )[k]).ty.is_optional(),
{
    let picks = lemma_order_preserved(kind, fields);
    assert forall|k: int| 0 <= k < shape_fields(kind, fields).len() implies (#[trigger] shape_fields(
        kind,
        fields,
    )[k]).ty.is_optional() by {
        assert(shape_fields(kind, fields)[k] == shape_field(kind, fields[picks[k]]));
    }
}

/// No two fields of a shape bear one name.
pub open spec fn names_distinct(kind: ShapeKind, fields: Seq<FieldModel>) -> bool {
    forall|a: int, b: int|
        0 <= a < b < shape_fields(kind, fields).len() ==> (#[trigger] shape_fields(
            kind,
            fields,
        )[a]).name != (#[trigger] shape_fields(kind, fields)[b]).name
}

/// Fields that differ in the name that a shape gives them keep differing in
/// the shape: leaving fields out brings no two names together.
pub proof fn lemma_distinct_names_kept(kind: ShapeKind, fields: Seq<FieldModel>)
    requires
        forall|i: int, j: int|
            0 <= i < j < fields.len() ==> shape_field(kind, #[trigger] fields[i]).name
                != shape_field(kind, #[trigger] fields[j]).name,
    ensures
        names_distinct(kind, fields),
{
    let picks = lemma_order_preserved(kind, fields);
    assert forall|a: int, b: int| 0 <= a < b < shape_fields(kind, fields).len() implies (
    #[trigger] shape_fields(kind, fields)[a]).name != (#[trigger] shape_fields(
        kind,
        fields,
    )[b]).name by {
        assert(picks[a] < picks[b]);
    }
}

/// Where no two declared fields bear one name, no two fields of a shape that
/// is written to the store do.
pub proof fn lemma_declared_names_stay_distinct(kind: ShapeKind, fields: Seq<FieldModel>)
    requires
        bound_to_storage(kind),
        forall|i: int, j: int|
            0 <= i < j < fields.len() ==> (#[trigger] fields[i]).name != (#[trigger] fields[j]).name,
    ensures
        names_distinct(kind, fields),
{
    lemma_distinct_names_kept(kind, fields);
}

/// Where no two declared fields are seen under one name, no two fields of a
/// shape that faces the user bear one name. Declared names that differ do not
/// ensure this: `x` and `x_id` are seen under one name where the latter is
/// seen as a string.
pub proof fn lemma_visible_names_stay_distinct(kind: ShapeKind, fields: Seq<FieldModel>)
    requires
        !bound_to_storage(kind),
        forall|i: int, j: int|
            0 <= i < j < fields.len() ==> visible_name(#[trigger] fields[i]) != visible_name(
                #[trigger] fields[j],
            ),
    ensures
        names_distinct(kind, fields),
{
    lemma_distinct_names_kept(kind, fields);
}

/// A field that is seen as a string loses one trailing `_id` from its name,
/// and keeps a name that does not end so. A field that is not seen as a string
/// keeps its name and its type in any case.
pub proof fn lemma_visible_name(field: FieldModel, stem: Seq<char>)
    ensures
        strip_id_suffix(stem + id_suffix()) == stem,
        field.flags.contains(Flag::RepresentableAsString) && field.name == stem + id_suffix()
            ==> visible_name(field) == stem,
        field.flags.contains(Flag::RepresentableAsString) && !id_suffix().is_suffix_of(field.name)
            ==> visible_name(field) == field.name,
        !field.flags.contains(Flag::RepresentableAsString) ==> visible_name(field) == field.name
            && visible_type(field) == field.declared_type,
{
    let name = stem + id_suffix();
    assert(name.subrange(name.len() - 3, name.len() as int) =~= id_suffix());
    assert(name.subrange(0, name.len() - 3) =~= stem);
}

/// An identifier that the server generates, flagged `Id` and `NotSettable`,
/// is in no shape but the response, and in that one unless it is `NotViewable`.
pub proof fn lemma_generated_id_only_in_response(flags: Set<Flag>)
    requires
        flags.contains(Flag::Id),
        flags.contains(Flag::NotSettable),
    ensures
        !included(ShapeKind::New, flags),
        !included(ShapeKind::CreateRequest, flags),
        !included(ShapeKind::Update, flags),
        !included(ShapeKind::UpdateRequest, flags),
        included(ShapeKind::Response, flags) == !flags.contains(Flag::NotViewable),
{
}

/// A field whose one flag is `HasDefault` is in all five shapes under its own
/// name. It is optional in both creation shapes and, as every field is, in
/// both update shapes; in the response it has its declared type, and so is
/// optional there only where it is declared so.
pub proof fn lemma_has_default_alone(field: FieldModel)
    requires
        field.flags == Set::<Flag>::empty().insert(Flag::HasDefault),
    ensures
        forall|kind: ShapeKind| included(kind, field.flags),
        forall|kind: ShapeKind| (#[trigger] shape_field(kind, field)).name == field.name,
        forall|kind: ShapeKind|
            !(kind is Response) ==> (#[trigger] shape_field(kind, field)).ty
                == field.declared_type.wrap_optional(),
        forall|kind: ShapeKind|
            !(kind is Response) ==> (#[trigger] shape_field(kind, field)).ty.is_optional(),
        shape_field(ShapeKind::Response, field).ty == field.declared_type,
        shape_field(ShapeKind::Response, field).ty.is_optional()
            == field.declared_type.is_optional(),
{
}

/// `HasDefault` bears on creation only: with it or without it a field is the
/// same in both update shapes and in the response.
pub proof fn lemma_default_bears_on_creation_only(field: FieldModel, kind: ShapeKind)
    requires
        kind is Update || kind is UpdateRequest || kind is Response,
    ensures
        shape_entry(kind, FieldModel { flags: field.flags.insert(Flag::HasDefault), ..field })
            == shape_entry(kind, FieldModel { flags: field.flags.remove(Flag::HasDefault), ..field }),
{
}

} // verus!
