//! The name and type under which the user sees a field.
//!
//! By default the user sees a field as it is declared. A field flagged
//! `RepresentableAsString` is seen as a string instead, optional where the
//! declared type is, and under a name that has lost a trailing `_id`.

use vstd::prelude::*;
use vstd::string::*;

use crate::entity::{FieldModel, FieldSpec};
use crate::flags::Flag;
use crate::type_expr::{is_option_type, TypeExpr, TypeModel};

verus! {

/// The suffix that marks a field as a reference to another entity.
pub open spec fn id_suffix() -> Seq<char> {
    seq!['_', 'i', 'd']
}

/// `name` without one trailing `_id`; `name` itself where it does not end so.
pub open spec fn strip_id_suffix(name: Seq<char>) -> Seq<char> {
    if id_suffix().is_suffix_of(name) {
        name.subrange(0, name.len() - id_suffix().len())
    } else {
        name
    }
}

/// The name of the string type.
pub open spec fn string_type_name() -> Seq<char> {
    "String"@
}

/// The name under which the user sees the field.
pub open spec fn visible_name(field: FieldModel) -> Seq<char> {
    if field.flags.contains(Flag::RepresentableAsString) {
        strip_id_suffix(field.name)
    } else {
        field.name
    }
}

/// The type as which the user sees the field.
pub open spec fn visible_type(field: FieldModel) -> TypeModel {
    if field.flags.contains(Flag::RepresentableAsString) {
        if field.declared_type.is_optional() {
            TypeModel::Optional(string_type_name())
        } else {
            TypeModel::Plain(string_type_name())
        }
    } else {
        field.declared_type
    }
}

/// Removes one trailing `_id` from `name`, if there is one.
pub fn without_id_suffix(name: &str) -> (stripped: String)
    ensures
        stripped@ == strip_id_suffix(name@),
{
    let len = name.unicode_len();
    if len < 3 {
        return name.to_owned();
    }
    let ghost tail = name@.subrange(len - 3, len as int);
    if name.get_char(len - 3) == '_' && name.get_char(len - 2) == 'i' && name.get_char(len - 1)
        == 'd' {
        assert(tail =~= id_suffix());
        name.substring_char(0, len - 3).to_owned()
    } else {
        assert(tail[0] != '_' || tail[1] != 'i' || tail[2] != 'd');
        name.to_owned()
    }
}

impl FieldSpec {
    /// The name under which the user sees the field.
    pub fn visible_name(&self) -> (name: String)
        ensures
            name@ == visible_name(self@),
    {
        if self.flags.contains(Flag::RepresentableAsString) {
            without_id_suffix(self.name.as_str())
        } else {
            self.name.clone()
        }
    }

    /// The type as which the user sees the field.
    pub fn visible_type(&self) -> (ty: TypeExpr)
        ensures
            ty@ == visible_type(self@),
    {
        if self.flags.contains(Flag::RepresentableAsString) {
            if is_option_type(&self.declared_type) {
                TypeExpr::optional("String")
            } else {
                TypeExpr::plain("String")
            }
        } else {
            self.declared_type.clone()
        }
    }
}

} // verus!
