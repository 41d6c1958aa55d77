//! Capability flags of a field, and what a set of them decides.
//!
//! Six flags exist. A field carries a set of them; from that set alone follow
//! the five decisions on which derived shapes hold the field, and the decision
//! whether the field becomes optional where an entity is created.

use vstd::prelude::*;

use crate::text::same_text;

verus! {

/// A capability flag of a field.
#[derive(Clone, Copy, Debug, PartialEq, Eq, Structural)]
pub enum Flag {
    /// The field cannot be changed once the entity exists.
    NotUpdatable,
    /// The field is never shown to the user.
    NotViewable,
    /// The store supplies a value where none is given at creation.
    HasDefault,
    /// The user cannot set the field; the server does.
    NotSettable,
    /// The field is the identifier that the store generates.
    Id,
    /// The user sees and gives the field as a string.
    RepresentableAsString,
}

/// The flag that a token names, if it names one.
pub open spec fn flag_of_token(token: Seq<char>) -> Option<Flag> {
    if token == "NotUpdatable"@ {
        Some(Flag::NotUpdatable)
    } else if token == "NotViewable"@ {
        Some(Flag::NotViewable)
    } else if token == "HasDefault"@ {
        Some(Flag::HasDefault)
    } else if token == "NotSettable"@ {
        Some(Flag::NotSettable)
    } else if token == "Id"@ {
        Some(Flag::Id)
    } else if token == "RepresentableAsString"@ {
        Some(Flag::RepresentableAsString)
    } else {
        None
    }
}

impl Flag {
    /// The token that names this flag.
    pub open spec fn token_spec(self) -> Seq<char> {
        match self {
            Flag::NotUpdatable => "NotUpdatable"@,
            Flag::NotViewable => "NotViewable"@,
            Flag::HasDefault => "HasDefault"@,
            Flag::NotSettable => "NotSettable"@,
            Flag::Id => "Id"@,
            Flag::RepresentableAsString => "RepresentableAsString"@,
        }
    }

    /// The token that names this flag.
    pub fn token(self) -> (token: &'static str)
        ensures
            token@ == self.token_spec(),
    {
        match self {
            Flag::NotUpdatable => "NotUpdatable",
            Flag::NotViewable => "NotViewable",
            Flag::HasDefault => "HasDefault",
            Flag::NotSettable => "NotSettable",
            Flag::Id => "Id",
            Flag::RepresentableAsString => "RepresentableAsString",
        }
    }

    /// Reads a flag from its token. Tokens are case-sensitive; any token
    /// other than the six names gives `None`.
    pub fn from_token(token: &str) -> (flag: Option<Flag>)
        ensures
            flag == flag_of_token(token@),
    {
        if same_text(token, "NotUpdatable") {
            Some(Flag::NotUpdatable)
        } else if same_text(token, "NotViewable") {
            Some(Flag::NotViewable)
        } else if same_text(token, "HasDefault") {
            Some(Flag::HasDefault)
        } else if same_text(token, "NotSettable") {
            Some(Flag::NotSettable)
        } else if same_text(token, "Id") {
            Some(Flag::Id)
        } else if same_text(token, "RepresentableAsString") {
            Some(Flag::RepresentableAsString)
        } else {
            None
        }
    }
}

/// A set of flags, one switch for each flag. Inserting a flag that is already
/// there changes nothing, and the order of insertion does not matter.
#[derive(Clone, Copy, Debug, PartialEq, Eq, Structural)]
pub struct FlagSet {
    pub not_updatable: bool,
    pub not_viewable: bool,
    pub has_default: bool,
    pub not_settable: bool,
    pub id: bool,
    pub representable_as_string: bool,
}

impl FlagSet {
    /// Whether `flag` is in the set.
    pub open spec fn has(self, flag: Flag) -> bool {
        match flag {
            Flag::NotUpdatable => self.not_updatable,
            Flag::NotViewable => self.not_viewable,
            Flag::HasDefault => self.has_default,
            Flag::NotSettable => self.not_settable,
            Flag::Id => self.id,
            Flag::RepresentableAsString => self.representable_as_string,
        }
    }

    /// The set without any flag.
    pub fn empty() -> (flags: FlagSet)
        ensures
            flags@ == Set::<Flag>::empty(),
    {
        FlagSet {
            not_updatable: false,
            not_viewable: false,
            has_default: false,
            not_settable: false,
            id: false,
            representable_as_string: false,
        }
    }

    /// The set with `flag` added.
    pub fn insert(self, flag: Flag) -> (flags: FlagSet)
        ensures
            flags@ == self@.insert(flag),
    {
        let mut flags = self;
        match flag {
            Flag::NotUpdatable => {
                flags.not_updatable = true;
            },
            Flag::NotViewable => {
                flags.not_viewable = true;
            },
            Flag::HasDefault => {
                flags.has_default = true;
            },
            Flag::NotSettable => {
                flags.not_settable = true;
            },
            Flag::Id => {
                flags.id = true;
            },
            Flag::RepresentableAsString => {
                flags.representable_as_string = true;
            },
        }
        flags
    }

    /// Whether `flag` is in the set.
    pub fn contains(&self, flag: Flag) -> (found: bool)
        ensures
            found == self@.contains(flag),
    {
        match flag {
            Flag::NotUpdatable => self.not_updatable,
            Flag::NotViewable => self.not_viewable,
            Flag::HasDefault => self.has_default,
            Flag::NotSettable => self.not_settable,
            Flag::Id => self.id,
            Flag::RepresentableAsString => self.representable_as_string,
        }
    }
}

impl View for FlagSet {
    type V = Set<Flag>;

    open spec fn view(&self) -> Set<Flag> {
        Set::new(|flag: Flag| self.has(flag))
    }
}

/// What a field's flags decide: its membership in each of the five derived
/// shapes, and whether it becomes optional where an entity is created.
#[derive(Clone, Copy, Debug, PartialEq, Eq, Structural)]
pub struct ClassificationResult {
    /// In the shape that is written to the store on creation.
    pub include_in_create: bool,
    /// In the shape that the user sends to create.
    pub include_in_create_request: bool,
    /// In the shape that is written to the store on update.
    pub include_in_update: bool,
    /// In the shape that the user sends to update.
    pub include_in_update_request: bool,
    /// In the shape that is shown to the user.
    pub include_in_response: bool,
    /// Optional in both creation shapes.
    pub wrap_optional_on_create: bool,
}

/// The decision table. Every inclusion holds unless a flag takes it away;
/// optionality on creation is absent unless `HasDefault` grants it.
pub open spec fn classify_spec(flags: Set<Flag>) -> ClassificationResult {
    ClassificationResult {
        include_in_create: !flags.contains(Flag::Id),
        include_in_create_request: !flags.contains(Flag::NotSettable),
        include_in_update: !flags.contains(Flag::NotUpdatable) && !flags.contains(
            Flag::NotSettable,
        ),
        include_in_update_request: !flags.contains(Flag::NotUpdatable) && !flags.contains(
            Flag::NotSettable,
        ),
        include_in_response: !flags.contains(Flag::NotViewable),
        wrap_optional_on_create: flags.contains(Flag::HasDefault),
    }
}

/// Classifies a field by its flags.
pub fn classify(flags: &FlagSet) -> (result: ClassificationResult)
    ensures
        result == classify_spec(flags@),
{
    ClassificationResult {
        include_in_create: !flags.id,
        include_in_create_request: !flags.not_settable,
        include_in_update: !flags.not_updatable && !flags.not_settable,
        include_in_update_request: !flags.not_updatable && !flags.not_settable,
        include_in_response: !flags.not_viewable,
        wrap_optional_on_create: flags.has_default,
    }
}

} // verus!
