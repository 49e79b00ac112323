//! The definition of commands from the chat: what a definition asks for, and
//! whether it is allowed.
use crate::grammar::{definition, law_definition_is_read_back, split_definition, starts_with_mark};
use crate::text::{all_space, ascii_lowered, is_space, lowered, same, to_lowercase, Text};
use vstd::prelude::*;

verus! {

/// What a definition asks for.
#[derive(Debug, PartialEq, Eq)]
pub struct Definition<S> {
    pub prefix: S,
    /// The name of the command, in lower case.
    pub key: S,
    pub response: S,
    /// Whether the name was not in lower case.
    pub lowered: bool,
}

impl View for Definition<String> {
    type V = Definition<Text>;

    open spec fn view(&self) -> Definition<Text> {
        Definition {
            prefix: self.prefix@,
            key: self.key@,
            response: self.response@,
            lowered: self.lowered,
        }
    }
}

/// What the text of a definition asks for. Without a prefix it is `!`.
pub open spec fn requested(args: Text) -> Option<Definition<Text>> {
    match definition(args) {
        Some(d) => Some(
            Definition {
                prefix: if d.0.len() == 0 {
                    "!"@
                } else {
                    d.0
                },
                key: lowered(d.1),
                response: d.2,
                lowered: lowered(d.1) != d.1,
            },
        ),
        None => None,
    }
}

/// Reads a definition.
pub fn read_definition(args: &str) -> (r: Option<Definition<String>>)
    ensures
        match r {
            Some(d) => requested(args@) == Some(d@),
            None => requested(args@) is None,
        },
        definition(args@) matches Some(d) ==> vstd::utf8::is_ascii_chars(d.1) ==> (r matches Some(
            read,
        ) && read@.key == ascii_lowered(d.1)),
{
    match split_definition(args) {
        Some((mark, name, response)) => {
            let key = to_lowercase(name.as_str());
            let lowered = !same(key.as_str(), name.as_str());
            let prefix = if mark.as_str().is_empty() {
                "!".to_owned()
            } else {
                mark
            };
            Some(Definition { prefix, key, response, lowered })
        },
        None => None,
    }
}

/// What is known of the name that a definition is for.
#[derive(Clone, Copy, Debug, PartialEq, Eq, Structural)]
pub struct Inspection {
    /// Whether looking the name up finds a command, and if so, whether that can
    /// be edited.
    pub editable: Option<bool>,
    /// Whether there is a command of just that name.
    pub present: bool,
    /// Whether that command is built in.
    pub generic: bool,
}

/// What becomes of a definition.
#[derive(Clone, Copy, Debug, PartialEq, Eq, Structural)]
pub enum Ruling {
    /// The command is not to be edited.
    NotEditable,
    /// There is one already, and this is no edit.
    Exists,
    /// A built-in command cannot be edited.
    IsGeneric,
    /// The command gets a new response and prefix.
    Update,
    /// A new command comes to be.
    Insert,
}

/// What becomes of a definition, which is an edit or not.
pub open spec fn ruling(edit: bool, known: Inspection) -> Ruling {
    if known.editable == Some(false) {
        Ruling::NotEditable
    } else if known.present && !edit {
        Ruling::Exists
    } else if known.present && known.generic {
        Ruling::IsGeneric
    } else if known.present {
        Ruling::Update
    } else {
        Ruling::Insert
    }
}

/// Rules on a definition.
pub fn rule(edit: bool, known: Inspection) -> (r: Ruling)
    ensures
        r == ruling(edit, known),
{
    let frozen = match known.editable {
        Some(editable) => !editable,
        None => false,
    };
    if frozen {
        Ruling::NotEditable
    } else if known.present && !edit {
        Ruling::Exists
    } else if known.present && known.generic {
        Ruling::IsGeneric
    } else if known.present {
        Ruling::Update
    } else {
        Ruling::Insert
    }
}

/// A command that is there is changed by an edit alone, never if it is built
/// in, and never if it is not editable; a command that is not there is never
/// changed but made.
pub proof fn law_definitions_respect_what_is_there(edit: bool, known: Inspection)
    ensures
        ruling(edit, known) == Ruling::Update ==> edit && known.present && !known.generic
            && known.editable != Some(false),
        ruling(edit, known) == Ruling::Insert ==> !known.present && known.editable != Some(false),
{
}

/// A definition is taken as it is written: the response stays as it is, character
/// by character, and so does the mark, which is the prefix; without a mark the
/// prefix is `!`. The name alone is put in lower case.
pub proof fn law_definitions_are_taken_as_written(
    mark: Text,
    name: Text,
    space: Text,
    response: Text,
)
    requires
        mark.len() == 0 || mark.len() == 1 && starts_with_mark(mark),
        mark.len() == 0 ==> !starts_with_mark(name),
        forall|i: int| 0 <= i < name.len() ==> !is_space(#[trigger] name[i]),
        space.len() > 0,
        all_space(space),
        response.len() > 0,
        !is_space(response[0]),
        !response.contains('\n'),
    ensures
        requested(mark + name + space + response) matches Some(d) && {
            &&& d.response == response
            &&& mark.len() == 1 ==> d.prefix == mark
            &&& mark.len() == 0 ==> d.prefix == "!"@
            &&& d.key == lowered(name)
            &&& d.lowered <==> lowered(name) != name
        },
{
    law_definition_is_read_back(mark, name, space, response);
}

/// Whatever is read from a definition is what its text says, and a text that is
/// no definition asks for nothing.
pub proof fn law_requests_follow_the_text(args: Text)
    ensures
        match (definition(args), requested(args)) {
            (Some((mark, name, response)), Some(d)) => {
                &&& d.response == response
                &&& mark.len() > 0 ==> d.prefix == mark
                &&& mark.len() == 0 ==> d.prefix == "!"@
                &&& d.key == lowered(name)
                &&& d.lowered <==> lowered(name) != name
            },
            (None, None) => true,
            _ => false,
        },
{
}

/// What becomes of a definition, in full: a command that is found but cannot be
/// edited stays; one of the name that is there is changed by an edit alone, and
/// not if it is built in; one that is not there is made, by an edit too.
pub proof fn law_rulings(edit: bool, known: Inspection)
    ensures
        ruling(edit, known) == Ruling::NotEditable <==> known.editable == Some(false),
        known.editable != Some(false) ==> {
            &&& !known.present <==> ruling(edit, known) == Ruling::Insert
            &&& known.present && !edit <==> ruling(edit, known) == Ruling::Exists
            &&& known.present && edit && known.generic <==> ruling(edit, known)
                == Ruling::IsGeneric
            &&& known.present && edit && !known.generic <==> ruling(edit, known) == Ruling::Update
        },
{
}

/// What a contract sees of a definition is the definition.
pub proof fn law_definitions_are_seen_as_they_are(definition: Definition<String>)
    ensures
        definition@.prefix == definition.prefix@,
        definition@.key == definition.key@,
        definition@.response == definition.response@,
        definition@.lowered == definition.lowered,
{
}

} // verus!
