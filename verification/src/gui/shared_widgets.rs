//! What the views share: the words of their buttons, fields and lists.

use crate::model::planet::PlanetData;
use vstd::prelude::*;
use vstd::string::StrSliceExecFns;
use vstd::string::StringExecFns;

verus! {

/// The names among which the focused body is picked: no name, for no focus,
/// and then the names of `planets` in their order.
pub open spec fn planet_names_of(planets: Seq<&PlanetData>) -> Seq<Seq<char>> {
    seq![Seq::<char>::empty()] + Seq::new(planets.len(), |i: int| planets[i].name@)
}

pub fn planet_names(planets: &Vec<&PlanetData>) -> (names: Vec<String>)
    ensures
        names@.len() == planets@.len() + 1,
        forall|i: int| 0 <= i < names@.len() ==> names@[i]@ == planet_names_of(planets@)[i],
{
    let mut planet_names: Vec<String> = Vec::new();
    planet_names.push(String::new());
    let mut i: usize = 0;
    while i < planets.len()
        invariant
            i <= planets@.len(),
            planet_names@.len() == i + 1,
            forall|j: int|
                0 <= j < planet_names@.len() ==> planet_names@[j]@ == planet_names_of(planets@)[j],
        decreases planets.len() - i,
    {
        planet_names.push(planets[i].name.clone());
        i += 1;
    }
    planet_names
}

/// The name that the list shows as picked: that of the focused planet, and
/// no name where there is no focus.
pub fn selected_planet_name(selected_planet: Option<&PlanetData>) -> (name: String)
    ensures
        name@ == match selected_planet {
            Some(planet) => planet.name@,
            None => Seq::<char>::empty(),
        },
{
    match selected_planet {
        Some(planet) => planet.name.clone(),
        None => String::new(),
    }
}

/// The words in front of a field: the description with a colon behind it.
pub open spec fn field_label_of(description: Seq<char>) -> Seq<char> {
    if description.len() > 0 && description.last() == ':' {
        description
    } else {
        description.push(':')
    }
}

pub fn field_label(description: &str) -> (label: String)
    ensures
        label@ == field_label_of(description@),
{
    let length = description.unicode_len();
    let mut label = String::from_str(description);
    if length > 0 && description.get_char(length - 1) == ':' {
        label
    } else {
        proof {
            reveal_strlit(":");
        }
        label.append(":");
        assert(label@ =~= description@.push(':'));
        label
    }
}

/// The words behind a field that say what was read out of it.
pub open spec fn parsed_text_of(actual_value: Option<Seq<char>>) -> Seq<char> {
    match actual_value {
        Some(value) => "Parsed value:\n"@ + value,
        None => "Parsed value:\nNone"@,
    }
}

pub fn parsed_text(actual_value: Option<&str>) -> (text: String)
    ensures
        text@ == parsed_text_of(
            match actual_value {
                Some(value) => Some(value@),
                None => None,
            },
        ),
{
    match actual_value {
        Some(value) => {
            let mut text = String::from_str("Parsed value:\n");
            text.append(value);
            text
        },
        None => String::from_str("Parsed value:\nNone"),
    }
}

} // verus!
