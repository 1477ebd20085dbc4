//! The rules of the table: how many rows it shows, how it numbers them and
//! what its buttons ask for.

use crate::gui::dialog::DialogType;
use crate::gui::message::GuiMessage;
use crate::gui::table_view::col_data::TableDataType;
use crate::model::part::BodyType;
use crate::model::part::PartOfCelestialSystem;
use crate::text::decimal;
use crate::text::decimal_text;
use vstd::prelude::*;
use vstd::string::StringExecFns;

verus! {

/// The greatest number of rows that a table shows.
pub const MAX_ROWS: usize = 250;

#[derive(Debug, Clone, Copy, PartialEq, Eq, Structural)]
pub struct TableViewState {
    pub displayed_body_type: TableDataType,
}

/// A button: the words on it and the dialog that it asks for.
#[derive(Debug, Clone, Copy, PartialEq, Eq)]
pub struct DialogButton {
    pub label: &'static str,
    pub dialog: DialogType,
}

/// The buttons that fill a table of `data_type` with bodies. Supernovae are
/// not made: their table has none.
pub open spec fn generation_buttons_of(data_type: TableDataType) -> Seq<DialogButton> {
    match data_type {
        TableDataType::Planet => seq![
            DialogButton { label: "Randomize Planets", dialog: DialogType::RandomizePlanets },
            DialogButton { label: "Load Real Planets", dialog: DialogType::LoadRealPlanets },
        ],
        TableDataType::Star => seq![
            DialogButton { label: "Randomize Stars", dialog: DialogType::RandomizeStars },
            DialogButton { label: "Load Real Stars", dialog: DialogType::LoadGaiaData },
        ],
        TableDataType::Supernova => Seq::empty(),
    }
}

/// The dialog in which a body of a table of `data_type` is made: supernovae
/// are made as stars.
pub open spec fn new_body_dialog_of(data_type: TableDataType) -> DialogType {
    match data_type {
        TableDataType::Planet => DialogType::NewPlanet,
        TableDataType::Star => DialogType::NewStar,
        TableDataType::Supernova => DialogType::NewStar,
    }
}

impl TableViewState {
    /// The table as it opens: it shows the planets.
    pub fn new() -> (state: TableViewState)
        ensures
            state.displayed_body_type == TableDataType::Planet,
    {
        TableViewState { displayed_body_type: TableDataType::Planet }
    }

    pub fn generation_buttons(&self) -> (buttons: Vec<DialogButton>)
        ensures
            buttons@ == generation_buttons_of(self.displayed_body_type),
    {
        let buttons = match self.displayed_body_type {
            TableDataType::Planet => vec![
                DialogButton { label: "Randomize Planets", dialog: DialogType::RandomizePlanets },
                DialogButton { label: "Load Real Planets", dialog: DialogType::LoadRealPlanets },
            ],
            TableDataType::Star => vec![
                DialogButton { label: "Randomize Stars", dialog: DialogType::RandomizeStars },
                DialogButton { label: "Load Real Stars", dialog: DialogType::LoadGaiaData },
            ],
            TableDataType::Supernova => Vec::new(),
        };
        assert(buttons@ =~= generation_buttons_of(self.displayed_body_type));
        buttons
    }

    /// What the button "New" of the table asks for.
    pub fn new_body_message(&self) -> (message: GuiMessage)
        ensures
            message == GuiMessage::OpenDialog(new_body_dialog_of(self.displayed_body_type)),
    {
        match self.displayed_body_type {
            TableDataType::Planet => GuiMessage::OpenDialog(DialogType::NewPlanet),
            TableDataType::Star => GuiMessage::OpenDialog(DialogType::NewStar),
            TableDataType::Supernova => GuiMessage::OpenDialog(DialogType::NewStar),
        }
    }
}

/// The number of rows that a table of `length` bodies shows.
pub open spec fn rows_shown_of(length: nat) -> nat {
    if length <= MAX_ROWS {
        length
    } else {
        MAX_ROWS as nat
    }
}

pub fn rows_shown(length: usize) -> (rows: usize)
    ensures
        rows == rows_shown_of(length as nat),
{
    if length <= MAX_ROWS {
        length
    } else {
        MAX_ROWS
    }
}

/// The line below a table that names the bodies that it does not show.
pub open spec fn more_note_of(length: nat) -> Option<Seq<char>> {
    if length > MAX_ROWS {
        Some("... and "@ + decimal((length - MAX_ROWS) as nat) + " more"@)
    } else {
        None
    }
}

/// The line below a table of `length` bodies that says how many of them it
/// does not show; `None` where it shows them all.
pub fn more_note(length: usize) -> (note: Option<String>)
    ensures
        note.is_some() == (length > MAX_ROWS),
        note matches Some(text) ==> Some(text@) == more_note_of(length as nat),
{
    if length > MAX_ROWS {
        let mut text = String::from_str("... and ");
        let number = decimal_text(length - MAX_ROWS);
        text.append(number.as_str());
        text.append(" more");
        Some(text)
    } else {
        None
    }
}

/// The number in front of a row: rows are counted from one.
pub fn row_number(sorting_index: usize) -> (number: String)
    requires
        sorting_index < usize::MAX,
    ensures
        number@ == decimal((sorting_index + 1) as nat),
{
    decimal_text(sorting_index + 1)
}

/// What the button "Edit" of a row asks for: the dialog on the body of the
/// row. A planet without a place in the system cannot be edited.
pub open spec fn edit_message_of(body_type: BodyType, index: Option<usize>) -> Option<
    GuiMessage,
> {
    match body_type {
        BodyType::Planet => match index {
            Some(index) => Some(GuiMessage::OpenDialog(DialogType::EditPlanet(index))),
            None => None,
        },
        BodyType::Star => Some(GuiMessage::OpenDialog(DialogType::EditStar(index))),
    }
}

pub fn edit_message<T: PartOfCelestialSystem>(data: &T) -> (message: Option<GuiMessage>)
    ensures
        message == edit_message_of(data.part_type(), data.part_index()),
{
    let index = data.get_index();
    match data.get_body_type() {
        BodyType::Planet => match index {
            Some(index) => Some(GuiMessage::OpenDialog(DialogType::EditPlanet(index))),
            None => None,
        },
        BodyType::Star => Some(GuiMessage::OpenDialog(DialogType::EditStar(index))),
    }
}

/// The text of a cell: its content, or "N/A" where it has none.
pub fn cell_text(content: Option<String>) -> (text: String)
    ensures
        text@ == match content {
            Some(content) => content@,
            None => "N/A"@,
        },
{
    match content {
        Some(content) => content,
        None => String::from_str("N/A"),
    }
}

} // verus!
