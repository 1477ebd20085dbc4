//! The dialog that asks how a sky of random stars is to be made.

use crate::gui::dialog::DialogUpdate;
use crate::gui::message::GuiMessage;
use vstd::prelude::*;
use vstd::string::StringExecFns;

verus! {

/// How far from the central body random stars are made.
#[derive(Debug, Clone, Copy, PartialEq, Eq, Structural)]
pub enum GenerationDistance {
    Decent,
    Realistic,
    VeryFar,
}

#[derive(Debug, Clone, Copy, PartialEq, Eq, Structural)]
pub enum RandomizeStarsDialogEvent {
    KeepCentralBodySelected(bool),
    MaxGenerationDistanceChanged(GenerationDistance),
}

#[derive(Debug, Clone, Copy, PartialEq, Eq, Structural)]
pub struct RandomizeStarsDialog {
    pub keep_central_body: bool,
    pub generation_distance: GenerationDistance,
}

/// The greatest distance at which stars are made, in light years.
pub open spec fn max_generation_distance_of(distance: GenerationDistance) -> u32 {
    match distance {
        GenerationDistance::Decent => 1000,
        GenerationDistance::Realistic => 5000,
        GenerationDistance::VeryFar => 25_000,
    }
}

/// The greatest distance at which stars are made, in light years.
pub fn max_generation_distance(distance: GenerationDistance) -> (light_years: u32)
    ensures
        light_years == max_generation_distance_of(distance),
{
    match distance {
        GenerationDistance::Decent => 1000,
        GenerationDistance::Realistic => 5000,
        GenerationDistance::VeryFar => 25_000,
    }
}

impl RandomizeStarsDialog {
    /// The dialog as it opens: the central body is kept, and the stars are
    /// made at a decent distance.
    pub fn new() -> (dialog: Self)
        ensures
            dialog == (RandomizeStarsDialog {
                keep_central_body: true,
                generation_distance: GenerationDistance::Decent,
            }),
    {
        RandomizeStarsDialog {
            keep_central_body: true,
            generation_distance: GenerationDistance::Decent,
        }
    }

    pub fn header(&self) -> (header: String)
        ensures
            header@ == "Generate Random Stars"@,
    {
        String::from_str("Generate Random Stars")
    }

    /// The dialog after `message`. A message for another dialog changes
    /// nothing.
    pub open spec fn updated(self, message: DialogUpdate) -> Self {
        match message {
            DialogUpdate::RandmoizeStarsUpdated(
                RandomizeStarsDialogEvent::KeepCentralBodySelected(keep_central_body),
            ) => RandomizeStarsDialog { keep_central_body, ..self },
            DialogUpdate::RandmoizeStarsUpdated(
                RandomizeStarsDialogEvent::MaxGenerationDistanceChanged(generation_distance),
            ) => RandomizeStarsDialog { generation_distance, ..self },
            _ => self,
        }
    }

    pub fn update(&mut self, message: DialogUpdate)
        ensures
            *final(self) == old(self).updated(message),
    {
        if let DialogUpdate::RandmoizeStarsUpdated(event) = message {
            match event {
                RandomizeStarsDialogEvent::KeepCentralBodySelected(keep_central_body) => {
                    self.keep_central_body = keep_central_body;
                },
                RandomizeStarsDialogEvent::MaxGenerationDistanceChanged(generation_distance) => {
                    self.generation_distance = generation_distance;
                },
            }
        }
    }

    /// What the dialog asks for when it is submitted.
    pub fn on_submit(&self) -> (message: GuiMessage)
        ensures
            message == GuiMessage::RandomizeStars(
                self.keep_central_body,
                max_generation_distance_of(self.generation_distance),
            ),
    {
        let max_distance = max_generation_distance(self.generation_distance);
        GuiMessage::RandomizeStars(self.keep_central_body, max_distance)
    }
}

} // verus!
