//! Gestures and moods by name.
//!
//! Names are matched without regard to case.

use vstd::prelude::*;
use vstd::string::StringExecFns;
use crate::state::pet_state::{GestureType, PetMood};

verus! {

/// The lowercase form of a text, as the standard library gives it.
pub uninterp spec fn lowercased(text: Seq<char>) -> Seq<char>;

/// `str::to_lowercase` of the standard library: the text with every
/// character replaced by its lowercase form, which depends on the text alone.
#[verifier::external_body]
pub(crate) fn to_lowercase(text: &str) -> (lower: String)
    ensures
        lower@ == lowercased(text@),
{
    text.to_lowercase()
}

/// The gesture that a lowercase name stands for.
pub open spec fn gesture_named(lower: Seq<char>) -> Option<GestureType> {
    if lower == "wave"@ {
        Some(GestureType::Wave)
    } else if lower == "heart"@ {
        Some(GestureType::Heart)
    } else if lower == "ok"@ {
        Some(GestureType::Okay)
    } else if lower == "thumbsup"@ || lower == "thumbs_up"@ {
        Some(GestureType::ThumbsUp)
    } else {
        None
    }
}

/// The mood that a lowercase name stands for.
pub open spec fn mood_named(lower: Seq<char>) -> Option<PetMood> {
    if lower == "idle"@ {
        Some(PetMood::Idle)
    } else if lower == "happy"@ {
        Some(PetMood::Happy)
    } else if lower == "excited"@ {
        Some(PetMood::Excited)
    } else if lower == "sad"@ {
        Some(PetMood::Sad)
    } else if lower == "sleepy"@ {
        Some(PetMood::Sleepy)
    } else if lower == "interact"@ {
        Some(PetMood::Interact)
    } else {
        None
    }
}

/// Whether `text` reads `word`.
fn reads(text: &String, word: &str) -> (same: bool)
    ensures
        same == (text@ == word@),
{
    *text == String::from_str(word)
}

impl GestureType {
    /// The gesture with the given name in lowercase, if there is one.
    pub fn from_lowercase(lower: &String) -> (gesture: Option<GestureType>)
        ensures
            gesture == gesture_named(lower@),
    {
        if reads(lower, "wave") {
            Some(GestureType::Wave)
        } else if reads(lower, "heart") {
            Some(GestureType::Heart)
        } else if reads(lower, "ok") {
            Some(GestureType::Okay)
        } else if reads(lower, "thumbsup") || reads(lower, "thumbs_up") {
            Some(GestureType::ThumbsUp)
        } else {
            None
        }
    }

    /// The gesture with the given name, in any case, if there is one.
    pub fn from_name(name: &str) -> (gesture: Option<GestureType>)
        ensures
            gesture == gesture_named(lowercased(name@)),
    {
        let lower = to_lowercase(name);
        Self::from_lowercase(&lower)
    }
}

impl PetMood {
    /// The mood with the given name in lowercase, if there is one.
    pub fn from_lowercase(lower: &String) -> (mood: Option<PetMood>)
        ensures
            mood == mood_named(lower@),
    {
        if reads(lower, "idle") {
            Some(PetMood::Idle)
        } else if reads(lower, "happy") {
            Some(PetMood::Happy)
        } else if reads(lower, "excited") {
            Some(PetMood::Excited)
        } else if reads(lower, "sad") {
            Some(PetMood::Sad)
        } else if reads(lower, "sleepy") {
            Some(PetMood::Sleepy)
        } else if reads(lower, "interact") {
            Some(PetMood::Interact)
        } else {
            None
        }
    }

    /// The mood with the given name, in any case, if there is one.
    pub fn from_name(name: &str) -> (mood: Option<PetMood>)
        ensures
            mood == mood_named(lowercased(name@)),
    {
        let lower = to_lowercase(name);
        Self::from_lowercase(&lower)
    }
}

} // verus!
