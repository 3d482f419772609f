use focus_mochi::state::{GestureType, PetMood};

#[test]
fn gestures_are_found_by_name() {
    assert_eq!(GestureType::from_name("wave"), Some(GestureType::Wave));
    assert_eq!(GestureType::from_name("heart"), Some(GestureType::Heart));
    assert_eq!(GestureType::from_name("ok"), Some(GestureType::Okay));
    assert_eq!(GestureType::from_name("thumbsup"), Some(GestureType::ThumbsUp));
    assert_eq!(GestureType::from_name("thumbs_up"), Some(GestureType::ThumbsUp));
}

#[test]
fn gesture_names_are_matched_without_regard_to_case() {
    assert_eq!(GestureType::from_name("WAVE"), Some(GestureType::Wave));
    assert_eq!(GestureType::from_name("Heart"), Some(GestureType::Heart));
    assert_eq!(GestureType::from_name("Ok"), Some(GestureType::Okay));
    assert_eq!(GestureType::from_name("ThumbsUp"), Some(GestureType::ThumbsUp));
    assert_eq!(GestureType::from_name("THUMBS_UP"), Some(GestureType::ThumbsUp));
}

#[test]
fn unknown_gesture_names_are_refused() {
    for name in ["", "waves", " wave", "wave ", "thumbs-up", "thumbs up", "okay", "clap"] {
        assert_eq!(GestureType::from_name(name), None, "for {:?}", name);
    }
}

#[test]
fn a_lowercase_name_is_taken_as_it_is() {
    assert_eq!(GestureType::from_lowercase(&"wave".to_string()), Some(GestureType::Wave));
    assert_eq!(GestureType::from_lowercase(&"Wave".to_string()), None);
    assert_eq!(PetMood::from_lowercase(&"sleepy".to_string()), Some(PetMood::Sleepy));
    assert_eq!(PetMood::from_lowercase(&"SLEEPY".to_string()), None);
}

#[test]
fn moods_are_found_by_name() {
    assert_eq!(PetMood::from_name("idle"), Some(PetMood::Idle));
    assert_eq!(PetMood::from_name("happy"), Some(PetMood::Happy));
    assert_eq!(PetMood::from_name("excited"), Some(PetMood::Excited));
    assert_eq!(PetMood::from_name("sad"), Some(PetMood::Sad));
    assert_eq!(PetMood::from_name("sleepy"), Some(PetMood::Sleepy));
    assert_eq!(PetMood::from_name("interact"), Some(PetMood::Interact));
    assert_eq!(PetMood::from_name("Excited"), Some(PetMood::Excited));
    assert_eq!(PetMood::from_name("SAD"), Some(PetMood::Sad));
}

#[test]
fn unknown_mood_names_are_refused() {
    for name in ["", "angry", "idle ", "inter act"] {
        assert_eq!(PetMood::from_name(name), None, "for {:?}", name);
    }
}
