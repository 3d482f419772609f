//! The mood state machine.

pub mod clock;
pub mod names;
pub mod pet_state;
pub mod theorems;

pub use pet_state::{
    FocusLevel, FocusStats, GestureType, MachineState, PetMood, PetStateConfig, PetStateMachine,
};
