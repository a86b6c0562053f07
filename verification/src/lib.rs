//! The state and the data-upload protocol of an acoustic field viewer.
//!
//! A set of ultrasonic transducers is shown twice: each transducer as a disc
//! coloured by its phase, and the field they drive as a movable slice plane.
//! This crate holds everything about the two views that is a matter of
//! arithmetic and bookkeeping: the fixed-point geometry, the byte encoding of
//! positions and phases for texture transport, the slice's model transform,
//! the dirty flags and the per-event decisions of the window loop. It opens no
//! window and talks to no device: every step that has to be performed outside
//! is handed back as a plain value that says what to do.

pub mod coloring_method;
pub mod scalar;
pub mod sound_source;
pub mod vec_utils;
pub mod view;
