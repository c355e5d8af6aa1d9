//! Lifecycle controller for a single on-screen window and its pixel surface.
//!
//! The library is the decision core: given what setup achieved and the stream
//! of platform events, it says — with proved contracts — what state the
//! controller is in and what must be done next. The platform calls themselves
//! (window creation, surface resizing, buffer presentation) belong to the
//! runtime shell around the library.

pub mod controller;
pub mod laws;
