//! The capabilities by which the layers of the stack meet.
pub mod iso14443a;
pub mod iso14443a_ll;
pub mod iso_dep;
