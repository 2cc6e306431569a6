//! Bridges a C-style streaming callback, which carries only a function pointer and
//! one untyped state slot, to a Rust handler bound to a caller-supplied source.

pub mod error;
pub mod stream;

pub use error::{
    error_code_of, iERR, ion_error_code_IERR_INVALID_STATE, ion_error_code_IERR_OK, IonCError,
    IonCResult,
};
pub use stream::{ionc_stream_handler, IonCStreamHolder};
