//! Panic-free rendering of primitive numbers as text.
//!
//! Values are rendered into fixed-capacity buffers that are filled from the
//! back, then handed to a caller-supplied writer through a [`Formatter`],
//! optionally padded to a minimum field width.  Every function is verified:
//! no index leaves its buffer, no arithmetic overflows, no function asks
//! anything of its arguments, and each contract states the exact text that
//! reaches the writer.
//!
//! Integers are rendered as they are.  A floating-point value is rendered
//! from its bit pattern, which tells its class, and from the two integers
//! that it splits into at the decimal point once it is rounded; the
//! floating-point arithmetic that rounds and splits is left to the caller.

pub mod binary;
pub mod buffer;
pub mod decimal;
pub mod float;
pub mod formatter;
pub mod impls;
pub mod padding;
pub mod traits;
pub mod write;

pub use binary::{classify_binary32, classify_binary64, FloatClass};
pub use float::{clamp_places, render_split, write_as_float_str, FloatParts};
pub use formatter::Formatter;
pub use impls::ixx::render_signed;
pub use impls::uxx::render_unsigned;
pub use padding::Padding;
pub use traits::{uDebug, uDisplay, uDisplayFloat, uDisplayPadded};
pub use write::uWrite;
