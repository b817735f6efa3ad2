//! Colors in seven representations and the conversions among them: the
//! records that hold a color, the chain of formulas that leads from one
//! representation to another, and the choices between the pieces of each
//! formula.
//!
//! A component of a color is a single-precision number. The library holds
//! it as its bit pattern and does no arithmetic on it: it compares, it
//! chooses, and it hands the pattern on. The arithmetic of the twelve
//! formulas is the caller's, who passes it to `convert` as a function.
#![allow(non_camel_case_types)]

pub mod binary32;
pub mod color;
pub mod polar;
pub mod transfer;
pub mod types;

pub use color::{convert, Color, Formula, Space};
pub use types::{hsl, hsv, okhsl, okhsv, oklab, rgb, srgb, AnyColor};
