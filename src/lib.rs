//! A universal value container: one type that can own a value of any
//! `'static` type, together with typed codecs that put values in and take
//! them back out only when the requested type is the one that went in.

mod payload;
pub mod univ;

pub use univ::Embedder;
pub use univ::Extractor;
pub use univ::UnivT;
