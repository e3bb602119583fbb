pub mod glyphs;
pub mod numeric;
pub mod orchestrate;
pub mod outside;
pub mod settings;
pub mod stroke;
pub mod traverse;
