//! Chemical elements and molecule graphs, with oxidation-number inference.

pub mod elemento;
pub mod molecula;
