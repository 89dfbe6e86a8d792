pub mod json;
pub mod laws;
pub mod semantics;
pub mod serializer;
