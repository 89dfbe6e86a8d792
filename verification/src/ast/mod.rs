pub mod builder;
pub mod empty;
pub mod extension;
pub mod opaque;
pub mod pattern;
pub mod relational;
pub mod scalar;
pub mod source;
