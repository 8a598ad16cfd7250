//! A minimal product registry: callers register named, priced products and
//! query them one by one or as a full listing. Each record is stamped with
//! the identity of its creator, supplied explicitly by the calling layer.

pub mod product;
pub mod registry;
