pub mod algebra;
pub mod audit;
pub mod codec;
pub mod group;
pub mod keys;
pub mod laws;
pub mod scheme;
pub mod sigma;
pub mod wire;
