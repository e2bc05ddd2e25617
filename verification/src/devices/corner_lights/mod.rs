pub mod can;
pub mod codec;
pub mod policy;
