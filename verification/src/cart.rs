pub mod builder;
pub mod cart;
pub mod mapper0;
pub mod mapper1;
pub mod mapper2;
pub mod mock;
pub mod nrom;
