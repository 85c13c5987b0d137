pub mod crystal;
pub mod gold;
pub mod items;
