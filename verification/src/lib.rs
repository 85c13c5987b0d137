pub mod allocator;
pub mod consts;
pub mod ips;
pub mod patches;
pub mod rom;
pub mod subroutine;
