pub mod pause;
