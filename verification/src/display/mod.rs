pub mod games;
pub mod menu;
