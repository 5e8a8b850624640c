pub mod colors;
pub mod entities;
pub mod entity;
pub mod marlin;
