pub mod message;
pub mod axis;
pub mod keys;
pub mod latch;
pub mod encode;
pub mod pool;
pub mod names;
pub mod controller;
