pub mod async_timer;
pub mod board;
pub mod clodotex;
pub mod mutex;
pub mod pseudo_mutex;
pub mod time_spec;
pub mod wakers;
