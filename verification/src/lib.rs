pub mod advertising;
pub mod alert;
pub mod battery;
pub mod calendar;
pub mod clock;
pub mod defaults;
pub mod display;
pub mod latch;
pub mod remote_id;
pub mod scan;
pub mod settings;
pub mod storage;
pub mod timekeeping;
pub mod touch;
pub mod ui;
