pub mod cpu;
pub mod history;
pub mod memory;
pub mod weather;

pub use cpu::{average_usage, cpu_usage_history};
pub use history::{push_sample, HISTORY_CAPACITY};
pub use memory::{memory_usage_history, MemoryUsage};
pub use weather::{
    day_night_label, degrees_to_direction, weather_or_default, Current, CurrentUnits, Weather,
};
