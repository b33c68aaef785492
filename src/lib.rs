//! Turns the XML form of one automation script step into the single line that
//! a script editor shows for it.

pub mod error;
pub mod xml;
pub mod attributes;
pub mod boolean;
pub mod calculation;
pub mod target;
pub mod parameter;
pub mod parameter_values;
pub mod step;
pub mod insert_text;
pub mod insert_calculated_result;
pub mod insert_current_time;
pub mod constants;
