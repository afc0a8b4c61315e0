pub mod formatter;
pub mod matcher;
pub mod options;
pub mod pattern;
pub mod pipeline;
