//! Lays four videos out as a 2x2 grid: reads each input's frame rate and
//! duration from a probing tool's output, plans one rate, one duration and
//! the cell size, writes the filter graph that fits, rows and stacks the
//! cells, and states the encoder run that makes the grid.
pub mod command;
pub mod graph;
pub mod numeral;
pub mod plan;
pub mod probe;
pub mod rate;
pub mod session;
pub mod text;
