//! Native capabilities and the decisions that bound them.

pub mod sys;
