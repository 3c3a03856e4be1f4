//! Worked examples: a few fluent comparisons, evaluated.

pub mod all_of_expansion;
pub mod guarded_operand;
pub mod none_of_with_map_or_satisfies_expansion;
