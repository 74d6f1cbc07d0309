pub mod clock;
pub mod string_option;
