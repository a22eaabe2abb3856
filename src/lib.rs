//! Strongly typed colors: device-independent color spaces parameterized over a
//! channel type and a white point tag.
pub mod alpha;
pub mod channels;
pub mod color;
pub mod limited;
pub mod spaces;
pub mod white_point;
