//! A terminal heart animation: message sanitising, the heart's geometry,
//! the text of each frame row and the animation's state machine.

pub mod animation;
pub mod frame;
pub mod geometry;
pub mod message;
pub mod options;

pub use options::{heart_sizes, lemma_color_names, parse_color, same_text, Options, HEART_SIZE_L, HEART_SIZE_S};
pub use geometry::{heart_contains, is_in_love, lemma_le_mul_sqrt_of_square, MAX_HEART_SIZE};
pub use frame::{draw_love_row_with_message, Row, INDENT_MARGIN};
pub use message::{is_allowed, lemma_sanitize_idempotent, lemma_sanitized_shape, sanitize_input, validate_message, MAX_MESSAGE_LENGTH};
pub use animation::{Animation, Phase};
