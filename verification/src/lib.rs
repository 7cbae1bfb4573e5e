//! A small snake game: a rectangular board, a snake that moves and grows,
//! food that relocates when eaten, and a running / game-over / quit state
//! machine, with a character-buffer renderer.

pub mod board;
pub mod frame;
pub mod geom;
pub mod laws;
pub mod snake;
pub mod text;

pub use board::Board;
pub use board::CharPalette;
pub use board::Food;
pub use board::Input;
pub use board::RenderError;
pub use board::State;
pub use geom::Direction;
pub use geom::Vec2;
pub use snake::Snake;
