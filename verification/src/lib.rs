pub mod game_state;
pub mod player;
pub mod render;
