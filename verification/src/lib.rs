pub mod camera;
pub mod components;
pub mod entities;
pub mod game_loop;
pub mod globals;
pub mod graphics;
pub mod load;
pub mod loading;
pub mod scenes;
pub mod systems;
