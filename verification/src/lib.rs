pub mod pixel;
pub mod canvas;
pub mod line;
pub mod texture;
pub mod mesh;
pub mod decorator;
pub mod keys;
pub mod events;
pub mod control;
pub mod export;
pub mod microbench;
pub mod raster;
pub mod gui_input;
pub mod objfile;
pub mod mtlfile;
