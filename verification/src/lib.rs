//! Conversion of raster images into text-mode artwork: a grid of character
//! cells, each holding a CP437 codepoint together with a foreground and an
//! optional background colour, chosen so that the rendered grid approximates
//! the source image.

pub mod ans;
pub mod blocks;
pub mod cga;
pub mod font;
pub mod fontdata;
pub mod quant;
pub mod raster;
