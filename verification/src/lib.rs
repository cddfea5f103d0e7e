//! Command-driven raster back-end of a fixed-function graphics coprocessor.
//!
//! The crate decodes a stream of 64-bit command words, keeps the
//! coprocessor's register state (image formats, clip rectangle, eight tile
//! descriptors, fill color, cycle mode), loads texel rows into an on-chip
//! texture cache, and fills rectangles into an externally owned memory
//! buffer handed in by the embedding system.  Work that belongs to the
//! external pixel pipeline or slope rasterizer is handed back to the caller
//! as a fully decoded command value.

mod bits;
mod laws;
mod machine;
mod raster;
mod types;

pub use types::DpColorFormat;
pub use types::CycleMode;
pub use types::FixedRect;
pub use types::ImageFormat;
pub use types::TileDescriptor;
pub use types::PipelineConfig;
pub use types::DpFault;
pub use types::DpEvent;
pub use types::TexRectCmd;
pub use types::PipelineFillCmd;

pub use machine::State;
pub use machine::Step;
pub use machine::step;
pub use machine::opcode_of;
pub use machine::is_known_opcode;
pub use machine::words_required;
pub use machine::spec_color_format;
pub use machine::spec_tile_update;
pub use machine::spec_tex_rect_cmd;
pub use machine::spec_span_texels;
pub use machine::init_state;
pub use machine::init_tile;
pub use machine::Rdp;

pub use raster::color_word_bytes;
pub use raster::copied_rows;
pub use raster::filled_rows;
pub use raster::fill_rect_words;
pub use raster::copy_rect_rows;

pub use laws::lemma_fault_leaves_memory;
pub use laws::lemma_single_word_command_completes;
pub use laws::lemma_texture_rectangle_two_words;
pub use laws::lemma_unknown_opcode_no_effect;
pub use laws::lemma_set_tile_round_trip;
pub use laws::set_tile_word;
