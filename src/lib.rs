//! A 2D sprite compositor core: exact geometry, instance records, sprite
//! batches with deferred updates, sprite-sheet cell addressing, a text grid
//! and the per-frame draw plan.

pub mod batch;
pub mod cells;
pub mod charmap;
pub mod color;
pub mod compositor;
pub mod error;
pub mod geo;
pub mod inst;
pub mod map;
pub mod ratio;
pub mod sheet;
pub mod slots;
pub mod text;

pub use batch::{Batch, FlushRange, SpriteBatch, SpriteDesc, SpriteUpdate};
pub use cells::SpriteMapDimensions;
pub use color::Color;
pub use compositor::{Compositor, DrawCall, DrawSource, FrameDraw, PixelCanvas, ScreenText, SpriteSheetDesc};
pub use error::{A2DError, ErrorKind};
pub use geo::{Dimensions, Point, Rect};
pub use inst::{Instance, InstanceBuilder};
pub use map::SpriteMap;
pub use ratio::Ratio;
pub use sheet::SpriteSheet;
pub use slots::{SpriteBatchDesc, SpriteBatchId, SpriteSheetId, SLOT_LIMIT};
pub use text::TextGrid;
