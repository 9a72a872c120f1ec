//! A verified model of the small resource-ownership layer of a real-time
//! renderer: buffer, vertex-array, shader-program, texture and uniform
//! handles, together with the per-frame command traffic they generate.
//!
//! The model keeps every piece of graphics-server state this layer relies
//! on — binding points, the current program, and the ordered stream of
//! commands issued — so that the layout arithmetic, the program state
//! machine and the bind-then-draw discipline are all checked. An
//! unverified backend mirrors each transition onto the real graphics API.


pub mod application;
pub mod buffer;
pub mod context;
pub mod program;
pub mod shader;
pub mod text;
pub mod texture;
pub mod uniform;
pub mod vertex;

