//! Verified core of a software DirectDraw v1 wrapper: rectangle arithmetic,
//! DIB layout, pixel blitting, palette/clipper/surface object state, window
//! and mouse-coordinate mapping, and the hook-routing decisions.
pub mod abi;
pub mod blit;
pub mod dib;
pub mod surface;
pub mod palette;
pub mod clipper;
pub mod state;
pub mod window;
pub mod ddraw;
pub mod hook;
