//! Host-side core of a GPU ray tracer: the scene model, the encoder that
//! packs it into device-ready byte buffers, the size-dependent resource
//! bookkeeping of the renderer, and the frame-time ring buffer behind the
//! FPS readout.

pub mod encoder;
pub mod fps_counter;
pub mod gui_app;
pub mod layout;
pub mod renderer;
pub mod scene;
pub mod sphere;
