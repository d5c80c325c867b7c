//! Verified decision core of a motion-gated frame forwarder.
//!
//! Raw camera frames come in one of several pixel encodings. Each frame is
//! normalised to a single-channel intensity image, scaled to a fixed working
//! width, run through an adaptive background model and forwarded, as it came
//! in, only when enough of the resulting foreground mask is lit.
//!
//! The crate holds what is decided and computed on bytes: the normaliser
//! ([`normalize`]), the size an image is scaled to ([`downsample`]), the
//! motion decision on a mask ([`detect`]), the start-up settings
//! ([`config`]) and the state machine that strings them together
//! ([`pipeline`]). Resampling and the background model itself are the
//! host's work: the state machine asks for them and checks what comes back.

pub mod frame;
pub mod normalize;
pub mod downsample;
pub mod detect;
pub mod config;
pub mod pipeline;
