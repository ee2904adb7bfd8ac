//! The data a composition job is made of.
use vstd::prelude::*;

verus! {

/// The screen corner in which the inset is placed, with a margin of 16 pixels.
#[derive(Debug, Clone, Copy, PartialEq, Eq, Structural)]
pub enum OverlayPosition {
    TopLeft,
    TopRight,
    BottomLeft,
    BottomRight,
}

/// Which of the two inputs is drawn as the small inset.
#[derive(Debug, Clone, Copy, PartialEq, Eq, Structural)]
pub enum ForegroundKind {
    /// The slide deck is the inset, the recording the background.
    Slides,
    /// The recording is the inset, the slide deck the background.
    Video,
}

/// The trade-off between encoding speed and picture quality.
#[derive(Debug, Clone, Copy, PartialEq, Eq, Structural)]
pub enum QualityProfile {
    Draft,
    Standard,
    High,
}

/// The moment, in milliseconds of the recording's timeline, at which a slide
/// becomes visible.
#[derive(Debug, Clone, Copy, PartialEq, Eq, Structural)]
pub struct SlideTiming {
    pub slide_index: u32,
    pub time_millis: u64,
}

/// One composition job.
#[derive(Debug, Clone, PartialEq)]
pub struct CompositionRequest {
    pub pdf_path: String,
    pub video_path: String,
    pub output_path: String,
    pub overlay_position: OverlayPosition,
    /// Width of the inset in thousandths of the canvas width; accepted from
    /// 50 (0.05) to 500 (0.5).
    pub overlay_width_permille: u32,
    /// What to display in the inset.
    pub foreground_kind: ForegroundKind,
    /// Encoding quality/speed.
    pub quality: QualityProfile,
    /// Output frames per second.
    pub fps: Option<u32>,
    /// Output size; the canvas is 1920x1080 whatever these hold.
    pub output_width: Option<u32>,
    pub output_height: Option<u32>,
    /// Expected duration in milliseconds, for progress reporting.
    pub expected_duration_millis: Option<u64>,
    /// Slide switch times: indices 0, 1, 2, ... with strictly increasing times.
    pub timings: Vec<SlideTiming>,
}

/// Why a composition request is rejected.
#[derive(Debug, Clone, Copy, PartialEq, Eq, Structural)]
pub enum ValidationError {
    /// The inset width, in thousandths, lies outside 50..=500.
    OverlayWidthOutOfRange(u32),
    EmptyTimings,
    NonIncreasingTimings,
    InvalidSlideIndices,
}

} // verus!
