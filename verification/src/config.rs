use vstd::prelude::*;
use crate::content::Display;
use crate::geometry::{Rect, Size};

verus! {

/// The pixel format tag of 32-bit BGRA, the four characters `BGRA` read as
/// one big-endian number.
pub const PIXEL_FORMAT_32BGRA: u32 = 1111970369;

/// How many frames the host may hold back for a session before it has to
/// wait for the receiver. It bounds the host's buffering only.
pub const QUEUE_DEPTH: i64 = 5;

/// The least time between two frames.
#[derive(Clone, Copy, Debug, PartialEq, Eq, Structural)]
pub enum FrameInterval {
    /// Whatever the host chooses: frames come as fast as it makes them.
    HostDefault,
    /// `value / timescale` seconds.
    AtLeast { value: i64, timescale: i32 },
}

/// The colour space that frames are delivered in.
#[derive(Clone, Copy, Debug, PartialEq, Eq, Structural)]
pub enum ColorSpace {
    Srgb,
}

/// How a session delivers its frames.
#[derive(Clone, Copy, Debug, PartialEq, Eq, Structural)]
pub struct StreamConfig {
    width: usize,
    height: usize,
    source_rect: Rect,
    destination_rect: Rect,
    queue_depth: i64,
    pixel_format: u32,
    color_space: ColorSpace,
    minimum_frame_interval: FrameInterval,
}

/// The fields of a [`StreamConfig`], as contracts speak of them.
pub struct StreamConfigView {
    pub width: usize,
    pub height: usize,
    pub source_rect: Rect,
    pub destination_rect: Rect,
    pub queue_depth: i64,
    pub pixel_format: u32,
    pub color_space: ColorSpace,
    pub minimum_frame_interval: FrameInterval,
}

impl View for StreamConfig {
    type V = StreamConfigView;

    closed spec fn view(&self) -> StreamConfigView {
        StreamConfigView {
            width: self.width,
            height: self.height,
            source_rect: self.source_rect,
            destination_rect: self.destination_rect,
            queue_depth: self.queue_depth,
            pixel_format: self.pixel_format,
            color_space: self.color_space,
            minimum_frame_interval: self.minimum_frame_interval,
        }
    }
}

/// The configuration before anything is asked of it: no extent, 32-bit BGRA
/// in sRGB, the fixed queue depth, and the host's own frame interval.
pub open spec fn initial_config() -> StreamConfigView {
    StreamConfigView {
        width: 0,
        height: 0,
        source_rect: Rect::anchored(Size { width: 0, height: 0 }),
        destination_rect: Rect::anchored(Size { width: 0, height: 0 }),
        queue_depth: QUEUE_DEPTH,
        pixel_format: PIXEL_FORMAT_32BGRA,
        color_space: ColorSpace::Srgb,
        minimum_frame_interval: FrameInterval::HostDefault,
    }
}

/// The configuration that delivers a region of `desired` extent from the
/// middle of a display of extent `bounds`, pixel for pixel.
pub open spec fn center_crop_config(bounds: Size, desired: Size) -> StreamConfigView {
    StreamConfigView {
        width: desired.width,
        height: desired.height,
        source_rect: Rect::centered(bounds, desired),
        destination_rect: Rect::anchored(desired),
        ..initial_config()
    }
}

impl Default for StreamConfig {
    fn default() -> (config: StreamConfig)
        ensures
            config@ == initial_config(),
    {
        let empty = Size { width: 0, height: 0 };
        StreamConfig {
            width: 0,
            height: 0,
            source_rect: Rect::at_origin(&empty),
            destination_rect: Rect::at_origin(&empty),
            queue_depth: QUEUE_DEPTH,
            pixel_format: PIXEL_FORMAT_32BGRA,
            color_space: ColorSpace::Srgb,
            minimum_frame_interval: FrameInterval::HostDefault,
        }
    }
}

impl StreamConfig {
    pub fn width(&self) -> (width: usize)
        ensures
            width == self@.width,
    {
        self.width
    }

    pub fn set_width(&mut self, width: usize)
        ensures
            final(self)@ == (StreamConfigView { width, ..old(self)@ }),
    {
        self.width = width;
    }

    pub fn height(&self) -> (height: usize)
        ensures
            height == self@.height,
    {
        self.height
    }

    pub fn set_height(&mut self, height: usize)
        ensures
            final(self)@ == (StreamConfigView { height, ..old(self)@ }),
    {
        self.height = height;
    }

    pub fn source_rect(&self) -> (rect: Rect)
        ensures
            rect == self@.source_rect,
    {
        self.source_rect
    }

    pub fn set_source_rect(&mut self, source_rect: Rect)
        ensures
            final(self)@ == (StreamConfigView { source_rect, ..old(self)@ }),
    {
        self.source_rect = source_rect;
    }

    pub fn destination_rect(&self) -> (rect: Rect)
        ensures
            rect == self@.destination_rect,
    {
        self.destination_rect
    }

    pub fn set_destination_rect(&mut self, destination_rect: Rect)
        ensures
            final(self)@ == (StreamConfigView { destination_rect, ..old(self)@ }),
    {
        self.destination_rect = destination_rect;
    }

    pub fn queue_depth(&self) -> (depth: i64)
        ensures
            depth == self@.queue_depth,
    {
        self.queue_depth
    }

    pub fn set_queue_depth(&mut self, queue_depth: i64)
        ensures
            final(self)@ == (StreamConfigView { queue_depth, ..old(self)@ }),
    {
        self.queue_depth = queue_depth;
    }

    pub fn pixel_format(&self) -> (format: u32)
        ensures
            format == self@.pixel_format,
    {
        self.pixel_format
    }

    pub fn color_space(&self) -> (space: ColorSpace)
        ensures
            space == self@.color_space,
    {
        self.color_space
    }

    pub fn minimum_frame_interval(&self) -> (interval: FrameInterval)
        ensures
            interval == self@.minimum_frame_interval,
    {
        self.minimum_frame_interval
    }

    pub fn set_minimum_frame_interval(&mut self, minimum_frame_interval: FrameInterval)
        ensures
            final(self)@ == (StreamConfigView { minimum_frame_interval, ..old(self)@ }),
    {
        self.minimum_frame_interval = minimum_frame_interval;
    }
}

/// Lays out the capture region of a session.
pub struct StreamConfigurator {}

impl StreamConfigurator {
    /// The configuration that crops a region of the desired extent out of the
    /// middle of the display and delivers it unscaled. Whether the region lies
    /// on the display is not tested here: the host refuses one that does not.
    pub fn configure(display: &Display, desired: Size) -> (config: StreamConfig)
        ensures
            config@ == center_crop_config(display.bounds, desired),
    {
        let mut config = StreamConfig::default();
        let source_rect = Rect::centered_in(&display.bounds, &desired);
        let destination_rect = Rect::at_origin(&source_rect.size);
        config.set_width(source_rect.size.width);
        config.set_height(source_rect.size.height);
        config.set_source_rect(source_rect);
        config.set_destination_rect(destination_rect);
        config.set_queue_depth(QUEUE_DEPTH);
        config
    }
}

/// For a desired extent that fits the display, the configured source region
/// has that extent, lies on the display and is centered on it, the
/// destination region has the same extent and starts at the origin, and the
/// output has as many pixels as the region: nothing is scaled.
pub proof fn lemma_center_crop_is_identity(bounds: Size, desired: Size)
    requires
        desired.fits_in(bounds),
    ensures
        ({
            let c = center_crop_config(bounds, desired);
            &&& c.source_rect.size == desired
            &&& c.source_rect.within(bounds)
            &&& c.source_rect.origin.x * 2 + desired.width <= bounds.width
                <= c.source_rect.origin.x * 2 + desired.width + 1
            &&& c.source_rect.origin.y * 2 + desired.height <= bounds.height
                <= c.source_rect.origin.y * 2 + desired.height + 1
            &&& c.destination_rect.origin == (crate::geometry::Point { x: 0, y: 0 })
            &&& c.destination_rect.size == desired
            &&& c.width == desired.width
            &&& c.height == desired.height
            &&& c.queue_depth == 5
            &&& c.pixel_format == PIXEL_FORMAT_32BGRA
            &&& c.minimum_frame_interval == FrameInterval::HostDefault
        }),
{
    crate::geometry::lemma_centered_is_centered(bounds, desired);
}

} // verus!
