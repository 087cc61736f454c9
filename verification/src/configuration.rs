//! Stream configuration: the mutable parameter bag describing output
//! geometry, pixel format, frame pacing, cursor and background options,
//! and audio capture options.
//!
//! Every accessor pair is local and total: no value is validated here.
//! Legal ranges are hardware- and OS-dependent, so validation authority
//! stays with the backend, which may reject a configuration
//! asynchronously through the session's completion paths.

use vstd::prelude::*;

use crate::geometry::Rect;

verus! {

/// A rational time interval: `value` counted in `timescale` units per
/// second, the backend's pacing representation.
#[derive(Clone, Copy, PartialEq, Eq, Structural, Debug)]
pub struct TimeInterval {
    pub value: i64,
    pub timescale: i32,
}

impl TimeInterval {
    /// The interval `value / timescale` seconds.
    pub fn new(value: i64, timescale: i32) -> (r: TimeInterval)
        ensures
            r == (TimeInterval { value, timescale }),
    {
        TimeInterval { value, timescale }
    }
}

/// A background color with 8-bit components. Whether a color is accepted
/// is backend-defined; this layer only stores it.
#[derive(Clone, Copy, PartialEq, Eq, Structural, Debug)]
pub struct Color {
    pub red: u8,
    pub green: u8,
    pub blue: u8,
    pub alpha: u8,
}

impl Color {
    /// The color with the given components.
    pub fn new(red: u8, green: u8, blue: u8, alpha: u8) -> (r: Color)
        ensures
            r == (Color { red, green, blue, alpha }),
    {
        Color { red, green, blue, alpha }
    }
}

/// The capture parameter set. Each field is independently settable before
/// or during a running session; cross-field validation is the backend's.
#[derive(Debug)]
pub struct StreamConfiguration {
    pub width: usize,
    pub height: usize,
    pub minimum_frame_interval: TimeInterval,
    pub pixel_format: u32,
    pub scales_to_fit: bool,
    pub show_cursor: bool,
    pub background_color: Color,
    pub source_rect: Rect,
    pub destination_rect: Rect,
    pub queue_depth: i64,
    pub color_matrix: String,
    pub color_space_name: String,
    pub captures_audio: bool,
    pub sample_rate_hz: u32,
    pub channel_count: usize,
    pub excludes_current_process_audio: bool,
}

impl StreamConfiguration {
    /// A configuration with every parameter at its neutral value; the
    /// backend substitutes its own defaults for zero geometry.
    pub fn new() -> (r: StreamConfiguration)
        ensures
            r.width == 0,
            r.height == 0,
            r.minimum_frame_interval == (TimeInterval { value: 0i64, timescale: 0i32 }),
            r.pixel_format == 0,
            r.scales_to_fit == false,
            r.show_cursor == false,
            r.background_color == (Color { red: 0u8, green: 0u8, blue: 0u8, alpha: 0u8 }),
            r.source_rect == (Rect { x: 0i64, y: 0i64, width: 0i64, height: 0i64 }),
            r.destination_rect == (Rect { x: 0i64, y: 0i64, width: 0i64, height: 0i64 }),
            r.queue_depth == 0,
            r.color_matrix@ == Seq::<char>::empty(),
            r.color_space_name@ == Seq::<char>::empty(),
            r.captures_audio == false,
            r.sample_rate_hz == 0,
            r.channel_count == 0,
            r.excludes_current_process_audio == false,
    {
        StreamConfiguration {
            width: 0,
            height: 0,
            minimum_frame_interval: TimeInterval { value: 0, timescale: 0 },
            pixel_format: 0,
            scales_to_fit: false,
            show_cursor: false,
            background_color: Color { red: 0, green: 0, blue: 0, alpha: 0 },
            source_rect: Rect { x: 0, y: 0, width: 0, height: 0 },
            destination_rect: Rect { x: 0, y: 0, width: 0, height: 0 },
            queue_depth: 0,
            color_matrix: String::new(),
            color_space_name: String::new(),
            captures_audio: false,
            sample_rate_hz: 0,
            channel_count: 0,
            excludes_current_process_audio: false,
        }
    }

    /// Output height in pixels.
    pub fn get_height(&self) -> (r: usize)
        ensures
            r == self.height,
    {
        self.height
    }

    /// Sets the output height; every other parameter is kept.
    pub fn set_height(&mut self, height: usize)
        ensures
            *final(self) == (StreamConfiguration { height, ..*old(self) }),
    {
        self.height = height;
    }

    /// Output width in pixels.
    pub fn get_width(&self) -> (r: usize)
        ensures
            r == self.width,
    {
        self.width
    }

    /// Sets the output width; every other parameter is kept.
    pub fn set_width(&mut self, width: usize)
        ensures
            *final(self) == (StreamConfiguration { width, ..*old(self) }),
    {
        self.width = width;
    }

    /// The minimum interval between two produced frames.
    pub fn get_minimum_frame_interval(&self) -> (r: TimeInterval)
        ensures
            r == self.minimum_frame_interval,
    {
        self.minimum_frame_interval
    }

    /// Sets the minimum frame interval; every other parameter is kept.
    pub fn set_minimum_frame_interval(&mut self, interval: TimeInterval)
        ensures
            *final(self) == (StreamConfiguration { minimum_frame_interval: interval, ..*old(self) }),
    {
        self.minimum_frame_interval = interval;
    }

    /// The pixel format as a four-character code.
    pub fn get_pixel_format(&self) -> (r: u32)
        ensures
            r == self.pixel_format,
    {
        self.pixel_format
    }

    /// Sets the pixel format; every other parameter is kept.
    pub fn set_pixel_format(&mut self, format: u32)
        ensures
            *final(self) == (StreamConfiguration { pixel_format: format, ..*old(self) }),
    {
        self.pixel_format = format;
    }

    /// Whether output is scaled to fit the destination.
    pub fn get_scales_to_fit(&self) -> (r: bool)
        ensures
            r == self.scales_to_fit,
    {
        self.scales_to_fit
    }

    /// Sets scale-to-fit; every other parameter is kept.
    pub fn set_scales_to_fit(&mut self, scales_to_fit: bool)
        ensures
            *final(self) == (StreamConfiguration { scales_to_fit, ..*old(self) }),
    {
        self.scales_to_fit = scales_to_fit;
    }

    /// Whether the cursor is drawn into captured frames.
    pub fn get_show_cursor(&self) -> (r: bool)
        ensures
            r == self.show_cursor,
    {
        self.show_cursor
    }

    /// Sets cursor visibility; every other parameter is kept.
    pub fn set_show_cursor(&mut self, show_cursor: bool)
        ensures
            *final(self) == (StreamConfiguration { show_cursor, ..*old(self) }),
    {
        self.show_cursor = show_cursor;
    }

    /// The background color behind captured content.
    pub fn get_background_color(&self) -> (r: Color)
        ensures
            r == self.background_color,
    {
        self.background_color
    }

    /// Sets the background color; every other parameter is kept.
    pub fn set_background_color(&mut self, color: Color)
        ensures
            *final(self) == (StreamConfiguration { background_color: color, ..*old(self) }),
    {
        self.background_color = color;
    }

    /// The source rectangle cropped out of the captured content.
    pub fn get_source_rect(&self) -> (r: Rect)
        ensures
            r == self.source_rect,
    {
        self.source_rect
    }

    /// Sets the source rectangle; every other parameter is kept.
    pub fn set_source_rect(&mut self, rect: Rect)
        ensures
            *final(self) == (StreamConfiguration { source_rect: rect, ..*old(self) }),
    {
        self.source_rect = rect;
    }

    /// The destination rectangle inside the output buffer.
    pub fn get_destination_rect(&self) -> (r: Rect)
        ensures
            r == self.destination_rect,
    {
        self.destination_rect
    }

    /// Sets the destination rectangle; every other parameter is kept.
    pub fn set_destination_rect(&mut self, rect: Rect)
        ensures
            *final(self) == (StreamConfiguration { destination_rect: rect, ..*old(self) }),
    {
        self.destination_rect = rect;
    }

    /// How many output buffers the backend keeps in flight.
    pub fn get_queue_depth(&self) -> (r: i64)
        ensures
            r == self.queue_depth,
    {
        self.queue_depth
    }

    /// Sets the output queue depth; every other parameter is kept.
    pub fn set_queue_depth(&mut self, depth: i64)
        ensures
            *final(self) == (StreamConfiguration { queue_depth: depth, ..*old(self) }),
    {
        self.queue_depth = depth;
    }

    /// The color matrix name for YCbCr output.
    pub fn get_color_matrix(&self) -> (r: &String)
        ensures
            r == &self.color_matrix,
    {
        &self.color_matrix
    }

    /// Sets the color matrix name; every other parameter is kept.
    pub fn set_color_matrix(&mut self, matrix: String)
        ensures
            *final(self) == (StreamConfiguration { color_matrix: matrix, ..*old(self) }),
    {
        self.color_matrix = matrix;
    }

    /// The output color space name.
    pub fn get_color_space_name(&self) -> (r: &String)
        ensures
            r == &self.color_space_name,
    {
        &self.color_space_name
    }

    /// Sets the color space name; every other parameter is kept.
    pub fn set_color_space_name(&mut self, name: String)
        ensures
            *final(self) == (StreamConfiguration { color_space_name: name, ..*old(self) }),
    {
        self.color_space_name = name;
    }

    /// Whether audio is captured alongside video.
    pub fn get_captures_audio(&self) -> (r: bool)
        ensures
            r == self.captures_audio,
    {
        self.captures_audio
    }

    /// Sets audio capture; every other parameter is kept.
    pub fn set_captures_audio(&mut self, captures_audio: bool)
        ensures
            *final(self) == (StreamConfiguration { captures_audio, ..*old(self) }),
    {
        self.captures_audio = captures_audio;
    }

    /// The audio sample rate in hertz.
    pub fn get_sample_rate(&self) -> (r: u32)
        ensures
            r == self.sample_rate_hz,
    {
        self.sample_rate_hz
    }

    /// Sets the audio sample rate; every other parameter is kept.
    pub fn set_sample_rate(&mut self, rate_hz: u32)
        ensures
            *final(self) == (StreamConfiguration { sample_rate_hz: rate_hz, ..*old(self) }),
    {
        self.sample_rate_hz = rate_hz;
    }

    /// The audio channel count.
    pub fn get_channel_count(&self) -> (r: usize)
        ensures
            r == self.channel_count,
    {
        self.channel_count
    }

    /// Sets the audio channel count; every other parameter is kept.
    pub fn set_channel_count(&mut self, count: usize)
        ensures
            *final(self) == (StreamConfiguration { channel_count: count, ..*old(self) }),
    {
        self.channel_count = count;
    }

    /// Whether the current process's own audio is excluded from capture.
    pub fn get_excludes_current_process_audio(&self) -> (r: bool)
        ensures
            r == self.excludes_current_process_audio,
    {
        self.excludes_current_process_audio
    }

    /// Sets exclusion of the current process's audio; every other
    /// parameter is kept.
    pub fn set_excludes_current_process_audio(&mut self, excludes_current_process_audio: bool)
        ensures
            *final(self) == (StreamConfiguration { excludes_current_process_audio, ..*old(self) }),
    {
        self.excludes_current_process_audio = excludes_current_process_audio;
    }
}

} // verus!
