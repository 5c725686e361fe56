//! Pictures, and where a picture is put on the background.

use crate::config::resolution::Resolution;
use crate::text::{spec_to_lowercase, str_eq, to_lowercase};
use vstd::prelude::*;

verus! {

/// Where a picture is put.
#[derive(Debug, Clone, Copy, PartialEq, Eq, Structural)]
pub enum Position {
    /// In the top-left corner.
    TopLeft,
    /// In the centre.
    Center,
    /// At a given place.
    Custom {
        /// Pixels from the left edge.
        x: i64,
        /// Lines from the top edge.
        y: i64,
    },
}

impl Default for Position {
    fn default() -> (r: Position)
        ensures
            r == Position::TopLeft,
    {
        Position::TopLeft
    }
}

impl Position {
    /// The position that a word in lower case names.
    pub open spec fn spec_from_lower(l: Seq<char>) -> Option<Position> {
        if l == "top-left"@ {
            Some(Position::TopLeft)
        } else if l == "center"@ {
            Some(Position::Center)
        } else {
            None
        }
    }

    /// The position that a word names, whatever its case.
    pub open spec fn spec_from_str(s: Seq<char>) -> Option<Position> {
        Position::spec_from_lower(spec_to_lowercase(s))
    }

    /// The position that a word in lower case names.
    pub fn from_lower(l: &str) -> (r: Option<Position>)
        ensures
            r == Position::spec_from_lower(l@),
    {
        if str_eq(l, "top-left") {
            Some(Position::TopLeft)
        } else if str_eq(l, "center") {
            Some(Position::Center)
        } else {
            None
        }
    }

    /// The position that a word names, whatever its case.
    pub fn from_str(s: &str) -> (r: Option<Position>)
        ensures
            r == Position::spec_from_str(s@),
    {
        let l = to_lowercase(s);
        Position::from_lower(l.as_str())
    }
}

/// How a picture is sent to the background.
#[derive(Debug, Clone, Copy, PartialEq, Eq, Structural)]
pub struct SendToBackgroundOptions {
    /// Whether the background is cleared first.
    pub clear: Option<bool>,
    /// Where the picture is put.
    pub position: Option<Position>,
}

/// How a picture is sent to the background where nothing is said: the
/// background is not cleared, and the picture is put in the top-left corner.
pub open spec fn spec_background_options(options: Option<SendToBackgroundOptions>) -> (
    bool,
    Position,
) {
    match options {
        Some(o) => (
            match o.clear {
                Some(c) => c,
                None => false,
            },
            match o.position {
                Some(p) => p,
                None => Position::TopLeft,
            },
        ),
        None => (false, Position::TopLeft),
    }
}

/// Whether the background is cleared first, and where the picture is put.
pub fn background_options(options: Option<SendToBackgroundOptions>) -> (r: (bool, Position))
    ensures
        r == spec_background_options(options),
{
    match options {
        Some(o) => (
            match o.clear {
                Some(c) => c,
                None => false,
            },
            match o.position {
                Some(p) => p,
                None => Position::TopLeft,
            },
        ),
        None => (false, Position::TopLeft),
    }
}

/// A picture, by its size.
#[derive(Debug, Clone, Copy, PartialEq, Eq, Structural)]
pub struct JsImage {
    width: u32,
    height: u32,
}

/// Half of a number, rounded towards zero.
pub open spec fn spec_half(d: int) -> int {
    if d >= 0 {
        d / 2
    } else {
        -((-d) / 2)
    }
}

fn half(d: i64) -> (r: i64)
    requires
        d > i64::MIN,
    ensures
        r == spec_half(d as int),
{
    if d >= 0 {
        d / 2
    } else {
        -((-d) / 2)
    }
}

impl JsImage {
    /// The width of the picture.
    pub closed spec fn spec_width(self) -> u32 {
        self.width
    }

    /// The height of the picture.
    pub closed spec fn spec_height(self) -> u32 {
        self.height
    }

    /// The point of the framebuffer at which the top-left corner of the
    /// picture is put: the origin, the point that centres the picture, or the
    /// point that was asked for.
    pub open spec fn spec_origin(self, fb: Resolution, position: Position) -> (int, int) {
        match position {
            Position::TopLeft => (0, 0),
            Position::Center => (
                spec_half(fb.width as int - self.spec_width() as int),
                spec_half(fb.height as int - self.spec_height() as int),
            ),
            Position::Custom { x, y } => (x as int, y as int),
        }
    }

    /// A picture of that size.
    pub fn new(width: u32, height: u32) -> (r: JsImage)
        ensures
            r.spec_width() == width,
            r.spec_height() == height,
    {
        JsImage { width, height }
    }

    /// The width of the picture.
    pub fn width(&self) -> (r: u32)
        ensures
            r == self.spec_width(),
    {
        self.width
    }

    /// The height of the picture.
    pub fn height(&self) -> (r: u32)
        ensures
            r == self.spec_height(),
    {
        self.height
    }

    /// The point of the framebuffer at which the top-left corner of the
    /// picture is put. The framebuffer is at most `i64::MAX` pixels wide and
    /// high.
    pub fn origin(&self, fb: Resolution, position: Position) -> (r: (i64, i64))
        requires
            fb.width <= i64::MAX,
            fb.height <= i64::MAX,
        ensures
            (r.0 as int, r.1 as int) == self.spec_origin(fb, position),
    {
        match position {
            Position::TopLeft => (0, 0),
            Position::Center => {
                let dx: i64 = fb.width as i64 - self.width as i64;
                let dy: i64 = fb.height as i64 - self.height as i64;
                (half(dx), half(dy))
            },
            Position::Custom { x, y } => (x, y),
        }
    }
}

} // verus!
