//! Resolutions, and the names of the override sections that are keyed by one.

use crate::text::{
    find_char, lemma_decimal_round_trip, lemma_find_char_first, parse_decimal_range, push_decimal, spec_decimal, spec_find_char, spec_is_digit, spec_parse_decimal,
};
use vstd::prelude::*;

verus! {

/// The size of a picture, in pixels.
#[derive(Clone, Copy, Debug, PartialEq, Eq, Structural)]
pub struct Resolution {
    /// Pixels in a line.
    pub width: u64,
    /// Lines.
    pub height: u64,
}

impl Resolution {
    /// The resolution in words: the width, an `x`, the height.
    pub open spec fn spec_to_string(self) -> Seq<char> {
        spec_decimal(self.width as nat) + seq!['x'] + spec_decimal(self.height as nat)
    }

    /// The resolution in words: the width, an `x`, the height.
    pub fn to_string(&self) -> (r: String)
        ensures
            r@ == self.spec_to_string(),
    {
        let mut r = String::new();
        push_decimal(&mut r, self.width);
        proof {
            reveal_strlit("x");
        }
        r.append("x");
        push_decimal(&mut r, self.height);
        assert(r@ =~= self.spec_to_string());
        r
    }
}

/// The name of an override section that is keyed by a resolution:
/// `video=`, the width, an `x`, the height and, where a refresh rate is
/// given, an `@` and the refresh rate.
#[derive(Clone, Copy, Debug, PartialEq, Eq, Structural)]
pub struct VideoResolutionString {
    /// The resolution.
    pub resolution: Resolution,
    /// The refresh rate in hertz, where the section names one.
    pub refresh: Option<u64>,
}

impl VideoResolutionString {
    /// The name of the section.
    pub open spec fn spec_to_string(self) -> Seq<char> {
        "video="@ + self.resolution.spec_to_string() + match self.refresh {
            Some(r) => seq!['@'] + spec_decimal(r as nat),
            None => Seq::<char>::empty(),
        }
    }

    /// The name of the section for a resolution, whatever the refresh rate.
    pub fn new(resolution: Resolution) -> (r: VideoResolutionString)
        ensures
            r.resolution == resolution,
            r.refresh.is_none(),
    {
        VideoResolutionString { resolution, refresh: None }
    }

    /// The name of the section.
    pub fn to_string(&self) -> (r: String)
        ensures
            r@ == self.spec_to_string(),
    {
        let mut r = String::from_str("video=");
        let res = self.resolution.to_string();
        r.append(res.as_str());
        match self.refresh {
            Some(hz) => {
                proof {
                    reveal_strlit("@");
                }
                r.append("@");
                push_decimal(&mut r, hz);
                assert(r@ =~= self.spec_to_string());
            },
            None => {
                assert(r@ =~= self.spec_to_string());
            },
        }
        r
    }
}

/// Why a word names no section that is keyed by a resolution.
#[derive(Clone, Copy, Debug, PartialEq, Eq, Structural)]
pub enum VideoSectionError {
    /// The word does not start with `video=`.
    NotVideo,
    /// What follows `video=` is not a width, an `x`, a height and, where an
    /// `@` follows, a refresh rate.
    InvalidResolution,
}

impl VideoSectionError {
    /// The error in words.
    pub fn message(&self) -> (r: &'static str)
        ensures
            r@ == (match self {
                VideoSectionError::NotVideo => "Invalid video section string."@,
                VideoSectionError::InvalidResolution => "Invalid resolution string."@,
            }),
    {
        match self {
            VideoSectionError::NotVideo => "Invalid video section string.",
            VideoSectionError::InvalidResolution => "Invalid resolution string.",
        }
    }
}

/// Number of characters of `video=`.
pub const VIDEO_PREFIX_LEN: usize = 6;

/// Whether a word starts with `video=`.
pub open spec fn spec_has_video_prefix(s: Seq<char>) -> bool {
    s.len() >= 6 && s[0] == 'v' && s[1] == 'i' && s[2] == 'd' && s[3] == 'e' && s[4] == 'o'
        && s[5] == '='
}

impl VideoResolutionString {
    /// The section that a word names: after `video=` stand the width in
    /// decimal, an `x`, and the height in decimal; where an `@` follows, the
    /// refresh rate in decimal follows it.
    pub open spec fn spec_from_str(s: Seq<char>) -> Result<
        VideoResolutionString,
        VideoSectionError,
    > {
        if !spec_has_video_prefix(s) {
            Err(VideoSectionError::NotVideo)
        } else {
            let x = spec_find_char(s, 'x', 6);
            let at = spec_find_char(s, '@', 6);
            let width = spec_parse_decimal(s.subrange(6, x));
            if x >= s.len() || at < x {
                Err(VideoSectionError::InvalidResolution)
            } else {
                let height = spec_parse_decimal(s.subrange(x + 1, at));
                let refresh = spec_parse_decimal(s.subrange(at + 1, s.len() as int));
                if width.is_none() || height.is_none() || (at < s.len() && refresh.is_none()) {
                    Err(VideoSectionError::InvalidResolution)
                } else {
                    Ok(
                        VideoResolutionString {
                            resolution: Resolution {
                                width: width.unwrap(),
                                height: height.unwrap(),
                            },
                            refresh: if at < s.len() {
                                refresh
                            } else {
                                None
                            },
                        },
                    )
                }
            }
        }
    }

    /// Reads the name of a section that is keyed by a resolution.
    pub fn from_str(s: &str) -> (r: Result<VideoResolutionString, VideoSectionError>)
        ensures
            r == VideoResolutionString::spec_from_str(s@),
    {
        let n = s.unicode_len();
        if !(n >= 6 && s.get_char(0) == 'v' && s.get_char(1) == 'i' && s.get_char(2) == 'd'
            && s.get_char(3) == 'e' && s.get_char(4) == 'o' && s.get_char(5) == '=') {
            return Err(VideoSectionError::NotVideo);
        }
        let x = find_char(s, 'x', 6);
        let at = find_char(s, '@', 6);
        if x >= n || at < x {
            return Err(VideoSectionError::InvalidResolution);
        }
        let width = parse_decimal_range(s, 6, x);
        let height = parse_decimal_range(s, x + 1, at);
        let refresh = if at < n {
            parse_decimal_range(s, at + 1, n)
        } else {
            None
        };
        match (width, height) {
            (Some(width), Some(height)) => {
                if at < n && refresh.is_none() {
                    Err(VideoSectionError::InvalidResolution)
                } else {
                    Ok(VideoResolutionString { resolution: Resolution { width, height }, refresh })
                }
            },
            _ => Err(VideoSectionError::InvalidResolution),
        }
    }
}

/// Reading back the name of a section gives the section.
pub proof fn law_video_section_round_trip(v: VideoResolutionString)
    ensures
        VideoResolutionString::spec_from_str(v.spec_to_string()) == Ok::<
            VideoResolutionString,
            VideoSectionError,
        >(v),
{
    reveal_strlit("video=");
    let w = spec_decimal(v.resolution.width as nat);
    let h = spec_decimal(v.resolution.height as nat);
    lemma_decimal_round_trip(v.resolution.width as nat);
    lemma_decimal_round_trip(v.resolution.height as nat);
    let s = v.spec_to_string();
    let x: int = 6 + w.len() as int;
    let at: int = x + 1 + h.len() as int;
    assert(s.len() >= at);
    assert forall|i: int| 0 <= i < w.len() implies s[6 + i] == w[i] by {}
    assert forall|i: int| 0 <= i < h.len() implies s[x + 1 + i] == h[i] by {}
    assert(s[x] == 'x');
    assert forall|i: int| 6 <= i < x implies s[i] != 'x' && s[i] != '@' by {
        assert(spec_is_digit(w[i - 6]));
    }
    assert forall|i: int| x < i < at implies s[i] != '@' by {
        assert(spec_is_digit(h[i - x - 1]));
    }
    lemma_find_char_first(s, 'x', 6, x);
    assert(s.subrange(6, x) =~= w);
    assert(s.subrange(x + 1, at) =~= h);
    match v.refresh {
        Some(hz) => {
            let r = spec_decimal(hz as nat);
            lemma_decimal_round_trip(hz as nat);
            assert(s[at] == '@');
            lemma_find_char_first(s, '@', 6, at);
            assert(s.subrange(at + 1, s.len() as int) =~= r);
        },
        None => {
            assert(s.len() == at);
            lemma_find_char_first(s, '@', 6, at);
        },
    }
}

} // verus!
