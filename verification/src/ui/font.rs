//! Fonts: the family and the size of the font of a node, either of which may
//! be left to the node's parent.

use crate::text::{find_char, spec_find_char, spec_to_lowercase, str_eq, to_lowercase};
use vstd::prelude::*;

verus! {

/// The family of a font.
#[derive(Clone, Copy, Debug, Hash, PartialEq, Eq, Structural)]
pub enum FontType {
    /// Left to the parent.
    Unset,
    /// A font of fixed width.
    Monospace,
    /// A font without serifs.
    SansSerif,
}

/// The size of a font.
#[derive(Clone, Copy, Debug, Hash, PartialEq, Eq, Structural)]
pub enum FontSize {
    /// Left to the parent.
    Unset,
    /// Small.
    Small,
    /// Medium.
    Medium,
    /// Large.
    Large,
}

/// The font of a node: its family and its size.
#[derive(Clone, Copy, Debug, Hash, PartialEq, Eq, Structural)]
pub struct FontProp(pub FontType, pub FontSize);

/// The faces in which text is drawn.
#[derive(Clone, Copy, Debug, PartialEq, Eq, Structural)]
pub enum FontFace {
    /// A face of fixed width, 7 pixels high.
    Monospace7,
    /// A face of fixed width, 9 pixels high.
    Monospace9,
    /// A face of fixed width, 16 pixels high.
    Monospace16,
    /// A face without serifs, 12 pixels high.
    Sans12,
    /// A face without serifs, 14 pixels high.
    Sans14,
    /// A face without serifs, 16 pixels high.
    Sans16,
}

/// A word that names no font.
#[derive(Clone, Copy, Debug, PartialEq, Eq, Structural)]
pub enum FontError {
    /// The word names no family.
    UnknownFontType,
    /// The word names no size.
    UnknownFontSize,
    /// The word names neither a family nor a size.
    UnknownFontSpecification,
}

impl Default for FontType {
    fn default() -> (r: FontType)
        ensures
            r == FontType::Unset,
    {
        FontType::Unset
    }
}

impl Default for FontSize {
    fn default() -> (r: FontSize)
        ensures
            r == FontSize::Unset,
    {
        FontSize::Unset
    }
}

impl Default for FontProp {
    fn default() -> (r: FontProp)
        ensures
            r == FontProp(FontType::Unset, FontSize::Unset),
    {
        FontProp(FontType::Unset, FontSize::Unset)
    }
}

impl FontType {
    /// The family that a word in lower case names.
    pub open spec fn spec_from_lower(l: Seq<char>) -> Option<FontType> {
        if l == "default"@ {
            Some(FontType::Unset)
        } else if l == "monospace"@ {
            Some(FontType::Monospace)
        } else if l == "sans"@ || l == "sans-serif"@ {
            Some(FontType::SansSerif)
        } else {
            None
        }
    }

    /// The family that a word names, whatever its case.
    pub open spec fn spec_from_str(s: Seq<char>) -> Option<FontType> {
        FontType::spec_from_lower(spec_to_lowercase(s))
    }

    /// The family that a word in lower case names.
    pub fn from_lower(l: &str) -> (r: Result<FontType, FontError>)
        ensures
            match r {
                Ok(t) => FontType::spec_from_lower(l@) == Some(t),
                Err(e) => FontType::spec_from_lower(l@).is_none() && e
                    == FontError::UnknownFontType,
            },
    {
        if str_eq(l, "default") {
            Ok(FontType::Unset)
        } else if str_eq(l, "monospace") {
            Ok(FontType::Monospace)
        } else if str_eq(l, "sans") || str_eq(l, "sans-serif") {
            Ok(FontType::SansSerif)
        } else {
            Err(FontError::UnknownFontType)
        }
    }

    /// The family that a word names, whatever its case.
    pub fn from_str(s: &str) -> (r: Result<FontType, FontError>)
        ensures
            match r {
                Ok(t) => FontType::spec_from_str(s@) == Some(t),
                Err(e) => FontType::spec_from_str(s@).is_none() && e == FontError::UnknownFontType,
            },
    {
        let l = to_lowercase(s);
        FontType::from_lower(l.as_str())
    }
}

impl FontSize {
    /// The size that a word in lower case names.
    pub open spec fn spec_from_lower(l: Seq<char>) -> Option<FontSize> {
        if l == "default"@ {
            Some(FontSize::Unset)
        } else if l == "small"@ {
            Some(FontSize::Small)
        } else if l == "medium"@ {
            Some(FontSize::Medium)
        } else if l == "large"@ {
            Some(FontSize::Large)
        } else {
            None
        }
    }

    /// The size that a word names, whatever its case.
    pub open spec fn spec_from_str(s: Seq<char>) -> Option<FontSize> {
        FontSize::spec_from_lower(spec_to_lowercase(s))
    }

    /// The size that a word in lower case names.
    pub fn from_lower(l: &str) -> (r: Result<FontSize, FontError>)
        ensures
            match r {
                Ok(t) => FontSize::spec_from_lower(l@) == Some(t),
                Err(e) => FontSize::spec_from_lower(l@).is_none() && e
                    == FontError::UnknownFontSize,
            },
    {
        if str_eq(l, "default") {
            Ok(FontSize::Unset)
        } else if str_eq(l, "small") {
            Ok(FontSize::Small)
        } else if str_eq(l, "medium") {
            Ok(FontSize::Medium)
        } else if str_eq(l, "large") {
            Ok(FontSize::Large)
        } else {
            Err(FontError::UnknownFontSize)
        }
    }

    /// The size that a word names, whatever its case.
    pub fn from_str(s: &str) -> (r: Result<FontSize, FontError>)
        ensures
            match r {
                Ok(t) => FontSize::spec_from_str(s@) == Some(t),
                Err(e) => FontSize::spec_from_str(s@).is_none() && e == FontError::UnknownFontSize,
            },
    {
        let l = to_lowercase(s);
        FontSize::from_lower(l.as_str())
    }
}

impl FontProp {
    /// The font with what it leaves open taken from `other`.
    pub open spec fn spec_inherits(self, other: FontProp) -> FontProp {
        FontProp(
            if self.0 == FontType::Unset {
                other.0
            } else {
                self.0
            },
            if self.1 == FontSize::Unset {
                other.1
            } else {
                self.1
            },
        )
    }

    /// The family and the size that are drawn: sans-serif and medium where
    /// they are left open.
    pub open spec fn spec_resolved(self) -> FontProp {
        self.spec_inherits(FontProp(FontType::SansSerif, FontSize::Medium))
    }

    /// The font that a specification names: a family and a size separated by
    /// a comma, or a single word that names a family or a size, or nothing or
    /// `default` for a font that leaves both open.
    pub open spec fn spec_from_str(s: Seq<char>) -> Result<FontProp, FontError> {
        let comma = spec_find_char(s, ',', 0);
        if comma < s.len() {
            match FontType::spec_from_str(s.subrange(0, comma)) {
                None => Err(FontError::UnknownFontType),
                Some(t) => match FontSize::spec_from_str(s.subrange(comma + 1, s.len() as int)) {
                    None => Err(FontError::UnknownFontSize),
                    Some(z) => Ok(FontProp(t, z)),
                },
            }
        } else if s.len() == 0 || s == "default"@ {
            Ok(FontProp(FontType::Unset, FontSize::Unset))
        } else {
            match FontType::spec_from_str(s) {
                Some(t) => Ok(FontProp(t, FontSize::Unset)),
                None => match FontSize::spec_from_str(s) {
                    Some(z) => Ok(FontProp(FontType::Unset, z)),
                    None => Err(FontError::UnknownFontSpecification),
                },
            }
        }
    }

    /// The font with what it leaves open taken from `other`: the family and
    /// the size of this font where it names them, those of `other` where it
    /// does not.
    pub fn inherits(&self, other: FontProp) -> (r: FontProp)
        ensures
            r == self.spec_inherits(other),
    {
        match (self.0, self.1) {
            (FontType::Unset, FontSize::Unset) => other,
            (FontType::Unset, _) => FontProp(other.0, self.1),
            (_, FontSize::Unset) => FontProp(self.0, other.1),
            _ => *self,
        }
    }

    /// The family and the size that are drawn: sans-serif and medium where
    /// they are left open.
    pub fn resolved(&self) -> (r: FontProp)
        ensures
            r == self.spec_resolved(),
            r.0 != FontType::Unset,
            r.1 != FontSize::Unset,
    {
        self.inherits(FontProp(FontType::SansSerif, FontSize::Medium))
    }

    /// The face in which the font is drawn: that of its family and size,
    /// sans-serif and medium standing in for what it leaves open.
    pub open spec fn spec_face(self) -> FontFace {
        let r = self.spec_resolved();
        if r.0 == FontType::Monospace {
            if r.1 == FontSize::Small {
                FontFace::Monospace7
            } else if r.1 == FontSize::Medium {
                FontFace::Monospace9
            } else {
                FontFace::Monospace16
            }
        } else {
            if r.1 == FontSize::Small {
                FontFace::Sans12
            } else if r.1 == FontSize::Medium {
                FontFace::Sans14
            } else {
                FontFace::Sans16
            }
        }
    }

    /// The face in which the font is drawn.
    pub fn face(&self) -> (r: FontFace)
        ensures
            r == self.spec_face(),
    {
        let resolved = self.resolved();
        match (resolved.0, resolved.1) {
            (FontType::Monospace, FontSize::Small) => FontFace::Monospace7,
            (FontType::Monospace, FontSize::Medium) => FontFace::Monospace9,
            (FontType::Monospace, _) => FontFace::Monospace16,
            (_, FontSize::Small) => FontFace::Sans12,
            (_, FontSize::Medium) => FontFace::Sans14,
            (_, _) => FontFace::Sans16,
        }
    }

    /// The font that a specification names.
    pub fn from_str(s: &str) -> (r: Result<FontProp, FontError>)
        ensures
            r == FontProp::spec_from_str(s@),
    {
        let n = s.unicode_len();
        let comma = find_char(s, ',', 0);
        if comma < n {
            let first = s.substring_char(0, comma);
            let second = s.substring_char(comma + 1, n);
            let t = match FontType::from_str(first) {
                Ok(t) => t,
                Err(e) => {
                    return Err(e);
                },
            };
            let z = match FontSize::from_str(second) {
                Ok(z) => z,
                Err(e) => {
                    return Err(e);
                },
            };
            Ok(FontProp(t, z))
        } else if n == 0 || str_eq(s, "default") {
            Ok(FontProp(FontType::Unset, FontSize::Unset))
        } else {
            match FontType::from_str(s) {
                Ok(t) => Ok(FontProp(t, FontSize::Unset)),
                Err(_) => match FontSize::from_str(s) {
                    Ok(z) => Ok(FontProp(FontType::Unset, z)),
                    Err(_) => Err(FontError::UnknownFontSpecification),
                },
            }
        }
    }
}

/// Inheriting twice from the same font is inheriting once, and a font that
/// leaves nothing open inherits nothing.
pub proof fn law_inherits(font: FontProp, parent: FontProp)
    ensures
        font.spec_inherits(parent).spec_inherits(parent) == font.spec_inherits(parent),
        font.0 != FontType::Unset && font.1 != FontSize::Unset ==> font.spec_inherits(parent)
            == font,
        FontProp(FontType::Unset, FontSize::Unset).spec_inherits(parent) == parent,
{
}

} // verus!
