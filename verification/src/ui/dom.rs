//! The nodes of the tree that a script draws on the overlay: boxes, texts,
//! and the fragments of text within a text.

use super::font::FontProp;
use crate::text::str_eq;
use vstd::prelude::*;

verus! {

/// A place on the overlay.
#[derive(Clone, Copy, Debug, PartialEq, Eq, Structural)]
pub struct Location {
    /// Pixels from the left edge.
    pub x: i32,
    /// Lines from the top edge.
    pub y: i32,
}

/// The style of a box.
#[derive(Clone, Copy, Debug, PartialEq, Eq, Structural)]
pub struct BoxStyle {
    /// The font of the box.
    pub font: Option<FontProp>,
    /// The place of the box, where it is not laid out.
    pub location: Option<Location>,
}

/// The style of a text.
#[derive(Clone, Copy, Debug, PartialEq, Eq, Structural)]
pub struct TStyle {
    /// The font of the text.
    pub font: Option<FontProp>,
}

/// Why an operation on a node was refused.
#[derive(Clone, Copy, Debug, PartialEq, Eq, Structural)]
pub enum NodeError {
    /// The name is that of no kind of node.
    UnknownNodeType,
    /// The node holds no text that can be set.
    CannotSetText,
    /// The node has no properties that can be updated.
    CannotUpdate,
    /// The node cannot hold children.
    CannotAppend,
}

/// A node of the tree.
#[derive(Debug)]
pub enum NodeInfo {
    /// The root of the tree.
    Root,
    /// A box.
    Box {
        /// The style of the box.
        style: Option<BoxStyle>,
        /// The font of the box, once it is worked out.
        calculated_font: Option<FontProp>,
        /// The place of the box, once it is worked out.
        calculated_location: Option<Location>,
    },
    /// A text.
    Text {
        /// The style of the text.
        style: Option<TStyle>,
        /// The text.
        text: String,
        /// The font of the text, once it is worked out.
        calculated_font: Option<FontProp>,
        /// The place of the text, once it is worked out.
        calculated_location: Option<Location>,
    },
    /// A fragment of text within a text.
    Fragment {
        /// The text.
        text: String,
        /// The font of the fragment.
        font: FontProp,
        /// The place of the fragment, once it is worked out.
        calculated_location: Option<Location>,
    },
}

/// A font that leaves everything open.
pub open spec fn spec_default_font() -> FontProp {
    FontProp(super::font::FontType::Unset, super::font::FontSize::Unset)
}

/// The font of an option, or the font that leaves everything open.
pub open spec fn spec_font_or_default(font: Option<FontProp>) -> FontProp {
    match font {
        Some(f) => f,
        None => spec_default_font(),
    }
}

fn font_or_default(font: Option<FontProp>) -> (r: FontProp)
    ensures
        r == spec_font_or_default(font),
{
    match font {
        Some(f) => f,
        None => FontProp::default(),
    }
}

/// The texts of a list, one after the other.
pub open spec fn spec_concat(parts: Seq<Seq<char>>, n: int) -> Seq<char>
    decreases n,
{
    if n <= 0 || n > parts.len() {
        Seq::empty()
    } else {
        spec_concat(parts, n - 1) + parts[n - 1]
    }
}

/// The text of the children of a text: the texts of the children one after
/// the other.
pub fn inner_text(children: &Vec<String>) -> (r: String)
    ensures
        r@ == spec_concat(children.deep_view(), children@.len() as int),
{
    let mut r = String::new();
    let mut i: usize = 0;
    assert(r@ =~= spec_concat(children.deep_view(), 0));
    while i < children.len()
        invariant
            i <= children@.len(),
            r@ == spec_concat(children.deep_view(), i as int),
        decreases children.len() - i,
    {
        assert(children.deep_view()[i as int] == children@[i as int]@);
        r.append(children[i].as_str());
        i = i + 1;
    }
    r
}

impl NodeInfo {
    /// The font that the node has worked out: none for the root, the font of
    /// a fragment, and for a box and a text the font once it is worked out.
    pub open spec fn spec_calculated_font(&self) -> Option<FontProp> {
        match self {
            NodeInfo::Root => None,
            NodeInfo::Box { calculated_font, .. } => *calculated_font,
            NodeInfo::Text { calculated_font, .. } => *calculated_font,
            NodeInfo::Fragment { font, .. } => Some(*font),
        }
    }

    /// The place that the node has worked out: the place once it is worked
    /// out, else, for a box, the place that its style names.
    pub open spec fn spec_calculated_location(&self) -> Option<Location> {
        match self {
            NodeInfo::Root => None,
            NodeInfo::Box { calculated_location: Some(l), .. } => Some(*l),
            NodeInfo::Text { calculated_location: Some(l), .. } => Some(*l),
            NodeInfo::Fragment { calculated_location: Some(l), .. } => Some(*l),
            NodeInfo::Box { style: Some(s), .. } => s.location,
            _ => None,
        }
    }

    /// The node after it has worked out its font and its place from its
    /// style and from its parent.
    ///
    /// A box and a text whose font is not worked out take the font of their
    /// style, with what that leaves open taken from the parent. A box whose
    /// place is not worked out takes the place of the parent. A fragment
    /// always takes the font of the parent.
    pub open spec fn spec_update_cache(self, parent: NodeInfo) -> NodeInfo {
        let parent_font = spec_font_or_default(parent.spec_calculated_font());
        match self {
            NodeInfo::Root => NodeInfo::Root,
            NodeInfo::Box { style, calculated_font, calculated_location } => NodeInfo::Box {
                style,
                calculated_font: if calculated_font.is_none() {
                    Some(
                        spec_font_or_default(
                            match style {
                                Some(s) => s.font,
                                None => None,
                            },
                        ).spec_inherits(parent_font),
                    )
                } else {
                    calculated_font
                },
                calculated_location: if calculated_location.is_none() {
                    parent.spec_calculated_location()
                } else {
                    calculated_location
                },
            },
            NodeInfo::Fragment { text, font, calculated_location } => NodeInfo::Fragment {
                text,
                font: parent_font,
                calculated_location,
            },
            NodeInfo::Text { style, text, calculated_font, calculated_location } => NodeInfo::Text {
                style,
                text,
                calculated_font: if calculated_font.is_none() {
                    Some(
                        spec_font_or_default(
                            match style {
                                Some(s) => s.font,
                                None => None,
                            },
                        ).spec_inherits(parent_font),
                    )
                } else {
                    calculated_font
                },
                calculated_location,
            },
        }
    }

    /// The root of a tree.
    pub fn root() -> (r: NodeInfo)
        ensures
            r == NodeInfo::Root,
    {
        NodeInfo::Root
    }

    /// A fragment of text, whose font leaves everything open.
    pub fn fragment(text: String) -> (r: NodeInfo)
        ensures
            r == (NodeInfo::Fragment { text, font: spec_default_font(), calculated_location: None }),
    {
        NodeInfo::Fragment { text, font: FontProp::default(), calculated_location: None }
    }

    /// A box with a style.
    pub fn new_box(style: Option<BoxStyle>) -> (r: NodeInfo)
        ensures
            r == (NodeInfo::Box { style, calculated_font: None, calculated_location: None }),
    {
        NodeInfo::Box { style, calculated_font: None, calculated_location: None }
    }

    /// A text with a style and the texts of its children.
    pub fn new_text(style: Option<TStyle>, children: &Vec<String>) -> (r: NodeInfo)
        ensures
            r matches NodeInfo::Text { style: s, text, calculated_font, calculated_location }
                && s == style && text@ == spec_concat(children.deep_view(), children@.len() as int)
                && calculated_font.is_none() && calculated_location.is_none(),
    {
        NodeInfo::Text {
            style,
            text: inner_text(children),
            calculated_font: None,
            calculated_location: None,
        }
    }

    /// The node of a tag: a box for `box`, a text for `t`, given the style
    /// and the children that its properties name.
    pub fn tag(
        name: &str,
        box_style: Option<BoxStyle>,
        text_style: Option<TStyle>,
        children: &Vec<String>,
    ) -> (r: Result<NodeInfo, NodeError>)
        ensures
            name@ == "box"@ ==> r == Ok::<NodeInfo, NodeError>(
                NodeInfo::Box { style: box_style, calculated_font: None, calculated_location: None },
            ),
            name@ != "box"@ && name@ == "t"@ ==> r.is_ok() && (r.unwrap() matches NodeInfo::Text {
                style,
                text,
                calculated_font,
                calculated_location,
            } && style == text_style && text@ == spec_concat(
                children.deep_view(),
                children@.len() as int,
            ) && calculated_font.is_none() && calculated_location.is_none()),
            name@ != "box"@ && name@ != "t"@ ==> r == Err::<NodeInfo, NodeError>(
                NodeError::UnknownNodeType,
            ),
    {
        if str_eq(name, "box") {
            Ok(NodeInfo::new_box(box_style))
        } else if str_eq(name, "t") {
            Ok(NodeInfo::new_text(text_style, children))
        } else {
            Err(NodeError::UnknownNodeType)
        }
    }

    /// Whether the node can hold children: every node but a fragment can.
    pub fn can_append(&self) -> (r: bool)
        ensures
            r == !(self is Fragment),
    {
        match self {
            NodeInfo::Root => true,
            NodeInfo::Box { .. } => true,
            NodeInfo::Text { .. } => true,
            NodeInfo::Fragment { .. } => false,
        }
    }

    /// Whether a child may be put under the node: a fragment refuses.
    pub fn check_append(&self) -> (r: Result<(), NodeError>)
        ensures
            r == (if self is Fragment {
                Err::<(), NodeError>(NodeError::CannotAppend)
            } else {
                Ok(())
            }),
    {
        if self.can_append() {
            Ok(())
        } else {
            Err(NodeError::CannotAppend)
        }
    }

    /// Replaces the properties of a box and of a text, and with them the
    /// text of a text; the root and a fragment refuse. What the node has
    /// worked out stays.
    pub fn update(
        &mut self,
        box_style: Option<BoxStyle>,
        text_style: Option<TStyle>,
        children: &Vec<String>,
    ) -> (r: Result<(), NodeError>)
        ensures
            match *old(self) {
                NodeInfo::Box { style, calculated_font, calculated_location } => r.is_ok()
                    && *final(self) == (NodeInfo::Box {
                    style: box_style,
                    calculated_font,
                    calculated_location,
                }),
                NodeInfo::Text { style, text, calculated_font, calculated_location } => r.is_ok()
                    && (*final(self) matches NodeInfo::Text {
                    style: s,
                    text: t,
                    calculated_font: f,
                    calculated_location: l,
                } && s == text_style && t@ == spec_concat(
                    children.deep_view(),
                    children@.len() as int,
                ) && f == calculated_font && l == calculated_location),
                _ => r == Err::<(), NodeError>(NodeError::CannotUpdate) && *final(self) == *old(
                    self,
                ),
            },
    {
        match self {
            NodeInfo::Box { style, .. } => {
                *style = box_style;
                Ok(())
            },
            NodeInfo::Text { style, text, .. } => {
                *style = text_style;
                *text = inner_text(children);
                Ok(())
            },
            _ => Err(NodeError::CannotUpdate),
        }
    }

    /// The text of a fragment; none for any other node.
    pub fn text(&self) -> (r: Option<&str>)
        ensures
            match self {
                NodeInfo::Fragment { text, .. } => r.is_some() && r.unwrap()@ == text@,
                _ => r.is_none(),
            },
    {
        match self {
            NodeInfo::Fragment { text, .. } => Some(text.as_str()),
            _ => None,
        }
    }

    /// The name of the tag of a box and of a text; none for any other node.
    pub fn tag_name(&self) -> (r: Option<&'static str>)
        ensures
            match self {
                NodeInfo::Box { .. } => r.is_some() && r.unwrap()@ == "box"@,
                NodeInfo::Text { .. } => r.is_some() && r.unwrap()@ == "t"@,
                _ => r.is_none(),
            },
    {
        match self {
            NodeInfo::Box { .. } => Some("box"),
            NodeInfo::Text { .. } => Some("t"),
            _ => None,
        }
    }

    /// Sets the text of a text and of a fragment; any other node refuses.
    pub fn set_text(&mut self, new_text: String) -> (r: Result<(), NodeError>)
        ensures
            match *old(self) {
                NodeInfo::Text { style, text, calculated_font, calculated_location } => r.is_ok()
                    && *final(self) == (NodeInfo::Text {
                    style,
                    text: new_text,
                    calculated_font,
                    calculated_location,
                }),
                NodeInfo::Fragment { text, font, calculated_location } => r.is_ok() && *final(self)
                    == (NodeInfo::Fragment { text: new_text, font, calculated_location }),
                _ => r == Err::<(), NodeError>(NodeError::CannotSetText) && *final(self) == *old(
                    self,
                ),
            },
    {
        match self {
            NodeInfo::Text { text, .. } => {
                *text = new_text;
                Ok(())
            },
            NodeInfo::Fragment { text, .. } => {
                *text = new_text;
                Ok(())
            },
            _ => Err(NodeError::CannotSetText),
        }
    }

    /// The font that the node has worked out.
    pub fn calculated_font(&self) -> (r: Option<FontProp>)
        ensures
            r == self.spec_calculated_font(),
    {
        match self {
            NodeInfo::Root => None,
            NodeInfo::Box { calculated_font, .. } => *calculated_font,
            NodeInfo::Text { calculated_font, .. } => *calculated_font,
            NodeInfo::Fragment { font, .. } => Some(*font),
        }
    }

    /// The place that the node has worked out.
    pub fn calculated_location(&self) -> (r: Option<Location>)
        ensures
            r == self.spec_calculated_location(),
    {
        match self {
            NodeInfo::Root => None,
            NodeInfo::Box { calculated_location: Some(l), .. } => Some(*l),
            NodeInfo::Text { calculated_location: Some(l), .. } => Some(*l),
            NodeInfo::Fragment { calculated_location: Some(l), .. } => Some(*l),
            NodeInfo::Box { style: Some(s), .. } => s.location,
            _ => None,
        }
    }

    /// Works out the font and the place of the node from its style and from
    /// its parent.
    pub fn update_cache(&mut self, parent: &NodeInfo)
        ensures
            *final(self) == old(self).spec_update_cache(*parent),
    {
        let parent_font = font_or_default(parent.calculated_font());
        match self {
            NodeInfo::Root => {},
            NodeInfo::Box { calculated_font, style, calculated_location } => {
                if calculated_font.is_none() {
                    let own = match style {
                        Some(s) => s.font,
                        None => None,
                    };
                    *calculated_font = Some(font_or_default(own).inherits(parent_font));
                }
                if calculated_location.is_none() {
                    *calculated_location = parent.calculated_location();
                }
            },
            NodeInfo::Fragment { font, .. } => {
                *font = parent_font;
            },
            NodeInfo::Text { calculated_font, style, .. } => {
                if calculated_font.is_none() {
                    let own = match style {
                        Some(s) => s.font,
                        None => None,
                    };
                    *calculated_font = Some(font_or_default(own).inherits(parent_font));
                }
            },
        }
    }

    /// Where the text of a node is drawn, given where the node was laid out
    /// and how high: at the place that a text has worked out, else below the
    /// place where it was laid out, by its height; `None` for a node that
    /// holds no text, and where the place does not fit.
    pub fn text_position(&self, x: i32, y: i32, height: i32) -> (r: Option<Location>)
        ensures
            r == (match self {
                NodeInfo::Text { .. } => match self.spec_calculated_location() {
                    Some(p) => Some(p),
                    None => if i32::MIN <= y + height <= i32::MAX {
                        Some(Location { x, y: (y + height) as i32 })
                    } else {
                        None
                    },
                },
                NodeInfo::Fragment { .. } => if i32::MIN <= y + height <= i32::MAX {
                    Some(Location { x, y: (y + height) as i32 })
                } else {
                    None
                },
                _ => None,
            }),
    {
        let below = match y.checked_add(height) {
            Some(sum) => Some(Location { x, y: sum }),
            None => None,
        };
        match self {
            NodeInfo::Text { .. } => match self.calculated_location() {
                Some(p) => Some(p),
                None => below,
            },
            NodeInfo::Fragment { .. } => below,
            _ => None,
        }
    }
}

} // verus!
