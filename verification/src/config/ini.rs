//! The format of the configuration file.
//!
//! The format is that of an INI file, with these liberties: pairs of key and
//! value may stand before the first section; a section name and a key may
//! occur more than once; a line may hold only a comment, which starts at a
//! `;`; and the header of a section may name several sections, separated by
//! `+`, and may run over several lines.

use crate::text::{
    find_char, lemma_find_char_bounds, spec_find_char, spec_trim, spec_trim_end, spec_trim_start, trim_range,
};
use vstd::prelude::*;

verus! {

/// Why a configuration file was not read.
#[derive(Debug)]
pub enum Error {
    /// The text is no configuration file; with the reason.
    ParseError(String),
}

/// A key and its value.
#[derive(Debug)]
pub struct KeyValue {
    /// The key.
    pub key: String,
    /// The value.
    pub value: String,
}

/// The pairs of key and value of a section, in the order of the file.
#[derive(Debug)]
pub struct Section {
    entries: Vec<KeyValue>,
}

/// A configuration file: the pairs before the first section, and the
/// sections under their names, in the order of the file.
#[derive(Debug)]
pub struct Ini {
    root: Section,
    sections: Vec<(String, Section)>,
}

/// What a configuration file holds.
#[verifier::ext_equal]
pub struct IniView {
    /// The pairs before the first section.
    pub root: Seq<(Seq<char>, Seq<char>)>,
    /// The sections under their names.
    pub sections: Seq<(Seq<char>, Seq<(Seq<char>, Seq<char>)>)>,
}

impl View for KeyValue {
    type V = (Seq<char>, Seq<char>);

    open spec fn view(&self) -> (Seq<char>, Seq<char>) {
        (self.key@, self.value@)
    }
}

impl View for Section {
    type V = Seq<(Seq<char>, Seq<char>)>;

    closed spec fn view(&self) -> Seq<(Seq<char>, Seq<char>)> {
        Seq::new(self.entries@.len(), |i: int| self.entries@[i]@)
    }
}

/// The names and the contents of a list of sections.
pub open spec fn spec_sections(sections: Seq<(String, Section)>) -> Seq<
    (Seq<char>, Seq<(Seq<char>, Seq<char>)>),
> {
    Seq::new(sections.len(), |i: int| (sections[i].0@, sections[i].1@))
}

impl View for Ini {
    type V = IniView;

    closed spec fn view(&self) -> IniView {
        IniView { root: self.root@, sections: spec_sections(self.sections@) }
    }
}

impl KeyValue {
    /// A copy of the pair.
    pub fn duplicate(&self) -> (r: KeyValue)
        ensures
            r@ == self@,
    {
        KeyValue { key: self.key.clone(), value: self.value.clone() }
    }
}

impl Section {
    /// A section without pairs.
    pub fn new() -> (r: Section)
        ensures
            r@ == Seq::<(Seq<char>, Seq<char>)>::empty(),
    {
        let r = Section { entries: Vec::new() };
        assert(r@ =~= Seq::<(Seq<char>, Seq<char>)>::empty());
        r
    }

    /// Appends a pair.
    pub fn push(&mut self, key: &str, value: &str)
        ensures
            final(self)@ == old(self)@.push((key@, value@)),
    {
        self.entries.push(KeyValue { key: String::from_str(key), value: String::from_str(value) });
        assert(self@ =~= old(self)@.push((key@, value@)));
    }

    /// The pairs, in the order of the file.
    pub fn entries(&self) -> (r: &[KeyValue])
        ensures
            r@.len() == self@.len(),
            forall|i: int| 0 <= i < r@.len() ==> (#[trigger] r@[i])@ == self@[i],
    {
        self.entries.as_slice()
    }

    /// A copy of the section.
    pub fn duplicate(&self) -> (r: Section)
        ensures
            r@ == self@,
    {
        let mut entries: Vec<KeyValue> = Vec::new();
        let mut i: usize = 0;
        while i < self.entries.len()
            invariant
                i <= self.entries@.len(),
                entries@.len() == i,
                forall|j: int| 0 <= j < i ==> entries@[j]@ == self.entries@[j]@,
            decreases self.entries.len() - i,
        {
            entries.push(self.entries[i].duplicate());
            i = i + 1;
        }
        let r = Section { entries };
        assert(r@ =~= self@);
        r
    }
}

impl Ini {
    /// The sections under their names, in the order of the file; the pairs
    /// before the first section are not among them.
    pub fn sections(&self) -> (r: &[(String, Section)])
        ensures
            spec_sections(r@) == self@.sections,
    {
        self.sections.as_slice()
    }

    /// The pairs before the first section.
    pub fn root(&self) -> (r: &Section)
        ensures
            r@ == self@.root,
    {
        &self.root
    }
}

/// The state of the parser: the pairs before the first section, the sections
/// that are closed, and the section that is open.
pub struct ParseState {
    /// The pairs before the first section.
    pub root: Seq<(Seq<char>, Seq<char>)>,
    /// The sections that are closed.
    pub sections: Seq<(Seq<char>, Seq<(Seq<char>, Seq<char>)>)>,
    /// The header and the pairs of the section that is open.
    pub current: Option<(Seq<char>, Seq<(Seq<char>, Seq<char>)>)>,
}

/// The start of a parse: nothing has been read.
pub open spec fn spec_initial() -> ParseState {
    ParseState { root: Seq::empty(), sections: Seq::empty(), current: None }
}

/// The end of the line that holds position `pos`.
pub open spec fn spec_line_end(s: Seq<char>, pos: int) -> int {
    spec_find_char(s, '\n', pos)
}

/// The end of what the line at `pos` holds before its comment.
pub open spec fn spec_content_end(s: Seq<char>, pos: int) -> int {
    let e = spec_line_end(s, pos);
    let c = spec_find_char(s, ';', pos);
    if c < e {
        c
    } else {
        e
    }
}

/// The names that the header of a section stands for: its parts between
/// `+`, each without the white space around it.
pub open spec fn spec_split_names(header: Seq<char>, from: int) -> Seq<Seq<char>>
    decreases header.len() - from,
{
    let p = spec_find_char(header, '+', from);
    if from < 0 || p < from || p >= header.len() {
        seq![spec_trim(header, from, header.len() as int)]
    } else {
        seq![spec_trim(header, from, p)] + spec_split_names(header, p + 1)
    }
}

/// The sections once the open section is closed: it is added once under each
/// of the names of its header.
pub open spec fn spec_close(st: ParseState) -> Seq<(Seq<char>, Seq<(Seq<char>, Seq<char>)>)> {
    match st.current {
        None => st.sections,
        Some((header, entries)) => st.sections + Seq::new(
            spec_split_names(header, 0).len(),
            |i: int| (spec_split_names(header, 0)[i], entries),
        ),
    }
}

/// The state with one more pair, in the open section or, where none is open,
/// before the first section.
pub open spec fn spec_add(st: ParseState, key: Seq<char>, value: Seq<char>) -> ParseState {
    match st.current {
        None => ParseState { root: st.root.push((key, value)), ..st },
        Some((header, entries)) => ParseState {
            current: Some((header, entries.push((key, value)))),
            ..st
        },
    }
}

/// What parsing a text from position `pos` on gives, in state `st`.
///
/// A line that holds nothing but white space and a comment is skipped. A
/// text that starts with `[` opens a section: the header runs up to the next
/// `]`, and the character after the `]` is skipped. Any other line holds a
/// key, a `=` and a value, and the parse goes on at the end of the line.
pub open spec fn spec_parse_from(s: Seq<char>, pos: int, st: ParseState) -> Result<
    IniView,
    Seq<char>,
>
    decreases s.len() - pos,
    via spec_parse_from_decreases
{
    if pos < 0 || pos >= s.len() {
        Ok(IniView { root: st.root, sections: spec_close(st) })
    } else {
        let e = spec_line_end(s, pos);
        let c = spec_content_end(s, pos);
        let a = spec_trim_start(s, pos, c);
        let b = spec_trim_end(s, a, c);
        if a >= b {
            spec_parse_from(
                s,
                if e < s.len() {
                    e + 1
                } else {
                    s.len() as int
                },
                st,
            )
        } else if s[pos] == '[' {
            let close = spec_find_char(s, ']', pos + 1);
            if close >= s.len() {
                Err("Category not closed: "@ + s.subrange(pos + 1, s.len() as int))
            } else {
                spec_parse_from(
                    s,
                    if close + 2 <= s.len() {
                        close + 2
                    } else {
                        s.len() as int
                    },
                    ParseState {
                        root: st.root,
                        sections: spec_close(st),
                        current: Some((spec_trim(s, pos + 1, close), Seq::empty())),
                    },
                )
            }
        } else {
            let eq = spec_find_char(s, '=', a);
            if eq < b {
                spec_parse_from(s, e, spec_add(st, spec_trim(s, a, eq), spec_trim(s, eq + 1, b)))
            } else {
                Err("Invalid line: "@ + s.subrange(a, b))
            }
        }
    }
}

/// The ends of a trimmed part lie within the part.
pub proof fn lemma_trim_bounds(s: Seq<char>, from: int, to: int)
    requires
        from <= to,
    ensures
        from <= spec_trim_start(s, from, to) <= to,
        from <= spec_trim_end(s, from, to) <= to,
    decreases to - from,
{
    if from < to {
        lemma_trim_bounds(s, from + 1, to);
        lemma_trim_bounds(s, from, to - 1);
    }
}

#[via_fn]
proof fn spec_parse_from_decreases(s: Seq<char>, pos: int, st: ParseState) {
    if 0 <= pos < s.len() {
        lemma_find_char_bounds(s, '\n', pos);
        lemma_find_char_bounds(s, ';', pos);
        lemma_find_char_bounds(s, ']', pos + 1);
        let c = spec_content_end(s, pos);
        lemma_trim_bounds(s, pos, c);
        let a = spec_trim_start(s, pos, c);
        lemma_trim_bounds(s, a, c);
    }
}

/// What parsing a text gives.
pub open spec fn spec_parse(s: Seq<char>) -> Result<IniView, Seq<char>> {
    spec_parse_from(s, 0, spec_initial())
}

fn split_names(header: &str, section: &Section, sections: &mut Vec<(String, Section)>)
    ensures
        spec_sections(final(sections)@) == spec_sections(old(sections)@) + Seq::new(
            spec_split_names(header@, 0).len(),
            |i: int| (spec_split_names(header@, 0)[i], section@),
        ),
{
    let n = header.unicode_len();
    let mut from: usize = 0;
    let ghost all = spec_split_names(header@, 0);
    let ghost before = spec_sections(sections@);
    let ghost mut done: Seq<Seq<char>> = Seq::empty();
    loop
        invariant
            from <= n,
            n == header@.len(),
            all == spec_split_names(header@, 0),
            before == spec_sections(old(sections)@),
            all == done + spec_split_names(header@, from as int),
            spec_sections(sections@) == before + Seq::new(done.len(), |i: int| (done[i], section@)),
        decreases n - from,
    {
        let p = find_char(header, '+', from);
        let ghost rest = spec_split_names(header@, from as int);
        let ghost prev = spec_sections(sections@);
        if p >= n {
            let (a, b) = trim_range(header, from, n);
            let name = header.substring_char(a, b);
            sections.push((String::from_str(name), section.duplicate()));
            proof {
                let part = spec_trim(header@, from as int, n as int);
                assert(rest =~= seq![part]);
                assert(all =~= done.push(part));
                assert(spec_sections(sections@) =~= prev.push((part, section@)));
                assert(spec_sections(sections@) =~= before + Seq::new(
                    spec_split_names(header@, 0).len(),
                    |i: int| (spec_split_names(header@, 0)[i], section@),
                ));
            }
            return ;
        }
        let (a, b) = trim_range(header, from, p);
        let name = header.substring_char(a, b);
        sections.push((String::from_str(name), section.duplicate()));
        proof {
            let part = spec_trim(header@, from as int, p as int);
            assert(rest =~= seq![part] + spec_split_names(header@, p as int + 1));
            assert(spec_sections(sections@) =~= prev.push((part, section@)));
            assert(all =~= done.push(part) + spec_split_names(header@, p as int + 1));
            assert(spec_sections(sections@) =~= before + Seq::new(
                done.push(part).len(),
                |i: int| (done.push(part)[i], section@),
            ));
            done = done.push(part);
        }
        from = p + 1;
    }
}

/// Reads a configuration file.
pub fn parse(input: &str) -> (r: Result<Ini, Error>)
    ensures
        match r {
            Ok(ini) => spec_parse(input@) == Ok::<IniView, Seq<char>>(ini@),
            Err(Error::ParseError(message)) => spec_parse(input@) == Err::<IniView, Seq<char>>(
                message@,
            ),
        },
{
    let n = input.unicode_len();
    let mut root = Section::new();
    let mut sections: Vec<(String, Section)> = Vec::new();
    let mut current: Option<(String, Section)> = None;
    let mut pos: usize = 0;
    let ghost mut st = spec_initial();
    assert(spec_sections(sections@) =~= st.sections);
    while pos < n
        invariant
            pos <= n,
            n == input@.len(),
            root@ == st.root,
            spec_sections(sections@) == st.sections,
            match current {
                Some((header, section)) => st.current == Some((header@, section@)),
                None => st.current.is_none(),
            },
            spec_parse_from(input@, pos as int, st) == spec_parse(input@),
        decreases n - pos,
    {
        proof {
            lemma_find_char_bounds(input@, '\n', pos as int);
            lemma_find_char_bounds(input@, ';', pos as int);
        }
        let e = find_char(input, '\n', pos);
        let semi = find_char(input, ';', pos);
        let c = if semi < e {
            semi
        } else {
            e
        };
        let (a, b) = trim_range(input, pos, c);
        if a >= b {
            pos = if e < n {
                e + 1
            } else {
                n
            };
        } else if input.get_char(pos) == '[' {
            let close = find_char(input, ']', pos + 1);
            if close >= n {
                let mut message = String::from_str("Category not closed: ");
                message.append(input.substring_char(pos + 1, n));
                return Err(Error::ParseError(message));
            }
            let ghost closed = spec_close(st);
            if let Some((header, section)) = current.take() {
                split_names(header.as_str(), &section, &mut sections);
            }
            assert(spec_sections(sections@) =~= closed);
            let (na, nb) = trim_range(input, pos + 1, close);
            let name = input.substring_char(na, nb);
            current = Some((String::from_str(name), Section::new()));
            proof {
                st = ParseState {
                    root: st.root,
                    sections: closed,
                    current: Some((spec_trim(input@, pos as int + 1, close as int), Seq::empty())),
                };
            }
            pos = if close + 1 < n {
                close + 2
            } else {
                n
            };
        } else {
            let eq = find_char(input, '=', a);
            if eq < b {
                let (ka, kb) = trim_range(input, a, eq);
                let (va, vb) = trim_range(input, eq + 1, b);
                let key = input.substring_char(ka, kb);
                let value = input.substring_char(va, vb);
                match &mut current {
                    Some((_, section)) => {
                        section.push(key, value);
                    },
                    None => {
                        root.push(key, value);
                    },
                }
                proof {
                    st = spec_add(st, key@, value@);
                }
                pos = e;
            } else {
                let mut message = String::from_str("Invalid line: ");
                message.append(input.substring_char(a, b));
                return Err(Error::ParseError(message));
            }
        }
    }
    let ghost closed = spec_close(st);
    if let Some((header, section)) = current.take() {
        split_names(header.as_str(), &section, &mut sections);
    }
    assert(spec_sections(sections@) =~= closed);
    Ok(Ini { root, sections })
}

/// A text without characters is a configuration file without pairs and
/// without sections.
pub proof fn law_parse_empty()
    ensures
        spec_parse(Seq::<char>::empty()) == Ok::<IniView, Seq<char>>(
            IniView { root: Seq::empty(), sections: Seq::empty() },
        ),
{
}

} // verus!
