//! The configuration file as JSON text.
//!
//! The pairs of a section are grouped by key, with the keys in order and the
//! values of a key in the order of the file. Keys are then renamed by their
//! aliases, and a key that holds no list keeps only its last value. The
//! pairs before the first section are not written.

use super::ini::{spec_sections, Ini, IniView, Section};
use crate::text::{
    debug_str, lemma_str_lt_irreflexive, lemma_str_lt_total, lemma_str_lt_transitive, pop_char,
    spec_debug_str, spec_pop, spec_str_lt, str_eq, str_lt,
};
use vstd::prelude::*;

verus! {

/// How the keys of a configuration file are written as JSON.
#[derive(Debug)]
pub struct JsonRules {
    /// The keys whose values are written as they stand; the values of every
    /// other key are written as strings.
    pub raw: Vec<String>,
    /// The keys that hold a list of values.
    pub seq: Vec<String>,
    /// Keys that stand for another key, each with the key it stands for.
    pub aliases: Vec<(String, String)>,
}

/// What the rules hold.
pub struct JsonRulesView {
    /// The keys whose values are written as they stand.
    pub raw: Seq<Seq<char>>,
    /// The keys that hold a list of values.
    pub seq: Seq<Seq<char>>,
    /// Keys that stand for another key, each with the key it stands for.
    pub aliases: Seq<(Seq<char>, Seq<char>)>,
}

impl View for JsonRules {
    type V = JsonRulesView;

    open spec fn view(&self) -> JsonRulesView {
        JsonRulesView {
            raw: self.raw.deep_view(),
            seq: self.seq.deep_view(),
            aliases: self.aliases.deep_view(),
        }
    }
}

/// The first position from `i` on whose key does not come before `k`.
pub open spec fn spec_position(m: Seq<(Seq<char>, Seq<Seq<char>>)>, k: Seq<char>, i: int) -> int
    decreases m.len() - i,
{
    if i < 0 || i >= m.len() {
        m.len() as int
    } else if spec_str_lt(m[i].0, k) {
        spec_position(m, k, i + 1)
    } else {
        i
    }
}

/// The groups with one more value under a key: appended to the values of the
/// key where it has a group, else in a new group at the place of the key.
pub open spec fn spec_add_value(
    m: Seq<(Seq<char>, Seq<Seq<char>>)>,
    k: Seq<char>,
    v: Seq<char>,
) -> Seq<(Seq<char>, Seq<Seq<char>>)> {
    let p = spec_position(m, k, 0);
    if p < m.len() && m[p].0 == k {
        m.update(p, (k, m[p].1.push(v)))
    } else {
        m.insert(p, (k, seq![v]))
    }
}

/// The groups with the values of a key set: in place of the values of the
/// key where it has a group, else in a new group at the place of the key.
pub open spec fn spec_set_values(
    m: Seq<(Seq<char>, Seq<Seq<char>>)>,
    k: Seq<char>,
    vs: Seq<Seq<char>>,
) -> Seq<(Seq<char>, Seq<Seq<char>>)> {
    let p = spec_position(m, k, 0);
    if p < m.len() && m[p].0 == k {
        m.update(p, (k, vs))
    } else {
        m.insert(p, (k, vs))
    }
}

/// The pairs of a section grouped by key.
pub open spec fn spec_group(entries: Seq<(Seq<char>, Seq<char>)>) -> Seq<
    (Seq<char>, Seq<Seq<char>>),
>
    decreases entries.len(),
{
    if entries.len() == 0 {
        Seq::empty()
    } else {
        spec_add_value(spec_group(entries.drop_last()), entries.last().0, entries.last().1)
    }
}

/// The key that a key stands for: that of its first alias from `i` on, or
/// the key itself.
pub open spec fn spec_alias(aliases: Seq<(Seq<char>, Seq<char>)>, k: Seq<char>, i: int) -> Seq<
    char,
>
    decreases aliases.len() - i,
{
    if i < 0 || i >= aliases.len() {
        k
    } else if aliases[i].0 == k {
        aliases[i].1
    } else {
        spec_alias(aliases, k, i + 1)
    }
}

/// The first `n` groups with their keys renamed by the aliases; where two
/// keys become one, the values of the later group stay.
pub open spec fn spec_rename(
    m: Seq<(Seq<char>, Seq<Seq<char>>)>,
    aliases: Seq<(Seq<char>, Seq<char>)>,
    n: int,
) -> Seq<(Seq<char>, Seq<Seq<char>>)>
    decreases n,
{
    if n <= 0 || n > m.len() {
        Seq::empty()
    } else {
        spec_set_values(
            spec_rename(m, aliases, n - 1),
            spec_alias(aliases, m[n - 1].0, 0),
            m[n - 1].1,
        )
    }
}

/// The groups with only the last value left under each key that holds no
/// list.
pub open spec fn spec_dedupe(m: Seq<(Seq<char>, Seq<Seq<char>>)>, seq: Seq<Seq<char>>) -> Seq<
    (Seq<char>, Seq<Seq<char>>),
> {
    Seq::new(
        m.len(),
        |i: int|
            if seq.contains(m[i].0) || m[i].1.len() == 0 {
                m[i]
            } else {
                (m[i].0, seq![m[i].1.last()])
            },
    )
}

/// The groups of a section as they are written.
pub open spec fn spec_prepare(entries: Seq<(Seq<char>, Seq<char>)>, rules: JsonRulesView) -> Seq<
    (Seq<char>, Seq<Seq<char>>),
> {
    let grouped = spec_group(entries);
    spec_dedupe(spec_rename(grouped, rules.aliases, grouped.len() as int), rules.seq)
}

/// A value as it is written: as it stands, or as a string.
pub open spec fn spec_value_text(raw: bool, v: Seq<char>) -> Seq<char> {
    if raw {
        v
    } else {
        spec_debug_str(v)
    }
}

/// The values of a key as they are written.
pub open spec fn spec_value_texts(raw: bool, values: Seq<Seq<char>>) -> Seq<Seq<char>> {
    Seq::new(values.len(), |i: int| spec_value_text(raw, values[i]))
}

/// The first `n` items of a list as they are written, given each item as it
/// is written: an item that is written as a string is followed by a comma.
pub open spec fn spec_items(raw: bool, texts: Seq<Seq<char>>, n: int) -> Seq<char>
    decreases n,
{
    if n <= 0 || n > texts.len() {
        Seq::empty()
    } else {
        spec_items(raw, texts, n - 1) + texts[n - 1] + (if raw {
            Seq::<char>::empty()
        } else {
            ","@
        })
    }
}

/// The text with one more key written after it, given the values of the key
/// as they are written: the key between quotes, a colon, the first value or,
/// for a key that holds a list, the items of the list between brackets
/// without their last character, and a comma.
pub open spec fn spec_emit_texts(
    acc: Seq<char>,
    key: Seq<char>,
    is_seq: bool,
    raw: bool,
    texts: Seq<Seq<char>>,
) -> Seq<char> {
    let head = acc + "\""@ + key + "\":"@;
    if is_seq {
        spec_pop(head + "["@ + spec_items(raw, texts, texts.len() as int)) + "]"@ + ","@
    } else if texts.len() > 0 {
        head + texts[0] + ","@
    } else {
        head + ","@
    }
}

/// The text with one more key written after it.
pub open spec fn spec_emit_entry(
    acc: Seq<char>,
    rules: JsonRulesView,
    key: Seq<char>,
    values: Seq<Seq<char>>,
) -> Seq<char> {
    spec_emit_texts(
        acc,
        key,
        rules.seq.contains(key),
        rules.raw.contains(key),
        spec_value_texts(rules.raw.contains(key), values),
    )
}

/// The first `n` groups as they are written.
pub open spec fn spec_emit_all(
    rules: JsonRulesView,
    m: Seq<(Seq<char>, Seq<Seq<char>>)>,
    n: int,
) -> Seq<char>
    decreases n,
{
    if n <= 0 || n > m.len() {
        Seq::empty()
    } else {
        spec_emit_entry(spec_emit_all(rules, m, n - 1), rules, m[n - 1].0, m[n - 1].1)
    }
}

/// A section as it is written: its keys in order, each followed by a comma.
pub open spec fn spec_section_json(
    entries: Seq<(Seq<char>, Seq<char>)>,
    rules: JsonRulesView,
) -> Seq<char> {
    let m = spec_prepare(entries, rules);
    spec_emit_all(rules, m, m.len() as int)
}

/// The text of the first `n` sections: after an opening brace and a space,
/// each section under its name between braces, followed by a comma.
pub open spec fn spec_sections_json(
    sections: Seq<(Seq<char>, Seq<(Seq<char>, Seq<char>)>)>,
    rules: JsonRulesView,
    n: int,
) -> Seq<char>
    decreases n,
{
    if n <= 0 || n > sections.len() {
        "{ "@
    } else {
        spec_pop(
            spec_sections_json(sections, rules, n - 1) + "\""@ + sections[n - 1].0 + "\":{ "@
                + spec_section_json(sections[n - 1].1, rules),
        ) + "},"@
    }
}

/// A configuration file as JSON text.
pub open spec fn spec_to_json(ini: IniView, rules: JsonRulesView) -> Seq<char> {
    spec_pop(spec_sections_json(ini.sections, rules, ini.sections.len() as int)) + "}"@
}

fn contains(list: &Vec<String>, key: &str) -> (r: bool)
    ensures
        r == list.deep_view().contains(key@),
{
    let mut i: usize = 0;
    while i < list.len()
        invariant
            i <= list@.len(),
            forall|j: int| 0 <= j < i ==> list.deep_view()[j] != key@,
        decreases list.len() - i,
    {
        if str_eq(list[i].as_str(), key) {
            assert(list.deep_view()[i as int] == key@);
            return true;
        }
        i = i + 1;
    }
    false
}

fn position(m: &Vec<(String, Vec<String>)>, k: &str) -> (r: usize)
    ensures
        r as int == spec_position(m.deep_view(), k@, 0),
        r <= m@.len(),
{
    let mut i: usize = 0;
    while i < m.len()
        invariant
            i <= m@.len(),
            spec_position(m.deep_view(), k@, 0) == spec_position(m.deep_view(), k@, i as int),
        decreases m.len() - i,
    {
        assert(m.deep_view()[i as int].0 == m@[i as int].0@);
        if !str_lt(m[i].0.as_str(), k) {
            return i;
        }
        i = i + 1;
    }
    i
}

fn add_value(m: &mut Vec<(String, Vec<String>)>, k: &str, v: &str)
    ensures
        final(m).deep_view() == spec_add_value(old(m).deep_view(), k@, v@),
{
    let p = position(m, k);
    let ghost before = m.deep_view();
    if p < m.len() {
        assert(m.deep_view()[p as int].0 == m@[p as int].0@);
        assert(m.deep_view()[p as int].1 == m@[p as int].1.deep_view());
    }
    if p < m.len() && str_eq(m[p].0.as_str(), k) {
        let (key, values) = m.remove(p);
        let mut values = values;
        let ghost old_values = values.deep_view();
        values.push(String::from_str(v));
        assert(values.deep_view() =~= old_values.push(v@));
        m.insert(p, (key, values));
        assert(m.deep_view() =~= before.update(p as int, (k@, before[p as int].1.push(v@))));
    } else {
        let mut values: Vec<String> = Vec::new();
        values.push(String::from_str(v));
        assert(values.deep_view() =~= seq![v@]);
        m.insert(p, (String::from_str(k), values));
        assert(m.deep_view() =~= before.insert(p as int, (k@, seq![v@])));
    }
}

fn set_values(m: &mut Vec<(String, Vec<String>)>, k: String, vs: Vec<String>)
    ensures
        final(m).deep_view() == spec_set_values(old(m).deep_view(), k@, vs.deep_view()),
{
    let p = position(m, k.as_str());
    let ghost before = m.deep_view();
    if p < m.len() {
        assert(m.deep_view()[p as int].0 == m@[p as int].0@);
    }
    if p < m.len() && str_eq(m[p].0.as_str(), k.as_str()) {
        let _ = m.remove(p);
        m.insert(p, (k, vs));
        assert(m.deep_view() =~= before.update(p as int, (k@, vs.deep_view())));
    } else {
        m.insert(p, (k, vs));
        assert(m.deep_view() =~= before.insert(p as int, (k@, vs.deep_view())));
    }
}

/// The values of a key as they are written: as they stand, or as strings.
pub fn value_texts(raw: bool, values: &Vec<String>) -> (r: Vec<String>)
    ensures
        r.deep_view() == spec_value_texts(raw, values.deep_view()),
{
    let mut r: Vec<String> = Vec::new();
    let mut i: usize = 0;
    while i < values.len()
        invariant
            i <= values@.len(),
            r@.len() == i,
            forall|j: int| 0 <= j < i ==> r@[j]@ == spec_value_text(raw, values@[j]@),
        decreases values.len() - i,
    {
        let text = if raw {
            values[i].clone()
        } else {
            debug_str(values[i].as_str())
        };
        r.push(text);
        i = i + 1;
    }
    assert(r.deep_view() =~= spec_value_texts(raw, values.deep_view()));
    r
}

/// Writes one more key after a text, given the values of the key as they are
/// written.
pub fn emit_texts(json: &mut String, key: &str, is_seq: bool, raw: bool, texts: &Vec<String>)
    ensures
        final(json)@ == spec_emit_texts(old(json)@, key@, is_seq, raw, texts.deep_view()),
{
    json.append("\"");
    json.append(key);
    json.append("\":");
    if is_seq {
        json.append("[");
        let ghost open = json@;
        let mut i: usize = 0;
        while i < texts.len()
            invariant
                i <= texts@.len(),
                json@ == open + spec_items(raw, texts.deep_view(), i as int),
            decreases texts.len() - i,
        {
            assert(texts.deep_view()[i as int] == texts@[i as int]@);
            json.append(texts[i].as_str());
            if !raw {
                json.append(",");
            }
            i = i + 1;
            assert(json@ =~= open + spec_items(raw, texts.deep_view(), i as int));
        }
        pop_char(json);
        json.append("]");
        json.append(",");
    } else if texts.len() > 0 {
        assert(texts.deep_view()[0] == texts@[0]@);
        json.append(texts[0].as_str());
        json.append(",");
    } else {
        json.append(",");
    }
}

impl Section {
    /// The pairs grouped by key: the keys in order, each with its values in
    /// the order of the file.
    pub fn entries_seq(&self) -> (r: Vec<(String, Vec<String>)>)
        ensures
            r.deep_view() == spec_group(self@),
    {
        let entries = self.entries();
        let mut m: Vec<(String, Vec<String>)> = Vec::new();
        let mut i: usize = 0;
        assert(self@.take(0) =~= Seq::<(Seq<char>, Seq<char>)>::empty());
        assert(m.deep_view() =~= spec_group(self@.take(0)));
        while i < entries.len()
            invariant
                i <= entries@.len(),
                entries@.len() == self@.len(),
                forall|j: int| 0 <= j < entries@.len() ==> (#[trigger] entries@[j])@ == self@[j],
                m.deep_view() == spec_group(self@.take(i as int)),
            decreases entries.len() - i,
        {
            let e = &entries[i];
            add_value(&mut m, e.key.as_str(), e.value.as_str());
            i = i + 1;
            proof {
                assert(self@.take(i as int).drop_last() =~= self@.take(i as int - 1));
                assert(self@.take(i as int).last() == entries@[i as int - 1]@);
            }
        }
        assert(self@.take(entries@.len() as int) =~= self@);
        m
    }
}

impl JsonRules {
    /// The key that a key stands for.
    pub fn alias(&self, key: &str) -> (r: String)
        ensures
            r@ == spec_alias(self@.aliases, key@, 0),
    {
        let mut i: usize = 0;
        while i < self.aliases.len()
            invariant
                i <= self.aliases@.len(),
                spec_alias(self@.aliases, key@, 0) == spec_alias(self@.aliases, key@, i as int),
            decreases self.aliases.len() - i,
        {
            assert(self@.aliases[i as int].0 == self.aliases@[i as int].0@);
            assert(self@.aliases[i as int].1 == self.aliases@[i as int].1@);
            if str_eq(self.aliases[i].0.as_str(), key) {
                return self.aliases[i].1.clone();
            }
            i = i + 1;
        }
        String::from_str(key)
    }

    /// Whether the values of a key are written as they stand.
    pub fn is_raw(&self, key: &str) -> (r: bool)
        ensures
            r == self@.raw.contains(key@),
    {
        contains(&self.raw, key)
    }

    /// Whether a key holds a list of values.
    pub fn is_seq(&self, key: &str) -> (r: bool)
        ensures
            r == self@.seq.contains(key@),
    {
        contains(&self.seq, key)
    }

    fn prepare(&self, section: &Section) -> (r: Vec<(String, Vec<String>)>)
        ensures
            r.deep_view() == spec_prepare(section@, self@),
    {
        let grouped = section.entries_seq();
        let ghost g = grouped.deep_view();
        let mut renamed: Vec<(String, Vec<String>)> = Vec::new();
        let mut i: usize = 0;
        assert(renamed.deep_view() =~= spec_rename(g, self@.aliases, 0));
        while i < grouped.len()
            invariant
                i <= grouped@.len(),
                g == grouped.deep_view(),
                renamed.deep_view() == spec_rename(g, self@.aliases, i as int),
            decreases grouped.len() - i,
        {
            assert(g[i as int].0 == grouped@[i as int].0@);
            assert(g[i as int].1 == grouped@[i as int].1.deep_view());
            let key = self.alias(grouped[i].0.as_str());
            let values = crate::config::clone_strings(&grouped[i].1);
            set_values(&mut renamed, key, values);
            i = i + 1;
        }
        let ghost m = renamed.deep_view();
        let mut out: Vec<(String, Vec<String>)> = Vec::new();
        let mut j: usize = 0;
        while j < renamed.len()
            invariant
                j <= renamed@.len(),
                m == renamed.deep_view(),
                out@.len() == j,
                forall|k: int| 0 <= k < j ==> out.deep_view()[k] == spec_dedupe(m, self@.seq)[k],
            decreases renamed.len() - j,
        {
            assert(m[j as int].0 == renamed@[j as int].0@);
            assert(m[j as int].1 == renamed@[j as int].1.deep_view());
            let key = renamed[j].0.clone();
            let values = &renamed[j].1;
            let kept = if self.is_seq(key.as_str()) || values.len() == 0 {
                crate::config::clone_strings(values)
            } else {
                let mut last: Vec<String> = Vec::new();
                last.push(values[values.len() - 1].clone());
                assert(last.deep_view() =~= seq![m[j as int].1.last()]);
                last
            };
            let ghost prev = out.deep_view();
            let ghost item = (key@, kept.deep_view());
            assert(item == spec_dedupe(m, self@.seq)[j as int]);
            out.push((key, kept));
            assert(out.deep_view() =~= prev.push(item));
            j = j + 1;
        }
        assert(out.deep_view() =~= spec_dedupe(m, self@.seq));
        out
    }

    fn emit_entry(&self, json: &mut String, key: &str, values: &Vec<String>)
        ensures
            final(json)@ == spec_emit_entry(old(json)@, self@, key@, values.deep_view()),
    {
        let raw = self.is_raw(key);
        let texts = value_texts(raw, values);
        emit_texts(json, key, self.is_seq(key), raw, &texts);
    }

    /// A section as JSON text: its keys in order, each followed by a comma.
    pub fn section_json(&self, section: &Section) -> (r: String)
        ensures
            r@ == spec_section_json(section@, self@),
    {
        let m = self.prepare(section);
        let mut json = String::new();
        let mut i: usize = 0;
        while i < m.len()
            invariant
                i <= m@.len(),
                json@ == spec_emit_all(self@, m.deep_view(), i as int),
            decreases m.len() - i,
        {
            assert(m.deep_view()[i as int].0 == m@[i as int].0@);
            assert(m.deep_view()[i as int].1 == m@[i as int].1.deep_view());
            self.emit_entry(&mut json, m[i].0.as_str(), &m[i].1);
            i = i + 1;
        }
        json
    }
}

impl Ini {
    /// The configuration file as JSON text: an object with one member for
    /// each section, under the name of the section.
    pub fn to_json_string(&self, rules: &JsonRules) -> (r: String)
        ensures
            r@ == spec_to_json(self@, rules@),
    {
        let sections = self.sections();
        let ghost all = self@.sections;
        let mut json = String::from_str("{ ");
        let mut i: usize = 0;
        while i < sections.len()
            invariant
                i <= sections@.len(),
                all == spec_sections(sections@),
                json@ == spec_sections_json(all, rules@, i as int),
            decreases sections.len() - i,
        {
            assert(all[i as int] == (sections@[i as int].0@, sections@[i as int].1@));
            json.append("\"");
            json.append(sections[i].0.as_str());
            json.append("\":{ ");
            let body = rules.section_json(&sections[i].1);
            json.append(body.as_str());
            pop_char(&mut json);
            json.append("},");
            i = i + 1;
        }
        pop_char(&mut json);
        json.append("}");
        json
    }
}

/// Whether the keys of the groups stand in order, each before the next.
pub open spec fn spec_sorted(m: Seq<(Seq<char>, Seq<Seq<char>>)>) -> bool {
    forall|i: int, j: int| 0 <= i < j < m.len() ==> spec_str_lt(m[i].0, m[j].0)
}

proof fn lemma_position(m: Seq<(Seq<char>, Seq<Seq<char>>)>, k: Seq<char>, i: int)
    requires
        0 <= i <= m.len(),
    ensures
        i <= spec_position(m, k, i) <= m.len(),
        forall|j: int| i <= j < spec_position(m, k, i) ==> spec_str_lt(m[j].0, k),
        spec_position(m, k, i) < m.len() ==> !spec_str_lt(m[spec_position(m, k, i)].0, k),
    decreases m.len() - i,
{
    if i < m.len() && spec_str_lt(m[i].0, k) {
        lemma_position(m, k, i + 1);
    }
}

proof fn lemma_sorted_put(
    m: Seq<(Seq<char>, Seq<Seq<char>>)>,
    k: Seq<char>,
    vs: Seq<Seq<char>>,
)
    requires
        spec_sorted(m),
    ensures
        ({
            let p = spec_position(m, k, 0);
            &&& p < m.len() && m[p].0 == k ==> spec_sorted(m.update(p, (k, vs)))
            &&& !(p < m.len() && m[p].0 == k) ==> spec_sorted(m.insert(p, (k, vs)))
        }),
{
    let p = spec_position(m, k, 0);
    lemma_position(m, k, 0);
    if p < m.len() && m[p].0 == k {
    } else {
        let t = m.insert(p, (k, vs));
        if p < m.len() {
            lemma_str_lt_total(m[p].0, k, 0);
        }
        assert forall|i: int, j: int| 0 <= i < j < t.len() implies spec_str_lt(t[i].0, t[j].0) by {
            if j == p {
                assert(t[i] == m[i]);
            } else if i == p {
                assert(t[j] == m[j - 1]);
                if j - 1 > p {
                    assert(spec_str_lt(m[p].0, m[j - 1].0));
                    lemma_str_lt_transitive(k, m[p].0, m[j - 1].0, 0);
                }
            } else if i < p && j < p {
                assert(t[i] == m[i] && t[j] == m[j]);
            } else if i < p {
                assert(t[i] == m[i] && t[j] == m[j - 1]);
            } else {
                assert(t[i] == m[i - 1] && t[j] == m[j - 1]);
            }
        }
    }
}

proof fn lemma_group_sorted(entries: Seq<(Seq<char>, Seq<char>)>)
    ensures
        spec_sorted(spec_group(entries)),
    decreases entries.len(),
{
    if entries.len() > 0 {
        lemma_group_sorted(entries.drop_last());
        let m = spec_group(entries.drop_last());
        let p = spec_position(m, entries.last().0, 0);
        lemma_position(m, entries.last().0, 0);
        if p < m.len() && m[p].0 == entries.last().0 {
            lemma_sorted_put(m, entries.last().0, m[p].1.push(entries.last().1));
        } else {
            lemma_sorted_put(m, entries.last().0, seq![entries.last().1]);
        }
    }
}

proof fn lemma_rename_sorted(
    m: Seq<(Seq<char>, Seq<Seq<char>>)>,
    aliases: Seq<(Seq<char>, Seq<char>)>,
    n: int,
)
    ensures
        spec_sorted(spec_rename(m, aliases, n)),
    decreases n,
{
    if 0 < n <= m.len() {
        lemma_rename_sorted(m, aliases, n - 1);
        lemma_sorted_put(spec_rename(m, aliases, n - 1), spec_alias(aliases, m[n - 1].0, 0), m[n - 1].1);
    }
}

/// The keys of a section are written in order and each but once: among the
/// groups of a section as they are written, every key comes before the keys
/// that follow it, and so differs from them.
pub proof fn law_keys_in_order(entries: Seq<(Seq<char>, Seq<char>)>, rules: JsonRulesView)
    ensures
        spec_sorted(spec_group(entries)),
        spec_sorted(spec_prepare(entries, rules)),
        forall|i: int, j: int|
            0 <= i < j < spec_prepare(entries, rules).len() ==> spec_prepare(entries, rules)[i].0
                != spec_prepare(entries, rules)[j].0,
{
    lemma_group_sorted(entries);
    let g = spec_group(entries);
    lemma_rename_sorted(g, rules.aliases, g.len() as int);
    let r = spec_rename(g, rules.aliases, g.len() as int);
    let d = spec_dedupe(r, rules.seq);
    assert forall|i: int, j: int| 0 <= i < j < d.len() implies spec_str_lt(d[i].0, d[j].0) by {
        assert(d[i].0 == r[i].0 && d[j].0 == r[j].0);
    }
    assert forall|i: int, j: int| 0 <= i < j < d.len() implies d[i].0 != d[j].0 by {
        assert(spec_str_lt(d[i].0, d[j].0));
        lemma_str_lt_irreflexive(d[i].0, 0);
    }
}

/// The values that the pairs of a section give to a key, in the order of
/// the pairs.
pub open spec fn spec_values_of(entries: Seq<(Seq<char>, Seq<char>)>, k: Seq<char>) -> Seq<
    Seq<char>,
>
    decreases entries.len(),
{
    if entries.len() == 0 {
        Seq::empty()
    } else if entries.last().0 == k {
        spec_values_of(entries.drop_last(), k).push(entries.last().1)
    } else {
        spec_values_of(entries.drop_last(), k)
    }
}

/// Whether one of the groups is that of a key.
pub open spec fn spec_has_key(m: Seq<(Seq<char>, Seq<Seq<char>>)>, k: Seq<char>) -> bool {
    exists|i: int| 0 <= i < m.len() && (#[trigger] m[i]).0 == k
}

proof fn lemma_values_of_none(entries: Seq<(Seq<char>, Seq<char>)>, k: Seq<char>)
    requires
        forall|j: int| 0 <= j < entries.len() ==> (#[trigger] entries[j]).0 != k,
    ensures
        spec_values_of(entries, k).len() == 0,
    decreases entries.len(),
{
    if entries.len() > 0 {
        assert(entries.last() == entries[entries.len() - 1]);
        assert forall|j: int| 0 <= j < entries.drop_last().len() implies (
        #[trigger] entries.drop_last()[j]).0 != k by {
            assert(entries.drop_last()[j] == entries[j]);
        }
        lemma_values_of_none(entries.drop_last(), k);
    }
}

proof fn lemma_group_content(entries: Seq<(Seq<char>, Seq<char>)>)
    ensures
        spec_sorted(spec_group(entries)),
        forall|i: int|
            0 <= i < spec_group(entries).len() ==> (#[trigger] spec_group(entries)[i]).1
                == spec_values_of(entries, spec_group(entries)[i].0) && spec_group(
                entries,
            )[i].1.len() > 0,
        forall|j: int|
            0 <= j < entries.len() ==> spec_has_key(spec_group(entries), (#[trigger] entries[j]).0),
    decreases entries.len(),
{
    lemma_group_sorted(entries);
    if entries.len() > 0 {
        let prev = entries.drop_last();
        let m = spec_group(prev);
        let k = entries.last().0;
        let v = entries.last().1;
        let g = spec_group(entries);
        let p = spec_position(m, k, 0);
        lemma_group_content(prev);
        lemma_position(m, k, 0);
        assert forall|i: int| 0 <= i < m.len() && i != p implies (#[trigger] m[i]).0 != k by {
            if i < p {
                assert(spec_str_lt(m[i].0, k));
                lemma_str_lt_irreflexive(k, 0);
            } else {
                assert(spec_str_lt(m[p].0, m[i].0));
            }
        }
        if p < m.len() && m[p].0 == k {
            assert(g == m.update(p, (k, m[p].1.push(v))));
            assert forall|i: int| 0 <= i < g.len() implies (#[trigger] g[i]).1 == spec_values_of(
                entries,
                g[i].0,
            ) && g[i].1.len() > 0 by {
                if i != p {
                    assert(g[i] == m[i]);
                }
            }
            assert forall|j: int| 0 <= j < entries.len() implies spec_has_key(
                g,
                (#[trigger] entries[j]).0,
            ) by {
                if j < entries.len() - 1 {
                    assert(prev[j] == entries[j]);
                    let i = choose|i: int| 0 <= i < m.len() && (#[trigger] m[i]).0 == prev[j].0;
                    assert(g[i].0 == m[i].0);
                } else {
                    assert(g[p].0 == k);
                }
            }
        } else {
            assert(g == m.insert(p, (k, seq![v])));
            assert(!spec_has_key(m, k));
            assert forall|j: int| 0 <= j < prev.len() implies (#[trigger] prev[j]).0 != k by {
                assert(spec_has_key(m, prev[j].0));
            }
            lemma_values_of_none(prev, k);
            assert(spec_values_of(entries, k) =~= seq![v]);
            assert forall|i: int| 0 <= i < g.len() implies (#[trigger] g[i]).1 == spec_values_of(
                entries,
                g[i].0,
            ) && g[i].1.len() > 0 by {
                if i < p {
                    assert(g[i] == m[i]);
                } else if i > p {
                    assert(g[i] == m[i - 1]);
                }
            }
            assert forall|j: int| 0 <= j < entries.len() implies spec_has_key(
                g,
                (#[trigger] entries[j]).0,
            ) by {
                if j < entries.len() - 1 {
                    assert(prev[j] == entries[j]);
                    let i = choose|i: int| 0 <= i < m.len() && (#[trigger] m[i]).0 == prev[j].0;
                    if i < p {
                        assert(g[i] == m[i]);
                    } else {
                        assert(g[i + 1] == m[i]);
                    }
                } else {
                    assert(g[p].0 == k);
                }
            }
        }
    }
}

/// Grouping the pairs of a section gives, for every key that a pair has, one
/// group, and no other group; the group of a key holds the values that the
/// pairs give to the key, in the order of the pairs; and the groups stand in
/// the order of their keys.
pub proof fn law_group_by_key(entries: Seq<(Seq<char>, Seq<char>)>)
    ensures
        spec_sorted(spec_group(entries)),
        forall|i: int, j: int|
            0 <= i < j < spec_group(entries).len() ==> spec_group(entries)[i].0 != spec_group(
                entries,
            )[j].0,
        forall|i: int|
            0 <= i < spec_group(entries).len() ==> (#[trigger] spec_group(entries)[i]).1
                == spec_values_of(entries, spec_group(entries)[i].0) && spec_group(
                entries,
            )[i].1.len() > 0,
        forall|j: int|
            0 <= j < entries.len() ==> spec_has_key(spec_group(entries), (#[trigger] entries[j]).0),
{
    lemma_group_content(entries);
    let g = spec_group(entries);
    assert forall|i: int, j: int| 0 <= i < j < g.len() implies g[i].0 != g[j].0 by {
        assert(spec_str_lt(g[i].0, g[j].0));
        lemma_str_lt_irreflexive(g[i].0, 0);
    }
}

} // verus!
