//! The arXiv Atom response: the guard against non-feed bodies, and the
//! fold of the document's XML events into raw entries (title, id URL,
//! publication date, abstract, comment, trimmed author names and the
//! distinct category codes, in document order).
//!
//! Tokenizing the XML is quick-xml's work; everything after it is here.

use vstd::prelude::*;

use quick_xml::events::attributes::Attributes;
use quick_xml::events::Event::{Empty, End, Eof, Start, Text};
use quick_xml::Reader;

use crate::models::{ContentType, FeedItem, SignalLevel, SourcePlatform, WorkflowState};
use crate::text::{
    chars_of, contains_chars, contains_seq, find_char, first_index_of, join_strings, join_with,
    split_whitespace, split_ws, string_of, string_of_range, str_eq, to_owned_string, trim, trim_chars,
    views,
};

verus! {

/// One XML event, as plain values: element names as raw bytes, the raw
/// attribute text of an empty element, text already unescaped (`None`
/// where unescaping failed). Declarations, comments, CDATA and the like
/// are `Other`.
pub enum XmlEvent {
    Start(Vec<u8>),
    Empty(Vec<u8>, Vec<u8>),
    Text(Option<String>),
    End(Vec<u8>),
    Other,
}

/// The events quick-xml reads from `xml` (text trimmed) up to the end of
/// the document, or the message of the first reader error.
pub uninterp spec fn atom_xml_events(xml: Seq<char>) -> Result<Seq<XmlEvent>, Seq<char>>;

/// Wrapper of quick-xml's `Reader::from_str` with `trim_text(true)`, read
/// with `read_event` until `Eof`: the events converted one for one into
/// [`XmlEvent`] (names through `name`, an empty element's attributes
/// through `attributes_raw`, text through `unescape`), or the reader
/// error's message. The result is named, not
/// stated: it is a function of `xml` alone.
#[verifier::external_body]
fn xml_events(xml: &str) -> (r: Result<Vec<XmlEvent>, String>)
    ensures
        match r {
            Ok(v) => atom_xml_events(xml@) == Ok::<Seq<XmlEvent>, Seq<char>>(v@),
            Err(e) => atom_xml_events(xml@) == Err::<Seq<XmlEvent>, Seq<char>>(e@),
        },
{
    let mut reader = Reader::from_str(xml);
    reader.config_mut().trim_text(true);
    let mut out = vec![];
    loop {
        out.push(match reader.read_event() {
            Ok(Start(e)) => XmlEvent::Start(e.name().0.to_vec()),
            Ok(Empty(e)) => XmlEvent::Empty(e.name().0.to_vec(), e.attributes_raw().to_vec()),
            Ok(Text(e)) => XmlEvent::Text(e.unescape().ok().map(String::from)),
            Ok(End(e)) => XmlEvent::End(e.name().0.to_vec()),
            Ok(Eof) => return Ok(out),
            Ok(_) => XmlEvent::Other,
            Err(e) => return Err(e.to_string()),
        });
    }
}

/// The attributes quick-xml reads from the raw attribute text `raw` of an
/// element, malformed ones skipped.
pub uninterp spec fn atom_xml_attributes(raw: Seq<char>) -> Seq<(Vec<u8>, Vec<u8>)>;

/// Wrapper of quick-xml's `Attributes::new(raw, 0)`, iterated through
/// `flatten` (malformed attributes skipped): each attribute's key and raw
/// value bytes. The result is named, not stated: it is a function of `raw`
/// alone.
#[verifier::external_body]
fn xml_attributes(raw: &str) -> (r: Vec<(Vec<u8>, Vec<u8>)>)
    ensures
        r@ == atom_xml_attributes(raw@),
{
    Attributes::new(raw, 0).flatten().map(|a| (a.key.0.to_vec(), a.value.to_vec())).collect()
}

/// Wrapper of `std::str::from_utf8`, owned: `Some` exactly when `b` is
/// valid UTF-8, holding the characters it encodes.
#[verifier::external_body]
fn utf8_string(b: &[u8]) -> (r: Option<String>)
    ensures
        r is Some <==> vstd::utf8::valid_utf8(b@),
        r matches Some(s) ==> s@ == vstd::utf8::decode_utf8(b@),
{
    std::str::from_utf8(b).ok().map(String::from)
}

// ── The model ───────────────────────────────────────────────────────────

/// A byte string read as UTF-8, or empty when it is not valid UTF-8.
pub open spec fn name_of(b: Seq<u8>) -> Seq<char> {
    if vstd::utf8::valid_utf8(b) {
        vstd::utf8::decode_utf8(b)
    } else {
        Seq::empty()
    }
}

/// The text of a text event (empty where unescaping failed).
pub open spec fn text_of(t: Option<String>) -> Seq<char> {
    match t {
        Some(s) => s@,
        None => Seq::empty(),
    }
}

/// The values of the `term` attributes that are valid UTF-8, in order.
pub open spec fn term_values(attrs: Seq<(Vec<u8>, Vec<u8>)>) -> Seq<Seq<char>>
    decreases attrs.len(),
{
    if attrs.len() == 0 {
        Seq::empty()
    } else {
        let prev = term_values(attrs.drop_last());
        let a = attrs.last();
        if name_of(a.0@) == "term"@ && vstd::utf8::valid_utf8(a.1@) {
            prev.push(vstd::utf8::decode_utf8(a.1@))
        } else {
            prev
        }
    }
}

/// The `term` values of an empty element whose raw attribute text is
/// `raw` (none when `raw` is not valid UTF-8).
pub open spec fn empty_element_terms(raw: Seq<u8>) -> Seq<Seq<char>> {
    if vstd::utf8::valid_utf8(raw) {
        term_values(atom_xml_attributes(vstd::utf8::decode_utf8(raw)))
    } else {
        Seq::empty()
    }
}

/// `s` up to its first `T` (the date of an ISO timestamp), or all of `s`.
pub open spec fn date_part(s: Seq<char>) -> Seq<char> {
    match first_index_of(s, 'T') {
        Some(i) => s.take(i),
        None => s,
    }
}

/// `s` with every repeat of an earlier element dropped.
pub open spec fn dedup_seq(s: Seq<Seq<char>>) -> Seq<Seq<char>>
    decreases s.len(),
{
    if s.len() == 0 {
        Seq::empty()
    } else {
        let p = dedup_seq(s.drop_last());
        if p.contains(s.last()) {
            p
        } else {
            p.push(s.last())
        }
    }
}

/// One raw entry of the feed.
#[verifier::ext_equal]
pub struct EntryModel {
    pub title: Seq<char>,
    pub url: Seq<char>,
    pub date: Seq<char>,
    pub summary: Seq<char>,
    pub comment: Seq<char>,
    pub authors: Seq<Seq<char>>,
    pub categories: Seq<Seq<char>>,
}

/// The fold's state: where the reader stands, the entry being read, and
/// the entries read so far.
#[verifier::ext_equal]
pub struct AtomModel {
    pub in_entry: bool,
    pub in_author: bool,
    pub tag: Seq<char>,
    pub title: Seq<char>,
    pub url: Seq<char>,
    pub published: Seq<char>,
    pub summary: Seq<char>,
    pub comment: Seq<char>,
    pub authors: Seq<Seq<char>>,
    pub author_name: Seq<char>,
    pub categories: Seq<Seq<char>>,
    pub entries: Seq<EntryModel>,
}

pub open spec fn atom_start() -> AtomModel {
    AtomModel {
        in_entry: false,
        in_author: false,
        tag: Seq::empty(),
        title: Seq::empty(),
        url: Seq::empty(),
        published: Seq::empty(),
        summary: Seq::empty(),
        comment: Seq::empty(),
        authors: Seq::empty(),
        author_name: Seq::empty(),
        categories: Seq::empty(),
        entries: Seq::empty(),
    }
}

/// The entry a closing `</entry>` completes.
pub open spec fn entry_of(m: AtomModel) -> EntryModel {
    EntryModel {
        title: m.title,
        url: m.url,
        date: date_part(m.published),
        summary: m.summary,
        comment: m.comment,
        authors: m.authors,
        categories: dedup_seq(m.categories),
    }
}

/// `m` with the entry accumulators emptied.
pub open spec fn cleared(m: AtomModel) -> AtomModel {
    AtomModel {
        title: Seq::empty(),
        url: Seq::empty(),
        published: Seq::empty(),
        summary: Seq::empty(),
        comment: Seq::empty(),
        authors: Seq::empty(),
        categories: Seq::empty(),
        ..m
    }
}

/// One event applied to the state.
pub open spec fn atom_step(m: AtomModel, ev: XmlEvent) -> AtomModel {
    match ev {
        XmlEvent::Start(n) => {
            let name = name_of(n@);
            let m1 = if name == "entry"@ {
                AtomModel { in_entry: true, ..cleared(m) }
            } else if name == "author"@ && m.in_entry {
                AtomModel { in_author: true, author_name: Seq::empty(), ..m }
            } else {
                m
            };
            AtomModel { tag: name, ..m1 }
        },
        XmlEvent::Empty(n, raw) => if m.in_entry && name_of(n@) == "category"@ {
            AtomModel { categories: m.categories + empty_element_terms(raw@), ..m }
        } else {
            m
        },
        XmlEvent::Text(t) => {
            let text = text_of(t);
            if !m.in_entry {
                m
            } else if m.in_author && m.tag == "name"@ {
                AtomModel { author_name: m.author_name + text, ..m }
            } else if m.tag == "title"@ {
                AtomModel { title: m.title + text, ..m }
            } else if m.tag == "id"@ {
                AtomModel { url: m.url + text, ..m }
            } else if m.tag == "published"@ {
                AtomModel { published: m.published + text, ..m }
            } else if m.tag == "summary"@ {
                AtomModel { summary: m.summary + text, ..m }
            } else if m.tag == "arxiv:comment"@ {
                AtomModel { comment: m.comment + text, ..m }
            } else {
                m
            }
        },
        XmlEvent::End(n) => {
            let name = name_of(n@);
            if m.in_entry && name == "author"@ {
                let a = trim(m.author_name);
                AtomModel {
                    in_author: false,
                    authors: if a.len() > 0 {
                        m.authors.push(a)
                    } else {
                        m.authors
                    },
                    author_name: Seq::empty(),
                    ..m
                }
            } else if m.in_entry && name == "entry"@ {
                AtomModel {
                    in_entry: false,
                    tag: Seq::empty(),
                    entries: m.entries.push(entry_of(m)),
                    ..cleared(m)
                }
            } else {
                m
            }
        },
        XmlEvent::Other => m,
    }
}

/// The state after every event of `evs`.
pub open spec fn atom_fold(evs: Seq<XmlEvent>) -> AtomModel
    decreases evs.len(),
{
    if evs.len() == 0 {
        atom_start()
    } else {
        atom_step(atom_fold(evs.drop_last()), evs.last())
    }
}

// ── Execution ───────────────────────────────────────────────────────────

/// One raw entry of an arXiv Atom feed.
pub struct AtomEntry {
    pub title: String,
    pub url: String,
    /// The `published` timestamp up to its `T`.
    pub date: String,
    pub summary: String,
    pub comment: String,
    pub authors: Vec<String>,
    /// Distinct category codes, in document order.
    pub categories: Vec<String>,
}

impl AtomEntry {
    pub open spec fn model(self) -> EntryModel {
        EntryModel {
            title: self.title@,
            url: self.url@,
            date: self.date@,
            summary: self.summary@,
            comment: self.comment@,
            authors: views(self.authors@),
            categories: views(self.categories@),
        }
    }
}

/// The models of a list of entries.
pub open spec fn entry_models(v: Seq<AtomEntry>) -> Seq<EntryModel> {
    v.map_values(|e: AtomEntry| e.model())
}

struct AtomParser {
    in_entry: bool,
    in_author: bool,
    tag: String,
    title: String,
    url: String,
    published: String,
    summary: String,
    comment: String,
    authors: Vec<String>,
    author_name: String,
    categories: Vec<String>,
    entries: Vec<AtomEntry>,
}

impl View for AtomParser {
    type V = AtomModel;

    closed spec fn view(&self) -> AtomModel {
        AtomModel {
            in_entry: self.in_entry,
            in_author: self.in_author,
            tag: self.tag@,
            title: self.title@,
            url: self.url@,
            published: self.published@,
            summary: self.summary@,
            comment: self.comment@,
            authors: views(self.authors@),
            author_name: self.author_name@,
            categories: views(self.categories@),
            entries: entry_models(self.entries@),
        }
    }
}

/// `b` read as UTF-8, or empty.
fn name_string(b: &Vec<u8>) -> (r: String)
    ensures
        r@ == name_of(b@),
{
    match utf8_string(b.as_slice()) {
        Some(s) => s,
        None => String::new(),
    }
}

/// Whether some element of `v` reads `s`.
fn contains_string(v: &Vec<String>, s: &str) -> (r: bool)
    ensures
        r == views(v@).contains(s@),
{
    let mut i: usize = 0;
    while i < v.len()
        invariant
            i <= v@.len(),
            forall|j: int| 0 <= j < i ==> v@[j]@ != s@,
        decreases v@.len() - i,
    {
        if str_eq(v[i].as_str(), s) {
            assert(views(v@)[i as int] == s@);
            return true;
        }
        i += 1;
    }
    assert forall|j: int| 0 <= j < views(v@).len() implies views(v@)[j] != s@ by {
        assert(views(v@)[j] == v@[j]@);
    }
    false
}

/// The distinct codes of `codes`, first occurrences kept, in order.
fn dedup_strings(codes: &Vec<String>) -> (r: Vec<String>)
    ensures
        views(r@) == dedup_seq(views(codes@)),
{
    let mut r: Vec<String> = Vec::new();
    let n = codes.len();
    let mut i: usize = 0;
    while i < n
        invariant
            n == codes@.len(),
            i <= n,
            views(r@) == dedup_seq(views(codes@).take(i as int)),
        decreases n - i,
    {
        let ghost pre = views(codes@).take(i as int);
        let ghost next = views(codes@).take(i + 1);
        assert(next.drop_last() =~= pre);
        assert(next.last() == codes@[i as int]@);
        if !contains_string(&r, codes[i].as_str()) {
            let ghost before = r@;
            r.push(codes[i].clone());
            assert(views(r@) =~= views(before).push(codes@[i as int]@));
        }
        i += 1;
    }
    assert(views(codes@).take(n as int) =~= views(codes@));
    r
}

/// The values of the `term` attributes that are valid UTF-8, in order.
fn term_strings(attrs: &Vec<(Vec<u8>, Vec<u8>)>) -> (r: Vec<String>)
    ensures
        views(r@) == term_values(attrs@),
{
    let mut r: Vec<String> = Vec::new();
    let n = attrs.len();
    let mut i: usize = 0;
    while i < n
        invariant
            n == attrs@.len(),
            i <= n,
            views(r@) == term_values(attrs@.take(i as int)),
        decreases n - i,
    {
        let ghost pre = attrs@.take(i as int);
        let ghost next = attrs@.take(i + 1);
        assert(next.drop_last() =~= pre);
        assert(next.last() == attrs@[i as int]);
        let key = name_string(&attrs[i].0);
        if str_eq(key.as_str(), "term") {
            match utf8_string(attrs[i].1.as_slice()) {
                Some(v) => {
                    let ghost before = r@;
                    r.push(v);
                    assert(views(r@) =~= views(before).push(r@.last()@));
                },
                None => {},
            }
        }
        i += 1;
    }
    assert(attrs@.take(n as int) =~= attrs@);
    r
}

/// The `term` values of an empty element (see [`empty_element_terms`]).
fn empty_element_term_strings(raw: &Vec<u8>) -> (r: Vec<String>)
    ensures
        views(r@) == empty_element_terms(raw@),
{
    match utf8_string(raw.as_slice()) {
        Some(text) => term_strings(&xml_attributes(text.as_str())),
        None => {
            let r: Vec<String> = Vec::new();
            assert(views(r@) =~= Seq::<Seq<char>>::empty());
            r
        },
    }
}

/// The part of `s` before its first `T`.
fn date_string(s: &String) -> (r: String)
    ensures
        r@ == date_part(s@),
{
    let v = chars_of(s.as_str());
    match find_char(&v, 'T') {
        Some(i) => {
            let r = string_of_range(&v, 0, i);
            assert(v@.subrange(0, i as int) =~= v@.take(i as int));
            r
        },
        None => string_of(&v),
    }
}

impl AtomParser {
    fn new() -> (p: Self)
        ensures
            p@ == atom_start(),
    {
        let p = AtomParser {
            in_entry: false,
            in_author: false,
            tag: String::new(),
            title: String::new(),
            url: String::new(),
            published: String::new(),
            summary: String::new(),
            comment: String::new(),
            authors: Vec::new(),
            author_name: String::new(),
            categories: Vec::new(),
            entries: Vec::new(),
        };
        assert(views(p.authors@) =~= Seq::<Seq<char>>::empty());
        assert(views(p.categories@) =~= Seq::<Seq<char>>::empty());
        assert(entry_models(p.entries@) =~= Seq::<EntryModel>::empty());
        p
    }

    fn clear_entry(&mut self)
        ensures
            final(self)@ == cleared(old(self)@),
    {
        self.title = String::new();
        self.url = String::new();
        self.published = String::new();
        self.summary = String::new();
        self.comment = String::new();
        self.authors = Vec::new();
        self.categories = Vec::new();
        assert(views(self.authors@) =~= Seq::<Seq<char>>::empty());
        assert(views(self.categories@) =~= Seq::<Seq<char>>::empty());
        assert(self@ =~= cleared(old(self)@));
    }

    fn take_entry(&self) -> (e: AtomEntry)
        ensures
            e.model() == entry_of(self@),
    {
        let e = AtomEntry {
            title: self.title.clone(),
            url: self.url.clone(),
            date: date_string(&self.published),
            summary: self.summary.clone(),
            comment: self.comment.clone(),
            authors: copy_strings(&self.authors),
            categories: dedup_strings(&self.categories),
        };
        e
    }

    fn step(&mut self, ev: &XmlEvent)
        ensures
            final(self)@ == atom_step(old(self)@, *ev),
    {
        match ev {
            XmlEvent::Start(n) => {
                let name = name_string(n);
                if str_eq(name.as_str(), "entry") {
                    self.in_entry = true;
                    self.clear_entry();
                } else if str_eq(name.as_str(), "author") && self.in_entry {
                    self.in_author = true;
                    self.author_name = String::new();
                }
                self.tag = name;
                assert(self@ =~= atom_step(old(self)@, *ev));
            },
            XmlEvent::Empty(n, raw) => {
                let name = name_string(n);
                if self.in_entry && str_eq(name.as_str(), "category") {
                    let terms = empty_element_term_strings(raw);
                    let ghost before = self.categories@;
                    let mut i: usize = 0;
                    while i < terms.len()
                        invariant
                            i <= terms@.len(),
                            views(self.categories@) == views(before) + views(terms@).take(i as int),
                            self@ == (AtomModel { categories: self@.categories, ..old(self)@ }),
                        decreases terms@.len() - i,
                    {
                        let ghost b = self.categories@;
                        self.categories.push(terms[i].clone());
                        assert(views(self.categories@) =~= views(b).push(terms@[i as int]@));
                        assert(views(terms@).take(i + 1) =~= views(terms@).take(i as int).push(
                            terms@[i as int]@,
                        ));
                        i += 1;
                    }
                    assert(views(terms@).take(terms@.len() as int) =~= views(terms@));
                }
                assert(self@ =~= atom_step(old(self)@, *ev));
            },
            XmlEvent::Text(t) => {
                if !self.in_entry {
                    return;
                }
                let text = match t {
                    Some(s) => s.as_str(),
                    None => "",
                };
                assert(text@ == text_of(*t)) by {
                    if t.is_none() {
                        assert(text@ =~= Seq::<char>::empty()) by {
                            reveal_strlit("");
                        }
                    }
                }
                if self.in_author && str_eq(self.tag.as_str(), "name") {
                    self.author_name.append(text);
                } else if str_eq(self.tag.as_str(), "title") {
                    self.title.append(text);
                } else if str_eq(self.tag.as_str(), "id") {
                    self.url.append(text);
                } else if str_eq(self.tag.as_str(), "published") {
                    self.published.append(text);
                } else if str_eq(self.tag.as_str(), "summary") {
                    self.summary.append(text);
                } else if str_eq(self.tag.as_str(), "arxiv:comment") {
                    self.comment.append(text);
                }
                assert(self@ =~= atom_step(old(self)@, *ev));
            },
            XmlEvent::End(n) => {
                let name = name_string(n);
                if self.in_entry && str_eq(name.as_str(), "author") {
                    self.in_author = false;
                    let trimmed = trim_chars(&chars_of(self.author_name.as_str()));
                    if trimmed.len() > 0 {
                        let ghost before = self.authors@;
                        self.authors.push(string_of(&trimmed));
                        assert(views(self.authors@) =~= views(before).push(trim(old(self)@.author_name)));
                    }
                    self.author_name = String::new();
                } else if self.in_entry && str_eq(name.as_str(), "entry") {
                    let e = self.take_entry();
                    let ghost before = self.entries@;
                    self.entries.push(e);
                    assert(entry_models(self.entries@) =~= entry_models(before).push(e.model()));
                    self.in_entry = false;
                    self.tag = String::new();
                    self.clear_entry();
                }
                assert(self@ =~= atom_step(old(self)@, *ev));
            },
            XmlEvent::Other => {},
        }
    }
}

fn copy_strings(v: &Vec<String>) -> (r: Vec<String>)
    ensures
        views(r@) == views(v@),
{
    let mut r: Vec<String> = Vec::new();
    let n = v.len();
    let mut i: usize = 0;
    while i < n
        invariant
            n == v@.len(),
            i <= n,
            r@.len() == i,
            forall|j: int| 0 <= j < i ==> (#[trigger] r@[j])@ == v@[j]@,
        decreases n - i,
    {
        r.push(v[i].clone());
        i += 1;
    }
    assert(views(r@) =~= views(v@));
    r
}

/// Fold a document's XML events into its raw entries (see [`atom_step`]).
pub fn fold_atom_events(events: &[XmlEvent]) -> (r: Vec<AtomEntry>)
    ensures
        entry_models(r@) == atom_fold(events@).entries,
{
    let mut p = AtomParser::new();
    let n = events.len();
    let mut i: usize = 0;
    while i < n
        invariant
            n == events@.len(),
            i <= n,
            p@ == atom_fold(events@.take(i as int)),
        decreases n - i,
    {
        let ghost pre = events@.take(i as int);
        let ghost next = events@.take(i + 1);
        assert(next.drop_last() =~= pre);
        assert(next.last() == events@[i as int]);
        p.step(&events[i]);
        i += 1;
    }
    assert(events@.take(n as int) =~= events@);
    proof {
        assert(entry_models(p.entries@) == p@.entries);
    }
    p.entries
}

/// The error for a body that is not an Atom feed.
pub open spec fn non_feed_error(xml: Seq<char>) -> Seq<char> {
    if contains_seq(xml, "Rate exceeded"@) {
        "arXiv rate limit exceeded — try again in a few seconds"@
    } else {
        "unexpected non-Atom response from arXiv"@
    }
}

/// Parse an arXiv API response into its raw entries. A body without a
/// `<feed` element is an error (arXiv throttles with a plain-text
/// "Rate exceeded." body and serves HTML pages for server errors), as is
/// a reader error; a feed without entries is `Ok` and empty.
pub fn parse_atom_entries(xml: &str) -> (r: Result<Vec<AtomEntry>, String>)
    ensures
        !contains_seq(xml@, "<feed"@) ==> (r matches Err(e) && e@ == non_feed_error(xml@)),
        contains_seq(xml@, "<feed"@) ==> match atom_xml_events(xml@) {
            Ok(evs) => r matches Ok(v) && entry_models(v@) == atom_fold(evs).entries,
            Err(m) => r matches Err(e) && e@ == "XML parse error: "@ + m,
        },
{
    let body = chars_of(xml);
    if !contains_chars(&body, &chars_of("<feed")) {
        let reason = if contains_chars(&body, &chars_of("Rate exceeded")) {
            "arXiv rate limit exceeded — try again in a few seconds"
        } else {
            "unexpected non-Atom response from arXiv"
        };
        return Err(to_owned_string(reason));
    }
    match xml_events(xml) {
        Ok(evs) => Ok(fold_atom_events(evs.as_slice())),
        Err(m) => {
            let mut e = to_owned_string("XML parse error: ");
            e.append(m.as_str());
            Err(e)
        },
    }
}

/// `s` with every run of whitespace made one space and the ends trimmed:
/// its whitespace-separated words joined by single spaces.
pub open spec fn collapse_ws(s: Seq<char>) -> Seq<char> {
    join_with(split_ws(s), " "@)
}

/// Executable [`collapse_ws`].
pub fn collapse_whitespace(s: &str) -> (r: String)
    ensures
        r@ == collapse_ws(s@),
{
    let words = split_whitespace(s);
    join_strings(&words, " ")
}

/// The short summary of an arXiv entry: its collapsed abstract, followed
/// by ` [comment]` when the collapsed arXiv comment is not empty (that is
/// where arXiv authors put code and project links).
pub open spec fn summary_with_comment(summary: Seq<char>, comment: Seq<char>) -> Seq<char> {
    let c = collapse_ws(comment);
    if c.len() == 0 {
        collapse_ws(summary)
    } else {
        collapse_ws(summary) + " ["@ + c + "]"@
    }
}

/// The feed item an arXiv entry becomes: a paper of the arXiv source in
/// the Inbox, with its URL as id, the collapsed title, the date part of
/// its timestamp, its authors, its category codes as domain tags, and the
/// summary of [`summary_with_comment`]; no upvotes, repository links,
/// benchmark results or full text yet.
pub open spec fn arxiv_item_matches(item: FeedItem, e: EntryModel) -> bool {
    &&& item.id@ == e.url
    &&& item.url@ == e.url
    &&& item.title@ == collapse_ws(e.title)
    &&& item.source_platform == SourcePlatform::ArXiv
    &&& item.content_type == ContentType::Paper
    &&& views(item.domain_tags@) == e.categories
    &&& item.signal == SignalLevel::Primary
    &&& item.published_at@ == e.date
    &&& views(item.authors@) == e.authors
    &&& item.summary_short@ == summary_with_comment(e.summary, e.comment)
    &&& item.workflow_state == WorkflowState::Inbox
    &&& item.upvote_count == 0
    &&& item.github_repo is None && item.github_owner is None && item.github_repo_name is None
    &&& item.benchmark_results@.len() == 0
    &&& item.full_content is None
    &&& item.source_name@ == "arxiv"@
    &&& item.title_lower@.len() == 0
    &&& item.authors_lower@.len() == 0
}

/// Build the feed item of an arXiv entry (see [`arxiv_item_matches`]).
pub fn arxiv_item(e: &AtomEntry) -> (item: FeedItem)
    ensures
        arxiv_item_matches(item, e.model()),
{
    let title = collapse_whitespace(e.title.as_str());
    let mut summary_short = collapse_whitespace(e.summary.as_str());
    let comment = collapse_whitespace(e.comment.as_str());
    if !comment.as_str().is_empty() {
        summary_short.append(" [");
        summary_short.append(comment.as_str());
        summary_short.append("]");
    }
    proof {
        reveal_strlit("arxiv");
    }
    FeedItem {
        id: to_owned_string(e.url.as_str()),
        title,
        source_platform: SourcePlatform::ArXiv,
        content_type: ContentType::Paper,
        domain_tags: copy_strings(&e.categories),
        signal: SignalLevel::Primary,
        published_at: to_owned_string(e.date.as_str()),
        authors: copy_strings(&e.authors),
        summary_short,
        workflow_state: WorkflowState::Inbox,
        url: to_owned_string(e.url.as_str()),
        upvote_count: 0,
        github_repo: None,
        github_owner: None,
        github_repo_name: None,
        benchmark_results: Vec::new(),
        full_content: None,
        source_name: to_owned_string("arxiv"),
        title_lower: String::new(),
        authors_lower: Vec::new(),
    }
}

/// `acc` with `x` appended unless it is already there.
pub open spec fn push_new(acc: Seq<Seq<char>>, x: Seq<char>) -> Seq<Seq<char>> {
    if acc.contains(x) {
        acc
    } else {
        acc.push(x)
    }
}

/// `acc` with each of `xs`, in order, appended unless already there.
pub open spec fn add_new(acc: Seq<Seq<char>>, xs: Seq<Seq<char>>) -> Seq<Seq<char>>
    decreases xs.len(),
{
    if xs.len() == 0 {
        acc
    } else {
        push_new(add_new(acc, xs.drop_last()), xs.last())
    }
}

/// The labels that are present, in order.
pub open spec fn present_labels(labels: Seq<Option<String>>) -> Seq<Seq<char>>
    decreases labels.len(),
{
    if labels.len() == 0 {
        Seq::empty()
    } else {
        let prev = present_labels(labels.drop_last());
        match labels.last() {
            Some(l) => prev.push(l@),
            None => prev,
        }
    }
}

/// The domain tags of a completed arXiv item: its category codes, then
/// the category labels, then the detected subtopics, each kept once, in
/// first-seen order.
pub open spec fn completed_tags(
    codes: Seq<Seq<char>>,
    labels: Seq<Option<String>>,
    subtopics: Seq<Seq<char>>,
) -> Seq<Seq<char>> {
    add_new(add_new(add_new(Seq::empty(), codes), present_labels(labels)), subtopics)
}

fn contains_view(v: &Vec<String>, x: &str) -> (r: bool)
    ensures
        r == views(v@).contains(x@),
{
    let mut i: usize = 0;
    while i < v.len()
        invariant
            i <= v@.len(),
            forall|j: int| 0 <= j < i ==> v@[j]@ != x@,
        decreases v@.len() - i,
    {
        if str_eq(v[i].as_str(), x) {
            assert(views(v@)[i as int] == x@);
            return true;
        }
        i += 1;
    }
    assert forall|j: int| 0 <= j < views(v@).len() implies views(v@)[j] != x@ by {
        assert(views(v@)[j] == v@[j]@);
    }
    false
}

fn push_if_new(acc: &mut Vec<String>, x: &str)
    ensures
        views(final(acc)@) == push_new(views(old(acc)@), x@),
{
    if !contains_view(acc, x) {
        let ghost before = views(acc@);
        acc.push(to_owned_string(x));
        assert(views(acc@) =~= before.push(x@));
    }
}

fn add_new_strings(acc: &mut Vec<String>, xs: &[String])
    ensures
        views(final(acc)@) == add_new(views(old(acc)@), views(xs@)),
{
    let ghost start = views(acc@);
    let mut i: usize = 0;
    while i < xs.len()
        invariant
            i <= xs@.len(),
            views(acc@) == add_new(start, views(xs@).take(i as int)),
        decreases xs@.len() - i,
    {
        proof {
            assert(views(xs@).take(i + 1).drop_last() =~= views(xs@).take(i as int));
            assert(views(xs@).take(i + 1).last() == xs@[i as int]@);
        }
        push_if_new(acc, xs[i].as_str());
        i += 1;
    }
    assert(views(xs@).take(xs@.len() as int) =~= views(xs@));
}

/// Complete an arXiv item with what the rest of ingestion derives for it:
/// `labels` holds, per category code of the item, its human-readable label
/// if it has one; `subtopics` the subtopics detected in its title and
/// summary; `signal` the signal level computed for it. The domain tags
/// become [`completed_tags`] and the signal `signal`; nothing else changes.
pub fn complete_arxiv_item(
    item: FeedItem,
    labels: &[Option<String>],
    subtopics: &[String],
    signal: SignalLevel,
) -> (r: FeedItem)
    ensures
        views(r.domain_tags@) == completed_tags(views(item.domain_tags@), labels@, views(subtopics@)),
        r == (FeedItem { domain_tags: r.domain_tags, signal, ..item }),
{
    let mut item = item;
    let mut tags: Vec<String> = Vec::new();
    assert(views(tags@) =~= Seq::<Seq<char>>::empty());
    add_new_strings(&mut tags, item.domain_tags.as_slice());
    let ghost after_codes = views(tags@);
    let mut i: usize = 0;
    while i < labels.len()
        invariant
            i <= labels@.len(),
            views(tags@) == add_new(after_codes, present_labels(labels@.take(i as int))),
        decreases labels@.len() - i,
    {
        proof {
            assert(labels@.take(i + 1).drop_last() =~= labels@.take(i as int));
            assert(labels@.take(i + 1).last() == labels@[i as int]);
        }
        let ghost pl = present_labels(labels@.take(i as int));
        match &labels[i] {
            Some(l) => {
                push_if_new(&mut tags, l.as_str());
                proof {
                    assert(present_labels(labels@.take(i + 1)) == pl.push(l@));
                    assert(pl.push(l@).drop_last() =~= pl);
                }
            },
            None => {
                assert(present_labels(labels@.take(i + 1)) == pl);
            },
        }
        i += 1;
    }
    assert(labels@.take(labels@.len() as int) =~= labels@);
    add_new_strings(&mut tags, subtopics);
    item.domain_tags = tags;
    item.signal = signal;
    item
}

/// Parse an arXiv API response into feed items, one per entry in document
/// order (see [`parse_atom_entries`] for the errors and
/// [`arxiv_item`] for each item).
pub fn parse_atom(xml: &str) -> (r: Result<Vec<FeedItem>, String>)
    ensures
        !contains_seq(xml@, "<feed"@) ==> (r matches Err(e) && e@ == non_feed_error(xml@)),
        contains_seq(xml@, "<feed"@) ==> match atom_xml_events(xml@) {
            Ok(evs) => r matches Ok(v) && v@.len() == atom_fold(evs).entries.len() && forall|i: int|
                0 <= i < v@.len() ==> arxiv_item_matches(#[trigger] v@[i], atom_fold(evs).entries[i]),
            Err(m) => r matches Err(e) && e@ == "XML parse error: "@ + m,
        },
{
    match parse_atom_entries(xml) {
        Ok(entries) => {
            let ghost ms = entry_models(entries@);
            let mut items: Vec<FeedItem> = Vec::new();
            let mut i: usize = 0;
            while i < entries.len()
                invariant
                    i <= entries@.len(),
                    ms == entry_models(entries@),
                    items@.len() == i,
                    forall|j: int| 0 <= j < i ==> arxiv_item_matches(#[trigger] items@[j], ms[j]),
                decreases entries@.len() - i,
            {
                items.push(arxiv_item(&entries[i]));
                i += 1;
            }
            Ok(items)
        },
        Err(e) => Err(e),
    }
}

} // verus!
