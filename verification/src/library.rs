//! Browsing the public model library: the page address, the models read
//! from the page's links (deduplicated, filtered by a search term, capped),
//! and the shortening of long descriptions.

use vstd::prelude::*;
use vstd::utf8::{decode_utf8, encode_utf8, is_char_boundary};
use vstd::string::StringSliceAdditionalSpecFns;
use scraper::{Html, Selector};
use crate::text::{
    chars_of, concat2, contains, contains_seq, has_prefix, lowercase, str_eq, string_of_range,
    to_lowercase, trim, trimmed,
};

verus! {

/// Why a library listing was refused.
#[derive(Debug, Clone, Copy, PartialEq, Eq, Structural)]
pub enum LibraryError {
    /// The sort order is neither "popular" nor "newest".
    InvalidSort,
}

impl LibraryError {
    pub fn message(&self) -> (s: String)
        ensures
            s@ == "Sort must be 'popular' or 'newest'"@,
    {
        "Sort must be 'popular' or 'newest'".to_string()
    }
}

/// The address of the library page for the sort order `sort`.
pub fn library_url(sort: &str) -> (r: Result<String, LibraryError>)
    ensures
        sort@ == "newest"@ ==> (r matches Ok(u) && u@ == "https://ollama.com/library?sort=newest"@),
        sort@ == "popular"@ ==> (r matches Ok(u) && u@ == "https://ollama.com/library"@),
        sort@ != "newest"@ && sort@ != "popular"@ ==> r == Err::<String, LibraryError>(
            LibraryError::InvalidSort,
        ),
{
    proof {
        reveal_strlit("newest");
        reveal_strlit("popular");
        assert("newest"@.len() != "popular"@.len());
    }
    if str_eq(sort, "newest") {
        Ok("https://ollama.com/library?sort=newest".to_string())
    } else if str_eq(sort, "popular") {
        Ok("https://ollama.com/library".to_string())
    } else {
        Err(LibraryError::InvalidSort)
    }
}

/// One link of the library page to a model page, with the text found in it.
pub struct LibraryEntry {
    /// The link target, such as `/library/llama3`.
    pub href: String,
    /// The text of the link's first paragraph.
    pub description: String,
    /// The texts of the link's size tags.
    pub sizes: Vec<String>,
    /// The texts of the link's capability tags.
    pub capabilities: Vec<String>,
}

pub open spec fn strings_view(v: Seq<String>) -> Seq<Seq<char>> {
    v.map_values(|s: String| s@)
}

pub type EntryView = (Seq<char>, Seq<char>, Seq<Seq<char>>, Seq<Seq<char>>);

impl LibraryEntry {
    pub open spec fn view(&self) -> EntryView {
        (self.href@, self.description@, strings_view(self.sizes@), strings_view(self.capabilities@))
    }
}

pub open spec fn entries_view(v: Seq<LibraryEntry>) -> Seq<EntryView> {
    v.map_values(|e: LibraryEntry| e.view())
}

/// The model links that the HTML parser (scraper) finds in the page `html`:
/// the elements that match `a[href^='/library/']`, in document order.
pub uninterp spec fn library_links(html: Seq<char>) -> Seq<EntryView>;

/// Parses `html` with scraper's `Html::parse_document`, selects the links
/// `a[href^='/library/']` and, for each, reads its `href` (empty where it
/// has none), the text of its first `p` (empty where there is none) and the
/// texts of its `[x-test-size]` and `[x-test-capability]` elements. The
/// contract names the outcome and says nothing more of it.
#[verifier::external_body]
fn parse_library_page(html: &str) -> (r: Vec<LibraryEntry>)
    ensures
        entries_view(r@) == library_links(html@),
{
    let doc = Html::parse_document(html);
    let link = Selector::parse("a[href^='/library/']").unwrap();
    let p = Selector::parse("p").unwrap();
    let size = Selector::parse("[x-test-size]").unwrap();
    let cap = Selector::parse("[x-test-capability]").unwrap();
    doc.select(&link).map(|el| LibraryEntry {
        href: el.attr("href").unwrap_or_default().to_string(),
        description: el.select(&p).next().map(|d| d.text().collect()).unwrap_or_default(),
        sizes: el.select(&size).map(|t| t.text().collect()).collect(),
        capabilities: el.select(&cap).map(|t| t.text().collect()).collect(),
    }).collect()
}

/// A model listed by the library.
pub struct LibraryModel {
    pub name: String,
    pub description: String,
    pub sizes: Vec<String>,
    pub capabilities: Vec<String>,
}

pub type ModelView = (Seq<char>, Seq<char>, Seq<Seq<char>>, Seq<Seq<char>>);

impl LibraryModel {
    pub open spec fn view(&self) -> ModelView {
        (self.name@, self.description@, strings_view(self.sizes@), strings_view(self.capabilities@))
    }
}

pub open spec fn models_view(v: Seq<LibraryModel>) -> Seq<ModelView> {
    v.map_values(|m: LibraryModel| m.view())
}

/// The model name of a link target: what follows `/library/`.
pub open spec fn link_name(href: Seq<char>) -> Seq<char> {
    if has_prefix(href, "/library/"@) {
        href.subrange(9, href.len() as int)
    } else {
        href
    }
}

/// The tags with surrounding blanks removed, the empty ones left out.
pub open spec fn clean_tags(tags: Seq<Seq<char>>) -> Seq<Seq<char>>
    decreases tags.len(),
{
    if tags.len() == 0 {
        seq![]
    } else {
        let prev = clean_tags(tags.drop_last());
        if trim(tags.last()).len() > 0 {
            prev.push(trim(tags.last()))
        } else {
            prev
        }
    }
}

/// Whether the model name `name` matches the search term `query`, ignoring case.
pub open spec fn matches_query(name: Seq<char>, query: Option<Seq<char>>) -> bool {
    match query {
        Some(q) => contains_seq(lowercase(name), lowercase(q)),
        None => true,
    }
}

/// The models listed so far and the names seen so far, after the links `es`.
pub open spec fn listing(es: Seq<EntryView>, query: Option<Seq<char>>, limit: nat) -> (
    Seq<ModelView>,
    Seq<Seq<char>>,
)
    decreases es.len(),
{
    if es.len() == 0 {
        (seq![], seq![])
    } else {
        let (out, seen) = listing(es.drop_last(), query, limit);
        let e = es.last();
        let name = link_name(e.0);
        if out.len() >= limit || name.len() == 0 || name.contains('/') || seen.contains(name) {
            (out, seen)
        } else if !matches_query(name, query) {
            (out, seen.push(name))
        } else {
            (out.push((name, trim(e.1), clean_tags(e.2), clean_tags(e.3))), seen.push(name))
        }
    }
}

/// The models that the library page lists for the links `es`: each link's
/// name once, in page order, the links whose name is empty or has a `/`
/// left out, those that do not match `query` left out, at most `limit` of them.
pub open spec fn library_listing(es: Seq<EntryView>, query: Option<Seq<char>>, limit: nat) -> Seq<
    ModelView,
> {
    listing(es, query, limit).0
}

proof fn lemma_listing(es: Seq<EntryView>, query: Option<Seq<char>>, limit: nat)
    ensures
        listing(es, query, limit).0.len() <= limit,
        forall|k: int|
            0 <= k < listing(es, query, limit).0.len() ==> {
                let name = #[trigger] listing(es, query, limit).0[k].0;
                &&& listing(es, query, limit).1.contains(name)
                &&& name.len() > 0
                &&& !name.contains('/')
                &&& matches_query(name, query)
            },
        forall|j: int, k: int|
            0 <= j < k < listing(es, query, limit).0.len() ==> listing(es, query, limit).0[j].0
                != listing(es, query, limit).0[k].0,
    decreases es.len(),
{
    if es.len() > 0 {
        lemma_listing(es.drop_last(), query, limit);
        let (out, seen) = listing(es.drop_last(), query, limit);
        let name = link_name(es.last().0);
        let (out2, seen2) = listing(es, query, limit);
        assert forall|k: int| 0 <= k < out2.len() implies seen2.contains(#[trigger] out2[k].0) by {
            if k < out.len() {
                assert(out2[k] == out[k]);
                assert(seen.contains(out[k].0));
                if seen2 != seen {
                    assert(seen2 == seen.push(name));
                    let w = choose|w: int| 0 <= w < seen.len() && seen[w] == out[k].0;
                    assert(seen2[w] == out[k].0);
                }
            } else {
                assert(seen2 == seen.push(name));
                assert(seen2[seen.len() as int] == name);
            }
        }
        assert forall|j: int, k: int| 0 <= j < k < out2.len() implies out2[j].0 != out2[k].0 by {
            if k >= out.len() {
                assert(out2[k].0 == name);
                assert(!seen.contains(name));
                assert(out2[j] == out[j]);
                assert(seen.contains(out[j].0));
            } else {
                assert(out2[j] == out[j] && out2[k] == out[k]);
            }
        }
    }
}

/// The library listing names each model once, at most `limit` of them,
/// never with an empty name or a `/` in it, and only names that match the
/// search term.
pub proof fn law_library_listing(es: Seq<EntryView>, query: Option<Seq<char>>, limit: nat)
    ensures
        library_listing(es, query, limit).len() <= limit,
        forall|k: int|
            0 <= k < library_listing(es, query, limit).len() ==> {
                let name = #[trigger] library_listing(es, query, limit)[k].0;
                &&& name.len() > 0
                &&& !name.contains('/')
                &&& matches_query(name, query)
            },
        forall|j: int, k: int|
            0 <= j < k < library_listing(es, query, limit).len() ==> library_listing(
                es,
                query,
                limit,
            )[j].0 != library_listing(es, query, limit)[k].0,
{
    lemma_listing(es, query, limit);
}

/// The model name of the link at position `j`.
pub open spec fn name_at(es: Seq<EntryView>, j: int) -> Seq<char> {
    link_name(es[j].0)
}

/// Whether one of the first `i` links names the model `n`.
pub open spec fn named_before(es: Seq<EntryView>, n: Seq<char>, i: int) -> bool {
    exists|j: int| 0 <= j < i && #[trigger] name_at(es, j) == n
}

/// A name that can be listed: not empty and without a `/`.
pub open spec fn listable_name(n: Seq<char>) -> bool {
    n.len() > 0 && !n.contains('/')
}

/// The model a link describes.
pub open spec fn entry_model(e: EntryView) -> ModelView {
    (link_name(e.0), trim(e.1), clean_tags(e.2), clean_tags(e.3))
}

/// Every model of the page that matches `query`, in page order: the first
/// link of each listable name, where that name matches.
pub open spec fn matching_models(es: Seq<EntryView>, query: Option<Seq<char>>) -> Seq<ModelView>
    decreases es.len(),
{
    if es.len() == 0 {
        seq![]
    } else {
        let prev = matching_models(es.drop_last(), query);
        let i = es.len() - 1;
        let n = name_at(es, i);
        if listable_name(n) && matches_query(n, query) && !named_before(es, n, i) {
            prev.push(entry_model(es[i]))
        } else {
            prev
        }
    }
}

proof fn lemma_named_before_prefix(es: Seq<EntryView>, n: Seq<char>)
    requires
        es.len() > 0,
    ensures
        named_before(es, n, es.len() - 1) == named_before(es.drop_last(), n, es.len() - 1),
        named_before(es, n, es.len() as int) == (named_before(es, n, es.len() - 1) || name_at(
            es,
            es.len() - 1,
        ) == n),
{
    let es0 = es.drop_last();
    let i = es.len() - 1;
    if named_before(es, n, i) {
        let j = choose|j: int| 0 <= j < i && #[trigger] name_at(es, j) == n;
        assert(name_at(es0, j) == name_at(es, j));
    }
    if named_before(es0, n, i) {
        let j = choose|j: int| 0 <= j < i && #[trigger] name_at(es0, j) == n;
        assert(name_at(es0, j) == name_at(es, j));
    }
    if named_before(es, n, es.len() as int) && !named_before(es, n, i) {
        let j = choose|j: int| 0 <= j < es.len() && #[trigger] name_at(es, j) == n;
        assert(j == i);
    }
    if name_at(es, i) == n {
        assert(name_at(es, i) == n);
    }
}

proof fn lemma_listing_complete(es: Seq<EntryView>, query: Option<Seq<char>>, limit: nat)
    ensures
        listing(es, query, limit).0.len() == (if matching_models(es, query).len() < limit {
            matching_models(es, query).len()
        } else {
            limit
        }),
        listing(es, query, limit).0 == matching_models(es, query).take(
            listing(es, query, limit).0.len() as int,
        ),
        listing(es, query, limit).0.len() < limit ==> forall|n: Seq<char>|
            listable_name(n) ==> (#[trigger] listing(es, query, limit).1.contains(n)
                <==> named_before(es, n, es.len() as int)),
    decreases es.len(),
{
    let (out, seen) = listing(es, query, limit);
    let c = matching_models(es, query);
    if es.len() == 0 {
        assert(c.take(0) =~= seq![]);
        assert forall|n: Seq<char>| listable_name(n) implies (#[trigger] seen.contains(n)
            <==> named_before(es, n, 0)) by {}
    } else {
        let es0 = es.drop_last();
        let i = es.len() - 1;
        lemma_listing_complete(es0, query, limit);
        let (out0, seen0) = listing(es0, query, limit);
        let c0 = matching_models(es0, query);
        let name = link_name(es.last().0);
        assert(name == name_at(es, i));
        lemma_named_before_prefix(es, name);
        assert(named_before(es0, name, i) == named_before(es, name, i));
        if out0.len() >= limit {
            assert(out == out0);
            assert(c0.len() >= limit);
            assert(c.take(limit as int) =~= c0.take(limit as int));
        } else {
            assert(out0 =~= c0);
            if !listable_name(name) {
                assert(out == out0 && seen == seen0 && c == c0);
                assert(c.take(c.len() as int) =~= c);
                assert forall|n: Seq<char>| listable_name(n) implies (#[trigger] seen.contains(n)
                    <==> named_before(es, n, es.len() as int)) by {
                    lemma_named_before_prefix(es, n);
                }
            } else if seen0.contains(name) {
                assert(named_before(es0, name, i));
                assert(out == out0 && seen == seen0 && c == c0);
                assert(c.take(c.len() as int) =~= c);
                assert forall|n: Seq<char>| listable_name(n) implies (#[trigger] seen.contains(n)
                    <==> named_before(es, n, es.len() as int)) by {
                    lemma_named_before_prefix(es, n);
                }
            } else {
                assert(!named_before(es0, name, i));
                assert forall|n: Seq<char>| listable_name(n) implies (#[trigger] seen.contains(n)
                    <==> named_before(es, n, es.len() as int)) by {
                    lemma_named_before_prefix(es, n);
                    assert(seen == seen0.push(name));
                    if n == name {
                        assert(seen[seen0.len() as int] == name);
                    } else {
                        if seen.contains(n) {
                            let k = choose|k: int| 0 <= k < seen.len() && seen[k] == n;
                            assert(k < seen0.len());
                            assert(seen0[k] == n);
                        }
                        if seen0.contains(n) {
                            let k = choose|k: int| 0 <= k < seen0.len() && seen0[k] == n;
                            assert(seen[k] == n);
                        }
                    }
                }
                if !matches_query(name, query) {
                    assert(out == out0 && c == c0);
                    assert(c.take(c.len() as int) =~= c);
                } else {
                    assert(c == c0.push(entry_model(es[i])));
                    assert(out == out0.push(entry_model(es.last())));
                    assert(c.take(c.len() as int) =~= c);
                }
            }
        }
    }
}

/// The library listing is complete up to the limit: it is the first `limit`
/// of the page's matching models (each listable name once, at its first
/// link, in page order), or all of them where there are fewer. A matching
/// model is left out only once `limit` models are listed before it.
pub proof fn law_library_listing_complete(es: Seq<EntryView>, query: Option<Seq<char>>, limit: nat)
    ensures
        library_listing(es, query, limit) == matching_models(es, query).take(
            if matching_models(es, query).len() < limit {
                matching_models(es, query).len() as int
            } else {
                limit as int
            },
        ),
{
    lemma_listing_complete(es, query, limit);
}

fn name_seen(seen: &Vec<String>, name: &str) -> (r: bool)
    ensures
        r == strings_view(seen@).contains(name@),
{
    let mut i: usize = 0;
    while i < seen.len()
        invariant
            i <= seen@.len(),
            forall|k: int| 0 <= k < i ==> seen@[k]@ != name@,
        decreases seen@.len() - i,
    {
        if str_eq(seen[i].as_str(), name) {
            assert(strings_view(seen@)[i as int] == name@);
            return true;
        }
        i += 1;
    }
    assert forall|k: int| 0 <= k < strings_view(seen@).len() implies strings_view(seen@)[k]
        != name@ by {
        assert(strings_view(seen@)[k] == seen@[k]@);
    }
    false
}

fn clean_tag_list(tags: &Vec<String>) -> (r: Vec<String>)
    ensures
        strings_view(r@) == clean_tags(strings_view(tags@)),
{
    let ghost tv = strings_view(tags@);
    let mut r: Vec<String> = Vec::new();
    let mut i: usize = 0;
    while i < tags.len()
        invariant
            i <= tags@.len(),
            tv == strings_view(tags@),
            strings_view(r@) == clean_tags(tv.take(i as int)),
        decreases tags@.len() - i,
    {
        proof {
            assert(tv.take(i + 1).drop_last() =~= tv.take(i as int));
            assert(tv.take(i + 1).last() == tags@[i as int]@);
        }
        let t = trimmed(tags[i].as_str());
        if !t.as_str().is_empty() {
            let ghost before = strings_view(r@);
            r.push(t);
            assert(strings_view(r@) =~= before.push(t@));
        }
        i += 1;
    }
    assert(tv.take(tags@.len() as int) =~= tv);
    r
}

fn strip_library_prefix(href: &str) -> (r: String)
    ensures
        r@ == link_name(href@),
{
    let v = chars_of(href);
    if crate::text::starts_with(href, "/library/") {
        proof {
            reveal_strlit("/library/");
        }
        string_of_range(v.as_slice(), 9, v.len())
    } else {
        href.to_string()
    }
}

fn has_slash(s: &str) -> (r: bool)
    ensures
        r == s@.contains('/'),
{
    let v = chars_of(s);
    let mut i: usize = 0;
    while i < v.len()
        invariant
            i <= v@.len(),
            v@ == s@,
            forall|k: int| 0 <= k < i ==> v@[k] != '/',
        decreases v@.len() - i,
    {
        if v[i] == '/' {
            return true;
        }
        i += 1;
    }
    false
}

/// The models that the library page with the links `entries` lists for
/// the search term `search`, at most `limit` of them.
pub fn select_library_models(entries: &Vec<LibraryEntry>, search: Option<&str>, limit: usize) -> (r:
    Vec<LibraryModel>)
    ensures
        models_view(r@) == library_listing(
            entries_view(entries@),
            match search {
                Some(q) => Some(q@),
                None => None,
            },
            limit as nat,
        ),
{
    let ghost es = entries_view(entries@);
    let ghost query = match search {
        Some(q) => Some(q@),
        None => None::<Seq<char>>,
    };
    let lowered: Option<String> = match search {
        Some(q) => Some(to_lowercase(q)),
        None => None,
    };
    let mut out: Vec<LibraryModel> = Vec::new();
    let mut seen: Vec<String> = Vec::new();
    let mut i: usize = 0;
    while i < entries.len()
        invariant
            i <= entries@.len(),
            es == entries_view(entries@),
            query == (match search {
                Some(q) => Some(q@),
                None => None::<Seq<char>>,
            }),
            match search {
                Some(q) => lowered matches Some(l) && l@ == lowercase(q@),
                None => lowered is None,
            },
            (models_view(out@), strings_view(seen@)) == listing(
                es.take(i as int),
                query,
                limit as nat,
            ),
        decreases entries@.len() - i,
    {
        proof {
            assert(es.take(i + 1).drop_last() =~= es.take(i as int));
            assert(es.take(i + 1).last() == entries@[i as int].view());
        }
        let e = &entries[i];
        let name = strip_library_prefix(e.href.as_str());
        if out.len() < limit && !name.as_str().is_empty() && !has_slash(name.as_str())
            && !name_seen(&seen, name.as_str()) {
            let keep = match &lowered {
                Some(l) => {
                    let n = to_lowercase(name.as_str());
                    contains(n.as_str(), l.as_str())
                },
                None => true,
            };
            let ghost seen_before = strings_view(seen@);
            seen.push(name.clone());
            assert(strings_view(seen@) =~= seen_before.push(name@));
            if keep {
                let model = LibraryModel {
                    name,
                    description: trimmed(e.description.as_str()),
                    sizes: clean_tag_list(&e.sizes),
                    capabilities: clean_tag_list(&e.capabilities),
                };
                let ghost out_before = models_view(out@);
                out.push(model);
                assert(models_view(out@) =~= out_before.push(model.view()));
            }
        }
        i += 1;
    }
    assert(es.take(entries@.len() as int) =~= es);
    out
}

/// The models listed on the library page `html` for the search term
/// `search`, at most `limit` of them.
pub fn library_models(html: &str, search: Option<&str>, limit: usize) -> (r: Vec<LibraryModel>)
    ensures
        models_view(r@) == library_listing(
            library_links(html@),
            match search {
                Some(q) => Some(q@),
                None => None,
            },
            limit as nat,
        ),
{
    let entries = parse_library_page(html);
    select_library_models(&entries, search, limit)
}

/// A description cut for the one-line listing: where its UTF-8 encoding is
/// longer than 70 bytes, its first 67 bytes and "...".
pub open spec fn short_description(desc: Seq<char>) -> Seq<char> {
    if encode_utf8(desc).len() > 70 {
        decode_utf8(encode_utf8(desc).subrange(0, 67)) + "..."@
    } else {
        desc
    }
}

/// The description shown in the one-line listing. A description longer
/// than 70 bytes must have a character boundary after its 67th byte.
pub fn truncate_description(desc: &str) -> (r: String)
    requires
        encode_utf8(desc@).len() > 70 ==> is_char_boundary(encode_utf8(desc@), 67),
    ensures
        r@ == short_description(desc@),
{
    broadcast use vstd::utf8::encode_utf8_decode_utf8;
    if desc.as_bytes().len() > 70 {
        let (head, _) = desc.split_at(67);
        assert(head.spec_bytes() == encode_utf8(desc@).subrange(0, 67));
        assert(encode_utf8(head@) == head.spec_bytes());
        assert(head@ == decode_utf8(encode_utf8(head@)));
        concat2(head, "...")
    } else {
        desc.to_string()
    }
}

} // verus!
