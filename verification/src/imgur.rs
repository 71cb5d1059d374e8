//! Image cache resolver: maps a media item's identifier to a
//! previously uploaded image URL, or decides that an upload is owed
//! and records its outcome.
//!
//! The cache is a flat JSON object-of-strings document.  Reading and
//! writing the file, fetching image bytes and talking to the image
//! host are the caller's work; this module parses and serializes the
//! document, answers lookups, merges new mappings, and extracts the
//! hosted URL from the image host's response.

use vstd::prelude::*;
use vstd::string::StringExecFns;

verus! {

/// Why a cache or upload step failed.  I/O and network failures stay
/// with the caller; every variant here is non-fatal to a poll cycle.
#[derive(Clone, Copy, Debug, PartialEq, Eq, Structural)]
pub enum CacheError {
    /// The cache file does not hold a JSON object.
    Malformed,
    /// The image host's response carries no `data.link` field.
    InvalidResponse,
}

/// The key and value character sequences of an entry list.
pub open spec fn entry_views(s: Seq<(String, String)>) -> Seq<(Seq<char>, Seq<char>)> {
    s.map_values(|p: (String, String)| (p.0@, p.1@))
}

/// No two entries share a key.
pub open spec fn distinct_keys(s: Seq<(Seq<char>, Seq<char>)>) -> bool {
    forall|i: int, j: int| 0 <= i < j < s.len() ==> s[i].0 != s[j].0
}

/// First-match lookup among the entries from index `i` on.
pub open spec fn lookup_from(
    s: Seq<(Seq<char>, Seq<char>)>,
    k: Seq<char>,
    i: int,
) -> Option<Seq<char>>
    decreases s.len() - i,
{
    if i < 0 || i >= s.len() {
        None
    } else if s[i].0 == k {
        Some(s[i].1)
    } else {
        lookup_from(s, k, i + 1)
    }
}

/// First-match lookup of key `k` among the entries.
pub open spec fn pair_lookup(s: Seq<(Seq<char>, Seq<char>)>, k: Seq<char>) -> Option<Seq<char>> {
    lookup_from(s, k, 0)
}

/// A lookup misses exactly when no remaining entry carries the key.
pub proof fn lemma_lookup_from_none(s: Seq<(Seq<char>, Seq<char>)>, k: Seq<char>, i: int)
    requires
        0 <= i,
    ensures
        (lookup_from(s, k, i) is None) <==> (forall|j: int| i <= j < s.len() ==> s[j].0 != k),
    decreases s.len() - i,
{
    if i < s.len() {
        lemma_lookup_from_none(s, k, i + 1);
    }
}

/// Skipping entries that do not carry the key leaves the lookup
/// unchanged.
pub proof fn lemma_lookup_skip(s: Seq<(Seq<char>, Seq<char>)>, k: Seq<char>, i: int)
    requires
        0 <= i <= s.len(),
        forall|j: int| 0 <= j < i ==> s[j].0 != k,
    ensures
        pair_lookup(s, k) == lookup_from(s, k, i),
    decreases i,
{
    if i > 0 {
        lemma_lookup_skip(s, k, i - 1);
    }
}

/// Appending an entry answers exactly the lookups that missed before.
pub proof fn lemma_lookup_push(
    s: Seq<(Seq<char>, Seq<char>)>,
    p: (Seq<char>, Seq<char>),
    k: Seq<char>,
    i: int,
)
    requires
        0 <= i <= s.len(),
    ensures
        lookup_from(s.push(p), k, i) == if lookup_from(s, k, i) is Some {
            lookup_from(s, k, i)
        } else if p.0 == k {
            Some(p.1)
        } else {
            None::<Seq<char>>
        },
    decreases s.len() - i,
{
    if i < s.len() {
        assert(s.push(p)[i] == s[i]);
        lemma_lookup_push(s, p, k, i + 1);
    } else {
        assert(s.push(p)[i] == p);
        assert(lookup_from(s.push(p), k, i + 1) is None);
    }
}

/// The persisted cache document: an ordered list of
/// identifier-to-URL entries with pairwise-distinct identifiers.
/// Once an identifier is written it is never overwritten; an existing
/// entry is trusted even if the upstream image later changes.
#[derive(Debug)]
pub struct CacheDocument {
    pub entries: Vec<(String, String)>,
}

impl CacheDocument {
    /// The entries as character sequences.
    pub open spec fn view_entries(self) -> Seq<(Seq<char>, Seq<char>)> {
        entry_views(self.entries@)
    }

    /// At most one entry per identifier.
    pub open spec fn wf(self) -> bool {
        distinct_keys(self.view_entries())
    }

    /// The URL recorded for an identifier, if any.
    pub open spec fn spec_lookup(self, k: Seq<char>) -> Option<Seq<char>> {
        pair_lookup(self.view_entries(), k)
    }

    /// The empty document, as written on first-miss bootstrap.
    pub fn new() -> (d: Self)
        ensures
            d.wf(),
            d.view_entries().len() == 0,
            forall|k: Seq<char>| d.spec_lookup(k) is None,
    {
        let d = CacheDocument { entries: Vec::new() };
        proof {
            assert(d.view_entries() =~= Seq::<(Seq<char>, Seq<char>)>::empty());
        }
        d
    }

    /// Looks an identifier up; answers exactly what the document
    /// records, and touches nothing.
    pub fn lookup(&self, item_id: &str) -> (r: Option<String>)
        ensures
            match r {
                Some(u) => self.spec_lookup(item_id@) == Some(u@),
                None => self.spec_lookup(item_id@) is None,
            },
    {
        let key: String = item_id.to_owned();
        let ghost s = self.view_entries();
        let mut i: usize = 0;
        while i < self.entries.len()
            invariant
                i <= self.entries@.len(),
                key@ == item_id@,
                s == self.view_entries(),
                forall|j: int| 0 <= j < i ==> s[j].0 != item_id@,
            decreases self.entries@.len() - i,
        {
            if self.entries[i].0 == key {
                proof {
                    lemma_lookup_skip(s, item_id@, i as int);
                }
                return Some(self.entries[i].1.clone());
            }
            i += 1;
        }
        proof {
            lemma_lookup_skip(s, item_id@, s.len() as int);
        }
        None
    }

    /// Records a freshly uploaded mapping.  The identifier must be
    /// new: the cache never overwrites an entry.  Every other
    /// identifier keeps its answer.
    pub fn insert_new(&mut self, item_id: &str, url: &str)
        requires
            old(self).wf(),
            old(self).spec_lookup(item_id@) is None,
        ensures
            final(self).wf(),
            final(self).view_entries() == old(self).view_entries().push((item_id@, url@)),
            final(self).spec_lookup(item_id@) == Some(url@),
            forall|k: Seq<char>| k != item_id@
                ==> #[trigger] final(self).spec_lookup(k) == old(self).spec_lookup(k),
    {
        let ghost s0 = self.view_entries();
        self.entries.push((item_id.to_owned(), url.to_owned()));
        proof {
            assert(self.view_entries() =~= s0.push((item_id@, url@)));
            lemma_lookup_from_none(s0, item_id@, 0);
            assert forall|i: int, j: int|
                0 <= i < j < self.view_entries().len() implies self.view_entries()[i].0
                != self.view_entries()[j].0 by {
                if j == s0.len() {
                    assert(s0[i].0 != item_id@);
                }
            }
            lemma_lookup_push(s0, (item_id@, url@), item_id@, 0);
            assert forall|k: Seq<char>| k != item_id@ implies #[trigger] self.spec_lookup(k)
                == pair_lookup(s0, k) by {
                lemma_lookup_push(s0, (item_id@, url@), k, 0);
            }
        }
    }
}

/// The platform-conventional default cache path, from the values of
/// the relevant environment variables (read by the caller): under
/// `%APPDATA%` on Windows, else under `$XDG_CONFIG_HOME`, else under
/// `$HOME/.config`.  `None` when the needed variable is unset.
pub fn get_urls_path(
    windows: bool,
    appdata: Option<&str>,
    xdg_config_home: Option<&str>,
    home: Option<&str>,
) -> (r: Option<String>)
    ensures
        windows ==> match appdata {
            Some(a) => r matches Some(p) && p@ == a@ + "\\jellyfin-rpc\\urls.json"@,
            None => r is None,
        },
        !windows ==> match (xdg_config_home, home) {
            (Some(x), _) => r matches Some(p) && p@ == x@ + "/jellyfin-rpc/urls.json"@,
            (None, Some(h)) => r matches Some(p) && p@ == h@ + "/.config/jellyfin-rpc/urls.json"@,
            (None, None) => r is None,
        },
{
    if windows {
        match appdata {
            Some(a) => Some(a.to_owned().concat("\\jellyfin-rpc\\urls.json")),
            None => None,
        }
    } else {
        match xdg_config_home {
            Some(x) => Some(x.to_owned().concat("/jellyfin-rpc/urls.json")),
            None => match home {
                Some(h) => Some(h.to_owned().concat("/.config/jellyfin-rpc/urls.json")),
                None => None,
            },
        }
    }
}

/// The resolved image the presence payload will show; `url` is the
/// image-host URL of the currently playing item.
pub struct Imgur {
    pub url: String,
}

impl Default for Imgur {
    /// The empty fallback image, shown when resolution fails.
    fn default() -> (d: Self)
        ensures
            d.url@ == Seq::<char>::empty(),
    {
        Imgur { url: String::new() }
    }
}

/// What a cache probe decided: a recorded URL, or an upload owed.
pub enum ImageResolution {
    /// The document already records this item; no network call is due.
    Cached(Imgur),
    /// The item is unknown; the caller owes one upload, then
    /// `CacheDocument::insert_new` with the hosted URL.
    NeedsUpload,
}

/// Probes the cache for an item.  A recorded identifier is answered
/// from the document alone — never by a network call — and an
/// unrecorded one asks for exactly one upload.
pub fn resolve_cached(doc: &CacheDocument, item_id: &str) -> (r: ImageResolution)
    ensures
        match doc.spec_lookup(item_id@) {
            Some(u) => r matches ImageResolution::Cached(img) && img.url@ == u,
            None => r is NeedsUpload,
        },
{
    match doc.lookup(item_id) {
        Some(url) => ImageResolution::Cached(Imgur { url }),
        None => ImageResolution::NeedsUpload,
    }
}

/// A recorded upload turns the next probe of the same item into a
/// cache hit, and disturbs no other item's probe.
pub proof fn lemma_miss_then_hit(
    before: CacheDocument,
    after: CacheDocument,
    item_id: Seq<char>,
    link: Seq<char>,
)
    requires
        before.spec_lookup(item_id) is None,
        after.view_entries() == before.view_entries().push((item_id, link)),
    ensures
        after.spec_lookup(item_id) == Some(link),
        forall|k: Seq<char>| k != item_id
            ==> #[trigger] after.spec_lookup(k) == before.spec_lookup(k),
{
    lemma_lookup_push(before.view_entries(), (item_id, link), item_id, 0);
    assert forall|k: Seq<char>| k != item_id implies #[trigger] after.spec_lookup(k)
        == before.spec_lookup(k) by {
        lemma_lookup_push(before.view_entries(), (item_id, link), k, 0);
    }
}

/// The entry list a cache document's text denotes — the
/// string-valued members of the JSON object the text holds — or
/// `None` where the text is not a JSON object.  A member whose value
/// is not a string is no entry: its key looks up as a miss.
pub uninterp spec fn cache_entries_of(text: Seq<char>) -> Option<Seq<(Seq<char>, Seq<char>)>>;

/// Relies on serde_json::from_str, deserializing into an ordered
/// string-to-value map: it accepts exactly the JSON object documents
/// and hands back the string-valued members, with pairwise-distinct
/// keys in deterministic (sorted) order.
#[verifier::external_body]
fn parse_entries(text: &str) -> (r: Option<Vec<(String, String)>>)
    ensures
        match r {
            Some(v) => cache_entries_of(text@) == Some(entry_views(v@))
                && distinct_keys(entry_views(v@)),
            None => cache_entries_of(text@) is None,
        },
{
    let parsed: std::collections::BTreeMap<String, serde_json::Value> =
        match serde_json::from_str(text) {
            Ok(m) => m,
            Err(_) => return None,
        };
    let mut entries: Vec<(String, String)> = Vec::new();
    for (key, value) in parsed {
        if let serde_json::Value::String(s) = value {
            entries.push((key, s));
        }
    }
    Some(entries)
}

/// Relies on serde_json::to_string on an ordered string-to-string
/// map: it always succeeds — its only error sources are non-string
/// keys and a failing field serializer, and a string map has neither —
/// and the emitted document parses back (via `cache_entries_of`) to
/// entries recording exactly the same mapping.
#[verifier::external_body]
fn entries_to_json(entries: &Vec<(String, String)>) -> (r: Option<String>)
    requires
        distinct_keys(entry_views(entries@)),
    ensures
        r is Some,
        r matches Some(t) ==> (cache_entries_of(t@) matches Some(es) && distinct_keys(es)
            && (forall|k: Seq<char>| #[trigger] pair_lookup(es, k)
                == pair_lookup(entry_views(entries@), k))),
{
    let m: std::collections::BTreeMap<&str, &str> =
        entries.iter().map(|p| (p.0.as_str(), p.1.as_str())).collect();
    serde_json::to_string(&m).ok()
}

/// Parses the cache file's text into a document.  A text that is not
/// a JSON object is `Malformed`; an object member whose value is not
/// a string is no entry, so its key resolves as a miss and is
/// replaced by the hosted URL on the next recorded upload.
pub fn parse_cache_document(text: &str) -> (r: Result<CacheDocument, CacheError>)
    ensures
        match cache_entries_of(text@) {
            Some(es) => r matches Ok(d) && d.wf() && d.view_entries() == es,
            None => r matches Err(e) && e == CacheError::Malformed,
        },
{
    match parse_entries(text) {
        Some(entries) => Ok(CacheDocument { entries }),
        None => Err(CacheError::Malformed),
    }
}

/// Serializes a document for the whole-file rewrite.  Serialization
/// always succeeds, and the written text parses back to the same
/// identifier-to-URL mapping, so nothing recorded is lost across a
/// save and reload.
pub fn serialize_cache_document(doc: &CacheDocument) -> (r: String)
    requires
        doc.wf(),
    ensures
        cache_entries_of(r@) matches Some(es) && distinct_keys(es)
            && (forall|k: Seq<char>| #[trigger] pair_lookup(es, k) == doc.spec_lookup(k)),
{
    entries_to_json(&doc.entries).unwrap()
}

/// The hosted URL an image-host response text carries at `data.link`,
/// or `None` where the field is absent or the text is not JSON.
pub uninterp spec fn hosted_link_of(body: Seq<char>) -> Option<Seq<char>>;

/// Relies on serde_json::from_str into an untyped value, and on
/// Value::get / Value::as_str to read its `data.link` field — a
/// function of the response text alone.
#[verifier::external_body]
fn upload_response_link(body: &str) -> (r: Option<String>)
    ensures
        match r {
            Some(u) => hosted_link_of(body@) == Some(u@),
            None => hosted_link_of(body@) is None,
        },
{
    let val: serde_json::Value = match serde_json::from_str(body) {
        Ok(v) => v,
        Err(_) => return None,
    };
    val.get("data")
        .and_then(|d| d.get("link"))
        .and_then(serde_json::Value::as_str)
        .map(str::to_owned)
}

/// Extracts the hosted URL from the image host's upload response; a
/// response without `data.link` is `InvalidResponse`.
pub fn extract_hosted_url(body: &str) -> (r: Result<String, CacheError>)
    ensures
        match hosted_link_of(body@) {
            Some(u) => r matches Ok(s) && s@ == u,
            None => r matches Err(e) && e == CacheError::InvalidResponse,
        },
{
    match upload_response_link(body) {
        Some(s) => Ok(s),
        None => Err(CacheError::InvalidResponse),
    }
}

} // verus!
