//! Decisions of one probe: which request to make next, and whether the
//! candidate address matched. The requests themselves are made by the caller,
//! which hands each response back to these functions.

use crate::digest::{hasher, keccak256_hex};
use vstd::prelude::*;
use vstd::utf8::encode_utf8;

verus! {

/// `n` occurs in `h` as a contiguous run.
pub open spec fn is_substring(n: Seq<u8>, h: Seq<u8>) -> bool {
    exists|i: int| 0 <= i && i + n.len() <= h.len() && #[trigger] h.subrange(i, i + n.len()) == n
}

/// The text `n` occurs in the text `h` (compared on their UTF-8 encodings).
pub open spec fn text_contains_spec(h: Seq<char>, n: Seq<char>) -> bool {
    is_substring(encode_utf8(n), encode_utf8(h))
}

/// Whether `needle` starts at index `i` of `hay`.
fn matches_at(hay: &[u8], needle: &[u8], i: usize) -> (r: bool)
    requires
        i + needle@.len() <= hay@.len(),
    ensures
        r == (hay@.subrange(i as int, i + needle@.len()) == needle@),
{
    let hay_len: usize = hay.len();
    let mut k: usize = 0;
    while k < needle.len()
        invariant
            k <= needle@.len(),
            hay_len == hay@.len(),
            i + needle@.len() <= hay@.len(),
            hay@.subrange(i as int, i + k) == needle@.subrange(0, k as int),
        decreases needle@.len() - k,
    {
        if hay[i + k] != needle[k] {
            assert(hay@.subrange(i as int, i + needle@.len())[k as int] != needle@[k as int]);
            return false;
        }
        k = k + 1;
        assert(hay@.subrange(i as int, i + k) =~= needle@.subrange(0, k as int));
    }
    assert(needle@.subrange(0, k as int) =~= needle@);
    true
}

/// Whether the byte string `needle` occurs in `hay`.
pub fn contains_bytes(hay: &[u8], needle: &[u8]) -> (r: bool)
    ensures
        r == is_substring(needle@, hay@),
{
    if needle.len() > hay.len() {
        return false;
    }
    let last: usize = hay.len() - needle.len();
    let mut i: usize = 0;
    while i <= last
        invariant
            last == hay@.len() - needle@.len(),
            forall|j: int|
                0 <= j < i ==> #[trigger] hay@.subrange(j, j + needle@.len()) != needle@,
        decreases last + 1 - i,
    {
        if matches_at(hay, needle, i) {
            return true;
        }
        if i == last {
            return false;
        }
        i = i + 1;
    }
    false
}

/// Whether the text `needle` occurs in the text `hay`.
pub fn text_contains(hay: &str, needle: &str) -> (r: bool)
    ensures
        r == text_contains_spec(hay@, needle@),
{
    let h = hay.as_bytes_vec();
    let n = needle.as_bytes_vec();
    contains_bytes(h.as_slice(), n.as_slice())
}

/// The scheme part of a URL.
pub open spec fn scheme_spec(https: bool) -> Seq<char> {
    if https {
        "https://"@
    } else {
        "http://"@
    }
}

/// The address of the page fetched from a candidate.
pub open spec fn page_url_spec(ip: Seq<char>, https: bool) -> Seq<char> {
    scheme_spec(https) + ip + "/"@
}

/// The address of the icon fetched from a candidate.
pub open spec fn favicon_url_spec(ip: Seq<char>, https: bool) -> Seq<char> {
    scheme_spec(https) + ip + "/favicon.ico"@
}

fn scheme(https: bool) -> (r: String)
    ensures
        r@ == scheme_spec(https),
{
    if https {
        String::from_str("https://")
    } else {
        String::from_str("http://")
    }
}

/// `{scheme}://{ip}/`: the page that is searched for the trigger phrase.
pub fn page_url(ip: &str, https: bool) -> (r: String)
    ensures
        r@ == page_url_spec(ip@, https),
{
    let mut u = scheme(https);
    u.append(ip);
    u.append("/");
    u
}

/// `{scheme}://{ip}/favicon.ico`: the icon whose digest is compared.
pub fn favicon_url(ip: &str, https: bool) -> (r: String)
    ensures
        r@ == favicon_url_spec(ip@, https),
{
    let mut u = scheme(https);
    u.append(ip);
    u.append("/favicon.ico");
    u
}

/// The `Accept` value sent with every request.
pub const ACCEPT: &'static str = "text/html,application/xhtml+xml,application/xml;q=0.9,image/avif,image/webp,*/*;q=0.8";

/// The browser-like `User-Agent` value sent with every request.
pub const USER_AGENT: &'static str = "Mozilla/5.0 (Windows NT 10.0; rv:109.0) Gecko/20100101 Firefox/115.0";

/// The headers of every request, as name and value: the virtual host goes
/// in `Host`, so that the candidate serves the fronted site.
pub open spec fn headers_spec(host: Seq<char>) -> Seq<(Seq<char>, Seq<char>)> {
    seq![
        ("Accept"@, ACCEPT@),
        ("User-Agent"@, USER_AGENT@),
        ("Host"@, host),
        ("Connection"@, "keep-alive"@),
    ]
}

/// The headers of every request of a probe for the virtual host `host`.
pub fn request_headers(host: &str) -> (r: Vec<(String, String)>)
    ensures
        r.deep_view() == headers_spec(host@),
{
    let mut r: Vec<(String, String)> = Vec::new();
    r.push((String::from_str("Accept"), String::from_str(ACCEPT)));
    r.push((String::from_str("User-Agent"), String::from_str(USER_AGENT)));
    r.push((String::from_str("Host"), String::from_str(host)));
    r.push((String::from_str("Connection"), String::from_str("keep-alive")));
    assert(r.deep_view() =~= headers_spec(host@));
    r
}

/// What a probe looks for in a candidate's responses: a phrase in the page
/// text, the digest of the icon, both or neither.
pub struct MatchCriteria {
    pub trigger_word: Option<String>,
    pub favicon_hash: Option<String>,
}

/// The next thing the caller of a probe does.
#[derive(Debug)]
pub enum ProbeAction {
    /// Fetch this URL and hand its text to `after_page`.
    FetchPage(String),
    /// Fetch this URL and hand its bytes to `after_favicon`.
    FetchFavicon(String),
    /// Record the address as found, then end the probe with a match.
    Record,
    /// End the probe, matched or not, recording nothing.
    Finish(bool),
}

/// The model of a `ProbeAction`, with URLs as character sequences.
pub enum ProbeStep {
    FetchPage(Seq<char>),
    FetchFavicon(Seq<char>),
    Record,
    Finish(bool),
}

impl View for ProbeAction {
    type V = ProbeStep;

    open spec fn view(&self) -> ProbeStep {
        match self {
            ProbeAction::FetchPage(u) => ProbeStep::FetchPage(u@),
            ProbeAction::FetchFavicon(u) => ProbeStep::FetchFavicon(u@),
            ProbeAction::Record => ProbeStep::Record,
            ProbeAction::Finish(m) => ProbeStep::Finish(*m),
        }
    }
}

/// The first request: the page when a trigger phrase is set, else the icon
/// when a reference digest is set, else none and no match.
pub open spec fn first_step(
    trigger: Option<Seq<char>>,
    reference: Option<Seq<char>>,
    ip: Seq<char>,
    https: bool,
) -> ProbeStep {
    if trigger is Some {
        ProbeStep::FetchPage(page_url_spec(ip, https))
    } else if reference is Some {
        ProbeStep::FetchFavicon(favicon_url_spec(ip, https))
    } else {
        ProbeStep::Finish(false)
    }
}

/// After the page text: a match when it holds the trigger phrase, which ends
/// the probe; otherwise the icon when a reference digest is set.
pub open spec fn page_step(
    trigger: Option<Seq<char>>,
    reference: Option<Seq<char>>,
    ip: Seq<char>,
    https: bool,
    page: Seq<char>,
) -> ProbeStep {
    if trigger is Some && text_contains_spec(page, trigger->0) {
        ProbeStep::Record
    } else if reference is Some {
        ProbeStep::FetchFavicon(favicon_url_spec(ip, https))
    } else {
        ProbeStep::Finish(false)
    }
}

/// After the icon's digest: a match exactly when it equals the reference.
pub open spec fn digest_step(reference: Option<Seq<char>>, digest: Seq<char>) -> ProbeStep {
    if reference == Some(digest) {
        ProbeStep::Record
    } else {
        ProbeStep::Finish(false)
    }
}

/// What one whole probe does against a server that answers the page request
/// with `page` and the icon request with `icon`.
pub struct ProbeRun {
    /// The URLs requested, in order.
    pub requests: Seq<Seq<char>>,
    /// Whether the address was recorded as a match.
    pub matched: bool,
}

/// The run of a probe, step after step.
pub open spec fn run_probe(
    trigger: Option<Seq<char>>,
    reference: Option<Seq<char>>,
    ip: Seq<char>,
    https: bool,
    page: Seq<char>,
    icon: Seq<u8>,
) -> ProbeRun {
    let icon_matched = digest_step(reference, keccak256_hex(icon)) == ProbeStep::Record;
    match first_step(trigger, reference, ip, https) {
        ProbeStep::FetchPage(u) => match page_step(trigger, reference, ip, https, page) {
            ProbeStep::FetchFavicon(v) => ProbeRun { requests: seq![u, v], matched: icon_matched },
            s => ProbeRun { requests: seq![u], matched: s == ProbeStep::Record },
        },
        ProbeStep::FetchFavicon(v) => ProbeRun { requests: seq![v], matched: icon_matched },
        _ => ProbeRun { requests: Seq::empty(), matched: false },
    }
}

impl MatchCriteria {
    /// The trigger phrase, as characters.
    pub open spec fn trigger_view(&self) -> Option<Seq<char>> {
        self.trigger_word.deep_view()
    }

    /// The reference digest, as characters.
    pub open spec fn reference_view(&self) -> Option<Seq<char>> {
        self.favicon_hash.deep_view()
    }

    /// The first request of a probe of `ip`.
    pub fn first_action(&self, ip: &str, https: bool) -> (r: ProbeAction)
        ensures
            r@ == first_step(self.trigger_view(), self.reference_view(), ip@, https),
    {
        if self.trigger_word.is_some() {
            ProbeAction::FetchPage(page_url(ip, https))
        } else if self.favicon_hash.is_some() {
            ProbeAction::FetchFavicon(favicon_url(ip, https))
        } else {
            ProbeAction::Finish(false)
        }
    }

    /// The step after the page of `ip` came back as `page`.
    pub fn after_page(&self, ip: &str, https: bool, page: &str) -> (r: ProbeAction)
        ensures
            r@ == page_step(self.trigger_view(), self.reference_view(), ip@, https, page@),
    {
        let found = match &self.trigger_word {
            Some(t) => text_contains(page, t.as_str()),
            None => false,
        };
        if found {
            ProbeAction::Record
        } else if self.favicon_hash.is_some() {
            ProbeAction::FetchFavicon(favicon_url(ip, https))
        } else {
            ProbeAction::Finish(false)
        }
    }

    /// The step after the icon's digest came out as `digest`.
    pub fn after_digest(&self, digest: &str) -> (r: ProbeAction)
        ensures
            r@ == digest_step(self.reference_view(), digest@),
    {
        let d = String::from_str(digest);
        let same = match &self.favicon_hash {
            Some(h) => *h == d,
            None => false,
        };
        if same {
            ProbeAction::Record
        } else {
            ProbeAction::Finish(false)
        }
    }

    /// The step after the icon came back as `icon`: its digest decides.
    pub fn after_favicon(&self, icon: &[u8]) -> (r: ProbeAction)
        ensures
            r@ == digest_step(self.reference_view(), keccak256_hex(icon@)),
    {
        let digest = hasher(icon);
        self.after_digest(digest.as_str())
    }
}

/// A page that holds the trigger phrase decides the probe: it matches after
/// the page request alone, and the icon is never requested.
pub proof fn trigger_match_skips_favicon(
    trigger: Seq<char>,
    reference: Option<Seq<char>>,
    ip: Seq<char>,
    https: bool,
    page: Seq<char>,
    icon: Seq<u8>,
)
    requires
        text_contains_spec(page, trigger),
    ensures
        run_probe(Some(trigger), reference, ip, https, page, icon) == (ProbeRun {
            requests: seq![page_url_spec(ip, https)],
            matched: true,
        }),
{
}

/// When the page misses the trigger phrase but the icon's digest equals the
/// reference, the probe matches through the second request, the icon.
pub proof fn favicon_match_after_trigger_miss(
    trigger: Seq<char>,
    reference: Seq<char>,
    ip: Seq<char>,
    https: bool,
    page: Seq<char>,
    icon: Seq<u8>,
)
    requires
        !text_contains_spec(page, trigger),
        reference == keccak256_hex(icon),
    ensures
        run_probe(Some(trigger), Some(reference), ip, https, page, icon) == (ProbeRun {
            requests: seq![page_url_spec(ip, https), favicon_url_spec(ip, https)],
            matched: true,
        }),
{
}

/// With neither a trigger phrase nor a reference digest, a probe makes no
/// request and never matches.
pub proof fn no_criteria_no_request(ip: Seq<char>, https: bool, page: Seq<char>, icon: Seq<u8>)
    ensures
        run_probe(None, None, ip, https, page, icon) == (ProbeRun {
            requests: Seq::<Seq<char>>::empty(),
            matched: false,
        }),
{
}

} // verus!
