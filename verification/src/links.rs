//! Which links stay in the window and which go to the browser.

use vstd::prelude::*;
use vstd::utf8::encode_utf8;

use crate::text::{
    begins_with, endings_are_backs, finishes_with, is_letters, same_text, text_finishes_with,
    text_view,
};

verus! {

/// What the rules on links read of a URL.
#[derive(Debug)]
pub struct Url {
    pub scheme: String,
    pub host: Option<String>,
    pub path: String,
    /// What stands between `?` and `#`, still percent-encoded.
    pub query: Option<String>,
    /// The whole URL in its normal form.
    pub text: String,
}

/// A URL as text alone.
pub struct UrlParts {
    pub scheme: Seq<char>,
    pub host: Option<Seq<char>>,
    pub path: Seq<char>,
    pub query: Option<Seq<char>>,
    pub text: Seq<char>,
}

/// The parts of a URL that may be missing.
pub open spec fn url_view(url: Option<Url>) -> Option<UrlParts> {
    match url {
        Some(u) => Some(u@),
        None => None,
    }
}

/// Names and values of form fields as text.
pub open spec fn fields_view(fields: Seq<(String, String)>) -> Seq<(Seq<char>, Seq<char>)> {
    fields.map_values(|field: (String, String)| (field.0@, field.1@))
}

impl View for Url {
    type V = UrlParts;

    open spec fn view(&self) -> UrlParts {
        UrlParts {
            scheme: self.scheme@,
            host: text_view(self.host),
            path: self.path@,
            query: text_view(self.query),
            text: self.text@,
        }
    }
}

impl Clone for Url {
    fn clone(&self) -> (copy: Self)
        ensures
            copy@ == self@,
    {
        Url {
            scheme: self.scheme.clone(),
            host: self.host.clone(),
            path: self.path.clone(),
            query: self.query.clone(),
            text: self.text.clone(),
        }
    }
}

/// What `url::Url::parse` makes of a text: the parts of the URL, or nothing where it fails.
pub uninterp spec fn parsed_url(text: Seq<char>) -> Option<UrlParts>;

/// What `url::form_urlencoded::parse` makes of a query: its fields in their order, decoded.
pub uninterp spec fn form_fields(query: Seq<char>) -> Seq<(Seq<char>, Seq<char>)>;

/// The fields are this one alone.
pub open spec fn is_field(
    fields: Seq<(Seq<char>, Seq<char>)>,
    name: Seq<char>,
    value: Seq<char>,
) -> bool {
    fields == seq![(name, value)]
}

/// The fields begin with this one.
pub open spec fn is_first_field(
    fields: Seq<(Seq<char>, Seq<char>)>,
    name: Seq<char>,
    value: Seq<char>,
) -> bool {
    fields.len() > 0 && fields[0] == (name, value)
}

/// `url::Url::parse`, with what `scheme`, `host_str`, `path`, `query` and `to_string` then give.
/// Which URL a text is, or that it is none, depends on the text alone.
#[verifier::external_body]
fn parse_url(text: &str) -> (url: Option<Url>)
    ensures
        url_view(url) == parsed_url(text@),
{
    match url::Url::parse(text) {
        Ok(u) => Some(
            Url {
                scheme: u.scheme().to_string(),
                host: u.host_str().map(|h| h.to_string()),
                path: u.path().to_string(),
                query: u.query().map(|q| q.to_string()),
                text: u.to_string(),
            },
        ),
        Err(_) => None,
    }
}

/// A digit of a percent code.
pub open spec fn hex_digit(value: int) -> char {
    if value < 10 {
        ('0' as int + value) as char
    } else {
        ('A' as int + (value - 10)) as char
    }
}

/// A byte that stands for itself in a form.
pub open spec fn is_kept_in_forms(byte: u8) -> bool {
    ||| 'a' as u8 <= byte <= 'z' as u8
    ||| 'A' as u8 <= byte <= 'Z' as u8
    ||| '0' as u8 <= byte <= '9' as u8
    ||| byte == '*' as u8 || byte == '-' as u8 || byte == '.' as u8 || byte == '_' as u8
}

/// A byte as it stands in a form.
pub open spec fn form_byte(byte: u8) -> Seq<char> {
    if is_kept_in_forms(byte) {
        seq![byte as char]
    } else if byte == ' ' as u8 {
        seq!['+']
    } else {
        seq!['%', hex_digit(byte as int / 16), hex_digit(byte as int % 16)]
    }
}

/// A text as a form writes it: its bytes in UTF-8, one after the other.
pub open spec fn form_encoded(text: Seq<char>) -> Seq<char> {
    encode_utf8(text).map_values(|byte: u8| form_byte(byte)).flatten()
}

/// A query begins with this field, written as forms write it: the query ends there, or `&` comes
/// next.
pub open spec fn opens_with_field(query: Seq<char>, name: Seq<char>, value: Seq<char>) -> bool {
    let field = name + "="@ + form_encoded(value);
    begins_with(query, field) && (query.len() == field.len() || query[field.len() as int] == '&')
}

/// `url::form_urlencoded::parse`, on which `url::Url::query_pairs` rests: the fields of a query
/// in the order in which they stand there, decoded. They depend on the query alone. A field with a
/// name of letters, whose value is written as forms write it, is read back where the query begins
/// with it, and it is the only one where nothing follows: fields end at `&`, which no value written
/// so holds.
#[verifier::external_body]
fn parse_form(query: &str) -> (fields: Vec<(String, String)>)
    ensures
        fields_view(fields@) == form_fields(query@),
        forall|name: Seq<char>, value: Seq<char>|
            is_letters(name) && query@ == name + "="@ + form_encoded(value) ==> #[trigger] is_field(
                fields_view(fields@),
                name,
                value,
            ),
        forall|name: Seq<char>, value: Seq<char>|
            is_letters(name) && opens_with_field(query@, name, value) ==> #[trigger] is_first_field(
                fields_view(fields@),
                name,
                value,
            ),
{
    url::form_urlencoded::parse(query.as_bytes()).into_owned().collect()
}

/// Google's wrapper round a link that leads elsewhere: `https://www.google.com/url?q=...`.
pub open spec fn is_redirect(url: UrlParts) -> bool {
    (url.host == Some("www.google.com"@) || url.host == Some("google.com"@)) && url.path == "/url"@
}

/// A URL that the web serves.
pub open spec fn is_web(url: UrlParts) -> bool {
    url.scheme == "http"@ || url.scheme == "https"@
}

/// A host that the chat and its widgets load from.
pub open spec fn is_internal_host(host: Seq<char>) -> bool {
    ||| host == "google.com"@
    ||| finishes_with(host, ".google.com"@)
    ||| finishes_with(host, ".googleusercontent.com"@)
    ||| finishes_with(host, ".gstatic.com"@)
    ||| host == "accounts.youtube.com"@
}

/// A URL that stays in the window.
pub open spec fn is_internal(url: UrlParts) -> bool {
    is_web(url) ==> !is_redirect(url) && match url.host {
        Some(host) => is_internal_host(host),
        None => false,
    }
}

/// A field that holds the target of a redirect.
pub open spec fn names_target(name: Seq<char>) -> bool {
    name == "q"@ || name == "url"@
}

/// The value of the first field that holds a target.
pub open spec fn first_target(fields: Seq<(Seq<char>, Seq<char>)>) -> Option<Seq<char>>
    decreases fields.len(),
{
    if fields.len() == 0 {
        None
    } else if names_target(fields[0].0) {
        Some(fields[0].1)
    } else {
        first_target(fields.skip(1))
    }
}

/// The URL inside a redirect; nothing where the URL is no redirect, names no target or names
/// one that is no URL.
pub open spec fn next_hop(url: UrlParts) -> Option<UrlParts> {
    match (is_redirect(url), url.query) {
        (true, Some(query)) => match first_target(form_fields(query)) {
            Some(target) => parsed_url(target),
            None => None,
        },
        _ => None,
    }
}

/// The URL that is left when up to `layers` redirects are taken off.
pub open spec fn unwrapped(url: UrlParts, layers: nat) -> UrlParts
    decreases layers,
{
    if layers == 0 {
        url
    } else {
        match next_hop(url) {
            Some(next) => unwrapped(next, (layers - 1) as nat),
            None => url,
        }
    }
}

/// `url` is the redirect round the link `inner`: its first field is `q`, and holds that link. Others
/// may follow.
pub open spec fn wraps(url: UrlParts, inner: UrlParts) -> bool {
    is_redirect(url) && match url.query {
        Some(query) => opens_with_field(query, "q"@, inner.text),
        None => false,
    }
}

/// The text of a link is read as that very text again, and as no redirect.
pub open spec fn reads_back(link: UrlParts) -> bool {
    parsed_url(link.text) matches Some(back) && back.text == link.text && !is_redirect(back)
}

/// How many redirects, one inside the other, are taken off.
pub const REDIRECT_LAYERS: u32 = 3;

/// Whether this is Google's wrapper round a link that leads elsewhere.
pub fn is_google_redirect(url: &Url) -> (redirect: bool)
    ensures
        redirect == is_redirect(url@),
{
    match &url.host {
        Some(host) => (same_text(host.as_str(), "www.google.com") || same_text(
            host.as_str(),
            "google.com",
        )) && same_text(url.path.as_str(), "/url"),
        None => false,
    }
}

/// Whether a URL stays in the window.
///
/// Some webviews ask this for frames too, and the chat loads widgets from many hosts of Google,
/// so all of `*.google.com` stays. The exception is the redirect, which leads outside by its
/// nature. URLs that are not of the web (`tauri:`, `about:`, `blob:`, `data:`) are the
/// application's own.
pub fn is_internal_url(url: &Url) -> (internal: bool)
    ensures
        internal == is_internal(url@),
{
    if same_text(url.scheme.as_str(), "http") || same_text(url.scheme.as_str(), "https") {
        if is_google_redirect(url) {
            return false;
        }
        match &url.host {
            Some(name) => {
                let host = name.as_str();
                same_text(host, "google.com") || text_finishes_with(host, ".google.com")
                    || text_finishes_with(host, ".googleusercontent.com") || text_finishes_with(
                    host,
                    ".gstatic.com",
                ) || same_text(host, "accounts.youtube.com")
            },
            None => false,
        }
    } else {
        true
    }
}

/// The target that the fields of a redirect name: the value of the first `q` or `url`.
pub fn redirect_target(fields: &Vec<(String, String)>) -> (target: Option<String>)
    ensures
        text_view(target) == first_target(fields_view(fields@)),
{
    let ghost all = fields_view(fields@);
    let mut i: usize = 0;
    assert(all.skip(0) == all);
    while i < fields.len()
        invariant
            i <= fields@.len(),
            all == fields_view(fields@),
            first_target(all.skip(i as int)) == first_target(all),
        decreases fields@.len() - i,
    {
        let name = fields[i].0.as_str();
        if same_text(name, "q") || same_text(name, "url") {
            return Some(fields[i].1.clone());
        }
        assert(all.skip(i as int).skip(1) == all.skip(i + 1));
        i = i + 1;
    }
    None
}

/// The URL inside a redirect, if there is one. Where a link was wrapped, it is what the text of
/// that link reads as.
pub fn unwrap_one_redirect(url: &Url) -> (inner: Option<Url>)
    ensures
        url_view(inner) == next_hop(url@),
        forall|link: UrlParts| #[trigger] wraps(url@, link) ==> url_view(inner) == parsed_url(link.text),
{
    if !is_google_redirect(url) {
        return None;
    }
    match &url.query {
        Some(query) => {
            let fields = parse_form(query.as_str());
            proof {
                reveal_strlit("q");
                assert forall|link: UrlParts| #[trigger] wraps(url@, link) implies first_target(
                    fields_view(fields@),
                ) == Some(link.text) by {
                    assert(is_letters("q"@));
                    assert(is_first_field(fields_view(fields@), "q"@, link.text));
                }
            }
            match redirect_target(&fields) {
                Some(target) => parse_url(target.as_str()),
                None => None,
            }
        },
        None => None,
    }
}

/// How far the unwrapping of a redirect has come.
#[derive(Debug)]
pub enum Unwrapping {
    /// This URL is to be looked into, and this many redirects may still be taken off.
    LookInto { url: Url, layers: u32 },
    /// This is the URL that is left.
    Left { text: String },
}

/// Goes on after a look into a URL, which found another one inside or did not.
pub fn after_look(url: Url, inner: Option<Url>, layers: u32) -> (state: Unwrapping)
    requires
        layers > 0,
    ensures
        match inner {
            Some(next) => if layers > 1 {
                state == (Unwrapping::LookInto { url: next, layers: (layers - 1) as u32 })
            } else {
                state == (Unwrapping::Left { text: next.text })
            },
            None => state == (Unwrapping::Left { text: url.text }),
        },
{
    match inner {
        Some(next) => if layers > 1 {
            Unwrapping::LookInto { url: next, layers: layers - 1 }
        } else {
            Unwrapping::Left { text: next.text }
        },
        None => Unwrapping::Left { text: url.text },
    }
}

/// Takes `https://www.google.com/url?q=<target>` apart down to the target, which may be a
/// redirect itself. Wrapping a link is undone: the target of a redirect round a link that reads
/// back as itself is the text of that link.
pub fn unwrap_google_redirect(url: &Url) -> (target: String)
    ensures
        target@ == unwrapped(url@, REDIRECT_LAYERS as nat).text,
        target@ == unwrapped(url@, 3).text,
        forall|link: UrlParts| #[trigger] wraps(url@, link) && reads_back(link) ==> target@ == link.text,
{
    let mut current = url.clone();
    let mut layers: u32 = REDIRECT_LAYERS;
    loop
        invariant
            layers > 0,
            layers < REDIRECT_LAYERS ==> forall|link: UrlParts| #[trigger]
                wraps(url@, link) && reads_back(link) ==> unwrapped(
                    url@,
                    REDIRECT_LAYERS as nat,
                ).text == link.text,
            layers == REDIRECT_LAYERS ==> current@ == url@,
            layers <= REDIRECT_LAYERS,
            unwrapped(current@, layers as nat) == unwrapped(url@, REDIRECT_LAYERS as nat),
        decreases layers,
    {
        let inner = unwrap_one_redirect(&current);
        proof {
            reveal_with_fuel(unwrapped, 2);
            if layers == REDIRECT_LAYERS {
                assert forall|link: UrlParts| #[trigger]
                    wraps(url@, link) && reads_back(link) implies unwrapped(
                    url@,
                    REDIRECT_LAYERS as nat,
                ).text == link.text by {
                    let back = parsed_url(link.text)->0;
                    single_redirect_gives_its_target(url@, back, REDIRECT_LAYERS as nat);
                }
            }
        }
        match after_look(current, inner, layers) {
            Unwrapping::LookInto { url: next, layers: fewer } => {
                current = next;
                layers = fewer;
            },
            Unwrapping::Left { text } => {
                return text;
            },
        }
    }
}

/// What becomes of a navigation.
#[derive(Debug)]
pub enum Navigation {
    /// The window goes there.
    Stay,
    /// The window stays where it is, and the browser opens the target.
    Leave { target: String },
}

/// Decides what becomes of a navigation that the page started.
pub fn navigate(url: &Url) -> (navigation: Navigation)
    ensures
        is_internal(url@) <==> navigation is Stay,
        navigation matches Navigation::Leave { target } ==> target@ == unwrapped(
            url@,
            REDIRECT_LAYERS as nat,
        ).text,
{
    if is_internal_url(url) {
        Navigation::Stay
    } else {
        Navigation::Leave { target: unwrap_google_redirect(url) }
    }
}

/// A redirect served over the web never stays in the window.
pub proof fn redirects_lead_outside(url: UrlParts)
    requires
        is_web(url),
        is_redirect(url),
    ensures
        !is_internal(url),
{
}

/// A URL of another scheme than `http` and `https` always stays, wherever it points.
pub proof fn other_schemes_stay(url: UrlParts)
    requires
        !is_web(url),
    ensures
        is_internal(url),
{
}

/// Every subdomain of `google.com` stays in the window, but for the redirect.
pub proof fn google_subdomains_stay(url: UrlParts, subdomain: Seq<char>)
    requires
        url.host == Some(subdomain + ".google.com"@),
        !is_redirect(url),
    ensures
        is_internal(url),
{
    let host = subdomain + ".google.com"@;
    assert(host.subrange(host.len() - ".google.com"@.len(), host.len() as int) == ".google.com"@);
}

/// A host that ends in `google.com` without a dot before it is another site and does not stay.
pub proof fn look_alike_hosts_leave(url: UrlParts, name: Seq<char>)
    requires
        is_web(url),
        name.len() > 0,
        name.last() != '.',
        url.host == Some(name + "google.com"@),
    ensures
        !is_internal(url),
{
    reveal_strlit("google.com");
    reveal_strlit(".google.com");
    reveal_strlit(".googleusercontent.com");
    reveal_strlit(".gstatic.com");
    reveal_strlit("accounts.youtube.com");
    let host = name + "google.com"@;
    let n = host.len() as int;
    assert(host[n - 11] == name.last());
    assert(host[n - 5] == 'e');
    if finishes_with(host, ".google.com"@) {
        assert(host.subrange(n - 11, n)[0] == '.');
    }
    if finishes_with(host, ".googleusercontent.com"@) {
        assert(host.subrange(n - 22, n)[17] == 't');
    }
    if finishes_with(host, ".gstatic.com"@) {
        assert(host.subrange(n - 12, n)[7] == 'c');
    }
    assert("accounts.youtube.com"@[14] == 'b');
}

/// What is no redirect is left as it is.
pub proof fn plain_links_are_kept(url: UrlParts, layers: nat)
    requires
        !is_redirect(url),
    ensures
        unwrapped(url, layers) == url,
{
}

/// A redirect round a link that is no redirect comes down to that link.
pub proof fn single_redirect_gives_its_target(url: UrlParts, inner: UrlParts, layers: nat)
    requires
        next_hop(url) == Some(inner),
        !is_redirect(inner),
        layers > 0,
    ensures
        unwrapped(url, layers) == inner,
{
    plain_links_are_kept(inner, (layers - 1) as nat);
}

/// The URL that is left is the last of a chain of redirects: no more hops lead on from it,
/// unless every layer allowed was taken off.
pub proof fn unwrapping_stops_only_at_the_end(url: UrlParts, layers: nat)
    ensures
        exists|hops: nat|
            {
                &&& hops <= layers
                &&& #[trigger] hop_count(url, unwrapped(url, layers), hops)
                &&& hops == layers || next_hop(unwrapped(url, layers)) is None
            },
    decreases layers,
{
    match next_hop(url) {
        Some(next) if layers > 0 => {
            let fewer = (layers - 1) as nat;
            unwrapping_stops_only_at_the_end(next, fewer);
            let hops = choose|hops: nat|
                {
                    &&& hops <= fewer
                    &&& #[trigger] hop_count(next, unwrapped(next, fewer), hops)
                    &&& hops == fewer || next_hop(unwrapped(next, fewer)) is None
                };
            assert(hop_count(url, unwrapped(url, layers), (hops + 1) as nat));
        },
        _ => {
            assert(hop_count(url, unwrapped(url, layers), 0));
        },
    }
}

/// `last` is reached from `url` by exactly this many hops.
pub open spec fn hop_count(url: UrlParts, last: UrlParts, hops: nat) -> bool
    decreases hops,
{
    if hops == 0 {
        url == last
    } else {
        match next_hop(url) {
            Some(next) => hop_count(next, last, (hops - 1) as nat),
            None => false,
        }
    }
}

/// The target of a redirect is the value of a field named `q` or `url`, and no field before it
/// has such a name; there is none exactly where no field has.
pub proof fn first_target_is_the_first(fields: Seq<(Seq<char>, Seq<char>)>)
    ensures
        match first_target(fields) {
            Some(target) => exists|i: int|
                {
                    &&& 0 <= i < fields.len()
                    &&& names_target(#[trigger] fields[i].0)
                    &&& fields[i].1 == target
                    &&& forall|j: int| 0 <= j < i ==> !names_target(#[trigger] fields[j].0)
                },
            None => forall|j: int| 0 <= j < fields.len() ==> !names_target(#[trigger] fields[j].0),
        },
    decreases fields.len(),
{
    if fields.len() > 0 && !names_target(fields[0].0) {
        let rest = fields.skip(1);
        first_target_is_the_first(rest);
        match first_target(rest) {
            Some(target) => {
                let i = choose|i: int|
                    {
                        &&& 0 <= i < rest.len()
                        &&& names_target(#[trigger] rest[i].0)
                        &&& rest[i].1 == target
                        &&& forall|j: int| 0 <= j < i ==> !names_target(#[trigger] rest[j].0)
                    };
                assert(names_target(fields[i + 1].0));
                assert forall|j: int| 0 <= j < i + 1 implies !names_target(
                    #[trigger] fields[j].0,
                ) by {
                    if j > 0 {
                        assert(!names_target(rest[j - 1].0));
                    }
                }
            },
            None => {
                assert forall|j: int| 0 <= j < fields.len() implies !names_target(
                    #[trigger] fields[j].0,
                ) by {
                    if j > 0 {
                        assert(!names_target(rest[j - 1].0));
                    }
                }
            },
        }
    }
}

/// A wrapper of Google is known by its host and its path, and by nothing else: the host is
/// `google.com`, with `www.` before it or without, and the path is `/url`.
pub proof fn redirects_are_known_by_host_and_path(url: &Url, redirect: bool)
    requires
        call_ensures(is_google_redirect, (url,), redirect),
    ensures
        redirect <==> url.path@ == "/url"@ && (url.host matches Some(host) && (host@
            == "google.com"@ || host@ == "www.google.com"@)),
{
}

/// What the web serves from hosts that are not Google's leaves the window, over `http` as over
/// `https`: all hosts but `google.com`, `accounts.youtube.com` and the subdomains of `google.com`,
/// `googleusercontent.com` and `gstatic.com`.
pub proof fn foreign_pages_leave(url: &Url, internal: bool, navigation: Navigation)
    requires
        url.scheme@ == "http"@ || url.scheme@ == "https"@,
        url.host matches Some(host) ==> {
            &&& host@ != "google.com"@
            &&& host@ != "accounts.youtube.com"@
            &&& forall|name: Seq<char>| host@ != #[trigger] (name + ".google.com"@)
            &&& forall|name: Seq<char>| host@ != #[trigger] (name + ".googleusercontent.com"@)
            &&& forall|name: Seq<char>| host@ != #[trigger] (name + ".gstatic.com"@)
        },
        call_ensures(is_internal_url, (url,), internal),
        call_ensures(navigate, (url,), navigation),
    ensures
        !internal,
        navigation is Leave,
{
    if let Some(host) = url.host {
        endings_are_backs(host@, ".google.com"@);
        endings_are_backs(host@, ".googleusercontent.com"@);
        endings_are_backs(host@, ".gstatic.com"@);
    }
}

/// What comes from one of Google's hosts stays in the window, whatever the name before the dot, the
/// path, the query and the scheme are, unless it is the wrapper.
pub proof fn pages_of_google_stay(
    url: &Url,
    name: Seq<char>,
    internal: bool,
    navigation: Navigation,
)
    requires
        url.host matches Some(host) && (host@ == "google.com"@ || host@ == "accounts.youtube.com"@
            || host@ == name + ".google.com"@ || host@ == name + ".googleusercontent.com"@ || host@
            == name + ".gstatic.com"@) && (url.path@ != "/url"@ || (host@ != "google.com"@ && host@
            != "www.google.com"@)),
        call_ensures(is_internal_url, (url,), internal),
        call_ensures(navigate, (url,), navigation),
    ensures
        internal,
        navigation is Stay,
{
    if let Some(host) = url.host {
        endings_are_backs(host@, ".google.com"@);
        endings_are_backs(host@, ".googleusercontent.com"@);
        endings_are_backs(host@, ".gstatic.com"@);
    }
}

/// The wrapper leaves the window over `http` and `https`, whatever it wraps and even where it wraps
/// nothing.
pub proof fn wrappers_leave(url: &Url, internal: bool, navigation: Navigation)
    requires
        url.scheme@ == "http"@ || url.scheme@ == "https"@,
        url.path@ == "/url"@,
        url.host matches Some(host) && (host@ == "google.com"@ || host@ == "www.google.com"@),
        call_ensures(is_internal_url, (url,), internal),
        call_ensures(navigate, (url,), navigation),
    ensures
        !internal,
        navigation is Leave,
{
}

/// What is neither `http` nor `https` belongs to the application and stays, wherever it points.
pub proof fn pages_of_the_application_stay(url: &Url, internal: bool, navigation: Navigation)
    requires
        url.scheme@ != "http"@,
        url.scheme@ != "https"@,
        call_ensures(is_internal_url, (url,), internal),
        call_ensures(navigate, (url,), navigation),
    ensures
        internal,
        navigation is Stay,
{
}

/// Whether a page stays goes by scheme, host and path: query and fragment have no say, and `http`
/// counts as `https`.
pub proof fn queries_do_not_decide(
    url: &Url,
    other: &Url,
    internal: bool,
    same: bool,
)
    requires
        url@.host == other@.host,
        url@.path == other@.path,
        url.scheme@ == other.scheme@ || (url.scheme@ == "http"@ && other.scheme@ == "https"@),
        call_ensures(is_internal_url, (url,), internal),
        call_ensures(is_internal_url, (other,), same),
    ensures
        internal == same,
{
}

/// The target is the value of the first field named `q` or `url`, at whatever place it stands and
/// whatever follows it.
pub proof fn first_named_field_is_the_target(
    fields: &Vec<(String, String)>,
    at: int,
    target: Option<String>,
)
    requires
        0 <= at < fields@.len(),
        fields@[at].0@ == "q"@ || fields@[at].0@ == "url"@,
        forall|j: int|
            0 <= j < at ==> (#[trigger] fields@[j]).0@ != "q"@ && fields@[j].0@ != "url"@,
        call_ensures(redirect_target, (fields,), target),
    ensures
        target matches Some(text) && text@ == fields@[at].1@,
{
    let all = fields_view(fields@);
    assert forall|j: int| 0 <= j < at implies (#[trigger] all[j]).0 != "q"@ && all[j].0 != "url"@ by {
        assert(fields@[j].0@ == all[j].0);
    }
    lemma_first_target(all, at);
}

/// There is no target where no field is named `q` or `url`.
pub proof fn without_a_named_field_there_is_no_target(
    fields: &Vec<(String, String)>,
    target: Option<String>,
)
    requires
        forall|j: int|
            0 <= j < fields@.len() ==> (#[trigger] fields@[j]).0@ != "q"@ && fields@[j].0@
                != "url"@,
        call_ensures(redirect_target, (fields,), target),
    ensures
        target is None,
{
    let all = fields_view(fields@);
    assert forall|j: int| 0 <= j < all.len() implies (#[trigger] all[j]).0 != "q"@ && all[j].0
        != "url"@ by {
        assert(fields@[j].0@ == all[j].0);
    }
    lemma_no_target(all);
}

/// The first field with a name of a target holds it.
proof fn lemma_first_target(fields: Seq<(Seq<char>, Seq<char>)>, at: int)
    requires
        0 <= at < fields.len(),
        fields[at].0 == "q"@ || fields[at].0 == "url"@,
        forall|j: int| 0 <= j < at ==> (#[trigger] fields[j]).0 != "q"@ && fields[j].0 != "url"@,
    ensures
        first_target(fields) == Some(fields[at].1),
    decreases fields.len(),
{
    if at > 0 {
        let rest = fields.skip(1);
        assert(fields[0].0 != "q"@);
        assert forall|j: int| 0 <= j < at - 1 implies (#[trigger] rest[j]).0 != "q"@ && rest[j].0
            != "url"@ by {
            assert(rest[j] == fields[j + 1]);
        }
        lemma_first_target(rest, at - 1);
    }
}

/// Fields with other names hold no target.
proof fn lemma_no_target(fields: Seq<(Seq<char>, Seq<char>)>)
    requires
        forall|j: int|
            0 <= j < fields.len() ==> (#[trigger] fields[j]).0 != "q"@ && fields[j].0 != "url"@,
    ensures
        first_target(fields) is None,
    decreases fields.len(),
{
    if fields.len() > 0 {
        let rest = fields.skip(1);
        assert(fields[0].0 != "q"@);
        assert forall|j: int| 0 <= j < rest.len() implies (#[trigger] rest[j]).0 != "q"@ && rest[j].0
            != "url"@ by {
            assert(rest[j] == fields[j + 1]);
        }
        lemma_no_target(rest);
    }
}

/// A wrapper comes apart at the first field of its query that is named `q` or `url`: what the value
/// reads as is inside, however many other fields stand before and behind it.
pub proof fn wrappers_come_apart(url: &Url, at: int, inner: Option<Url>)
    requires
        url.path@ == "/url"@,
        url.host matches Some(host) && (host@ == "google.com"@ || host@ == "www.google.com"@),
        url.query matches Some(query) && {
            let fields = form_fields(query@);
            &&& 0 <= at < fields.len()
            &&& fields[at].0 == "q"@ || fields[at].0 == "url"@
            &&& forall|j: int|
                0 <= j < at ==> (#[trigger] fields[j]).0 != "q"@ && fields[j].0 != "url"@
        },
        call_ensures(unwrap_one_redirect, (url,), inner),
    ensures
        url.query matches Some(query) && url_view(inner) == parsed_url(form_fields(query@)[at].1),
{
    if let Some(query) = url.query {
        lemma_first_target(form_fields(query@), at);
    }
}

/// Nothing is inside a URL that is no wrapper, has no query or has no field named `q` or `url`.
pub proof fn other_links_hold_no_link(url: &Url, inner: Option<Url>)
    requires
        ({
            ||| url.path@ != "/url"@
            ||| url.host is None
            ||| url.host matches Some(host) && host@ != "google.com"@ && host@ != "www.google.com"@
            ||| url.query is None
            ||| url.query matches Some(query) && forall|j: int|
                0 <= j < form_fields(query@).len() ==> (#[trigger] form_fields(query@)[j]).0
                    != "q"@ && form_fields(query@)[j].0 != "url"@
        }),
        call_ensures(unwrap_one_redirect, (url,), inner),
    ensures
        inner is None,
{
    if let Some(query) = url.query {
        if forall|j: int|
            0 <= j < form_fields(query@).len() ==> (#[trigger] form_fields(query@)[j]).0 != "q"@
                && form_fields(query@)[j].0 != "url"@ {
            lemma_no_target(form_fields(query@));
        }
    }
}

/// Taking a link apart is taking off one wrapper after the other: where there is none the link is
/// kept, otherwise what is inside is taken, and what is inside that, up to three times.
pub proof fn up_to_three_wrappers_come_off(
    url: &Url,
    first: Option<Url>,
    second: Option<Url>,
    third: Option<Url>,
    target: String,
)
    requires
        call_ensures(unwrap_google_redirect, (url,), target),
        call_ensures(unwrap_one_redirect, (url,), first),
        first matches Some(inner) ==> call_ensures(unwrap_one_redirect, (&inner,), second),
        second matches Some(inner) ==> call_ensures(unwrap_one_redirect, (&inner,), third),
    ensures
        match (first, second, third) {
            (None, _, _) => target@ == url.text@,
            (Some(one), None, _) => target@ == one.text@,
            (Some(_), Some(two), None) => target@ == two.text@,
            (Some(_), Some(_), Some(three)) => target@ == three.text@,
        },
{
    reveal_with_fuel(unwrapped, 4);
}

/// Wrapping a link as Google does and taking it apart again gives the link: the wrapper's query
/// begins with `q=` and the link as forms write it, and any further fields may follow.
pub proof fn wrapping_is_undone(
    url: &Url,
    text: Seq<char>,
    rest: Seq<char>,
    inner: Option<Url>,
    target: String,
)
    requires
        url.path@ == "/url"@,
        url.host matches Some(host) && (host@ == "google.com"@ || host@ == "www.google.com"@),
        url.query matches Some(query) && query@ == "q="@ + form_encoded(text) + rest,
        rest.len() == 0 || rest[0] == '&',
        call_ensures(unwrap_one_redirect, (url,), inner),
        call_ensures(unwrap_google_redirect, (url,), target),
    ensures
        url_view(inner) == parsed_url(text),
        (parsed_url(text) matches Some(link) && link.text == text && (link.path != "/url"@ || (
        link.host != Some("google.com"@) && link.host != Some("www.google.com"@)))) ==> target@
            == text,
{
    if let Some(query) = url.query {
        reveal_strlit("q");
        reveal_strlit("=");
        reveal_strlit("q=");
        assert("q="@ == "q"@ + "="@);
        let field = "q"@ + "="@ + form_encoded(text);
        assert(query@ == field + rest);
        assert(query@.subrange(0, field.len() as int) == field);
        let link = UrlParts { text, ..url@ };
        assert(wraps(url@, link));
        if let Some(back) = parsed_url(text) {
            if back.text == text && !is_redirect(back) {
                assert(reads_back(link));
            }
        }
    }
}

/// A page that leaves is opened at the link inside it, not at the wrapper; one that wraps nothing
/// is opened as it is.
pub proof fn links_inside_are_opened(
    url: &Url,
    inner: Option<Url>,
    navigation: Navigation,
    opened: Seq<char>,
)
    requires
        call_ensures(navigate, (url,), navigation),
        call_ensures(unwrap_one_redirect, (url,), inner),
        navigation matches Navigation::Leave { target } && target@ == opened,
    ensures
        inner is None ==> opened == url.text@,
        inner matches Some(link) ==> (link.path@ != "/url"@ || (link@.host != Some("google.com"@)
            && link@.host != Some("www.google.com"@))) ==> opened == link.text@,
{
    reveal_with_fuel(unwrapped, 4);
}

/// Where a page leaves, the browser opens exactly what the unwrapping of its address gives.
pub proof fn unwrapped_links_are_opened(url: &Url, navigation: Navigation, target: String)
    requires
        call_ensures(navigate, (url,), navigation),
        call_ensures(unwrap_google_redirect, (url,), target),
    ensures
        navigation matches Navigation::Leave { target: opened } ==> opened@ == target@,
{
}

/// A look that finds a link inside goes on with that link and one look less, until the last look,
/// which leaves the link; a look that finds nothing leaves the URL itself.
pub proof fn looks_are_counted(url: Url, inner: Option<Url>, layers: u32, state: Unwrapping)
    requires
        layers > 0,
        call_ensures(after_look, (url, inner, layers), state),
    ensures
        match (inner, state) {
            (None, Unwrapping::Left { text }) => text@ == url.text@,
            (None, _) => false,
            (Some(link), Unwrapping::Left { text }) => layers == 1 && text@ == link.text@,
            (Some(link), Unwrapping::LookInto { url: next, layers: left }) => left > 0 && left + 1
                == layers && next@ == link@,
        },
{
}

} // verus!
