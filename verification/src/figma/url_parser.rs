//! Addresses of the design service's site.
//!
//! An address is accepted if its host is that of the service, as the `url`
//! crate reads it. What it points at is then told from its text alone: a
//! file, with or without a node, or something unknown.

use crate::error::Error;
use crate::error::ErrorView;
use crate::text::after_word;
use crate::text::copy_range;
use crate::text::lemma_until;
use crate::text::scan_until;
use crate::text::skip_letters;
use crate::text::skip_word;
use crate::text::to_chars;
use crate::text::until;
use url::ParseError;
use url::Url;
use vstd::prelude::*;
use vstd::string::*;

verus! {

/// What an address of the design service points at.
#[derive(Debug, Clone, PartialEq)]
pub enum FigmaUrlType {
    /// A file, and the node of it that the address names, if it names one.
    File { file_id: String, node_id: Option<String> },
    /// Something on the service's host that is not a file.
    Unknown,
}

/// A classified address, together with the text it was read from.
#[derive(Debug, Clone, PartialEq)]
pub struct FigmaUrlInfo {
    pub url_type: FigmaUrlType,
    pub original_url: String,
}

/// What a `FigmaUrlType` holds, as mathematical values.
pub enum FigmaUrlTypeView {
    File { file_id: Seq<char>, node_id: Option<Seq<char>> },
    Unknown,
}

/// What a `FigmaUrlInfo` holds, as mathematical values.
pub struct FigmaUrlInfoView {
    pub url_type: FigmaUrlTypeView,
    pub original_url: Seq<char>,
}

impl View for FigmaUrlType {
    type V = FigmaUrlTypeView;

    open spec fn view(&self) -> FigmaUrlTypeView {
        match self {
            FigmaUrlType::File { file_id, node_id } => FigmaUrlTypeView::File {
                file_id: file_id@,
                node_id: match node_id {
                    Some(id) => Some(id@),
                    None => None,
                },
            },
            FigmaUrlType::Unknown => FigmaUrlTypeView::Unknown,
        }
    }
}

impl View for FigmaUrlInfo {
    type V = FigmaUrlInfoView;

    open spec fn view(&self) -> FigmaUrlInfoView {
        FigmaUrlInfoView { url_type: self.url_type@, original_url: self.original_url@ }
    }
}

/// The position behind whichever of the two words `s` holds at `at`.
pub open spec fn after_either(s: Seq<char>, at: int, first: Seq<char>, second: Seq<char>) -> Option<
    int,
> {
    match after_word(s, at, first) {
        Some(end) => Some(end),
        None => after_word(s, at, second),
    }
}

/// The position at which the file id begins, where `s` begins as the
/// address of a file does: `http://` or `https://`, the host with or without
/// `www.`, and `file/` or `design/`.
pub open spec fn file_id_start(s: Seq<char>) -> Option<int> {
    match after_either(s, 0, "https://"@, "http://"@) {
        None => None,
        Some(host) => match after_either(s, host, "www.figma.com/"@, "figma.com/"@) {
            None => None,
            Some(kind) => after_either(s, kind, "file/"@, "design/"@),
        },
    }
}

/// A letter of the basic Latin alphabet or a digit.
pub open spec fn is_id_char(c: char) -> bool {
    ('A' <= c <= 'Z') || ('a' <= c <= 'z') || ('0' <= c <= '9')
}

/// The position behind the run of id characters that begins at `from`.
pub open spec fn id_end(s: Seq<char>, from: int) -> int
    decreases s.len() - from,
{
    if 0 <= from < s.len() && is_id_char(s[from]) {
        id_end(s, from + 1)
    } else {
        from
    }
}

/// The position behind the rest of the path: where a `/` follows the file
/// id, everything up to the next `?` belongs to the path.
pub open spec fn path_end(s: Seq<char>, at: int) -> int {
    if 0 <= at < s.len() && s[at] == '/' {
        until(s, at + 1, '?')
    } else {
        at
    }
}

/// The word that introduces the node in the query.
pub open spec fn node_key() -> Seq<char> {
    "node-id="@
}

/// `k` is a place in the query that begins at `query` where a node is
/// named: the key stands at `k`, a value of at least one character that is
/// not `&` follows it, and no line break lies between the `?` and `k`.
pub open spec fn marks_node_id(s: Seq<char>, query: int, k: int) -> bool {
    &&& query < k
    &&& forall|j: int| query < j < k ==> s[j] != '\n'
    &&& after_word(s, k, node_key()) matches Some(value)
    &&& value < s.len()
    &&& s[value] != '&'
}

/// `k` is the last place in the query where a node is named.
pub open spec fn is_last_mark(s: Seq<char>, query: int, k: int) -> bool {
    &&& marks_node_id(s, query, k)
    &&& forall|other: int| marks_node_id(s, query, other) ==> other <= k
}

/// The node that the query names: the value behind the last key, up to the
/// next `&`. The value is taken as it stands, with nothing decoded.
pub open spec fn node_id_of(s: Seq<char>, at: int) -> Option<Seq<char>> {
    if 0 <= at < s.len() && s[at] == '?' && exists|k: int| is_last_mark(s, at, k) {
        let k = choose|k: int| is_last_mark(s, at, k);
        let value = k + node_key().len();
        Some(s.subrange(value, until(s, value, '&')))
    } else {
        None
    }
}

/// What the text of an address points at.
///
/// The address of a file begins as `file_id_start` says and goes on with a
/// file id of at least one character. What follows the id is looked at only
/// for a node: a path may follow, and a query may follow that.
pub open spec fn classified(s: Seq<char>) -> FigmaUrlTypeView {
    match file_id_start(s) {
        None => FigmaUrlTypeView::Unknown,
        Some(start) => {
            let end = id_end(s, start);
            if end == start {
                FigmaUrlTypeView::Unknown
            } else {
                FigmaUrlTypeView::File {
                    file_id: s.subrange(start, end),
                    node_id: node_id_of(s, path_end(s, end)),
                }
            }
        },
    }
}

/// Tells whether the host is that of the design service.
pub open spec fn is_figma_host(host: Option<Seq<char>>) -> bool {
    host == Some("figma.com"@) || host == Some("www.figma.com"@)
}

/// The message for an address that cannot be read as one.
pub open spec fn malformed_message(address: Seq<char>) -> Seq<char> {
    "Malformed URL: "@ + address
}

/// The message for an address on another host.
pub open spec fn foreign_message(address: Seq<char>) -> Seq<char> {
    "Not a Figma URL: "@ + address
}

/// The message for an address that is not that of a file.
pub open spec fn not_a_file_message(address: Seq<char>) -> Seq<char> {
    "URL is not a file URL: "@ + address
}

/// What parsing gives for an address whose host was read as `host`: `None`
/// for an address that cannot be read, else the host, if it has one.
pub open spec fn parse_outcome(address: Seq<char>, host: Option<Option<Seq<char>>>) -> Result<
    FigmaUrlInfoView,
    ErrorView,
> {
    match host {
        None => Err(ErrorView::InvalidUrl(malformed_message(address))),
        Some(name) => if is_figma_host(name) {
            Ok(FigmaUrlInfoView { url_type: classified(address), original_url: address })
        } else {
            Err(ErrorView::InvalidUrl(foreign_message(address)))
        },
    }
}

/// The file id that an outcome of parsing holds.
pub open spec fn file_id_outcome(address: Seq<char>, parsed: Result<FigmaUrlInfoView, ErrorView>) -> Result<
    Seq<char>,
    ErrorView,
> {
    match parsed {
        Ok(info) => match info.url_type {
            FigmaUrlTypeView::File { file_id, node_id } => Ok(file_id),
            FigmaUrlTypeView::Unknown => Err(ErrorView::InvalidUrl(not_a_file_message(address))),
        },
        Err(e) => Err(e),
    }
}

/// The views of the two sides of a parsing result.
pub open spec fn info_result_view(r: Result<FigmaUrlInfo, Error>) -> Result<FigmaUrlInfoView, ErrorView> {
    match r {
        Ok(info) => Ok(info@),
        Err(e) => Err(e@),
    }
}

/// The views of the two sides of a result that holds a text.
pub open spec fn text_result_view(r: Result<String, Error>) -> Result<Seq<char>, ErrorView> {
    match r {
        Ok(text) => Ok(text@),
        Err(e) => Err(e@),
    }
}

/// The host that the `url` crate reads from an address: `None` where it
/// cannot parse the address, `Some(None)` where the address has no host, else
/// the host as the crate writes it.
pub uninterp spec fn parsed_host(address: Seq<char>) -> Option<Option<Seq<char>>>;

/// The reason for which the `url` crate could not parse an address.
/// Nothing of it is known here.
#[verifier::external_type_specification]
#[verifier::external_body]
pub struct ExParseError(ParseError);

/// Parses `address` with `Url::parse` and reads the host with
/// `Url::host_str`. The outcome is a function of the text alone, which
/// `parsed_host` names; nothing more is claimed of it.
#[verifier::external_body]
fn read_host(address: &str) -> (host: Result<Option<String>, ParseError>)
    ensures
        match host {
            Ok(Some(name)) => parsed_host(address@) == Some(Some(name@)),
            Ok(None) => parsed_host(address@) == Some(None::<Seq<char>>),
            Err(_) => parsed_host(address@) is None,
        },
{
    match Url::parse(address) {
        Ok(url) => Ok(url.host_str().map(|name| name.to_string())),
        Err(e) => Err(e),
    }
}

fn scan_id(chars: &Vec<char>, from: usize) -> (end: usize)
    requires
        from <= chars@.len(),
    ensures
        end == id_end(chars@, from as int),
        from <= end <= chars@.len(),
{
    let mut i: usize = from;
    while i < chars.len() && is_id(chars[i])
        invariant
            from <= i <= chars.len(),
            id_end(chars@, from as int) == id_end(chars@, i as int),
        decreases chars.len() - i,
    {
        i += 1;
    }
    i
}

fn is_id(c: char) -> (b: bool)
    ensures
        b == is_id_char(c),
{
    (c >= 'A' && c <= 'Z') || (c >= 'a' && c <= 'z') || (c >= '0' && c <= '9')
}

fn skip_either(chars: &Vec<char>, at: usize, first: &str, second: &str) -> (end: Option<usize>)
    requires
        at <= chars@.len(),
    ensures
        match end {
            Some(e) => after_either(chars@, at as int, first@, second@) == Some(e as int) && e
                <= chars@.len(),
            None => after_either(chars@, at as int, first@, second@) is None,
        },
{
    match skip_word(chars, at, first) {
        Some(end) => Some(end),
        None => skip_word(chars, at, second),
    }
}

/// The position of the value behind the last key of the query that begins
/// at `query`, if the query names a node.
fn find_node_value(chars: &Vec<char>, query: usize) -> (found: Option<usize>)
    requires
        query < chars@.len(),
    ensures
        match found {
            Some(value) => exists|k: int|
                is_last_mark(chars@, query as int, k) && value == k + node_key().len() && value
                    < chars@.len(),
            None => forall|k: int| !marks_node_id(chars@, query as int, k),
        },
{
    let ghost s = chars@;
    let key = to_chars("node-id=");
    let mut best: Option<usize> = None;
    let ghost mut best_at: int = 0;
    let n: usize = chars.len();
    let mut i: usize = query + 1;
    while i < n && chars[i] != '\n'
        invariant
            query < i <= n,
            n == chars.len(),
            s == chars@,
            key@ == node_key(),
            forall|j: int| query < j < i ==> s[j] != '\n',
            match best {
                Some(value) => marks_node_id(s, query as int, best_at) && value == best_at
                    + node_key().len() && value < s.len() && best_at < i,
                None => true,
            },
            forall|k: int| k < i && marks_node_id(s, query as int, k) ==> best is Some && k <= best_at,
        decreases n - i,
    {
        if let Some(value) = skip_letters(chars, i, &key) {
            if value < chars.len() && chars[value] != '&' {
                best = Some(value);
                proof {
                    best_at = i as int;
                }
            }
        }
        i += 1;
    }
    proof {
        reveal_strlit("node-id=");
        assert forall|k: int| k >= i implies !marks_node_id(s, query as int, k) by {
            if marks_node_id(s, query as int, k) {
                // The key begins with a letter, so it does not begin at a line break.
                assert(s.subrange(k, k + node_key().len())[0] == 'n');
            }
        }
        if best is Some {
            assert(is_last_mark(s, query as int, best_at));
        }
    }
    best
}

/// Computes `classified`.
pub fn classify(address: &str) -> (kind: FigmaUrlType)
    ensures
        kind@ == classified(address@),
{
    let chars = to_chars(address);
    let host = match skip_either(&chars, 0, "https://", "http://") {
        Some(host) => host,
        None => {
            return FigmaUrlType::Unknown;
        },
    };
    let kind = match skip_either(&chars, host, "www.figma.com/", "figma.com/") {
        Some(kind) => kind,
        None => {
            return FigmaUrlType::Unknown;
        },
    };
    let start = match skip_either(&chars, kind, "file/", "design/") {
        Some(start) => start,
        None => {
            return FigmaUrlType::Unknown;
        },
    };
    let end = scan_id(&chars, start);
    if end == start {
        return FigmaUrlType::Unknown;
    }
    let file_id = copy_range(address, start, end);
    let path = if end < chars.len() && chars[end] == '/' {
        scan_until(&chars, end + 1, '?')
    } else {
        end
    };
    let node_id = if path < chars.len() && chars[path] == '?' {
        match find_node_value(&chars, path) {
            Some(value) => {
                let stop = scan_until(&chars, value, '&');
                proof {
                    // There is one last place only, so it is the one that was found.
                    assert(is_last_mark(chars@, path as int, value - node_key().len()));
                }
                Some(copy_range(address, value, stop))
            },
            None => None,
        }
    } else {
        None
    };
    FigmaUrlType::File { file_id, node_id }
}

/// Reads addresses of the design service.
#[derive(Debug, Clone, Copy)]
pub struct FigmaUrlParser {}

impl FigmaUrlParser {
    /// A parser. It has no settings: what it accepts is fixed.
    pub fn new() -> (parser: FigmaUrlParser)
        ensures
            parser == (FigmaUrlParser {  }),
    {
        FigmaUrlParser {  }
    }

    /// Tells whether the host is that of the design service.
    pub fn is_figma_url(host: &Option<String>) -> (b: bool)
        ensures
            b == is_figma_host(
                match host {
                    Some(name) => Some(name@),
                    None => None,
                },
            ),
    {
        match host {
            Some(name) => {
                let chars = to_chars(name.as_str());
                spells(&chars, "figma.com") || spells(&chars, "www.figma.com")
            },
            None => false,
        }
    }

    /// Classifies an address whose host has been read already. `host` is
    /// what the `url` crate made of the address: an error where it could not
    /// parse it, else the host, if the address has one.
    pub fn parse_with_host(address: &str, host: Result<Option<String>, ParseError>) -> (parsed: Result<
        FigmaUrlInfo,
        Error,
    >)
        ensures
            info_result_view(parsed) == parse_outcome(
                address@,
                match host {
                    Ok(Some(name)) => Some(Some(name@)),
                    Ok(None) => Some(None),
                    Err(_) => None,
                },
            ),
    {
        match host {
            Err(_) => {
                let mut message = String::from_str("Malformed URL: ");
                message.append(address);
                Err(Error::InvalidUrl(message))
            },
            Ok(name) => {
                if Self::is_figma_url(&name) {
                    Ok(FigmaUrlInfo { url_type: classify(address), original_url: String::from_str(address) })
                } else {
                    let mut message = String::from_str("Not a Figma URL: ");
                    message.append(address);
                    Err(Error::InvalidUrl(message))
                }
            },
        }
    }

    /// Classifies an address.
    ///
    /// An address that cannot be read as one, or whose host is not that of
    /// the design service, is an error. Any other address is classified by
    /// its text: as a file, or as unknown.
    pub fn parse(&self, address: &str) -> (parsed: Result<FigmaUrlInfo, Error>)
        ensures
            info_result_view(parsed) == parse_outcome(address@, parsed_host(address@)),
    {
        Self::parse_with_host(address, read_host(address))
    }

    /// The file id of an address that was parsed to `parsed`: an address
    /// that is not that of a file is an error, and an error stays one.
    pub fn file_id_of(address: &str, parsed: Result<FigmaUrlInfo, Error>) -> (id: Result<String, Error>)
        ensures
            text_result_view(id) == file_id_outcome(address@, info_result_view(parsed)),
    {
        match parsed {
            Ok(info) => match info.url_type {
                FigmaUrlType::File { file_id, node_id } => Ok(file_id),
                FigmaUrlType::Unknown => {
                    let mut message = String::from_str("URL is not a file URL: ");
                    message.append(address);
                    Err(Error::InvalidUrl(message))
                },
            },
            Err(e) => Err(e),
        }
    }

    /// The file id of an address.
    pub fn extract_file_id(&self, address: &str) -> (id: Result<String, Error>)
        ensures
            text_result_view(id) == file_id_outcome(
                address@,
                parse_outcome(address@, parsed_host(address@)),
            ),
    {
        let parsed = self.parse(address);
        Self::file_id_of(address, parsed)
    }
}

impl Default for FigmaUrlParser {
    fn default() -> (parser: FigmaUrlParser)
        ensures
            parser == (FigmaUrlParser {  }),
    {
        FigmaUrlParser::new()
    }
}

fn spells(chars: &Vec<char>, word: &str) -> (b: bool)
    ensures
        b == (chars@ == word@),
{
    match skip_word(chars, 0, word) {
        Some(end) => {
            if end == chars.len() {
                assert(chars@.subrange(0, end as int) =~= chars@);
                true
            } else {
                false
            }
        },
        None => {
            proof {
                if chars@ == word@ {
                    assert(chars@.subrange(0, word@.len() as int) =~= word@);
                }
            }
            false
        },
    }
}

/// Between `from` and `id_end(s, from)` every character is an id character.
pub proof fn lemma_id_end(s: Seq<char>, from: int)
    requires
        0 <= from <= s.len(),
    ensures
        from <= id_end(s, from) <= s.len(),
        forall|i: int| from <= i < id_end(s, from) ==> is_id_char(s[i]),
        id_end(s, from) < s.len() ==> !is_id_char(s[id_end(s, from)]),
    decreases s.len() - from,
{
    if from < s.len() && is_id_char(s[from]) {
        lemma_id_end(s, from + 1);
    }
}

/// Parsing has two tiers. Whether it succeeds is decided by the host alone:
/// it succeeds exactly where the address has the host of the design
/// service, and every failure is an invalid address. What stands behind the
/// host only decides between a file and unknown.
pub proof fn lemma_parse_two_tiers(address: Seq<char>, host: Option<Option<Seq<char>>>)
    ensures
        parse_outcome(address, host) is Ok <==> (host matches Some(name) && is_figma_host(name)),
        parse_outcome(address, host) matches Ok(info) ==> info.original_url == address && info.url_type
            == classified(address),
        parse_outcome(address, host) matches Err(e) ==> e is InvalidUrl,
{
}

/// The file id of an address is found exactly where the address is parsed
/// as that of a file. An address on the right host that is no file address
/// gives an invalid-address error, as every failure of parsing does.
pub proof fn lemma_file_id_needs_a_file(address: Seq<char>, host: Option<Option<Seq<char>>>)
    ensures
        file_id_outcome(address, parse_outcome(address, host)) is Ok <==> (parse_outcome(address, host)
            matches Ok(info) && info.url_type is File),
        file_id_outcome(address, parse_outcome(address, host)) matches Err(e) ==> e is InvalidUrl,
{
}

/// The file id of a file address is not empty and is made of id characters
/// alone. The node id, where there is one, is not empty and holds no `&`.
pub proof fn lemma_file_address_shape(s: Seq<char>)
    ensures
        classified(s) matches FigmaUrlTypeView::File { file_id, node_id } ==> {
            &&& file_id.len() > 0
            &&& forall|i: int| 0 <= i < file_id.len() ==> is_id_char(file_id[i])
            &&& node_id matches Some(node) ==> {
                &&& node.len() > 0
                &&& forall|i: int| 0 <= i < node.len() ==> node[i] != '&'
            }
        },
{
    if let FigmaUrlTypeView::File { file_id, node_id } = classified(s) {
        let start = file_id_start(s)->0;
        assert(0 <= start <= s.len()) by {
            let host = after_either(s, 0, "https://"@, "http://"@)->0;
            let kind = after_either(s, host, "www.figma.com/"@, "figma.com/"@)->0;
        }
        lemma_id_end(s, start);
        let end = id_end(s, start);
        if let Some(node) = node_id {
            let at = path_end(s, end);
            let k = choose|k: int| is_last_mark(s, at, k);
            let value = k + node_key().len();
            lemma_until(s, value, '&');
        }
    }
}

} // verus!
