use crate::config::{ConfigView, KangarooConfig};
use crate::dev_server::{DevServerClientView, FrontendDevelopmentServerClient};
use vstd::prelude::*;
use vstd::string::StringExecFns;
use vstd::utf8::{decode_utf8, encode_utf8, is_char_boundary};

verus! {

/// The pattern that finds the opening `<head>` tag of a document.
pub open spec fn head_tag_pattern() -> Seq<char> {
    "(?i)<head\\b[^>]*>"@
}

/// What searching `haystack` for the first match of the regular expression
/// `pattern` gives: `None` when `pattern` does not compile, else the byte
/// range of the first match, if any.
pub uninterp spec fn regex_first_match(pattern: Seq<char>, haystack: Seq<char>) -> Option<
    Option<(usize, usize)>,
>;

/// Compiles `pattern` with `regex::Regex::new` and searches `haystack` with
/// `regex::Regex::find`. The result is named [`regex_first_match`]; beyond the
/// name, the contract states what the `regex` documentation promises of a
/// match: its start is at most its end and both fall on UTF-8 character
/// boundaries of the haystack.
#[verifier::external_body]
fn find_first_match(pattern: &str, haystack: &str) -> (found: Option<Option<(usize, usize)>>)
    ensures
        found == regex_first_match(pattern@, haystack@),
        found matches Some(Some((start, end))) ==> {
            &&& start <= end
            &&& is_char_boundary(encode_utf8(haystack@), start as int)
            &&& is_char_boundary(encode_utf8(haystack@), end as int)
        },
{
    match regex::Regex::new(pattern) {
        Ok(re) => Some(re.find(haystack).map(|m| (m.start(), m.end()))),
        Err(_) => None,
    }
}

/// The opening tag of the script element that carries the data.
pub open spec fn data_script_open() -> Seq<char> {
    "<script type=\"application/json\" id=\"kangaroo-data\">"@
}

/// The closing tag of the script element that carries the data.
pub open spec fn data_script_close() -> Seq<char> {
    "</script>"@
}

/// The script element that carries `json` into the page.
pub open spec fn data_script_spec(json: Seq<char>) -> Seq<char> {
    data_script_open() + json + data_script_close()
}

/// `text` with `inserted` put at the byte offset `at` of its UTF-8 encoding.
pub open spec fn insert_at_byte(text: Seq<char>, at: int, inserted: Seq<char>) -> Seq<char> {
    let bytes = encode_utf8(text);
    decode_utf8(bytes.subrange(0, at)) + inserted + decode_utf8(
        bytes.subrange(at, bytes.len() as int),
    )
}

/// Why the data could not be put into a document.
#[derive(Debug, Clone, Copy, PartialEq, Eq, Structural)]
pub enum InjectionError {
    /// The pattern of the head tag did not compile.
    RegexCompilation,
    /// The document has no head tag.
    InvalidDocument,
}

/// The document with the data script put right after its head tag, given
/// the result `found` of searching it for the head tag.
pub open spec fn injection_spec(
    html: Seq<char>,
    json: Seq<char>,
    found: Option<Option<(usize, usize)>>,
) -> Result<Seq<char>, InjectionError> {
    match found {
        None => Err(InjectionError::RegexCompilation),
        Some(None) => Err(InjectionError::InvalidDocument),
        Some(Some((_, end))) => Ok(insert_at_byte(html, end as int, data_script_spec(json))),
    }
}

pub open spec fn result_string_view<E>(r: Result<String, E>) -> Result<Seq<char>, E> {
    match r {
        Ok(s) => Ok(s@),
        Err(e) => Err(e),
    }
}

/// The script element that carries `json` into the page.
pub fn data_script(json: &str) -> (script: String)
    ensures
        script@ == data_script_spec(json@),
{
    let mut script = String::from_str("<script type=\"application/json\" id=\"kangaroo-data\">");
    script.append(json);
    script.append("</script>");
    script
}

/// `text` with `inserted` put at the byte offset `at`.
pub fn insert_at(text: &str, at: usize, inserted: &str) -> (result: String)
    requires
        is_char_boundary(encode_utf8(text@), at as int),
    ensures
        result@ == insert_at_byte(text@, at as int, inserted@),
{
    let (before, after) = text.split_at(at);
    proof {
        vstd::utf8::encode_utf8_decode_utf8(before@);
        vstd::utf8::encode_utf8_decode_utf8(after@);
    }
    let mut result = String::from_str(before);
    result.append(inserted);
    result.append(after);
    result
}

/// Puts the data script for `json` into `html`, given the result `found` of
/// searching `html` for its head tag.
pub fn inject_at_head_match(
    html: &str,
    json: &str,
    found: Option<Option<(usize, usize)>>,
) -> (result: Result<String, InjectionError>)
    requires
        found matches Some(Some((_, end))) ==> is_char_boundary(
            encode_utf8(html@),
            end as int,
        ),
    ensures
        result_string_view(result) == injection_spec(html@, json@, found),
{
    match found {
        None => Err(InjectionError::RegexCompilation),
        Some(None) => Err(InjectionError::InvalidDocument),
        Some(Some((_, end))) => {
            let script = data_script(json);
            Ok(insert_at(html, end, script.as_str()))
        },
    }
}

/// Puts the data script for `json` right after the head tag of `html`.
pub fn inject_data_script(html: &str, json: &str) -> (result: Result<String, InjectionError>)
    ensures
        result_string_view(result) == injection_spec(
            html@,
            json@,
            regex_first_match(head_tag_pattern(), html@),
        ),
{
    let found = find_first_match("(?i)<head\\b[^>]*>", html);
    inject_at_head_match(html, json, found)
}

} // verus!

verus! {

/// The file given for `status` by the first entry of `custom_files` that
/// names it, if any.
pub open spec fn first_custom_file(custom_files: Seq<(u16, Seq<char>)>, status: u16) -> Option<
    Seq<char>,
>
    decreases custom_files.len(),
{
    if custom_files.len() == 0 {
        None
    } else if custom_files[0].0 == status {
        Some(custom_files[0].1)
    } else {
        first_custom_file(custom_files.drop_first(), status)
    }
}

/// The view of a list of status codes and the files served for them.
pub open spec fn custom_files_view(custom_files: Seq<(u16, String)>) -> Seq<(u16, Seq<char>)> {
    custom_files.map_values(|entry: (u16, String)| (entry.0, entry.1@))
}

/// The full path of the document that a page answering with `status` is
/// rendered into: the file that the page names for `status`, else the
/// document that the configuration names for `status`, else the page's own
/// default file, else the configuration's default document.
pub open spec fn document_path_spec(
    config: ConfigView,
    custom_files: Seq<(u16, Seq<char>)>,
    default_file: Option<Seq<char>>,
    status: u16,
) -> Seq<char> {
    match first_custom_file(custom_files, status) {
        Some(file) => config.full_path(file),
        None => match config.status_path(status) {
            Some(path) => path,
            None => match default_file {
                Some(file) => config.full_path(file),
                None => config.default_path(),
            },
        },
    }
}

/// The full path of the document that a page answering with `status` is
/// rendered into. `custom_files` lists the files that the page names for
/// given status codes, the first entry for a code taking precedence;
/// `default_file` is the file the page names for all other codes.
pub fn select_document_path(
    config: &KangarooConfig,
    custom_files: &Vec<(u16, String)>,
    default_file: Option<&str>,
    status: u16,
) -> (path: String)
    ensures
        path@ == document_path_spec(
            config@,
            custom_files_view(custom_files@),
            crate::config::option_str_view(default_file),
            status,
        ),
{
    let ghost custom = custom_files_view(custom_files@);
    let mut i: usize = 0;
    assert(custom.skip(0) =~= custom);
    while i < custom_files.len()
        invariant
            i <= custom_files.len(),
            custom == custom_files_view(custom_files@),
            first_custom_file(custom.skip(i as int), status) == first_custom_file(custom, status),
        decreases custom_files.len() - i,
    {
        if custom_files[i].0 == status {
            return config.get_full_path_from_relative(custom_files[i].1.as_str());
        }
        assert(custom.skip(i as int).drop_first() =~= custom.skip(i + 1));
        i = i + 1;
    }
    assert(custom.skip(i as int).len() == 0);
    match config.get_full_path_from_status_code(status) {
        Some(path) => path,
        None => match default_file {
            Some(file) => config.get_full_path_from_relative(file),
            None => config.get_default_path(),
        },
    }
}

/// A response of the server, as plain values.
pub struct PageResponse {
    pub status: u16,
    pub content_type: String,
    pub body: String,
}

/// The model of a [`PageResponse`].
pub struct PageResponseView {
    pub status: u16,
    pub content_type: Seq<char>,
    pub body: Seq<char>,
}

impl View for PageResponse {
    type V = PageResponseView;

    open spec fn view(&self) -> PageResponseView {
        PageResponseView { status: self.status, content_type: self.content_type@, body: self.body@ }
    }
}

pub open spec fn status_internal_server_error() -> u16 {
    500
}

pub open spec fn text_plain() -> Seq<char> {
    "text/plain"@
}

pub open spec fn text_html() -> Seq<char> {
    "text/html"@
}

pub open spec fn json_error_message() -> Seq<char> {
    "JSON serialization error"@
}

pub open spec fn document_read_error_message() -> Seq<char> {
    "error reading document"@
}

pub open spec fn regex_error_message() -> Seq<char> {
    "regex compilation error"@
}

pub open spec fn invalid_document_message() -> Seq<char> {
    "invalid html document"@
}

/// A plain-text response with status 500 and `message` as its body.
pub open spec fn internal_error_spec(message: Seq<char>) -> PageResponseView {
    PageResponseView { status: status_internal_server_error(), content_type: text_plain(), body: message }
}

/// The response for a page that answers with `status`, given its data
/// serialised as JSON (`None` where serialisation failed), the document read
/// for it (`None` where reading failed), and the result `found` of searching
/// that document for its head tag.
pub open spec fn page_response_spec(
    status: u16,
    json: Option<Seq<char>>,
    document: Option<Seq<char>>,
    found: Option<Option<(usize, usize)>>,
) -> PageResponseView {
    match json {
        None => internal_error_spec(json_error_message()),
        Some(json) => match document {
            None => internal_error_spec(document_read_error_message()),
            Some(html) => match injection_spec(html, json, found) {
                Err(InjectionError::RegexCompilation) => internal_error_spec(regex_error_message()),
                Err(InjectionError::InvalidDocument) => internal_error_spec(invalid_document_message()),
                Ok(page) => PageResponseView { status, content_type: text_html(), body: page },
            },
        },
    }
}

/// A plain-text response with status 500 and `message` as its body.
pub fn internal_error_response(message: &str) -> (response: PageResponse)
    ensures
        response@ == internal_error_spec(message@),
{
    PageResponse { status: 500, content_type: String::from_str("text/plain"), body: String::from_str(message) }
}

/// The response for a page, given the result `found` of searching its
/// document for the head tag.
pub fn page_response_with_head_match(
    status: u16,
    json: Option<&str>,
    document: Option<&str>,
    found: Option<Option<(usize, usize)>>,
) -> (response: PageResponse)
    requires
        document matches Some(html) ==> (found matches Some(Some((_, end))) ==> is_char_boundary(
            encode_utf8(html@),
            end as int,
        )),
    ensures
        response@ == page_response_spec(
            status,
            crate::config::option_str_view(json),
            crate::config::option_str_view(document),
            found,
        ),
{
    let json = match json {
        Some(json) => json,
        None => return internal_error_response("JSON serialization error"),
    };
    let html = match document {
        Some(html) => html,
        None => return internal_error_response("error reading document"),
    };
    match inject_at_head_match(html, json, found) {
        Ok(page) => PageResponse { status, content_type: String::from_str("text/html"), body: page },
        Err(InjectionError::RegexCompilation) => internal_error_response("regex compilation error"),
        Err(InjectionError::InvalidDocument) => internal_error_response("invalid html document"),
    }
}

/// The response for a page that answers with `status`, given its data
/// serialised as JSON (`None` where serialisation failed) and the document
/// read for it (`None` where reading failed). The data is put into the
/// document right after its head tag.
pub fn render_page(status: u16, json: Option<&str>, document: Option<&str>) -> (response:
    PageResponse)
    ensures
        response@ == page_response_spec(
            status,
            crate::config::option_str_view(json),
            crate::config::option_str_view(document),
            match document {
                Some(html) => regex_first_match(head_tag_pattern(), html@),
                None => None,
            },
        ),
{
    match (json, document) {
        (Some(_), Some(html)) => {
            let found = find_first_match("(?i)<head\\b[^>]*>", html);
            page_response_with_head_match(status, json, document, found)
        },
        _ => page_response_with_head_match(status, json, document, None),
    }
}

} // verus!

verus! {

/// Putting text into a document only adds that text: the document is
/// split at the byte offset into two parts that make up the document again,
/// and the text stands between them.
pub proof fn lemma_insertion_keeps_document(text: Seq<char>, at: int, inserted: Seq<char>)
    requires
        is_char_boundary(encode_utf8(text), at),
    ensures
        ({
            let bytes = encode_utf8(text);
            let before = decode_utf8(bytes.subrange(0, at));
            let after = decode_utf8(bytes.subrange(at, bytes.len() as int));
            &&& insert_at_byte(text, at, inserted) == before + inserted + after
            &&& before + after == text
        }),
{
    let bytes = encode_utf8(text);
    vstd::utf8::encode_utf8_valid_utf8(text);
    vstd::utf8::decode_utf8_split(bytes, at);
    vstd::utf8::encode_utf8_decode_utf8(text);
}

/// A page that names no file of its own and answers with status 404 is
/// rendered into the document that the static files are answered with
/// when a file is missing.
pub proof fn lemma_not_found_page_uses_not_found_document(config: ConfigView)
    ensures
        document_path_spec(config, seq![], None, 404) == crate::routing::not_found_path_spec(
            config,
        ),
{
}

/// A file that a page names for a status wins over the document that the
/// configuration names for it, and that one over the page's default file.
pub proof fn lemma_document_path_precedence(
    config: ConfigView,
    custom_files: Seq<(u16, Seq<char>)>,
    default_file: Option<Seq<char>>,
    status: u16,
    file: Seq<char>,
)
    ensures
        document_path_spec(config, seq![(status, file)] + custom_files, default_file, status)
            == config.full_path(file),
        first_custom_file(custom_files, status) is None && config.documents.contains_key(status)
            ==> document_path_spec(config, custom_files, default_file, status) == config.full_path(
            config.documents[status],
        ),
        first_custom_file(custom_files, status) is None && !config.documents.contains_key(status)
            ==> document_path_spec(config, custom_files, default_file, status) == match default_file {
            Some(f) => config.full_path(f),
            None => config.default_path(),
        },
{
    assert((seq![(status, file)] + custom_files)[0] == (status, file));
}

/// Every answer of a page is either the document with its data, under the
/// page's status and as HTML, or a plain-text answer with status 500.
pub proof fn lemma_page_response_outcomes(
    status: u16,
    json: Option<Seq<char>>,
    document: Option<Seq<char>>,
    found: Option<Option<(usize, usize)>>,
)
    ensures
        ({
            let response = page_response_spec(status, json, document, found);
            ||| (response.status == status && response.content_type == text_html() && json is Some
                && document is Some && found matches Some(Some(_)))
            ||| (response.status == 500 && response.content_type == text_plain())
        }),
{
}

} // verus!

verus! {

/// The file, relative to the folder, that a page answering with `status`
/// is rendered into (see [`document_path_spec`]).
pub open spec fn document_relative_spec(
    config: ConfigView,
    custom_files: Seq<(u16, Seq<char>)>,
    default_file: Option<Seq<char>>,
    status: u16,
) -> Seq<char> {
    match first_custom_file(custom_files, status) {
        Some(file) => file,
        None => if config.documents.contains_key(status) {
            config.documents[status]
        } else {
            match default_file {
                Some(file) => file,
                None => config.default_document,
            }
        },
    }
}

/// The document of a page is always a file of the static files folder.
pub proof fn lemma_document_path_is_full_path(
    config: ConfigView,
    custom_files: Seq<(u16, Seq<char>)>,
    default_file: Option<Seq<char>>,
    status: u16,
)
    ensures
        document_path_spec(config, custom_files, default_file, status) == config.full_path(
            document_relative_spec(config, custom_files, default_file, status),
        ),
{
}

/// Where the document of a page is read from.
pub enum DocumentSource {
    /// The file at this path.
    File(String),
    /// The answer of the frontend development server at this URL.
    DevelopmentServer(String),
}

pub enum DocumentSourceView {
    File(Seq<char>),
    DevelopmentServer(Seq<char>),
}

impl View for DocumentSource {
    type V = DocumentSourceView;

    open spec fn view(&self) -> DocumentSourceView {
        match self {
            DocumentSource::File(path) => DocumentSourceView::File(path@),
            DocumentSource::DevelopmentServer(url) => DocumentSourceView::DevelopmentServer(url@),
        }
    }
}

/// Where the document of a page answering with `status` is read from: with
/// a development server configured, that server is asked for the document;
/// else the document is read from the static files folder.
pub open spec fn document_source_spec(
    config: ConfigView,
    custom_files: Seq<(u16, Seq<char>)>,
    default_file: Option<Seq<char>>,
    status: u16,
) -> DocumentSourceView {
    let path = document_path_spec(config, custom_files, default_file, status);
    match config.dev_server_url {
        Some(url) => DocumentSourceView::DevelopmentServer(
            DevServerClientView { url, folder: config.folder }.content_url(path),
        ),
        None => DocumentSourceView::File(path),
    }
}

/// Where the document of a page answering with `status` is read from: the
/// development server where one is configured, else the file chosen by
/// [`select_document_path`].
pub fn select_document_source(
    config: &KangarooConfig,
    custom_files: &Vec<(u16, String)>,
    default_file: Option<&str>,
    status: u16,
) -> (source: DocumentSource)
    ensures
        source@ == document_source_spec(
            config@,
            custom_files_view(custom_files@),
            crate::config::option_str_view(default_file),
            status,
        ),
{
    let path = select_document_path(config, custom_files, default_file, status);
    match config.get_frontend_development_server_url() {
        Some(url) => {
            let folder = config.get_folder_path();
            let client = FrontendDevelopmentServerClient::new(url.as_str(), folder.as_str());
            proof {
                let custom = custom_files_view(custom_files@);
                let default = crate::config::option_str_view(default_file);
                lemma_document_path_is_full_path(config@, custom, default, status);
                crate::dev_server::lemma_config_documents_reach_dev_server(
                    config@,
                    client@,
                    document_relative_spec(config@, custom, default, status),
                );
            }
            DocumentSource::DevelopmentServer(client.content_url(path.as_str()))
        },
        None => DocumentSource::File(path),
    }
}

/// The status and the serialised data of a page whose handler returns its
/// data: status 200, and the data as `serialize` gives it.
pub fn plain_page_data<T, S>(data: T, serialize: S) -> (out: (u16, Option<String>)) where
    S: FnOnce(&T) -> Option<String>,

    requires
        serialize.requires((&data,)),
    ensures
        out.0 == 200,
        serialize.ensures((&data,), out.1),
{
    (200, serialize(&data))
}

/// The status and the serialised data of a page whose handler returns a
/// `Result`: for `Ok`, status 200 and the data as `serialize` gives it; for
/// `Err`, the status and the serialised payload that `into_error` makes of
/// the error, which it is given once.
pub fn result_page_data<T, E, S, F>(data: Result<T, E>, serialize: S, into_error: F) -> (out: (
    u16,
    Option<String>,
)) where S: FnOnce(&T) -> Option<String>, F: FnOnce(E) -> (u16, Option<String>)
    requires
        data matches Ok(t) ==> serialize.requires((&t,)),
        data matches Err(e) ==> into_error.requires((e,)),
    ensures
        data matches Ok(t) ==> out.0 == 200 && serialize.ensures((&t,), out.1),
        data matches Err(e) ==> into_error.ensures((e,), out),
{
    match data {
        Ok(t) => (200, serialize(&t)),
        Err(e) => into_error(e),
    }
}

} // verus!

verus! {

/// Whatever the data, once the head tag is found the data script is put
/// right after it: the document up to the end of the match, then the
/// script element carrying exactly `json`, then the rest of the document.
pub proof fn lemma_injection_always_inserts_script(
    html: Seq<char>,
    json: Seq<char>,
    start: usize,
    end: usize,
)
    requires
        is_char_boundary(encode_utf8(html), end as int),
    ensures
        ({
            let bytes = encode_utf8(html);
            let before = decode_utf8(bytes.subrange(0, end as int));
            let after = decode_utf8(bytes.subrange(end as int, bytes.len() as int));
            &&& injection_spec(html, json, Some(Some((start, end)))) == Ok::<
                Seq<char>,
                InjectionError,
            >(before + (data_script_open() + json + data_script_close()) + after)
            &&& before + after == html
        }),
{
    lemma_insertion_keeps_document(html, end as int, data_script_open() + json + data_script_close());
}

/// What a page answers, case by case: a failed serialisation, a failed
/// read, a pattern that does not compile and a document without head tag
/// each give their own plain-text 500 answer, in that order of precedence;
/// otherwise the answer is the page's status, as HTML, with the data script
/// put right after the head tag, whatever the data.
pub proof fn lemma_page_response_cases(
    status: u16,
    json: Option<Seq<char>>,
    document: Option<Seq<char>>,
    found: Option<Option<(usize, usize)>>,
)
    ensures
        ({
            let r = page_response_spec(status, json, document, found);
            let plain = "text/plain"@;
            &&& json is None ==> r.status == 500 && r.content_type == plain && r.body
                == "JSON serialization error"@
            &&& (json is Some && document is None) ==> r.status == 500 && r.content_type == plain
                && r.body == "error reading document"@
            &&& (json is Some && document is Some && found is None) ==> r.status == 500
                && r.content_type == plain && r.body == "regex compilation error"@
            &&& (json is Some && document is Some && found == Some(None::<(usize, usize)>))
                ==> r.status == 500 && r.content_type == plain && r.body
                == "invalid html document"@
            &&& json matches Some(j) ==> document matches Some(html) ==> found matches Some(
                Some((s, e)),
            ) ==> r.status == status && r.content_type == "text/html"@ && r.body
                == insert_at_byte(
                html,
                e as int,
                "<script type=\"application/json\" id=\"kangaroo-data\">"@ + j + "</script>"@,
            )
        }),
{
}

/// The file that the first entry of `custom_files` naming `status` gives,
/// wherever that entry stands.
proof fn lemma_first_custom_file_at(custom_files: Seq<(u16, Seq<char>)>, status: u16, k: int)
    requires
        0 <= k < custom_files.len(),
        custom_files[k].0 == status,
        forall|j: int| 0 <= j < k ==> custom_files[j].0 != status,
    ensures
        first_custom_file(custom_files, status) == Some(custom_files[k].1),
    decreases k,
{
    if k > 0 {
        let rest = custom_files.drop_first();
        assert forall|j: int| 0 <= j < k - 1 implies rest[j].0 != status by {
            assert(rest[j] == custom_files[j + 1]);
        }
        lemma_first_custom_file_at(rest, status, k - 1);
    }
}

/// No entry of `custom_files` names `status`: no file of the page is chosen.
proof fn lemma_no_custom_file(custom_files: Seq<(u16, Seq<char>)>, status: u16)
    requires
        forall|j: int| 0 <= j < custom_files.len() ==> custom_files[j].0 != status,
    ensures
        first_custom_file(custom_files, status) is None,
    decreases custom_files.len(),
{
    if custom_files.len() > 0 {
        let rest = custom_files.drop_first();
        assert forall|j: int| 0 <= j < rest.len() implies rest[j].0 != status by {
            assert(rest[j] == custom_files[j + 1]);
        }
        lemma_no_custom_file(rest, status);
    }
}

/// The document of a page answering with `status`: where some entry of the
/// page's files names `status`, the file of the first such entry, wherever
/// it stands in the list; where none does, the document that the
/// configuration names for `status`, else the page's default file, else
/// the configured default document.
pub proof fn lemma_document_path_choice(
    config: ConfigView,
    custom_files: Seq<(u16, Seq<char>)>,
    default_file: Option<Seq<char>>,
    status: u16,
    k: int,
)
    ensures
        ({
            let path = document_path_spec(config, custom_files, default_file, status);
            let otherwise = if config.documents.contains_key(status) {
                config.documents[status]
            } else {
                match default_file {
                    Some(file) => file,
                    None => config.default_document,
                }
            };
            &&& (0 <= k < custom_files.len() && custom_files[k].0 == status && forall|j: int|
                0 <= j < k ==> custom_files[j].0 != status) ==> path == config.folder
                + config.separator + custom_files[k].1
            &&& (forall|j: int| 0 <= j < custom_files.len() ==> custom_files[j].0 != status)
                ==> path == config.folder + config.separator + otherwise
        }),
{
    if 0 <= k < custom_files.len() && custom_files[k].0 == status && forall|j: int|
        0 <= j < k ==> custom_files[j].0 != status {
        lemma_first_custom_file_at(custom_files, status, k);
    }
    if forall|j: int| 0 <= j < custom_files.len() ==> custom_files[j].0 != status {
        lemma_no_custom_file(custom_files, status);
    }
}

} // verus!

verus! {

/// Where a page's document is read from: with a development server
/// configured, the server is asked, at its base URL, one `/`, and the
/// document's path below the folder (the separator and the relative path)
/// without a `/` it may start with; without one, the document is the file
/// at its full path. The head tag is searched with the case-insensitive
/// pattern `<head\b[^>]*>`.
pub proof fn lemma_document_source_cases(
    config: ConfigView,
    custom_files: Seq<(u16, Seq<char>)>,
    default_file: Option<Seq<char>>,
    status: u16,
)
    ensures
        ({
            let relative = document_relative_spec(config, custom_files, default_file, status);
            let path = document_path_spec(config, custom_files, default_file, status);
            let below = config.separator + relative;
            &&& path == config.folder + config.separator + relative
            &&& config.dev_server_url matches Some(url) ==> document_source_spec(
                config,
                custom_files,
                default_file,
                status,
            ) == DocumentSourceView::DevelopmentServer(
                url + "/"@ + (if below.len() > 0 && below[0] == '/' {
                    below.skip(1)
                } else {
                    below
                }),
            )
            &&& config.dev_server_url is None ==> document_source_spec(
                config,
                custom_files,
                default_file,
                status,
            ) == DocumentSourceView::File(path)
        }),
        head_tag_pattern() == "(?i)<head\\b[^>]*>"@,
{
    let relative = document_relative_spec(config, custom_files, default_file, status);
    lemma_document_path_is_full_path(config, custom_files, default_file, status);
    if let Some(url) = config.dev_server_url {
        let client = DevServerClientView { url, folder: config.folder };
        crate::dev_server::lemma_config_documents_reach_dev_server(config, client, relative);
        crate::dev_server::lemma_request_url_single_slash(client, config.separator + relative);
    }
}

} // verus!
