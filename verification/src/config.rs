use std::collections::HashMap;
use vstd::prelude::*;
use vstd::string::StringExecFns;

verus! {

broadcast use vstd::std_specs::hash::group_hash_axioms;

/// The platform's separator of path components, `std::path::MAIN_SEPARATOR_STR`:
/// the separator character (`/` on Unix, `\` on Windows) as a string. Only
/// its length, one character, is claimed: its value depends on the platform.
#[verifier::external_body]
fn main_separator() -> (separator: &'static str)
    ensures
        separator@.len() == 1,
{
    std::path::MAIN_SEPARATOR_STR
}

/// The name of the document served when nothing else is configured.
pub open spec fn default_document_name() -> Seq<char> {
    "index.html"@
}

/// The mathematical model of a [`KangarooConfig`].
pub struct ConfigView {
    /// Folder that holds the static files.
    pub folder: Seq<char>,
    /// Separator put between the folder and a relative path.
    pub separator: Seq<char>,
    /// Document served by default, relative to the folder.
    pub default_document: Seq<char>,
    /// Documents served for given status codes, relative to the folder.
    pub documents: Map<u16, Seq<char>>,
    /// URL of a frontend development server, if one is used.
    pub dev_server_url: Option<Seq<char>>,
}

impl ConfigView {
    /// The full path of a document given relative to the folder.
    pub open spec fn full_path(self, relative: Seq<char>) -> Seq<char> {
        self.folder + self.separator + relative
    }

    /// The full path of the default document.
    pub open spec fn default_path(self) -> Seq<char> {
        self.full_path(self.default_document)
    }

    /// The full path of the document configured for `code`, if any.
    pub open spec fn status_path(self, code: u16) -> Option<Seq<char>> {
        if self.documents.contains_key(code) {
            Some(self.full_path(self.documents[code]))
        } else {
            None
        }
    }

    pub open spec fn set_default_document(self, relative: Seq<char>) -> ConfigView {
        ConfigView { default_document: relative, ..self }
    }

    pub open spec fn set_status_document(self, code: u16, relative: Seq<char>) -> ConfigView {
        ConfigView { documents: self.documents.insert(code, relative), ..self }
    }

    pub open spec fn set_dev_server(self, url: Option<Seq<char>>) -> ConfigView {
        ConfigView { dev_server_url: url, ..self }
    }
}

/// Where the static files of the web application lie, which documents are
/// served for which status codes, and whether a frontend development server
/// is used in their place.
#[derive(Clone)]
pub struct KangarooConfig {
    static_files_folder_path: String,
    default_document_path: String,
    custom_document_paths: HashMap<u16, String>,
    frontend_development_server_url: Option<String>,
    path_separator: String,
}

pub open spec fn option_string_view(o: Option<String>) -> Option<Seq<char>> {
    match o {
        Some(s) => Some(s@),
        None => None,
    }
}

pub open spec fn option_str_view(o: Option<&str>) -> Option<Seq<char>> {
    match o {
        Some(s) => Some(s@),
        None => None,
    }
}

impl View for KangarooConfig {
    type V = ConfigView;

    closed spec fn view(&self) -> ConfigView {
        ConfigView {
            folder: self.static_files_folder_path@,
            separator: self.path_separator@,
            default_document: self.default_document_path@,
            documents: self.custom_document_paths@.map_values(|s: String| s@),
            dev_server_url: option_string_view(self.frontend_development_server_url),
        }
    }
}

impl KangarooConfig {
    /// A configuration that serves the static files under
    /// `static_files_folder_path`, with `index.html` as the default document.
    pub fn new(static_files_folder_path: &str) -> (config: Self)
        ensures
            config@.folder == static_files_folder_path@,
            config@.separator.len() == 1,
            config@.default_document == default_document_name(),
            config@.documents == Map::<u16, Seq<char>>::empty(),
            config@.dev_server_url is None,
    {
        let documents: HashMap<u16, String> = HashMap::new();
        let config = KangarooConfig {
            static_files_folder_path: String::from_str(static_files_folder_path),
            default_document_path: String::from_str("index.html"),
            custom_document_paths: documents,
            frontend_development_server_url: None,
            path_separator: String::from_str(main_separator()),
        };
        assert(config@.documents =~= Map::<u16, Seq<char>>::empty());
        config
    }

    /// Serves `relative_path` as the default document.
    pub fn with_default_document(self, relative_path: &str) -> (config: Self)
        ensures
            config@ == self@.set_default_document(relative_path@),
    {
        let mut config = self;
        config.default_document_path = String::from_str(relative_path);
        config
    }

    /// Serves `relative_path` for responses with the status code `status_code`.
    pub fn with_document_for_status(self, status_code: u16, relative_path: &str) -> (config: Self)
        ensures
            config@ == self@.set_status_document(status_code, relative_path@),
    {
        let mut config = self;
        config.custom_document_paths.insert(status_code, String::from_str(relative_path));
        assert(config@.documents =~= self@.documents.insert(status_code, relative_path@));
        config
    }

    /// Fetches pages and static files from the frontend development server at
    /// `frontend_development_server_url`, or from the folder where it is `None`.
    pub fn with_frontend_development_server(
        self,
        frontend_development_server_url: Option<&str>,
    ) -> (config: Self)
        ensures
            config@ == self@.set_dev_server(option_str_view(frontend_development_server_url)),
    {
        let mut config = self;
        config.frontend_development_server_url = match frontend_development_server_url {
            Some(url) => Some(String::from_str(url)),
            None => None,
        };
        config
    }

    /// The URL of the frontend development server, if one is configured.
    pub fn get_frontend_development_server_url(&self) -> (url: Option<String>)
        ensures
            option_string_view(url) == self@.dev_server_url,
    {
        match &self.frontend_development_server_url {
            Some(url) => Some(url.clone()),
            None => None,
        }
    }

    /// The full path of the document configured for `status_code`, if any.
    pub fn get_full_path_from_status_code(&self, status_code: u16) -> (path: Option<String>)
        ensures
            option_string_view(path) == self@.status_path(status_code),
    {
        match self.custom_document_paths.get(&status_code) {
            Some(relative_path) => Some(self.get_full_path_from_relative(relative_path.as_str())),
            None => None,
        }
    }

    /// The full path of the default document.
    pub fn get_default_path(&self) -> (path: String)
        ensures
            path@ == self@.default_path(),
    {
        self.get_full_path_from_relative(self.default_document_path.as_str())
    }

    /// The full path of `relative_path`: the folder, the separator, then `relative_path`.
    pub fn get_full_path_from_relative(&self, relative_path: &str) -> (path: String)
        ensures
            path@ == self@.full_path(relative_path@),
    {
        let mut path = self.static_files_folder_path.clone();
        path.append(self.path_separator.as_str());
        path.append(relative_path);
        path
    }

    /// The folder that holds the static files.
    pub fn get_folder_path(&self) -> (path: String)
        ensures
            path@ == self@.folder,
    {
        self.static_files_folder_path.clone()
    }
}

} // verus!

verus! {

/// Reading back a status document: after `with_document_for_status(code, relative)`,
/// the path for `code` is `relative` under the folder, and the path for every
/// other code and the default path are what they were.
pub proof fn lemma_status_document_read_back(
    config: KangarooConfig,
    code: u16,
    other: u16,
    relative: Seq<char>,
)
    requires
        other != code,
    ensures
        config@.set_status_document(code, relative).status_path(code) == Some(
            config@.full_path(relative),
        ),
        config@.set_status_document(code, relative).status_path(other) == config@.status_path(
            other,
        ),
        config@.set_status_document(code, relative).default_path() == config@.default_path(),
{
}

/// Reading back the default document: after `with_default_document(relative)`,
/// the default path is `relative` under the folder, and no status path changes.
pub proof fn lemma_default_document_read_back(
    config: KangarooConfig,
    code: u16,
    relative: Seq<char>,
)
    ensures
        config@.set_default_document(relative).default_path() == config@.full_path(relative),
        config@.set_default_document(relative).status_path(code) == config@.status_path(code),
{
}

/// The last document set for a status code is the one that is served.
pub proof fn lemma_last_status_document_wins(
    config: KangarooConfig,
    code: u16,
    first: Seq<char>,
    second: Seq<char>,
)
    ensures
        config@.set_status_document(code, first).set_status_document(code, second)
            == config@.set_status_document(code, second),
{
    assert(config@.set_status_document(code, first).set_status_document(code, second).documents
        =~= config@.set_status_document(code, second).documents);
}

/// Documents set for two different status codes do not depend on the order
/// in which they were set.
pub proof fn lemma_status_documents_commute(
    config: KangarooConfig,
    code1: u16,
    relative1: Seq<char>,
    code2: u16,
    relative2: Seq<char>,
)
    requires
        code1 != code2,
    ensures
        config@.set_status_document(code1, relative1).set_status_document(code2, relative2)
            == config@.set_status_document(code2, relative2).set_status_document(
            code1,
            relative1,
        ),
{
    assert(config@.set_status_document(code1, relative1).set_status_document(
        code2,
        relative2,
    ).documents =~= config@.set_status_document(code2, relative2).set_status_document(
        code1,
        relative1,
    ).documents);
}

/// Choosing a frontend development server changes no document path.
pub proof fn lemma_dev_server_keeps_paths(
    config: KangarooConfig,
    url: Option<Seq<char>>,
    code: u16,
    relative: Seq<char>,
)
    ensures
        config@.set_dev_server(url).full_path(relative) == config@.full_path(relative),
        config@.set_dev_server(url).default_path() == config@.default_path(),
        config@.set_dev_server(url).status_path(code) == config@.status_path(code),
{
}

/// Every full path starts with the folder followed by the separator, and
/// what follows them is the relative path.
pub proof fn lemma_full_path_under_folder(config: KangarooConfig, relative: Seq<char>)
    ensures
        (config@.folder + config@.separator).is_prefix_of(config@.full_path(relative)),
        config@.full_path(relative).skip((config@.folder + config@.separator).len() as int)
            == relative,
{
    let prefix = config@.folder + config@.separator;
    assert(config@.full_path(relative) =~= prefix + relative);
    assert((prefix + relative).subrange(0, prefix.len() as int) =~= prefix);
    assert((prefix + relative).skip(prefix.len() as int) =~= relative);
}

} // verus!

verus! {

/// A call of one of the builder methods of [`KangarooConfig`], with its arguments.
pub enum BuilderCall {
    /// `with_default_document(relative)`.
    DefaultDocument(Seq<char>),
    /// `with_document_for_status(code, relative)`.
    StatusDocument(u16, Seq<char>),
    /// `with_frontend_development_server(url)`.
    DevServer(Option<Seq<char>>),
}

impl ConfigView {
    /// The configuration after the builder call `call`.
    pub open spec fn apply(self, call: BuilderCall) -> ConfigView {
        match call {
            BuilderCall::DefaultDocument(relative) => self.set_default_document(relative),
            BuilderCall::StatusDocument(code, relative) => self.set_status_document(code, relative),
            BuilderCall::DevServer(url) => self.set_dev_server(url),
        }
    }
}

/// The configuration after the builder calls `calls`, in order.
pub open spec fn apply_calls(config: ConfigView, calls: Seq<BuilderCall>) -> ConfigView
    decreases calls.len(),
{
    if calls.len() == 0 {
        config
    } else {
        apply_calls(config, calls.drop_last()).apply(calls.last())
    }
}

/// The document set for `code` by the last call among `calls` that sets one.
pub open spec fn last_status_document(calls: Seq<BuilderCall>, code: u16) -> Option<Seq<char>>
    decreases calls.len(),
{
    if calls.len() == 0 {
        None
    } else {
        match calls.last() {
            BuilderCall::StatusDocument(c, relative) if c == code => Some(relative),
            _ => last_status_document(calls.drop_last(), code),
        }
    }
}

/// The default document set by the last call among `calls` that sets one.
pub open spec fn last_default_document(calls: Seq<BuilderCall>) -> Option<Seq<char>>
    decreases calls.len(),
{
    if calls.len() == 0 {
        None
    } else {
        match calls.last() {
            BuilderCall::DefaultDocument(relative) => Some(relative),
            _ => last_default_document(calls.drop_last()),
        }
    }
}

/// No chain of builder calls changes the folder or the separator.
pub proof fn lemma_chain_keeps_folder(config: KangarooConfig, calls: Seq<BuilderCall>)
    ensures
        apply_calls(config@, calls).folder == config@.folder,
        apply_calls(config@, calls).separator == config@.separator,
    decreases calls.len(),
{
    if calls.len() > 0 {
        lemma_chain_keeps_folder(config, calls.drop_last());
    }
}

/// After a chain of builder calls, the path for `code` is the last document
/// set for `code` under the folder, or the path it had before where no call
/// sets one; the default path is the last default document set under the
/// folder, or the default path it had before.
pub proof fn lemma_chain_paths(config: KangarooConfig, calls: Seq<BuilderCall>, code: u16)
    ensures
        apply_calls(config@, calls).status_path(code) == match last_status_document(calls, code) {
            Some(relative) => Some(config@.full_path(relative)),
            None => config@.status_path(code),
        },
        apply_calls(config@, calls).default_path() == match last_default_document(calls) {
            Some(relative) => config@.full_path(relative),
            None => config@.default_path(),
        },
    decreases calls.len(),
{
    if calls.len() > 0 {
        lemma_chain_paths(config, calls.drop_last(), code);
        lemma_chain_keeps_folder(config, calls.drop_last());
    }
}

/// For a configuration as [`KangarooConfig::new`] makes it, after any chain
/// of builder calls the path for `code` is the last document set for `code`
/// under the folder, and there is none where no call sets one; every path
/// it gives starts with the folder.
pub proof fn lemma_new_config_chain(config: KangarooConfig, calls: Seq<BuilderCall>, code: u16)
    requires
        config@.documents == Map::<u16, Seq<char>>::empty(),
    ensures
        apply_calls(config@, calls).status_path(code) == match last_status_document(calls, code) {
            Some(relative) => Some(config@.full_path(relative)),
            None => None,
        },
        apply_calls(config@, calls).folder.is_prefix_of(apply_calls(config@, calls).default_path()),
        apply_calls(config@, calls).status_path(code) matches Some(path)
            ==> apply_calls(config@, calls).folder.is_prefix_of(path),
{
    lemma_chain_paths(config, calls, code);
    lemma_chain_keeps_folder(config, calls);
    let after = apply_calls(config@, calls);
    assert(after.default_path().subrange(0, after.folder.len() as int) =~= after.folder);
    if let Some(path) = after.status_path(code) {
        assert(path.subrange(0, after.folder.len() as int) =~= after.folder);
    }
}

} // verus!

verus! {

/// The paths a configuration gives, spelt out: a relative path, the default
/// document and a status document each come after the folder and the
/// separator; a status with no document has no path.
pub proof fn lemma_config_paths_spelt_out(config: KangarooConfig, code: u16, relative: Seq<char>)
    ensures
        config@.full_path(relative) == config@.folder + config@.separator + relative,
        config@.default_path() == config@.folder + config@.separator + config@.default_document,
        config@.documents.contains_key(code) ==> config@.status_path(code) == Some(
            config@.folder + config@.separator + config@.documents[code],
        ),
        !config@.documents.contains_key(code) ==> config@.status_path(code) is None,
{
}

} // verus!
