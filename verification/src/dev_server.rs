use crate::config::ConfigView;
use vstd::prelude::*;
use vstd::string::{StrSliceExecFns, StringExecFns};

verus! {

/// Whether `s` starts with `prefix`.
pub fn starts_with(s: &str, prefix: &str) -> (result: bool)
    ensures
        result == prefix@.is_prefix_of(s@),
{
    let n = prefix.unicode_len();
    let m = s.unicode_len();
    if n > m {
        return false;
    }
    let mut i: usize = 0;
    while i < n
        invariant
            i <= n <= m,
            n == prefix@.len(),
            m == s@.len(),
            forall|j: int| 0 <= j < i ==> prefix@[j] == s@[j],
        decreases n - i,
    {
        if prefix.get_char(i) != s.get_char(i) {
            assert(prefix@[i as int] != s@.subrange(0, n as int)[i as int]);
            return false;
        }
        i = i + 1;
    }
    assert(prefix@ =~= s@.subrange(0, n as int));
    true
}

/// The URL at which the development server `base` serves `path`: a `/` is
/// put between them unless `path` starts with one.
pub open spec fn request_url_spec(base: Seq<char>, path: Seq<char>) -> Seq<char> {
    if path.len() > 0 && path[0] == '/' {
        base + path
    } else {
        base + "/"@ + path
    }
}

/// The model of a [`FrontendDevelopmentServerClient`].
pub struct DevServerClientView {
    /// Base URL of the development server.
    pub url: Seq<char>,
    /// Folder of the static files, whose paths the server serves relative to it.
    pub folder: Seq<char>,
}

/// What to do once the development server has answered the request for a page.
pub enum FallbackStep {
    /// Hand the response on as it is.
    KeepResponse,
    /// Fetch `url` in its place and answer with `status`.
    Refetch { url: String, status: u16 },
}

/// The model of a [`FallbackStep`].
pub enum FallbackStepView {
    KeepResponse,
    Refetch { url: Seq<char>, status: u16 },
}

impl View for FallbackStep {
    type V = FallbackStepView;

    open spec fn view(&self) -> FallbackStepView {
        match self {
            FallbackStep::KeepResponse => FallbackStepView::KeepResponse,
            FallbackStep::Refetch { url, status } => FallbackStepView::Refetch {
                url: url@,
                status: *status,
            },
        }
    }
}

impl DevServerClientView {
    /// The URL at which the server serves `path`.
    pub open spec fn request_url(self, path: Seq<char>) -> Seq<char> {
        request_url_spec(self.url, path)
    }

    /// Whether the full path `full_path` lies in the folder.
    pub open spec fn lies_in_folder(self, full_path: Seq<char>) -> bool {
        self.folder.is_prefix_of(full_path)
    }

    /// The URL at which the server serves the static file with the full path
    /// `full_path`: the path without the folder, asked of the server.
    pub open spec fn content_url(self, full_path: Seq<char>) -> Seq<char> {
        self.request_url(full_path.skip(self.folder.len() as int))
    }

    /// What follows an answer with `status` to the request for a page, where
    /// the not-found document has the full path `full_not_found_path`.
    pub open spec fn fallback_step(self, status: u16, full_not_found_path: Seq<char>) -> FallbackStepView {
        if status != 404 {
            FallbackStepView::KeepResponse
        } else {
            FallbackStepView::Refetch { url: self.content_url(full_not_found_path), status: 404 }
        }
    }
}

/// The part of the client of a frontend development server that decides
/// which URLs are fetched; the requests themselves are made around it.
#[derive(Clone)]
pub struct FrontendDevelopmentServerClient {
    frontend_development_server_url: String,
    static_files_folder_path: String,
}

impl View for FrontendDevelopmentServerClient {
    type V = DevServerClientView;

    closed spec fn view(&self) -> DevServerClientView {
        DevServerClientView {
            url: self.frontend_development_server_url@,
            folder: self.static_files_folder_path@,
        }
    }
}

impl FrontendDevelopmentServerClient {
    /// A client of the development server at `frontend_development_server_url`
    /// that stands in for the static files under `static_files_folder_path`.
    pub fn new(frontend_development_server_url: &str, static_files_folder_path: &str) -> (client:
        Self)
        ensures
            client@.url == frontend_development_server_url@,
            client@.folder == static_files_folder_path@,
    {
        FrontendDevelopmentServerClient {
            frontend_development_server_url: String::from_str(frontend_development_server_url),
            static_files_folder_path: String::from_str(static_files_folder_path),
        }
    }

    /// The URL at which the server serves `path`.
    pub fn request_url(&self, path: &str) -> (url: String)
        ensures
            url@ == self@.request_url(path@),
    {
        let mut url = self.frontend_development_server_url.clone();
        if path.unicode_len() > 0 && path.get_char(0) == '/' {
            url.append(path);
        } else {
            url.append("/");
            url.append(path);
        }
        url
    }

    /// Whether the full path `full_path` lies in the folder.
    pub fn lies_in_folder(&self, full_path: &str) -> (result: bool)
        ensures
            result == self@.lies_in_folder(full_path@),
    {
        starts_with(full_path, self.static_files_folder_path.as_str())
    }

    /// The URL at which the server serves the static file with the full path
    /// `full_path`, which lies in the folder.
    pub fn content_url(&self, full_path: &str) -> (url: String)
        requires
            self@.lies_in_folder(full_path@),
        ensures
            url@ == self@.content_url(full_path@),
    {
        let n = self.static_files_folder_path.as_str().unicode_len();
        let m = full_path.unicode_len();
        self.request_url(full_path.substring_char(n, m))
    }

    /// What follows an answer with `status` to the request for a page: a
    /// not-found answer is replaced by the not-found document, fetched from
    /// the server and answered with status 404.
    pub fn fallback_step(&self, status: u16, full_not_found_path: &str) -> (step: FallbackStep)
        requires
            status == 404 ==> self@.lies_in_folder(full_not_found_path@),
        ensures
            step@ == self@.fallback_step(status, full_not_found_path@),
    {
        if status != 404 {
            FallbackStep::KeepResponse
        } else {
            FallbackStep::Refetch { url: self.content_url(full_not_found_path), status: 404 }
        }
    }

    /// The base URL of the development server.
    pub fn get_url(&self) -> (url: String)
        ensures
            url@ == self@.url,
    {
        self.frontend_development_server_url.clone()
    }
}

/// A client made for a configuration reaches every document of that
/// configuration: the full path of a document lies in the client's folder,
/// and the server is asked for the separator followed by the relative path.
pub proof fn lemma_config_documents_reach_dev_server(
    config: ConfigView,
    client: DevServerClientView,
    relative: Seq<char>,
)
    requires
        client.folder == config.folder,
    ensures
        client.lies_in_folder(config.full_path(relative)),
        client.content_url(config.full_path(relative)) == client.request_url(
            config.separator + relative,
        ),
{
    let full = config.full_path(relative);
    let folder = config.folder;
    assert(full =~= folder + (config.separator + relative));
    assert(full.subrange(0, folder.len() as int) =~= folder);
    assert(full.skip(folder.len() as int) =~= config.separator + relative);
}

/// The not-found fallback never misses its document when the client was
/// made for the configuration that gave the not-found path: that path lies
/// in the client's folder, the fallback of a 404 answer refetches that
/// document, and every other answer is kept.
pub proof fn lemma_fallback_finds_config_document(
    config: ConfigView,
    client: DevServerClientView,
    status: u16,
    relative: Seq<char>,
)
    requires
        client.folder == config.folder,
    ensures
        client.lies_in_folder(config.full_path(relative)),
        client.fallback_step(status, config.full_path(relative)) == (if status == 404 {
            FallbackStepView::Refetch {
                url: client.request_url(config.separator + relative),
                status: 404,
            }
        } else {
            FallbackStepView::KeepResponse
        }),
{
    lemma_config_documents_reach_dev_server(config, client, relative);
}

} // verus!

verus! {

/// The URL of a path is the base URL, one `/`, and the path without the
/// `/` it may start with.
pub proof fn lemma_request_url_single_slash(client: DevServerClientView, path: Seq<char>)
    ensures
        client.request_url(path) == client.url + "/"@ + (if path.len() > 0 && path[0] == '/' {
            path.skip(1)
        } else {
            path
        }),
{
    reveal_strlit("/");
    if path.len() > 0 && path[0] == '/' {
        assert(path =~= "/"@ + path.skip(1));
        assert(client.url + path =~= client.url + "/"@ + path.skip(1));
    }
}

/// The URL of a static file is the base URL, one `/`, and the file's path
/// below the folder without the `/` it may start with; a 404 answer to a
/// page is replaced by the not-found document at that URL, answered with
/// status 404, and every other answer is kept.
pub proof fn lemma_content_url_and_fallback(
    client: DevServerClientView,
    full_path: Seq<char>,
    status: u16,
)
    ensures
        ({
            let below = full_path.skip(client.folder.len() as int);
            let url = client.url + "/"@ + (if below.len() > 0 && below[0] == '/' {
                below.skip(1)
            } else {
                below
            });
            &&& client.content_url(full_path) == url
            &&& status == 404 ==> client.fallback_step(status, full_path) == (
            FallbackStepView::Refetch { url, status: 404 })
            &&& status != 404 ==> client.fallback_step(status, full_path)
                == FallbackStepView::KeepResponse
        }),
{
    lemma_request_url_single_slash(client, full_path.skip(client.folder.len() as int));
}

} // verus!
