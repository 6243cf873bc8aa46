use crate::config::{ConfigView, KangarooConfig};
use crate::dev_server::{DevServerClientView, FrontendDevelopmentServerClient};
use vstd::prelude::*;

verus! {

/// The full path of the document served when nothing is found: the document
/// configured for status 404, else the default document.
pub open spec fn not_found_path_spec(config: ConfigView) -> Seq<char> {
    match config.status_path(404) {
        Some(path) => path,
        None => config.default_path(),
    }
}

/// The full path of the document served when nothing is found: the document
/// configured for status 404, else the default document.
pub fn not_found_document_path(config: &KangarooConfig) -> (path: String)
    ensures
        path@ == not_found_path_spec(config@),
{
    match config.get_full_path_from_status_code(404) {
        Some(path) => path,
        None => config.get_default_path(),
    }
}

/// How a router serves what its own routes do not: from a frontend
/// development server, or from the static files folder.
pub enum ServingPlan {
    /// Every other path is fetched from the development server through `client`.
    DevelopmentServer { client: FrontendDevelopmentServerClient },
    /// Every other path is a file under `folder`; a missing file is answered
    /// with the document at `not_found_path`.
    StaticFiles { folder: String, not_found_path: String },
}

/// The model of a [`ServingPlan`].
pub enum ServingPlanView {
    DevelopmentServer { client: DevServerClientView },
    StaticFiles { folder: Seq<char>, not_found_path: Seq<char> },
}

impl View for ServingPlan {
    type V = ServingPlanView;

    open spec fn view(&self) -> ServingPlanView {
        match self {
            ServingPlan::DevelopmentServer { client } => ServingPlanView::DevelopmentServer {
                client: client@,
            },
            ServingPlan::StaticFiles { folder, not_found_path } => ServingPlanView::StaticFiles {
                folder: folder@,
                not_found_path: not_found_path@,
            },
        }
    }
}

/// How a router configured by `config` serves what its own routes do not.
pub open spec fn serving_plan_spec(config: ConfigView) -> ServingPlanView {
    match config.dev_server_url {
        Some(url) => ServingPlanView::DevelopmentServer {
            client: DevServerClientView { url, folder: config.folder },
        },
        None => ServingPlanView::StaticFiles {
            folder: config.folder,
            not_found_path: not_found_path_spec(config),
        },
    }
}

/// How a router configured by `config` serves what its own routes do not:
/// through a client of the development server where one is configured, else
/// from the static files folder with the not-found document for missing files.
pub fn serving_plan(config: &KangarooConfig) -> (plan: ServingPlan)
    ensures
        plan@ == serving_plan_spec(config@),
{
    match config.get_frontend_development_server_url() {
        Some(url) => {
            let folder = config.get_folder_path();
            ServingPlan::DevelopmentServer {
                client: FrontendDevelopmentServerClient::new(url.as_str(), folder.as_str()),
            }
        },
        None => ServingPlan::StaticFiles {
            folder: config.get_folder_path(),
            not_found_path: not_found_document_path(config),
        },
    }
}

} // verus!

verus! {

/// With a development server configured, the fallback for a page that the
/// server does not find always reaches the not-found document: a 404 answer
/// is replaced by that document fetched from the server, any other answer
/// is kept.
pub proof fn lemma_dev_server_plan_reaches_not_found_document(config: ConfigView, status: u16)
    requires
        config.dev_server_url is Some,
    ensures
        serving_plan_spec(config) matches ServingPlanView::DevelopmentServer { client } && {
            &&& client.lies_in_folder(not_found_path_spec(config))
            &&& {
            let relative = match config.status_path(404) {
                Some(_) => config.documents[404],
                None => config.default_document,
            };
            client.fallback_step(status, not_found_path_spec(config)) == if status == 404 {
                crate::dev_server::FallbackStepView::Refetch {
                    url: client.request_url(config.separator + relative),
                    status: 404,
                }
            } else {
                crate::dev_server::FallbackStepView::KeepResponse
            }
            }
        },
{
    let client = DevServerClientView { url: config.dev_server_url.unwrap(), folder: config.folder };
    let relative = match config.status_path(404) {
        Some(_) => config.documents[404],
        None => config.default_document,
    };
    crate::dev_server::lemma_fallback_finds_config_document(config, client, status, relative);
}

} // verus!

verus! {

/// How a router serves what its routes do not: with a development server
/// configured, through a client of that server made for the folder; else
/// from the folder, answering a missing file with the document configured
/// for status 404 where there is one, and with the default document where
/// there is none.
pub proof fn lemma_serving_plan_cases(config: ConfigView)
    ensures
        not_found_path_spec(config) == config.folder + config.separator + (
        if config.documents.contains_key(404) {
            config.documents[404]
        } else {
            config.default_document
        }),
        config.dev_server_url matches Some(url) ==> serving_plan_spec(config)
            == (ServingPlanView::DevelopmentServer {
            client: DevServerClientView { url, folder: config.folder },
        }),
        (config.dev_server_url is None && config.documents.contains_key(404))
            ==> serving_plan_spec(config) == (ServingPlanView::StaticFiles {
            folder: config.folder,
            not_found_path: config.folder + config.separator + config.documents[404],
        }),
        (config.dev_server_url is None && !config.documents.contains_key(404))
            ==> serving_plan_spec(config) == (ServingPlanView::StaticFiles {
            folder: config.folder,
            not_found_path: config.folder + config.separator + config.default_document,
        }),
{
}

} // verus!
