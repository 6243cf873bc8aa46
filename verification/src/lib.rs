//! Serves static web applications and injects server-side data into their
//! HTML documents. This crate holds the verified core: the configuration,
//! the choice of documents and URLs, the injection of the data script, and
//! the parsing done by the attribute macros.

pub mod add_fields;
pub mod arguments;
pub mod config;
pub mod dev_server;
pub mod page;
pub mod routing;

pub use add_fields::{
    ident_list_error, parse_ident_list, plan_accessors, plan_add_fields, Accessor, AddFieldsError, AddFieldsPlan,
    IdentListError, MetaToken, StructShape,
};
pub use arguments::{
    is_result_return_type, parse_arguments, ArgumentValue, Arguments, ArgumentsError,
    AttributeArgument, ReturnTypeShape,
};
pub use config::KangarooConfig;
pub use dev_server::{FallbackStep, FrontendDevelopmentServerClient};
pub use page::{
    data_script, inject_data_script, internal_error_response, plain_page_data, render_page,
    result_page_data, select_document_path, select_document_source, DocumentSource, InjectionError,
    PageResponse,
};
pub use routing::{not_found_document_path, serving_plan, ServingPlan};
