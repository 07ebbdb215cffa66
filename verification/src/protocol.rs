//! The generator protocol: what to do on a request that the host sends.
//!
//! The host sends one JSON value per line. A request names its `method`.
//! `getManifest` asks what the generator is; `generate` hands over, under
//! `params`, the document of the data model and the directory to write to.
//! The decision is made here; sending the answer and writing the files is
//! left to the caller.

use crate::dmmf::{document_schema, parse_dmmf, text_at};
use crate::generator::{generate, generated_files, GeneratedFile, GeneratedFileView};
use crate::json::Json;
use crate::scanner::{ManualResolvers, ManualResolversView};
use crate::text::view_all;
use vstd::prelude::*;

verus! {

/// The directory to write to where a request names none.
pub const DEFAULT_OUTPUT: &'static str = "./src/generated";

/// What a request asks for.
#[derive(Debug)]
pub enum Action {
    /// The request is none that the generator knows: nothing is sent.
    Ignore,
    /// The manifest is to be sent.
    SendManifest,
    /// The empty result is to be sent.
    SendResult,
    /// The files are to be written below `output`, and the empty result sent.
    Generate { output: String, files: Vec<GeneratedFile> },
}

/// The view of an [`Action`].
pub enum ActionView {
    Ignore,
    SendManifest,
    SendResult,
    Generate { output: Seq<char>, files: Seq<GeneratedFileView> },
}

impl View for Action {
    type V = ActionView;

    open spec fn view(&self) -> ActionView {
        match *self {
            Action::Ignore => ActionView::Ignore,
            Action::SendManifest => ActionView::SendManifest,
            Action::SendResult => ActionView::SendResult,
            Action::Generate { output, files } => ActionView::Generate {
                output: output@,
                files: view_all(files@),
            },
        }
    }
}

/// The directory that the parameters `params` name: the string at
/// `generator.output.value`, or the default.
pub open spec fn output_path(params: Json) -> Seq<char> {
    match params.member("generator"@) {
        Some(generator) => match generator.member("output"@) {
            Some(output) => match text_at(output, "value"@) {
                Some(path) => path,
                None => DEFAULT_OUTPUT@,
            },
            None => DEFAULT_OUTPUT@,
        },
        None => DEFAULT_OUTPUT@,
    }
}

/// No resolvers defined by hand.
pub open spec fn no_manual_resolvers() -> ManualResolversView {
    ManualResolversView { queries: Set::empty(), mutations: Set::empty() }
}

/// What the request `request` asks for. A request to generate that holds no
/// document gets the empty result and nothing else. Under this protocol no
/// resolver counts as defined by hand.
pub open spec fn action_for(request: Json) -> ActionView {
    match text_at(request, "method"@) {
        None => ActionView::Ignore,
        Some(method) => if method == "getManifest"@ {
            ActionView::SendManifest
        } else if method == "generate"@ {
            match request.member("params"@) {
                None => ActionView::SendResult,
                Some(params) => match params.member("dmmf"@) {
                    None => ActionView::SendResult,
                    Some(document) => ActionView::Generate {
                        output: output_path(params),
                        files: generated_files(document_schema(document), no_manual_resolvers()),
                    },
                },
            }
        } else {
            ActionView::Ignore
        },
    }
}

fn output_path_of(params: &Json) -> (r: String)
    ensures
        r@ == output_path(*params),
{
    match params.get("generator") {
        Some(generator) => match generator.get("output") {
            Some(output) => match output.get("value") {
                Some(value) => match value.as_str() {
                    Some(path) => path.to_owned(),
                    None => DEFAULT_OUTPUT.to_owned(),
                },
                None => DEFAULT_OUTPUT.to_owned(),
            },
            None => DEFAULT_OUTPUT.to_owned(),
        },
        None => DEFAULT_OUTPUT.to_owned(),
    }
}

/// Decides what the request `request` asks for.
pub fn handle_request(request: &Json) -> (r: Action)
    ensures
        r@ == action_for(*request),
{
    let method = match request.get("method") {
        Some(m) => match m.as_str() {
            Some(method) => method.to_owned(),
            None => {
                return Action::Ignore;
            },
        },
        None => {
            return Action::Ignore;
        },
    };
    if crate::text::same_text(&method, "getManifest") {
        Action::SendManifest
    } else if crate::text::same_text(&method, "generate") {
        match request.get("params") {
            None => Action::SendResult,
            Some(params) => match params.get("dmmf") {
                None => Action::SendResult,
                Some(document) => {
                    let schema = parse_dmmf(document);
                    let manual = ManualResolvers::new();
                    Action::Generate {
                        output: output_path_of(params),
                        files: generate(&schema, &manual),
                    }
                },
            },
        }
    } else {
        Action::Ignore
    }
}

} // verus!
