//! The requests, responses and notifications with which the build server
//! extends the build server protocol for a language server.
use vstd::prelude::*;
use vstd::string::*;
use bsp_server::RequestId;
use crate::text::same_text;
use crate::types::text_of;

verus! {

/// The id of a request, opaque to the proofs: it is handed from a request
/// to its response.
#[verifier::external_type_specification]
#[verifier::external_body]
pub struct ExRequestId(RequestId);

/// The method of the request to register or unregister a file for changes
/// of its options.
pub const REGISTER_FOR_CHANGES: &'static str = "textDocument/registerForChanges";

/// The method of the request for the compiler options of a file.
pub const SOURCEKIT_OPTIONS: &'static str = "textDocument/sourceKitOptions";

/// The method of the request for the output paths of build targets.
pub const OUTPUT_PATHS: &'static str = "buildTarget/outputPaths";

/// The method of the notification that the options of a file have changed.
pub const OPTIONS_CHANGED: &'static str = "build/sourceKitOptionsChanged";

/// The code of the error that answers a request with an unknown method.
pub const UNHANDLED_CODE: i32 = 123;

/// Whether to register or to unregister a file.
#[derive(Debug, Clone, Copy, PartialEq, Eq, Structural)]
pub enum RegisterAction {
    Register,
    Unregister,
}

impl RegisterAction {
    /// The action as it is written in a request.
    pub open spec fn name(self) -> Seq<char> {
        match self {
            RegisterAction::Register => "register"@,
            RegisterAction::Unregister => "unregister"@,
        }
    }

    /// The action that a text in a request stands for, if it is one.
    pub open spec fn parse(text: Seq<char>) -> Option<RegisterAction> {
        if text == "register"@ {
            Some(RegisterAction::Register)
        } else if text == "unregister"@ {
            Some(RegisterAction::Unregister)
        } else {
            None
        }
    }

    /// The action as it is written in a request.
    pub fn to_string(&self) -> (s: String)
        ensures
            s@ == self.name(),
    {
        match self {
            RegisterAction::Register => String::from_str("register"),
            RegisterAction::Unregister => String::from_str("unregister"),
        }
    }

    /// Reads an action; `None` for any other text.
    pub fn from_str(text: &str) -> (r: Option<RegisterAction>)
        ensures
            r == RegisterAction::parse(text@),
    {
        if same_text(text, "register") {
            Some(RegisterAction::Register)
        } else if same_text(text, "unregister") {
            Some(RegisterAction::Unregister)
        } else {
            None
        }
    }
}

/// Request to register or unregister a file for changes of its options.
#[derive(Debug)]
pub struct OptionsChangedRequest {
    /// The URI of the document.
    pub uri: String,
    /// Whether to register or unregister for the file.
    pub action: RegisterAction,
}

impl OptionsChangedRequest {
    /// A request for the given document.
    pub fn new(uri: String, action: RegisterAction) -> (r: OptionsChangedRequest)
        ensures
            r.uri == uri,
            r.action == action,
    {
        OptionsChangedRequest { uri, action }
    }
}

/// Request for the compiler options of a file.
#[derive(Debug)]
pub struct OptionsRequest {
    /// The URI of the document.
    pub uri: String,
}

/// The compiler options of a file.
#[derive(Debug)]
pub struct OptionsResponse {
    /// The compiler options required for the file.
    pub options: Vec<String>,
    /// The working directory for the compile command, as a URI.
    pub working_directory: Option<String>,
}

/// The mathematical value of an [`OptionsResponse`].
pub struct OptionsResponseView {
    pub options: Seq<Seq<char>>,
    pub working_directory: Option<Seq<char>>,
}

impl View for OptionsResponse {
    type V = OptionsResponseView;

    open spec fn view(&self) -> OptionsResponseView {
        OptionsResponseView {
            options: self.options.deep_view(),
            working_directory: text_of(self.working_directory),
        }
    }
}

impl OptionsResponse {
    /// A response with the given options.
    pub fn new(options: Vec<String>, working_directory: Option<String>) -> (r: OptionsResponse)
        ensures
            r.options == options,
            r.working_directory == working_directory,
    {
        OptionsResponse { options, working_directory }
    }

    /// The message that answers the request `id` with these options.
    pub fn as_response(self, id: RequestId) -> (m: Message)
        ensures
            m == Message::Options(id, self),
    {
        Message::Options(id, self)
    }
}

/// Notification that the options of a registered file have changed.
#[derive(Debug)]
pub struct OptionsChangedNotification {
    /// The URI of the document.
    pub uri: String,
    /// The options of the file as they are now.
    pub updated_options: OptionsResponse,
}

impl OptionsChangedNotification {
    /// A notification for the given document.
    pub fn new(uri: String, options: Vec<String>, working_directory: Option<String>) -> (r:
        OptionsChangedNotification)
        ensures
            r.uri == uri,
            r.updated_options.options == options,
            r.updated_options.working_directory == working_directory,
    {
        OptionsChangedNotification { uri, updated_options: OptionsResponse { options, working_directory } }
    }
}

/// Request for the output paths of the sources of build targets.
#[derive(Debug)]
pub struct BuildTargetOutputPathsRequest {
    /// The URIs of the build targets.
    pub targets: Vec<String>,
}

/// The output paths of one build target.
#[derive(Debug)]
pub struct BuildTargetOutputPaths {
    /// The URI of the build target.
    pub target: String,
    /// The output paths of the sources of the target, as URIs.
    pub output_paths: Vec<String>,
}

impl BuildTargetOutputPaths {
    /// The output paths of a build target.
    pub fn new(target: String, output_paths: Vec<String>) -> (r: BuildTargetOutputPaths)
        ensures
            r.target == target,
            r.output_paths == output_paths,
    {
        BuildTargetOutputPaths { target, output_paths }
    }
}

/// The output paths of build targets.
#[derive(Debug)]
pub struct BuildTargetOutputPathsResponse {
    pub items: Vec<BuildTargetOutputPaths>,
}

impl BuildTargetOutputPathsResponse {
    /// A response with the given items.
    pub fn new(items: Vec<BuildTargetOutputPaths>) -> (r: BuildTargetOutputPathsResponse)
        ensures
            r.items == items,
    {
        BuildTargetOutputPathsResponse { items }
    }

    /// The message that answers the request `id` with these output paths.
    pub fn as_response(self, id: RequestId) -> (m: Message)
        ensures
            m == Message::OutputPaths(id, self),
    {
        Message::OutputPaths(id, self)
    }
}

/// A message that the build server sends.
#[derive(Debug)]
pub enum Message {
    /// The empty response to a request.
    Done(RequestId),
    /// The response with the compiler options of a file.
    Options(RequestId, OptionsResponse),
    /// The notification that the options of a file have changed.
    OptionsChanged(OptionsChangedNotification),
    /// The response with the build targets of the workspace: none.
    BuildTargets(RequestId),
    /// The response with the sources of build targets: none.
    Sources(RequestId),
    /// The response with the output paths of build targets.
    OutputPaths(RequestId, BuildTargetOutputPathsResponse),
    /// The error response with a code and a text.
    Failure(RequestId, i32, String),
}

/// The mathematical value of a [`Message`].
pub enum MessageView {
    Done(RequestId),
    Options(RequestId, OptionsResponseView),
    OptionsChanged(Seq<char>, OptionsResponseView),
    BuildTargets(RequestId),
    Sources(RequestId),
    OutputPaths(RequestId, Seq<(Seq<char>, Seq<Seq<char>>)>),
    Failure(RequestId, i32, Seq<char>),
}

/// The values of a list of output paths.
pub open spec fn items_view(items: Seq<BuildTargetOutputPaths>) -> Seq<(Seq<char>, Seq<Seq<char>>)> {
    Seq::new(items.len(), |i: int| (items[i].target@, items[i].output_paths.deep_view()))
}

impl View for Message {
    type V = MessageView;

    open spec fn view(&self) -> MessageView {
        match self {
            Message::Done(id) => MessageView::Done(*id),
            Message::Options(id, response) => MessageView::Options(*id, response@),
            Message::OptionsChanged(n) => MessageView::OptionsChanged(n.uri@, n.updated_options@),
            Message::BuildTargets(id) => MessageView::BuildTargets(*id),
            Message::Sources(id) => MessageView::Sources(*id),
            Message::OutputPaths(id, response) => MessageView::OutputPaths(
                *id,
                items_view(response.items@),
            ),
            Message::Failure(id, code, text) => MessageView::Failure(*id, *code, text@),
        }
    }
}

/// The values of a list of messages.
pub open spec fn messages_view(messages: Seq<Message>) -> Seq<MessageView> {
    Seq::new(messages.len(), |i: int| messages[i]@)
}

/// The mathematical value of an [`Incoming`] message. Of the requests for
/// sources and for output paths the server reads the id alone.
pub enum IncomingView {
    WorkspaceBuildTargets(RequestId),
    BuildTargetSources(RequestId),
    RegisterForChanges(RequestId, Seq<char>, RegisterAction),
    SourceKitOptions(RequestId, Seq<char>),
    OutputPaths(RequestId),
    Unhandled(RequestId, Seq<char>),
    Response,
    Notification,
}

impl View for Incoming {
    type V = IncomingView;

    open spec fn view(&self) -> IncomingView {
        match self {
            Incoming::WorkspaceBuildTargets(id) => IncomingView::WorkspaceBuildTargets(*id),
            Incoming::BuildTargetSources(id) => IncomingView::BuildTargetSources(*id),
            Incoming::RegisterForChanges(id, request) => IncomingView::RegisterForChanges(
                *id,
                request.uri@,
                request.action,
            ),
            Incoming::SourceKitOptions(id, request) => IncomingView::SourceKitOptions(
                *id,
                request.uri@,
            ),
            Incoming::OutputPaths(id, _) => IncomingView::OutputPaths(*id),
            Incoming::Unhandled(id, method) => IncomingView::Unhandled(*id, method@),
            Incoming::Response => IncomingView::Response,
            Incoming::Notification => IncomingView::Notification,
        }
    }
}

/// A message that the build server receives, as far as it tells messages
/// apart.
#[derive(Debug)]
pub enum Incoming {
    /// The request for the build targets of the workspace.
    WorkspaceBuildTargets(RequestId),
    /// The request for the sources of build targets.
    BuildTargetSources(RequestId),
    /// The request to register or unregister a file for changes.
    RegisterForChanges(RequestId, OptionsChangedRequest),
    /// The request for the compiler options of a file.
    SourceKitOptions(RequestId, OptionsRequest),
    /// The request for the output paths of build targets.
    OutputPaths(RequestId, BuildTargetOutputPathsRequest),
    /// A request with any other method.
    Unhandled(RequestId, String),
    /// A response.
    Response,
    /// A notification.
    Notification,
}

/// What a request with a method of its own is, by the name of the method.
#[derive(Debug, Clone, Copy, PartialEq, Eq, Structural)]
pub enum Route {
    RegisterForChanges,
    SourceKitOptions,
    OutputPaths,
    Unhandled,
}

/// What a request with the method `method` is.
pub open spec fn route_of(method: Seq<char>) -> Route {
    if method == REGISTER_FOR_CHANGES@ {
        Route::RegisterForChanges
    } else if method == SOURCEKIT_OPTIONS@ {
        Route::SourceKitOptions
    } else if method == OUTPUT_PATHS@ {
        Route::OutputPaths
    } else {
        Route::Unhandled
    }
}

/// What a request with the method `method` is.
pub fn route(method: &str) -> (r: Route)
    ensures
        r == route_of(method@),
{
    if same_text(method, REGISTER_FOR_CHANGES) {
        Route::RegisterForChanges
    } else if same_text(method, SOURCEKIT_OPTIONS) {
        Route::SourceKitOptions
    } else if same_text(method, OUTPUT_PATHS) {
        Route::OutputPaths
    } else {
        Route::Unhandled
    }
}

} // verus!
