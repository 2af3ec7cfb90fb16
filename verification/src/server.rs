//! How the build server answers what it receives.
use vstd::prelude::*;
use vstd::string::*;
use bsp_server::RequestId;
use crate::bsp::{database_view, file_args_of, missing_arguments, FileArgs, State};
use crate::error::{Error, ErrorView};
use crate::extensions::{
    messages_view, BuildTargetOutputPathsResponse, Incoming, IncomingView, Message, MessageView,
    OptionsChangedNotification, OptionsChangedRequest, OptionsRequest, OptionsResponse,
    OptionsResponseView, RegisterAction, UNHANDLED_CODE,
};
use crate::text::{join2, join_path, joined_path};
use crate::types::text_of;
use crate::uri::{directory_uri, uri_path, uri_path_of};

verus! {

/// What the build server sends for one message it received, in the order
/// of sending, and the error it ran into, if any, after it had sent that.
#[derive(Debug)]
pub struct Answer {
    pub messages: Vec<Message>,
    pub error: Option<Error>,
}

/// The error of a URI that is no absolute URL.
pub open spec fn invalid_uri(uri: Seq<char>) -> ErrorView {
    ErrorView::Unexpected("Invalid uri "@ + uri)
}

/// The text of the error that answers a request with an unknown method.
pub open spec fn unhandled(method: Seq<char>) -> Seq<char> {
    "unhandled method "@ + method
}

/// The path of the index database under the build cache of a project.
pub open spec fn index_database_path(cache: Seq<char>) -> Seq<char> {
    cache + "/indexDatabasePath"@
}

/// The path of the index store under the build cache of a project.
pub open spec fn index_store_path(cache: Seq<char>) -> Seq<char> {
    cache + "/indexStorePath"@
}

/// What the server advertises when it is initialized: where the index of
/// the project is kept.
#[derive(Debug)]
pub struct IndexPaths {
    pub index_database_path: String,
    pub index_store_path: String,
}

/// What a lookup of the options of the document `uri` gives in the state
/// `pre`: the compile arguments of the file at the path of the URI, with
/// the working directory. A URI that is no absolute URL and a file that
/// the database does not know are errors.
pub open spec fn options_of(pre: &State, uri: Seq<char>, working_directory: Option<Seq<char>>) -> Result<
    OptionsResponseView,
    ErrorView,
> {
    match uri_path_of(uri) {
        None => Err(invalid_uri(uri)),
        Some(path) => if file_args_of(pre.compile_db()).contains_key(path) {
            Ok(
                OptionsResponseView {
                    options: file_args_of(pre.compile_db())[path],
                    working_directory,
                },
            )
        } else {
            Err(missing_arguments(path))
        },
    }
}

/// The value of the result of a lookup.
pub open spec fn lookup_view(r: Result<OptionsResponse, Error>) -> Result<
    OptionsResponseView,
    ErrorView,
> {
    match r {
        Ok(response) => Ok(response@),
        Err(e) => Err(e@),
    }
}

/// The mathematical value of an [`Answer`].
pub struct AnswerView {
    pub messages: Seq<MessageView>,
    pub error: Option<ErrorView>,
}

impl View for Answer {
    type V = AnswerView;

    open spec fn view(&self) -> AnswerView {
        AnswerView {
            messages: messages_view(self.messages@),
            error: match self.error {
                Some(e) => Some(e@),
                None => None,
            },
        }
    }
}

/// The answer to a request to register or unregister the document `uri`:
/// first the empty response, always; then, for a request to register, the
/// notification with the options of the document, or the error of the
/// lookup.
pub open spec fn registration_answer(
    pre: &State,
    id: RequestId,
    uri: Seq<char>,
    action: RegisterAction,
    working_directory: Option<Seq<char>>,
) -> AnswerView {
    if action != RegisterAction::Register {
        AnswerView { messages: seq![MessageView::Done(id)], error: None }
    } else {
        match options_of(pre, uri, working_directory) {
            Ok(options) => AnswerView {
                messages: seq![MessageView::Done(id), MessageView::OptionsChanged(uri, options)],
                error: None,
            },
            Err(e) => AnswerView { messages: seq![MessageView::Done(id)], error: Some(e) },
        }
    }
}

/// The answer to a request for the options of the document `uri`: the
/// response with the options, or nothing and the error of the lookup.
pub open spec fn options_answer(
    pre: &State,
    id: RequestId,
    uri: Seq<char>,
    working_directory: Option<Seq<char>>,
) -> AnswerView {
    match options_of(pre, uri, working_directory) {
        Ok(options) => AnswerView { messages: seq![MessageView::Options(id, options)], error: None },
        Err(e) => AnswerView { messages: Seq::empty(), error: Some(e) },
    }
}

/// The answer of the server to a message it received. Requests for build
/// targets, sources and output paths are answered with none. A request
/// with an unknown method is answered with an error response. Responses
/// and notifications are passed over.
pub open spec fn answer_of(
    pre: &State,
    message: IncomingView,
    working_directory: Option<Seq<char>>,
) -> AnswerView {
    match message {
        IncomingView::WorkspaceBuildTargets(id) => AnswerView {
            messages: seq![MessageView::BuildTargets(id)],
            error: None,
        },
        IncomingView::BuildTargetSources(id) => AnswerView {
            messages: seq![MessageView::Sources(id)],
            error: None,
        },
        IncomingView::RegisterForChanges(id, uri, action) => registration_answer(
            pre,
            id,
            uri,
            action,
            working_directory,
        ),
        IncomingView::SourceKitOptions(id, uri) => options_answer(pre, id, uri, working_directory),
        IncomingView::OutputPaths(id) => AnswerView {
            messages: seq![MessageView::OutputPaths(id, Seq::empty())],
            error: None,
        },
        IncomingView::Unhandled(id, method) => AnswerView {
            messages: seq![MessageView::Failure(id, UNHANDLED_CODE, unhandled(method))],
            error: None,
        },
        IncomingView::Response => AnswerView { messages: Seq::empty(), error: None },
        IncomingView::Notification => AnswerView { messages: Seq::empty(), error: None },
    }
}

/// The URI that a message makes the server look up, if it does.
pub open spec fn lookup_of(message: IncomingView) -> Option<Seq<char>> {
    match message {
        IncomingView::RegisterForChanges(_, uri, action) => if action == RegisterAction::Register {
            Some(uri)
        } else {
            None
        },
        IncomingView::SourceKitOptions(_, uri) => Some(uri),
        _ => None,
    }
}

/// What a lookup leaves of the state: the database as it was, and the
/// cache filled from it unless the URI was no URL.
pub open spec fn looked_up(pre: &State, uri: Seq<char>, post: &State) -> bool {
    &&& post.compile_db() == pre.compile_db()
    &&& post.last_modified() == pre.last_modified()
    &&& post.root_path() == pre.root_path()
    &&& post.compile_filepath() == pre.compile_filepath()
    &&& post.file_args() == (if uri_path_of(uri) is Some {
        file_args_of(pre.compile_db())
    } else {
        pre.file_args()
    })
}

/// The paths that the server advertises for the build cache `cache`.
pub fn index_paths(cache: &str) -> (r: IndexPaths)
    ensures
        r.index_database_path@ == index_database_path(cache@),
        r.index_store_path@ == index_store_path(cache@),
{
    IndexPaths {
        index_database_path: join2(cache, "/indexDatabasePath"),
        index_store_path: join2(cache, "/indexStorePath"),
    }
}

/// The path of the file that holds the compilation database of the
/// project at `root`.
pub open spec fn database_path_of(root: Seq<char>) -> Seq<char> {
    joined_path(root, ".compile"@)
}

/// The path of the file that configures the build server for the project
/// at `root`.
pub open spec fn config_path_of(root: Seq<char>) -> Seq<char> {
    joined_path(root, "buildServer.json"@)
}

/// The path of the file that holds the compilation database of the
/// project at `root`.
pub fn compile_filepath(root: &str) -> (r: String)
    ensures
        r@ == database_path_of(root@),
{
    join_path(root, ".compile")
}

/// The path of the file that configures the build server for the project
/// at `root`.
pub fn config_filepath(root: &str) -> (r: String)
    ensures
        r@ == config_path_of(root@),
{
    join_path(root, "buildServer.json")
}

/// Sets the server up for the project at `root_path`, with the
/// compilation database as it was read from the project's database file
/// and the modification time of that file. The server advertises the
/// index database under the build cache, and the index store that is
/// configured or else the one under the build cache.
pub fn initialize(
    root_path: String,
    compile_db: Vec<Vec<FileArgs>>,
    last_modified: u128,
    cache_path: &str,
    configured_index_store: Option<String>,
) -> (r: (State, IndexPaths))
    ensures
        r.0.wf(),
        r.0.root_path() == root_path@,
        r.0.compile_filepath() == database_path_of(root_path@),
        r.0.compile_db() == database_view(compile_db@),
        r.0.last_modified() == last_modified,
        r.0.file_args() == Map::<Seq<char>, Seq<Seq<char>>>::empty(),
        r.1.index_database_path@ == index_database_path(cache_path@),
        r.1.index_store_path@ == (match configured_index_store {
            Some(path) => path@,
            None => index_store_path(cache_path@),
        }),
{
    let database = compile_filepath(root_path.as_str());
    let defaults = index_paths(cache_path);
    let paths = match configured_index_store {
        Some(path) => IndexPaths {
            index_database_path: defaults.index_database_path,
            index_store_path: path,
        },
        None => defaults,
    };
    (State::new(root_path, database, compile_db, last_modified), paths)
}

/// The answer to a request with an unknown method: an error response with
/// the code of unhandled methods and a text that names the method.
pub fn default_response(id: RequestId, method: &str) -> (m: Message)
    ensures
        m matches Message::Failure(i, code, text) && i == id && code == UNHANDLED_CODE && text@
            == unhandled(method@),
{
    Message::Failure(id, UNHANDLED_CODE, join2("unhandled method ", method))
}

impl State {
    /// The options of the document `uri`, with the given working
    /// directory.
    pub fn options(&mut self, uri: &str, working_directory: Option<String>) -> (r: Result<
        OptionsResponse,
        Error,
    >)
        requires
            old(self).wf(),
        ensures
            final(self).wf(),
            looked_up(old(self), uri@, final(self)),
            lookup_view(r) == options_of(old(self), uri@, text_of(working_directory)),
    {
        let path = match uri_path(uri) {
            Some(path) => path,
            None => {
                return Err(Error::Unexpected(join2("Invalid uri ", uri)));
            },
        };
        match self.get_compile_args(path.as_str()) {
            Ok(options) => Ok(OptionsResponse { options, working_directory }),
            Err(e) => Err(e),
        }
    }

    /// Answers a request to register or unregister a file for changes of
    /// its options.
    pub fn register_for_changes(
        &mut self,
        id: RequestId,
        request: OptionsChangedRequest,
        working_directory: Option<String>,
    ) -> (a: Answer)
        requires
            old(self).wf(),
        ensures
            final(self).wf(),
            a@ == registration_answer(
                old(self),
                id,
                request.uri@,
                request.action,
                text_of(working_directory),
            ),
            request.action == RegisterAction::Register ==> looked_up(
                old(self),
                request.uri@,
                final(self),
            ),
            request.action != RegisterAction::Register ==> *final(self) == *old(self),
    {
        let mut messages: Vec<Message> = Vec::new();
        messages.push(Message::Done(id));
        if !matches!(request.action, RegisterAction::Register) {
            let a = Answer { messages, error: None };
            assert(a@.messages =~= seq![MessageView::Done(id)]);
            return a;
        }
        match self.options(request.uri.as_str(), working_directory) {
            Ok(options) => {
                messages.push(
                    Message::OptionsChanged(
                        OptionsChangedNotification { uri: request.uri, updated_options: options },
                    ),
                );
                let a = Answer { messages, error: None };
                assert(a@.messages =~= seq![
                    MessageView::Done(id),
                    MessageView::OptionsChanged(request.uri@, options@),
                ]);
                a
            },
            Err(e) => {
                let a = Answer { messages, error: Some(e) };
                assert(a@.messages =~= seq![MessageView::Done(id)]);
                a
            },
        }
    }

    /// Answers a request for the compiler options of a file.
    pub fn sourcekit_options(
        &mut self,
        id: RequestId,
        request: OptionsRequest,
        working_directory: Option<String>,
    ) -> (a: Answer)
        requires
            old(self).wf(),
        ensures
            final(self).wf(),
            a@ == options_answer(old(self), id, request.uri@, text_of(working_directory)),
            looked_up(old(self), request.uri@, final(self)),
    {
        let mut messages: Vec<Message> = Vec::new();
        match self.options(request.uri.as_str(), working_directory) {
            Ok(options) => {
                messages.push(options.as_response(id));
                let a = Answer { messages, error: None };
                assert(a@.messages =~= seq![MessageView::Options(id, options@)]);
                a
            },
            Err(e) => {
                let a = Answer { messages, error: Some(e) };
                assert(a@.messages =~= Seq::<MessageView>::empty());
                a
            },
        }
    }

    /// Answers a message, with the given URI of the working directory.
    /// The state changes where the message makes the server look up a
    /// document, and then as a lookup changes it.
    pub fn answer(&mut self, message: Incoming, working_directory: Option<String>) -> (a: Answer)
        requires
            old(self).wf(),
        ensures
            final(self).wf(),
            a@ == answer_of(old(self), message@, text_of(working_directory)),
            match lookup_of(message@) {
                Some(uri) => looked_up(old(self), uri, final(self)),
                None => *final(self) == *old(self),
            },
    {
        let mut messages: Vec<Message> = Vec::new();
        match message {
            Incoming::WorkspaceBuildTargets(id) => {
                messages.push(Message::BuildTargets(id));
                let a = Answer { messages, error: None };
                assert(a@.messages =~= seq![MessageView::BuildTargets(id)]);
                a
            },
            Incoming::BuildTargetSources(id) => {
                messages.push(Message::Sources(id));
                let a = Answer { messages, error: None };
                assert(a@.messages =~= seq![MessageView::Sources(id)]);
                a
            },
            Incoming::RegisterForChanges(id, request) => self.register_for_changes(
                id,
                request,
                working_directory,
            ),
            Incoming::SourceKitOptions(id, request) => self.sourcekit_options(
                id,
                request,
                working_directory,
            ),
            Incoming::OutputPaths(id, _) => {
                let response = BuildTargetOutputPathsResponse::new(Vec::new());
                assert(crate::extensions::items_view(response.items@) =~= Seq::empty());
                messages.push(response.as_response(id));
                let a = Answer { messages, error: None };
                assert(a@.messages =~= seq![MessageView::OutputPaths(id, Seq::empty())]);
                a
            },
            Incoming::Unhandled(id, method) => {
                messages.push(default_response(id, method.as_str()));
                let a = Answer { messages, error: None };
                assert(a@.messages =~= seq![
                    MessageView::Failure(id, UNHANDLED_CODE, unhandled(method@)),
                ]);
                a
            },
            Incoming::Response => {
                let a = Answer { messages, error: None };
                assert(a@.messages =~= Seq::<MessageView>::empty());
                a
            },
            Incoming::Notification => {
                let a = Answer { messages, error: None };
                assert(a@.messages =~= Seq::<MessageView>::empty());
                a
            },
        }
    }

    /// Answers a message. The working directory that goes with the options
    /// of a file is the URI of the root of the project, where the root has
    /// one.
    pub fn handle_message(&mut self, message: Incoming) -> (a: Answer)
        requires
            old(self).wf(),
        ensures
            final(self).wf(),
            exists|working_directory: Option<Seq<char>>|
                a@ == answer_of(old(self), message@, working_directory),
            match lookup_of(message@) {
                Some(uri) => looked_up(old(self), uri, final(self)),
                None => *final(self) == *old(self),
            },
    {
        let working_directory = directory_uri(self.root());
        self.answer(message, working_directory)
    }
}

} // verus!
