//! The omnitraits of all standard requests and notifications, and how these are handed to them.
use core::ops::ControlFlow;
use vstd::prelude::*;

use crate::error::{Error, ErrorCode, JsonValue, ResponseError};
use crate::message::{AnyNotification, AnyRequest};
use crate::omni_trait::{
    fallback, handles_all, may_be_ignored, ClientNotification, ClientRequest, ServerNotification,
    ServerRequest, StandardMethod,
};
use crate::router::Router;
use crate::server::refused_with;
use crate::service::{goes_on, Flow};
use crate::socket::{ClientSocket, PeerSocket, PeerSocketRequestFuture, ServerSocket};

verus! {

/// What a standard request is answered through.
pub enum Reply<Fut, E> {
    /// The future answers.
    Future(Fut),
    /// The request succeeds at once, without a result.
    Done,
    /// The request fails at once.
    Refused(E),
}

/// What a handler of notifications returns.
pub trait NotifyResult: Sized {
    /// Whether `r` is returned for a notification of the method that is not implemented.
    spec fn falls_back(method: Seq<char>, r: Self) -> bool;

    /// What is returned for a notification of the method that is not implemented.
    fn fallback(method: &str) -> (r: Self)
        ensures
            Self::falls_back(method@, r),
    ;
}

impl NotifyResult for Flow {
    open spec fn falls_back(method: Seq<char>, r: Flow) -> bool {
        if may_be_ignored(method) {
            r == goes_on()
        } else {
            r matches ControlFlow::Break(Err(e)) && e.is_routing(
                "Unhandled notification: "@ + method,
            )
        }
    }

    fn fallback(method: &str) -> (r: Flow) {
        fallback(method)
    }
}

impl NotifyResult for Result<(), Error> {
    open spec fn falls_back(method: Seq<char>, r: Result<(), Error>) -> bool {
        if may_be_ignored(method) {
            r is Ok
        } else {
            r matches Err(e) && e.is_routing("Unhandled notification: "@ + method)
        }
    }

    fn fallback(method: &str) -> (r: Result<(), Error>) {
        match fallback(method) {
            ControlFlow::Continue(()) => Ok(()),
            ControlFlow::Break(result) => result,
        }
    }
}

/// Whether a server that does not implement the request answers it with `r`. It has to implement
/// `initialize`. A `shutdown` succeeds, any other request fails.
pub open spec fn server_left_out<Fut, E: From<ResponseError>>(
    m: ServerRequest,
    r: Reply<Fut, E>,
) -> bool {
    match m {
        ServerRequest::Initialize => false,
        ServerRequest::Shutdown => r is Done,
        _ => r matches Reply::Refused(e) && refused_with(
            e,
            ErrorCode::METHOD_NOT_FOUND,
            "No such method: "@ + m.name(),
        ),
    }
}

/// The answer of a server that does not implement the request.
fn server_leave_out<Fut, E: From<ResponseError>>(m: ServerRequest) -> (r: Reply<Fut, E>)
    requires
        m != ServerRequest::Initialize,
    ensures
        server_left_out(m, r),
{
    match m.unimplemented() {
        Ok(()) => Reply::Done,
        Err(object) => {
            let e = E::from(object);
            assert(call_ensures(<E as From<ResponseError>>::from, (object,), e));
            Reply::Refused(e)
        },
    }
}

/// Whether a client that does not implement the request answers it with `r`: it fails.
pub open spec fn client_left_out<Fut, E: From<ResponseError>>(
    m: ClientRequest,
    r: Reply<Fut, E>,
) -> bool {
    r matches Reply::Refused(e) && refused_with(
        e,
        ErrorCode::METHOD_NOT_FOUND,
        "No such method: "@ + m.name(),
    )
}

/// The answer of a client that does not implement the request.
fn client_leave_out<Fut, E: From<ResponseError>>(m: ClientRequest) -> (r: Reply<Fut, E>)
    ensures
        client_left_out(m, r),
{
    let object = m.unimplemented();
    let e = E::from(object);
    assert(call_ensures(<E as From<ResponseError>>::from, (object,), e));
    Reply::Refused(e)
}

/// Whether `r` is what a request that was sent through the socket is answered through. If the
/// socket is closed there is nothing to wait for.
pub open spec fn request_sent<P>(
    peer: PeerSocket<P>,
    method: Seq<char>,
    params: JsonValue,
    r: Reply<PeerSocketRequestFuture, Error>,
) -> bool {
    r matches Reply::Future(fut) && peer.requested(method, params, fut) && (peer.closed()
        ==> fut.awaits() is None)
}

/// Whether sending a notification through the socket results in `r`. It fails if the socket is
/// closed.
pub open spec fn notification_sent<P>(
    peer: PeerSocket<P>,
    method: Seq<char>,
    params: JsonValue,
    r: Result<(), Error>,
) -> bool {
    &&& peer.notified(method, params, r is Ok)
    &&& r matches Err(e) ==> e == Error::ServiceStopped
    &&& peer.closed() ==> r is Err
}

/// The omnitrait defining all standard LSP requests and notifications for a Language Server. The
/// parameters and results are JSON documents.
///
/// A method that is not implemented does nothing but say so.
pub trait LanguageServer: Sized {
    /// What a failed request is answered with.
    type Error: From<ResponseError>;

    /// What a request is answered through.
    type Future;

    /// What a notification results in.
    type NotifyResult: NotifyResult;

    /// `initialize`
    fn initialize(&mut self, params: JsonValue) -> (r: Reply<Self::Future, Self::Error>);

    /// `shutdown`
    fn shutdown(&mut self, params: JsonValue) -> (r: Reply<Self::Future, Self::Error>)
        default_ensures
            *final(self) == *old(self),
            server_left_out(ServerRequest::Shutdown, r),
    {
        server_leave_out(ServerRequest::Shutdown)
    }

    /// `textDocument/implementation`
    fn implementation(&mut self, params: JsonValue) -> (r: Reply<Self::Future, Self::Error>)
        default_ensures
            *final(self) == *old(self),
            server_left_out(ServerRequest::Implementation, r),
    {
        server_leave_out(ServerRequest::Implementation)
    }

    /// `textDocument/typeDefinition`
    fn type_definition(&mut self, params: JsonValue) -> (r: Reply<Self::Future, Self::Error>)
        default_ensures
            *final(self) == *old(self),
            server_left_out(ServerRequest::TypeDefinition, r),
    {
        server_leave_out(ServerRequest::TypeDefinition)
    }

    /// `textDocument/documentColor`
    fn document_color(&mut self, params: JsonValue) -> (r: Reply<Self::Future, Self::Error>)
        default_ensures
            *final(self) == *old(self),
            server_left_out(ServerRequest::DocumentColor, r),
    {
        server_leave_out(ServerRequest::DocumentColor)
    }

    /// `textDocument/colorPresentation`
    fn color_presentation(&mut self, params: JsonValue) -> (r: Reply<Self::Future, Self::Error>)
        default_ensures
            *final(self) == *old(self),
            server_left_out(ServerRequest::ColorPresentation, r),
    {
        server_leave_out(ServerRequest::ColorPresentation)
    }

    /// `textDocument/foldingRange`
    fn folding_range(&mut self, params: JsonValue) -> (r: Reply<Self::Future, Self::Error>)
        default_ensures
            *final(self) == *old(self),
            server_left_out(ServerRequest::FoldingRange, r),
    {
        server_leave_out(ServerRequest::FoldingRange)
    }

    /// `textDocument/declaration`
    fn declaration(&mut self, params: JsonValue) -> (r: Reply<Self::Future, Self::Error>)
        default_ensures
            *final(self) == *old(self),
            server_left_out(ServerRequest::Declaration, r),
    {
        server_leave_out(ServerRequest::Declaration)
    }

    /// `textDocument/selectionRange`
    fn selection_range(&mut self, params: JsonValue) -> (r: Reply<Self::Future, Self::Error>)
        default_ensures
            *final(self) == *old(self),
            server_left_out(ServerRequest::SelectionRange, r),
    {
        server_leave_out(ServerRequest::SelectionRange)
    }

    /// `textDocument/prepareCallHierarchy`
    fn prepare_call_hierarchy(&mut self, params: JsonValue) -> (r: Reply<Self::Future, Self::Error>)
        default_ensures
            *final(self) == *old(self),
            server_left_out(ServerRequest::PrepareCallHierarchy, r),
    {
        server_leave_out(ServerRequest::PrepareCallHierarchy)
    }

    /// `callHierarchy/incomingCalls`
    fn incoming_calls(&mut self, params: JsonValue) -> (r: Reply<Self::Future, Self::Error>)
        default_ensures
            *final(self) == *old(self),
            server_left_out(ServerRequest::IncomingCalls, r),
    {
        server_leave_out(ServerRequest::IncomingCalls)
    }

    /// `callHierarchy/outgoingCalls`
    fn outgoing_calls(&mut self, params: JsonValue) -> (r: Reply<Self::Future, Self::Error>)
        default_ensures
            *final(self) == *old(self),
            server_left_out(ServerRequest::OutgoingCalls, r),
    {
        server_leave_out(ServerRequest::OutgoingCalls)
    }

    /// `textDocument/semanticTokens/full`
    fn semantic_tokens_full(&mut self, params: JsonValue) -> (r: Reply<Self::Future, Self::Error>)
        default_ensures
            *final(self) == *old(self),
            server_left_out(ServerRequest::SemanticTokensFull, r),
    {
        server_leave_out(ServerRequest::SemanticTokensFull)
    }

    /// `textDocument/semanticTokens/full/delta`
    fn semantic_tokens_full_delta(
        &mut self,
        params: JsonValue,
    ) -> (r: Reply<Self::Future, Self::Error>)
        default_ensures
            *final(self) == *old(self),
            server_left_out(ServerRequest::SemanticTokensFullDelta, r),
    {
        server_leave_out(ServerRequest::SemanticTokensFullDelta)
    }

    /// `textDocument/semanticTokens/range`
    fn semantic_tokens_range(&mut self, params: JsonValue) -> (r: Reply<Self::Future, Self::Error>)
        default_ensures
            *final(self) == *old(self),
            server_left_out(ServerRequest::SemanticTokensRange, r),
    {
        server_leave_out(ServerRequest::SemanticTokensRange)
    }

    /// `textDocument/linkedEditingRange`
    fn linked_editing_range(&mut self, params: JsonValue) -> (r: Reply<Self::Future, Self::Error>)
        default_ensures
            *final(self) == *old(self),
            server_left_out(ServerRequest::LinkedEditingRange, r),
    {
        server_leave_out(ServerRequest::LinkedEditingRange)
    }

    /// `workspace/willCreateFiles`
    fn will_create_files(&mut self, params: JsonValue) -> (r: Reply<Self::Future, Self::Error>)
        default_ensures
            *final(self) == *old(self),
            server_left_out(ServerRequest::WillCreateFiles, r),
    {
        server_leave_out(ServerRequest::WillCreateFiles)
    }

    /// `workspace/willRenameFiles`
    fn will_rename_files(&mut self, params: JsonValue) -> (r: Reply<Self::Future, Self::Error>)
        default_ensures
            *final(self) == *old(self),
            server_left_out(ServerRequest::WillRenameFiles, r),
    {
        server_leave_out(ServerRequest::WillRenameFiles)
    }

    /// `workspace/willDeleteFiles`
    fn will_delete_files(&mut self, params: JsonValue) -> (r: Reply<Self::Future, Self::Error>)
        default_ensures
            *final(self) == *old(self),
            server_left_out(ServerRequest::WillDeleteFiles, r),
    {
        server_leave_out(ServerRequest::WillDeleteFiles)
    }

    /// `textDocument/moniker`
    fn moniker(&mut self, params: JsonValue) -> (r: Reply<Self::Future, Self::Error>)
        default_ensures
            *final(self) == *old(self),
            server_left_out(ServerRequest::Moniker, r),
    {
        server_leave_out(ServerRequest::Moniker)
    }

    /// `textDocument/prepareTypeHierarchy`
    fn prepare_type_hierarchy(&mut self, params: JsonValue) -> (r: Reply<Self::Future, Self::Error>)
        default_ensures
            *final(self) == *old(self),
            server_left_out(ServerRequest::PrepareTypeHierarchy, r),
    {
        server_leave_out(ServerRequest::PrepareTypeHierarchy)
    }

    /// `typeHierarchy/supertypes`
    fn supertypes(&mut self, params: JsonValue) -> (r: Reply<Self::Future, Self::Error>)
        default_ensures
            *final(self) == *old(self),
            server_left_out(ServerRequest::Supertypes, r),
    {
        server_leave_out(ServerRequest::Supertypes)
    }

    /// `typeHierarchy/subtypes`
    fn subtypes(&mut self, params: JsonValue) -> (r: Reply<Self::Future, Self::Error>)
        default_ensures
            *final(self) == *old(self),
            server_left_out(ServerRequest::Subtypes, r),
    {
        server_leave_out(ServerRequest::Subtypes)
    }

    /// `textDocument/inlineValue`
    fn inline_value(&mut self, params: JsonValue) -> (r: Reply<Self::Future, Self::Error>)
        default_ensures
            *final(self) == *old(self),
            server_left_out(ServerRequest::InlineValue, r),
    {
        server_leave_out(ServerRequest::InlineValue)
    }

    /// `textDocument/inlayHint`
    fn inlay_hint(&mut self, params: JsonValue) -> (r: Reply<Self::Future, Self::Error>)
        default_ensures
            *final(self) == *old(self),
            server_left_out(ServerRequest::InlayHint, r),
    {
        server_leave_out(ServerRequest::InlayHint)
    }

    /// `inlayHint/resolve`
    fn inlay_hint_resolve(&mut self, params: JsonValue) -> (r: Reply<Self::Future, Self::Error>)
        default_ensures
            *final(self) == *old(self),
            server_left_out(ServerRequest::InlayHintResolve, r),
    {
        server_leave_out(ServerRequest::InlayHintResolve)
    }

    /// `textDocument/diagnostic`
    fn document_diagnostic(&mut self, params: JsonValue) -> (r: Reply<Self::Future, Self::Error>)
        default_ensures
            *final(self) == *old(self),
            server_left_out(ServerRequest::DocumentDiagnostic, r),
    {
        server_leave_out(ServerRequest::DocumentDiagnostic)
    }

    /// `workspace/diagnostic`
    fn workspace_diagnostic(&mut self, params: JsonValue) -> (r: Reply<Self::Future, Self::Error>)
        default_ensures
            *final(self) == *old(self),
            server_left_out(ServerRequest::WorkspaceDiagnostic, r),
    {
        server_leave_out(ServerRequest::WorkspaceDiagnostic)
    }

    /// `textDocument/willSaveWaitUntil`
    fn will_save_wait_until(&mut self, params: JsonValue) -> (r: Reply<Self::Future, Self::Error>)
        default_ensures
            *final(self) == *old(self),
            server_left_out(ServerRequest::WillSaveWaitUntil, r),
    {
        server_leave_out(ServerRequest::WillSaveWaitUntil)
    }

    /// `textDocument/completion`
    fn completion(&mut self, params: JsonValue) -> (r: Reply<Self::Future, Self::Error>)
        default_ensures
            *final(self) == *old(self),
            server_left_out(ServerRequest::Completion, r),
    {
        server_leave_out(ServerRequest::Completion)
    }

    /// `completionItem/resolve`
    fn completion_item_resolve(
        &mut self,
        params: JsonValue,
    ) -> (r: Reply<Self::Future, Self::Error>)
        default_ensures
            *final(self) == *old(self),
            server_left_out(ServerRequest::CompletionItemResolve, r),
    {
        server_leave_out(ServerRequest::CompletionItemResolve)
    }

    /// `textDocument/hover`
    fn hover(&mut self, params: JsonValue) -> (r: Reply<Self::Future, Self::Error>)
        default_ensures
            *final(self) == *old(self),
            server_left_out(ServerRequest::Hover, r),
    {
        server_leave_out(ServerRequest::Hover)
    }

    /// `textDocument/signatureHelp`
    fn signature_help(&mut self, params: JsonValue) -> (r: Reply<Self::Future, Self::Error>)
        default_ensures
            *final(self) == *old(self),
            server_left_out(ServerRequest::SignatureHelp, r),
    {
        server_leave_out(ServerRequest::SignatureHelp)
    }

    /// `textDocument/definition`
    fn definition(&mut self, params: JsonValue) -> (r: Reply<Self::Future, Self::Error>)
        default_ensures
            *final(self) == *old(self),
            server_left_out(ServerRequest::Definition, r),
    {
        server_leave_out(ServerRequest::Definition)
    }

    /// `textDocument/references`
    fn references(&mut self, params: JsonValue) -> (r: Reply<Self::Future, Self::Error>)
        default_ensures
            *final(self) == *old(self),
            server_left_out(ServerRequest::References, r),
    {
        server_leave_out(ServerRequest::References)
    }

    /// `textDocument/documentHighlight`
    fn document_highlight(&mut self, params: JsonValue) -> (r: Reply<Self::Future, Self::Error>)
        default_ensures
            *final(self) == *old(self),
            server_left_out(ServerRequest::DocumentHighlight, r),
    {
        server_leave_out(ServerRequest::DocumentHighlight)
    }

    /// `textDocument/documentSymbol`
    fn document_symbol(&mut self, params: JsonValue) -> (r: Reply<Self::Future, Self::Error>)
        default_ensures
            *final(self) == *old(self),
            server_left_out(ServerRequest::DocumentSymbol, r),
    {
        server_leave_out(ServerRequest::DocumentSymbol)
    }

    /// `textDocument/codeAction`
    fn code_action(&mut self, params: JsonValue) -> (r: Reply<Self::Future, Self::Error>)
        default_ensures
            *final(self) == *old(self),
            server_left_out(ServerRequest::CodeAction, r),
    {
        server_leave_out(ServerRequest::CodeAction)
    }

    /// `codeAction/resolve`
    fn code_action_resolve(&mut self, params: JsonValue) -> (r: Reply<Self::Future, Self::Error>)
        default_ensures
            *final(self) == *old(self),
            server_left_out(ServerRequest::CodeActionResolve, r),
    {
        server_leave_out(ServerRequest::CodeActionResolve)
    }

    /// `workspace/symbol`
    fn symbol(&mut self, params: JsonValue) -> (r: Reply<Self::Future, Self::Error>)
        default_ensures
            *final(self) == *old(self),
            server_left_out(ServerRequest::Symbol, r),
    {
        server_leave_out(ServerRequest::Symbol)
    }

    /// `workspaceSymbol/resolve`
    fn workspace_symbol_resolve(
        &mut self,
        params: JsonValue,
    ) -> (r: Reply<Self::Future, Self::Error>)
        default_ensures
            *final(self) == *old(self),
            server_left_out(ServerRequest::WorkspaceSymbolResolve, r),
    {
        server_leave_out(ServerRequest::WorkspaceSymbolResolve)
    }

    /// `textDocument/codeLens`
    fn code_lens(&mut self, params: JsonValue) -> (r: Reply<Self::Future, Self::Error>)
        default_ensures
            *final(self) == *old(self),
            server_left_out(ServerRequest::CodeLens, r),
    {
        server_leave_out(ServerRequest::CodeLens)
    }

    /// `codeLens/resolve`
    fn code_lens_resolve(&mut self, params: JsonValue) -> (r: Reply<Self::Future, Self::Error>)
        default_ensures
            *final(self) == *old(self),
            server_left_out(ServerRequest::CodeLensResolve, r),
    {
        server_leave_out(ServerRequest::CodeLensResolve)
    }

    /// `textDocument/documentLink`
    fn document_link(&mut self, params: JsonValue) -> (r: Reply<Self::Future, Self::Error>)
        default_ensures
            *final(self) == *old(self),
            server_left_out(ServerRequest::DocumentLink, r),
    {
        server_leave_out(ServerRequest::DocumentLink)
    }

    /// `documentLink/resolve`
    fn document_link_resolve(&mut self, params: JsonValue) -> (r: Reply<Self::Future, Self::Error>)
        default_ensures
            *final(self) == *old(self),
            server_left_out(ServerRequest::DocumentLinkResolve, r),
    {
        server_leave_out(ServerRequest::DocumentLinkResolve)
    }

    /// `textDocument/formatting`
    fn formatting(&mut self, params: JsonValue) -> (r: Reply<Self::Future, Self::Error>)
        default_ensures
            *final(self) == *old(self),
            server_left_out(ServerRequest::Formatting, r),
    {
        server_leave_out(ServerRequest::Formatting)
    }

    /// `textDocument/rangeFormatting`
    fn range_formatting(&mut self, params: JsonValue) -> (r: Reply<Self::Future, Self::Error>)
        default_ensures
            *final(self) == *old(self),
            server_left_out(ServerRequest::RangeFormatting, r),
    {
        server_leave_out(ServerRequest::RangeFormatting)
    }

    /// `textDocument/onTypeFormatting`
    fn on_type_formatting(&mut self, params: JsonValue) -> (r: Reply<Self::Future, Self::Error>)
        default_ensures
            *final(self) == *old(self),
            server_left_out(ServerRequest::OnTypeFormatting, r),
    {
        server_leave_out(ServerRequest::OnTypeFormatting)
    }

    /// `textDocument/rename`
    fn rename(&mut self, params: JsonValue) -> (r: Reply<Self::Future, Self::Error>)
        default_ensures
            *final(self) == *old(self),
            server_left_out(ServerRequest::Rename, r),
    {
        server_leave_out(ServerRequest::Rename)
    }

    /// `textDocument/prepareRename`
    fn prepare_rename(&mut self, params: JsonValue) -> (r: Reply<Self::Future, Self::Error>)
        default_ensures
            *final(self) == *old(self),
            server_left_out(ServerRequest::PrepareRename, r),
    {
        server_leave_out(ServerRequest::PrepareRename)
    }

    /// `workspace/executeCommand`
    fn execute_command(&mut self, params: JsonValue) -> (r: Reply<Self::Future, Self::Error>)
        default_ensures
            *final(self) == *old(self),
            server_left_out(ServerRequest::ExecuteCommand, r),
    {
        server_leave_out(ServerRequest::ExecuteCommand)
    }

    /// `initialized`
    fn initialized(&mut self, params: JsonValue) -> (r: Self::NotifyResult)
        default_ensures
            *final(self) == *old(self),
            Self::NotifyResult::falls_back(ServerNotification::Initialized.name(), r),
    {
        Self::NotifyResult::fallback(ServerNotification::Initialized.method())
    }

    /// `exit`
    fn exit(&mut self, params: JsonValue) -> (r: Self::NotifyResult)
        default_ensures
            *final(self) == *old(self),
            Self::NotifyResult::falls_back(ServerNotification::Exit.name(), r),
    {
        Self::NotifyResult::fallback(ServerNotification::Exit.method())
    }

    /// `workspace/didChangeWorkspaceFolders`
    fn did_change_workspace_folders(&mut self, params: JsonValue) -> (r: Self::NotifyResult)
        default_ensures
            *final(self) == *old(self),
            Self::NotifyResult::falls_back(ServerNotification::DidChangeWorkspaceFolders.name(), r),
    {
        Self::NotifyResult::fallback(ServerNotification::DidChangeWorkspaceFolders.method())
    }

    /// `window/workDoneProgress/cancel`
    fn work_done_progress_cancel(&mut self, params: JsonValue) -> (r: Self::NotifyResult)
        default_ensures
            *final(self) == *old(self),
            Self::NotifyResult::falls_back(ServerNotification::WorkDoneProgressCancel.name(), r),
    {
        Self::NotifyResult::fallback(ServerNotification::WorkDoneProgressCancel.method())
    }

    /// `workspace/didCreateFiles`
    fn did_create_files(&mut self, params: JsonValue) -> (r: Self::NotifyResult)
        default_ensures
            *final(self) == *old(self),
            Self::NotifyResult::falls_back(ServerNotification::DidCreateFiles.name(), r),
    {
        Self::NotifyResult::fallback(ServerNotification::DidCreateFiles.method())
    }

    /// `workspace/didRenameFiles`
    fn did_rename_files(&mut self, params: JsonValue) -> (r: Self::NotifyResult)
        default_ensures
            *final(self) == *old(self),
            Self::NotifyResult::falls_back(ServerNotification::DidRenameFiles.name(), r),
    {
        Self::NotifyResult::fallback(ServerNotification::DidRenameFiles.method())
    }

    /// `workspace/didDeleteFiles`
    fn did_delete_files(&mut self, params: JsonValue) -> (r: Self::NotifyResult)
        default_ensures
            *final(self) == *old(self),
            Self::NotifyResult::falls_back(ServerNotification::DidDeleteFiles.name(), r),
    {
        Self::NotifyResult::fallback(ServerNotification::DidDeleteFiles.method())
    }

    /// `workspace/didChangeConfiguration`
    fn did_change_configuration(&mut self, params: JsonValue) -> (r: Self::NotifyResult)
        default_ensures
            *final(self) == *old(self),
            Self::NotifyResult::falls_back(ServerNotification::DidChangeConfiguration.name(), r),
    {
        Self::NotifyResult::fallback(ServerNotification::DidChangeConfiguration.method())
    }

    /// `textDocument/didOpen`
    fn did_open(&mut self, params: JsonValue) -> (r: Self::NotifyResult)
        default_ensures
            *final(self) == *old(self),
            Self::NotifyResult::falls_back(ServerNotification::DidOpen.name(), r),
    {
        Self::NotifyResult::fallback(ServerNotification::DidOpen.method())
    }

    /// `textDocument/didChange`
    fn did_change(&mut self, params: JsonValue) -> (r: Self::NotifyResult)
        default_ensures
            *final(self) == *old(self),
            Self::NotifyResult::falls_back(ServerNotification::DidChange.name(), r),
    {
        Self::NotifyResult::fallback(ServerNotification::DidChange.method())
    }

    /// `textDocument/didClose`
    fn did_close(&mut self, params: JsonValue) -> (r: Self::NotifyResult)
        default_ensures
            *final(self) == *old(self),
            Self::NotifyResult::falls_back(ServerNotification::DidClose.name(), r),
    {
        Self::NotifyResult::fallback(ServerNotification::DidClose.method())
    }

    /// `textDocument/didSave`
    fn did_save(&mut self, params: JsonValue) -> (r: Self::NotifyResult)
        default_ensures
            *final(self) == *old(self),
            Self::NotifyResult::falls_back(ServerNotification::DidSave.name(), r),
    {
        Self::NotifyResult::fallback(ServerNotification::DidSave.method())
    }

    /// `textDocument/willSave`
    fn will_save(&mut self, params: JsonValue) -> (r: Self::NotifyResult)
        default_ensures
            *final(self) == *old(self),
            Self::NotifyResult::falls_back(ServerNotification::WillSave.name(), r),
    {
        Self::NotifyResult::fallback(ServerNotification::WillSave.method())
    }

    /// `workspace/didChangeWatchedFiles`
    fn did_change_watched_files(&mut self, params: JsonValue) -> (r: Self::NotifyResult)
        default_ensures
            *final(self) == *old(self),
            Self::NotifyResult::falls_back(ServerNotification::DidChangeWatchedFiles.name(), r),
    {
        Self::NotifyResult::fallback(ServerNotification::DidChangeWatchedFiles.method())
    }

    /// `$/setTrace`
    fn set_trace(&mut self, params: JsonValue) -> (r: Self::NotifyResult)
        default_ensures
            *final(self) == *old(self),
            Self::NotifyResult::falls_back(ServerNotification::SetTrace.name(), r),
    {
        Self::NotifyResult::fallback(ServerNotification::SetTrace.method())
    }

    /// `$/cancelRequest`
    fn cancel_request(&mut self, params: JsonValue) -> (r: Self::NotifyResult)
        default_ensures
            *final(self) == *old(self),
            Self::NotifyResult::falls_back(ServerNotification::CancelRequest.name(), r),
    {
        Self::NotifyResult::fallback(ServerNotification::CancelRequest.method())
    }

    /// `$/progress`
    fn progress(&mut self, params: JsonValue) -> (r: Self::NotifyResult)
        default_ensures
            *final(self) == *old(self),
            Self::NotifyResult::falls_back(ServerNotification::Progress.name(), r),
    {
        Self::NotifyResult::fallback(ServerNotification::Progress.method())
    }
}

/// A call of the method of the Language Server that is for the request can be answered through `r`.
pub open spec fn server_request_calls<S: LanguageServer>(
    s: &mut S,
    m: ServerRequest,
    params: JsonValue,
    r: Reply<S::Future, S::Error>,
) -> bool {
    match m {
        ServerRequest::Initialize => call_ensures(S::initialize, (s, params), r),
        ServerRequest::Shutdown => call_ensures(S::shutdown, (s, params), r),
        ServerRequest::Implementation => call_ensures(S::implementation, (s, params), r),
        ServerRequest::TypeDefinition => call_ensures(S::type_definition, (s, params), r),
        ServerRequest::DocumentColor => call_ensures(S::document_color, (s, params), r),
        ServerRequest::ColorPresentation => call_ensures(S::color_presentation, (s, params), r),
        ServerRequest::FoldingRange => call_ensures(S::folding_range, (s, params), r),
        ServerRequest::Declaration => call_ensures(S::declaration, (s, params), r),
        ServerRequest::SelectionRange => call_ensures(S::selection_range, (s, params), r),
        ServerRequest::PrepareCallHierarchy => {
            call_ensures(S::prepare_call_hierarchy, (s, params), r)
        },
        ServerRequest::IncomingCalls => call_ensures(S::incoming_calls, (s, params), r),
        ServerRequest::OutgoingCalls => call_ensures(S::outgoing_calls, (s, params), r),
        ServerRequest::SemanticTokensFull => call_ensures(S::semantic_tokens_full, (s, params), r),
        ServerRequest::SemanticTokensFullDelta => {
            call_ensures(S::semantic_tokens_full_delta, (s, params), r)
        },
        ServerRequest::SemanticTokensRange => {
            call_ensures(S::semantic_tokens_range, (s, params), r)
        },
        ServerRequest::LinkedEditingRange => call_ensures(S::linked_editing_range, (s, params), r),
        ServerRequest::WillCreateFiles => call_ensures(S::will_create_files, (s, params), r),
        ServerRequest::WillRenameFiles => call_ensures(S::will_rename_files, (s, params), r),
        ServerRequest::WillDeleteFiles => call_ensures(S::will_delete_files, (s, params), r),
        ServerRequest::Moniker => call_ensures(S::moniker, (s, params), r),
        ServerRequest::PrepareTypeHierarchy => {
            call_ensures(S::prepare_type_hierarchy, (s, params), r)
        },
        ServerRequest::Supertypes => call_ensures(S::supertypes, (s, params), r),
        ServerRequest::Subtypes => call_ensures(S::subtypes, (s, params), r),
        ServerRequest::InlineValue => call_ensures(S::inline_value, (s, params), r),
        ServerRequest::InlayHint => call_ensures(S::inlay_hint, (s, params), r),
        ServerRequest::InlayHintResolve => call_ensures(S::inlay_hint_resolve, (s, params), r),
        ServerRequest::DocumentDiagnostic => call_ensures(S::document_diagnostic, (s, params), r),
        ServerRequest::WorkspaceDiagnostic => call_ensures(S::workspace_diagnostic, (s, params), r),
        ServerRequest::WillSaveWaitUntil => call_ensures(S::will_save_wait_until, (s, params), r),
        ServerRequest::Completion => call_ensures(S::completion, (s, params), r),
        ServerRequest::CompletionItemResolve => {
            call_ensures(S::completion_item_resolve, (s, params), r)
        },
        ServerRequest::Hover => call_ensures(S::hover, (s, params), r),
        ServerRequest::SignatureHelp => call_ensures(S::signature_help, (s, params), r),
        ServerRequest::Definition => call_ensures(S::definition, (s, params), r),
        ServerRequest::References => call_ensures(S::references, (s, params), r),
        ServerRequest::DocumentHighlight => call_ensures(S::document_highlight, (s, params), r),
        ServerRequest::DocumentSymbol => call_ensures(S::document_symbol, (s, params), r),
        ServerRequest::CodeAction => call_ensures(S::code_action, (s, params), r),
        ServerRequest::CodeActionResolve => call_ensures(S::code_action_resolve, (s, params), r),
        ServerRequest::Symbol => call_ensures(S::symbol, (s, params), r),
        ServerRequest::WorkspaceSymbolResolve => {
            call_ensures(S::workspace_symbol_resolve, (s, params), r)
        },
        ServerRequest::CodeLens => call_ensures(S::code_lens, (s, params), r),
        ServerRequest::CodeLensResolve => call_ensures(S::code_lens_resolve, (s, params), r),
        ServerRequest::DocumentLink => call_ensures(S::document_link, (s, params), r),
        ServerRequest::DocumentLinkResolve => {
            call_ensures(S::document_link_resolve, (s, params), r)
        },
        ServerRequest::Formatting => call_ensures(S::formatting, (s, params), r),
        ServerRequest::RangeFormatting => call_ensures(S::range_formatting, (s, params), r),
        ServerRequest::OnTypeFormatting => call_ensures(S::on_type_formatting, (s, params), r),
        ServerRequest::Rename => call_ensures(S::rename, (s, params), r),
        ServerRequest::PrepareRename => call_ensures(S::prepare_rename, (s, params), r),
        ServerRequest::ExecuteCommand => call_ensures(S::execute_command, (s, params), r),
    }
}

/// Each method of the Language Server is the one for its request.
proof fn lemma_server_request_calls<S: LanguageServer>(
    params: JsonValue,
    r: Reply<S::Future, S::Error>,
)
    ensures
        forall|s: &mut S|
            #[trigger] call_ensures(S::initialize, (s, params), r)
                ==> server_request_calls(s, ServerRequest::Initialize, params, r),
        forall|s: &mut S|
            #[trigger] call_ensures(S::shutdown, (s, params), r)
                ==> server_request_calls(s, ServerRequest::Shutdown, params, r),
        forall|s: &mut S|
            #[trigger] call_ensures(S::implementation, (s, params), r)
                ==> server_request_calls(s, ServerRequest::Implementation, params, r),
        forall|s: &mut S|
            #[trigger] call_ensures(S::type_definition, (s, params), r)
                ==> server_request_calls(s, ServerRequest::TypeDefinition, params, r),
        forall|s: &mut S|
            #[trigger] call_ensures(S::document_color, (s, params), r)
                ==> server_request_calls(s, ServerRequest::DocumentColor, params, r),
        forall|s: &mut S|
            #[trigger] call_ensures(S::color_presentation, (s, params), r)
                ==> server_request_calls(s, ServerRequest::ColorPresentation, params, r),
        forall|s: &mut S|
            #[trigger] call_ensures(S::folding_range, (s, params), r)
                ==> server_request_calls(s, ServerRequest::FoldingRange, params, r),
        forall|s: &mut S|
            #[trigger] call_ensures(S::declaration, (s, params), r)
                ==> server_request_calls(s, ServerRequest::Declaration, params, r),
        forall|s: &mut S|
            #[trigger] call_ensures(S::selection_range, (s, params), r)
                ==> server_request_calls(s, ServerRequest::SelectionRange, params, r),
        forall|s: &mut S|
            #[trigger] call_ensures(S::prepare_call_hierarchy, (s, params), r)
                ==> server_request_calls(s, ServerRequest::PrepareCallHierarchy, params, r),
        forall|s: &mut S|
            #[trigger] call_ensures(S::incoming_calls, (s, params), r)
                ==> server_request_calls(s, ServerRequest::IncomingCalls, params, r),
        forall|s: &mut S|
            #[trigger] call_ensures(S::outgoing_calls, (s, params), r)
                ==> server_request_calls(s, ServerRequest::OutgoingCalls, params, r),
        forall|s: &mut S|
            #[trigger] call_ensures(S::semantic_tokens_full, (s, params), r)
                ==> server_request_calls(s, ServerRequest::SemanticTokensFull, params, r),
        forall|s: &mut S|
            #[trigger] call_ensures(S::semantic_tokens_full_delta, (s, params), r)
                ==> server_request_calls(s, ServerRequest::SemanticTokensFullDelta, params, r),
        forall|s: &mut S|
            #[trigger] call_ensures(S::semantic_tokens_range, (s, params), r)
                ==> server_request_calls(s, ServerRequest::SemanticTokensRange, params, r),
        forall|s: &mut S|
            #[trigger] call_ensures(S::linked_editing_range, (s, params), r)
                ==> server_request_calls(s, ServerRequest::LinkedEditingRange, params, r),
        forall|s: &mut S|
            #[trigger] call_ensures(S::will_create_files, (s, params), r)
                ==> server_request_calls(s, ServerRequest::WillCreateFiles, params, r),
        forall|s: &mut S|
            #[trigger] call_ensures(S::will_rename_files, (s, params), r)
                ==> server_request_calls(s, ServerRequest::WillRenameFiles, params, r),
        forall|s: &mut S|
            #[trigger] call_ensures(S::will_delete_files, (s, params), r)
                ==> server_request_calls(s, ServerRequest::WillDeleteFiles, params, r),
        forall|s: &mut S|
            #[trigger] call_ensures(S::moniker, (s, params), r)
                ==> server_request_calls(s, ServerRequest::Moniker, params, r),
        forall|s: &mut S|
            #[trigger] call_ensures(S::prepare_type_hierarchy, (s, params), r)
                ==> server_request_calls(s, ServerRequest::PrepareTypeHierarchy, params, r),
        forall|s: &mut S|
            #[trigger] call_ensures(S::supertypes, (s, params), r)
                ==> server_request_calls(s, ServerRequest::Supertypes, params, r),
        forall|s: &mut S|
            #[trigger] call_ensures(S::subtypes, (s, params), r)
                ==> server_request_calls(s, ServerRequest::Subtypes, params, r),
        forall|s: &mut S|
            #[trigger] call_ensures(S::inline_value, (s, params), r)
                ==> server_request_calls(s, ServerRequest::InlineValue, params, r),
        forall|s: &mut S|
            #[trigger] call_ensures(S::inlay_hint, (s, params), r)
                ==> server_request_calls(s, ServerRequest::InlayHint, params, r),
        forall|s: &mut S|
            #[trigger] call_ensures(S::inlay_hint_resolve, (s, params), r)
                ==> server_request_calls(s, ServerRequest::InlayHintResolve, params, r),
        forall|s: &mut S|
            #[trigger] call_ensures(S::document_diagnostic, (s, params), r)
                ==> server_request_calls(s, ServerRequest::DocumentDiagnostic, params, r),
        forall|s: &mut S|
            #[trigger] call_ensures(S::workspace_diagnostic, (s, params), r)
                ==> server_request_calls(s, ServerRequest::WorkspaceDiagnostic, params, r),
        forall|s: &mut S|
            #[trigger] call_ensures(S::will_save_wait_until, (s, params), r)
                ==> server_request_calls(s, ServerRequest::WillSaveWaitUntil, params, r),
        forall|s: &mut S|
            #[trigger] call_ensures(S::completion, (s, params), r)
                ==> server_request_calls(s, ServerRequest::Completion, params, r),
        forall|s: &mut S|
            #[trigger] call_ensures(S::completion_item_resolve, (s, params), r)
                ==> server_request_calls(s, ServerRequest::CompletionItemResolve, params, r),
        forall|s: &mut S|
            #[trigger] call_ensures(S::hover, (s, params), r)
                ==> server_request_calls(s, ServerRequest::Hover, params, r),
        forall|s: &mut S|
            #[trigger] call_ensures(S::signature_help, (s, params), r)
                ==> server_request_calls(s, ServerRequest::SignatureHelp, params, r),
        forall|s: &mut S|
            #[trigger] call_ensures(S::definition, (s, params), r)
                ==> server_request_calls(s, ServerRequest::Definition, params, r),
        forall|s: &mut S|
            #[trigger] call_ensures(S::references, (s, params), r)
                ==> server_request_calls(s, ServerRequest::References, params, r),
        forall|s: &mut S|
            #[trigger] call_ensures(S::document_highlight, (s, params), r)
                ==> server_request_calls(s, ServerRequest::DocumentHighlight, params, r),
        forall|s: &mut S|
            #[trigger] call_ensures(S::document_symbol, (s, params), r)
                ==> server_request_calls(s, ServerRequest::DocumentSymbol, params, r),
        forall|s: &mut S|
            #[trigger] call_ensures(S::code_action, (s, params), r)
                ==> server_request_calls(s, ServerRequest::CodeAction, params, r),
        forall|s: &mut S|
            #[trigger] call_ensures(S::code_action_resolve, (s, params), r)
                ==> server_request_calls(s, ServerRequest::CodeActionResolve, params, r),
        forall|s: &mut S|
            #[trigger] call_ensures(S::symbol, (s, params), r)
                ==> server_request_calls(s, ServerRequest::Symbol, params, r),
        forall|s: &mut S|
            #[trigger] call_ensures(S::workspace_symbol_resolve, (s, params), r)
                ==> server_request_calls(s, ServerRequest::WorkspaceSymbolResolve, params, r),
        forall|s: &mut S|
            #[trigger] call_ensures(S::code_lens, (s, params), r)
                ==> server_request_calls(s, ServerRequest::CodeLens, params, r),
        forall|s: &mut S|
            #[trigger] call_ensures(S::code_lens_resolve, (s, params), r)
                ==> server_request_calls(s, ServerRequest::CodeLensResolve, params, r),
        forall|s: &mut S|
            #[trigger] call_ensures(S::document_link, (s, params), r)
                ==> server_request_calls(s, ServerRequest::DocumentLink, params, r),
        forall|s: &mut S|
            #[trigger] call_ensures(S::document_link_resolve, (s, params), r)
                ==> server_request_calls(s, ServerRequest::DocumentLinkResolve, params, r),
        forall|s: &mut S|
            #[trigger] call_ensures(S::formatting, (s, params), r)
                ==> server_request_calls(s, ServerRequest::Formatting, params, r),
        forall|s: &mut S|
            #[trigger] call_ensures(S::range_formatting, (s, params), r)
                ==> server_request_calls(s, ServerRequest::RangeFormatting, params, r),
        forall|s: &mut S|
            #[trigger] call_ensures(S::on_type_formatting, (s, params), r)
                ==> server_request_calls(s, ServerRequest::OnTypeFormatting, params, r),
        forall|s: &mut S|
            #[trigger] call_ensures(S::rename, (s, params), r)
                ==> server_request_calls(s, ServerRequest::Rename, params, r),
        forall|s: &mut S|
            #[trigger] call_ensures(S::prepare_rename, (s, params), r)
                ==> server_request_calls(s, ServerRequest::PrepareRename, params, r),
        forall|s: &mut S|
            #[trigger] call_ensures(S::execute_command, (s, params), r)
                ==> server_request_calls(s, ServerRequest::ExecuteCommand, params, r),
{
}

/// Hands a standard request to the method of the Language Server that is for it: the method is
/// called on the state with the parameters, what it returns is returned, and nothing else changes
/// the state.
pub fn serve_server_request<S: LanguageServer>(
    state: &mut S,
    m: ServerRequest,
    params: JsonValue,
) -> (r: Reply<S::Future, S::Error>)
    ensures
        exists|s: &mut S|
            *s == *old(state) && *final(s) == *final(state) && #[trigger] server_request_calls(
                s,
                m,
                params,
                r,
            ),
{
    let r = match m {
        ServerRequest::Initialize => state.initialize(params),
        ServerRequest::Shutdown => state.shutdown(params),
        ServerRequest::Implementation => state.implementation(params),
        ServerRequest::TypeDefinition => state.type_definition(params),
        ServerRequest::DocumentColor => state.document_color(params),
        ServerRequest::ColorPresentation => state.color_presentation(params),
        ServerRequest::FoldingRange => state.folding_range(params),
        ServerRequest::Declaration => state.declaration(params),
        ServerRequest::SelectionRange => state.selection_range(params),
        ServerRequest::PrepareCallHierarchy => state.prepare_call_hierarchy(params),
        ServerRequest::IncomingCalls => state.incoming_calls(params),
        ServerRequest::OutgoingCalls => state.outgoing_calls(params),
        ServerRequest::SemanticTokensFull => state.semantic_tokens_full(params),
        ServerRequest::SemanticTokensFullDelta => state.semantic_tokens_full_delta(params),
        ServerRequest::SemanticTokensRange => state.semantic_tokens_range(params),
        ServerRequest::LinkedEditingRange => state.linked_editing_range(params),
        ServerRequest::WillCreateFiles => state.will_create_files(params),
        ServerRequest::WillRenameFiles => state.will_rename_files(params),
        ServerRequest::WillDeleteFiles => state.will_delete_files(params),
        ServerRequest::Moniker => state.moniker(params),
        ServerRequest::PrepareTypeHierarchy => state.prepare_type_hierarchy(params),
        ServerRequest::Supertypes => state.supertypes(params),
        ServerRequest::Subtypes => state.subtypes(params),
        ServerRequest::InlineValue => state.inline_value(params),
        ServerRequest::InlayHint => state.inlay_hint(params),
        ServerRequest::InlayHintResolve => state.inlay_hint_resolve(params),
        ServerRequest::DocumentDiagnostic => state.document_diagnostic(params),
        ServerRequest::WorkspaceDiagnostic => state.workspace_diagnostic(params),
        ServerRequest::WillSaveWaitUntil => state.will_save_wait_until(params),
        ServerRequest::Completion => state.completion(params),
        ServerRequest::CompletionItemResolve => state.completion_item_resolve(params),
        ServerRequest::Hover => state.hover(params),
        ServerRequest::SignatureHelp => state.signature_help(params),
        ServerRequest::Definition => state.definition(params),
        ServerRequest::References => state.references(params),
        ServerRequest::DocumentHighlight => state.document_highlight(params),
        ServerRequest::DocumentSymbol => state.document_symbol(params),
        ServerRequest::CodeAction => state.code_action(params),
        ServerRequest::CodeActionResolve => state.code_action_resolve(params),
        ServerRequest::Symbol => state.symbol(params),
        ServerRequest::WorkspaceSymbolResolve => state.workspace_symbol_resolve(params),
        ServerRequest::CodeLens => state.code_lens(params),
        ServerRequest::CodeLensResolve => state.code_lens_resolve(params),
        ServerRequest::DocumentLink => state.document_link(params),
        ServerRequest::DocumentLinkResolve => state.document_link_resolve(params),
        ServerRequest::Formatting => state.formatting(params),
        ServerRequest::RangeFormatting => state.range_formatting(params),
        ServerRequest::OnTypeFormatting => state.on_type_formatting(params),
        ServerRequest::Rename => state.rename(params),
        ServerRequest::PrepareRename => state.prepare_rename(params),
        ServerRequest::ExecuteCommand => state.execute_command(params),
    };
    proof {
        lemma_server_request_calls::<S>(params, r);
    }
    r
}

/// The handler of a standard request that hands its parameters to the method of the Language
/// Server that is for it.
pub fn server_request_handler<S: LanguageServer>(
    m: ServerRequest,
) -> (h: impl Fn(&mut S, AnyRequest) -> Reply<S::Future, S::Error>)
    ensures
        forall|s: &mut S, req: AnyRequest| #[trigger] call_requires(h, (s, req)),
        forall|s: &mut S, req: AnyRequest, r: Reply<S::Future, S::Error>| #[trigger]
            call_ensures(h, (s, req), r) ==> exists|t: &mut S|
                *t == *s && *final(t) == *final(s) && #[trigger] server_request_calls(
                    t,
                    m,
                    req.params,
                    r,
                ),
{
    move |state: &mut S, req: AnyRequest| -> (r: Reply<S::Future, S::Error>)
        ensures
            exists|t: &mut S|
                *t == *old(state) && *final(t) == *final(state)
                    && #[trigger] server_request_calls(t, m, req.params, r),
        { serve_server_request(state, m, req.params) }
}

/// A call of the method of the Language Server that is for the notification can result in `r`.
pub open spec fn server_notification_calls<S: LanguageServer>(
    s: &mut S,
    m: ServerNotification,
    params: JsonValue,
    r: S::NotifyResult,
) -> bool {
    match m {
        ServerNotification::Initialized => call_ensures(S::initialized, (s, params), r),
        ServerNotification::Exit => call_ensures(S::exit, (s, params), r),
        ServerNotification::DidChangeWorkspaceFolders => {
            call_ensures(S::did_change_workspace_folders, (s, params), r)
        },
        ServerNotification::WorkDoneProgressCancel => {
            call_ensures(S::work_done_progress_cancel, (s, params), r)
        },
        ServerNotification::DidCreateFiles => call_ensures(S::did_create_files, (s, params), r),
        ServerNotification::DidRenameFiles => call_ensures(S::did_rename_files, (s, params), r),
        ServerNotification::DidDeleteFiles => call_ensures(S::did_delete_files, (s, params), r),
        ServerNotification::DidChangeConfiguration => {
            call_ensures(S::did_change_configuration, (s, params), r)
        },
        ServerNotification::DidOpen => call_ensures(S::did_open, (s, params), r),
        ServerNotification::DidChange => call_ensures(S::did_change, (s, params), r),
        ServerNotification::DidClose => call_ensures(S::did_close, (s, params), r),
        ServerNotification::DidSave => call_ensures(S::did_save, (s, params), r),
        ServerNotification::WillSave => call_ensures(S::will_save, (s, params), r),
        ServerNotification::DidChangeWatchedFiles => {
            call_ensures(S::did_change_watched_files, (s, params), r)
        },
        ServerNotification::SetTrace => call_ensures(S::set_trace, (s, params), r),
        ServerNotification::CancelRequest => call_ensures(S::cancel_request, (s, params), r),
        ServerNotification::Progress => call_ensures(S::progress, (s, params), r),
    }
}

/// Each method of the Language Server is the one for its notification.
proof fn lemma_server_notification_calls<S: LanguageServer>(
    params: JsonValue,
    r: S::NotifyResult,
)
    ensures
        forall|s: &mut S|
            #[trigger] call_ensures(S::initialized, (s, params), r)
                ==> server_notification_calls(s, ServerNotification::Initialized, params, r),
        forall|s: &mut S|
            #[trigger] call_ensures(S::exit, (s, params), r)
                ==> server_notification_calls(s, ServerNotification::Exit, params, r),
        forall|s: &mut S|
            #[trigger] call_ensures(S::did_change_workspace_folders, (s, params), r)
                ==> server_notification_calls(
                    s,
                    ServerNotification::DidChangeWorkspaceFolders,
                    params,
                    r,
                ),
        forall|s: &mut S|
            #[trigger] call_ensures(S::work_done_progress_cancel, (s, params), r)
                ==> server_notification_calls(
                    s,
                    ServerNotification::WorkDoneProgressCancel,
                    params,
                    r,
                ),
        forall|s: &mut S|
            #[trigger] call_ensures(S::did_create_files, (s, params), r)
                ==> server_notification_calls(s, ServerNotification::DidCreateFiles, params, r),
        forall|s: &mut S|
            #[trigger] call_ensures(S::did_rename_files, (s, params), r)
                ==> server_notification_calls(s, ServerNotification::DidRenameFiles, params, r),
        forall|s: &mut S|
            #[trigger] call_ensures(S::did_delete_files, (s, params), r)
                ==> server_notification_calls(s, ServerNotification::DidDeleteFiles, params, r),
        forall|s: &mut S|
            #[trigger] call_ensures(S::did_change_configuration, (s, params), r)
                ==> server_notification_calls(
                    s,
                    ServerNotification::DidChangeConfiguration,
                    params,
                    r,
                ),
        forall|s: &mut S|
            #[trigger] call_ensures(S::did_open, (s, params), r)
                ==> server_notification_calls(s, ServerNotification::DidOpen, params, r),
        forall|s: &mut S|
            #[trigger] call_ensures(S::did_change, (s, params), r)
                ==> server_notification_calls(s, ServerNotification::DidChange, params, r),
        forall|s: &mut S|
            #[trigger] call_ensures(S::did_close, (s, params), r)
                ==> server_notification_calls(s, ServerNotification::DidClose, params, r),
        forall|s: &mut S|
            #[trigger] call_ensures(S::did_save, (s, params), r)
                ==> server_notification_calls(s, ServerNotification::DidSave, params, r),
        forall|s: &mut S|
            #[trigger] call_ensures(S::will_save, (s, params), r)
                ==> server_notification_calls(s, ServerNotification::WillSave, params, r),
        forall|s: &mut S|
            #[trigger] call_ensures(S::did_change_watched_files, (s, params), r)
                ==> server_notification_calls(
                    s,
                    ServerNotification::DidChangeWatchedFiles,
                    params,
                    r,
                ),
        forall|s: &mut S|
            #[trigger] call_ensures(S::set_trace, (s, params), r)
                ==> server_notification_calls(s, ServerNotification::SetTrace, params, r),
        forall|s: &mut S|
            #[trigger] call_ensures(S::cancel_request, (s, params), r)
                ==> server_notification_calls(s, ServerNotification::CancelRequest, params, r),
        forall|s: &mut S|
            #[trigger] call_ensures(S::progress, (s, params), r)
                ==> server_notification_calls(s, ServerNotification::Progress, params, r),
{
}

/// Hands a standard notification to the method of the Language Server that is for it: the method is
/// called on the state with the parameters, what it returns is returned, and nothing else changes
/// the state.
pub fn serve_server_notification<S: LanguageServer>(
    state: &mut S,
    m: ServerNotification,
    params: JsonValue,
) -> (r: S::NotifyResult)
    ensures
        exists|s: &mut S|
            *s == *old(state) && *final(s) == *final(state) && #[trigger] server_notification_calls(
                s,
                m,
                params,
                r,
            ),
{
    let r = match m {
        ServerNotification::Initialized => state.initialized(params),
        ServerNotification::Exit => state.exit(params),
        ServerNotification::DidChangeWorkspaceFolders => state.did_change_workspace_folders(params),
        ServerNotification::WorkDoneProgressCancel => state.work_done_progress_cancel(params),
        ServerNotification::DidCreateFiles => state.did_create_files(params),
        ServerNotification::DidRenameFiles => state.did_rename_files(params),
        ServerNotification::DidDeleteFiles => state.did_delete_files(params),
        ServerNotification::DidChangeConfiguration => state.did_change_configuration(params),
        ServerNotification::DidOpen => state.did_open(params),
        ServerNotification::DidChange => state.did_change(params),
        ServerNotification::DidClose => state.did_close(params),
        ServerNotification::DidSave => state.did_save(params),
        ServerNotification::WillSave => state.will_save(params),
        ServerNotification::DidChangeWatchedFiles => state.did_change_watched_files(params),
        ServerNotification::SetTrace => state.set_trace(params),
        ServerNotification::CancelRequest => state.cancel_request(params),
        ServerNotification::Progress => state.progress(params),
    };
    proof {
        lemma_server_notification_calls::<S>(params, r);
    }
    r
}

/// The handler of a standard notification that hands its parameters to the method of the Language
/// Server that is for it.
pub fn server_notification_handler<S: LanguageServer<NotifyResult = Flow>>(
    m: ServerNotification,
) -> (h: impl Fn(&mut S, AnyNotification) -> Flow)
    ensures
        forall|s: &mut S, notif: AnyNotification| #[trigger] call_requires(h, (s, notif)),
        forall|s: &mut S, notif: AnyNotification, r: Flow| #[trigger]
            call_ensures(h, (s, notif), r) ==> exists|t: &mut S|
                *t == *s && *final(t) == *final(s) && #[trigger] server_notification_calls(
                    t,
                    m,
                    notif.params,
                    r,
                ),
{
    move |state: &mut S, notif: AnyNotification| -> (r: Flow)
        ensures
            exists|t: &mut S|
                *t == *old(state) && *final(t) == *final(state)
                    && #[trigger] server_notification_calls(t, m, notif.params, r),
        { serve_server_notification(state, m, notif.params) }
}

/// A Language Server on the other side of a socket: what it is given is sent to it.
impl<P> LanguageServer for ServerSocket<P> {
    type Error = Error;

    type Future = PeerSocketRequestFuture;

    type NotifyResult = Result<(), Error>;

    fn initialize(&mut self, params: JsonValue) -> (r: Reply<PeerSocketRequestFuture, Error>)
        ensures
            *final(self) == *old(self),
            request_sent(old(self).peer(), ServerRequest::Initialize.name(), params, r),
    {
        Reply::Future(self.request(ServerRequest::Initialize.method(), params))
    }

    fn shutdown(&mut self, params: JsonValue) -> (r: Reply<PeerSocketRequestFuture, Error>)
        ensures
            *final(self) == *old(self),
            request_sent(old(self).peer(), ServerRequest::Shutdown.name(), params, r),
    {
        Reply::Future(self.request(ServerRequest::Shutdown.method(), params))
    }

    fn implementation(&mut self, params: JsonValue) -> (r: Reply<PeerSocketRequestFuture, Error>)
        ensures
            *final(self) == *old(self),
            request_sent(old(self).peer(), ServerRequest::Implementation.name(), params, r),
    {
        Reply::Future(self.request(ServerRequest::Implementation.method(), params))
    }

    fn type_definition(&mut self, params: JsonValue) -> (r: Reply<PeerSocketRequestFuture, Error>)
        ensures
            *final(self) == *old(self),
            request_sent(old(self).peer(), ServerRequest::TypeDefinition.name(), params, r),
    {
        Reply::Future(self.request(ServerRequest::TypeDefinition.method(), params))
    }

    fn document_color(&mut self, params: JsonValue) -> (r: Reply<PeerSocketRequestFuture, Error>)
        ensures
            *final(self) == *old(self),
            request_sent(old(self).peer(), ServerRequest::DocumentColor.name(), params, r),
    {
        Reply::Future(self.request(ServerRequest::DocumentColor.method(), params))
    }

    fn color_presentation(
        &mut self,
        params: JsonValue,
    ) -> (r: Reply<PeerSocketRequestFuture, Error>)
        ensures
            *final(self) == *old(self),
            request_sent(old(self).peer(), ServerRequest::ColorPresentation.name(), params, r),
    {
        Reply::Future(self.request(ServerRequest::ColorPresentation.method(), params))
    }

    fn folding_range(&mut self, params: JsonValue) -> (r: Reply<PeerSocketRequestFuture, Error>)
        ensures
            *final(self) == *old(self),
            request_sent(old(self).peer(), ServerRequest::FoldingRange.name(), params, r),
    {
        Reply::Future(self.request(ServerRequest::FoldingRange.method(), params))
    }

    fn declaration(&mut self, params: JsonValue) -> (r: Reply<PeerSocketRequestFuture, Error>)
        ensures
            *final(self) == *old(self),
            request_sent(old(self).peer(), ServerRequest::Declaration.name(), params, r),
    {
        Reply::Future(self.request(ServerRequest::Declaration.method(), params))
    }

    fn selection_range(&mut self, params: JsonValue) -> (r: Reply<PeerSocketRequestFuture, Error>)
        ensures
            *final(self) == *old(self),
            request_sent(old(self).peer(), ServerRequest::SelectionRange.name(), params, r),
    {
        Reply::Future(self.request(ServerRequest::SelectionRange.method(), params))
    }

    fn prepare_call_hierarchy(
        &mut self,
        params: JsonValue,
    ) -> (r: Reply<PeerSocketRequestFuture, Error>)
        ensures
            *final(self) == *old(self),
            request_sent(old(self).peer(), ServerRequest::PrepareCallHierarchy.name(), params, r),
    {
        Reply::Future(self.request(ServerRequest::PrepareCallHierarchy.method(), params))
    }

    fn incoming_calls(&mut self, params: JsonValue) -> (r: Reply<PeerSocketRequestFuture, Error>)
        ensures
            *final(self) == *old(self),
            request_sent(old(self).peer(), ServerRequest::IncomingCalls.name(), params, r),
    {
        Reply::Future(self.request(ServerRequest::IncomingCalls.method(), params))
    }

    fn outgoing_calls(&mut self, params: JsonValue) -> (r: Reply<PeerSocketRequestFuture, Error>)
        ensures
            *final(self) == *old(self),
            request_sent(old(self).peer(), ServerRequest::OutgoingCalls.name(), params, r),
    {
        Reply::Future(self.request(ServerRequest::OutgoingCalls.method(), params))
    }

    fn semantic_tokens_full(
        &mut self,
        params: JsonValue,
    ) -> (r: Reply<PeerSocketRequestFuture, Error>)
        ensures
            *final(self) == *old(self),
            request_sent(old(self).peer(), ServerRequest::SemanticTokensFull.name(), params, r),
    {
        Reply::Future(self.request(ServerRequest::SemanticTokensFull.method(), params))
    }

    fn semantic_tokens_full_delta(
        &mut self,
        params: JsonValue,
    ) -> (r: Reply<PeerSocketRequestFuture, Error>)
        ensures
            *final(self) == *old(self),
            request_sent(
                old(self).peer(),
                ServerRequest::SemanticTokensFullDelta.name(),
                params,
                r,
            ),
    {
        Reply::Future(self.request(ServerRequest::SemanticTokensFullDelta.method(), params))
    }

    fn semantic_tokens_range(
        &mut self,
        params: JsonValue,
    ) -> (r: Reply<PeerSocketRequestFuture, Error>)
        ensures
            *final(self) == *old(self),
            request_sent(old(self).peer(), ServerRequest::SemanticTokensRange.name(), params, r),
    {
        Reply::Future(self.request(ServerRequest::SemanticTokensRange.method(), params))
    }

    fn linked_editing_range(
        &mut self,
        params: JsonValue,
    ) -> (r: Reply<PeerSocketRequestFuture, Error>)
        ensures
            *final(self) == *old(self),
            request_sent(old(self).peer(), ServerRequest::LinkedEditingRange.name(), params, r),
    {
        Reply::Future(self.request(ServerRequest::LinkedEditingRange.method(), params))
    }

    fn will_create_files(&mut self, params: JsonValue) -> (r: Reply<PeerSocketRequestFuture, Error>)
        ensures
            *final(self) == *old(self),
            request_sent(old(self).peer(), ServerRequest::WillCreateFiles.name(), params, r),
    {
        Reply::Future(self.request(ServerRequest::WillCreateFiles.method(), params))
    }

    fn will_rename_files(&mut self, params: JsonValue) -> (r: Reply<PeerSocketRequestFuture, Error>)
        ensures
            *final(self) == *old(self),
            request_sent(old(self).peer(), ServerRequest::WillRenameFiles.name(), params, r),
    {
        Reply::Future(self.request(ServerRequest::WillRenameFiles.method(), params))
    }

    fn will_delete_files(&mut self, params: JsonValue) -> (r: Reply<PeerSocketRequestFuture, Error>)
        ensures
            *final(self) == *old(self),
            request_sent(old(self).peer(), ServerRequest::WillDeleteFiles.name(), params, r),
    {
        Reply::Future(self.request(ServerRequest::WillDeleteFiles.method(), params))
    }

    fn moniker(&mut self, params: JsonValue) -> (r: Reply<PeerSocketRequestFuture, Error>)
        ensures
            *final(self) == *old(self),
            request_sent(old(self).peer(), ServerRequest::Moniker.name(), params, r),
    {
        Reply::Future(self.request(ServerRequest::Moniker.method(), params))
    }

    fn prepare_type_hierarchy(
        &mut self,
        params: JsonValue,
    ) -> (r: Reply<PeerSocketRequestFuture, Error>)
        ensures
            *final(self) == *old(self),
            request_sent(old(self).peer(), ServerRequest::PrepareTypeHierarchy.name(), params, r),
    {
        Reply::Future(self.request(ServerRequest::PrepareTypeHierarchy.method(), params))
    }

    fn supertypes(&mut self, params: JsonValue) -> (r: Reply<PeerSocketRequestFuture, Error>)
        ensures
            *final(self) == *old(self),
            request_sent(old(self).peer(), ServerRequest::Supertypes.name(), params, r),
    {
        Reply::Future(self.request(ServerRequest::Supertypes.method(), params))
    }

    fn subtypes(&mut self, params: JsonValue) -> (r: Reply<PeerSocketRequestFuture, Error>)
        ensures
            *final(self) == *old(self),
            request_sent(old(self).peer(), ServerRequest::Subtypes.name(), params, r),
    {
        Reply::Future(self.request(ServerRequest::Subtypes.method(), params))
    }

    fn inline_value(&mut self, params: JsonValue) -> (r: Reply<PeerSocketRequestFuture, Error>)
        ensures
            *final(self) == *old(self),
            request_sent(old(self).peer(), ServerRequest::InlineValue.name(), params, r),
    {
        Reply::Future(self.request(ServerRequest::InlineValue.method(), params))
    }

    fn inlay_hint(&mut self, params: JsonValue) -> (r: Reply<PeerSocketRequestFuture, Error>)
        ensures
            *final(self) == *old(self),
            request_sent(old(self).peer(), ServerRequest::InlayHint.name(), params, r),
    {
        Reply::Future(self.request(ServerRequest::InlayHint.method(), params))
    }

    fn inlay_hint_resolve(
        &mut self,
        params: JsonValue,
    ) -> (r: Reply<PeerSocketRequestFuture, Error>)
        ensures
            *final(self) == *old(self),
            request_sent(old(self).peer(), ServerRequest::InlayHintResolve.name(), params, r),
    {
        Reply::Future(self.request(ServerRequest::InlayHintResolve.method(), params))
    }

    fn document_diagnostic(
        &mut self,
        params: JsonValue,
    ) -> (r: Reply<PeerSocketRequestFuture, Error>)
        ensures
            *final(self) == *old(self),
            request_sent(old(self).peer(), ServerRequest::DocumentDiagnostic.name(), params, r),
    {
        Reply::Future(self.request(ServerRequest::DocumentDiagnostic.method(), params))
    }

    fn workspace_diagnostic(
        &mut self,
        params: JsonValue,
    ) -> (r: Reply<PeerSocketRequestFuture, Error>)
        ensures
            *final(self) == *old(self),
            request_sent(old(self).peer(), ServerRequest::WorkspaceDiagnostic.name(), params, r),
    {
        Reply::Future(self.request(ServerRequest::WorkspaceDiagnostic.method(), params))
    }

    fn will_save_wait_until(
        &mut self,
        params: JsonValue,
    ) -> (r: Reply<PeerSocketRequestFuture, Error>)
        ensures
            *final(self) == *old(self),
            request_sent(old(self).peer(), ServerRequest::WillSaveWaitUntil.name(), params, r),
    {
        Reply::Future(self.request(ServerRequest::WillSaveWaitUntil.method(), params))
    }

    fn completion(&mut self, params: JsonValue) -> (r: Reply<PeerSocketRequestFuture, Error>)
        ensures
            *final(self) == *old(self),
            request_sent(old(self).peer(), ServerRequest::Completion.name(), params, r),
    {
        Reply::Future(self.request(ServerRequest::Completion.method(), params))
    }

    fn completion_item_resolve(
        &mut self,
        params: JsonValue,
    ) -> (r: Reply<PeerSocketRequestFuture, Error>)
        ensures
            *final(self) == *old(self),
            request_sent(old(self).peer(), ServerRequest::CompletionItemResolve.name(), params, r),
    {
        Reply::Future(self.request(ServerRequest::CompletionItemResolve.method(), params))
    }

    fn hover(&mut self, params: JsonValue) -> (r: Reply<PeerSocketRequestFuture, Error>)
        ensures
            *final(self) == *old(self),
            request_sent(old(self).peer(), ServerRequest::Hover.name(), params, r),
    {
        Reply::Future(self.request(ServerRequest::Hover.method(), params))
    }

    fn signature_help(&mut self, params: JsonValue) -> (r: Reply<PeerSocketRequestFuture, Error>)
        ensures
            *final(self) == *old(self),
            request_sent(old(self).peer(), ServerRequest::SignatureHelp.name(), params, r),
    {
        Reply::Future(self.request(ServerRequest::SignatureHelp.method(), params))
    }

    fn definition(&mut self, params: JsonValue) -> (r: Reply<PeerSocketRequestFuture, Error>)
        ensures
            *final(self) == *old(self),
            request_sent(old(self).peer(), ServerRequest::Definition.name(), params, r),
    {
        Reply::Future(self.request(ServerRequest::Definition.method(), params))
    }

    fn references(&mut self, params: JsonValue) -> (r: Reply<PeerSocketRequestFuture, Error>)
        ensures
            *final(self) == *old(self),
            request_sent(old(self).peer(), ServerRequest::References.name(), params, r),
    {
        Reply::Future(self.request(ServerRequest::References.method(), params))
    }

    fn document_highlight(
        &mut self,
        params: JsonValue,
    ) -> (r: Reply<PeerSocketRequestFuture, Error>)
        ensures
            *final(self) == *old(self),
            request_sent(old(self).peer(), ServerRequest::DocumentHighlight.name(), params, r),
    {
        Reply::Future(self.request(ServerRequest::DocumentHighlight.method(), params))
    }

    fn document_symbol(&mut self, params: JsonValue) -> (r: Reply<PeerSocketRequestFuture, Error>)
        ensures
            *final(self) == *old(self),
            request_sent(old(self).peer(), ServerRequest::DocumentSymbol.name(), params, r),
    {
        Reply::Future(self.request(ServerRequest::DocumentSymbol.method(), params))
    }

    fn code_action(&mut self, params: JsonValue) -> (r: Reply<PeerSocketRequestFuture, Error>)
        ensures
            *final(self) == *old(self),
            request_sent(old(self).peer(), ServerRequest::CodeAction.name(), params, r),
    {
        Reply::Future(self.request(ServerRequest::CodeAction.method(), params))
    }

    fn code_action_resolve(
        &mut self,
        params: JsonValue,
    ) -> (r: Reply<PeerSocketRequestFuture, Error>)
        ensures
            *final(self) == *old(self),
            request_sent(old(self).peer(), ServerRequest::CodeActionResolve.name(), params, r),
    {
        Reply::Future(self.request(ServerRequest::CodeActionResolve.method(), params))
    }

    fn symbol(&mut self, params: JsonValue) -> (r: Reply<PeerSocketRequestFuture, Error>)
        ensures
            *final(self) == *old(self),
            request_sent(old(self).peer(), ServerRequest::Symbol.name(), params, r),
    {
        Reply::Future(self.request(ServerRequest::Symbol.method(), params))
    }

    fn workspace_symbol_resolve(
        &mut self,
        params: JsonValue,
    ) -> (r: Reply<PeerSocketRequestFuture, Error>)
        ensures
            *final(self) == *old(self),
            request_sent(old(self).peer(), ServerRequest::WorkspaceSymbolResolve.name(), params, r),
    {
        Reply::Future(self.request(ServerRequest::WorkspaceSymbolResolve.method(), params))
    }

    fn code_lens(&mut self, params: JsonValue) -> (r: Reply<PeerSocketRequestFuture, Error>)
        ensures
            *final(self) == *old(self),
            request_sent(old(self).peer(), ServerRequest::CodeLens.name(), params, r),
    {
        Reply::Future(self.request(ServerRequest::CodeLens.method(), params))
    }

    fn code_lens_resolve(&mut self, params: JsonValue) -> (r: Reply<PeerSocketRequestFuture, Error>)
        ensures
            *final(self) == *old(self),
            request_sent(old(self).peer(), ServerRequest::CodeLensResolve.name(), params, r),
    {
        Reply::Future(self.request(ServerRequest::CodeLensResolve.method(), params))
    }

    fn document_link(&mut self, params: JsonValue) -> (r: Reply<PeerSocketRequestFuture, Error>)
        ensures
            *final(self) == *old(self),
            request_sent(old(self).peer(), ServerRequest::DocumentLink.name(), params, r),
    {
        Reply::Future(self.request(ServerRequest::DocumentLink.method(), params))
    }

    fn document_link_resolve(
        &mut self,
        params: JsonValue,
    ) -> (r: Reply<PeerSocketRequestFuture, Error>)
        ensures
            *final(self) == *old(self),
            request_sent(old(self).peer(), ServerRequest::DocumentLinkResolve.name(), params, r),
    {
        Reply::Future(self.request(ServerRequest::DocumentLinkResolve.method(), params))
    }

    fn formatting(&mut self, params: JsonValue) -> (r: Reply<PeerSocketRequestFuture, Error>)
        ensures
            *final(self) == *old(self),
            request_sent(old(self).peer(), ServerRequest::Formatting.name(), params, r),
    {
        Reply::Future(self.request(ServerRequest::Formatting.method(), params))
    }

    fn range_formatting(&mut self, params: JsonValue) -> (r: Reply<PeerSocketRequestFuture, Error>)
        ensures
            *final(self) == *old(self),
            request_sent(old(self).peer(), ServerRequest::RangeFormatting.name(), params, r),
    {
        Reply::Future(self.request(ServerRequest::RangeFormatting.method(), params))
    }

    fn on_type_formatting(
        &mut self,
        params: JsonValue,
    ) -> (r: Reply<PeerSocketRequestFuture, Error>)
        ensures
            *final(self) == *old(self),
            request_sent(old(self).peer(), ServerRequest::OnTypeFormatting.name(), params, r),
    {
        Reply::Future(self.request(ServerRequest::OnTypeFormatting.method(), params))
    }

    fn rename(&mut self, params: JsonValue) -> (r: Reply<PeerSocketRequestFuture, Error>)
        ensures
            *final(self) == *old(self),
            request_sent(old(self).peer(), ServerRequest::Rename.name(), params, r),
    {
        Reply::Future(self.request(ServerRequest::Rename.method(), params))
    }

    fn prepare_rename(&mut self, params: JsonValue) -> (r: Reply<PeerSocketRequestFuture, Error>)
        ensures
            *final(self) == *old(self),
            request_sent(old(self).peer(), ServerRequest::PrepareRename.name(), params, r),
    {
        Reply::Future(self.request(ServerRequest::PrepareRename.method(), params))
    }

    fn execute_command(&mut self, params: JsonValue) -> (r: Reply<PeerSocketRequestFuture, Error>)
        ensures
            *final(self) == *old(self),
            request_sent(old(self).peer(), ServerRequest::ExecuteCommand.name(), params, r),
    {
        Reply::Future(self.request(ServerRequest::ExecuteCommand.method(), params))
    }

    fn initialized(&mut self, params: JsonValue) -> (r: Result<(), Error>)
        ensures
            *final(self) == *old(self),
            notification_sent(old(self).peer(), ServerNotification::Initialized.name(), params, r),
    {
        self.notify(ServerNotification::Initialized.method(), params)
    }

    fn exit(&mut self, params: JsonValue) -> (r: Result<(), Error>)
        ensures
            *final(self) == *old(self),
            notification_sent(old(self).peer(), ServerNotification::Exit.name(), params, r),
    {
        self.notify(ServerNotification::Exit.method(), params)
    }

    fn did_change_workspace_folders(&mut self, params: JsonValue) -> (r: Result<(), Error>)
        ensures
            *final(self) == *old(self),
            notification_sent(
                old(self).peer(),
                ServerNotification::DidChangeWorkspaceFolders.name(),
                params,
                r,
            ),
    {
        self.notify(ServerNotification::DidChangeWorkspaceFolders.method(), params)
    }

    fn work_done_progress_cancel(&mut self, params: JsonValue) -> (r: Result<(), Error>)
        ensures
            *final(self) == *old(self),
            notification_sent(
                old(self).peer(),
                ServerNotification::WorkDoneProgressCancel.name(),
                params,
                r,
            ),
    {
        self.notify(ServerNotification::WorkDoneProgressCancel.method(), params)
    }

    fn did_create_files(&mut self, params: JsonValue) -> (r: Result<(), Error>)
        ensures
            *final(self) == *old(self),
            notification_sent(
                old(self).peer(),
                ServerNotification::DidCreateFiles.name(),
                params,
                r,
            ),
    {
        self.notify(ServerNotification::DidCreateFiles.method(), params)
    }

    fn did_rename_files(&mut self, params: JsonValue) -> (r: Result<(), Error>)
        ensures
            *final(self) == *old(self),
            notification_sent(
                old(self).peer(),
                ServerNotification::DidRenameFiles.name(),
                params,
                r,
            ),
    {
        self.notify(ServerNotification::DidRenameFiles.method(), params)
    }

    fn did_delete_files(&mut self, params: JsonValue) -> (r: Result<(), Error>)
        ensures
            *final(self) == *old(self),
            notification_sent(
                old(self).peer(),
                ServerNotification::DidDeleteFiles.name(),
                params,
                r,
            ),
    {
        self.notify(ServerNotification::DidDeleteFiles.method(), params)
    }

    fn did_change_configuration(&mut self, params: JsonValue) -> (r: Result<(), Error>)
        ensures
            *final(self) == *old(self),
            notification_sent(
                old(self).peer(),
                ServerNotification::DidChangeConfiguration.name(),
                params,
                r,
            ),
    {
        self.notify(ServerNotification::DidChangeConfiguration.method(), params)
    }

    fn did_open(&mut self, params: JsonValue) -> (r: Result<(), Error>)
        ensures
            *final(self) == *old(self),
            notification_sent(old(self).peer(), ServerNotification::DidOpen.name(), params, r),
    {
        self.notify(ServerNotification::DidOpen.method(), params)
    }

    fn did_change(&mut self, params: JsonValue) -> (r: Result<(), Error>)
        ensures
            *final(self) == *old(self),
            notification_sent(old(self).peer(), ServerNotification::DidChange.name(), params, r),
    {
        self.notify(ServerNotification::DidChange.method(), params)
    }

    fn did_close(&mut self, params: JsonValue) -> (r: Result<(), Error>)
        ensures
            *final(self) == *old(self),
            notification_sent(old(self).peer(), ServerNotification::DidClose.name(), params, r),
    {
        self.notify(ServerNotification::DidClose.method(), params)
    }

    fn did_save(&mut self, params: JsonValue) -> (r: Result<(), Error>)
        ensures
            *final(self) == *old(self),
            notification_sent(old(self).peer(), ServerNotification::DidSave.name(), params, r),
    {
        self.notify(ServerNotification::DidSave.method(), params)
    }

    fn will_save(&mut self, params: JsonValue) -> (r: Result<(), Error>)
        ensures
            *final(self) == *old(self),
            notification_sent(old(self).peer(), ServerNotification::WillSave.name(), params, r),
    {
        self.notify(ServerNotification::WillSave.method(), params)
    }

    fn did_change_watched_files(&mut self, params: JsonValue) -> (r: Result<(), Error>)
        ensures
            *final(self) == *old(self),
            notification_sent(
                old(self).peer(),
                ServerNotification::DidChangeWatchedFiles.name(),
                params,
                r,
            ),
    {
        self.notify(ServerNotification::DidChangeWatchedFiles.method(), params)
    }

    fn set_trace(&mut self, params: JsonValue) -> (r: Result<(), Error>)
        ensures
            *final(self) == *old(self),
            notification_sent(old(self).peer(), ServerNotification::SetTrace.name(), params, r),
    {
        self.notify(ServerNotification::SetTrace.method(), params)
    }

    fn cancel_request(&mut self, params: JsonValue) -> (r: Result<(), Error>)
        ensures
            *final(self) == *old(self),
            notification_sent(
                old(self).peer(),
                ServerNotification::CancelRequest.name(),
                params,
                r,
            ),
    {
        self.notify(ServerNotification::CancelRequest.method(), params)
    }

    fn progress(&mut self, params: JsonValue) -> (r: Result<(), Error>)
        ensures
            *final(self) == *old(self),
            notification_sent(old(self).peer(), ServerNotification::Progress.name(), params, r),
    {
        self.notify(ServerNotification::Progress.method(), params)
    }
}

/// The omnitrait defining all standard LSP requests and notifications for a Language Client. The
/// parameters and results are JSON documents.
///
/// A method that is not implemented does nothing but say so.
pub trait LanguageClient: Sized {
    /// What a failed request is answered with.
    type Error: From<ResponseError>;

    /// What a request is answered through.
    type Future;

    /// What a notification results in.
    type NotifyResult: NotifyResult;

    /// `workspace/workspaceFolders`
    fn workspace_folders(&mut self, params: JsonValue) -> (r: Reply<Self::Future, Self::Error>)
        default_ensures
            *final(self) == *old(self),
            client_left_out(ClientRequest::WorkspaceFolders, r),
    {
        client_leave_out(ClientRequest::WorkspaceFolders)
    }

    /// `workspace/configuration`
    fn configuration(&mut self, params: JsonValue) -> (r: Reply<Self::Future, Self::Error>)
        default_ensures
            *final(self) == *old(self),
            client_left_out(ClientRequest::Configuration, r),
    {
        client_leave_out(ClientRequest::Configuration)
    }

    /// `window/workDoneProgress/create`
    fn work_done_progress_create(
        &mut self,
        params: JsonValue,
    ) -> (r: Reply<Self::Future, Self::Error>)
        default_ensures
            *final(self) == *old(self),
            client_left_out(ClientRequest::WorkDoneProgressCreate, r),
    {
        client_leave_out(ClientRequest::WorkDoneProgressCreate)
    }

    /// `workspace/semanticTokens/refresh`
    fn semantic_tokens_refresh(
        &mut self,
        params: JsonValue,
    ) -> (r: Reply<Self::Future, Self::Error>)
        default_ensures
            *final(self) == *old(self),
            client_left_out(ClientRequest::SemanticTokensRefresh, r),
    {
        client_leave_out(ClientRequest::SemanticTokensRefresh)
    }

    /// `window/showDocument`
    fn show_document(&mut self, params: JsonValue) -> (r: Reply<Self::Future, Self::Error>)
        default_ensures
            *final(self) == *old(self),
            client_left_out(ClientRequest::ShowDocument, r),
    {
        client_leave_out(ClientRequest::ShowDocument)
    }

    /// `workspace/inlineValue/refresh`
    fn inline_value_refresh(&mut self, params: JsonValue) -> (r: Reply<Self::Future, Self::Error>)
        default_ensures
            *final(self) == *old(self),
            client_left_out(ClientRequest::InlineValueRefresh, r),
    {
        client_leave_out(ClientRequest::InlineValueRefresh)
    }

    /// `workspace/inlayHint/refresh`
    fn inlay_hint_refresh(&mut self, params: JsonValue) -> (r: Reply<Self::Future, Self::Error>)
        default_ensures
            *final(self) == *old(self),
            client_left_out(ClientRequest::InlayHintRefresh, r),
    {
        client_leave_out(ClientRequest::InlayHintRefresh)
    }

    /// `workspace/diagnostic/refresh`
    fn workspace_diagnostic_refresh(
        &mut self,
        params: JsonValue,
    ) -> (r: Reply<Self::Future, Self::Error>)
        default_ensures
            *final(self) == *old(self),
            client_left_out(ClientRequest::WorkspaceDiagnosticRefresh, r),
    {
        client_leave_out(ClientRequest::WorkspaceDiagnosticRefresh)
    }

    /// `client/registerCapability`
    fn register_capability(&mut self, params: JsonValue) -> (r: Reply<Self::Future, Self::Error>)
        default_ensures
            *final(self) == *old(self),
            client_left_out(ClientRequest::RegisterCapability, r),
    {
        client_leave_out(ClientRequest::RegisterCapability)
    }

    /// `client/unregisterCapability`
    fn unregister_capability(&mut self, params: JsonValue) -> (r: Reply<Self::Future, Self::Error>)
        default_ensures
            *final(self) == *old(self),
            client_left_out(ClientRequest::UnregisterCapability, r),
    {
        client_leave_out(ClientRequest::UnregisterCapability)
    }

    /// `window/showMessageRequest`
    fn show_message_request(&mut self, params: JsonValue) -> (r: Reply<Self::Future, Self::Error>)
        default_ensures
            *final(self) == *old(self),
            client_left_out(ClientRequest::ShowMessageRequest, r),
    {
        client_leave_out(ClientRequest::ShowMessageRequest)
    }

    /// `workspace/codeLens/refresh`
    fn code_lens_refresh(&mut self, params: JsonValue) -> (r: Reply<Self::Future, Self::Error>)
        default_ensures
            *final(self) == *old(self),
            client_left_out(ClientRequest::CodeLensRefresh, r),
    {
        client_leave_out(ClientRequest::CodeLensRefresh)
    }

    /// `workspace/applyEdit`
    fn apply_edit(&mut self, params: JsonValue) -> (r: Reply<Self::Future, Self::Error>)
        default_ensures
            *final(self) == *old(self),
            client_left_out(ClientRequest::ApplyEdit, r),
    {
        client_leave_out(ClientRequest::ApplyEdit)
    }

    /// `window/showMessage`
    fn show_message(&mut self, params: JsonValue) -> (r: Self::NotifyResult)
        default_ensures
            *final(self) == *old(self),
            Self::NotifyResult::falls_back(ClientNotification::ShowMessage.name(), r),
    {
        Self::NotifyResult::fallback(ClientNotification::ShowMessage.method())
    }

    /// `window/logMessage`
    fn log_message(&mut self, params: JsonValue) -> (r: Self::NotifyResult)
        default_ensures
            *final(self) == *old(self),
            Self::NotifyResult::falls_back(ClientNotification::LogMessage.name(), r),
    {
        Self::NotifyResult::fallback(ClientNotification::LogMessage.method())
    }

    /// `telemetry/event`
    fn telemetry_event(&mut self, params: JsonValue) -> (r: Self::NotifyResult)
        default_ensures
            *final(self) == *old(self),
            Self::NotifyResult::falls_back(ClientNotification::TelemetryEvent.name(), r),
    {
        Self::NotifyResult::fallback(ClientNotification::TelemetryEvent.method())
    }

    /// `textDocument/publishDiagnostics`
    fn publish_diagnostics(&mut self, params: JsonValue) -> (r: Self::NotifyResult)
        default_ensures
            *final(self) == *old(self),
            Self::NotifyResult::falls_back(ClientNotification::PublishDiagnostics.name(), r),
    {
        Self::NotifyResult::fallback(ClientNotification::PublishDiagnostics.method())
    }

    /// `$/logTrace`
    fn log_trace(&mut self, params: JsonValue) -> (r: Self::NotifyResult)
        default_ensures
            *final(self) == *old(self),
            Self::NotifyResult::falls_back(ClientNotification::LogTrace.name(), r),
    {
        Self::NotifyResult::fallback(ClientNotification::LogTrace.method())
    }

    /// `$/cancelRequest`
    fn cancel_request(&mut self, params: JsonValue) -> (r: Self::NotifyResult)
        default_ensures
            *final(self) == *old(self),
            Self::NotifyResult::falls_back(ClientNotification::CancelRequest.name(), r),
    {
        Self::NotifyResult::fallback(ClientNotification::CancelRequest.method())
    }

    /// `$/progress`
    fn progress(&mut self, params: JsonValue) -> (r: Self::NotifyResult)
        default_ensures
            *final(self) == *old(self),
            Self::NotifyResult::falls_back(ClientNotification::Progress.name(), r),
    {
        Self::NotifyResult::fallback(ClientNotification::Progress.method())
    }
}

/// A call of the method of the Language Client that is for the request can be answered through `r`.
pub open spec fn client_request_calls<S: LanguageClient>(
    s: &mut S,
    m: ClientRequest,
    params: JsonValue,
    r: Reply<S::Future, S::Error>,
) -> bool {
    match m {
        ClientRequest::WorkspaceFolders => call_ensures(S::workspace_folders, (s, params), r),
        ClientRequest::Configuration => call_ensures(S::configuration, (s, params), r),
        ClientRequest::WorkDoneProgressCreate => {
            call_ensures(S::work_done_progress_create, (s, params), r)
        },
        ClientRequest::SemanticTokensRefresh => {
            call_ensures(S::semantic_tokens_refresh, (s, params), r)
        },
        ClientRequest::ShowDocument => call_ensures(S::show_document, (s, params), r),
        ClientRequest::InlineValueRefresh => call_ensures(S::inline_value_refresh, (s, params), r),
        ClientRequest::InlayHintRefresh => call_ensures(S::inlay_hint_refresh, (s, params), r),
        ClientRequest::WorkspaceDiagnosticRefresh => {
            call_ensures(S::workspace_diagnostic_refresh, (s, params), r)
        },
        ClientRequest::RegisterCapability => call_ensures(S::register_capability, (s, params), r),
        ClientRequest::UnregisterCapability => {
            call_ensures(S::unregister_capability, (s, params), r)
        },
        ClientRequest::ShowMessageRequest => call_ensures(S::show_message_request, (s, params), r),
        ClientRequest::CodeLensRefresh => call_ensures(S::code_lens_refresh, (s, params), r),
        ClientRequest::ApplyEdit => call_ensures(S::apply_edit, (s, params), r),
    }
}

/// Each method of the Language Client is the one for its request.
proof fn lemma_client_request_calls<S: LanguageClient>(
    params: JsonValue,
    r: Reply<S::Future, S::Error>,
)
    ensures
        forall|s: &mut S|
            #[trigger] call_ensures(S::workspace_folders, (s, params), r)
                ==> client_request_calls(s, ClientRequest::WorkspaceFolders, params, r),
        forall|s: &mut S|
            #[trigger] call_ensures(S::configuration, (s, params), r)
                ==> client_request_calls(s, ClientRequest::Configuration, params, r),
        forall|s: &mut S|
            #[trigger] call_ensures(S::work_done_progress_create, (s, params), r)
                ==> client_request_calls(s, ClientRequest::WorkDoneProgressCreate, params, r),
        forall|s: &mut S|
            #[trigger] call_ensures(S::semantic_tokens_refresh, (s, params), r)
                ==> client_request_calls(s, ClientRequest::SemanticTokensRefresh, params, r),
        forall|s: &mut S|
            #[trigger] call_ensures(S::show_document, (s, params), r)
                ==> client_request_calls(s, ClientRequest::ShowDocument, params, r),
        forall|s: &mut S|
            #[trigger] call_ensures(S::inline_value_refresh, (s, params), r)
                ==> client_request_calls(s, ClientRequest::InlineValueRefresh, params, r),
        forall|s: &mut S|
            #[trigger] call_ensures(S::inlay_hint_refresh, (s, params), r)
                ==> client_request_calls(s, ClientRequest::InlayHintRefresh, params, r),
        forall|s: &mut S|
            #[trigger] call_ensures(S::workspace_diagnostic_refresh, (s, params), r)
                ==> client_request_calls(s, ClientRequest::WorkspaceDiagnosticRefresh, params, r),
        forall|s: &mut S|
            #[trigger] call_ensures(S::register_capability, (s, params), r)
                ==> client_request_calls(s, ClientRequest::RegisterCapability, params, r),
        forall|s: &mut S|
            #[trigger] call_ensures(S::unregister_capability, (s, params), r)
                ==> client_request_calls(s, ClientRequest::UnregisterCapability, params, r),
        forall|s: &mut S|
            #[trigger] call_ensures(S::show_message_request, (s, params), r)
                ==> client_request_calls(s, ClientRequest::ShowMessageRequest, params, r),
        forall|s: &mut S|
            #[trigger] call_ensures(S::code_lens_refresh, (s, params), r)
                ==> client_request_calls(s, ClientRequest::CodeLensRefresh, params, r),
        forall|s: &mut S|
            #[trigger] call_ensures(S::apply_edit, (s, params), r)
                ==> client_request_calls(s, ClientRequest::ApplyEdit, params, r),
{
}

/// Hands a standard request to the method of the Language Client that is for it: the method is
/// called on the state with the parameters, what it returns is returned, and nothing else changes
/// the state.
pub fn serve_client_request<S: LanguageClient>(
    state: &mut S,
    m: ClientRequest,
    params: JsonValue,
) -> (r: Reply<S::Future, S::Error>)
    ensures
        exists|s: &mut S|
            *s == *old(state) && *final(s) == *final(state) && #[trigger] client_request_calls(
                s,
                m,
                params,
                r,
            ),
{
    let r = match m {
        ClientRequest::WorkspaceFolders => state.workspace_folders(params),
        ClientRequest::Configuration => state.configuration(params),
        ClientRequest::WorkDoneProgressCreate => state.work_done_progress_create(params),
        ClientRequest::SemanticTokensRefresh => state.semantic_tokens_refresh(params),
        ClientRequest::ShowDocument => state.show_document(params),
        ClientRequest::InlineValueRefresh => state.inline_value_refresh(params),
        ClientRequest::InlayHintRefresh => state.inlay_hint_refresh(params),
        ClientRequest::WorkspaceDiagnosticRefresh => state.workspace_diagnostic_refresh(params),
        ClientRequest::RegisterCapability => state.register_capability(params),
        ClientRequest::UnregisterCapability => state.unregister_capability(params),
        ClientRequest::ShowMessageRequest => state.show_message_request(params),
        ClientRequest::CodeLensRefresh => state.code_lens_refresh(params),
        ClientRequest::ApplyEdit => state.apply_edit(params),
    };
    proof {
        lemma_client_request_calls::<S>(params, r);
    }
    r
}

/// The handler of a standard request that hands its parameters to the method of the Language
/// Client that is for it.
pub fn client_request_handler<S: LanguageClient>(
    m: ClientRequest,
) -> (h: impl Fn(&mut S, AnyRequest) -> Reply<S::Future, S::Error>)
    ensures
        forall|s: &mut S, req: AnyRequest| #[trigger] call_requires(h, (s, req)),
        forall|s: &mut S, req: AnyRequest, r: Reply<S::Future, S::Error>| #[trigger]
            call_ensures(h, (s, req), r) ==> exists|t: &mut S|
                *t == *s && *final(t) == *final(s) && #[trigger] client_request_calls(
                    t,
                    m,
                    req.params,
                    r,
                ),
{
    move |state: &mut S, req: AnyRequest| -> (r: Reply<S::Future, S::Error>)
        ensures
            exists|t: &mut S|
                *t == *old(state) && *final(t) == *final(state)
                    && #[trigger] client_request_calls(t, m, req.params, r),
        { serve_client_request(state, m, req.params) }
}

/// A call of the method of the Language Client that is for the notification can result in `r`.
pub open spec fn client_notification_calls<S: LanguageClient>(
    s: &mut S,
    m: ClientNotification,
    params: JsonValue,
    r: S::NotifyResult,
) -> bool {
    match m {
        ClientNotification::ShowMessage => call_ensures(S::show_message, (s, params), r),
        ClientNotification::LogMessage => call_ensures(S::log_message, (s, params), r),
        ClientNotification::TelemetryEvent => call_ensures(S::telemetry_event, (s, params), r),
        ClientNotification::PublishDiagnostics => {
            call_ensures(S::publish_diagnostics, (s, params), r)
        },
        ClientNotification::LogTrace => call_ensures(S::log_trace, (s, params), r),
        ClientNotification::CancelRequest => call_ensures(S::cancel_request, (s, params), r),
        ClientNotification::Progress => call_ensures(S::progress, (s, params), r),
    }
}

/// Each method of the Language Client is the one for its notification.
proof fn lemma_client_notification_calls<S: LanguageClient>(
    params: JsonValue,
    r: S::NotifyResult,
)
    ensures
        forall|s: &mut S|
            #[trigger] call_ensures(S::show_message, (s, params), r)
                ==> client_notification_calls(s, ClientNotification::ShowMessage, params, r),
        forall|s: &mut S|
            #[trigger] call_ensures(S::log_message, (s, params), r)
                ==> client_notification_calls(s, ClientNotification::LogMessage, params, r),
        forall|s: &mut S|
            #[trigger] call_ensures(S::telemetry_event, (s, params), r)
                ==> client_notification_calls(s, ClientNotification::TelemetryEvent, params, r),
        forall|s: &mut S|
            #[trigger] call_ensures(S::publish_diagnostics, (s, params), r)
                ==> client_notification_calls(s, ClientNotification::PublishDiagnostics, params, r),
        forall|s: &mut S|
            #[trigger] call_ensures(S::log_trace, (s, params), r)
                ==> client_notification_calls(s, ClientNotification::LogTrace, params, r),
        forall|s: &mut S|
            #[trigger] call_ensures(S::cancel_request, (s, params), r)
                ==> client_notification_calls(s, ClientNotification::CancelRequest, params, r),
        forall|s: &mut S|
            #[trigger] call_ensures(S::progress, (s, params), r)
                ==> client_notification_calls(s, ClientNotification::Progress, params, r),
{
}

/// Hands a standard notification to the method of the Language Client that is for it: the method is
/// called on the state with the parameters, what it returns is returned, and nothing else changes
/// the state.
pub fn serve_client_notification<S: LanguageClient>(
    state: &mut S,
    m: ClientNotification,
    params: JsonValue,
) -> (r: S::NotifyResult)
    ensures
        exists|s: &mut S|
            *s == *old(state) && *final(s) == *final(state) && #[trigger] client_notification_calls(
                s,
                m,
                params,
                r,
            ),
{
    let r = match m {
        ClientNotification::ShowMessage => state.show_message(params),
        ClientNotification::LogMessage => state.log_message(params),
        ClientNotification::TelemetryEvent => state.telemetry_event(params),
        ClientNotification::PublishDiagnostics => state.publish_diagnostics(params),
        ClientNotification::LogTrace => state.log_trace(params),
        ClientNotification::CancelRequest => state.cancel_request(params),
        ClientNotification::Progress => state.progress(params),
    };
    proof {
        lemma_client_notification_calls::<S>(params, r);
    }
    r
}

/// The handler of a standard notification that hands its parameters to the method of the Language
/// Client that is for it.
pub fn client_notification_handler<S: LanguageClient<NotifyResult = Flow>>(
    m: ClientNotification,
) -> (h: impl Fn(&mut S, AnyNotification) -> Flow)
    ensures
        forall|s: &mut S, notif: AnyNotification| #[trigger] call_requires(h, (s, notif)),
        forall|s: &mut S, notif: AnyNotification, r: Flow| #[trigger]
            call_ensures(h, (s, notif), r) ==> exists|t: &mut S|
                *t == *s && *final(t) == *final(s) && #[trigger] client_notification_calls(
                    t,
                    m,
                    notif.params,
                    r,
                ),
{
    move |state: &mut S, notif: AnyNotification| -> (r: Flow)
        ensures
            exists|t: &mut S|
                *t == *old(state) && *final(t) == *final(state)
                    && #[trigger] client_notification_calls(t, m, notif.params, r),
        { serve_client_notification(state, m, notif.params) }
}

/// A Language Client on the other side of a socket: what it is given is sent to it.
impl<P> LanguageClient for ClientSocket<P> {
    type Error = Error;

    type Future = PeerSocketRequestFuture;

    type NotifyResult = Result<(), Error>;

    fn workspace_folders(&mut self, params: JsonValue) -> (r: Reply<PeerSocketRequestFuture, Error>)
        ensures
            *final(self) == *old(self),
            request_sent(old(self).peer(), ClientRequest::WorkspaceFolders.name(), params, r),
    {
        Reply::Future(self.request(ClientRequest::WorkspaceFolders.method(), params))
    }

    fn configuration(&mut self, params: JsonValue) -> (r: Reply<PeerSocketRequestFuture, Error>)
        ensures
            *final(self) == *old(self),
            request_sent(old(self).peer(), ClientRequest::Configuration.name(), params, r),
    {
        Reply::Future(self.request(ClientRequest::Configuration.method(), params))
    }

    fn work_done_progress_create(
        &mut self,
        params: JsonValue,
    ) -> (r: Reply<PeerSocketRequestFuture, Error>)
        ensures
            *final(self) == *old(self),
            request_sent(old(self).peer(), ClientRequest::WorkDoneProgressCreate.name(), params, r),
    {
        Reply::Future(self.request(ClientRequest::WorkDoneProgressCreate.method(), params))
    }

    fn semantic_tokens_refresh(
        &mut self,
        params: JsonValue,
    ) -> (r: Reply<PeerSocketRequestFuture, Error>)
        ensures
            *final(self) == *old(self),
            request_sent(old(self).peer(), ClientRequest::SemanticTokensRefresh.name(), params, r),
    {
        Reply::Future(self.request(ClientRequest::SemanticTokensRefresh.method(), params))
    }

    fn show_document(&mut self, params: JsonValue) -> (r: Reply<PeerSocketRequestFuture, Error>)
        ensures
            *final(self) == *old(self),
            request_sent(old(self).peer(), ClientRequest::ShowDocument.name(), params, r),
    {
        Reply::Future(self.request(ClientRequest::ShowDocument.method(), params))
    }

    fn inline_value_refresh(
        &mut self,
        params: JsonValue,
    ) -> (r: Reply<PeerSocketRequestFuture, Error>)
        ensures
            *final(self) == *old(self),
            request_sent(old(self).peer(), ClientRequest::InlineValueRefresh.name(), params, r),
    {
        Reply::Future(self.request(ClientRequest::InlineValueRefresh.method(), params))
    }

    fn inlay_hint_refresh(
        &mut self,
        params: JsonValue,
    ) -> (r: Reply<PeerSocketRequestFuture, Error>)
        ensures
            *final(self) == *old(self),
            request_sent(old(self).peer(), ClientRequest::InlayHintRefresh.name(), params, r),
    {
        Reply::Future(self.request(ClientRequest::InlayHintRefresh.method(), params))
    }

    fn workspace_diagnostic_refresh(
        &mut self,
        params: JsonValue,
    ) -> (r: Reply<PeerSocketRequestFuture, Error>)
        ensures
            *final(self) == *old(self),
            request_sent(
                old(self).peer(),
                ClientRequest::WorkspaceDiagnosticRefresh.name(),
                params,
                r,
            ),
    {
        Reply::Future(self.request(ClientRequest::WorkspaceDiagnosticRefresh.method(), params))
    }

    fn register_capability(
        &mut self,
        params: JsonValue,
    ) -> (r: Reply<PeerSocketRequestFuture, Error>)
        ensures
            *final(self) == *old(self),
            request_sent(old(self).peer(), ClientRequest::RegisterCapability.name(), params, r),
    {
        Reply::Future(self.request(ClientRequest::RegisterCapability.method(), params))
    }

    fn unregister_capability(
        &mut self,
        params: JsonValue,
    ) -> (r: Reply<PeerSocketRequestFuture, Error>)
        ensures
            *final(self) == *old(self),
            request_sent(old(self).peer(), ClientRequest::UnregisterCapability.name(), params, r),
    {
        Reply::Future(self.request(ClientRequest::UnregisterCapability.method(), params))
    }

    fn show_message_request(
        &mut self,
        params: JsonValue,
    ) -> (r: Reply<PeerSocketRequestFuture, Error>)
        ensures
            *final(self) == *old(self),
            request_sent(old(self).peer(), ClientRequest::ShowMessageRequest.name(), params, r),
    {
        Reply::Future(self.request(ClientRequest::ShowMessageRequest.method(), params))
    }

    fn code_lens_refresh(&mut self, params: JsonValue) -> (r: Reply<PeerSocketRequestFuture, Error>)
        ensures
            *final(self) == *old(self),
            request_sent(old(self).peer(), ClientRequest::CodeLensRefresh.name(), params, r),
    {
        Reply::Future(self.request(ClientRequest::CodeLensRefresh.method(), params))
    }

    fn apply_edit(&mut self, params: JsonValue) -> (r: Reply<PeerSocketRequestFuture, Error>)
        ensures
            *final(self) == *old(self),
            request_sent(old(self).peer(), ClientRequest::ApplyEdit.name(), params, r),
    {
        Reply::Future(self.request(ClientRequest::ApplyEdit.method(), params))
    }

    fn show_message(&mut self, params: JsonValue) -> (r: Result<(), Error>)
        ensures
            *final(self) == *old(self),
            notification_sent(old(self).peer(), ClientNotification::ShowMessage.name(), params, r),
    {
        self.notify(ClientNotification::ShowMessage.method(), params)
    }

    fn log_message(&mut self, params: JsonValue) -> (r: Result<(), Error>)
        ensures
            *final(self) == *old(self),
            notification_sent(old(self).peer(), ClientNotification::LogMessage.name(), params, r),
    {
        self.notify(ClientNotification::LogMessage.method(), params)
    }

    fn telemetry_event(&mut self, params: JsonValue) -> (r: Result<(), Error>)
        ensures
            *final(self) == *old(self),
            notification_sent(
                old(self).peer(),
                ClientNotification::TelemetryEvent.name(),
                params,
                r,
            ),
    {
        self.notify(ClientNotification::TelemetryEvent.method(), params)
    }

    fn publish_diagnostics(&mut self, params: JsonValue) -> (r: Result<(), Error>)
        ensures
            *final(self) == *old(self),
            notification_sent(
                old(self).peer(),
                ClientNotification::PublishDiagnostics.name(),
                params,
                r,
            ),
    {
        self.notify(ClientNotification::PublishDiagnostics.method(), params)
    }

    fn log_trace(&mut self, params: JsonValue) -> (r: Result<(), Error>)
        ensures
            *final(self) == *old(self),
            notification_sent(old(self).peer(), ClientNotification::LogTrace.name(), params, r),
    {
        self.notify(ClientNotification::LogTrace.method(), params)
    }

    fn cancel_request(&mut self, params: JsonValue) -> (r: Result<(), Error>)
        ensures
            *final(self) == *old(self),
            notification_sent(
                old(self).peer(),
                ClientNotification::CancelRequest.name(),
                params,
                r,
            ),
    {
        self.notify(ClientNotification::CancelRequest.method(), params)
    }

    fn progress(&mut self, params: JsonValue) -> (r: Result<(), Error>)
        ensures
            *final(self) == *old(self),
            notification_sent(old(self).peer(), ClientNotification::Progress.name(), params, r),
    {
        self.notify(ClientNotification::Progress.method(), params)
    }
}

/// In a router with handlers for all standard requests of a Language Server, each of which serves
/// the method that it was made for, a standard request makes one call of the method of the state
/// that is for it, with the parameters, and returns what the call returns. The state is changed by
/// that call alone. Such handlers are made by [`server_request_handler`].
pub proof fn law_server_requests_reach_their_methods<
    St: LanguageServer,
    P,
    RH: Fn(&mut St, AnyRequest) -> Reply<St::Future, St::Error>,
    NH,
    EH,
    F: Fn(ServerRequest) -> RH,
>(
    router: Router<St, St::Error, Reply<St::Future, St::Error>, P, RH, NH, EH>,
    make: F,
    m: ServerRequest,
    req: AnyRequest,
)
    requires
        handles_all::<ServerRequest, RH, F>(router.requests(), make),
        forall|k: ServerRequest, h: RH, s: &mut St, x: AnyRequest, r: Reply<St::Future, St::Error>|
            #![trigger call_ensures(make, (k,), h), call_ensures(h, (s, x), r)]
            call_ensures(make, (k,), h) && call_ensures(h, (s, x), r) ==> exists|t: &mut St|
                *t == *s && *final(t) == *final(s) && #[trigger] server_request_calls(
                    t,
                    k,
                    x.params,
                    r,
                ),
        req.method@ == m.name(),
    ensures
        router.for_request(req.method@) is Some,
        forall|s: &mut St, r: Reply<St::Future, St::Error>|
            *s == router.shared() && #[trigger] call_ensures(
                router.for_request(req.method@)->0,
                (s, req),
                r,
            ) ==> exists|t: &mut St|
                *t == router.shared() && *final(t) == *final(s) && #[trigger] server_request_calls(
                    t,
                    m,
                    req.params,
                    r,
                ),
{
}

/// In a router with handlers for all standard notifications of a Language Server, each of which
/// serves the method that it was made for, a standard notification makes one call of the method of
/// the state that is for it, with the parameters, and returns what the call returns. The state is
/// changed by that call alone. Such handlers are made by [`server_notification_handler`].
pub proof fn law_server_notifications_reach_their_methods<
    St: LanguageServer<NotifyResult = Flow>,
    E,
    Fut,
    P,
    RH,
    NH: Fn(&mut St, AnyNotification) -> Flow,
    EH,
    F: Fn(ServerNotification) -> NH,
>(
    router: Router<St, E, Fut, P, RH, NH, EH>,
    make: F,
    m: ServerNotification,
    notif: AnyNotification,
)
    requires
        handles_all::<ServerNotification, NH, F>(router.notifications(), make),
        forall|k: ServerNotification, h: NH, s: &mut St, x: AnyNotification, r: Flow|
            #![trigger call_ensures(make, (k,), h), call_ensures(h, (s, x), r)]
            call_ensures(make, (k,), h) && call_ensures(h, (s, x), r) ==> exists|t: &mut St|
                *t == *s && *final(t) == *final(s) && #[trigger] server_notification_calls(
                    t,
                    k,
                    x.params,
                    r,
                ),
        notif.method@ == m.name(),
    ensures
        router.for_notification(notif.method@) is Some,
        forall|s: &mut St, r: Flow|
            *s == router.shared() && #[trigger] call_ensures(
                router.for_notification(notif.method@)->0,
                (s, notif),
                r,
            ) ==> exists|t: &mut St|
                *t == router.shared() && *final(t) == *final(s)
                    && #[trigger] server_notification_calls(t, m, notif.params, r),
{
}

/// In a router with handlers for all standard requests of a Language Client, each of which serves
/// the method that it was made for, a standard request makes one call of the method of the state
/// that is for it, with the parameters, and returns what the call returns. The state is changed by
/// that call alone. Such handlers are made by [`client_request_handler`].
pub proof fn law_client_requests_reach_their_methods<
    St: LanguageClient,
    P,
    RH: Fn(&mut St, AnyRequest) -> Reply<St::Future, St::Error>,
    NH,
    EH,
    F: Fn(ClientRequest) -> RH,
>(
    router: Router<St, St::Error, Reply<St::Future, St::Error>, P, RH, NH, EH>,
    make: F,
    m: ClientRequest,
    req: AnyRequest,
)
    requires
        handles_all::<ClientRequest, RH, F>(router.requests(), make),
        forall|k: ClientRequest, h: RH, s: &mut St, x: AnyRequest, r: Reply<St::Future, St::Error>|
            #![trigger call_ensures(make, (k,), h), call_ensures(h, (s, x), r)]
            call_ensures(make, (k,), h) && call_ensures(h, (s, x), r) ==> exists|t: &mut St|
                *t == *s && *final(t) == *final(s) && #[trigger] client_request_calls(
                    t,
                    k,
                    x.params,
                    r,
                ),
        req.method@ == m.name(),
    ensures
        router.for_request(req.method@) is Some,
        forall|s: &mut St, r: Reply<St::Future, St::Error>|
            *s == router.shared() && #[trigger] call_ensures(
                router.for_request(req.method@)->0,
                (s, req),
                r,
            ) ==> exists|t: &mut St|
                *t == router.shared() && *final(t) == *final(s) && #[trigger] client_request_calls(
                    t,
                    m,
                    req.params,
                    r,
                ),
{
}

/// In a router with handlers for all standard notifications of a Language Client, each of which
/// serves the method that it was made for, a standard notification makes one call of the method of
/// the state that is for it, with the parameters, and returns what the call returns. The state is
/// changed by that call alone. Such handlers are made by [`client_notification_handler`].
pub proof fn law_client_notifications_reach_their_methods<
    St: LanguageClient<NotifyResult = Flow>,
    E,
    Fut,
    P,
    RH,
    NH: Fn(&mut St, AnyNotification) -> Flow,
    EH,
    F: Fn(ClientNotification) -> NH,
>(
    router: Router<St, E, Fut, P, RH, NH, EH>,
    make: F,
    m: ClientNotification,
    notif: AnyNotification,
)
    requires
        handles_all::<ClientNotification, NH, F>(router.notifications(), make),
        forall|k: ClientNotification, h: NH, s: &mut St, x: AnyNotification, r: Flow|
            #![trigger call_ensures(make, (k,), h), call_ensures(h, (s, x), r)]
            call_ensures(make, (k,), h) && call_ensures(h, (s, x), r) ==> exists|t: &mut St|
                *t == *s && *final(t) == *final(s) && #[trigger] client_notification_calls(
                    t,
                    k,
                    x.params,
                    r,
                ),
        notif.method@ == m.name(),
    ensures
        router.for_notification(notif.method@) is Some,
        forall|s: &mut St, r: Flow|
            *s == router.shared() && #[trigger] call_ensures(
                router.for_notification(notif.method@)->0,
                (s, notif),
                r,
            ) ==> exists|t: &mut St|
                *t == router.shared() && *final(t) == *final(s)
                    && #[trigger] client_notification_calls(t, m, notif.params, r),
{
}

/// A socket as a Language Server sends every standard request and notification that it is given, as
/// one of its method and with its parameters, and stays as it was.
pub proof fn law_server_socket_sends_what_it_is_given<P>()
    ensures
        forall|
            s: &mut ServerSocket<P>,
            m: ServerRequest,
            params: JsonValue,
            r: Reply<PeerSocketRequestFuture, Error>,
        | #[trigger]
            server_request_calls(s, m, params, r) ==> *final(s) == *s && request_sent(
                s.peer(),
                m.name(),
                params,
                r,
            ),
        forall|
            s: &mut ServerSocket<P>,
            m: ServerNotification,
            params: JsonValue,
            r: Result<(), Error>,
        | #[trigger]
            server_notification_calls(s, m, params, r) ==> *final(s) == *s && notification_sent(
                s.peer(),
                m.name(),
                params,
                r,
            ),
{
}

/// A socket as a Language Client sends every standard request and notification that it is given, as
/// one of its method and with its parameters, and stays as it was.
pub proof fn law_client_socket_sends_what_it_is_given<P>()
    ensures
        forall|
            s: &mut ClientSocket<P>,
            m: ClientRequest,
            params: JsonValue,
            r: Reply<PeerSocketRequestFuture, Error>,
        | #[trigger]
            client_request_calls(s, m, params, r) ==> *final(s) == *s && request_sent(
                s.peer(),
                m.name(),
                params,
                r,
            ),
        forall|
            s: &mut ClientSocket<P>,
            m: ClientNotification,
            params: JsonValue,
            r: Result<(), Error>,
        | #[trigger]
            client_notification_calls(s, m, params, r) ==> *final(s) == *s && notification_sent(
                s.peer(),
                m.name(),
                params,
                r,
            ),
{
}

/// A notification that is not implemented is ignored if its method is `exit` or `initialized`, or
/// starts with `$/`. Any other one is an error that names it.
pub proof fn law_fallbacks_follow_the_method(method: &str)
    ensures
        forall|r: Flow| #[trigger]
            call_ensures(<Flow as NotifyResult>::fallback, (method,), r) ==> {
                let ignored = method@ == "exit"@ || method@ == "initialized"@
                    || "$/"@.is_prefix_of(method@);
                &&& ignored ==> r is Continue
                &&& !ignored ==> (r matches ControlFlow::Break(Err(Error::Routing(text))) && text@
                    == "Unhandled notification: "@ + method@)
            },
        forall|r: Result<(), Error>| #[trigger]
            call_ensures(<Result<(), Error> as NotifyResult>::fallback, (method,), r) ==> {
                let ignored = method@ == "exit"@ || method@ == "initialized"@
                    || "$/"@.is_prefix_of(method@);
                &&& ignored ==> r is Ok
                &&& !ignored ==> (r matches Err(Error::Routing(text)) && text@
                    == "Unhandled notification: "@ + method@)
            },
{
    crate::router::lemma_optional_methods(method@);
}

/// A request or notification that was sent through a socket was handed to its channel, and a closed
/// socket takes neither.
pub proof fn law_sent_is_handed_on<P>(
    peer: PeerSocket<P>,
    method: Seq<char>,
    params: JsonValue,
    reply: Reply<PeerSocketRequestFuture, Error>,
    result: Result<(), Error>,
)
    ensures
        request_sent(peer, method, params, reply) ==> (reply matches Reply::Future(fut)
            && peer.requested(method, params, fut) && (peer.closed() ==> fut.awaits() is None)),
        notification_sent(peer, method, params, result) ==> {
            &&& peer.notified(method, params, result is Ok)
            &&& result matches Err(e) ==> e == Error::ServiceStopped
            &&& peer.closed() ==> result is Err
        },
{
}

} // verus!
