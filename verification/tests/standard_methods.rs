//! The standard methods are those of `lsp_types`, and routers can be made for all of them.
use async_lsp::error::{Error, ErrorCode, ResponseError};
use async_lsp::event::AnyEvent;
use async_lsp::message::{AnyNotification, AnyRequest, RequestId};
use async_lsp::omni_trait::{
    fallback, method_not_found, ClientNotification, ClientRequest, ServerNotification,
    ServerRequest, StandardMethod,
};
use async_lsp::router::{Answer, Router};
use async_lsp::service::{Flow, LspService};
use lsp_types::notification::{self, Notification};
use lsp_types::request::{self, Request};
use std::collections::HashSet;
use std::ops::ControlFlow;

type OnRequest = Box<dyn Fn(&mut Vec<String>, AnyRequest) -> String>;
type OnNotification = Box<dyn Fn(&mut Vec<String>, AnyNotification) -> Flow>;
type OnEvent = Box<dyn Fn(&mut Vec<String>, AnyEvent<()>) -> Flow>;
type TestRouter =
    Router<Vec<String>, ResponseError, String, (), OnRequest, OnNotification, OnEvent>;

#[test]
fn server_requests_are_those_of_the_protocol() {
    assert_eq!(ServerRequest::Initialize.method(), request::Initialize::METHOD);
    assert_eq!(ServerRequest::Shutdown.method(), request::Shutdown::METHOD);
    assert_eq!(ServerRequest::Implementation.method(), request::GotoImplementation::METHOD);
    assert_eq!(ServerRequest::TypeDefinition.method(), request::GotoTypeDefinition::METHOD);
    assert_eq!(ServerRequest::DocumentColor.method(), request::DocumentColor::METHOD);
    assert_eq!(
        ServerRequest::ColorPresentation.method(),
        request::ColorPresentationRequest::METHOD
    );
    assert_eq!(ServerRequest::FoldingRange.method(), request::FoldingRangeRequest::METHOD);
    assert_eq!(ServerRequest::Declaration.method(), request::GotoDeclaration::METHOD);
    assert_eq!(ServerRequest::SelectionRange.method(), request::SelectionRangeRequest::METHOD);
    assert_eq!(ServerRequest::PrepareCallHierarchy.method(), request::CallHierarchyPrepare::METHOD);
    assert_eq!(ServerRequest::IncomingCalls.method(), request::CallHierarchyIncomingCalls::METHOD);
    assert_eq!(ServerRequest::OutgoingCalls.method(), request::CallHierarchyOutgoingCalls::METHOD);
    assert_eq!(
        ServerRequest::SemanticTokensFull.method(),
        request::SemanticTokensFullRequest::METHOD
    );
    assert_eq!(
        ServerRequest::SemanticTokensFullDelta.method(),
        request::SemanticTokensFullDeltaRequest::METHOD
    );
    assert_eq!(
        ServerRequest::SemanticTokensRange.method(),
        request::SemanticTokensRangeRequest::METHOD
    );
    assert_eq!(ServerRequest::LinkedEditingRange.method(), request::LinkedEditingRange::METHOD);
    assert_eq!(ServerRequest::WillCreateFiles.method(), request::WillCreateFiles::METHOD);
    assert_eq!(ServerRequest::WillRenameFiles.method(), request::WillRenameFiles::METHOD);
    assert_eq!(ServerRequest::WillDeleteFiles.method(), request::WillDeleteFiles::METHOD);
    assert_eq!(ServerRequest::Moniker.method(), request::MonikerRequest::METHOD);
    assert_eq!(ServerRequest::PrepareTypeHierarchy.method(), request::TypeHierarchyPrepare::METHOD);
    assert_eq!(ServerRequest::Supertypes.method(), request::TypeHierarchySupertypes::METHOD);
    assert_eq!(ServerRequest::Subtypes.method(), request::TypeHierarchySubtypes::METHOD);
    assert_eq!(ServerRequest::InlineValue.method(), request::InlineValueRequest::METHOD);
    assert_eq!(ServerRequest::InlayHint.method(), request::InlayHintRequest::METHOD);
    assert_eq!(ServerRequest::InlayHintResolve.method(), request::InlayHintResolveRequest::METHOD);
    assert_eq!(
        ServerRequest::DocumentDiagnostic.method(),
        request::DocumentDiagnosticRequest::METHOD
    );
    assert_eq!(
        ServerRequest::WorkspaceDiagnostic.method(),
        request::WorkspaceDiagnosticRequest::METHOD
    );
    assert_eq!(ServerRequest::WillSaveWaitUntil.method(), request::WillSaveWaitUntil::METHOD);
    assert_eq!(ServerRequest::Completion.method(), request::Completion::METHOD);
    assert_eq!(
        ServerRequest::CompletionItemResolve.method(),
        request::ResolveCompletionItem::METHOD
    );
    assert_eq!(ServerRequest::Hover.method(), request::HoverRequest::METHOD);
    assert_eq!(ServerRequest::SignatureHelp.method(), request::SignatureHelpRequest::METHOD);
    assert_eq!(ServerRequest::Definition.method(), request::GotoDefinition::METHOD);
    assert_eq!(ServerRequest::References.method(), request::References::METHOD);
    assert_eq!(
        ServerRequest::DocumentHighlight.method(),
        request::DocumentHighlightRequest::METHOD
    );
    assert_eq!(ServerRequest::DocumentSymbol.method(), request::DocumentSymbolRequest::METHOD);
    assert_eq!(ServerRequest::CodeAction.method(), request::CodeActionRequest::METHOD);
    assert_eq!(
        ServerRequest::CodeActionResolve.method(),
        request::CodeActionResolveRequest::METHOD
    );
    assert_eq!(ServerRequest::Symbol.method(), request::WorkspaceSymbolRequest::METHOD);
    assert_eq!(
        ServerRequest::WorkspaceSymbolResolve.method(),
        request::WorkspaceSymbolResolve::METHOD
    );
    assert_eq!(ServerRequest::CodeLens.method(), request::CodeLensRequest::METHOD);
    assert_eq!(ServerRequest::CodeLensResolve.method(), request::CodeLensResolve::METHOD);
    assert_eq!(ServerRequest::DocumentLink.method(), request::DocumentLinkRequest::METHOD);
    assert_eq!(ServerRequest::DocumentLinkResolve.method(), request::DocumentLinkResolve::METHOD);
    assert_eq!(ServerRequest::Formatting.method(), request::Formatting::METHOD);
    assert_eq!(ServerRequest::RangeFormatting.method(), request::RangeFormatting::METHOD);
    assert_eq!(ServerRequest::OnTypeFormatting.method(), request::OnTypeFormatting::METHOD);
    assert_eq!(ServerRequest::Rename.method(), request::Rename::METHOD);
    assert_eq!(ServerRequest::PrepareRename.method(), request::PrepareRenameRequest::METHOD);
    assert_eq!(ServerRequest::ExecuteCommand.method(), request::ExecuteCommand::METHOD);
    assert_eq!(ServerRequest::all().len(), 51);
}

#[test]
fn server_notifications_are_those_of_the_protocol() {
    assert_eq!(ServerNotification::Initialized.method(), notification::Initialized::METHOD);
    assert_eq!(ServerNotification::Exit.method(), notification::Exit::METHOD);
    assert_eq!(
        ServerNotification::DidChangeWorkspaceFolders.method(),
        notification::DidChangeWorkspaceFolders::METHOD
    );
    assert_eq!(
        ServerNotification::WorkDoneProgressCancel.method(),
        notification::WorkDoneProgressCancel::METHOD
    );
    assert_eq!(ServerNotification::DidCreateFiles.method(), notification::DidCreateFiles::METHOD);
    assert_eq!(ServerNotification::DidRenameFiles.method(), notification::DidRenameFiles::METHOD);
    assert_eq!(ServerNotification::DidDeleteFiles.method(), notification::DidDeleteFiles::METHOD);
    assert_eq!(
        ServerNotification::DidChangeConfiguration.method(),
        notification::DidChangeConfiguration::METHOD
    );
    assert_eq!(ServerNotification::DidOpen.method(), notification::DidOpenTextDocument::METHOD);
    assert_eq!(ServerNotification::DidChange.method(), notification::DidChangeTextDocument::METHOD);
    assert_eq!(ServerNotification::DidClose.method(), notification::DidCloseTextDocument::METHOD);
    assert_eq!(ServerNotification::DidSave.method(), notification::DidSaveTextDocument::METHOD);
    assert_eq!(ServerNotification::WillSave.method(), notification::WillSaveTextDocument::METHOD);
    assert_eq!(
        ServerNotification::DidChangeWatchedFiles.method(),
        notification::DidChangeWatchedFiles::METHOD
    );
    assert_eq!(ServerNotification::SetTrace.method(), notification::SetTrace::METHOD);
    assert_eq!(ServerNotification::CancelRequest.method(), notification::Cancel::METHOD);
    assert_eq!(ServerNotification::Progress.method(), notification::Progress::METHOD);
    assert_eq!(ServerNotification::all().len(), 17);
}

#[test]
fn client_requests_are_those_of_the_protocol() {
    assert_eq!(ClientRequest::WorkspaceFolders.method(), request::WorkspaceFoldersRequest::METHOD);
    assert_eq!(ClientRequest::Configuration.method(), request::WorkspaceConfiguration::METHOD);
    assert_eq!(
        ClientRequest::WorkDoneProgressCreate.method(),
        request::WorkDoneProgressCreate::METHOD
    );
    assert_eq!(
        ClientRequest::SemanticTokensRefresh.method(),
        request::SemanticTokensRefresh::METHOD
    );
    assert_eq!(ClientRequest::ShowDocument.method(), request::ShowDocument::METHOD);
    assert_eq!(
        ClientRequest::InlineValueRefresh.method(),
        request::InlineValueRefreshRequest::METHOD
    );
    assert_eq!(ClientRequest::InlayHintRefresh.method(), request::InlayHintRefreshRequest::METHOD);
    assert_eq!(
        ClientRequest::WorkspaceDiagnosticRefresh.method(),
        request::WorkspaceDiagnosticRefresh::METHOD
    );
    assert_eq!(ClientRequest::RegisterCapability.method(), request::RegisterCapability::METHOD);
    assert_eq!(ClientRequest::UnregisterCapability.method(), request::UnregisterCapability::METHOD);
    assert_eq!(ClientRequest::ShowMessageRequest.method(), request::ShowMessageRequest::METHOD);
    assert_eq!(ClientRequest::CodeLensRefresh.method(), request::CodeLensRefresh::METHOD);
    assert_eq!(ClientRequest::ApplyEdit.method(), request::ApplyWorkspaceEdit::METHOD);
    assert_eq!(ClientRequest::all().len(), 13);
}

#[test]
fn client_notifications_are_those_of_the_protocol() {
    assert_eq!(ClientNotification::ShowMessage.method(), notification::ShowMessage::METHOD);
    assert_eq!(ClientNotification::LogMessage.method(), notification::LogMessage::METHOD);
    assert_eq!(ClientNotification::TelemetryEvent.method(), notification::TelemetryEvent::METHOD);
    assert_eq!(
        ClientNotification::PublishDiagnostics.method(),
        notification::PublishDiagnostics::METHOD
    );
    assert_eq!(ClientNotification::LogTrace.method(), notification::LogTrace::METHOD);
    assert_eq!(ClientNotification::CancelRequest.method(), notification::Cancel::METHOD);
    assert_eq!(ClientNotification::Progress.method(), notification::Progress::METHOD);
    assert_eq!(ClientNotification::all().len(), 7);
}

fn distinct<M: StandardMethod>() {
    let names: Vec<&str> = M::all().into_iter().map(|m| m.method()).collect();
    let set: HashSet<&str> = names.iter().copied().collect();
    assert_eq!(set.len(), names.len());
}

#[test]
fn no_two_standard_methods_have_the_same_name() {
    distinct::<ServerRequest>();
    distinct::<ServerNotification>();
    distinct::<ClientRequest>();
    distinct::<ClientNotification>();
}

#[test]
fn a_server_router_handles_every_standard_method() {
    let on_request = |m: ServerRequest| -> OnRequest { Box::new(move |_, _| format!("{:?}", m)) };
    let on_notification = |m: ServerNotification| -> OnNotification {
        Box::new(move |seen, _| {
            seen.push(format!("{:?}", m));
            ControlFlow::Continue(())
        })
    };
    let mut r = TestRouter::from_language_server(Vec::new(), &on_request, &on_notification);
    for m in ServerRequest::all() {
        let req = AnyRequest {
            id: RequestId::Number(0),
            method: m.method().to_string(),
            params: serde_json::Value::Null,
        };
        match r.call(req) {
            Answer::Handler(name) => assert_eq!(name, format!("{:?}", m)),
            Answer::Refused(_) => panic!("refused"),
        }
    }
    for m in ServerNotification::all() {
        let notif = AnyNotification {
            method: m.method().to_string(),
            params: serde_json::Value::Null,
        };
        assert!(matches!(r.notify(notif), ControlFlow::Continue(())));
    }
    let notif = AnyNotification {
        method: "window/logMessage".to_string(),
        params: serde_json::Value::Null,
    };
    assert!(matches!(r.notify(notif), ControlFlow::Break(Err(Error::Routing(_)))));
}

#[test]
fn a_client_router_handles_every_standard_method() {
    let on_request = |m: ClientRequest| -> OnRequest { Box::new(move |_, _| format!("{:?}", m)) };
    let on_notification =
        |_: ClientNotification| -> OnNotification { Box::new(|_, _| ControlFlow::Break(Ok(()))) };
    let mut r = TestRouter::from_language_client(Vec::new(), &on_request, &on_notification);
    for m in ClientRequest::all() {
        let req = AnyRequest {
            id: RequestId::Number(0),
            method: m.method().to_string(),
            params: serde_json::Value::Null,
        };
        match r.call(req) {
            Answer::Handler(name) => assert_eq!(name, format!("{:?}", m)),
            Answer::Refused(_) => panic!("refused"),
        }
    }
    for m in ClientNotification::all() {
        let notif = AnyNotification {
            method: m.method().to_string(),
            params: serde_json::Value::Null,
        };
        assert!(matches!(r.notify(notif), ControlFlow::Break(Ok(()))));
    }
    let req = AnyRequest {
        id: RequestId::Number(0),
        method: "initialize".to_string(),
        params: serde_json::Value::Null,
    };
    assert!(matches!(r.call(req), Answer::Refused(_)));
}

#[test]
fn unimplemented_requests_are_answered() {
    let e = method_not_found("a/b");
    assert_eq!(e.code, ErrorCode(-32601));
    assert_eq!(e.message, "No such method: a/b");
    assert!(ServerRequest::Shutdown.unimplemented().is_ok());
    let e = ServerRequest::Hover.unimplemented().unwrap_err();
    assert_eq!(e.message, "No such method: textDocument/hover");
    assert_eq!(
        ClientRequest::ApplyEdit.unimplemented().message,
        "No such method: workspace/applyEdit"
    );
}

#[test]
fn unimplemented_notifications_fall_back() {
    for method in ["$/progress", "exit", "initialized"] {
        assert!(matches!(fallback(method), ControlFlow::Continue(())));
    }
    match fallback("textDocument/didOpen") {
        ControlFlow::Break(Err(Error::Routing(text))) => {
            assert_eq!(text, "Unhandled notification: textDocument/didOpen")
        }
        _ => panic!("ignored"),
    }
}
