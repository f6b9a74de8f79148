//! The standard requests and notifications, and routers for all of them.
use core::ops::ControlFlow;
use vstd::prelude::*;

use crate::error::{Error, ErrorCode, ResponseError};
use crate::router::{handler_of, Router};
use crate::service::{goes_on, Flow};
use crate::text::{is_optional_method, joined, optional_method, same_text};

verus! {

/// A family of standard methods.
pub trait StandardMethod: Copy {
    /// The name of the method.
    spec fn name(self) -> Seq<char>;

    /// The place of the method among the others.
    spec fn ordinal(self) -> int;

    /// How many methods there are.
    spec fn how_many() -> int;

    /// No two methods have the same name.
    proof fn lemma_distinct(self, other: Self)
        ensures
            self.name() == other.name() ==> self == other,
    ;

    /// The name of the method.
    fn method(self) -> (r: &'static str)
        ensures
            r@ == self.name(),
    ;

    /// All the methods, each in its place.
    fn all() -> (r: Vec<Self>)
        ensures
            r@.len() == Self::how_many(),
            forall|i: int| 0 <= i < r@.len() ==> (#[trigger] r@[i]).ordinal() == i,
            forall|m: Self| 0 <= #[trigger] m.ordinal() < r@.len() && r@[m.ordinal()] == m,
    ;
}

/// The character at a distance from the end of a text, or zero if the text is too short.
spec fn from_end(s: Seq<char>, k: int) -> int {
    if k < s.len() {
        s[s.len() - 1 - k] as int
    } else {
        0
    }
}

/// A number by which the names of standard methods can be told apart.
spec fn fingerprint(s: Seq<char>) -> int {
    s.len() + 100 * from_end(s, 0) + 100_000 * from_end(s, 5) + 100_000_000 * from_end(s, 10)
}

/// The standard requests of a Language Client to a Language Server.
#[derive(Clone, Copy, Debug, PartialEq, Eq, Structural)]
pub enum ServerRequest {
    /// `initialize`
    Initialize,
    /// `shutdown`
    Shutdown,
    /// `textDocument/implementation`
    Implementation,
    /// `textDocument/typeDefinition`
    TypeDefinition,
    /// `textDocument/documentColor`
    DocumentColor,
    /// `textDocument/colorPresentation`
    ColorPresentation,
    /// `textDocument/foldingRange`
    FoldingRange,
    /// `textDocument/declaration`
    Declaration,
    /// `textDocument/selectionRange`
    SelectionRange,
    /// `textDocument/prepareCallHierarchy`
    PrepareCallHierarchy,
    /// `callHierarchy/incomingCalls`
    IncomingCalls,
    /// `callHierarchy/outgoingCalls`
    OutgoingCalls,
    /// `textDocument/semanticTokens/full`
    SemanticTokensFull,
    /// `textDocument/semanticTokens/full/delta`
    SemanticTokensFullDelta,
    /// `textDocument/semanticTokens/range`
    SemanticTokensRange,
    /// `textDocument/linkedEditingRange`
    LinkedEditingRange,
    /// `workspace/willCreateFiles`
    WillCreateFiles,
    /// `workspace/willRenameFiles`
    WillRenameFiles,
    /// `workspace/willDeleteFiles`
    WillDeleteFiles,
    /// `textDocument/moniker`
    Moniker,
    /// `textDocument/prepareTypeHierarchy`
    PrepareTypeHierarchy,
    /// `typeHierarchy/supertypes`
    Supertypes,
    /// `typeHierarchy/subtypes`
    Subtypes,
    /// `textDocument/inlineValue`
    InlineValue,
    /// `textDocument/inlayHint`
    InlayHint,
    /// `inlayHint/resolve`
    InlayHintResolve,
    /// `textDocument/diagnostic`
    DocumentDiagnostic,
    /// `workspace/diagnostic`
    WorkspaceDiagnostic,
    /// `textDocument/willSaveWaitUntil`
    WillSaveWaitUntil,
    /// `textDocument/completion`
    Completion,
    /// `completionItem/resolve`
    CompletionItemResolve,
    /// `textDocument/hover`
    Hover,
    /// `textDocument/signatureHelp`
    SignatureHelp,
    /// `textDocument/definition`
    Definition,
    /// `textDocument/references`
    References,
    /// `textDocument/documentHighlight`
    DocumentHighlight,
    /// `textDocument/documentSymbol`
    DocumentSymbol,
    /// `textDocument/codeAction`
    CodeAction,
    /// `codeAction/resolve`
    CodeActionResolve,
    /// `workspace/symbol`
    Symbol,
    /// `workspaceSymbol/resolve`
    WorkspaceSymbolResolve,
    /// `textDocument/codeLens`
    CodeLens,
    /// `codeLens/resolve`
    CodeLensResolve,
    /// `textDocument/documentLink`
    DocumentLink,
    /// `documentLink/resolve`
    DocumentLinkResolve,
    /// `textDocument/formatting`
    Formatting,
    /// `textDocument/rangeFormatting`
    RangeFormatting,
    /// `textDocument/onTypeFormatting`
    OnTypeFormatting,
    /// `textDocument/rename`
    Rename,
    /// `textDocument/prepareRename`
    PrepareRename,
    /// `workspace/executeCommand`
    ExecuteCommand,
}

/// The method of a fingerprint.
spec fn server_request_of(print: int) -> ServerRequest {
    if print == 10510110 {
        ServerRequest::Initialize
    } else if print == 11711008 {
        ServerRequest::Shutdown
    } else if print == 10811611027 {
        ServerRequest::Implementation
    } else if print == 10111011027 {
        ServerRequest::TypeDefinition
    } else if print == 9911611426 {
        ServerRequest::DocumentColor
    } else if print == 11411611030 {
        ServerRequest::ColorPresentation
    } else if print == 11110310125 {
        ServerRequest::FoldingRange
    } else if print == 10011411024 {
        ServerRequest::Declaration
    } else if print == 10111010127 {
        ServerRequest::SelectionRange
    } else if print == 10811412133 {
        ServerRequest::PrepareCallHierarchy
    } else if print == 9910311527 {
        ServerRequest::IncomingCalls
    } else if print == 11610311527 {
        ServerRequest::OutgoingCalls
    } else if print == 8411510832 {
        ServerRequest::SemanticTokensFull
    } else if print == 4704709738 {
        ServerRequest::SemanticTokensFullDelta
    } else if print == 11104710133 {
        ServerRequest::SemanticTokensRange
    } else if print == 10010310131 {
        ServerRequest::LinkedEditingRange
    } else if print == 6710111525 {
        ServerRequest::WillCreateFiles
    } else if print == 8210111525 {
        ServerRequest::WillRenameFiles
    } else if print == 6810111525 {
        ServerRequest::WillDeleteFiles
    } else if print == 10111111420 {
        ServerRequest::Moniker
    } else if print == 11211412133 {
        ServerRequest::PrepareTypeHierarchy
    } else if print == 4711411524 {
        ServerRequest::Supertypes
    } else if print == 10409811522 {
        ServerRequest::Subtypes
    } else if print == 10510110124 {
        ServerRequest::InlineValue
    } else if print == 11609711622 {
        ServerRequest::InlayHint
    } else if print == 10510110117 {
        ServerRequest::InlayHintResolve
    } else if print == 4711009923 {
        ServerRequest::DocumentDiagnostic
    } else if print == 4711009920 {
        ServerRequest::WorkspaceDiagnostic
    } else if print == 11811610830 {
        ServerRequest::WillSaveWaitUntil
    } else if print == 4710811023 {
        ServerRequest::Completion
    } else if print == 11610110122 {
        ServerRequest::CompletionItemResolve
    } else if print == 11704711418 {
        ServerRequest::Hover
    } else if print == 10311411226 {
        ServerRequest::SignatureHelp
    } else if print == 4711011023 {
        ServerRequest::Definition
    } else if print == 4711411523 {
        ServerRequest::References
    } else if print == 11010411630 {
        ServerRequest::DocumentHighlight
    } else if print == 11708310827 {
        ServerRequest::DocumentSymbol
    } else if print == 4706511023 {
        ServerRequest::CodeAction
    } else if print == 10510110118 {
        ServerRequest::CodeActionResolve
    } else if print == 11211510816 {
        ServerRequest::Symbol
    } else if print == 9810110123 {
        ServerRequest::WorkspaceSymbolResolve
    } else if print == 11010011521 {
        ServerRequest::CodeLens
    } else if print == 10110110116 {
        ServerRequest::CodeLensResolve
    } else if print == 11111010725 {
        ServerRequest::DocumentLink
    } else if print == 10510110120 {
        ServerRequest::DocumentLinkResolve
    } else if print == 4709710323 {
        ServerRequest::Formatting
    } else if print == 10109710328 {
        ServerRequest::RangeFormatting
    } else if print == 10109710329 {
        ServerRequest::OnTypeFormatting
    } else if print == 10911410119 {
        ServerRequest::Rename
    } else if print == 10108210126 {
        ServerRequest::PrepareRename
    } else {
        ServerRequest::ExecuteCommand
    }
}

impl ServerRequest {
    /// A method is found again by the fingerprint of its name.
    proof fn lemma_print(self)
        ensures
            server_request_of(fingerprint(self.name())) == self,
    {
        match self {
            ServerRequest::Initialize => {
                reveal_strlit("initialize");
                assert(fingerprint("initialize"@) == 10510110);
            },
            ServerRequest::Shutdown => {
                reveal_strlit("shutdown");
                assert(fingerprint("shutdown"@) == 11711008);
            },
            ServerRequest::Implementation => {
                reveal_strlit("textDocument/implementation");
                assert(fingerprint("textDocument/implementation"@) == 10811611027);
            },
            ServerRequest::TypeDefinition => {
                reveal_strlit("textDocument/typeDefinition");
                assert(fingerprint("textDocument/typeDefinition"@) == 10111011027);
            },
            ServerRequest::DocumentColor => {
                reveal_strlit("textDocument/documentColor");
                assert(fingerprint("textDocument/documentColor"@) == 9911611426);
            },
            ServerRequest::ColorPresentation => {
                reveal_strlit("textDocument/colorPresentation");
                assert(fingerprint("textDocument/colorPresentation"@) == 11411611030);
            },
            ServerRequest::FoldingRange => {
                reveal_strlit("textDocument/foldingRange");
                assert(fingerprint("textDocument/foldingRange"@) == 11110310125);
            },
            ServerRequest::Declaration => {
                reveal_strlit("textDocument/declaration");
                assert(fingerprint("textDocument/declaration"@) == 10011411024);
            },
            ServerRequest::SelectionRange => {
                reveal_strlit("textDocument/selectionRange");
                assert(fingerprint("textDocument/selectionRange"@) == 10111010127);
            },
            ServerRequest::PrepareCallHierarchy => {
                reveal_strlit("textDocument/prepareCallHierarchy");
                assert(fingerprint("textDocument/prepareCallHierarchy"@) == 10811412133);
            },
            ServerRequest::IncomingCalls => {
                reveal_strlit("callHierarchy/incomingCalls");
                assert(fingerprint("callHierarchy/incomingCalls"@) == 9910311527);
            },
            ServerRequest::OutgoingCalls => {
                reveal_strlit("callHierarchy/outgoingCalls");
                assert(fingerprint("callHierarchy/outgoingCalls"@) == 11610311527);
            },
            ServerRequest::SemanticTokensFull => {
                reveal_strlit("textDocument/semanticTokens/full");
                assert(fingerprint("textDocument/semanticTokens/full"@) == 8411510832);
            },
            ServerRequest::SemanticTokensFullDelta => {
                reveal_strlit("textDocument/semanticTokens/full/delta");
                assert(fingerprint("textDocument/semanticTokens/full/delta"@) == 4704709738);
            },
            ServerRequest::SemanticTokensRange => {
                reveal_strlit("textDocument/semanticTokens/range");
                assert(fingerprint("textDocument/semanticTokens/range"@) == 11104710133);
            },
            ServerRequest::LinkedEditingRange => {
                reveal_strlit("textDocument/linkedEditingRange");
                assert(fingerprint("textDocument/linkedEditingRange"@) == 10010310131);
            },
            ServerRequest::WillCreateFiles => {
                reveal_strlit("workspace/willCreateFiles");
                assert(fingerprint("workspace/willCreateFiles"@) == 6710111525);
            },
            ServerRequest::WillRenameFiles => {
                reveal_strlit("workspace/willRenameFiles");
                assert(fingerprint("workspace/willRenameFiles"@) == 8210111525);
            },
            ServerRequest::WillDeleteFiles => {
                reveal_strlit("workspace/willDeleteFiles");
                assert(fingerprint("workspace/willDeleteFiles"@) == 6810111525);
            },
            ServerRequest::Moniker => {
                reveal_strlit("textDocument/moniker");
                assert(fingerprint("textDocument/moniker"@) == 10111111420);
            },
            ServerRequest::PrepareTypeHierarchy => {
                reveal_strlit("textDocument/prepareTypeHierarchy");
                assert(fingerprint("textDocument/prepareTypeHierarchy"@) == 11211412133);
            },
            ServerRequest::Supertypes => {
                reveal_strlit("typeHierarchy/supertypes");
                assert(fingerprint("typeHierarchy/supertypes"@) == 4711411524);
            },
            ServerRequest::Subtypes => {
                reveal_strlit("typeHierarchy/subtypes");
                assert(fingerprint("typeHierarchy/subtypes"@) == 10409811522);
            },
            ServerRequest::InlineValue => {
                reveal_strlit("textDocument/inlineValue");
                assert(fingerprint("textDocument/inlineValue"@) == 10510110124);
            },
            ServerRequest::InlayHint => {
                reveal_strlit("textDocument/inlayHint");
                assert(fingerprint("textDocument/inlayHint"@) == 11609711622);
            },
            ServerRequest::InlayHintResolve => {
                reveal_strlit("inlayHint/resolve");
                assert(fingerprint("inlayHint/resolve"@) == 10510110117);
            },
            ServerRequest::DocumentDiagnostic => {
                reveal_strlit("textDocument/diagnostic");
                assert(fingerprint("textDocument/diagnostic"@) == 4711009923);
            },
            ServerRequest::WorkspaceDiagnostic => {
                reveal_strlit("workspace/diagnostic");
                assert(fingerprint("workspace/diagnostic"@) == 4711009920);
            },
            ServerRequest::WillSaveWaitUntil => {
                reveal_strlit("textDocument/willSaveWaitUntil");
                assert(fingerprint("textDocument/willSaveWaitUntil"@) == 11811610830);
            },
            ServerRequest::Completion => {
                reveal_strlit("textDocument/completion");
                assert(fingerprint("textDocument/completion"@) == 4710811023);
            },
            ServerRequest::CompletionItemResolve => {
                reveal_strlit("completionItem/resolve");
                assert(fingerprint("completionItem/resolve"@) == 11610110122);
            },
            ServerRequest::Hover => {
                reveal_strlit("textDocument/hover");
                assert(fingerprint("textDocument/hover"@) == 11704711418);
            },
            ServerRequest::SignatureHelp => {
                reveal_strlit("textDocument/signatureHelp");
                assert(fingerprint("textDocument/signatureHelp"@) == 10311411226);
            },
            ServerRequest::Definition => {
                reveal_strlit("textDocument/definition");
                assert(fingerprint("textDocument/definition"@) == 4711011023);
            },
            ServerRequest::References => {
                reveal_strlit("textDocument/references");
                assert(fingerprint("textDocument/references"@) == 4711411523);
            },
            ServerRequest::DocumentHighlight => {
                reveal_strlit("textDocument/documentHighlight");
                assert(fingerprint("textDocument/documentHighlight"@) == 11010411630);
            },
            ServerRequest::DocumentSymbol => {
                reveal_strlit("textDocument/documentSymbol");
                assert(fingerprint("textDocument/documentSymbol"@) == 11708310827);
            },
            ServerRequest::CodeAction => {
                reveal_strlit("textDocument/codeAction");
                assert(fingerprint("textDocument/codeAction"@) == 4706511023);
            },
            ServerRequest::CodeActionResolve => {
                reveal_strlit("codeAction/resolve");
                assert(fingerprint("codeAction/resolve"@) == 10510110118);
            },
            ServerRequest::Symbol => {
                reveal_strlit("workspace/symbol");
                assert(fingerprint("workspace/symbol"@) == 11211510816);
            },
            ServerRequest::WorkspaceSymbolResolve => {
                reveal_strlit("workspaceSymbol/resolve");
                assert(fingerprint("workspaceSymbol/resolve"@) == 9810110123);
            },
            ServerRequest::CodeLens => {
                reveal_strlit("textDocument/codeLens");
                assert(fingerprint("textDocument/codeLens"@) == 11010011521);
            },
            ServerRequest::CodeLensResolve => {
                reveal_strlit("codeLens/resolve");
                assert(fingerprint("codeLens/resolve"@) == 10110110116);
            },
            ServerRequest::DocumentLink => {
                reveal_strlit("textDocument/documentLink");
                assert(fingerprint("textDocument/documentLink"@) == 11111010725);
            },
            ServerRequest::DocumentLinkResolve => {
                reveal_strlit("documentLink/resolve");
                assert(fingerprint("documentLink/resolve"@) == 10510110120);
            },
            ServerRequest::Formatting => {
                reveal_strlit("textDocument/formatting");
                assert(fingerprint("textDocument/formatting"@) == 4709710323);
            },
            ServerRequest::RangeFormatting => {
                reveal_strlit("textDocument/rangeFormatting");
                assert(fingerprint("textDocument/rangeFormatting"@) == 10109710328);
            },
            ServerRequest::OnTypeFormatting => {
                reveal_strlit("textDocument/onTypeFormatting");
                assert(fingerprint("textDocument/onTypeFormatting"@) == 10109710329);
            },
            ServerRequest::Rename => {
                reveal_strlit("textDocument/rename");
                assert(fingerprint("textDocument/rename"@) == 10911410119);
            },
            ServerRequest::PrepareRename => {
                reveal_strlit("textDocument/prepareRename");
                assert(fingerprint("textDocument/prepareRename"@) == 10108210126);
            },
            ServerRequest::ExecuteCommand => {
                reveal_strlit("workspace/executeCommand");
                assert(fingerprint("workspace/executeCommand"@) == 9911110024);
            },
        }
    }
}

impl StandardMethod for ServerRequest {
    open spec fn name(self) -> Seq<char> {
        match self {
            ServerRequest::Initialize => "initialize"@,
            ServerRequest::Shutdown => "shutdown"@,
            ServerRequest::Implementation => "textDocument/implementation"@,
            ServerRequest::TypeDefinition => "textDocument/typeDefinition"@,
            ServerRequest::DocumentColor => "textDocument/documentColor"@,
            ServerRequest::ColorPresentation => "textDocument/colorPresentation"@,
            ServerRequest::FoldingRange => "textDocument/foldingRange"@,
            ServerRequest::Declaration => "textDocument/declaration"@,
            ServerRequest::SelectionRange => "textDocument/selectionRange"@,
            ServerRequest::PrepareCallHierarchy => "textDocument/prepareCallHierarchy"@,
            ServerRequest::IncomingCalls => "callHierarchy/incomingCalls"@,
            ServerRequest::OutgoingCalls => "callHierarchy/outgoingCalls"@,
            ServerRequest::SemanticTokensFull => "textDocument/semanticTokens/full"@,
            ServerRequest::SemanticTokensFullDelta => "textDocument/semanticTokens/full/delta"@,
            ServerRequest::SemanticTokensRange => "textDocument/semanticTokens/range"@,
            ServerRequest::LinkedEditingRange => "textDocument/linkedEditingRange"@,
            ServerRequest::WillCreateFiles => "workspace/willCreateFiles"@,
            ServerRequest::WillRenameFiles => "workspace/willRenameFiles"@,
            ServerRequest::WillDeleteFiles => "workspace/willDeleteFiles"@,
            ServerRequest::Moniker => "textDocument/moniker"@,
            ServerRequest::PrepareTypeHierarchy => "textDocument/prepareTypeHierarchy"@,
            ServerRequest::Supertypes => "typeHierarchy/supertypes"@,
            ServerRequest::Subtypes => "typeHierarchy/subtypes"@,
            ServerRequest::InlineValue => "textDocument/inlineValue"@,
            ServerRequest::InlayHint => "textDocument/inlayHint"@,
            ServerRequest::InlayHintResolve => "inlayHint/resolve"@,
            ServerRequest::DocumentDiagnostic => "textDocument/diagnostic"@,
            ServerRequest::WorkspaceDiagnostic => "workspace/diagnostic"@,
            ServerRequest::WillSaveWaitUntil => "textDocument/willSaveWaitUntil"@,
            ServerRequest::Completion => "textDocument/completion"@,
            ServerRequest::CompletionItemResolve => "completionItem/resolve"@,
            ServerRequest::Hover => "textDocument/hover"@,
            ServerRequest::SignatureHelp => "textDocument/signatureHelp"@,
            ServerRequest::Definition => "textDocument/definition"@,
            ServerRequest::References => "textDocument/references"@,
            ServerRequest::DocumentHighlight => "textDocument/documentHighlight"@,
            ServerRequest::DocumentSymbol => "textDocument/documentSymbol"@,
            ServerRequest::CodeAction => "textDocument/codeAction"@,
            ServerRequest::CodeActionResolve => "codeAction/resolve"@,
            ServerRequest::Symbol => "workspace/symbol"@,
            ServerRequest::WorkspaceSymbolResolve => "workspaceSymbol/resolve"@,
            ServerRequest::CodeLens => "textDocument/codeLens"@,
            ServerRequest::CodeLensResolve => "codeLens/resolve"@,
            ServerRequest::DocumentLink => "textDocument/documentLink"@,
            ServerRequest::DocumentLinkResolve => "documentLink/resolve"@,
            ServerRequest::Formatting => "textDocument/formatting"@,
            ServerRequest::RangeFormatting => "textDocument/rangeFormatting"@,
            ServerRequest::OnTypeFormatting => "textDocument/onTypeFormatting"@,
            ServerRequest::Rename => "textDocument/rename"@,
            ServerRequest::PrepareRename => "textDocument/prepareRename"@,
            ServerRequest::ExecuteCommand => "workspace/executeCommand"@,
        }
    }

    open spec fn ordinal(self) -> int {
        match self {
            ServerRequest::Initialize => 0,
            ServerRequest::Shutdown => 1,
            ServerRequest::Implementation => 2,
            ServerRequest::TypeDefinition => 3,
            ServerRequest::DocumentColor => 4,
            ServerRequest::ColorPresentation => 5,
            ServerRequest::FoldingRange => 6,
            ServerRequest::Declaration => 7,
            ServerRequest::SelectionRange => 8,
            ServerRequest::PrepareCallHierarchy => 9,
            ServerRequest::IncomingCalls => 10,
            ServerRequest::OutgoingCalls => 11,
            ServerRequest::SemanticTokensFull => 12,
            ServerRequest::SemanticTokensFullDelta => 13,
            ServerRequest::SemanticTokensRange => 14,
            ServerRequest::LinkedEditingRange => 15,
            ServerRequest::WillCreateFiles => 16,
            ServerRequest::WillRenameFiles => 17,
            ServerRequest::WillDeleteFiles => 18,
            ServerRequest::Moniker => 19,
            ServerRequest::PrepareTypeHierarchy => 20,
            ServerRequest::Supertypes => 21,
            ServerRequest::Subtypes => 22,
            ServerRequest::InlineValue => 23,
            ServerRequest::InlayHint => 24,
            ServerRequest::InlayHintResolve => 25,
            ServerRequest::DocumentDiagnostic => 26,
            ServerRequest::WorkspaceDiagnostic => 27,
            ServerRequest::WillSaveWaitUntil => 28,
            ServerRequest::Completion => 29,
            ServerRequest::CompletionItemResolve => 30,
            ServerRequest::Hover => 31,
            ServerRequest::SignatureHelp => 32,
            ServerRequest::Definition => 33,
            ServerRequest::References => 34,
            ServerRequest::DocumentHighlight => 35,
            ServerRequest::DocumentSymbol => 36,
            ServerRequest::CodeAction => 37,
            ServerRequest::CodeActionResolve => 38,
            ServerRequest::Symbol => 39,
            ServerRequest::WorkspaceSymbolResolve => 40,
            ServerRequest::CodeLens => 41,
            ServerRequest::CodeLensResolve => 42,
            ServerRequest::DocumentLink => 43,
            ServerRequest::DocumentLinkResolve => 44,
            ServerRequest::Formatting => 45,
            ServerRequest::RangeFormatting => 46,
            ServerRequest::OnTypeFormatting => 47,
            ServerRequest::Rename => 48,
            ServerRequest::PrepareRename => 49,
            ServerRequest::ExecuteCommand => 50,
        }
    }

    open spec fn how_many() -> int {
        51
    }

    proof fn lemma_distinct(self, other: Self) {
        self.lemma_print();
        other.lemma_print();
    }

    fn method(self) -> (r: &'static str) {
        match self {
            ServerRequest::Initialize => "initialize",
            ServerRequest::Shutdown => "shutdown",
            ServerRequest::Implementation => "textDocument/implementation",
            ServerRequest::TypeDefinition => "textDocument/typeDefinition",
            ServerRequest::DocumentColor => "textDocument/documentColor",
            ServerRequest::ColorPresentation => "textDocument/colorPresentation",
            ServerRequest::FoldingRange => "textDocument/foldingRange",
            ServerRequest::Declaration => "textDocument/declaration",
            ServerRequest::SelectionRange => "textDocument/selectionRange",
            ServerRequest::PrepareCallHierarchy => "textDocument/prepareCallHierarchy",
            ServerRequest::IncomingCalls => "callHierarchy/incomingCalls",
            ServerRequest::OutgoingCalls => "callHierarchy/outgoingCalls",
            ServerRequest::SemanticTokensFull => "textDocument/semanticTokens/full",
            ServerRequest::SemanticTokensFullDelta => "textDocument/semanticTokens/full/delta",
            ServerRequest::SemanticTokensRange => "textDocument/semanticTokens/range",
            ServerRequest::LinkedEditingRange => "textDocument/linkedEditingRange",
            ServerRequest::WillCreateFiles => "workspace/willCreateFiles",
            ServerRequest::WillRenameFiles => "workspace/willRenameFiles",
            ServerRequest::WillDeleteFiles => "workspace/willDeleteFiles",
            ServerRequest::Moniker => "textDocument/moniker",
            ServerRequest::PrepareTypeHierarchy => "textDocument/prepareTypeHierarchy",
            ServerRequest::Supertypes => "typeHierarchy/supertypes",
            ServerRequest::Subtypes => "typeHierarchy/subtypes",
            ServerRequest::InlineValue => "textDocument/inlineValue",
            ServerRequest::InlayHint => "textDocument/inlayHint",
            ServerRequest::InlayHintResolve => "inlayHint/resolve",
            ServerRequest::DocumentDiagnostic => "textDocument/diagnostic",
            ServerRequest::WorkspaceDiagnostic => "workspace/diagnostic",
            ServerRequest::WillSaveWaitUntil => "textDocument/willSaveWaitUntil",
            ServerRequest::Completion => "textDocument/completion",
            ServerRequest::CompletionItemResolve => "completionItem/resolve",
            ServerRequest::Hover => "textDocument/hover",
            ServerRequest::SignatureHelp => "textDocument/signatureHelp",
            ServerRequest::Definition => "textDocument/definition",
            ServerRequest::References => "textDocument/references",
            ServerRequest::DocumentHighlight => "textDocument/documentHighlight",
            ServerRequest::DocumentSymbol => "textDocument/documentSymbol",
            ServerRequest::CodeAction => "textDocument/codeAction",
            ServerRequest::CodeActionResolve => "codeAction/resolve",
            ServerRequest::Symbol => "workspace/symbol",
            ServerRequest::WorkspaceSymbolResolve => "workspaceSymbol/resolve",
            ServerRequest::CodeLens => "textDocument/codeLens",
            ServerRequest::CodeLensResolve => "codeLens/resolve",
            ServerRequest::DocumentLink => "textDocument/documentLink",
            ServerRequest::DocumentLinkResolve => "documentLink/resolve",
            ServerRequest::Formatting => "textDocument/formatting",
            ServerRequest::RangeFormatting => "textDocument/rangeFormatting",
            ServerRequest::OnTypeFormatting => "textDocument/onTypeFormatting",
            ServerRequest::Rename => "textDocument/rename",
            ServerRequest::PrepareRename => "textDocument/prepareRename",
            ServerRequest::ExecuteCommand => "workspace/executeCommand",
        }
    }

    fn all() -> (r: Vec<Self>) {
        vec![
            ServerRequest::Initialize,
            ServerRequest::Shutdown,
            ServerRequest::Implementation,
            ServerRequest::TypeDefinition,
            ServerRequest::DocumentColor,
            ServerRequest::ColorPresentation,
            ServerRequest::FoldingRange,
            ServerRequest::Declaration,
            ServerRequest::SelectionRange,
            ServerRequest::PrepareCallHierarchy,
            ServerRequest::IncomingCalls,
            ServerRequest::OutgoingCalls,
            ServerRequest::SemanticTokensFull,
            ServerRequest::SemanticTokensFullDelta,
            ServerRequest::SemanticTokensRange,
            ServerRequest::LinkedEditingRange,
            ServerRequest::WillCreateFiles,
            ServerRequest::WillRenameFiles,
            ServerRequest::WillDeleteFiles,
            ServerRequest::Moniker,
            ServerRequest::PrepareTypeHierarchy,
            ServerRequest::Supertypes,
            ServerRequest::Subtypes,
            ServerRequest::InlineValue,
            ServerRequest::InlayHint,
            ServerRequest::InlayHintResolve,
            ServerRequest::DocumentDiagnostic,
            ServerRequest::WorkspaceDiagnostic,
            ServerRequest::WillSaveWaitUntil,
            ServerRequest::Completion,
            ServerRequest::CompletionItemResolve,
            ServerRequest::Hover,
            ServerRequest::SignatureHelp,
            ServerRequest::Definition,
            ServerRequest::References,
            ServerRequest::DocumentHighlight,
            ServerRequest::DocumentSymbol,
            ServerRequest::CodeAction,
            ServerRequest::CodeActionResolve,
            ServerRequest::Symbol,
            ServerRequest::WorkspaceSymbolResolve,
            ServerRequest::CodeLens,
            ServerRequest::CodeLensResolve,
            ServerRequest::DocumentLink,
            ServerRequest::DocumentLinkResolve,
            ServerRequest::Formatting,
            ServerRequest::RangeFormatting,
            ServerRequest::OnTypeFormatting,
            ServerRequest::Rename,
            ServerRequest::PrepareRename,
            ServerRequest::ExecuteCommand,
        ]
    }
}

/// The standard notifications of a Language Client to a Language Server.
#[derive(Clone, Copy, Debug, PartialEq, Eq, Structural)]
pub enum ServerNotification {
    /// `initialized`
    Initialized,
    /// `exit`
    Exit,
    /// `workspace/didChangeWorkspaceFolders`
    DidChangeWorkspaceFolders,
    /// `window/workDoneProgress/cancel`
    WorkDoneProgressCancel,
    /// `workspace/didCreateFiles`
    DidCreateFiles,
    /// `workspace/didRenameFiles`
    DidRenameFiles,
    /// `workspace/didDeleteFiles`
    DidDeleteFiles,
    /// `workspace/didChangeConfiguration`
    DidChangeConfiguration,
    /// `textDocument/didOpen`
    DidOpen,
    /// `textDocument/didChange`
    DidChange,
    /// `textDocument/didClose`
    DidClose,
    /// `textDocument/didSave`
    DidSave,
    /// `textDocument/willSave`
    WillSave,
    /// `workspace/didChangeWatchedFiles`
    DidChangeWatchedFiles,
    /// `$/setTrace`
    SetTrace,
    /// `$/cancelRequest`
    CancelRequest,
    /// `$/progress`
    Progress,
}

/// The method of a fingerprint.
spec fn server_notification_of(print: int) -> ServerNotification {
    if print == 10509710011 {
        ServerNotification::Initialized
    } else if print == 11604 {
        ServerNotification::Exit
    } else if print == 11211111535 {
        ServerNotification::DidChangeWorkspaceFolders
    } else if print == 11409910830 {
        ServerNotification::WorkDoneProgressCancel
    } else if print == 6710111524 {
        ServerNotification::DidCreateFiles
    } else if print == 8210111524 {
        ServerNotification::DidRenameFiles
    } else if print == 6810111524 {
        ServerNotification::DidDeleteFiles
    } else if print == 11011411032 {
        ServerNotification::DidChangeConfiguration
    } else if print == 10110511020 {
        ServerNotification::DidOpen
    } else if print == 11606710122 {
        ServerNotification::DidChange
    } else if print == 11010010121 {
        ServerNotification::DidClose
    } else if print == 10110510120 {
        ServerNotification::DidSave
    } else if print == 11010810121 {
        ServerNotification::WillSave
    } else if print == 9710011531 {
        ServerNotification::DidChangeWatchedFiles
    } else if print == 11610110 {
        ServerNotification::SetTrace
    } else if print == 11010111615 {
        ServerNotification::CancelRequest
    } else {
        ServerNotification::Progress
    }
}

impl ServerNotification {
    /// A method is found again by the fingerprint of its name.
    proof fn lemma_print(self)
        ensures
            server_notification_of(fingerprint(self.name())) == self,
    {
        match self {
            ServerNotification::Initialized => {
                reveal_strlit("initialized");
                assert(fingerprint("initialized"@) == 10509710011);
            },
            ServerNotification::Exit => {
                reveal_strlit("exit");
                assert(fingerprint("exit"@) == 11604);
            },
            ServerNotification::DidChangeWorkspaceFolders => {
                reveal_strlit("workspace/didChangeWorkspaceFolders");
                assert(fingerprint("workspace/didChangeWorkspaceFolders"@) == 11211111535);
            },
            ServerNotification::WorkDoneProgressCancel => {
                reveal_strlit("window/workDoneProgress/cancel");
                assert(fingerprint("window/workDoneProgress/cancel"@) == 11409910830);
            },
            ServerNotification::DidCreateFiles => {
                reveal_strlit("workspace/didCreateFiles");
                assert(fingerprint("workspace/didCreateFiles"@) == 6710111524);
            },
            ServerNotification::DidRenameFiles => {
                reveal_strlit("workspace/didRenameFiles");
                assert(fingerprint("workspace/didRenameFiles"@) == 8210111524);
            },
            ServerNotification::DidDeleteFiles => {
                reveal_strlit("workspace/didDeleteFiles");
                assert(fingerprint("workspace/didDeleteFiles"@) == 6810111524);
            },
            ServerNotification::DidChangeConfiguration => {
                reveal_strlit("workspace/didChangeConfiguration");
                assert(fingerprint("workspace/didChangeConfiguration"@) == 11011411032);
            },
            ServerNotification::DidOpen => {
                reveal_strlit("textDocument/didOpen");
                assert(fingerprint("textDocument/didOpen"@) == 10110511020);
            },
            ServerNotification::DidChange => {
                reveal_strlit("textDocument/didChange");
                assert(fingerprint("textDocument/didChange"@) == 11606710122);
            },
            ServerNotification::DidClose => {
                reveal_strlit("textDocument/didClose");
                assert(fingerprint("textDocument/didClose"@) == 11010010121);
            },
            ServerNotification::DidSave => {
                reveal_strlit("textDocument/didSave");
                assert(fingerprint("textDocument/didSave"@) == 10110510120);
            },
            ServerNotification::WillSave => {
                reveal_strlit("textDocument/willSave");
                assert(fingerprint("textDocument/willSave"@) == 11010810121);
            },
            ServerNotification::DidChangeWatchedFiles => {
                reveal_strlit("workspace/didChangeWatchedFiles");
                assert(fingerprint("workspace/didChangeWatchedFiles"@) == 9710011531);
            },
            ServerNotification::SetTrace => {
                reveal_strlit("$/setTrace");
                assert(fingerprint("$/setTrace"@) == 11610110);
            },
            ServerNotification::CancelRequest => {
                reveal_strlit("$/cancelRequest");
                assert(fingerprint("$/cancelRequest"@) == 11010111615);
            },
            ServerNotification::Progress => {
                reveal_strlit("$/progress");
                assert(fingerprint("$/progress"@) == 11111510);
            },
        }
    }
}

impl StandardMethod for ServerNotification {
    open spec fn name(self) -> Seq<char> {
        match self {
            ServerNotification::Initialized => "initialized"@,
            ServerNotification::Exit => "exit"@,
            ServerNotification::DidChangeWorkspaceFolders => "workspace/didChangeWorkspaceFolders"@,
            ServerNotification::WorkDoneProgressCancel => "window/workDoneProgress/cancel"@,
            ServerNotification::DidCreateFiles => "workspace/didCreateFiles"@,
            ServerNotification::DidRenameFiles => "workspace/didRenameFiles"@,
            ServerNotification::DidDeleteFiles => "workspace/didDeleteFiles"@,
            ServerNotification::DidChangeConfiguration => "workspace/didChangeConfiguration"@,
            ServerNotification::DidOpen => "textDocument/didOpen"@,
            ServerNotification::DidChange => "textDocument/didChange"@,
            ServerNotification::DidClose => "textDocument/didClose"@,
            ServerNotification::DidSave => "textDocument/didSave"@,
            ServerNotification::WillSave => "textDocument/willSave"@,
            ServerNotification::DidChangeWatchedFiles => "workspace/didChangeWatchedFiles"@,
            ServerNotification::SetTrace => "$/setTrace"@,
            ServerNotification::CancelRequest => "$/cancelRequest"@,
            ServerNotification::Progress => "$/progress"@,
        }
    }

    open spec fn ordinal(self) -> int {
        match self {
            ServerNotification::Initialized => 0,
            ServerNotification::Exit => 1,
            ServerNotification::DidChangeWorkspaceFolders => 2,
            ServerNotification::WorkDoneProgressCancel => 3,
            ServerNotification::DidCreateFiles => 4,
            ServerNotification::DidRenameFiles => 5,
            ServerNotification::DidDeleteFiles => 6,
            ServerNotification::DidChangeConfiguration => 7,
            ServerNotification::DidOpen => 8,
            ServerNotification::DidChange => 9,
            ServerNotification::DidClose => 10,
            ServerNotification::DidSave => 11,
            ServerNotification::WillSave => 12,
            ServerNotification::DidChangeWatchedFiles => 13,
            ServerNotification::SetTrace => 14,
            ServerNotification::CancelRequest => 15,
            ServerNotification::Progress => 16,
        }
    }

    open spec fn how_many() -> int {
        17
    }

    proof fn lemma_distinct(self, other: Self) {
        self.lemma_print();
        other.lemma_print();
    }

    fn method(self) -> (r: &'static str) {
        match self {
            ServerNotification::Initialized => "initialized",
            ServerNotification::Exit => "exit",
            ServerNotification::DidChangeWorkspaceFolders => "workspace/didChangeWorkspaceFolders",
            ServerNotification::WorkDoneProgressCancel => "window/workDoneProgress/cancel",
            ServerNotification::DidCreateFiles => "workspace/didCreateFiles",
            ServerNotification::DidRenameFiles => "workspace/didRenameFiles",
            ServerNotification::DidDeleteFiles => "workspace/didDeleteFiles",
            ServerNotification::DidChangeConfiguration => "workspace/didChangeConfiguration",
            ServerNotification::DidOpen => "textDocument/didOpen",
            ServerNotification::DidChange => "textDocument/didChange",
            ServerNotification::DidClose => "textDocument/didClose",
            ServerNotification::DidSave => "textDocument/didSave",
            ServerNotification::WillSave => "textDocument/willSave",
            ServerNotification::DidChangeWatchedFiles => "workspace/didChangeWatchedFiles",
            ServerNotification::SetTrace => "$/setTrace",
            ServerNotification::CancelRequest => "$/cancelRequest",
            ServerNotification::Progress => "$/progress",
        }
    }

    fn all() -> (r: Vec<Self>) {
        vec![
            ServerNotification::Initialized,
            ServerNotification::Exit,
            ServerNotification::DidChangeWorkspaceFolders,
            ServerNotification::WorkDoneProgressCancel,
            ServerNotification::DidCreateFiles,
            ServerNotification::DidRenameFiles,
            ServerNotification::DidDeleteFiles,
            ServerNotification::DidChangeConfiguration,
            ServerNotification::DidOpen,
            ServerNotification::DidChange,
            ServerNotification::DidClose,
            ServerNotification::DidSave,
            ServerNotification::WillSave,
            ServerNotification::DidChangeWatchedFiles,
            ServerNotification::SetTrace,
            ServerNotification::CancelRequest,
            ServerNotification::Progress,
        ]
    }
}

/// The standard requests of a Language Server to a Language Client.
#[derive(Clone, Copy, Debug, PartialEq, Eq, Structural)]
pub enum ClientRequest {
    /// `workspace/workspaceFolders`
    WorkspaceFolders,
    /// `workspace/configuration`
    Configuration,
    /// `window/workDoneProgress/create`
    WorkDoneProgressCreate,
    /// `workspace/semanticTokens/refresh`
    SemanticTokensRefresh,
    /// `window/showDocument`
    ShowDocument,
    /// `workspace/inlineValue/refresh`
    InlineValueRefresh,
    /// `workspace/inlayHint/refresh`
    InlayHintRefresh,
    /// `workspace/diagnostic/refresh`
    WorkspaceDiagnosticRefresh,
    /// `client/registerCapability`
    RegisterCapability,
    /// `client/unregisterCapability`
    UnregisterCapability,
    /// `window/showMessageRequest`
    ShowMessageRequest,
    /// `workspace/codeLens/refresh`
    CodeLensRefresh,
    /// `workspace/applyEdit`
    ApplyEdit,
}

/// The method of a fingerprint.
spec fn client_request_of(print: int) -> ClientRequest {
    if print == 11211111526 {
        ClientRequest::WorkspaceFolders
    } else if print == 11011411023 {
        ClientRequest::Configuration
    } else if print == 11409910130 {
        ClientRequest::WorkDoneProgressCreate
    } else if print == 10110110432 {
        ClientRequest::SemanticTokensRefresh
    } else if print == 10409911619 {
        ClientRequest::ShowDocument
    } else if print == 10810110429 {
        ClientRequest::InlineValueRefresh
    } else if print == 10510110427 {
        ClientRequest::InlayHintRefresh
    } else if print == 11610110428 {
        ClientRequest::WorkspaceDiagnosticRefresh
    } else if print == 11409812125 {
        ClientRequest::RegisterCapability
    } else if print == 11409812127 {
        ClientRequest::UnregisterCapability
    } else if print == 11510111625 {
        ClientRequest::ShowMessageRequest
    } else if print == 10110110426 {
        ClientRequest::CodeLensRefresh
    } else {
        ClientRequest::ApplyEdit
    }
}

impl ClientRequest {
    /// A method is found again by the fingerprint of its name.
    proof fn lemma_print(self)
        ensures
            client_request_of(fingerprint(self.name())) == self,
    {
        match self {
            ClientRequest::WorkspaceFolders => {
                reveal_strlit("workspace/workspaceFolders");
                assert(fingerprint("workspace/workspaceFolders"@) == 11211111526);
            },
            ClientRequest::Configuration => {
                reveal_strlit("workspace/configuration");
                assert(fingerprint("workspace/configuration"@) == 11011411023);
            },
            ClientRequest::WorkDoneProgressCreate => {
                reveal_strlit("window/workDoneProgress/create");
                assert(fingerprint("window/workDoneProgress/create"@) == 11409910130);
            },
            ClientRequest::SemanticTokensRefresh => {
                reveal_strlit("workspace/semanticTokens/refresh");
                assert(fingerprint("workspace/semanticTokens/refresh"@) == 10110110432);
            },
            ClientRequest::ShowDocument => {
                reveal_strlit("window/showDocument");
                assert(fingerprint("window/showDocument"@) == 10409911619);
            },
            ClientRequest::InlineValueRefresh => {
                reveal_strlit("workspace/inlineValue/refresh");
                assert(fingerprint("workspace/inlineValue/refresh"@) == 10810110429);
            },
            ClientRequest::InlayHintRefresh => {
                reveal_strlit("workspace/inlayHint/refresh");
                assert(fingerprint("workspace/inlayHint/refresh"@) == 10510110427);
            },
            ClientRequest::WorkspaceDiagnosticRefresh => {
                reveal_strlit("workspace/diagnostic/refresh");
                assert(fingerprint("workspace/diagnostic/refresh"@) == 11610110428);
            },
            ClientRequest::RegisterCapability => {
                reveal_strlit("client/registerCapability");
                assert(fingerprint("client/registerCapability"@) == 11409812125);
            },
            ClientRequest::UnregisterCapability => {
                reveal_strlit("client/unregisterCapability");
                assert(fingerprint("client/unregisterCapability"@) == 11409812127);
            },
            ClientRequest::ShowMessageRequest => {
                reveal_strlit("window/showMessageRequest");
                assert(fingerprint("window/showMessageRequest"@) == 11510111625);
            },
            ClientRequest::CodeLensRefresh => {
                reveal_strlit("workspace/codeLens/refresh");
                assert(fingerprint("workspace/codeLens/refresh"@) == 10110110426);
            },
            ClientRequest::ApplyEdit => {
                reveal_strlit("workspace/applyEdit");
                assert(fingerprint("workspace/applyEdit"@) == 10110811619);
            },
        }
    }
}

impl StandardMethod for ClientRequest {
    open spec fn name(self) -> Seq<char> {
        match self {
            ClientRequest::WorkspaceFolders => "workspace/workspaceFolders"@,
            ClientRequest::Configuration => "workspace/configuration"@,
            ClientRequest::WorkDoneProgressCreate => "window/workDoneProgress/create"@,
            ClientRequest::SemanticTokensRefresh => "workspace/semanticTokens/refresh"@,
            ClientRequest::ShowDocument => "window/showDocument"@,
            ClientRequest::InlineValueRefresh => "workspace/inlineValue/refresh"@,
            ClientRequest::InlayHintRefresh => "workspace/inlayHint/refresh"@,
            ClientRequest::WorkspaceDiagnosticRefresh => "workspace/diagnostic/refresh"@,
            ClientRequest::RegisterCapability => "client/registerCapability"@,
            ClientRequest::UnregisterCapability => "client/unregisterCapability"@,
            ClientRequest::ShowMessageRequest => "window/showMessageRequest"@,
            ClientRequest::CodeLensRefresh => "workspace/codeLens/refresh"@,
            ClientRequest::ApplyEdit => "workspace/applyEdit"@,
        }
    }

    open spec fn ordinal(self) -> int {
        match self {
            ClientRequest::WorkspaceFolders => 0,
            ClientRequest::Configuration => 1,
            ClientRequest::WorkDoneProgressCreate => 2,
            ClientRequest::SemanticTokensRefresh => 3,
            ClientRequest::ShowDocument => 4,
            ClientRequest::InlineValueRefresh => 5,
            ClientRequest::InlayHintRefresh => 6,
            ClientRequest::WorkspaceDiagnosticRefresh => 7,
            ClientRequest::RegisterCapability => 8,
            ClientRequest::UnregisterCapability => 9,
            ClientRequest::ShowMessageRequest => 10,
            ClientRequest::CodeLensRefresh => 11,
            ClientRequest::ApplyEdit => 12,
        }
    }

    open spec fn how_many() -> int {
        13
    }

    proof fn lemma_distinct(self, other: Self) {
        self.lemma_print();
        other.lemma_print();
    }

    fn method(self) -> (r: &'static str) {
        match self {
            ClientRequest::WorkspaceFolders => "workspace/workspaceFolders",
            ClientRequest::Configuration => "workspace/configuration",
            ClientRequest::WorkDoneProgressCreate => "window/workDoneProgress/create",
            ClientRequest::SemanticTokensRefresh => "workspace/semanticTokens/refresh",
            ClientRequest::ShowDocument => "window/showDocument",
            ClientRequest::InlineValueRefresh => "workspace/inlineValue/refresh",
            ClientRequest::InlayHintRefresh => "workspace/inlayHint/refresh",
            ClientRequest::WorkspaceDiagnosticRefresh => "workspace/diagnostic/refresh",
            ClientRequest::RegisterCapability => "client/registerCapability",
            ClientRequest::UnregisterCapability => "client/unregisterCapability",
            ClientRequest::ShowMessageRequest => "window/showMessageRequest",
            ClientRequest::CodeLensRefresh => "workspace/codeLens/refresh",
            ClientRequest::ApplyEdit => "workspace/applyEdit",
        }
    }

    fn all() -> (r: Vec<Self>) {
        vec![
            ClientRequest::WorkspaceFolders,
            ClientRequest::Configuration,
            ClientRequest::WorkDoneProgressCreate,
            ClientRequest::SemanticTokensRefresh,
            ClientRequest::ShowDocument,
            ClientRequest::InlineValueRefresh,
            ClientRequest::InlayHintRefresh,
            ClientRequest::WorkspaceDiagnosticRefresh,
            ClientRequest::RegisterCapability,
            ClientRequest::UnregisterCapability,
            ClientRequest::ShowMessageRequest,
            ClientRequest::CodeLensRefresh,
            ClientRequest::ApplyEdit,
        ]
    }
}

/// The standard notifications of a Language Server to a Language Client.
#[derive(Clone, Copy, Debug, PartialEq, Eq, Structural)]
pub enum ClientNotification {
    /// `window/showMessage`
    ShowMessage,
    /// `window/logMessage`
    LogMessage,
    /// `telemetry/event`
    TelemetryEvent,
    /// `textDocument/publishDiagnostics`
    PublishDiagnostics,
    /// `$/logTrace`
    LogTrace,
    /// `$/cancelRequest`
    CancelRequest,
    /// `$/progress`
    Progress,
}

/// The method of a fingerprint.
spec fn client_notification_of(print: int) -> ClientNotification {
    if print == 11510110118 {
        ClientNotification::ShowMessage
    } else if print == 4710110117 {
        ClientNotification::LogMessage
    } else if print == 10904711615 {
        ClientNotification::TelemetryEvent
    } else if print == 6811111531 {
        ClientNotification::PublishDiagnostics
    } else if print == 10310110 {
        ClientNotification::LogTrace
    } else if print == 11010111615 {
        ClientNotification::CancelRequest
    } else {
        ClientNotification::Progress
    }
}

impl ClientNotification {
    /// A method is found again by the fingerprint of its name.
    proof fn lemma_print(self)
        ensures
            client_notification_of(fingerprint(self.name())) == self,
    {
        match self {
            ClientNotification::ShowMessage => {
                reveal_strlit("window/showMessage");
                assert(fingerprint("window/showMessage"@) == 11510110118);
            },
            ClientNotification::LogMessage => {
                reveal_strlit("window/logMessage");
                assert(fingerprint("window/logMessage"@) == 4710110117);
            },
            ClientNotification::TelemetryEvent => {
                reveal_strlit("telemetry/event");
                assert(fingerprint("telemetry/event"@) == 10904711615);
            },
            ClientNotification::PublishDiagnostics => {
                reveal_strlit("textDocument/publishDiagnostics");
                assert(fingerprint("textDocument/publishDiagnostics"@) == 6811111531);
            },
            ClientNotification::LogTrace => {
                reveal_strlit("$/logTrace");
                assert(fingerprint("$/logTrace"@) == 10310110);
            },
            ClientNotification::CancelRequest => {
                reveal_strlit("$/cancelRequest");
                assert(fingerprint("$/cancelRequest"@) == 11010111615);
            },
            ClientNotification::Progress => {
                reveal_strlit("$/progress");
                assert(fingerprint("$/progress"@) == 11111510);
            },
        }
    }
}

impl StandardMethod for ClientNotification {
    open spec fn name(self) -> Seq<char> {
        match self {
            ClientNotification::ShowMessage => "window/showMessage"@,
            ClientNotification::LogMessage => "window/logMessage"@,
            ClientNotification::TelemetryEvent => "telemetry/event"@,
            ClientNotification::PublishDiagnostics => "textDocument/publishDiagnostics"@,
            ClientNotification::LogTrace => "$/logTrace"@,
            ClientNotification::CancelRequest => "$/cancelRequest"@,
            ClientNotification::Progress => "$/progress"@,
        }
    }

    open spec fn ordinal(self) -> int {
        match self {
            ClientNotification::ShowMessage => 0,
            ClientNotification::LogMessage => 1,
            ClientNotification::TelemetryEvent => 2,
            ClientNotification::PublishDiagnostics => 3,
            ClientNotification::LogTrace => 4,
            ClientNotification::CancelRequest => 5,
            ClientNotification::Progress => 6,
        }
    }

    open spec fn how_many() -> int {
        7
    }

    proof fn lemma_distinct(self, other: Self) {
        self.lemma_print();
        other.lemma_print();
    }

    fn method(self) -> (r: &'static str) {
        match self {
            ClientNotification::ShowMessage => "window/showMessage",
            ClientNotification::LogMessage => "window/logMessage",
            ClientNotification::TelemetryEvent => "telemetry/event",
            ClientNotification::PublishDiagnostics => "textDocument/publishDiagnostics",
            ClientNotification::LogTrace => "$/logTrace",
            ClientNotification::CancelRequest => "$/cancelRequest",
            ClientNotification::Progress => "$/progress",
        }
    }

    fn all() -> (r: Vec<Self>) {
        vec![
            ClientNotification::ShowMessage,
            ClientNotification::LogMessage,
            ClientNotification::TelemetryEvent,
            ClientNotification::PublishDiagnostics,
            ClientNotification::LogTrace,
            ClientNotification::CancelRequest,
            ClientNotification::Progress,
        ]
    }
}

/// The error that answers a standard request that is not implemented.
pub fn method_not_found(method: &str) -> (r: ResponseError)
    ensures
        r.says(ErrorCode::METHOD_NOT_FOUND, "No such method: "@ + method@),
{
    let message = joined("No such method: ", method);
    ResponseError::plain(ErrorCode::METHOD_NOT_FOUND, message.as_str())
}

/// Whether a standard notification may be left unimplemented.
pub open spec fn may_be_ignored(method: Seq<char>) -> bool {
    is_optional_method(method) || method == "exit"@ || method == "initialized"@
}

/// What a main loop does about a standard notification that is not implemented: it goes on if the
/// notification may be ignored, else it breaks with [`Error::Routing`].
pub fn fallback(method: &str) -> (r: Flow)
    ensures
        if may_be_ignored(method@) {
            r == goes_on()
        } else {
            r matches ControlFlow::Break(Err(e)) && e.is_routing(
                "Unhandled notification: "@ + method@,
            )
        },
{
    if optional_method(method) || same_text(method, "exit") || same_text(method, "initialized") {
        ControlFlow::Continue(())
    } else {
        ControlFlow::Break(Err(Error::Routing(joined("Unhandled notification: ", method))))
    }
}

impl ServerRequest {
    /// The answer of a Language Server that does not implement the request. It has to implement
    /// `initialize`. A `shutdown` succeeds, any other request fails.
    pub fn unimplemented(self) -> (r: Result<(), ResponseError>)
        requires
            self != ServerRequest::Initialize,
        ensures
            if self == ServerRequest::Shutdown {
                r is Ok
            } else {
                r matches Err(e) && e.says(
                    ErrorCode::METHOD_NOT_FOUND,
                    "No such method: "@ + self.name(),
                )
            },
    {
        match self {
            ServerRequest::Shutdown => Ok(()),
            _ => Err(method_not_found(self.method())),
        }
    }
}

impl ClientRequest {
    /// The answer of a Language Client that does not implement the request.
    pub fn unimplemented(self) -> (r: ResponseError)
        ensures
            r.says(ErrorCode::METHOD_NOT_FOUND, "No such method: "@ + self.name()),
    {
        method_not_found(self.method())
    }
}

/// Whether the handlers are those of a family of standard methods, each made by `make`.
pub open spec fn handles_all<M: StandardMethod, H, F: Fn(M) -> H>(
    handlers: Map<Seq<char>, H>,
    make: F,
) -> bool {
    &&& forall|m: M|
        #![trigger m.name()]
        handlers.contains_key(m.name()) && call_ensures(make, (m,), handlers[m.name()])
    &&& forall|name: Seq<char>| #[trigger]
        handlers.contains_key(name) ==> exists|m: M| #[trigger] m.name() == name
}

/// With handlers for a family of standard methods and no catch-all handler, a standard method goes
/// to the handler that was made for it, and any other method has no handler.
pub proof fn law_standard_methods_have_their_handlers<M: StandardMethod, H, F: Fn(M) -> H>(
    handlers: Map<Seq<char>, H>,
    make: F,
    m: M,
    name: Seq<char>,
)
    requires
        handles_all(handlers, make),
    ensures
        handler_of(handlers, None, m.name()) matches Some(h) && call_ensures(make, (m,), h),
        (forall|other: M| #[trigger] other.name() != name) ==> handler_of(handlers, None, name)
            is None,
{
}

/// Whether the handlers are those of the first `n` methods of a family, each made by `make`.
spec fn handles_first<M: StandardMethod, H, F: Fn(M) -> H>(
    handlers: Map<Seq<char>, H>,
    make: F,
    n: int,
) -> bool {
    &&& forall|m: M|
        #![trigger m.name()]
        m.ordinal() < n ==> handlers.contains_key(m.name()) && call_ensures(
            make,
            (m,),
            handlers[m.name()],
        )
    &&& forall|name: Seq<char>| #[trigger]
        handlers.contains_key(name) ==> exists|m: M| #[trigger] m.name() == name
}

/// No two methods of a family have the same place.
proof fn lemma_places_differ<M: StandardMethod>(methods: Seq<M>)
    requires
        forall|m: M| 0 <= #[trigger] m.ordinal() < methods.len() && methods[m.ordinal()] == m,
    ensures
        forall|a: M, b: M| #[trigger] a.ordinal() == #[trigger] b.ordinal() ==> a == b,
{
    assert forall|a: M, b: M| #[trigger] a.ordinal() == #[trigger] b.ordinal() implies a == b by {
        assert(methods[a.ordinal()] == a && methods[b.ordinal()] == b);
    }
}

/// One more handler, made for the next method of a family.
proof fn lemma_handles_next<M: StandardMethod, H, F: Fn(M) -> H>(
    handlers: Map<Seq<char>, H>,
    make: F,
    next: M,
    handler: H,
)
    requires
        handles_first(handlers, make, next.ordinal()),
        call_ensures(make, (next,), handler),
        forall|a: M, b: M| #[trigger] a.ordinal() == #[trigger] b.ordinal() ==> a == b,
    ensures
        handles_first(handlers.insert(next.name(), handler), make, next.ordinal() + 1),
{
    let after = handlers.insert(next.name(), handler);
    assert forall|m: M|
        #![trigger m.name()]
        m.ordinal() < next.ordinal() + 1 implies after.contains_key(m.name()) && call_ensures(
        make,
        (m,),
        after[m.name()],
    ) by {
        m.lemma_distinct(next);
        if m.ordinal() == next.ordinal() {
            assert(m == next);
        }
    }
}

impl<St, E, Fut, P, RH, NH, EH> Router<St, E, Fut, P, RH, NH, EH> {
    /// Adds a handler for each method of a family of standard requests.
    fn handle_requests<M: StandardMethod, F: Fn(M) -> RH>(&mut self, make: &F)
        requires
            old(self).unambiguous(),
            old(self).requests() == Map::<Seq<char>, RH>::empty(),
            forall|m: M| #[trigger] call_requires(*make, (m,)),
        ensures
            final(self).unambiguous(),
            handles_all::<M, RH, F>(final(self).requests(), *make),
            final(self).shared() == old(self).shared(),
            final(self).notifications() == old(self).notifications(),
            final(self).events() == old(self).events(),
            final(self).any_request() == old(self).any_request(),
            final(self).any_notification() == old(self).any_notification(),
            final(self).any_event() == old(self).any_event(),
    {
        let methods = M::all();
        let ghost pre = *self;
        proof {
            lemma_places_differ(methods@);
        }
        let mut i: usize = 0;
        while i < methods.len()
            invariant
                i <= methods@.len(),
                forall|m: M| #[trigger] call_requires(*make, (m,)),
                forall|a: M, b: M| #[trigger] a.ordinal() == #[trigger] b.ordinal() ==> a == b,
                forall|j: int| 0 <= j < methods@.len() ==> (#[trigger] methods@[j]).ordinal() == j,
                self.unambiguous(),
                handles_first::<M, RH, F>(self.requests(), *make, i as int),
                self.shared() == pre.shared(),
                self.notifications() == pre.notifications(),
                self.events() == pre.events(),
                self.any_request() == pre.any_request(),
                self.any_notification() == pre.any_notification(),
                self.any_event() == pre.any_event(),
            decreases methods@.len() - i,
        {
            let m = methods[i];
            let handler = make(m);
            proof {
                lemma_handles_next(self.requests(), *make, m, handler);
            }
            let _ = self.request(m.method(), handler);
            i += 1;
        }
    }

    /// Adds a handler for each method of a family of standard notifications.
    fn handle_notifications<M: StandardMethod, F: Fn(M) -> NH>(&mut self, make: &F)
        requires
            old(self).unambiguous(),
            old(self).notifications() == Map::<Seq<char>, NH>::empty(),
            forall|m: M| #[trigger] call_requires(*make, (m,)),
        ensures
            final(self).unambiguous(),
            handles_all::<M, NH, F>(final(self).notifications(), *make),
            final(self).shared() == old(self).shared(),
            final(self).requests() == old(self).requests(),
            final(self).events() == old(self).events(),
            final(self).any_request() == old(self).any_request(),
            final(self).any_notification() == old(self).any_notification(),
            final(self).any_event() == old(self).any_event(),
    {
        let methods = M::all();
        let ghost pre = *self;
        proof {
            lemma_places_differ(methods@);
        }
        let mut i: usize = 0;
        while i < methods.len()
            invariant
                i <= methods@.len(),
                forall|m: M| #[trigger] call_requires(*make, (m,)),
                forall|a: M, b: M| #[trigger] a.ordinal() == #[trigger] b.ordinal() ==> a == b,
                forall|j: int| 0 <= j < methods@.len() ==> (#[trigger] methods@[j]).ordinal() == j,
                self.unambiguous(),
                handles_first::<M, NH, F>(self.notifications(), *make, i as int),
                self.shared() == pre.shared(),
                self.requests() == pre.requests(),
                self.events() == pre.events(),
                self.any_request() == pre.any_request(),
                self.any_notification() == pre.any_notification(),
                self.any_event() == pre.any_event(),
            decreases methods@.len() - i,
        {
            let m = methods[i];
            let handler = make(m);
            proof {
                lemma_handles_next(self.notifications(), *make, m, handler);
            }
            let _ = self.notification(m.method(), handler);
            i += 1;
        }
    }

    /// Create a [`Router`] with a handler for each standard request and notification of a Language
    /// Server.
    ///
    /// Handlers that hand them to the methods of the state are made by
    /// [`crate::language::server_request_handler`] and
    /// [`crate::language::server_notification_handler`].
    #[must_use]
    pub fn from_language_server<
        FR: Fn(ServerRequest) -> RH,
        FN: Fn(ServerNotification) -> NH,
    >(state: St, on_request: &FR, on_notification: &FN) -> (r: Self)
        requires
            forall|m: ServerRequest| #[trigger] call_requires(*on_request, (m,)),
            forall|m: ServerNotification| #[trigger] call_requires(*on_notification, (m,)),
        ensures
            r.unambiguous(),
            r.shared() == state,
            handles_all::<ServerRequest, RH, FR>(r.requests(), *on_request),
            handles_all::<ServerNotification, NH, FN>(r.notifications(), *on_notification),
            r.events() == Map::<core::any::TypeId, EH>::empty(),
            r.any_request() is None,
            r.any_notification() is None,
            r.any_event() is None,
    {
        let mut this = Self::new(state);
        this.handle_requests::<ServerRequest, FR>(on_request);
        this.handle_notifications::<ServerNotification, FN>(on_notification);
        this
    }

    /// Create a [`Router`] with a handler for each standard request and notification of a Language
    /// Client.
    ///
    /// Handlers that hand them to the methods of the state are made by
    /// [`crate::language::client_request_handler`] and
    /// [`crate::language::client_notification_handler`].
    #[must_use]
    pub fn from_language_client<
        FR: Fn(ClientRequest) -> RH,
        FN: Fn(ClientNotification) -> NH,
    >(state: St, on_request: &FR, on_notification: &FN) -> (r: Self)
        requires
            forall|m: ClientRequest| #[trigger] call_requires(*on_request, (m,)),
            forall|m: ClientNotification| #[trigger] call_requires(*on_notification, (m,)),
        ensures
            r.unambiguous(),
            r.shared() == state,
            handles_all::<ClientRequest, RH, FR>(r.requests(), *on_request),
            handles_all::<ClientNotification, NH, FN>(r.notifications(), *on_notification),
            r.events() == Map::<core::any::TypeId, EH>::empty(),
            r.any_request() is None,
            r.any_notification() is None,
            r.any_event() is None,
    {
        let mut this = Self::new(state);
        this.handle_requests::<ClientRequest, FR>(on_request);
        this.handle_notifications::<ClientNotification, FN>(on_notification);
        this
    }
}

/// A standard notification that is not implemented is ignored if its method is `exit` or
/// `initialized`, or starts with `$/`. Any other one ends the main loop with an error that names
/// it.
pub proof fn law_unimplemented_notifications(method: &str)
    ensures
        forall|r: Flow| #[trigger]
            call_ensures(fallback, (method,), r) ==> {
                let ignored = method@ == "exit"@ || method@ == "initialized"@
                    || "$/"@.is_prefix_of(method@);
                &&& ignored ==> r is Continue
                &&& !ignored ==> (r matches ControlFlow::Break(Err(Error::Routing(text))) && text@
                    == "Unhandled notification: "@ + method@)
            },
{
    crate::router::lemma_optional_methods(method@);
}

/// A standard request that is not implemented is answered with an error that names its method, but
/// for `shutdown` of a server, which succeeds.
pub proof fn law_unimplemented_requests(server: ServerRequest, client: ClientRequest)
    ensures
        forall|r: Result<(), ResponseError>| #[trigger]
            call_ensures(ServerRequest::unimplemented, (server,), r) ==> {
                &&& server == ServerRequest::Shutdown ==> r is Ok
                &&& server != ServerRequest::Shutdown ==> (r matches Err(e) && e.code.0 == -32601
                    && e.message@ == "No such method: "@ + server.name() && e.data is None)
            },
        forall|e: ResponseError| #[trigger]
            call_ensures(ClientRequest::unimplemented, (client,), e) ==> e.code.0 == -32601
                && e.message@ == "No such method: "@ + client.name() && e.data is None,
{
}

} // verus!
