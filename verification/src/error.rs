//! The failures that the plugin host reports.
use vstd::prelude::*;
use vstd::string::StringExecFns;

verus! {

/// Why an operation of the plugin host failed.
#[derive(Debug, Clone, PartialEq, Eq)]
pub enum PluginError {
    /// A request was handed over for sending without an identifier.
    MissingRequestId,
    /// The channel to the plugin failed; the text is the runner's account of it.
    Transport(String),
    /// The plugin answered the handshake with an error; the text is its message.
    InitializationFailed(String),
    /// The plugin answered the handshake with neither a result nor an error.
    InitializationUnknown,
    /// The plugin answered the handshake with a result of the wrong shape.
    InitializationMalformed,
    /// No loaded plugin claims a tool of this name.
    ToolNotFound(String),
    /// The plugin of this name, which claims the tool, is disabled.
    PluginDisabled(String),
    /// The plugin answered a call with an error; the text is its message.
    ToolExecution(String),
    /// No plugin of this name is loaded.
    PluginNotFound(String),
}

/// A failure as a value.
pub enum PluginErrorView {
    MissingRequestId,
    Transport(Seq<char>),
    InitializationFailed(Seq<char>),
    InitializationUnknown,
    InitializationMalformed,
    ToolNotFound(Seq<char>),
    PluginDisabled(Seq<char>),
    ToolExecution(Seq<char>),
    PluginNotFound(Seq<char>),
}

impl View for PluginError {
    type V = PluginErrorView;

    open spec fn view(&self) -> PluginErrorView {
        match self {
            PluginError::MissingRequestId => PluginErrorView::MissingRequestId,
            PluginError::Transport(s) => PluginErrorView::Transport(s@),
            PluginError::InitializationFailed(s) => PluginErrorView::InitializationFailed(s@),
            PluginError::InitializationUnknown => PluginErrorView::InitializationUnknown,
            PluginError::InitializationMalformed => PluginErrorView::InitializationMalformed,
            PluginError::ToolNotFound(s) => PluginErrorView::ToolNotFound(s@),
            PluginError::PluginDisabled(s) => PluginErrorView::PluginDisabled(s@),
            PluginError::ToolExecution(s) => PluginErrorView::ToolExecution(s@),
            PluginError::PluginNotFound(s) => PluginErrorView::PluginNotFound(s@),
        }
    }
}

/// The text shown for a failure.
pub open spec fn error_text(e: PluginErrorView) -> Seq<char> {
    match e {
        PluginErrorView::MissingRequestId => "Request must have an ID"@,
        PluginErrorView::Transport(s) => s,
        PluginErrorView::InitializationFailed(s) => "Plugin initialization failed: "@ + s,
        PluginErrorView::InitializationUnknown => "Plugin initialization failed: Unknown error"@,
        PluginErrorView::InitializationMalformed => "Plugin initialization failed: malformed result"@,
        PluginErrorView::ToolNotFound(s) => "Tool not found: "@ + s,
        PluginErrorView::PluginDisabled(s) => "Plugin "@ + s + " is disabled"@,
        PluginErrorView::ToolExecution(s) => "Tool execution error: "@ + s,
        PluginErrorView::PluginNotFound(s) => "Plugin not found: "@ + s,
    }
}

/// The text `a` followed by the text `b`.
pub fn join(a: &str, b: &str) -> (r: String)
    ensures
        r@ == a@ + b@,
{
    let mut out = String::from_str(a);
    out.append(b);
    out
}

impl PluginError {
    /// The text shown for the failure.
    pub fn message(&self) -> (r: String)
        ensures
            r@ == error_text(self@),
    {
        match self {
            PluginError::MissingRequestId => String::from_str("Request must have an ID"),
            PluginError::Transport(s) => s.clone(),
            PluginError::InitializationFailed(s) => join("Plugin initialization failed: ", s.as_str()),
            PluginError::InitializationUnknown => String::from_str(
                "Plugin initialization failed: Unknown error",
            ),
            PluginError::InitializationMalformed => String::from_str(
                "Plugin initialization failed: malformed result",
            ),
            PluginError::ToolNotFound(s) => join("Tool not found: ", s.as_str()),
            PluginError::PluginDisabled(s) => {
                let head = join("Plugin ", s.as_str());
                join(head.as_str(), " is disabled")
            },
            PluginError::ToolExecution(s) => join("Tool execution error: ", s.as_str()),
            PluginError::PluginNotFound(s) => join("Plugin not found: ", s.as_str()),
        }
    }
}

} // verus!
