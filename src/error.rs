use vstd::prelude::*;

verus! {

/// The ways in which talking to the engine can fail.
#[derive(Debug, Clone, PartialEq, Eq)]
pub enum GameSenseError {
    /// The engine's address could not be read from its configuration file.
    DiscoveryFailed,
    /// The HTTP client could not be set up.
    TransportInit,
    /// The HTTP exchange itself failed; the text describes how.
    TransportError(String),
    /// The engine answered that the endpoint does not exist.
    EndpointNotFound,
    /// The engine's answer is not a JSON object with at least one key.
    MalformedResponse,
    /// The engine reported a failure with this message.
    EngineError(String),
    /// A heartbeat was stopped while none was running.
    HeartbeatNotStarted,
}

/// The mathematical form of a [`GameSenseError`].
pub enum ErrorView {
    DiscoveryFailed,
    TransportInit,
    TransportError(Seq<char>),
    EndpointNotFound,
    MalformedResponse,
    EngineError(Seq<char>),
    HeartbeatNotStarted,
}

impl View for GameSenseError {
    type V = ErrorView;

    open spec fn view(&self) -> ErrorView {
        match self {
            GameSenseError::DiscoveryFailed => ErrorView::DiscoveryFailed,
            GameSenseError::TransportInit => ErrorView::TransportInit,
            GameSenseError::TransportError(s) => ErrorView::TransportError(s@),
            GameSenseError::EndpointNotFound => ErrorView::EndpointNotFound,
            GameSenseError::MalformedResponse => ErrorView::MalformedResponse,
            GameSenseError::EngineError(s) => ErrorView::EngineError(s@),
            GameSenseError::HeartbeatNotStarted => ErrorView::HeartbeatNotStarted,
        }
    }
}

/// The mathematical form of an answer of the engine.
pub open spec fn result_view(r: Result<String, GameSenseError>) -> Result<Seq<char>, ErrorView> {
    match r {
        Ok(s) => Ok(s@),
        Err(e) => Err(e@),
    }
}

impl GameSenseError {
    /// A sentence that describes the failure.
    pub fn message(&self) -> (r: String)
        ensures
            self matches GameSenseError::EngineError(m) ==> r@ == m@,
    {
        match self {
            GameSenseError::DiscoveryFailed => "could not read the engine's address".to_owned(),
            GameSenseError::TransportInit => "could not set up the HTTP client".to_owned(),
            GameSenseError::TransportError(m) => m.clone(),
            GameSenseError::EndpointNotFound => "Endpoint not found".to_owned(),
            GameSenseError::MalformedResponse => "malformed response from the engine".to_owned(),
            GameSenseError::EngineError(m) => m.clone(),
            GameSenseError::HeartbeatNotStarted => "Trying to stop uninitialized heartbeat thread".to_owned(),
        }
    }
}

} // verus!
