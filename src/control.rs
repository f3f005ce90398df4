use vstd::prelude::*;

verus! {

/// A request from the service control manager.
#[derive(Clone, Copy, Debug, PartialEq, Eq, Structural)]
pub enum ControlRequest {
    Interrogate,
    Stop,
    Shutdown,
    /// Any other request.
    Other,
}

/// The reply to a control request.
#[derive(Clone, Copy, Debug, PartialEq, Eq, Structural)]
pub enum ControlReply {
    NoError,
    NotImplemented,
}

/// What the control handler does with a request.
#[derive(Clone, Copy, Debug, PartialEq, Eq, Structural)]
pub struct ControlResponse {
    pub reply: ControlReply,
    /// Post a shutdown signal to the supervisor.
    pub signal_shutdown: bool,
}

/// Interrogate is answered and nothing else happens; stop and shutdown are
/// answered and signal the supervisor; anything else is not implemented.
pub fn handle_control(request: ControlRequest) -> (r: ControlResponse)
    ensures
        r.signal_shutdown == (request == ControlRequest::Stop || request
            == ControlRequest::Shutdown),
        r.reply == (if request == ControlRequest::Other {
            ControlReply::NotImplemented
        } else {
            ControlReply::NoError
        }),
{
    match request {
        ControlRequest::Interrogate => ControlResponse {
            reply: ControlReply::NoError,
            signal_shutdown: false,
        },
        ControlRequest::Stop | ControlRequest::Shutdown => ControlResponse {
            reply: ControlReply::NoError,
            signal_shutdown: true,
        },
        ControlRequest::Other => ControlResponse {
            reply: ControlReply::NotImplemented,
            signal_shutdown: false,
        },
    }
}

pub open spec fn state_name(code: u32) -> Seq<char> {
    if code == 1 {
        "STOPPED"@
    } else if code == 2 {
        "START_PENDING"@
    } else if code == 3 {
        "STOP_PENDING"@
    } else if code == 4 {
        "RUNNING"@
    } else if code == 5 {
        "CONTINUE_PENDING"@
    } else if code == 6 {
        "PAUSE_PENDING"@
    } else if code == 7 {
        "PAUSED"@
    } else {
        "UNKNOWN"@
    }
}

/// The name of a service state code as the service control manager reports
/// it.
pub fn service_state_name(code: u32) -> (r: &'static str)
    ensures
        r@ == state_name(code),
{
    if code == 1 {
        "STOPPED"
    } else if code == 2 {
        "START_PENDING"
    } else if code == 3 {
        "STOP_PENDING"
    } else if code == 4 {
        "RUNNING"
    } else if code == 5 {
        "CONTINUE_PENDING"
    } else if code == 6 {
        "PAUSE_PENDING"
    } else if code == 7 {
        "PAUSED"
    } else {
        "UNKNOWN"
    }
}

/// The service's name: the first argument that the dispatcher passes, else
/// the tool's own name.
pub fn service_name_from_args(first: Option<String>) -> (r: String)
    ensures
        r@ == match first {
            Some(n) => n@,
            None => "nssm-rs"@,
        },
{
    match first {
        Some(n) => n,
        None => "nssm-rs".to_owned(),
    }
}

} // verus!
