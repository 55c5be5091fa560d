//! Errors of the trigger module.
use vstd::prelude::*;
use vstd::string::*;

verus! {

/// Errors of the trigger module.
#[derive(Debug)]
pub enum TriggerError {
    /// The score channel was closed (its sender was dropped).
    ChannelClosed,
    /// Writing to the Unix socket failed after a successful connection.
    IpcSendFailed(String),
    /// Creating or binding the server-side Unix socket failed.
    SocketBindFailed(String),
    /// Inconsistent configuration parameters.
    InvalidConfig(String),
}

/// Text of a trigger error, as its `Display` renders it.
pub open spec fn trigger_error_text(e: TriggerError) -> Seq<char> {
    match e {
        TriggerError::ChannelClosed => "trigger: le channel de scores a été fermé"@,
        TriggerError::IpcSendFailed(msg) => "trigger: échec d'envoi IPC — "@ + msg@,
        TriggerError::SocketBindFailed(msg) => "trigger: échec de bind du socket — "@ + msg@,
        TriggerError::InvalidConfig(msg) => "trigger: configuration invalide — "@ + msg@,
    }
}

impl TriggerError {
    /// Human-readable description of the error.
    pub fn message(&self) -> (s: String)
        ensures
            s@ == trigger_error_text(*self),
            s@.len() > 0,
    {
        proof {
            reveal_strlit("trigger: le channel de scores a été fermé");
            reveal_strlit("trigger: échec d'envoi IPC — ");
            reveal_strlit("trigger: échec de bind du socket — ");
            reveal_strlit("trigger: configuration invalide — ");
        }
        match self {
            TriggerError::ChannelClosed => String::from_str("trigger: le channel de scores a été fermé"),
            TriggerError::IpcSendFailed(msg) => {
                let mut s = String::from_str("trigger: échec d'envoi IPC — ");
                s.append(msg.as_str());
                s
            },
            TriggerError::SocketBindFailed(msg) => {
                let mut s = String::from_str("trigger: échec de bind du socket — ");
                s.append(msg.as_str());
                s
            },
            TriggerError::InvalidConfig(msg) => {
                let mut s = String::from_str("trigger: configuration invalide — ");
                s.append(msg.as_str());
                s
            },
        }
    }
}

/// Errors of different kinds never read the same, whatever their payloads.
pub proof fn lemma_trigger_error_texts_distinct(a: TriggerError, b: TriggerError)
    requires
        !(a is ChannelClosed && b is ChannelClosed),
        !(a is IpcSendFailed && b is IpcSendFailed),
        !(a is SocketBindFailed && b is SocketBindFailed),
        !(a is InvalidConfig && b is InvalidConfig),
    ensures
        trigger_error_text(a) != trigger_error_text(b),
{
    reveal_strlit("trigger: le channel de scores a été fermé");
    reveal_strlit("trigger: échec d'envoi IPC — ");
    reveal_strlit("trigger: échec de bind du socket — ");
    reveal_strlit("trigger: configuration invalide — ");
    let ta = trigger_error_text(a);
    let tb = trigger_error_text(b);
    assert(ta[9] != tb[9] || ta[19] != tb[19]);
}

} // verus!
