//! Decision part of the wake-word notification on a Unix domain socket.
//!
//! Delivering bytes on a socket is I/O and stays with the caller; this
//! module fixes what is sent and where, and what the notification reports
//! for each outcome of the delivery.
use vstd::prelude::*;
use vstd::string::*;
use crate::trigger::error::TriggerError;

verus! {

/// The bytes of `"WAKEWORD_DETECTED\n"`, the message announcing a detection.
pub open spec fn detection_payload_bytes() -> Seq<u8> {
    seq![87u8, 65, 75, 69, 87, 79, 82, 68, 95, 68, 69, 84, 69, 67, 84, 69, 68, 10]
}

/// The message announcing a detection: `"WAKEWORD_DETECTED\n"`.
pub fn detection_payload() -> (p: Vec<u8>)
    ensures
        p@ == detection_payload_bytes(),
{
    let p = vec![87u8, 65, 75, 69, 87, 79, 82, 68, 95, 68, 69, 84, 69, 67, 84, 69, 68, 10];
    assert(p@ =~= detection_payload_bytes());
    p
}

/// What became of one attempt to deliver a message on the socket.
pub enum Delivery {
    /// Connecting failed: nobody listens on the socket.
    NoListener,
    /// The connection was made and the whole message written.
    Sent,
    /// The connection was made but writing failed; the text of the I/O error.
    WriteFailed(String),
}

/// Sends wake-word notifications on a Unix domain socket, one short
/// connection per notification. No connection is made on construction.
pub struct IpcNotifier {
    socket_path: String,
}

impl IpcNotifier {
    /// Path of the socket that notifications go to.
    pub closed spec fn path(&self) -> Seq<char> {
        self.socket_path@
    }

    /// Creates a notifier for `socket_path`; connects to nothing.
    pub fn new(socket_path: String) -> (n: Self)
        ensures
            n.path() == socket_path@,
    {
        IpcNotifier { socket_path }
    }

    /// Path of the socket that notifications go to.
    pub fn socket_path(&self) -> (p: &str)
        ensures
            p@ == self.path(),
    {
        self.socket_path.as_str()
    }

    /// Outcome of a notification, given what became of its delivery.
    ///
    /// Nobody listening is not an error: the notification is dropped
    /// silently. A write that fails after connecting is reported as
    /// `IpcSendFailed("write_all failed on <path>: <error>")`.
    pub fn notify(&self, delivery: Delivery) -> (r: Result<(), TriggerError>)
        ensures
            match delivery {
                Delivery::NoListener => r is Ok,
                Delivery::Sent => r is Ok,
                Delivery::WriteFailed(e) => r matches Err(TriggerError::IpcSendFailed(msg))
                    && msg@ == "write_all failed on "@ + self.path() + ": "@ + e@,
            },
    {
        proof {
            reveal_strlit("write_all failed on ");
            reveal_strlit(": ");
        }
        match delivery {
            Delivery::NoListener => Ok(()),
            Delivery::Sent => Ok(()),
            Delivery::WriteFailed(e) => {
                let mut msg = String::from_str("write_all failed on ");
                msg.append(self.socket_path.as_str());
                msg.append(": ");
                msg.append(e.as_str());
                Err(TriggerError::IpcSendFailed(msg))
            },
        }
    }
}

} // verus!
