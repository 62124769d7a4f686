//! The loop in which the server takes connections.

use vstd::prelude::*;

use crate::text::joined;

verus! {

/// What the server learns while it waits for a connection.
#[derive(Clone, Copy, Debug, PartialEq, Eq, Structural)]
pub enum ServerEvent {
    /// A client has connected.
    Accepted,
    /// A connection failed before it was there.
    AcceptFailed,
    /// The user asked the server to stop.
    CtrlC,
}

/// What the server does about an event.
#[derive(Debug, PartialEq, Eq)]
pub struct ServerStep {
    /// Serve the client that has connected.
    pub serve: bool,
    /// Say this and stop.
    pub stop: Option<String>,
}

/// What the server does about an event when it was interrupted `interrupts` times
/// so far. An interrupt is seen once the event before it is dealt with.
pub fn server_step(event: ServerEvent, interrupts: usize) -> (r: ServerStep)
    ensures
        r.serve == (event is Accepted),
        r.stop is Some <==> event is CtrlC || interrupts > 0,
        r.stop matches Some(message) ==> message@ == if event is CtrlC {
            "\nShutting down PostgreSQL server..."@
        } else {
            "Shutting down PostgreSQL server..."@
        },
{
    match event {
        ServerEvent::CtrlC => {
            return ServerStep {
                serve: false,
                stop: Some("\nShutting down PostgreSQL server...".to_owned()),
            };
        },
        _ => {},
    }
    let stop = if interrupts > 0 {
        Some("Shutting down PostgreSQL server...".to_owned())
    } else {
        None
    };
    ServerStep { serve: event == ServerEvent::Accepted, stop }
}

/// What the server says when it is ready.
pub fn listening_message(address: &str, db_file: &str) -> (r: String)
    ensures
        r@ == "PostgreSQL server listening on "@ + address@ + " (database: "@ + db_file@ + ")"@,
{
    let mut message = joined("PostgreSQL server listening on ", address);
    message.append(" (database: ");
    message.append(db_file);
    message.append(")");
    message
}

} // verus!
