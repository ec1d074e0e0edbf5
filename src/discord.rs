use vstd::prelude::*;
use vstd::string::StringExecFns;

use crate::document::opt_view;

verus! {

/// Milliseconds since the Unix epoch, or `None` where the clock reads earlier.
/// Relies on `SystemTime::elapsed` of the epoch; nothing is known of the value.
#[verifier::external_body]
fn millis_since_epoch() -> (r: Option<u128>) {
    std::time::UNIX_EPOCH.elapsed().ok().map(|d| d.as_millis())
}

/// The rendered fields of one status update, and the repository it links to.
pub struct DiscordActivityPreload {
    pub state: Option<String>,
    pub details: Option<String>,
    pub large_image: Option<String>,
    pub large_text: Option<String>,
    pub small_image: Option<String>,
    pub small_text: Option<String>,
    pub git_remote_url: Option<String>,
}

/// An action button of the status: a label and the URL it opens.
pub struct Button {
    pub label: String,
    pub url: String,
}

/// A status update ready to be sent.
pub struct ActivityPayload {
    pub state: Option<String>,
    pub details: Option<String>,
    pub large_image: Option<String>,
    pub large_text: Option<String>,
    pub small_image: Option<String>,
    pub small_text: Option<String>,
    /// Start of the elapsed time shown, in milliseconds since the Unix epoch.
    pub start_timestamp: i64,
    pub button: Option<Button>,
}

/// Label and URL of an optional button.
pub open spec fn button_view(b: Option<Button>) -> Option<(Seq<char>, Seq<char>)> {
    match b {
        Some(b) => Some((b.label@, b.url@)),
        None => None,
    }
}

/// The button that links to a repository, where there is one.
pub open spec fn repository_button(url: Option<Seq<char>>) -> Option<(Seq<char>, Seq<char>)> {
    match url {
        Some(u) => Some(("View Repository"@, u)),
        None => None,
    }
}

/// Where the link to the chat application stands. It goes forward only:
/// `Uninitialized`, `Created`, `Connected`, `Closed`.
#[derive(Clone, Copy, Debug, PartialEq, Eq, Structural)]
pub enum LinkPhase {
    Uninitialized,
    Created,
    Connected,
    Closed,
}

#[derive(Clone, Copy, Debug, PartialEq, Eq, Structural)]
pub enum PresenceError {
    /// The client was created already.
    AlreadyCreated,
    /// The operation needs a client that was created and not connected yet.
    NotCreated,
    /// The handshake with the chat application failed.
    HandshakeFailed,
    /// No status can be sent before the handshake succeeded or after closing.
    NotConnected,
    /// Sending a status failed; the link stays usable.
    PushFailed,
    /// There is no open client to close.
    NothingToClose,
    /// Closing failed; the link counts as closed all the same.
    CloseFailed,
}

/// The largest `i64` below or at `ms`.
pub open spec fn clamp_i64(ms: u128) -> i64 {
    if ms > i64::MAX as u128 {
        i64::MAX
    } else {
        ms as i64
    }
}

/// Whether the phase holds a client that was created and not closed.
pub open spec fn holds_client_spec(p: LinkPhase) -> bool {
    p == LinkPhase::Created || p == LinkPhase::Connected
}

/// The phase after a status was sent, whatever came of it.
pub open spec fn phase_after_push(p: LinkPhase) -> LinkPhase {
    p
}

/// The lifecycle of the link to the chat application, and the moment the session
/// started. The transport itself is driven by the caller, which reports back how
/// each operation went.
pub struct Discord {
    phase: LinkPhase,
    start_timestamp: i64,
}

impl Discord {
    pub closed spec fn phase_spec(&self) -> LinkPhase {
        self.phase
    }

    pub closed spec fn start_spec(&self) -> i64 {
        self.start_timestamp
    }

    /// A link with no client yet, whose session starts now.
    pub fn new() -> (r: Self)
        ensures
            r.phase_spec() == LinkPhase::Uninitialized,
    {
        match millis_since_epoch() {
            Some(ms) => Discord::starting_at(ms),
            None => Discord::starting_at(0),
        }
    }

    /// A link with no client yet, whose session started `ms` milliseconds after
    /// the Unix epoch.
    pub fn starting_at(ms: u128) -> (r: Self)
        ensures
            r.phase_spec() == LinkPhase::Uninitialized,
            r.start_spec() == clamp_i64(ms),
    {
        let start: i64 = if ms > i64::MAX as u128 {
            i64::MAX
        } else {
            ms as i64
        };
        Discord { phase: LinkPhase::Uninitialized, start_timestamp: start }
    }

    pub fn phase(&self) -> (r: LinkPhase)
        ensures
            r == self.phase_spec(),
    {
        self.phase
    }

    pub fn start_timestamp(&self) -> (r: i64)
        ensures
            r == self.start_spec(),
    {
        self.start_timestamp
    }

    /// Whether a client was created and not closed, so that closing has work to do.
    pub fn holds_client(&self) -> (r: bool)
        ensures
            r == holds_client_spec(self.phase_spec()),
    {
        self.phase == LinkPhase::Created || self.phase == LinkPhase::Connected
    }

    /// Records that the client was created; allowed once, first.
    pub fn create_client(&mut self) -> (r: Result<(), PresenceError>)
        ensures
            final(self).start_spec() == old(self).start_spec(),
            old(self).phase_spec() == LinkPhase::Uninitialized ==> r is Ok && final(self).phase_spec()
                == LinkPhase::Created,
            old(self).phase_spec() != LinkPhase::Uninitialized ==> r == Err::<(), PresenceError>(
                PresenceError::AlreadyCreated,
            ) && final(self).phase_spec() == old(self).phase_spec(),
    {
        if self.phase == LinkPhase::Uninitialized {
            self.phase = LinkPhase::Created;
            Ok(())
        } else {
            Err(PresenceError::AlreadyCreated)
        }
    }

    /// Records how the handshake went. It is owed only on a created client: on
    /// any other phase the caller performs no handshake and gets `NotCreated`.
    pub fn connect(&mut self, handshake_ok: bool) -> (r: Result<(), PresenceError>)
        ensures
            final(self).start_spec() == old(self).start_spec(),
            old(self).phase_spec() != LinkPhase::Created ==> r == Err::<(), PresenceError>(
                PresenceError::NotCreated,
            ) && final(self).phase_spec() == old(self).phase_spec(),
            old(self).phase_spec() == LinkPhase::Created && handshake_ok ==> r is Ok
                && final(self).phase_spec() == LinkPhase::Connected,
            old(self).phase_spec() == LinkPhase::Created && !handshake_ok ==> r == Err::<
                (),
                PresenceError,
            >(PresenceError::HandshakeFailed) && final(self).phase_spec() == LinkPhase::Created,
    {
        if self.phase != LinkPhase::Created {
            Err(PresenceError::NotCreated)
        } else if handshake_ok {
            self.phase = LinkPhase::Connected;
            Ok(())
        } else {
            Err(PresenceError::HandshakeFailed)
        }
    }

    /// The status to send for `preload`: its fields, the session's start, and a
    /// button to the repository where it names one. Only a connected link sends.
    pub fn change_activity(&self, preload: DiscordActivityPreload) -> (r: Result<
        ActivityPayload,
        PresenceError,
    >)
        ensures
            self.phase_spec() != LinkPhase::Connected ==> r == Err::<ActivityPayload, PresenceError>(
                PresenceError::NotConnected,
            ),
            self.phase_spec() == LinkPhase::Connected ==> r is Ok,
            r matches Ok(a) ==> {
                &&& a.state == preload.state
                &&& a.details == preload.details
                &&& a.large_image == preload.large_image
                &&& a.large_text == preload.large_text
                &&& a.small_image == preload.small_image
                &&& a.small_text == preload.small_text
                &&& a.start_timestamp == self.start_spec()
                &&& button_view(a.button) == repository_button(opt_view(preload.git_remote_url))
            },
    {
        if self.phase != LinkPhase::Connected {
            return Err(PresenceError::NotConnected);
        }
        let button = match preload.git_remote_url {
            Some(url) => Some(Button { label: String::from_str("View Repository"), url }),
            None => None,
        };
        Ok(
            ActivityPayload {
                state: preload.state,
                details: preload.details,
                large_image: preload.large_image,
                large_text: preload.large_text,
                small_image: preload.small_image,
                small_text: preload.small_text,
                start_timestamp: self.start_timestamp,
                button,
            },
        )
    }

    /// Records how sending a status went. A failure is reported and leaves the
    /// link as it was, so the next status can go through.
    pub fn push_done(&mut self, sent: bool) -> (r: Result<(), PresenceError>)
        ensures
            final(self).phase_spec() == phase_after_push(old(self).phase_spec()),
            final(self).start_spec() == old(self).start_spec(),
            r is Ok <==> sent,
            !sent ==> r == Err::<(), PresenceError>(PresenceError::PushFailed),
    {
        if sent {
            Ok(())
        } else {
            Err(PresenceError::PushFailed)
        }
    }

    /// Records that the client was closed. Where none is held, the caller closes
    /// nothing and gets `NothingToClose`; otherwise the link is closed, and a
    /// failure to close is reported.
    pub fn kill(&mut self, close_ok: bool) -> (r: Result<(), PresenceError>)
        ensures
            final(self).start_spec() == old(self).start_spec(),
            !holds_client_spec(old(self).phase_spec()) ==> r == Err::<(), PresenceError>(
                PresenceError::NothingToClose,
            ) && final(self).phase_spec() == old(self).phase_spec(),
            holds_client_spec(old(self).phase_spec()) ==> final(self).phase_spec() == LinkPhase::Closed
                && (r is Ok <==> close_ok) && (!close_ok ==> r == Err::<(), PresenceError>(
                PresenceError::CloseFailed,
            )),
    {
        if !self.holds_client() {
            return Err(PresenceError::NothingToClose);
        }
        self.phase = LinkPhase::Closed;
        if close_ok {
            Ok(())
        } else {
            Err(PresenceError::CloseFailed)
        }
    }
}

/// A status that failed to send leaves a connected link connected: the next one
/// is sent where the transport has recovered.
pub proof fn lemma_push_failure_recoverable(d: Discord)
    requires
        d.phase_spec() == LinkPhase::Connected,
    ensures
        phase_after_push(d.phase_spec()) == LinkPhase::Connected,
{
}

} // verus!
