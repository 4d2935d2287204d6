//! Request/response correlation over the single UART link.
//!
//! At most one command is outstanding at a time. While one is, every receive
//! buffer is offered to it; otherwise buffers are unsolicited downlinks.

use crate::buffers::{capped, line_items};
use crate::reply::CommandResultTrait;
use crate::serial::{command_wire, Command};
use vstd::prelude::*;

verus! {

/// Why a command exchange failed.
#[derive(Clone, Copy, PartialEq, Eq, Structural, Debug)]
pub enum CommandError {
    /// No matching reply arrived before the deadline.
    Timeout,
    /// The command could not be written to the UART.
    Transport,
}

/// Where a receive buffer goes.
#[derive(Clone, Copy, PartialEq, Eq, Structural, Debug)]
pub enum Route {
    /// To the outstanding command.
    Command,
    /// To the application, as an unsolicited downlink.
    Downlink,
}

/// The correlation state of the link: whether a command is outstanding.
pub struct Transport {
    pub outstanding: bool,
}

/// Where a buffer received in state `t` goes.
pub open spec fn route_of(t: Transport) -> Route {
    if t.outstanding {
        Route::Command
    } else {
        Route::Downlink
    }
}

/// The first buffer in `replies`, at or after `from`, that holds a reply of shape `T`.
pub open spec fn first_accepted<T: CommandResultTrait>(replies: Seq<Seq<u8>>, from: int) -> Option<
    int,
>
    decreases replies.len() - from,
{
    if from < 0 || from >= replies.len() {
        None
    } else if T::accepts(replies[from]) {
        Some(from)
    } else {
        first_accepted::<T>(replies, from + 1)
    }
}

/// Whether a new command may begin on a link in state `t`.
pub open spec fn admits(t: Transport) -> bool {
    !t.outstanding
}

/// The views of a list of receive buffers.
pub open spec fn buffers_view(replies: Seq<Vec<u8>>) -> Seq<Seq<u8>> {
    replies.map_values(|b: Vec<u8>| b@)
}

impl Transport {
    /// An idle link.
    pub fn new() -> (r: Transport)
        ensures
            !r.outstanding,
    {
        Transport { outstanding: false }
    }

    /// Starts a command exchange. On an idle link the command becomes the
    /// outstanding one and its bytes are returned for writing; while another
    /// command is outstanding nothing changes and the caller must wait.
    pub fn begin(&mut self, cmd: &Command) -> (r: Option<heapless::Vec<u8, 128>>)
        ensures
            r.is_some() == admits(*old(self)),
            r matches Some(b) ==> line_items(b) == capped(command_wire(cmd), 128),
            final(self).outstanding,
    {
        if self.outstanding {
            None
        } else {
            self.outstanding = true;
            Some(cmd.as_bytes())
        }
    }

    /// The demultiplexing rule: an outstanding command has priority over
    /// downlink interpretation.
    pub fn route(&self) -> (r: Route)
        ensures
            r == route_of(*self),
    {
        if self.outstanding {
            Route::Command
        } else {
            Route::Downlink
        }
    }

    /// Offers a receive buffer to the outstanding command. A buffer that
    /// parses completes the exchange; one that does not is skipped and the
    /// exchange goes on.
    pub fn offer<T: CommandResultTrait>(&mut self, buf: &[u8]) -> (r: Option<T>)
        requires
            old(self).outstanding,
        ensures
            r.is_some() == T::accepts(buf@),
            r matches Some(v) ==> v.parsed_from(buf@),
            final(self).outstanding == r.is_none(),
    {
        match T::parse(buf) {
            Ok(v) => {
                self.outstanding = false;
                Some(v)
            },
            Err(()) => None,
        }
    }

    /// The deadline passed: the exchange ends with a timeout.
    pub fn expire<T>(&mut self) -> (r: Result<T, CommandError>)
        ensures
            r == Err::<T, CommandError>(CommandError::Timeout),
            !final(self).outstanding,
    {
        self.outstanding = false;
        Err(CommandError::Timeout)
    }

    /// Writing the command failed: the exchange ends with a transport error.
    pub fn write_failed<T>(&mut self) -> (r: Result<T, CommandError>)
        ensures
            r == Err::<T, CommandError>(CommandError::Transport),
            !final(self).outstanding,
    {
        self.outstanding = false;
        Err(CommandError::Transport)
    }

    /// Runs the rest of an exchange over the buffers that arrived before the
    /// deadline, in order: the first that parses is the reply and ends the
    /// exchange, whatever follows it; if none parses the exchange times out.
    pub fn exchange<T: CommandResultTrait>(&mut self, replies: &Vec<Vec<u8>>) -> (r: Result<
        T,
        CommandError,
    >)
        requires
            old(self).outstanding,
        ensures
            !final(self).outstanding,
            match first_accepted::<T>(buffers_view(replies@), 0) {
                Some(i) => r matches Ok(v) && v.parsed_from(replies@[i]@),
                None => r == Err::<T, CommandError>(CommandError::Timeout),
            },
    {
        let mut i: usize = 0;
        while i < replies.len()
            invariant
                i <= replies@.len(),
                self.outstanding,
                first_accepted::<T>(buffers_view(replies@), 0) == first_accepted::<T>(
                    buffers_view(replies@),
                    i as int,
                ),
            decreases replies@.len() - i,
        {
            assert(buffers_view(replies@)[i as int] == replies@[i as int]@);
            match self.offer::<T>(replies[i].as_slice()) {
                Some(v) => {
                    return Ok(v);
                },
                None => {},
            }
            i = i + 1;
        }
        self.expire::<T>()
    }
}

/// The reply that ends an exchange is the first buffer that parses: data
/// arriving after it cannot change the outcome, and an exchange in which no
/// buffer parses ends in a timeout.
pub proof fn lemma_first_reply_wins<T: CommandResultTrait>(
    replies: Seq<Seq<u8>>,
    later: Seq<Seq<u8>>,
    from: int,
)
    requires
        0 <= from <= replies.len(),
    ensures
        first_accepted::<T>(replies, from) matches Some(i) ==> first_accepted::<T>(
            replies + later,
            from,
        ) == Some(i),
        first_accepted::<T>(replies, from) is None ==> forall|k: int|
            from <= k < replies.len() ==> !T::accepts(#[trigger] replies[k]),
    decreases replies.len() - from,
{
    if from < replies.len() {
        assert((replies + later)[from] == replies[from]);
        lemma_first_reply_wins::<T>(replies, later, from + 1);
    }
}

/// While a command is outstanding, a second command cannot begin and every
/// receive buffer is routed to the outstanding command, so no other exchange
/// can observe its reply. Once it completes or times out, the link is idle
/// and buffers are downlinks again.
pub proof fn lemma_single_outstanding(t: Transport)
    ensures
        t.outstanding ==> !admits(t) && route_of(t) == Route::Command,
        !t.outstanding ==> admits(t) && route_of(t) == Route::Downlink,
{
}

} // verus!
