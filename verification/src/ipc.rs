//! The messages that two threads exchange once they run, as plain values.

use vstd::prelude::*;
use crate::kernel::{CPtr, Word};
use crate::thread::ThreadSpec;
use crate::thread_a;
use crate::thread_b;

verus! {

/// Number of exchanges in a session between the two threads.
pub const EXCHANGES: usize = 10;

/// The tag that goes with a message.
#[derive(Clone, Copy, Debug, PartialEq, Eq, Structural)]
pub struct MessageInfo {
    pub label: Word,
    pub caps_unwrapped: usize,
    pub extra_caps: usize,
    pub length: usize,
}

/// What a thread of the session does next.
#[derive(Clone, Copy, Debug, PartialEq, Eq, Structural)]
pub enum IpcAction {
    /// Send `info` on `ep` and wait for the reply.
    Call { ep: CPtr, info: MessageInfo },
    /// Wait for a message on `ep`.
    Recv { ep: CPtr },
    /// Answer the message that was received last.
    Reply { info: MessageInfo },
    /// The session is over.
    Exit,
}

/// A message without payload, labelled `label`.
pub open spec fn empty_message(label: Word) -> MessageInfo {
    MessageInfo { label, caps_unwrapped: 0, extra_caps: 0, length: 0 }
}

/// The batch of the two threads of a session: the answering thread first, so
/// that the calling thread can be handed its endpoint.
pub fn session_entries(thread_a_entry: Word, thread_b_entry: Word) -> (entries: Vec<ThreadSpec>)
    ensures
        entries@ == seq![thread_b::thread_spec(thread_b_entry), thread_a::thread_spec(thread_a_entry)],
{
    let mut entries: Vec<ThreadSpec> = Vec::new();
    entries.push(thread_b::thread_spec(thread_b_entry));
    entries.push(thread_a::thread_spec(thread_a_entry));
    entries
}

/// The session runs in lock-step for exactly [`EXCHANGES`] rounds: in each
/// round the one thread calls, and the other receives and then replies;
/// after the last round both are done, and stay so.
pub proof fn lemma_session_in_lock_step(
    caller_ep: CPtr,
    ep_cap: CPtr,
    aux_ep_cap: CPtr,
    round: usize,
)
    ensures
        round < EXCHANGES ==> {
            &&& thread_a::run_model(caller_ep, round) == (
                IpcAction::Call { ep: caller_ep, info: empty_message(thread_a::IPC_EP_BADGE) },
                (round + 1) as usize,
            )
            &&& thread_b::run_model(ep_cap, aux_ep_cap, (2 * round) as usize) == (
                IpcAction::Recv { ep: ep_cap },
                (2 * round + 1) as usize,
            )
            &&& thread_b::run_model(ep_cap, aux_ep_cap, (2 * round + 1) as usize) == (
                IpcAction::Reply { info: empty_message(thread_b::IPC_EP_BADGE) },
                (2 * round + 2) as usize,
            )
        },
        round >= EXCHANGES ==> {
            &&& thread_a::run_model(caller_ep, round) == (IpcAction::Exit, round)
            &&& 2 * round <= usize::MAX ==> thread_b::run_model(ep_cap, aux_ep_cap, (2 * round) as usize) == (
                IpcAction::Exit,
                (2 * round) as usize,
            )
        },
{
}

} // verus!
