//! The thread that answers: it waits for a message and replies to it, a fixed
//! number of times.

use vstd::prelude::*;
use crate::ipc::{IpcAction, MessageInfo, EXCHANGES, empty_message};
use crate::kernel::{CPtr, Word};
use crate::thread::ThreadSpec;

verus! {

/// Badge of the thread's copy of the shared fault endpoint.
pub const FAULT_EP_BADGE: Word = 0x0B;

/// Badge of the copy of the thread's own IPC endpoint; it also labels the
/// messages that the thread sends.
pub const IPC_EP_BADGE: Word = 0x1B;

/// Where the thread's IPC buffer is mapped; any free address would do.
pub const IPC_BUFFER_VADDR: Word = 0x0700_1000;

/// What the thread does after `steps` of its receives and replies are done,
/// and how many will be done after it. It receives and replies in turn.
pub open spec fn run_model(ep_cap: CPtr, aux_ep_cap: CPtr, steps: usize) -> (IpcAction, usize) {
    if steps >= 2 * EXCHANGES {
        (IpcAction::Exit, steps)
    } else if steps % 2 == 0 {
        (IpcAction::Recv { ep: ep_cap }, (steps + 1) as usize)
    } else {
        (IpcAction::Reply { info: empty_message(IPC_EP_BADGE) }, (steps + 1) as usize)
    }
}

/// One step of the thread's session on `ep_cap`.
///
/// `steps` is the number of receives and replies that are done; start with 0.
/// The answer is what to do now, and the number to come back with once it is
/// done. A receive blocks until a message has come. The second endpoint is
/// not used.
pub fn run(ep_cap: CPtr, aux_ep_cap: CPtr, steps: usize) -> (step: (IpcAction, usize))
    ensures
        step == run_model(ep_cap, aux_ep_cap, steps),
{
    if steps >= 2 * EXCHANGES {
        (IpcAction::Exit, steps)
    } else if steps % 2 == 0 {
        (IpcAction::Recv { ep: ep_cap }, steps + 1)
    } else {
        let resp_info: MessageInfo = MessageInfo {
            label: IPC_EP_BADGE,
            caps_unwrapped: 0,
            extra_caps: 0,
            length: 0,
        };
        (IpcAction::Reply { info: resp_info }, steps + 1)
    }
}

/// The thread as it is asked for: its badges, the address of its IPC buffer,
/// and the endpoint it is handed.
pub open spec fn thread_spec_model(entry: Word) -> ThreadSpec {
    ThreadSpec {
        fault_badge: FAULT_EP_BADGE,
        ipc_badge: IPC_EP_BADGE,
        ipc_buffer_vaddr: IPC_BUFFER_VADDR,
        peer: None,
        entry,
    }
}

/// What to ask for to have this thread brought up, running the function at
/// `entry`: it is handed its own endpoint.
#[verifier::when_used_as_spec(thread_spec_model)]
pub fn thread_spec(entry: Word) -> (wanted: ThreadSpec)
    ensures
        wanted == thread_spec_model(entry),
{
    ThreadSpec {
        fault_badge: FAULT_EP_BADGE,
        ipc_badge: IPC_EP_BADGE,
        ipc_buffer_vaddr: IPC_BUFFER_VADDR,
        peer: None,
        entry,
    }
}

} // verus!
