//! The thread that calls: it sends a message to its peer and waits for the
//! reply, a fixed number of times.

use vstd::prelude::*;
use crate::ipc::{IpcAction, MessageInfo, EXCHANGES, empty_message};
use crate::kernel::{CPtr, Word};
use crate::thread::ThreadSpec;
use crate::thread_b;

verus! {

/// Badge of the thread's copy of the shared fault endpoint.
pub const FAULT_EP_BADGE: Word = 0x0A;

/// Badge of the copy of the thread's own IPC endpoint; it also labels the
/// messages that the thread sends.
pub const IPC_EP_BADGE: Word = 0x1A;

/// Where the thread's IPC buffer is mapped; any free address would do.
pub const IPC_BUFFER_VADDR: Word = 0x0700_0000;

/// What the thread does after `calls` of its calls were answered, and how
/// many will have been answered once that is done.
pub open spec fn run_model(ep_cap: CPtr, calls: usize) -> (IpcAction, usize) {
    if calls < EXCHANGES {
        (IpcAction::Call { ep: ep_cap, info: empty_message(IPC_EP_BADGE) }, (calls + 1) as usize)
    } else {
        (IpcAction::Exit, calls)
    }
}

/// One step of the thread's session on `ep_cap`.
///
/// `calls` is the number of calls that were answered so far; start with 0.
/// The answer is what to do now, and the number to come back with once it is
/// done. A call blocks until the peer has replied.
pub fn run(ep_cap: CPtr, calls: usize) -> (step: (IpcAction, usize))
    ensures
        step == run_model(ep_cap, calls),
{
    if calls < EXCHANGES {
        let msg_info: MessageInfo = MessageInfo {
            label: IPC_EP_BADGE,
            caps_unwrapped: 0,
            extra_caps: 0,
            length: 0,
        };
        (IpcAction::Call { ep: ep_cap, info: msg_info }, calls + 1)
    } else {
        (IpcAction::Exit, calls)
    }
}

/// The thread as it is asked for: its badges, the address of its IPC buffer,
/// and the endpoint it is handed.
pub open spec fn thread_spec_model(entry: Word) -> ThreadSpec {
    ThreadSpec {
        fault_badge: FAULT_EP_BADGE,
        ipc_badge: IPC_EP_BADGE,
        ipc_buffer_vaddr: IPC_BUFFER_VADDR,
        peer: Some(thread_b::IPC_EP_BADGE),
        entry,
    }
}

/// What to ask for to have this thread brought up, running the function at
/// `entry`: it is handed the endpoint of the answering thread, which must be
/// built before it.
#[verifier::when_used_as_spec(thread_spec_model)]
pub fn thread_spec(entry: Word) -> (wanted: ThreadSpec)
    ensures
        wanted == thread_spec_model(entry),
{
    ThreadSpec {
        fault_badge: FAULT_EP_BADGE,
        ipc_badge: IPC_EP_BADGE,
        ipc_buffer_vaddr: IPC_BUFFER_VADDR,
        peer: Some(thread_b::IPC_EP_BADGE),
        entry,
    }
}

} // verus!
