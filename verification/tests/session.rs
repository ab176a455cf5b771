use root_bootstrap::ipc::{IpcAction, MessageInfo, EXCHANGES};
use root_bootstrap::{thread_a, thread_b};

fn empty(label: usize) -> MessageInfo {
    MessageInfo { label, caps_unwrapped: 0, extra_caps: 0, length: 0 }
}

#[test]
fn thread_constants() {
    assert_eq!(thread_a::FAULT_EP_BADGE, 0x0A);
    assert_eq!(thread_a::IPC_EP_BADGE, 0x1A);
    assert_eq!(thread_a::IPC_BUFFER_VADDR, 0x0700_0000);
    assert_eq!(thread_b::FAULT_EP_BADGE, 0x0B);
    assert_eq!(thread_b::IPC_EP_BADGE, 0x1B);
    assert_eq!(thread_b::IPC_BUFFER_VADDR, 0x0700_1000);
    assert_eq!(EXCHANGES, 10);
}

#[test]
fn the_calling_thread_calls_ten_times() {
    let mut state = 0;
    let mut calls = 0;
    loop {
        let (action, next) = thread_a::run(106, state);
        match action {
            IpcAction::Call { ep, info } => {
                assert_eq!(ep, 106);
                assert_eq!(info, empty(0x1A));
                assert_eq!(next, state + 1);
                calls += 1;
            }
            IpcAction::Exit => {
                assert_eq!(next, state);
                break;
            }
            other => panic!("the calling thread does not {:?}", other),
        }
        assert!(calls <= 10);
        state = next;
    }
    assert_eq!(calls, 10);
    assert_eq!(thread_a::run(106, 10), (IpcAction::Exit, 10));
    assert_eq!(thread_a::run(106, usize::MAX), (IpcAction::Exit, usize::MAX));
}

#[test]
fn the_answering_thread_receives_and_replies_in_turn() {
    assert_eq!(thread_b::run(106, 0, 0), (IpcAction::Recv { ep: 106 }, 1));
    assert_eq!(thread_b::run(106, 0, 1), (IpcAction::Reply { info: empty(0x1B) }, 2));
    assert_eq!(thread_b::run(106, 0, 18), (IpcAction::Recv { ep: 106 }, 19));
    assert_eq!(thread_b::run(106, 0, 19), (IpcAction::Reply { info: empty(0x1B) }, 20));
    assert_eq!(thread_b::run(106, 0, 20), (IpcAction::Exit, 20));
    assert_eq!(thread_b::run(106, 0, usize::MAX), (IpcAction::Exit, usize::MAX));
}

/// What stands at the endpoint between the two threads.
#[derive(Debug, PartialEq, Eq, Clone, Copy)]
enum Endpoint {
    Idle,
    /// The answering thread waits for a message.
    Receiving,
    /// The calling thread waits for the reply.
    Answering,
}

#[test]
fn ten_exchanges_in_lock_step() {
    let ep = 106;
    let mut a = 0;
    let mut b = 0;
    let mut endpoint = Endpoint::Idle;
    let mut calls = 0;
    let mut receives = 0;
    let mut replies = 0;
    let mut a_done = false;
    let mut b_done = false;
    let mut a_blocked: Option<usize> = None;
    let mut turns = 0;
    while !(a_done && b_done) {
        turns += 1;
        assert!(turns < 1000, "the session does not end");
        // the answering thread runs whenever it is not waiting for a message
        if !b_done && endpoint != Endpoint::Receiving {
            let (action, next) = thread_b::run(ep, 0, b);
            match action {
                IpcAction::Recv { ep: on } => {
                    assert_eq!(on, ep);
                    assert_eq!(endpoint, Endpoint::Idle);
                    endpoint = Endpoint::Receiving;
                    receives += 1;
                    b = next;
                }
                IpcAction::Reply { info } => {
                    assert_eq!(info, empty(0x1B));
                    assert_eq!(endpoint, Endpoint::Answering);
                    endpoint = Endpoint::Idle;
                    replies += 1;
                    b = next;
                    // the reply lets the call return
                    a = a_blocked.take().expect("a call waits for the reply");
                }
                IpcAction::Exit => b_done = true,
                other => panic!("the answering thread does not {:?}", other),
            }
        }
        // the calling thread runs whenever its call has returned
        if !a_done && a_blocked.is_none() {
            let (action, next) = thread_a::run(ep, a);
            match action {
                IpcAction::Call { ep: on, info } => {
                    if endpoint == Endpoint::Receiving {
                        assert_eq!(on, ep);
                        assert_eq!(info, empty(0x1A));
                        endpoint = Endpoint::Answering;
                        calls += 1;
                        a_blocked = Some(next);
                    }
                }
                IpcAction::Exit => a_done = true,
                other => panic!("the calling thread does not {:?}", other),
            }
        }
        assert!(calls - replies <= 1);
        assert!(receives - calls <= 1);
    }
    assert_eq!(calls, 10);
    assert_eq!(receives, 10);
    assert_eq!(replies, 10);
    assert_eq!(endpoint, Endpoint::Idle);
    assert_eq!(a_blocked, None);
}
