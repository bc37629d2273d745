//! The service manager's notification protocol: building the datagram
//! that reports the process's state. Each state is one `KEY=value` line;
//! a notification is the lines of its states joined by newlines. Opening
//! the notification socket and sending the datagram happen outside this
//! crate.

use vstd::prelude::*;

verus! {

/// Daemon notification for the service manager.
pub enum NotifyState {
    /// Service startup is finished.
    Ready,
    /// Service is reloading its configuration.
    Reloading,
    /// Service is stopping.
    Stopping,
    /// Free-form status message for the service manager.
    Status(Vec<u8>),
    /// Service has failed with this `errno`-style error code.
    Errno(u32),
    /// Tells the service manager to update the watchdog timestamp.
    Watchdog,
    /// Custom state line.
    Custom(Vec<u8>),
}

/// The decimal digits of `n`, most significant first.
pub open spec fn dec_digits(n: int) -> Seq<u8>
    decreases n,
{
    if n < 10 {
        seq![(48 + n) as u8]
    } else {
        dec_digits(n / 10) + seq![(48 + n % 10) as u8]
    }
}

/// Append the decimal digits of `n`.
pub fn push_decimal(out: &mut Vec<u8>, n: u32)
    ensures
        final(out)@ == old(out)@ + dec_digits(n as int),
    decreases n,
{
    if n < 10 {
        out.push(48 + n as u8);
        assert(out@ =~= old(out)@ + dec_digits(n as int));
    } else {
        push_decimal(out, n / 10);
        out.push(48 + (n % 10) as u8);
        assert(out@ =~= old(out)@ + dec_digits(n as int));
    }
}

/// The `KEY=value` line one state turns into, without its newline.
pub open spec fn notify_line(s: NotifyState) -> Seq<u8> {
    match s {
        NotifyState::Ready => spec_literal_ready(),
        NotifyState::Reloading => spec_literal_reloading(),
        NotifyState::Stopping => spec_literal_stopping(),
        NotifyState::Status(msg) => spec_literal_status() + msg@,
        NotifyState::Errno(err) => spec_literal_errno() + dec_digits(err as int),
        NotifyState::Watchdog => spec_literal_watchdog(),
        NotifyState::Custom(line) => line@,
    }
}

/// The bytes of `READY=1`.
pub open spec fn spec_literal_ready() -> Seq<u8> {
    seq![82u8, 69u8, 65u8, 68u8, 89u8, 61u8, 49u8]
}

/// The bytes of `RELOADING=1`.
pub open spec fn spec_literal_reloading() -> Seq<u8> {
    seq![82u8, 69u8, 76u8, 79u8, 65u8, 68u8, 73u8, 78u8, 71u8, 61u8, 49u8]
}

/// The bytes of `STOPPING=1`.
pub open spec fn spec_literal_stopping() -> Seq<u8> {
    seq![83u8, 84u8, 79u8, 80u8, 80u8, 73u8, 78u8, 71u8, 61u8, 49u8]
}

/// The bytes of `STATUS=`.
pub open spec fn spec_literal_status() -> Seq<u8> {
    seq![83u8, 84u8, 65u8, 84u8, 85u8, 83u8, 61u8]
}

/// The bytes of `ERRNO=`.
pub open spec fn spec_literal_errno() -> Seq<u8> {
    seq![69u8, 82u8, 82u8, 78u8, 79u8, 61u8]
}

/// The bytes of `WATCHDOG=1`.
pub open spec fn spec_literal_watchdog() -> Seq<u8> {
    seq![87u8, 65u8, 84u8, 67u8, 72u8, 68u8, 79u8, 71u8, 61u8, 49u8]
}

/// Append the `KEY=value` line of `s`.
fn push_line(out: &mut Vec<u8>, s: &NotifyState)
    ensures
        final(out)@ == old(out)@ + notify_line(*s),
{
    match s {
        NotifyState::Ready => {
            out.push(82);
            out.push(69);
            out.push(65);
            out.push(68);
            out.push(89);
            out.push(61);
            out.push(49);
            assert(out@ =~= old(out)@ + spec_literal_ready());
        },
        NotifyState::Reloading => {
            out.push(82);
            out.push(69);
            out.push(76);
            out.push(79);
            out.push(65);
            out.push(68);
            out.push(73);
            out.push(78);
            out.push(71);
            out.push(61);
            out.push(49);
            assert(out@ =~= old(out)@ + spec_literal_reloading());
        },
        NotifyState::Stopping => {
            out.push(83);
            out.push(84);
            out.push(79);
            out.push(80);
            out.push(80);
            out.push(73);
            out.push(78);
            out.push(71);
            out.push(61);
            out.push(49);
            assert(out@ =~= old(out)@ + spec_literal_stopping());
        },
        NotifyState::Status(msg) => {
            out.push(83);
            out.push(84);
            out.push(65);
            out.push(84);
            out.push(85);
            out.push(83);
            out.push(61);
            let ghost mid = out@;
            assert(mid =~= old(out)@ + spec_literal_status());
            crate::wire::push_slice(out, msg.as_slice());
            assert(out@ =~= old(out)@ + (spec_literal_status() + msg@));
        },
        NotifyState::Errno(err) => {
            out.push(69);
            out.push(82);
            out.push(82);
            out.push(78);
            out.push(79);
            out.push(61);
            let ghost mid = out@;
            assert(mid =~= old(out)@ + spec_literal_errno());
            push_decimal(out, *err);
            assert(out@ =~= old(out)@ + (spec_literal_errno() + dec_digits(*err as int)));
        },
        NotifyState::Watchdog => {
            out.push(87);
            out.push(65);
            out.push(84);
            out.push(67);
            out.push(72);
            out.push(68);
            out.push(79);
            out.push(71);
            out.push(61);
            out.push(49);
            assert(out@ =~= old(out)@ + spec_literal_watchdog());
        },
        NotifyState::Custom(line) => {
            crate::wire::push_slice(out, line.as_slice());
        },
    }
}

/// The whole datagram of a notification: the line of each state, each
/// followed by a newline, in order.
pub open spec fn notify_message(states: Seq<NotifyState>, k: int) -> Seq<u8>
    decreases states.len() - k,
{
    if k < 0 || k >= states.len() {
        Seq::<u8>::empty()
    } else {
        notify_line(states[k]) + seq![10u8] + notify_message(states, k + 1)
    }
}

/// Build the datagram that notifies the service manager of `states`.
/// Sending it on the notification socket is the caller's job.
pub fn notify(state: &Vec<NotifyState>) -> (r: Vec<u8>)
    ensures
        r@ == notify_message(state@, 0),
{
    let mut out: Vec<u8> = Vec::new();
    let mut k: usize = 0;
    while k < state.len()
        invariant
            k <= state@.len(),
            out@ + notify_message(state@, k as int) == notify_message(state@, 0),
        decreases state@.len() - k,
    {
        let ghost before = out@;
        push_line(&mut out, &state[k]);
        out.push(10);
        proof {
            assert(out@ =~= before + (notify_line(state@[k as int]) + seq![10u8]));
            assert(out@ + notify_message(state@, k + 1) =~= before + notify_message(
                state@,
                k as int,
            ));
        }
        k = k + 1;
    }
    assert(notify_message(state@, k as int) =~= Seq::<u8>::empty());
    assert(out@ =~= notify_message(state@, 0));
    out
}

/// The process's state, as reported to the service manager. Each change
/// yields the datagram the caller must send on the notification socket.
pub struct ProcessState {}

impl ProcessState {
    /// A fresh reporter.
    pub fn new() -> (r: ProcessState) {
        ProcessState {  }
    }

    /// The service is starting.
    pub fn set_starting(&self) -> (r: Vec<u8>)
        ensures
            r@ == spec_literal_status() + spec_starting_word() + seq![10u8],
    {
        let mut states: Vec<NotifyState> = Vec::new();
        states.push(NotifyState::Status(starting_word()));
        let r = notify(&states);
        proof {
            assert(notify_message(states@, 1) =~= Seq::<u8>::empty());
            assert(r@ =~= spec_literal_status() + spec_starting_word() + seq![10u8]);
        }
        r
    }

    /// The service is up and running.
    pub fn set_running(&self) -> (r: Vec<u8>)
        ensures
            r@ == spec_literal_ready() + seq![10u8],
    {
        let mut states: Vec<NotifyState> = Vec::new();
        states.push(NotifyState::Ready);
        let r = notify(&states);
        proof {
            assert(notify_message(states@, 1) =~= Seq::<u8>::empty());
            assert(r@ =~= spec_literal_ready() + seq![10u8]);
        }
        r
    }

    /// The service has failed and is stopping.
    pub fn set_failed(&self) -> (r: Vec<u8>)
        ensures
            r@ == spec_literal_status() + spec_failed_word() + seq![10u8]
                + spec_literal_stopping() + seq![10u8],
    {
        let mut states: Vec<NotifyState> = Vec::new();
        states.push(NotifyState::Status(failed_word()));
        states.push(NotifyState::Stopping);
        let r = notify(&states);
        proof {
            assert(notify_message(states@, 2) =~= Seq::<u8>::empty());
            assert(notify_message(states@, 1) =~= notify_line(states@[1]) + seq![10u8]);
            assert(r@ =~= spec_literal_status() + spec_failed_word() + seq![10u8]
                + spec_literal_stopping() + seq![10u8]);
        }
        r
    }

    /// The service was cancelled from outside.
    pub fn set_cancelled(&self) -> (r: Vec<u8>)
        ensures
            r@ == spec_literal_errno() + dec_digits(125) + seq![10u8],
    {
        let mut states: Vec<NotifyState> = Vec::new();
        states.push(NotifyState::Errno(125));
        let r = notify(&states);
        proof {
            assert(notify_message(states@, 1) =~= Seq::<u8>::empty());
            assert(r@ =~= spec_literal_errno() + dec_digits(125) + seq![10u8]);
        }
        r
    }

    /// The service finished its work and is stopping.
    pub fn set_finished(&self) -> (r: Vec<u8>)
        ensures
            r@ == spec_literal_stopping() + seq![10u8],
    {
        let mut states: Vec<NotifyState> = Vec::new();
        states.push(NotifyState::Stopping);
        let r = notify(&states);
        proof {
            assert(notify_message(states@, 1) =~= Seq::<u8>::empty());
            assert(r@ =~= spec_literal_stopping() + seq![10u8]);
        }
        r
    }
}

/// The bytes of the status word `starting`.
pub open spec fn spec_starting_word() -> Seq<u8> {
    seq![115u8, 116u8, 97u8, 114u8, 116u8, 105u8, 110u8, 103u8]
}

/// The bytes of the status word `failed`.
pub open spec fn spec_failed_word() -> Seq<u8> {
    seq![102u8, 97u8, 105u8, 108u8, 101u8, 100u8]
}

/// The status word `starting`.
pub fn starting_word() -> (r: Vec<u8>)
    ensures
        r@ == spec_starting_word(),
{
    let mut v: Vec<u8> = Vec::new();
    v.push(115);
    v.push(116);
    v.push(97);
    v.push(114);
    v.push(116);
    v.push(105);
    v.push(110);
    v.push(103);
    proof {
        assert(v@ =~= spec_starting_word());
    }
    v
}

/// The status word `failed`.
pub fn failed_word() -> (r: Vec<u8>)
    ensures
        r@ == spec_failed_word(),
{
    let mut v: Vec<u8> = Vec::new();
    v.push(102);
    v.push(97);
    v.push(105);
    v.push(108);
    v.push(101);
    v.push(100);
    proof {
        assert(v@ =~= spec_failed_word());
    }
    v
}

} // verus!
