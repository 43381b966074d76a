//! Console buffers.
use vstd::prelude::*;

use crate::console::{
    axvisor_linux_console_enqueue_bytes, axvisor_linux_console_read_bytes, axvisor_linux_console_shell_ready,
    axvisor_linux_guest_console_drain_bytes, axvisor_linux_guest_console_enqueue_bytes, guest_output_keeps_the_newest,
    LinuxConsoleAdapter, LinuxGuestConsoleAdapter, ReadStep,
};

verus! {

/// The smaller of two numbers.
pub open spec fn least(a: int, b: int) -> int {
    if a <= b {
        a
    } else {
        b
    }
}

/// A read of a buffer: the oldest bytes, as many as there are and fit, in order, at the
/// start of the destination, which is unchanged behind them; and they are what the buffer
/// loses.
pub open spec fn reads(was: Seq<u8>, now: Seq<u8>, dest_was: Seq<u8>, dest: Seq<u8>, n: int) -> bool {
    &&& n == least(was.len() as int, dest_was.len() as int)
    &&& dest.len() == dest_was.len()
    &&& forall|i: int| 0 <= i < n ==> #[trigger] dest[i] == was[i]
    &&& forall|i: int| n <= i < dest.len() ==> #[trigger] dest[i] == dest_was[i]
    &&& now.len() == was.len() - n
    &&& forall|i: int| 0 <= i < now.len() ==> #[trigger] now[i] == was[n + i]
}

/// Bytes added at the end of a buffer: the first `n` of them, in order, after all that
/// waited.
pub open spec fn adds(was: Seq<u8>, now: Seq<u8>, bytes: Seq<u8>, n: int) -> bool {
    &&& 0 <= n <= bytes.len()
    &&& now.len() == was.len() + n
    &&& forall|i: int| 0 <= i < was.len() ==> #[trigger] now[i] == was[i]
    &&& forall|i: int| 0 <= i < n ==> #[trigger] now[was.len() + i] == bytes[i]
}

/// A read takes the oldest input first. Where there is none a reader waits, if it can, and
/// else gets nothing; input that ran out is no longer pending.
pub proof fn read_takes_the_oldest_first(c: &mut LinuxConsoleAdapter, bytes: &mut [u8], step: ReadStep)
    requires
        call_ensures(LinuxConsoleAdapter::read_bytes, (c, bytes), step),
    ensures
        ({
            let empty = old(c).input@.len() == 0;
            let nowhere = old(bytes)@.len() == 0;
            &&& !empty && !nowhere ==> {
                let n = least(old(c).input@.len() as int, old(bytes)@.len() as int);
                &&& step == ReadStep::Read(n as usize)
                &&& reads(old(c).input@, final(c).input@, old(bytes)@, final(bytes)@, n)
                &&& final(c).pending == (old(c).pending && !(final(c).input@.len() == 0 && old(c).waitable))
            }
            &&& nowhere ==> step == ReadStep::Read(0)
            &&& !nowhere && empty ==> step == (if old(c).waitable {
                ReadStep::WaitPending
            } else {
                ReadStep::Read(0)
            })
            &&& empty || nowhere ==> final(c)@ == old(c)@ && final(bytes)@ == old(bytes)@
            &&& final(c).waitable == old(c).waitable && final(c).shell_ready == old(c).shell_ready
        }),
{
}

/// Input is added at the end, as much as there is memory for, and wakes readers exactly
/// where some was added and they can wait.
pub proof fn input_is_added_at_the_end(c: &mut LinuxConsoleAdapter, bytes: &[u8], granted: Option<usize>, r: (usize, bool))
    requires
        call_ensures(LinuxConsoleAdapter::enqueue_bytes, (c, bytes, granted), r),
    ensures
        adds(old(c).input@, final(c).input@, bytes@, r.0 as int),
        granted is None ==> r.0 == 0,
        granted matches Some(n) ==> r.0 == least(n as int, bytes@.len() as int),
        r.1 <==> r.0 > 0 && old(c).waitable,
        final(c).pending <==> old(c).pending || r.1,
        final(c).waitable == old(c).waitable && final(c).shell_ready == old(c).shell_ready,
{
}

/// The calls for the console are those of the console, for callers that have a place for
/// the bytes; a caller that reads marks the shell as ready.
pub proof fn calls_are_those_of_the_console(
    c: &mut LinuxConsoleAdapter,
    present: bool,
    bytes: &mut [u8],
    step: ReadStep,
    d: &mut LinuxConsoleAdapter,
    given: Option<&[u8]>,
    granted: Option<usize>,
    r: (usize, bool),
    e: &LinuxConsoleAdapter,
    ready: bool,
    pending: bool,
)
    requires
        call_ensures(axvisor_linux_console_read_bytes, (c, present, bytes), step),
        call_ensures(axvisor_linux_console_enqueue_bytes, (d, given, granted), r),
        call_ensures(axvisor_linux_console_shell_ready, (e,), ready),
        call_ensures(LinuxConsoleAdapter::input_pending, (e,), pending),
    ensures
        ({
            let asked = present && old(bytes)@.len() > 0;
            &&& asked ==> final(c).shell_ready
            &&& asked && old(c).input@.len() > 0 ==> {
                let n = least(old(c).input@.len() as int, old(bytes)@.len() as int);
                &&& step == ReadStep::Read(n as usize)
                &&& reads(old(c).input@, final(c).input@, old(bytes)@, final(bytes)@, n)
            }
            &&& asked && old(c).input@.len() == 0 ==> final(c).input@ == old(c).input@ && final(bytes)@ == old(bytes)@ && step
                == (if old(c).waitable {
                ReadStep::WaitPending
            } else {
                ReadStep::Read(0)
            })
            &&& !asked ==> step == ReadStep::Read(0) && final(c)@ == old(c)@ && final(bytes)@ == old(bytes)@
        }),
        given is None ==> r.0 == 0 && !r.1 && final(d)@ == old(d)@,
        given matches Some(b) ==> {
            &&& adds(old(d).input@, final(d).input@, b@, r.0 as int)
            &&& granted is None ==> r.0 == 0
            &&& granted matches Some(n) ==> r.0 == least(n as int, b@.len() as int)
            &&& r.1 <==> r.0 > 0 && old(d).waitable
            &&& final(d).pending <==> old(d).pending || r.1
        },
        ready == e.shell_ready && pending == e.pending,
{
}

/// Making input something to wait for keeps what waits; a new console has none.
pub proof fn console_begins_empty(c: LinuxConsoleAdapter, d: &mut LinuxConsoleAdapter, g: LinuxGuestConsoleAdapter)
    requires
        call_ensures(LinuxConsoleAdapter::new, (), c),
        call_ensures(LinuxConsoleAdapter::install_input_state, (d,), ()),
        call_ensures(LinuxGuestConsoleAdapter::new, (), g),
    ensures
        c.input@.len() == 0 && !c.pending && !c.waitable && !c.shell_ready,
        final(d).input@ == old(d).input@ && !final(d).pending && final(d).waitable && final(d).shell_ready == old(
            d,
        ).shell_ready,
        g.input@.len() == 0 && g.output@.len() == 0,
{
}

/// The guest's output keeps the newest bytes, in order, as many as its buffer holds; where
/// no memory could be set aside what waited is dropped first.
pub proof fn guest_output_keeps_its_end(c: &mut LinuxGuestConsoleAdapter, bytes: &[u8], reserved: bool, pushes: usize)
    requires
        old(c).wf(),
        pushes >= bytes@.len(),
        call_ensures(LinuxGuestConsoleAdapter::write_bytes_to_rust_buffer, (c, bytes, reserved, pushes), ()),
    ensures
        ({
            let kept = if reserved || bytes@.len() == 0 {
                old(c).output@
            } else {
                seq![]
            };
            let all = kept + bytes@;
            let out = final(c).output@;
            &&& out.len() == least(all.len() as int, 65536)
            &&& forall|i: int| 0 <= i < out.len() ==> #[trigger] out[i] == all[all.len() - out.len() + i]
            &&& final(c).input@ == old(c).input@
        }),
{
    let kept = if reserved {
        old(c).output@
    } else {
        seq![]
    };
    if bytes@.len() > 0 {
        guest_output_keeps_the_newest(kept, bytes@, pushes as int);
    }
}

/// Guest input is added at the end as far as its buffer of 4096 bytes and memory go, and
/// read, like guest output, oldest first.
pub proof fn guest_bytes_come_in_order(
    c: &mut LinuxGuestConsoleAdapter,
    bytes: &[u8],
    granted: Option<usize>,
    written: usize,
    d: &mut LinuxGuestConsoleAdapter,
    input: &mut [u8],
    read: usize,
    e: &mut LinuxGuestConsoleAdapter,
    output: &mut [u8],
    drained: usize,
)
    requires
        old(c).wf(),
        old(d).wf(),
        old(e).wf(),
        call_ensures(LinuxGuestConsoleAdapter::enqueue_input_bytes, (c, bytes, granted), written),
        call_ensures(LinuxGuestConsoleAdapter::read_input_bytes_from_rust_buffer, (d, input), read),
        call_ensures(LinuxGuestConsoleAdapter::drain_output_bytes, (e, output), drained),
    ensures
        adds(old(c).input@, final(c).input@, bytes@, written as int),
        granted is None ==> written == 0,
        granted matches Some(n) ==> written == least(
            least(n as int, bytes@.len() as int),
            4096 - old(c).input@.len(),
        ),
        final(c).output@ == old(c).output@,
        reads(old(d).input@, final(d).input@, old(input)@, final(input)@, read as int),
        final(d).output@ == old(d).output@,
        reads(old(e).output@, final(e).output@, old(output)@, final(output)@, drained as int),
        final(e).input@ == old(e).input@,
{
}

/// The calls for the guest's console are those of the guest's console, for callers that
/// have bytes or a place for them.
pub proof fn guest_calls_are_those_of_the_console(
    c: &mut LinuxGuestConsoleAdapter,
    given: Option<&[u8]>,
    granted: Option<usize>,
    written: usize,
    e: &mut LinuxGuestConsoleAdapter,
    present: bool,
    output: &mut [u8],
    drained: usize,
)
    requires
        old(c).wf(),
        old(e).wf(),
        call_ensures(axvisor_linux_guest_console_enqueue_bytes, (c, given, granted), written),
        call_ensures(axvisor_linux_guest_console_drain_bytes, (e, present, output), drained),
    ensures
        given is None ==> written == 0 && final(c)@ == old(c)@,
        given matches Some(b) ==> {
            &&& adds(old(c).input@, final(c).input@, b@, written as int)
            &&& granted matches Some(n) ==> written == least(least(n as int, b@.len() as int), 4096 - old(c).input@.len())
            &&& granted is None ==> written == 0
        },
        present ==> reads(old(e).output@, final(e).output@, old(output)@, final(output)@, drained as int),
        !present ==> drained == 0 && final(e).output@ =~= old(e).output@ && final(output)@ =~= old(output)@,
{
}

} // verus!
