//! What holds of the protocol as a whole.

use vstd::prelude::*;
use crate::addr::Address;
use crate::buf::{advance_run, all_wf, fill_run, offset_at, total_room, Buffer, BufferView};
use crate::completion::accept_outcome;
use crate::error::BufResult;
use crate::op::{Operation, Phase, Signal};
use crate::platform::Backend;
use crate::socket::{started, Accepting, SocketView};

verus! {

/// A buffer that took `data` is the buffer that went in: it has the same
/// length, the bytes before the old cursor and the bytes behind the new one
/// are untouched, the bytes between are `data`, and the cursor has moved by
/// exactly the length of `data`.
pub proof fn filled_buffer_is_the_same_buffer(buffer: BufferView, data: Seq<u8>)
    requires
        buffer.wf(),
        data.len() <= buffer.room(),
    ensures
        buffer.fill(data).wf(),
        buffer.fill(data).cursor == buffer.cursor + data.len(),
        buffer.fill(data).bytes.len() == buffer.bytes.len(),
        buffer.fill(data).bytes.subrange(0, buffer.cursor as int) == buffer.bytes.subrange(
            0,
            buffer.cursor as int,
        ),
        buffer.fill(data).bytes.subrange(
            buffer.cursor as int,
            (buffer.cursor + data.len()) as int,
        ) == data,
        buffer.fill(data).pending() == buffer.pending().skip(data.len() as int),
{
    let after = buffer.fill(data);
    assert(after.bytes.subrange(0, buffer.cursor as int) =~= buffer.bytes.subrange(
        0,
        buffer.cursor as int,
    ));
    assert(after.bytes.subrange(buffer.cursor as int, (buffer.cursor + data.len()) as int)
        =~= data);
    assert(after.pending() =~= buffer.pending().skip(data.len() as int));
}

/// A buffer whose cursor moved by `n` holds the bytes it held, and what is
/// left from the cursor on is what was left before without its first `n`
/// bytes.
pub proof fn advanced_buffer_is_the_same_buffer(buffer: BufferView, n: nat)
    requires
        buffer.wf(),
        n <= buffer.room(),
    ensures
        buffer.advance(n).wf(),
        buffer.advance(n).cursor == buffer.cursor + n,
        buffer.advance(n).bytes == buffer.bytes,
        buffer.advance(n).pending() == buffer.pending().skip(n as int),
{
    assert(buffer.advance(n).pending() =~= buffer.pending().skip(n as int));
}

/// The cursors of the first `i` regions together.
pub open spec fn cursors_before(bufs: Seq<BufferView>, i: int) -> nat
    decreases i,
{
    if i <= 0 {
        0
    } else {
        cursors_before(bufs, i - 1) + bufs[i - 1].cursor
    }
}

proof fn advanced_prefix(bufs: Seq<BufferView>, n: nat, i: int)
    requires
        all_wf(bufs),
        0 <= i <= bufs.len(),
    ensures
        cursors_before(advance_run(bufs, n), i) == cursors_before(bufs, i) + offset_at(bufs, n, i),
        forall|j: int| 0 <= j < i ==> (#[trigger] advance_run(bufs, n)[j]).wf(),
    decreases i,
{
    if i > 0 {
        advanced_prefix(bufs, n, i - 1);
    }
}

proof fn filled_prefix(bufs: Seq<BufferView>, data: Seq<u8>, i: int)
    requires
        all_wf(bufs),
        0 <= i <= bufs.len(),
    ensures
        cursors_before(fill_run(bufs, data), i) == cursors_before(bufs, i) + offset_at(
            bufs,
            data.len(),
            i,
        ),
        forall|j: int|
            0 <= j < i ==> (#[trigger] fill_run(bufs, data)[j]).wf() && fill_run(
                bufs,
                data,
            )[j].bytes.len() == bufs[j].bytes.len(),
    decreases i,
{
    if i > 0 {
        filled_prefix(bufs, data, i - 1);
    }
}

/// A run of regions whose cursors moved for a transfer of `n` bytes is
/// still well formed, and its cursors have moved by exactly `n` together.
pub proof fn advanced_run_moves_by_count(bufs: Seq<BufferView>, n: nat)
    requires
        all_wf(bufs),
        n <= total_room(bufs),
    ensures
        all_wf(advance_run(bufs, n)),
        cursors_before(advance_run(bufs, n), bufs.len() as int) == cursors_before(
            bufs,
            bufs.len() as int,
        ) + n,
{
    advanced_prefix(bufs, n, bufs.len() as int);
}

/// A run of regions that took `data` is still well formed, every region
/// has the length it had, and the cursors have moved by exactly the length
/// of `data` together.
pub proof fn filled_run_moves_by_count(bufs: Seq<BufferView>, data: Seq<u8>)
    requires
        all_wf(bufs),
        data.len() <= total_room(bufs),
    ensures
        all_wf(fill_run(bufs, data)),
        forall|j: int|
            0 <= j < bufs.len() ==> (#[trigger] fill_run(bufs, data)[j]).bytes.len()
                == bufs[j].bytes.len(),
        cursors_before(fill_run(bufs, data), bufs.len() as int) == cursors_before(
            bufs,
            bufs.len() as int,
        ) + data.len(),
{
    filled_prefix(bufs, data, bufs.len() as int);
}

/// The phase a request is in after `signals` arrived in order; a signal
/// that does not apply is passed over.
pub open spec fn phase_after(phase: Phase, signals: Seq<Signal>, cancellable: bool) -> Phase
    decreases signals.len(),
{
    if signals.len() == 0 {
        phase
    } else {
        phase_after(next_phase(phase, signals[0], cancellable), signals.skip(1), cancellable)
    }
}

/// The phase after one signal; the same phase where it does not apply.
pub open spec fn next_phase(phase: Phase, signal: Signal, cancellable: bool) -> Phase {
    match phase.after(signal, cancellable) {
        Some(p) => p,
        None => phase,
    }
}

/// How many outcomes the caller sees while `signals` arrive in order.
pub open spec fn deliveries(phase: Phase, signals: Seq<Signal>, cancellable: bool) -> nat
    decreases signals.len(),
{
    if signals.len() == 0 {
        0
    } else {
        let now: nat = if phase.delivers(signals[0]) {
            1
        } else {
            0
        };
        now + deliveries(next_phase(phase, signals[0], cancellable), signals.skip(1), cancellable)
    }
}

/// Once a request is completed or cancelled, the caller sees nothing more
/// of it, whatever arrives.
pub proof fn ended_request_is_silent(phase: Phase, signals: Seq<Signal>, cancellable: bool)
    requires
        phase is Completed || phase is Cancelled,
    ensures
        deliveries(phase, signals, cancellable) == 0,
        phase_after(phase, signals, cancellable) == phase,
    decreases signals.len(),
{
    if signals.len() > 0 {
        ended_request_is_silent(
            next_phase(phase, signals[0], cancellable),
            signals.skip(1),
            cancellable,
        );
    }
}

/// No request shows the caller more than one outcome.
pub proof fn at_most_one_outcome(phase: Phase, signals: Seq<Signal>, cancellable: bool)
    ensures
        deliveries(phase, signals, cancellable) <= 1,
    decreases signals.len(),
{
    if signals.len() > 0 {
        let next = next_phase(phase, signals[0], cancellable);
        if phase.delivers(signals[0]) {
            ended_request_is_silent(next, signals.skip(1), cancellable);
        } else {
            at_most_one_outcome(next, signals.skip(1), cancellable);
        }
    }
}

/// A cancellable request whose task was dropped before the outcome shows
/// the caller nothing, also where the system completes it afterwards.
pub proof fn abandoned_request_is_silent(phase: Phase, later: Seq<Signal>)
    requires
        phase is Constructed || phase is Submitted,
    ensures
        next_phase(phase, Signal::Abandon, true) is Cancelled,
        deliveries(phase, seq![Signal::Abandon] + later, true) == 0,
        phase_after(phase, seq![Signal::Abandon] + later, true) is Cancelled,
{
    let signals = seq![Signal::Abandon] + later;
    assert(signals[0] == Signal::Abandon);
    assert(signals.skip(1) =~= later);
    ended_request_is_silent(Phase::Cancelled, later, true);
}

/// A submitted request that cannot be cancelled, as a close is, completes
/// exactly once as soon as the system reports, however often its task is
/// dropped before.
pub proof fn uncancellable_request_completes_once(signals: Seq<Signal>)
    requires
        signals.contains(Signal::Complete),
    ensures
        deliveries(Phase::Submitted, signals, false) == 1,
        phase_after(Phase::Submitted, signals, false) is Completed,
    decreases signals.len(),
{
    let rest = signals.skip(1);
    if signals[0] == Signal::Complete {
        ended_request_is_silent(Phase::Completed, rest, false);
    } else {
        let i = choose|i: int| 0 <= i < signals.len() && signals[i] == Signal::Complete;
        assert(rest[i - 1] == Signal::Complete);
        assert(next_phase(Phase::Submitted, signals[0], false) == Phase::Submitted);
        uncancellable_request_completes_once(rest);
    }
}

/// A request that cannot be cancelled, as a close is, completes exactly
/// once from the moment it is made, provided only that the runtime submits
/// it and the system reports afterwards: dropping its task at any point
/// changes nothing.
pub proof fn uncancellable_request_completes_once_made(signals: Seq<Signal>, i: int, j: int)
    requires
        0 <= i < j < signals.len(),
        signals[i] == Signal::Submit,
        signals[j] == Signal::Complete,
    ensures
        deliveries(Phase::Constructed, signals, false) == 1,
        phase_after(Phase::Constructed, signals, false) is Completed,
    decreases signals.len(),
{
    let rest = signals.skip(1);
    if signals[0] == Signal::Submit {
        assert(rest[j - 1] == Signal::Complete);
        uncancellable_request_completes_once(rest);
    } else {
        assert(next_phase(Phase::Constructed, signals[0], false) == Phase::Constructed);
        assert(rest[i - 1] == Signal::Submit);
        assert(rest[j - 1] == Signal::Complete);
        uncancellable_request_completes_once_made(rest, i - 1, j - 1);
    }
}

/// A handle that an accept gives owns a descriptor, is attached to nothing,
/// and has the family, kind and protocol of the listener.
pub proof fn accepted_handle_matches_listener(
    backend: Backend,
    listener: Accepting,
    raw: Result<i32, i32>,
    nonblocking: Result<(), i32>,
    finalize: Result<(), i32>,
    peer: Result<Address, i32>,
)
    ensures
        accept_outcome(backend, listener, raw, nonblocking, finalize, peer) matches Ok(pair) ==> {
            &&& pair.0.fd is Some
            &&& pair.0.runtime is None
            &&& pair.0.family == listener.family
            &&& pair.0.kind == listener.kind
            &&& pair.0.protocol == listener.protocol
            &&& pair.0.backend == backend
            &&& peer == Ok::<Address, i32>(pair.1)
        },
{
}

/// Where the system reports a peer of the listener's family, the accepted
/// handle and the peer's address agree on that family.
pub proof fn accepted_peer_matches_listener(
    backend: Backend,
    listener: Accepting,
    raw: Result<i32, i32>,
    nonblocking: Result<(), i32>,
    finalize: Result<(), i32>,
    peer: Result<Address, i32>,
)
    requires
        peer matches Ok(addr) ==> addr@.family == listener.family,
    ensures
        accept_outcome(backend, listener, raw, nonblocking, finalize, peer) matches Ok(pair)
            ==> pair.1@.family == listener.family && pair.0.family == pair.1@.family,
{
}

/// A live handle and a clone of it both start their requests, each on its
/// own descriptor and each owning only what was moved into it: neither
/// request holds anything of the other.
pub proof fn clones_start_independently(
    socket: SocketView,
    duplicate: i32,
    outgoing: Buffer,
    incoming: Buffer,
    sending: Result<Operation<Buffer>, BufResult<usize, Buffer>>,
    receiving: Result<Operation<Buffer>, BufResult<usize, Buffer>>,
)
    requires
        socket.fd is Some,
        started(socket, None, outgoing, sending),
        started(
            SocketView::fresh(
                duplicate,
                socket.family,
                socket.kind,
                socket.protocol,
                socket.backend,
            ),
            None,
            incoming,
            receiving,
        ),
    ensures
        sending matches Ok(op) && op@.fd == socket.fd->Some_0 && op@.resource == outgoing
            && op@.phase is Constructed,
        receiving matches Ok(op) && op@.fd == duplicate && op@.resource == incoming
            && op@.phase is Constructed,
{
}

} // verus!
