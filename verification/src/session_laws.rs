//! What holds of a gate over several calls: handles count up, and initializing
//! and finalizing undo each other.

use crate::fdswap::Redirect;
use crate::paths::{joined_path, same_path, BACKUP_SOCKET};
use crate::pkcs11::{CKR_SESSION_PARALLEL_NOT_SUPPORTED, CK_FLAGS, CK_RV, CK_SESSION_HANDLE};
use crate::session::{text, BackupLinkView, Muting, SessionEnvironment, SessionGateView};
use vstd::prelude::*;

verus! {

/// The session gate after the requests for a session with these flags, in
/// order.
pub open spec fn after_requests(gate: SessionGateView, requests: Seq<CK_FLAGS>) -> SessionGateView
    decreases requests.len(),
{
    if requests.len() == 0 {
        gate
    } else {
        after_requests(gate, requests.drop_last()).opened(requests.last())
    }
}

/// How many of the requests ask for a serial session.
pub open spec fn serial_count(requests: Seq<CK_FLAGS>) -> nat
    decreases requests.len(),
{
    if requests.len() == 0 {
        0
    } else if SessionGateView::is_serial(requests.last()) {
        serial_count(requests.drop_last()) + 1
    } else {
        serial_count(requests.drop_last())
    }
}

/// The answer to the request at `index`, after those before it.
pub open spec fn reply_at(gate: SessionGateView, requests: Seq<CK_FLAGS>, index: int) -> Result<
    CK_SESSION_HANDLE,
    CK_RV,
> {
    after_requests(gate, requests.take(index)).open_reply(requests[index])
}

/// The number of serial requests grows with the number of requests.
proof fn lemma_serial_count_grows(requests: Seq<CK_FLAGS>, shorter: int, longer: int)
    requires
        0 <= shorter <= longer <= requests.len(),
    ensures
        serial_count(requests.take(shorter)) <= serial_count(requests.take(longer)),
    decreases longer - shorter,
{
    if shorter < longer {
        lemma_serial_count_grows(requests, shorter, longer - 1);
        assert(requests.take(longer).drop_last() =~= requests.take(longer - 1));
    }
}

/// Requests for a session leave the swap of standard error alone and move the
/// counter on by one for each serial request, as long as the counter does not
/// run over.
pub proof fn lemma_requests_count(gate: SessionGateView, requests: Seq<CK_FLAGS>)
    requires
        gate.next_handle + serial_count(requests) <= u64::MAX,
    ensures
        after_requests(gate, requests).stderr == gate.stderr,
        after_requests(gate, requests).next_handle == gate.next_handle + serial_count(requests),
    decreases requests.len(),
{
    if requests.len() > 0 {
        lemma_requests_count(gate, requests.drop_last());
    }
}

/// Session handles count up. A request without the serial flag is refused and
/// uses up no handle; the serial requests get the handles from the session
/// gate's next handle on, one after the other. So the handles of a freshly
/// loaded module are 1, 2, 3 and so on, and each is greater than all before it.
///
/// The counter has 64 bits: the law speaks of runs that do not exhaust it.
pub proof fn law_handles_count_up(gate: SessionGateView, requests: Seq<CK_FLAGS>)
    requires
        gate.next_handle + serial_count(requests) <= u64::MAX,
    ensures
        forall|i: int|
            0 <= i < requests.len() && !SessionGateView::is_serial(requests[i])
                ==> #[trigger] reply_at(gate, requests, i) == Err::<CK_SESSION_HANDLE, CK_RV>(
                CKR_SESSION_PARALLEL_NOT_SUPPORTED,
            ),
        forall|i: int|
            0 <= i < requests.len() && SessionGateView::is_serial(requests[i])
                ==> #[trigger] reply_at(gate, requests, i) == Ok::<CK_SESSION_HANDLE, CK_RV>(
                (gate.next_handle + serial_count(requests.take(i))) as u64,
            ),
        forall|i: int, j: int|
            0 <= i < j < requests.len() && SessionGateView::is_serial(requests[i])
                && SessionGateView::is_serial(requests[j]) ==> (#[trigger] reply_at(
                gate,
                requests,
                i,
            ))->Ok_0 < (#[trigger] reply_at(gate, requests, j))->Ok_0,
{
    assert forall|i: int| 0 <= i < requests.len() implies after_requests(
        gate,
        #[trigger] requests.take(i),
    ).next_handle == gate.next_handle + serial_count(requests.take(i)) by {
        lemma_serial_count_grows(requests, i, requests.len() as int);
        assert(requests.take(requests.len() as int) =~= requests);
        lemma_requests_count(gate, requests.take(i));
    }
    assert forall|i: int, j: int|
        0 <= i < j < requests.len() && SessionGateView::is_serial(requests[i])
            && SessionGateView::is_serial(requests[j]) implies (#[trigger] reply_at(
        gate,
        requests,
        i,
    ))->Ok_0 < (#[trigger] reply_at(gate, requests, j))->Ok_0 by {
        lemma_serial_count_grows(requests, i + 1, j);
        assert(requests.take(i + 1).drop_last() =~= requests.take(i));
        assert(requests.take(i + 1).last() == requests[i]);
        lemma_serial_count_grows(requests, j, requests.len() as int);
        assert(requests.take(requests.len() as int) =~= requests);
    }
}

/// The socket that the client was given is kept exactly where it is not the
/// agent's own. Where the surroundings tell the agent's socket, the value of
/// the variable and the invoking user's home directory, the backup link leads
/// from the backup path below that home directory to the variable's value if
/// the value is another path than the agent's socket, and no link is made if
/// it is the same path.
pub proof fn law_backup_only_of_other_socket(environment: SessionEnvironment)
    ensures
        match (
            environment.agent_socket(),
            text(environment.socket_path),
            text(environment.home),
        ) {
            (Some(agent), Some(original), Some(home)) => environment.backup() == if same_path(
                original,
                agent,
            ) {
                None
            } else {
                Some(BackupLinkView { original, link: joined_path(home, BACKUP_SOCKET@) })
            },
            _ => environment.backup() is None,
        },
{
}

/// The session gate after cycles of initializing and finalizing, one for each
/// element of `mutings`.
pub open spec fn after_cycles(
    gate: SessionGateView,
    mutings: Seq<Option<Muting>>,
) -> SessionGateView
    decreases mutings.len(),
{
    if mutings.len() == 0 {
        gate
    } else {
        after_cycles(gate, mutings.drop_last()).initialized(mutings.last()).finalized()
    }
}

/// Initializing and then finalizing mutes standard error and gives it back.
/// Where muting has its descriptors, initializing asks to put the discard
/// destination onto standard error, and finalizing asks to put back the
/// duplicate that initializing saved; where it has none, neither asks for
/// anything. Either way the session gate is afterwards as it was before.
pub proof fn law_finalize_undoes_initialize(gate: SessionGateView, muting: Option<Muting>)
    requires
        gate.stderr.saved is None,
    ensures
        gate.initialized(muting).finalized() == gate,
        match muting {
            Some(m) if m.duplicate >= 0 => gate.mute_request(muting) == Some(
                Redirect { source: m.discard, target: gate.stderr.target },
            ) && gate.initialized(muting).stderr.restore_request() == Some(
                Redirect { source: m.duplicate, target: gate.stderr.target },
            ),
            _ => gate.mute_request(muting) is None && gate.initialized(
                muting,
            ).stderr.restore_request() is None,
        },
{
}

/// Any number of cycles leave the session gate as it was: no cycle leaves a
/// trace in it, so each one behaves as the first did.
pub proof fn law_cycles_leave_no_trace(gate: SessionGateView, mutings: Seq<Option<Muting>>)
    requires
        gate.stderr.saved is None,
    ensures
        after_cycles(gate, mutings) == gate,
    decreases mutings.len(),
{
    if mutings.len() > 0 {
        law_cycles_leave_no_trace(gate, mutings.drop_last());
        law_finalize_undoes_initialize(gate, mutings.last());
    }
}

} // verus!
