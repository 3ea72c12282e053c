//! Pending launcher-script callbacks.
//!
//! When a launcher script is started for an edit session, the app registers
//! the session and waits on a one-shot channel; the script later reports over
//! IPC that it either spawned the editor itself or wants the normal terminal
//! flow. The registry maps each pending session to the sending half of its
//! channel. Its model is the set of pending session ids, each occurring
//! once, and the sender stored for each.
//!
//! The registry is held as `Option<LauncherRegistry>`: `None` until `init`
//! runs, as the app keeps it.

use vstd::prelude::*;

use tokio::sync::oneshot::error::RecvError;
use tokio::sync::oneshot::{Receiver, Sender};

verus! {

/// The sending half of a tokio one-shot channel, carried through opaquely.
#[verifier::external_type_specification]
#[verifier::external_body]
#[verifier::reject_recursive_types(T)]
pub struct ExOneshotSender<T>(Sender<T>);

/// The receiving half of a tokio one-shot channel, carried through opaquely.
#[verifier::external_type_specification]
#[verifier::external_body]
#[verifier::reject_recursive_types(T)]
pub struct ExOneshotReceiver<T>(Receiver<T>);

/// The error a receiver yields when its sender was dropped unsent; named
/// because awaiting a receiver can produce it.
#[verifier::external_type_specification]
#[verifier::external_body]
pub struct ExOneshotRecvError(RecvError);

/// Calls `tokio::sync::oneshot::channel`, which makes a connected pair of
/// halves. Nothing about the pair can be stated here.
#[verifier::external_body]
fn new_channel() -> (Sender<LauncherCallback>, Receiver<LauncherCallback>) {
    tokio::sync::oneshot::channel()
}

/// Calls `Sender::send`, which hands the value to the receiver if it is
/// still open. Whether the receiver was still there is not reported.
#[verifier::external_body]
fn send_callback(tx: Sender<LauncherCallback>, cb: LauncherCallback) {
    let _ = tx.send(cb);
}

/// What a launcher script reported.
#[derive(Debug)]
pub enum LauncherCallback {
    /// The script spawned the editor, optionally reporting its process id.
    Handled { editor_pid: Option<u32> },
    /// The script wants the normal terminal flow.
    Fallthrough,
}

/// Sessions waiting for their launcher script, each with its channel.
pub struct LauncherRegistry {
    entries: Vec<(String, Sender<LauncherCallback>)>,
    /// The callback last taken out with each signalled session's sender.
    sent: Ghost<Map<Seq<char>, LauncherCallback>>,
}

impl LauncherRegistry {
    /// The session ids in storage order.
    pub closed spec fn keys(&self) -> Seq<Seq<char>> {
        self.entries@.map_values(|e: (String, Sender<LauncherCallback>)| e.0@)
    }

    /// No session id occurs twice.
    pub closed spec fn wf(&self) -> bool {
        forall|i: int, j: int|
            0 <= i < j < self.keys().len() ==> #[trigger] self.keys()[i] != #[trigger] self.keys()[j]
    }

    /// The pending session ids.
    pub closed spec fn pending(&self) -> Set<Seq<char>> {
        self.keys().to_set()
    }

    /// The callback last taken out, together with the session's sender,
    /// for each signalled session: what `take_signal` hands over to be sent.
    pub closed spec fn sent(&self) -> Map<Seq<char>, LauncherCallback> {
        self.sent@
    }

    /// The sender stored for a pending session id.
    pub closed spec fn sender_for(&self, id: Seq<char>) -> Sender<LauncherCallback> {
        self.entries@[choose|i: int| 0 <= i < self.keys().len() && self.keys()[i] == id].1
    }

    /// Index of `id` among the entries, if it is there.
    fn find(&self, id: &str) -> (r: Option<usize>)
        ensures
            match r {
                Some(i) => i < self.keys().len() && self.keys()[i as int] == id@,
                None => !self.keys().contains(id@),
            },
    {
        let n = self.entries.len();
        let mut i: usize = 0;
        while i < n
            invariant
                n == self.entries@.len(),
                n == self.keys().len(),
                i <= n,
                forall|j: int| 0 <= j < i ==> self.keys()[j] != id@,
            decreases n - i,
        {
            let k: &str = self.entries[i].0.as_str();
            if crate::text::str_eq(k, id) {
                return Some(i);
            }
            i = i + 1;
        }
        None
    }
}

/// The pending set of a registry slot: empty when it was never initialised.
pub open spec fn pending_of(slot: Option<LauncherRegistry>) -> Set<Seq<char>> {
    match slot {
        Some(r) => r.pending(),
        None => Set::empty(),
    }
}

/// The callbacks sent through a registry slot: none when it was never
/// initialised.
pub open spec fn sent_of(slot: Option<LauncherRegistry>) -> Map<Seq<char>, LauncherCallback> {
    match slot {
        Some(r) => r.sent(),
        None => Map::empty(),
    }
}

/// The record of sent callbacks after signalling `id` with `cb`: `cb` is
/// recorded for `id` when the session was pending, nothing changes
/// otherwise.
pub open spec fn after_signal(
    slot: Option<LauncherRegistry>,
    id: Seq<char>,
    cb: LauncherCallback,
) -> Map<Seq<char>, LauncherCallback> {
    if pending_of(slot).contains(id) {
        sent_of(slot).insert(id, cb)
    } else {
        sent_of(slot)
    }
}

/// The sender a registry slot holds for a pending session id.
pub open spec fn sender_of(slot: Option<LauncherRegistry>, id: Seq<char>) -> Sender<LauncherCallback> {
    slot->0.sender_for(id)
}

/// Whether every pending session of `after` other than `id` keeps the
/// sender it had in `before`.
pub open spec fn other_senders_kept(
    before: Option<LauncherRegistry>,
    after: Option<LauncherRegistry>,
    id: Seq<char>,
) -> bool {
    forall|other: Seq<char>|
        other != id && #[trigger] pending_of(after).contains(other) ==> sender_of(after, other)
            == sender_of(before, other)
}

/// Whether a registry slot is initialised and well formed.
pub open spec fn slot_ok(slot: Option<LauncherRegistry>) -> bool {
    match slot {
        Some(r) => r.wf(),
        None => true,
    }
}

/// The pending set after registering `id`: the id is added, if the registry
/// exists; a second registration replaces the first channel.
pub open spec fn after_register(slot: Option<LauncherRegistry>, id: Seq<char>) -> Set<Seq<char>> {
    match slot {
        Some(r) => r.pending().insert(id),
        None => Set::empty(),
    }
}

proof fn lemma_keys_push(entries: Seq<(String, Sender<LauncherCallback>)>, e: (String, Sender<LauncherCallback>))
    ensures
        entries.push(e).map_values(|x: (String, Sender<LauncherCallback>)| x.0@)
            == entries.map_values(|x: (String, Sender<LauncherCallback>)| x.0@).push(e.0@),
{
    assert(entries.push(e).map_values(|x: (String, Sender<LauncherCallback>)| x.0@)
        =~= entries.map_values(|x: (String, Sender<LauncherCallback>)| x.0@).push(e.0@));
}

/// Creates an empty registry in the slot.
pub fn init(slot: &mut Option<LauncherRegistry>)
    ensures
        slot_ok(*final(slot)),
        *final(slot) is Some,
        pending_of(*final(slot)) == Set::<Seq<char>>::empty(),
        sent_of(*final(slot)) == Map::<Seq<char>, LauncherCallback>::empty(),
{
    let r = LauncherRegistry { entries: Vec::new(), sent: Ghost(Map::empty()) };
    proof {
        assert(r.keys() =~= Seq::<Seq<char>>::empty());
        assert(r.pending() =~= Set::<Seq<char>>::empty());
    }
    *slot = Some(r);
}

/// Registers a channel for `session_id` and returns its receiving half.
/// Without a registry the channel is made but nothing is kept, so the
/// receiver sees its sender dropped.
pub fn register(slot: &mut Option<LauncherRegistry>, session_id: String) -> (rx: Receiver<LauncherCallback>)
    requires
        slot_ok(*old(slot)),
    ensures
        slot_ok(*final(slot)),
        (*final(slot) is Some) <==> (*old(slot) is Some),
        pending_of(*final(slot)) == after_register(*old(slot), session_id@),
        sent_of(*final(slot)) == sent_of(*old(slot)),
        other_senders_kept(*old(slot), *final(slot), session_id@),
{
    let (tx, rx) = new_channel();
    match slot {
        Some(reg) => {
            let ghost old_keys = reg.keys();
            match reg.find(session_id.as_str()) {
                Some(i) => {
                    let ghost id = session_id@;
                    let ghost old_entries = reg.entries@;
                    reg.entries.set(i, (session_id, tx));
                    proof {
                        assert(reg.keys() =~= old_keys);
                        assert forall|other: Seq<char>|
                            other != id && #[trigger] reg.pending().contains(other) implies reg.sender_for(other)
                            == old(slot)->0.sender_for(other) by {
                            assert(reg.keys().contains(other));
                            let k = choose|k: int| 0 <= k < reg.keys().len() && reg.keys()[k] == other;
                            assert(k != i);
                            assert(reg.entries@[k] == old_entries[k]);
                        }
                        assert(old_keys.to_set().insert(id) =~= old_keys.to_set()) by {
                            assert(old_keys[i as int] == id);
                        }
                    }
                }
                None => {
                    let ghost id = session_id@;
                    let ghost old_entries = reg.entries@;
                    reg.entries.push((session_id, tx));
                    proof {
                        lemma_keys_push(old_entries, reg.entries@.last());
                        assert(reg.entries@ == old_entries.push(reg.entries@.last()));
                        assert(reg.keys() == old_keys.push(id));
                        assert(old_keys.push(id).to_set() =~= old_keys.to_set().insert(id)) by {
                            assert forall|x: Seq<char>| old_keys.push(id).to_set().contains(x)
                                <==> old_keys.to_set().insert(id).contains(x) by {
                                if old_keys.push(id).contains(x) {
                                    let k = choose|k: int| 0 <= k < old_keys.push(id).len() && old_keys.push(id)[k] == x;
                                    if k < old_keys.len() {
                                        assert(old_keys[k] == x);
                                    }
                                }
                                if old_keys.contains(x) {
                                    let k = choose|k: int| 0 <= k < old_keys.len() && old_keys[k] == x;
                                    assert(old_keys.push(id)[k] == x);
                                }
                                if x == id {
                                    assert(old_keys.push(id)[old_keys.len() as int] == x);
                                }
                            }
                        }
                        assert forall|a: int, b: int| 0 <= a < b < reg.keys().len()
                            implies reg.keys()[a] != reg.keys()[b] by {
                            if b == old_keys.len() {
                                assert(old_keys.contains(old_keys[a]));
                            } else {
                                assert(old_keys[a] != old_keys[b]);
                            }
                        }
                        assert forall|other: Seq<char>|
                            other != id && #[trigger] reg.pending().contains(other) implies reg.sender_for(other)
                            == old(slot)->0.sender_for(other) by {
                            assert(reg.keys().contains(other));
                            let k = choose|k: int| 0 <= k < reg.keys().len() && reg.keys()[k] == other;
                            assert(k < old_keys.len());
                            assert(old_keys[k] == other);
                            assert(reg.entries@[k] == old_entries[k]);
                            let j = choose|j: int| 0 <= j < old_keys.len() && old_keys[j] == other;
                            if j != k {
                                if j < k {
                                    assert(old_keys[j] != old_keys[k]);
                                } else {
                                    assert(old_keys[k] != old_keys[j]);
                                }
                            }
                        }
                    }
                }
            }
        }
        None => {}
    }
    rx
}

/// Removes the entry for `id` from a registry whose entry `i` holds it, and
/// returns its sender.
fn take_entry(reg: &mut LauncherRegistry, i: usize) -> (tx: Sender<LauncherCallback>)
    requires
        old(reg).wf(),
        i < old(reg).keys().len(),
    ensures
        final(reg).wf(),
        final(reg).pending() == old(reg).pending().remove(old(reg).keys()[i as int]),
        final(reg).sent() == old(reg).sent(),
        tx == old(reg).sender_for(old(reg).keys()[i as int]),
        forall|other: Seq<char>|
            other != old(reg).keys()[i as int] && #[trigger] final(reg).pending().contains(other)
                ==> final(reg).sender_for(other) == old(reg).sender_for(other),
{
    let ghost old_keys = reg.keys();
    let ghost id = old_keys[i as int];
    let ghost old_entries = reg.entries@;
    let (_k, tx) = reg.entries.remove(i);
    proof {
        assert(reg.keys() =~= old_keys.remove(i as int));
        let j = choose|j: int| 0 <= j < old_keys.len() && old_keys[j] == id;
        assert(old_keys[i as int] == id);
        if j != i {
            if j < i {
                assert(old_keys[j] != old_keys[i as int]);
            } else {
                assert(old_keys[i as int] != old_keys[j]);
            }
        }
        assert forall|a: int, b: int| 0 <= a < b < reg.keys().len()
            implies reg.keys()[a] != reg.keys()[b] by {
            let a2 = if a < i { a } else { a + 1 };
            let b2 = if b < i { b } else { b + 1 };
            assert(old_keys[a2] != old_keys[b2]);
        }
        assert(reg.pending() =~= old_keys.to_set().remove(id)) by {
            assert forall|x: Seq<char>| reg.keys().to_set().contains(x)
                <==> old_keys.to_set().remove(id).contains(x) by {
                if reg.keys().contains(x) {
                    let k = choose|k: int| 0 <= k < reg.keys().len() && reg.keys()[k] == x;
                    let k2 = if k < i { k } else { k + 1 };
                    assert(old_keys[k2] == x);
                    assert(k2 != i);
                }
                if old_keys.contains(x) && x != id {
                    let k = choose|k: int| 0 <= k < old_keys.len() && old_keys[k] == x;
                    assert(k != i);
                    if k < i {
                        assert(reg.keys()[k] == x);
                    } else {
                        assert(reg.keys()[k - 1] == x);
                    }
                }
            }
        }
        assert forall|other: Seq<char>|
            other != id && #[trigger] reg.pending().contains(other) implies reg.sender_for(other)
            == old(reg).sender_for(other) by {
            assert(reg.keys().contains(other));
            let k = choose|k: int| 0 <= k < reg.keys().len() && reg.keys()[k] == other;
            let k2 = if k < i { k } else { k + 1 };
            assert(old_keys[k2] == other);
            assert(reg.entries@[k] == old_entries[k2]);
            let j = choose|j: int| 0 <= j < old_keys.len() && old_keys[j] == other;
            if j != k2 {
                if j < k2 {
                    assert(old_keys[j] != old_keys[k2]);
                } else {
                    assert(old_keys[k2] != old_keys[j]);
                }
            }
        }
    }
    tx
}

/// Removes the session without signalling it (cleanup after a timeout or
/// completion).
pub fn unregister(slot: &mut Option<LauncherRegistry>, session_id: &str)
    requires
        slot_ok(*old(slot)),
    ensures
        slot_ok(*final(slot)),
        (*final(slot) is Some) <==> (*old(slot) is Some),
        pending_of(*final(slot)) == pending_of(*old(slot)).remove(session_id@),
        sent_of(*final(slot)) == sent_of(*old(slot)),
        other_senders_kept(*old(slot), *final(slot), session_id@),
{
    match slot {
        Some(reg) => {
            match reg.find(session_id) {
                Some(i) => {
                    let _tx = take_entry(reg, i);
                }
                None => {
                    proof {
                        assert(reg.pending().remove(session_id@) =~= reg.pending());
                    }
                }
            }
        }
        None => {
            proof {
                assert(Set::<Seq<char>>::empty().remove(session_id@) =~= Set::<Seq<char>>::empty());
            }
        }
    }
}

/// Removes a pending session and hands over what signalling it sends: the
/// sender stored for it and `cb`. Nothing is handed over, and nothing
/// changes, when the session is not pending.
pub fn take_signal(slot: &mut Option<LauncherRegistry>, session_id: &str, cb: LauncherCallback) -> (r: Option<
    (Sender<LauncherCallback>, LauncherCallback),
>)
    requires
        slot_ok(*old(slot)),
    ensures
        slot_ok(*final(slot)),
        (*final(slot) is Some) <==> (*old(slot) is Some),
        (r is Some) == pending_of(*old(slot)).contains(session_id@),
        r matches Some(action) ==> action.0 == sender_of(*old(slot), session_id@) && action.1 == cb,
        pending_of(*final(slot)) == pending_of(*old(slot)).remove(session_id@),
        other_senders_kept(*old(slot), *final(slot), session_id@),
        sent_of(*final(slot)) == after_signal(*old(slot), session_id@, cb),
{
    match slot {
        Some(reg) => {
            match reg.find(session_id) {
                Some(i) => {
                    proof {
                        assert(reg.keys().contains(session_id@));
                    }
                    let tx = take_entry(reg, i);
                    reg.sent = Ghost(reg.sent@.insert(session_id@, cb));
                    Some((tx, cb))
                }
                None => {
                    proof {
                        assert(reg.pending().remove(session_id@) =~= reg.pending());
                    }
                    None
                }
            }
        }
        None => {
            proof {
                assert(Set::<Seq<char>>::empty().remove(session_id@) =~= Set::<Seq<char>>::empty());
            }
            None
        }
    }
}

/// Removes the session and sends `cb` to its waiting receiver, through the
/// sender `take_signal` hands over. Returns whether the session was pending.
fn signal(slot: &mut Option<LauncherRegistry>, session_id: &str, cb: LauncherCallback) -> (found: bool)
    requires
        slot_ok(*old(slot)),
    ensures
        slot_ok(*final(slot)),
        (*final(slot) is Some) <==> (*old(slot) is Some),
        found == pending_of(*old(slot)).contains(session_id@),
        pending_of(*final(slot)) == pending_of(*old(slot)).remove(session_id@),
        other_senders_kept(*old(slot), *final(slot), session_id@),
        sent_of(*final(slot)) == after_signal(*old(slot), session_id@, cb),
{
    match take_signal(slot, session_id, cb) {
        Some((tx, callback)) => {
            send_callback(tx, callback);
            true
        },
        None => false,
    }
}

/// Signals that the launcher spawned the editor itself: `Handled` with the
/// editor's process id is sent to the waiting session. Returns whether the
/// session was pending; it is pending no more.
pub fn signal_handled(slot: &mut Option<LauncherRegistry>, session_id: &str, editor_pid: Option<u32>) -> (found: bool)
    requires
        slot_ok(*old(slot)),
    ensures
        slot_ok(*final(slot)),
        (*final(slot) is Some) <==> (*old(slot) is Some),
        found == pending_of(*old(slot)).contains(session_id@),
        pending_of(*final(slot)) == pending_of(*old(slot)).remove(session_id@),
        other_senders_kept(*old(slot), *final(slot), session_id@),
        sent_of(*final(slot)) == after_signal(*old(slot), session_id@, LauncherCallback::Handled { editor_pid }),
{
    signal(slot, session_id, LauncherCallback::Handled { editor_pid })
}

/// Signals that the launcher wants the normal terminal flow: `Fallthrough`
/// is sent to the waiting session. Returns whether the session was pending;
/// it is pending no more.
pub fn signal_fallthrough(slot: &mut Option<LauncherRegistry>, session_id: &str) -> (found: bool)
    requires
        slot_ok(*old(slot)),
    ensures
        slot_ok(*final(slot)),
        (*final(slot) is Some) <==> (*old(slot) is Some),
        found == pending_of(*old(slot)).contains(session_id@),
        pending_of(*final(slot)) == pending_of(*old(slot)).remove(session_id@),
        other_senders_kept(*old(slot), *final(slot), session_id@),
        sent_of(*final(slot)) == after_signal(*old(slot), session_id@, LauncherCallback::Fallthrough),
{
    signal(slot, session_id, LauncherCallback::Fallthrough)
}

/// A session registered on an initialised registry is found by the first
/// signal for it, and not by a second one.
pub proof fn lemma_register_then_signal_once(slot: Option<LauncherRegistry>, id: Seq<char>)
    requires
        slot is Some,
    ensures
        after_register(slot, id).contains(id),
        !after_register(slot, id).remove(id).contains(id),
{
}

/// A session that was unregistered is not found by a signal.
pub proof fn lemma_unregistered_not_found(pending: Set<Seq<char>>, id: Seq<char>)
    ensures
        !pending.remove(id).contains(id),
{
}

/// Signalling or unregistering one session leaves the other sessions pending.
pub proof fn lemma_other_sessions_kept(pending: Set<Seq<char>>, id: Seq<char>, other: Seq<char>)
    requires
        pending.contains(other),
        other != id,
    ensures
        pending.remove(id).contains(other),
{
}

} // verus!
