//! The relays: the arguments of a relay process, what it is primed with,
//! what its end means, and the table of those that run.

use crate::db::RelayTarget;
use crate::events::{AppEvents, Notification, Payload};
use crate::rtmp::flv::{copy_bytes, flv_header, flv_header_bytes};
use crate::text::{chunks, push_owned, push_signed_decimal, push_word, signed_decimal, texts};
use std::collections::HashMap;
use vstd::prelude::*;
use vstd::string::*;

verus! {

/// How many chunks may wait for one relay before it counts as too slow.
pub const RELAY_QUEUE_CAPACITY: usize = 4096;

/// Seconds to wait after a relay failed before anything is tried again.
pub const RETRY_BACKOFF_SECS: u64 = 3;

/// Where a relay publishes to: the URL, a slash and the stream key.
pub open spec fn publish_url(url: Seq<char>, stream_key: Seq<char>) -> Seq<char> {
    url + "/"@ + stream_key
}

/// The arguments of a relay process: FLV in on standard input, both streams
/// copied, FLV out to the target.
pub open spec fn relay_args_text(url: Seq<char>, stream_key: Seq<char>) -> Seq<Seq<char>> {
    seq![
        "-f"@,
        "flv"@,
        "-i"@,
        "pipe:0"@,
        "-c:v"@,
        "copy"@,
        "-c:a"@,
        "copy"@,
        "-f"@,
        "flv"@,
        publish_url(url, stream_key),
    ]
}

/// The arguments with which the relay for `target` is spawned.
pub fn relay_args(target: &RelayTarget) -> (args: Vec<String>)
    ensures
        texts(args@) == relay_args_text(target.url@, target.stream_key@),
{
    let mut args: Vec<String> = Vec::new();
    push_word(&mut args, "-f");
    push_word(&mut args, "flv");
    push_word(&mut args, "-i");
    push_word(&mut args, "pipe:0");
    push_word(&mut args, "-c:v");
    push_word(&mut args, "copy");
    push_word(&mut args, "-c:a");
    push_word(&mut args, "copy");
    push_word(&mut args, "-f");
    push_word(&mut args, "flv");
    let mut destination = target.url.clone();
    destination.append("/");
    destination.append(target.stream_key.as_str());
    push_owned(&mut args, destination);
    assert(texts(args@) =~= relay_args_text(target.url@, target.stream_key@));
    args
}

/// The name of the file that collects what a relay process says.
pub open spec fn relay_log_name_text(id: int) -> Seq<char> {
    "relay_"@ + signed_decimal(id) + ".log"@
}

/// The name, inside the log directory, of the log of relay `id`.
pub fn relay_log_name(id: i64) -> (name: String)
    ensures
        name@ == relay_log_name_text(id as int),
{
    let mut name = String::from_str("relay_");
    push_signed_decimal(&mut name, id);
    name.append(".log");
    name
}

/// What a new relay is given before any live chunk: the stream prelude and
/// then every cached sequence header, in the order they were cached.
pub open spec fn priming_chunks(headers: Seq<Seq<u8>>) -> Seq<Seq<u8>> {
    seq![flv_header_bytes()] + headers
}

/// The writes that prime a new relay, in order.
pub fn relay_priming(headers: &Vec<Vec<u8>>) -> (writes: Vec<Vec<u8>>)
    ensures
        chunks(writes@) == priming_chunks(chunks(headers@)),
{
    let mut writes: Vec<Vec<u8>> = Vec::new();
    writes.push(flv_header());
    let mut i: usize = 0;
    while i < headers.len()
        invariant
            i <= headers.len(),
            chunks(writes@) == priming_chunks(chunks(headers@).subrange(0, i as int)),
        decreases headers.len() - i,
    {
        let ghost before = writes@;
        writes.push(copy_bytes(headers[i].as_slice()));
        assert(chunks(writes@) =~= chunks(before).push(headers@[i as int]@));
        assert(chunks(headers@).subrange(0, i + 1) =~= chunks(headers@).subrange(0, i as int).push(
            headers@[i as int]@,
        ));
        i = i + 1;
        assert(chunks(writes@) =~= priming_chunks(chunks(headers@).subrange(0, i as int)));
    }
    assert(chunks(headers@).subrange(0, headers.len() as int) == chunks(headers@));
    writes
}

/// How waiting for a relay process ended.
#[derive(Debug, Clone)]
pub enum WaitOutcome {
    /// The process exited; `code` is its exit code, if it has one.
    Exited { success: bool, code: Option<i32> },
    /// Waiting itself failed, with the system's message.
    Failed { message: String },
}

/// What the monitor of a relay does once the wait is over.
#[derive(Debug, Clone)]
pub struct MonitorVerdict {
    /// The notification to publish.
    pub notice: Notification,
    /// Whether to back off for `RETRY_BACKOFF_SECS` afterwards.
    pub back_off: bool,
}

/// The reason given for a relay that exited in failure.
pub open spec fn exit_reason(code: Option<i32>) -> Seq<char> {
    "Exited with code "@ + match code {
        Some(code) => "Some("@ + signed_decimal(code as int) + ")"@,
        None => "None"@,
    }
}

/// The reason given for a relay that could not be waited for.
pub open spec fn wait_error_reason(message: Seq<char>) -> Seq<char> {
    "Wait error: "@ + message
}

/// A relay that exits in success has ended. One that exits otherwise has
/// failed with its exit code, and the monitor backs off unless a retry is
/// under way already. One that cannot be waited for has failed with the
/// system's message.
pub open spec fn verdict_fits(
    id: i64,
    outcome: WaitOutcome,
    retrying: bool,
    verdict: MonitorVerdict,
) -> bool {
    match outcome {
        WaitOutcome::Exited { success, code } => if success {
            &&& verdict.notice.event == AppEvents::RelayEnded
            &&& verdict.notice.payload == Payload::Relay(id)
            &&& !verdict.back_off
        } else {
            &&& verdict.notice.event == AppEvents::RelayFailed
            &&& verdict.notice.payload matches Payload::RelayFailure(failed, reason)
            &&& failed == id
            &&& reason@ == exit_reason(code)
            &&& verdict.back_off == !retrying
        },
        WaitOutcome::Failed { message } => {
            &&& verdict.notice.event == AppEvents::RelayFailed
            &&& verdict.notice.payload matches Payload::RelayFailure(failed, reason)
            &&& failed == id
            &&& reason@ == wait_error_reason(message@)
            &&& !verdict.back_off
        },
    }
}

/// Judges the end of the relay `id`.
pub fn monitor_verdict(id: i64, outcome: &WaitOutcome, retrying: bool) -> (verdict: MonitorVerdict)
    ensures
        verdict_fits(id, *outcome, retrying, verdict),
{
    match outcome {
        WaitOutcome::Exited { success, code } => {
            if *success {
                MonitorVerdict {
                    notice: Notification { event: AppEvents::RelayEnded, payload: Payload::Relay(id) },
                    back_off: false,
                }
            } else {
                let mut reason = String::from_str("Exited with code ");
                match code {
                    Some(code) => {
                        reason.append("Some(");
                        push_signed_decimal(&mut reason, *code as i64);
                        reason.append(")");
                    },
                    None => {
                        reason.append("None");
                    },
                }
                assert(reason@ =~= exit_reason(*code));
                MonitorVerdict {
                    notice: Notification {
                        event: AppEvents::RelayFailed,
                        payload: Payload::RelayFailure(id, reason),
                    },
                    back_off: !retrying,
                }
            }
        },
        WaitOutcome::Failed { message } => {
            let mut reason = String::from_str("Wait error: ");
            reason.append(message.as_str());
            MonitorVerdict {
                notice: Notification {
                    event: AppEvents::RelayFailed,
                    payload: Payload::RelayFailure(id, reason),
                },
                back_off: false,
            }
        },
    }
}

/// A running relay: its id, its process and the task that writes to it.
#[derive(Debug)]
pub struct RelayHandle<P, T> {
    pub id: i64,
    pub process: P,
    pub rx_task: T,
}

/// The relays that run, and for each the sender through which chunks reach
/// it.
#[derive(Debug)]
pub struct RelayTable<P, T, S> {
    pub relays: HashMap<i64, RelayHandle<P, T>>,
    pub relay_channels: HashMap<i64, S>,
}

/// What follows the attempt to spawn a relay.
#[derive(Debug)]
pub struct StartVerdict<P, T, S> {
    /// The notification to publish, if there is one.
    pub notice: Option<Notification>,
    /// A relay that was spawned although its id is taken, with its sender:
    /// it is to be killed.
    pub rejected: Option<(RelayHandle<P, T>, S)>,
}

/// A relay that was taken out of the table.
#[derive(Debug)]
pub struct StoppedRelay<P, T> {
    /// The relay: its task is to be aborted and its process killed.
    pub handle: RelayHandle<P, T>,
    /// The notification to publish.
    pub notice: Notification,
}

impl<P, T, S> RelayTable<P, T, S> {
    /// Every relay is filed under its own id.
    pub open spec fn ids_match(&self) -> bool {
        forall|id: i64| #[trigger]
            self.relays@.contains_key(id) ==> self.relays@[id].id == id
    }

    /// The relays and the senders are the same ids.
    pub open spec fn channels_match(&self) -> bool {
        self.relays@.dom() == self.relay_channels@.dom()
    }

    /// Both of the above.
    pub open spec fn wf(&self) -> bool {
        self.ids_match() && self.channels_match()
    }

    /// A table without relays.
    pub fn new() -> (table: Self)
        ensures
            table.relays@ == Map::<i64, RelayHandle<P, T>>::empty(),
            table.relay_channels@ == Map::<i64, S>::empty(),
            table.wf(),
    {
        RelayTable { relays: HashMap::new(), relay_channels: HashMap::new() }
    }

    /// Whether a relay with this id runs.
    pub fn contains(&self, id: i64) -> (found: bool)
        ensures
            found == self.relays@.contains_key(id),
    {
        broadcast use vstd::std_specs::hash::group_hash_axioms;

        self.relays.contains_key(&id)
    }

    /// Files the sender of relay `id`, in place of any earlier one.
    pub fn register_relay_channel(&mut self, id: i64, tx: S)
        ensures
            final(self).relay_channels@ == old(self).relay_channels@.insert(id, tx),
            final(self).relays == old(self).relays,
    {
        broadcast use vstd::std_specs::hash::group_hash_axioms;

        self.relay_channels.insert(id, tx);
    }

    /// Drops the sender of relay `id`, if there is one.
    pub fn unregister_relay_channel(&mut self, id: i64)
        ensures
            final(self).relay_channels@ == old(self).relay_channels@.remove(id),
            final(self).relays == old(self).relays,
    {
        broadcast use vstd::std_specs::hash::group_hash_axioms;

        self.relay_channels.remove(&id);
    }

    /// Enters a relay that was spawned and primed, with its sender. If a
    /// relay of that id is in the table already, nothing changes and both
    /// are handed back, for the caller to kill the newcomer.
    pub fn start_relay(&mut self, handle: RelayHandle<P, T>, tx: S) -> (started: Result<
        Notification,
        (RelayHandle<P, T>, S),
    >)
        requires
            old(self).wf(),
        ensures
            final(self).wf(),
            old(self).relays@.contains_key(handle.id) ==> started == Err::<
                Notification,
                (RelayHandle<P, T>, S),
            >((handle, tx)) && *final(self) == *old(self),
            !old(self).relays@.contains_key(handle.id) ==> {
                &&& started matches Ok(notice)
                &&& notice.event == AppEvents::RelayActive
                &&& notice.payload == Payload::Relay(handle.id)
                &&& final(self).relays@ == old(self).relays@.insert(handle.id, handle)
                &&& final(self).relay_channels@ == old(self).relay_channels@.insert(handle.id, tx)
            },
    {
        broadcast use vstd::std_specs::hash::group_hash_axioms;

        let id = handle.id;
        if self.relays.contains_key(&id) {
            Err((handle, tx))
        } else {
            self.relay_channels.insert(id, tx);
            self.relays.insert(id, handle);
            assert(final(self).relays@.dom() =~= final(self).relay_channels@.dom());
            Ok(Notification { event: AppEvents::RelayActive, payload: Payload::Relay(id) })
        }
    }

    /// What follows the attempt to spawn the relay `id`. If the spawn failed
    /// with a message, `relay-failed` is announced with the id and the
    /// message, and the table stays as it is. If it gave a relay whose id
    /// is free, the relay is entered with its sender and `relay-active` is
    /// announced. If the id is taken, nothing is announced, the table stays
    /// as it is, and the newcomer is handed back.
    pub open spec fn start_fits(
        before: Self,
        after: Self,
        id: i64,
        spawned: Result<(RelayHandle<P, T>, S), String>,
        verdict: StartVerdict<P, T, S>,
    ) -> bool {
        match spawned {
            Err(message) => {
                &&& verdict.notice == Some(
                    Notification {
                        event: AppEvents::RelayFailed,
                        payload: Payload::RelayFailure(id, message),
                    },
                )
                &&& verdict.rejected is None
                &&& after == before
            },
            Ok((handle, tx)) => if before.relays@.contains_key(handle.id) {
                &&& verdict.notice is None
                &&& verdict.rejected == Some((handle, tx))
                &&& after == before
            } else {
                &&& verdict.notice == Some(
                    Notification {
                        event: AppEvents::RelayActive,
                        payload: Payload::Relay(handle.id),
                    },
                )
                &&& verdict.rejected is None
                &&& after.relays@ == before.relays@.insert(handle.id, handle)
                &&& after.relay_channels@ == before.relay_channels@.insert(handle.id, tx)
            },
        }
    }

    /// Settles the start of the relay `id` once the attempt to spawn and
    /// prime it is over.
    pub fn conclude_start(
        &mut self,
        id: i64,
        spawned: Result<(RelayHandle<P, T>, S), String>,
    ) -> (verdict: StartVerdict<P, T, S>)
        requires
            old(self).wf(),
        ensures
            final(self).wf(),
            Self::start_fits(*old(self), *final(self), id, spawned, verdict),
    {
        match spawned {
            Err(message) => StartVerdict {
                notice: Some(
                    Notification {
                        event: AppEvents::RelayFailed,
                        payload: Payload::RelayFailure(id, message),
                    },
                ),
                rejected: None,
            },
            Ok((handle, tx)) => match self.start_relay(handle, tx) {
                Ok(notice) => StartVerdict { notice: Some(notice), rejected: None },
                Err(rejected) => StartVerdict { notice: None, rejected: Some(rejected) },
            },
        }
    }

    /// Takes relay `id` and its sender out of the table. Stopping a relay
    /// that is not there changes nothing.
    pub fn stop_relay(&mut self, id: i64) -> (stopped: Option<StoppedRelay<P, T>>)
        requires
            old(self).wf(),
        ensures
            final(self).wf(),
            final(self).relays@ == old(self).relays@.remove(id),
            final(self).relay_channels@ == old(self).relay_channels@.remove(id),
            match stopped {
                Some(relay) => {
                    &&& old(self).relays@.contains_key(id)
                    &&& relay.handle == old(self).relays@[id]
                    &&& relay.notice.event == AppEvents::RelayEnded
                    &&& relay.notice.payload == Payload::Relay(id)
                },
                None => !old(self).relays@.contains_key(id),
            },
    {
        broadcast use vstd::std_specs::hash::group_hash_axioms;

        match self.relays.remove(&id) {
            Some(handle) => {
                self.relay_channels.remove(&id);
                assert(final(self).relays@.dom() =~= final(self).relay_channels@.dom());
                Some(
                    StoppedRelay {
                        handle,
                        notice: Notification {
                            event: AppEvents::RelayEnded,
                            payload: Payload::Relay(id),
                        },
                    },
                )
            },
            None => {
                assert(final(self).relay_channels@ =~= old(self).relay_channels@.remove(id));
                assert(final(self).relays@ =~= old(self).relays@.remove(id));
                None
            },
        }
    }

    /// Whether `stopped` holds exactly the relays of `before` whose ids are
    /// among `ids`, each once, as they were in the table, and each with the
    /// notification that it ended.
    pub open spec fn stopped_are(
        before: Map<i64, RelayHandle<P, T>>,
        ids: Seq<i64>,
        stopped: Seq<StoppedRelay<P, T>>,
    ) -> bool {
        &&& forall|k: int|
            0 <= k < stopped.len() ==> {
                let relay = #[trigger] stopped[k];
                &&& ids.contains(relay.handle.id)
                &&& before.contains_key(relay.handle.id)
                &&& relay.handle == before[relay.handle.id]
                &&& relay.notice.event == AppEvents::RelayEnded
                &&& relay.notice.payload == Payload::Relay(relay.handle.id)
            }
        &&& forall|k: int, l: int|
            0 <= k < l < stopped.len() ==> (#[trigger] stopped[k]).handle.id != (
            #[trigger] stopped[l]).handle.id
        &&& forall|id: i64|
            before.contains_key(id) && #[trigger] ids.contains(id) ==> exists|k: int|
                0 <= k < stopped.len() && (#[trigger] stopped[k]).handle.id == id
    }

    /// Stops every relay whose id is among `ids`. Ids without a relay, and
    /// ids that come twice, are passed over.
    pub fn stop_relays(&mut self, ids: &Vec<i64>) -> (stopped: Vec<StoppedRelay<P, T>>)
        requires
            old(self).wf(),
        ensures
            final(self).wf(),
            final(self).relays@ == old(self).relays@.remove_keys(Set::new(|id: i64| ids@.contains(id))),
            final(self).relay_channels@ == old(self).relay_channels@.remove_keys(
                Set::new(|id: i64| ids@.contains(id)),
            ),
            Self::stopped_are(old(self).relays@, ids@, stopped@),
    {
        let mut stopped: Vec<StoppedRelay<P, T>> = Vec::new();
        let ghost before = self.relays@;
        let ghost channels_before = self.relay_channels@;
        let mut i: usize = 0;
        assert(self.relays@ =~= before.remove_keys(
            Set::new(|id: i64| ids@.subrange(0, 0).contains(id)),
        ));
        assert(self.relay_channels@ =~= channels_before.remove_keys(
            Set::new(|id: i64| ids@.subrange(0, 0).contains(id)),
        ));
        while i < ids.len()
            invariant
                i <= ids.len(),
                self.wf(),
                before.dom() == channels_before.dom(),
                self.relays@ == before.remove_keys(
                    Set::new(|id: i64| ids@.subrange(0, i as int).contains(id)),
                ),
                self.relay_channels@ == channels_before.remove_keys(
                    Set::new(|id: i64| ids@.subrange(0, i as int).contains(id)),
                ),
                Self::stopped_are(before, ids@.subrange(0, i as int), stopped@),
            decreases ids.len() - i,
        {
            let id = ids[i];
            let ghost seen = ids@.subrange(0, i as int);
            let ghost seen_next = ids@.subrange(0, i + 1);
            let ghost stopped_before = stopped@;
            assert(seen_next =~= seen.push(id));
            assert forall|other: i64| seen_next.contains(other) <==> (seen.contains(other) || other
                == id) by {
                if seen.contains(other) {
                    let j = choose|j: int| 0 <= j < seen.len() && seen[j] == other;
                    assert(seen_next[j] == other);
                }
                if other == id {
                    assert(seen_next[i as int] == id);
                }
                if seen_next.contains(other) {
                    let j = choose|j: int| 0 <= j < seen_next.len() && seen_next[j] == other;
                    if j < i {
                        assert(seen[j] == other);
                    }
                }
            }
            match self.stop_relay(id) {
                Some(relay) => {
                    stopped.push(relay);
                    assert forall|k: int| 0 <= k < stopped@.len() implies {
                        let entry = #[trigger] stopped@[k];
                        &&& seen_next.contains(entry.handle.id)
                        &&& before.contains_key(entry.handle.id)
                        &&& entry.handle == before[entry.handle.id]
                        &&& entry.notice.event == AppEvents::RelayEnded
                        &&& entry.notice.payload == Payload::Relay(entry.handle.id)
                    } by {
                        if k < stopped_before.len() {
                            assert(stopped@[k] == stopped_before[k]);
                        }
                    }
                    assert forall|k: int, l: int| 0 <= k < l < stopped@.len() implies (
                    #[trigger] stopped@[k]).handle.id != (#[trigger] stopped@[l]).handle.id by {
                        assert(stopped@[k] == stopped_before[k]);
                        if l < stopped_before.len() {
                            assert(stopped@[l] == stopped_before[l]);
                        }
                    }
                    assert forall|other: i64|
                        before.contains_key(other) && #[trigger] seen_next.contains(
                            other,
                        ) implies exists|k: int|
                        0 <= k < stopped@.len() && (#[trigger] stopped@[k]).handle.id == other by {
                        if other == id {
                            assert(stopped@[stopped_before.len() as int].handle.id == id);
                        } else {
                            assert(seen.contains(other));
                            let k = choose|k: int|
                                0 <= k < stopped_before.len() && (
                                #[trigger] stopped_before[k]).handle.id == other;
                            assert(stopped@[k] == stopped_before[k]);
                        }
                    }
                },
                None => {
                    assert forall|other: i64|
                        before.contains_key(other) && #[trigger] seen_next.contains(
                            other,
                        ) implies exists|k: int|
                        0 <= k < stopped@.len() && (#[trigger] stopped@[k]).handle.id == other by {
                        if other == id {
                            assert(seen.contains(id));
                        } else {
                            assert(seen.contains(other));
                        }
                    }
                    assert forall|k: int| 0 <= k < stopped@.len() implies seen_next.contains(
                        (#[trigger] stopped@[k]).handle.id,
                    ) by {
                        assert(seen.contains(stopped@[k].handle.id));
                    }
                },
            }
            assert(self.relays@ =~= before.remove_keys(
                Set::new(|other: i64| seen_next.contains(other)),
            ));
            assert(self.relay_channels@ =~= channels_before.remove_keys(
                Set::new(|other: i64| seen_next.contains(other)),
            ));
            i = i + 1;
        }
        assert(ids@.subrange(0, ids.len() as int) =~= ids@);
        stopped
    }
}

/// At most one relay has a given id: two entries of the table whose relays
/// carry the same id are one entry.
pub proof fn relay_ids_are_unique<P, T, S>(table: RelayTable<P, T, S>, a: i64, b: i64)
    requires
        table.ids_match(),
        table.relays@.contains_key(a),
        table.relays@.contains_key(b),
        table.relays@[a].id == table.relays@[b].id,
    ensures
        a == b,
{
}

} // verus!
