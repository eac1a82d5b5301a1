//! A model of the way from the encoder's output to the input of each relay,
//! and what holds of it at every moment.
//!
//! The model takes the queue of a relay to keep the order of what enters it:
//! a chunk that the reader forwards either reaches the relay after all
//! earlier ones, or is lost to it.

use crate::rtmp::fanout::{observe, observe_all};
use crate::rtmp::flv::flv_header_bytes;
use crate::rtmp::relay::priming_chunks;
use vstd::prelude::*;

verus! {

/// What one relay was given.
pub struct RelayFeed {
    /// How many chunks had been emitted when the relay started.
    pub joined_at: nat,
    /// How many chunks had been emitted when the encoder that ran at that
    /// time started.
    pub encoder_from: nat,
    /// The sequence headers that were cached when the relay started.
    pub snapshot: Seq<Seq<u8>>,
    /// The chunks that reached the relay afterwards, in order.
    pub live: Seq<Seq<u8>>,
}

impl RelayFeed {
    /// Everything written to the relay, write by write.
    pub open spec fn written(self) -> Seq<Seq<u8>> {
        priming_chunks(self.snapshot) + self.live
    }
}

/// The pipeline as a whole.
pub struct Pipeline {
    /// Every chunk read from an encoder, in order.
    pub emitted: Seq<Seq<u8>>,
    /// How many of them came from encoders that are gone.
    pub encoder_from: nat,
    /// The sequence-header cache.
    pub cache: Seq<Seq<u8>>,
    /// The relays that run.
    pub relays: Map<i64, RelayFeed>,
}

/// What can happen.
pub enum PipelineStep {
    /// The encoder emits a chunk. It reaches the relays in `delivered`; the
    /// others, being too slow or gone, lose it.
    Emit { chunk: Seq<u8>, delivered: Set<i64> },
    /// The encoder is torn down, and with it the cache.
    Teardown,
    /// A relay is started and primed.
    Start { id: i64 },
    /// A relay is stopped.
    Stop { id: i64 },
}

/// All chunks of a list, one after another.
pub open spec fn joined(list: Seq<Seq<u8>>) -> Seq<u8>
    decreases list.len(),
{
    if list.len() == 0 {
        Seq::empty()
    } else {
        joined(list.drop_last()) + list.last()
    }
}

/// Whether `part` is `whole` with some of its items left out.
pub open spec fn subsequence_of(part: Seq<Seq<u8>>, whole: Seq<Seq<u8>>) -> bool
    decreases whole.len(),
{
    if part.len() == 0 {
        true
    } else if whole.len() == 0 {
        false
    } else {
        ||| part.last() == whole.last() && subsequence_of(part.drop_last(), whole.drop_last())
        ||| subsequence_of(part, whole.drop_last())
    }
}

/// Nothing was emitted and no relay runs.
pub open spec fn initial() -> Pipeline {
    Pipeline { emitted: Seq::empty(), encoder_from: 0, cache: Seq::empty(), relays: Map::empty() }
}

/// The pipeline after one step. A relay whose id is taken is not started
/// again.
pub open spec fn next(state: Pipeline, step: PipelineStep) -> Pipeline {
    match step {
        PipelineStep::Emit { chunk, delivered } => Pipeline {
            emitted: state.emitted.push(chunk),
            cache: observe(state.cache, chunk),
            relays: Map::new(
                |id: i64| state.relays.contains_key(id),
                |id: i64|
                    if delivered.contains(id) {
                        RelayFeed { live: state.relays[id].live.push(chunk), ..state.relays[id] }
                    } else {
                        state.relays[id]
                    },
            ),
            ..state
        },
        PipelineStep::Teardown => Pipeline {
            encoder_from: state.emitted.len(),
            cache: Seq::empty(),
            ..state
        },
        PipelineStep::Start { id } => if state.relays.contains_key(id) {
            state
        } else {
            Pipeline {
                relays: state.relays.insert(
                    id,
                    RelayFeed {
                        joined_at: state.emitted.len(),
                        encoder_from: state.encoder_from,
                        snapshot: state.cache,
                        live: Seq::empty(),
                    },
                ),
                ..state
            }
        },
        PipelineStep::Stop { id } => Pipeline { relays: state.relays.remove(id), ..state },
    }
}

/// The pipeline after all of `steps`.
pub open spec fn run(steps: Seq<PipelineStep>) -> Pipeline
    decreases steps.len(),
{
    if steps.len() == 0 {
        initial()
    } else {
        next(run(steps.drop_last()), steps.last())
    }
}

/// What holds of a relay: it started after its encoder did; it was primed
/// with the sequence headers that this encoder had emitted by then; and
/// what reached it since is what was emitted since, in order, with gaps.
pub open spec fn feed_is_sound(state: Pipeline, feed: RelayFeed) -> bool {
    &&& feed.encoder_from <= feed.joined_at <= state.emitted.len()
    &&& feed.snapshot == observe_all(
        Seq::empty(),
        state.emitted.subrange(feed.encoder_from as int, feed.joined_at as int),
    )
    &&& subsequence_of(
        feed.live,
        state.emitted.subrange(feed.joined_at as int, state.emitted.len() as int),
    )
}

/// What holds of the pipeline: the cache holds the sequence headers that
/// the encoder of the moment has emitted, and every relay is sound.
pub open spec fn pipeline_is_sound(state: Pipeline) -> bool {
    &&& state.encoder_from <= state.emitted.len()
    &&& state.cache == observe_all(
        Seq::empty(),
        state.emitted.subrange(state.encoder_from as int, state.emitted.len() as int),
    )
    &&& forall|id: i64| #[trigger]
        state.relays.contains_key(id) ==> feed_is_sound(state, state.relays[id])
}

proof fn lemma_subsequence_grows(part: Seq<Seq<u8>>, whole: Seq<Seq<u8>>, chunk: Seq<u8>)
    requires
        subsequence_of(part, whole),
    ensures
        subsequence_of(part, whole.push(chunk)),
        subsequence_of(part.push(chunk), whole.push(chunk)),
{
    assert(whole.push(chunk).drop_last() =~= whole);
    assert(part.push(chunk).drop_last() =~= part);
}

/// A step keeps a sound pipeline sound.
pub proof fn step_keeps_soundness(state: Pipeline, step: PipelineStep)
    requires
        pipeline_is_sound(state),
    ensures
        pipeline_is_sound(next(state, step)),
{
    let after = next(state, step);
    let len = state.emitted.len() as int;
    match step {
        PipelineStep::Emit { chunk, delivered } => {
            let from = state.encoder_from as int;
            assert(after.emitted.subrange(from, len + 1).drop_last() =~= state.emitted.subrange(
                from,
                len,
            ));
            assert forall|id: i64| #[trigger] after.relays.contains_key(id) implies feed_is_sound(
                after,
                after.relays[id],
            ) by {
                let feed = state.relays[id];
                assert(state.relays.contains_key(id));
                let joined_at = feed.joined_at as int;
                assert(after.emitted.subrange(feed.encoder_from as int, joined_at)
                    =~= state.emitted.subrange(feed.encoder_from as int, joined_at));
                assert(after.emitted.subrange(joined_at, len + 1) =~= state.emitted.subrange(
                    joined_at,
                    len,
                ).push(chunk));
                lemma_subsequence_grows(feed.live, state.emitted.subrange(joined_at, len), chunk);
            }
        },
        PipelineStep::Teardown => {
            assert(state.emitted.subrange(len, len) =~= Seq::<Seq<u8>>::empty());
            assert forall|id: i64| #[trigger] after.relays.contains_key(id) implies feed_is_sound(
                after,
                after.relays[id],
            ) by {
                assert(state.relays.contains_key(id));
            }
        },
        PipelineStep::Start { id } => {
            assert forall|other: i64| #[trigger]
                after.relays.contains_key(other) implies feed_is_sound(
                after,
                after.relays[other],
            ) by {
                if state.relays.contains_key(other) {
                } else {
                    assert(other == id);
                    assert(state.emitted.subrange(len, len) =~= Seq::<Seq<u8>>::empty());
                }
            }
        },
        PipelineStep::Stop { id } => {
            assert forall|other: i64| #[trigger]
                after.relays.contains_key(other) implies feed_is_sound(
                after,
                after.relays[other],
            ) by {
                assert(state.relays.contains_key(other));
            }
        },
    }
}

/// Whatever happens, in whatever order, every relay is primed with the
/// sequence headers of its encoder and then sees what was emitted since it
/// started, in order, with gaps only where a chunk was lost to it.
pub proof fn pipeline_stays_sound(steps: Seq<PipelineStep>)
    ensures
        pipeline_is_sound(run(steps)),
    decreases steps.len(),
{
    if steps.len() == 0 {
        assert(initial().emitted.subrange(0, 0) =~= Seq::<Seq<u8>>::empty());
    } else {
        pipeline_stays_sound(steps.drop_last());
        step_keeps_soundness(run(steps.drop_last()), steps.last());
    }
}

proof fn lemma_joined_add(first: Seq<Seq<u8>>, second: Seq<Seq<u8>>)
    ensures
        joined(first + second) == joined(first) + joined(second),
    decreases second.len(),
{
    if second.len() == 0 {
        assert(first + second =~= first);
        assert(joined(first) + joined(second) =~= joined(first));
    } else {
        lemma_joined_add(first, second.drop_last());
        assert((first + second).drop_last() =~= first + second.drop_last());
        assert(joined(first + second) =~= joined(first) + joined(second));
    }
}

/// The bytes that a relay reads: the stream prelude once, then the cached
/// sequence headers, then the live chunks.
pub proof fn relay_input_layout(feed: RelayFeed)
    ensures
        feed.written()[0] == flv_header_bytes(),
        joined(feed.written()) == flv_header_bytes() + joined(feed.snapshot) + joined(feed.live),
{
    let prelude = seq![flv_header_bytes()];
    lemma_joined_add(priming_chunks(feed.snapshot), feed.live);
    lemma_joined_add(prelude, feed.snapshot);
    assert(prelude.drop_last() =~= Seq::<Seq<u8>>::empty());
    assert(prelude.last() == flv_header_bytes());
    assert(joined(prelude.drop_last()) =~= Seq::<u8>::empty());
    assert(joined(prelude) =~= flv_header_bytes());
}

} // verus!
