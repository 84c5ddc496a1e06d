//! Track streaming: the moving world root and the chunk streamer.
//!
//! Forward travel is simulated by scrolling a single world-root frame past a
//! stationary player; chunks of track geometry are parented to that frame,
//! spawned ahead of the visible horizon and retired once they scroll behind
//! a trailing threshold.

use vstd::prelude::*;

verus! {

use crate::ConfigError;

/// The single moving reference frame all chunks are parented to.  Its
/// position along the forward axis is the authoritative measure of distance
/// traveled; every other offset derives from it.
#[derive(Clone, Copy, Debug, PartialEq, Eq, Structural)]
pub struct WorldRoot {
    /// Position of the root on the forward axis, in world distance units.
    /// Scrolling moves it toward negative values.
    pub position_z: i64,
}

impl WorldRoot {
    /// A world root at the level-start origin.
    pub fn new() -> (root: WorldRoot)
        ensures
            root.position_z == 0,
    {
        WorldRoot { position_z: 0 }
    }

    /// Scroll step: moves the root by `-speed * delta_time` along the
    /// forward axis, unconditionally, once per fixed tick while the level is
    /// active.
    pub fn advance(&mut self, delta_time: u64, speed: i64)
        requires
            speed >= 0,
            speed * delta_time <= i64::MAX,
            old(self).position_z - speed * delta_time >= i64::MIN,
        ensures
            final(self).position_z == old(self).position_z - speed * delta_time,
    {
        let scroll: i128 = (speed as i128) * (delta_time as i128);
        let moved: i128 = (self.position_z as i128) - scroll;
        self.position_z = moved as i64;
    }
}

/// How demanding a chunk's layout is.  Currently no selection policy reads
/// it: a single chunk template exists and the streamer spawns it
/// unconditionally.
#[derive(Clone, Copy, Debug, PartialEq, Eq, Structural)]
pub enum Difficulty {
    Easy,
    Medium,
    Hard,
}

/// An immutable chunk template: a fixed-length segment of track geometry,
/// the unit of streaming spawn and despawn.  The renderable geometry itself
/// is owned by the scene layer and referenced outside this core.
#[derive(Clone, Copy, Debug, PartialEq, Eq, Structural)]
pub struct ChunkDefinition {
    /// Extent of the chunk along the forward axis, in world distance units.
    pub length: i64,
    pub difficulty: Difficulty,
}

impl ChunkDefinition {
    /// A template is usable only with a positive length; otherwise the
    /// spawn loop could never advance the cursor.
    pub open spec fn valid(self) -> bool {
        self.length > 0
    }

    /// Builds a template, failing fast on a non-positive length (a fatal
    /// configuration error, not a tolerated state).
    pub fn new(length: i64, difficulty: Difficulty) -> (r: Result<ChunkDefinition, ConfigError>)
        ensures
            length > 0 ==> r == Ok::<ChunkDefinition, ConfigError>(
                (ChunkDefinition { length, difficulty }),
            ),
            length <= 0 ==> r == Err::<ChunkDefinition, ConfigError>(
                ConfigError::NonPositiveChunkLength,
            ),
    {
        if length > 0 {
            Ok(ChunkDefinition { length, difficulty })
        } else {
            Err(ConfigError::NonPositiveChunkLength)
        }
    }
}

/// One spawned chunk instance, identified by the interval it covers in
/// world-root-local space.  Its lifetime is bounded by the despawn rule
/// alone, never by an external reference.
#[derive(Clone, Copy, Debug, PartialEq, Eq, Structural)]
pub struct ActiveChunk {
    /// Local-space coordinate where the chunk begins: the value of the spawn
    /// cursor when the chunk was instantiated.
    pub start_z: i64,
    /// Local-space coordinate where the chunk terminates.
    pub end_z: i64,
}

/// The active chunks tile the forward axis: each covers a non-empty
/// interval, and each chunk begins exactly where the previous one ends —
/// no gaps and no overlaps.
pub open spec fn chunks_contiguous(s: Seq<ActiveChunk>) -> bool {
    &&& forall|i: int| 0 <= i < s.len() ==> (#[trigger] s[i]).start_z < s[i].end_z
    &&& forall|i: int| 0 <= i < s.len() - 1 ==> (#[trigger] s[i]).end_z == s[i + 1].start_z
}

/// The streamer: maintains the monotonically advancing spawn cursor and the
/// set of active chunks.  It is the only mutator of both.
#[derive(Debug)]
pub struct TrackState {
    /// The forward-axis coordinate, in world-root-local space, at which the
    /// next chunk must begin.  Invariant: non-decreasing; advanced by
    /// exactly one chunk length per spawn.
    pub next_spawn_z: i64,
    /// The spawned chunks, in spawn order (ascending along the forward
    /// axis).
    pub active: Vec<ActiveChunk>,
}

impl TrackState {
    /// Well-formedness: the active chunks are contiguous and the cursor
    /// sits exactly at the end of the last one.
    pub open spec fn wf(self) -> bool {
        &&& chunks_contiguous(self.active@)
        &&& self.active@.len() > 0 ==> self.active@[self.active@.len() - 1].end_z
            == self.next_spawn_z
    }

    /// A fresh track: no chunks, cursor at the level-start origin.
    pub fn new() -> (t: TrackState)
        ensures
            t.next_spawn_z == 0,
            t.active@.len() == 0,
            t.wf(),
    {
        TrackState { next_spawn_z: 0, active: Vec::new() }
    }

    /// Instantiates one chunk at the cursor and advances the cursor by the
    /// chunk length.
    pub fn spawn_chunk(&mut self, def: &ChunkDefinition) -> (spawned: ActiveChunk)
        requires
            old(self).wf(),
            def.valid(),
            old(self).next_spawn_z + def.length <= i64::MAX,
        ensures
            final(self).wf(),
            spawned.start_z == old(self).next_spawn_z,
            spawned.end_z == old(self).next_spawn_z + def.length,
            final(self).next_spawn_z == old(self).next_spawn_z + def.length,
            final(self).active@ == old(self).active@.push(spawned),
    {
        let start: i64 = self.next_spawn_z;
        let end: i64 = start + def.length;
        let chunk = ActiveChunk { start_z: start, end_z: end };
        self.active.push(chunk);
        self.next_spawn_z = end;
        chunk
    }

    /// Spawn rule: while the cursor is behind the visible horizon
    /// (`-world_offset + horizon_distance`), instantiate one chunk at the
    /// cursor and advance it by the chunk length.  Generation thereby always
    /// stays at or ahead of the horizon, so no geometry pop is visible as
    /// long as `horizon_distance` exceeds the camera's far range.
    pub fn spawn_chunks(
        &mut self,
        def: &ChunkDefinition,
        world_offset: i64,
        horizon_distance: i64,
    ) -> (spawned: Vec<ActiveChunk>)
        requires
            old(self).wf(),
            def.valid(),
            horizon_distance - world_offset + def.length <= i64::MAX,
        ensures
            final(self).wf(),
            // the cursor never decreases
            final(self).next_spawn_z >= old(self).next_spawn_z,
            // chunks are only appended, in spawn order
            final(self).active@ == old(self).active@ + spawned@,
            // generation has reached the horizon
            final(self).next_spawn_z >= horizon_distance - world_offset,
            // the cursor advanced by exactly one chunk length per spawn
            final(self).next_spawn_z == old(self).next_spawn_z + def.length * spawned@.len(),
            // nothing is spawned once the cursor is at the horizon, and no
            // spawn overshoots it by a full chunk
            old(self).next_spawn_z >= horizon_distance - world_offset ==> spawned@.len() == 0,
            spawned@.len() > 0 ==> final(self).next_spawn_z
                < horizon_distance - world_offset + def.length,
            // each spawned chunk's interval, by its place in the batch
            forall|i: int| 0 <= i < spawned@.len()
                ==> (#[trigger] spawned@[i]).start_z == old(self).next_spawn_z + def.length * i
                && spawned@[i].end_z == old(self).next_spawn_z + def.length * (i + 1),
    {
        let mut spawned: Vec<ActiveChunk> = Vec::new();
        let horizon_line: i128 = (horizon_distance as i128) - (world_offset as i128);
        while (self.next_spawn_z as i128) < horizon_line
            invariant
                self.wf(),
                def.valid(),
                horizon_line == horizon_distance - world_offset,
                horizon_line + def.length <= i64::MAX,
                self.next_spawn_z >= old(self).next_spawn_z,
                self.active@ == old(self).active@ + spawned@,
                self.next_spawn_z == old(self).next_spawn_z + def.length * spawned@.len(),
                old(self).next_spawn_z >= horizon_line ==> spawned@.len() == 0,
                spawned@.len() > 0 ==> self.next_spawn_z < horizon_line + def.length,
                forall|i: int| 0 <= i < spawned@.len()
                    ==> (#[trigger] spawned@[i]).start_z == old(self).next_spawn_z + def.length
                    * i && spawned@[i].end_z == old(self).next_spawn_z + def.length * (i + 1),
            decreases (if self.next_spawn_z < horizon_line {
                horizon_line - self.next_spawn_z
            } else {
                0int
            }),
        {
            let chunk = self.spawn_chunk(def);
            spawned.push(chunk);
            proof {
                assert(def.length * spawned@.len() == def.length * (spawned@.len() - 1)
                    + def.length) by (nonlinear_arith);
            }
        }
        spawned
    }

    /// Despawn rule: retire every active chunk whose world-space end
    /// (`end_z + world_offset`) has scrolled behind the despawn threshold.
    /// Retirement is unconditional and irreversible; there is no pooling.
    pub fn despawn_chunks(&mut self, world_offset: i64, despawn_threshold: i64) -> (retired: Vec<
        ActiveChunk,
    >)
        requires
            old(self).wf(),
        ensures
            final(self).wf(),
            final(self).next_spawn_z == old(self).next_spawn_z,
            // the retired chunks are a prefix of the active list; the rest
            // survive unchanged and in order
            old(self).active@ == retired@ + final(self).active@,
            // only chunks wholly behind the threshold are retired
            forall|i: int| 0 <= i < retired@.len() ==> (#[trigger] retired@[i]).end_z
                + world_offset < despawn_threshold,
            // no chunk still reaching past the threshold is retired
            forall|i: int| 0 <= i < final(self).active@.len()
                ==> (#[trigger] final(self).active@[i]).end_z + world_offset
                >= despawn_threshold,
    {
        let mut retired: Vec<ActiveChunk> = Vec::new();
        while self.active.len() > 0 && (self.active[0].end_z as i128) + (world_offset as i128) < (
        despawn_threshold as i128)
            invariant
                self.wf(),
                self.next_spawn_z == old(self).next_spawn_z,
                old(self).active@ == retired@ + self.active@,
                forall|i: int| 0 <= i < retired@.len() ==> (#[trigger] retired@[i]).end_z
                    + world_offset < despawn_threshold,
            decreases self.active.len(),
        {
            let chunk = self.active.remove(0);
            retired.push(chunk);
            proof {
                assert(retired@ + self.active@ =~= retired@.drop_last() + (seq![chunk]
                    + self.active@));
            }
        }
        proof {
            assert forall|i: int| 0 <= i < self.active@.len() implies (
            #[trigger] self.active@[i]).end_z + world_offset >= despawn_threshold by {
                if self.active@.len() > 0 {
                    lemma_chunk_ends_nondecreasing(self.active@, 0, i);
                }
            }
        }
        retired
    }

    /// One streaming step of the fixed tick: spawn up to the horizon seen
    /// from the given world offset, then retire what has scrolled behind
    /// the threshold.  Idempotent per tick: a second call with the same
    /// offset spawns and retires nothing.
    pub fn tick(
        &mut self,
        def: &ChunkDefinition,
        world_offset: i64,
        horizon_distance: i64,
        despawn_threshold: i64,
    ) -> (r: (Vec<ActiveChunk>, Vec<ActiveChunk>))
        requires
            old(self).wf(),
            def.valid(),
            horizon_distance - world_offset + def.length <= i64::MAX,
        ensures
            final(self).wf(),
            final(self).next_spawn_z >= old(self).next_spawn_z,
            final(self).next_spawn_z >= horizon_distance - world_offset,
            final(self).next_spawn_z == old(self).next_spawn_z + def.length * r.0@.len(),
            old(self).next_spawn_z >= horizon_distance - world_offset ==> r.0@.len() == 0,
            r.0@.len() > 0 ==> final(self).next_spawn_z < horizon_distance - world_offset
                + def.length,
            old(self).active@ + r.0@ == r.1@ + final(self).active@,
            forall|i: int| 0 <= i < r.1@.len() ==> (#[trigger] r.1@[i]).end_z + world_offset
                < despawn_threshold,
            forall|i: int| 0 <= i < final(self).active@.len()
                ==> (#[trigger] final(self).active@[i]).end_z + world_offset
                >= despawn_threshold,
    {
        let spawned = self.spawn_chunks(def, world_offset, horizon_distance);
        let retired = self.despawn_chunks(world_offset, despawn_threshold);
        (spawned, retired)
    }
}

/// In a contiguous chunk list the chunk ends never decrease along the list.
pub proof fn lemma_chunk_ends_nondecreasing(s: Seq<ActiveChunk>, i: int, j: int)
    requires
        chunks_contiguous(s),
        0 <= i <= j < s.len(),
    ensures
        s[i].end_z <= s[j].end_z,
    decreases j - i,
{
    if i < j {
        lemma_chunk_ends_nondecreasing(s, i + 1, j);
    }
}

/// No overlaps: any chunk earlier in a contiguous list ends at or before a
/// later chunk begins, so the covered intervals are pairwise disjoint.
pub proof fn lemma_chunks_disjoint(s: Seq<ActiveChunk>, i: int, j: int)
    requires
        chunks_contiguous(s),
        0 <= i < j < s.len(),
    ensures
        s[i].end_z <= s[j].start_z,
    decreases j - i,
{
    if i + 1 < j {
        lemma_chunks_disjoint(s, i + 1, j);
    }
}

/// Despawn safety: whatever one streaming tick spawned and retired, a
/// chunk that still reaches the despawn threshold — its world-space end
/// `end_z + world_offset` at or past it — is never retired and survives
/// among the active chunks.
pub proof fn lemma_despawn_safety(
    before: Seq<ActiveChunk>,
    spawned: Seq<ActiveChunk>,
    retired: Seq<ActiveChunk>,
    kept: Seq<ActiveChunk>,
    world_offset: int,
    despawn_threshold: int,
    j: int,
)
    requires
        before + spawned == retired + kept,
        forall|i: int| 0 <= i < retired.len() ==> (#[trigger] retired[i]).end_z + world_offset
            < despawn_threshold,
        0 <= j < before.len(),
        before[j].end_z + world_offset >= despawn_threshold,
    ensures
        kept.contains(before[j]),
{
    broadcast use vstd::seq::axiom_seq_add_len;

    assert((before + spawned).len() == (retired + kept).len());
    assert(before.add(spawned).len() == before.len() + spawned.len());
    assert(retired.add(kept).len() == retired.len() + kept.len());
    assert(before.len() + spawned.len() == retired.len() + kept.len());
    assert((before + spawned)[j] == before[j]);
    if j < retired.len() {
        assert((retired + kept)[j] == retired[j]);
    } else {
        assert((retired + kept)[j] == kept[j - retired.len()]);
    }
}

/// No gaps: every point from the start of the first chunk up to the end of
/// the last chunk lies inside some chunk of a contiguous list.
pub proof fn lemma_chunks_cover_range(s: Seq<ActiveChunk>, z: int)
    requires
        chunks_contiguous(s),
        s.len() > 0,
        s[0].start_z <= z < s[s.len() - 1].end_z,
    ensures
        exists|i: int| 0 <= i < s.len() && (#[trigger] s[i]).start_z <= z < s[i].end_z,
    decreases s.len(),
{
    if z < s[0].end_z {
        assert(s[0].start_z <= z < s[0].end_z);
    } else {
        let rest = s.skip(1);
        assert(forall|i: int| 0 <= i < rest.len() ==> rest[i] == s[i + 1]);
        lemma_chunks_cover_range(rest, z);
        let w = choose|i: int| 0 <= i < rest.len() && (#[trigger] rest[i]).start_z <= z
            < rest[i].end_z;
        assert(s[w + 1].start_z <= z < s[w + 1].end_z);
    }
}

/// Spawn contiguity, as a statement about a whole well-formed track: the
/// active chunks' local intervals `[start_z, end_z)` tile the axis from the
/// first chunk's start to the spawn cursor — no gaps (every such point is
/// covered) and no overlaps (see `lemma_chunks_disjoint`).
pub proof fn lemma_track_tiles(t: TrackState, z: int)
    requires
        t.wf(),
        t.active@.len() > 0,
        t.active@[0].start_z <= z < t.next_spawn_z,
    ensures
        exists|i: int| 0 <= i < t.active@.len() && (#[trigger] t.active@[i]).start_z <= z
            < t.active@[i].end_z,
{
    lemma_chunks_cover_range(t.active@, z);
}

} // verus!
