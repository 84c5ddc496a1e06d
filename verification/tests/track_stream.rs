use runner_core::track::ActiveChunk;
use runner_core::track::ChunkDefinition;
use runner_core::track::Difficulty;
use runner_core::track::TrackState;
use runner_core::track::WorldRoot;
use runner_core::ConfigError;

fn def40() -> ChunkDefinition {
    ChunkDefinition::new(40, Difficulty::Easy).unwrap()
}

#[test]
fn chunk_definition_rejects_zero_length() {
    assert_eq!(
        ChunkDefinition::new(0, Difficulty::Easy),
        Err(ConfigError::NonPositiveChunkLength)
    );
}

#[test]
fn chunk_definition_rejects_negative_length() {
    assert_eq!(
        ChunkDefinition::new(-40, Difficulty::Hard),
        Err(ConfigError::NonPositiveChunkLength)
    );
}

#[test]
fn chunk_definition_accepts_positive_length() {
    let def = ChunkDefinition::new(40, Difficulty::Medium).unwrap();
    assert_eq!(def.length, 40);
    assert_eq!(def.difficulty, Difficulty::Medium);
}

#[test]
fn config_error_messages() {
    assert_eq!(
        ConfigError::NonPositiveChunkLength.describe(),
        "chunk length must be positive"
    );
    assert_eq!(
        ConfigError::NonCapsuleCollider.describe(),
        "ground probe requires a capsule collider"
    );
}

#[test]
fn world_root_scrolls_backwards() {
    let mut root = WorldRoot::new();
    assert_eq!(root.position_z, 0);
    root.advance(10, 30);
    assert_eq!(root.position_z, -300);
    root.advance(5, 0);
    assert_eq!(root.position_z, -300);
}

#[test]
fn spawn_fills_to_horizon() {
    let mut track = TrackState::new();
    let spawned = track.spawn_chunks(&def40(), 0, 240);
    assert_eq!(spawned.len(), 6);
    assert_eq!(track.next_spawn_z, 240);
    let expected: Vec<ActiveChunk> = (0..6)
        .map(|i: i64| ActiveChunk {
            start_z: i * 40,
            end_z: (i + 1) * 40,
        })
        .collect();
    assert_eq!(spawned, expected);
    assert_eq!(track.active, expected);
}

#[test]
fn spawn_is_idempotent_per_offset() {
    let mut track = TrackState::new();
    let first = track.spawn_chunks(&def40(), 0, 240);
    assert_eq!(first.len(), 6);
    let again = track.spawn_chunks(&def40(), 0, 240);
    assert_eq!(again.len(), 0);
    assert_eq!(track.next_spawn_z, 240);
    assert_eq!(track.active.len(), 6);
}

#[test]
fn spawn_contiguous_under_scrolling() {
    // Chunks always tile [first start, cursor) with no gaps or overlaps,
    // whatever the tick offsets were.
    let mut track = TrackState::new();
    let def = def40();
    let mut offset: i64 = 0;
    for _ in 0..50 {
        offset -= 17;
        track.spawn_chunks(&def, offset, 240);
        track.despawn_chunks(offset, -50);
        for w in track.active.windows(2) {
            assert_eq!(w[0].end_z, w[1].start_z);
        }
        for c in track.active.iter() {
            assert!(c.start_z < c.end_z);
        }
        if let Some(last) = track.active.last() {
            assert_eq!(last.end_z, track.next_spawn_z);
        }
    }
}

#[test]
fn cursor_never_decreases() {
    let mut track = TrackState::new();
    let def = def40();
    let mut cursor: i64 = track.next_spawn_z;
    let mut offset: i64 = 0;
    for _ in 0..100 {
        offset -= 13;
        track.spawn_chunks(&def, offset, 240);
        track.despawn_chunks(offset, -50);
        assert!(track.next_spawn_z >= cursor);
        cursor = track.next_spawn_z;
    }
}

#[test]
fn despawn_retires_only_chunks_behind_threshold() {
    let mut track = TrackState::new();
    track.spawn_chunks(&def40(), 0, 240);
    // With the world scrolled back by 100, only the first chunk's end
    // (40 - 100 = -60) is behind the -50 threshold.
    let retired = track.despawn_chunks(-100, -50);
    assert_eq!(
        retired,
        vec![ActiveChunk {
            start_z: 0,
            end_z: 40
        }]
    );
    assert_eq!(track.active.len(), 5);
    assert_eq!(track.active[0].start_z, 40);
    for c in track.active.iter() {
        assert!(c.end_z + (-100) >= -50);
    }
    // Despawn is idempotent per offset: a second pass retires nothing.
    let again = track.despawn_chunks(-100, -50);
    assert_eq!(again.len(), 0);
    assert_eq!(track.active.len(), 5);
}

#[test]
fn despawn_keeps_everything_still_visible() {
    let mut track = TrackState::new();
    track.spawn_chunks(&def40(), 0, 240);
    // Nothing is behind the threshold yet: no chunk may be retired.
    let retired = track.despawn_chunks(0, -50);
    assert_eq!(retired.len(), 0);
    assert_eq!(track.active.len(), 6);
}

#[test]
fn streaming_tick_combines_spawn_and_despawn() {
    let mut track = TrackState::new();
    let def = def40();
    let (spawned, retired) = track.tick(&def, 0, 240, -50);
    assert_eq!(spawned.len(), 6);
    assert_eq!(retired.len(), 0);
    let (spawned, retired) = track.tick(&def, -300, 240, -50);
    // Horizon moved to 540: chunks up to [520, 560) exist; everything
    // ending before 250 has scrolled behind the threshold.
    assert_eq!(track.next_spawn_z, 560);
    assert_eq!(spawned.len(), 8);
    assert_eq!(retired.len(), 6);
    for c in retired.iter() {
        assert!(c.end_z + (-300) < -50);
    }
    for c in track.active.iter() {
        assert!(c.end_z + (-300) >= -50);
    }
    assert_eq!(track.active.len(), 8);
}
