use winr::detection::{pixels_from_buffer, swap_red_blue};
use winr::live_frame::{
    camera_yaw_note, euclidean_distance_millimeters, live_entities, live_frame_detail,
    live_memory_details, live_snapshot_id, numbered_tag, snapshot_entities,
    snapshot_memory_details, world_mm_tag, EntitySighting, LiveMemoryReads,
};
use winr::memory_schema::{
    decode_bool, decode_i32_le, decode_u64_le, decode_vec3_i32, field_start_address,
    follow_pointer, RobloxMemoryField, RobloxMemorySchema, RobloxMemoryValueKind, RobloxObjectField,
};
use winr::navigation::{navigation_camera_yaw, TrackedEntitySummary, WorldModelSummary};
use winr::patrol_step::{entity_world_position, parse_world_mm_tag};
use winr::perception::{
    assess_freshness, ObservationFreshnessPolicy, ObservationFreshnessStatus, ObservationMetadata,
    ObservationSourceKind, ObservationStateVersion, EntityKind, MemoryObservationUseCase, MemorySchemaVersion, ObservationMovementState,
    TrackedEntityStatus, WorldModelDelta,
};
use std::collections::HashMap;
use winr::protocol::{AdvancedProfileBackend, RobloxObservationSnapshot, RobloxObservedObject};
use winr::tracking::{
    find_track, observe_entity, sweep_unseen, EntityTrack, TrackerLimits,
};

fn ids(tracks: &[EntityTrack<&'static str>]) -> Vec<String> {
    tracks.iter().map(|t| t.id.clone()).collect()
}

fn frame(
    tracks: Vec<EntityTrack<&'static str>>,
    sightings: &[(&str, u32)],
    frame_id: u64,
    limits: TrackerLimits,
) -> (Vec<EntityTrack<&'static str>>, WorldModelDelta) {
    let mut tracks = tracks;
    let mut delta = WorldModelDelta::default();
    let mut seen = Vec::new();
    for (id, priority) in sightings {
        seen.push(id.to_string());
        observe_entity(&mut tracks, id.to_string(), "data", *priority, frame_id, &mut delta);
    }
    let tracks = sweep_unseen(tracks, &seen, limits, &mut delta);
    (tracks, delta)
}

#[test]
fn tracker_reports_new_entities_and_keeps_ids_unique() {
    let (tracks, delta) = frame(Vec::new(), &[("rock", 100), ("door", 70), ("rock", 120)], 1, TrackerLimits::default());
    assert_eq!(ids(&tracks), vec!["rock".to_string(), "door".to_string()]);
    assert_eq!(delta.new_entities, vec!["rock".to_string(), "door".to_string()]);
    assert_eq!(delta.reprioritized_entities, vec!["rock".to_string()]);
    assert_eq!(tracks[0].priority_score, 120);
    assert_eq!(tracks[0].first_seen_frame_id, 1);
    assert_eq!(tracks[0].status, TrackedEntityStatus::Active);
    assert_eq!(find_track(&tracks, "door"), Some(1));
    assert_eq!(find_track(&tracks, "tree"), None);
}

#[test]
fn tracker_loses_then_drops_missing_entities() {
    let limits = TrackerLimits::default();
    let (tracks, _) = frame(Vec::new(), &[("rock", 100), ("door", 70)], 1, limits);
    let (tracks, delta) = frame(tracks, &[("door", 70)], 2, limits);
    assert_eq!(tracks[0].missed_frames, 1);
    assert_eq!(tracks[0].status, TrackedEntityStatus::Active);
    assert!(delta.lost_entities.is_empty());

    let (tracks, delta) = frame(tracks, &[("door", 70)], 3, limits);
    assert_eq!(tracks[0].status, TrackedEntityStatus::Lost);
    assert_eq!(delta.lost_entities, vec!["rock".to_string()]);

    let (tracks, delta) = frame(tracks, &[("door", 70)], 4, limits);
    assert_eq!(tracks[0].missed_frames, 3);
    assert!(delta.lost_entities.is_empty());

    let (tracks, _) = frame(tracks, &[("door", 70)], 5, limits);
    assert_eq!(ids(&tracks), vec!["door".to_string()]);
    assert_eq!(tracks[0].last_seen_frame_id, 5);
    assert_eq!(tracks[0].first_seen_frame_id, 1);
}

#[test]
fn tracker_reacquires_lost_entities() {
    let limits = TrackerLimits { lost_after_missed_frames: 1, drop_after_missed_frames: 5 };
    let (tracks, _) = frame(Vec::new(), &[("rock", 100)], 1, limits);
    let (tracks, delta) = frame(tracks, &[], 2, limits);
    assert_eq!(delta.lost_entities, vec!["rock".to_string()]);
    assert_eq!(tracks[0].status, TrackedEntityStatus::Lost);
    let (tracks, delta) = frame(tracks, &[("rock", 100)], 3, limits);
    assert_eq!(delta.reacquired_entities, vec!["rock".to_string()]);
    assert!(delta.reprioritized_entities.is_empty());
    assert_eq!(tracks[0].status, TrackedEntityStatus::Reacquired);
    assert_eq!(tracks[0].missed_frames, 0);
    let (tracks, _) = frame(tracks, &[("rock", 100)], 4, limits);
    assert_eq!(tracks[0].status, TrackedEntityStatus::Active);
}

#[test]
fn tracker_with_zero_drop_limit_keeps_nothing() {
    let limits = TrackerLimits { lost_after_missed_frames: 2, drop_after_missed_frames: 0 };
    let (tracks, delta) = frame(Vec::new(), &[("rock", 100)], 1, limits);
    assert!(tracks.is_empty());
    assert_eq!(delta.new_entities, vec!["rock".to_string()]);
}

#[test]
fn distances_round_to_the_nearest_millimeter() {
    assert_eq!(euclidean_distance_millimeters([0, 0, 0], [3, 4, 0]), 5);
    assert_eq!(euclidean_distance_millimeters([0, 0, 0], [1, 1, 0]), 1);
    assert_eq!(euclidean_distance_millimeters([0, 0, 0], [1, 1, 1]), 2);
    assert_eq!(euclidean_distance_millimeters([10_000, 0, -4_000], [10_800, 0, -3_900]), 806);
    assert_eq!(euclidean_distance_millimeters([5, 5, 5], [5, 5, 5]), 0);
    assert_eq!(
        euclidean_distance_millimeters([i32::MAX, 0, 0], [0, 0, 0]),
        i32::MAX as u32
    );
    let far = euclidean_distance_millimeters([i32::MAX / 2, i32::MAX / 2, i32::MAX / 2], [i32::MIN / 2, i32::MIN / 2, i32::MIN / 2]);
    let exact = (3.0f64 * (i32::MAX as f64) * (i32::MAX as f64)).sqrt();
    assert!((far as f64 - exact).abs() <= 1.0);
}

#[test]
fn tags_read_back_as_written() {
    let tag = world_mm_tag([-1200, 0, 45]);
    assert_eq!(tag, "world_mm:-1200,0,45");
    let value: Vec<char> = tag["world_mm:".len()..].chars().collect();
    assert_eq!(parse_world_mm_tag(&value), Some([-1200, 0, 45]));
    assert_eq!(numbered_tag("distance_mm:", 806), "distance_mm:806");

    let entity = TrackedEntitySummary {
        id: "rock".to_string(),
        kind: EntityKind::Interactable,
        label: "Rock".to_string(),
        tags: vec![world_mm_tag([i32::MIN, i32::MAX, 7]), numbered_tag("distance_mm:", 3)],
        confidence_percent: 80,
        priority_score: 100,
        first_seen_frame_id: 1,
        last_seen_frame_id: 1,
        missed_frames: 0,
        status: TrackedEntityStatus::Active,
    };
    assert_eq!(entity_world_position(&entity), Some([i32::MIN, i32::MAX, 7]));

    let note = camera_yaw_note(-90_000);
    assert_eq!(note, "camera_yaw_md:-90000");
    let model = WorldModelSummary { last_updated_frame_id: 1, entities: Vec::new(), notes: vec!["other".to_string(), note] };
    assert_eq!(navigation_camera_yaw(&model), Some(-90_000));
}

fn snapshot(player: Option<[i32; 3]>, prompt_visible: Option<bool>) -> RobloxObservationSnapshot {
    RobloxObservationSnapshot {
        frame_id: 7,
        source: "roblox-agent".to_string(),
        detail: "live".to_string(),
        timestamp_ms: 1000,
        freshness_ms: 5,
        player_position_millimeters: player,
        player_velocity_millimeters: Some([250, 0, 0]),
        camera_yaw_milli_degrees: Some(90_000),
        camera_pitch_milli_degrees: None,
        prompt_visible,
        prompt_distance_millimeters: Some(850),
        objects: vec![RobloxObservedObject {
            id: "rock-1".to_string(),
            label: "Rock".to_string(),
            kind: "resource_node".to_string(),
            interactable: true,
            position_millimeters: [3000, 0, 4000],
        }],
    }
}

fn sighting_ids(entities: &[EntitySighting]) -> Vec<&str> {
    entities.iter().map(|e| e.id.as_str()).collect()
}

#[test]
fn snapshot_frames_report_player_region_waypoints_objects_and_prompt() {
    let entities = snapshot_entities([0, 0, 0], 1000, &snapshot(Some([0, 0, 0]), Some(true)));
    assert_eq!(
        sighting_ids(&entities),
        vec![
            "player-self",
            "live-patrol-region",
            "live-patrol-waypoint-0",
            "live-patrol-waypoint-1",
            "live-patrol-waypoint-2",
            "live-patrol-waypoint-3",
            "rock-1",
            "prompt-visible"
        ]
    );
    assert_eq!(entities[0].tags, vec!["world_mm:0,0,0".to_string()]);
    assert_eq!(
        entities[1].tags,
        vec!["world_mm:0,0,0".to_string(), "radius_mm:1000".to_string(), "distance_mm:0".to_string()]
    );
    assert_eq!(entities[2].label, "Waypoint 1");
    assert_eq!(entities[2].tags, vec!["world_mm:1000,0,0".to_string()]);
    assert_eq!(entities[5].tags, vec!["world_mm:0,0,-1000".to_string()]);
    assert_eq!(entities[6].kind, EntityKind::Interactable);
    assert_eq!(entities[6].confidence_percent, 80);
    assert_eq!(entities[6].tags, vec!["world_mm:3000,0,4000".to_string(), "kind:resource_node".to_string()]);
    assert_eq!(entities[7].tags, vec!["visible:true".to_string()]);

    let without_player = snapshot_entities([0, 0, 0], 1000, &snapshot(None, None));
    assert_eq!(without_player.len(), 6);
    assert_eq!(without_player[0].tags[2], "distance_mm:0");
}

#[test]
fn snapshot_memory_details_measure_objects_from_the_player() {
    let details = snapshot_memory_details(&snapshot(Some([0, 0, 0]), Some(true)));
    assert_eq!(details.schema_version, MemorySchemaVersion::V1);
    assert_eq!(details.snapshot_id, "roblox-live-7");
    assert_eq!(
        details.intended_uses,
        vec![
            MemoryObservationUseCase::PlayerState,
            MemoryObservationUseCase::CameraState,
            MemoryObservationUseCase::PromptState,
            MemoryObservationUseCase::InteractableDiscovery,
        ]
    );
    assert_eq!(details.nearby_objects[0].distance_millimeters, Some(5000));
    assert_eq!(details.prompts.len(), 1);
    assert_eq!(details.prompts[0].distance_millimeters, Some(850));
    let player = details.player_state.expect("player state");
    assert_eq!(player.movement_state, Some(ObservationMovementState::Walking));

    let hidden = snapshot_memory_details(&snapshot(None, Some(false)));
    assert!(hidden.prompts.is_empty());
    assert_eq!(hidden.nearby_objects[0].distance_millimeters, None);
}

fn field(kind: RobloxMemoryValueKind) -> RobloxMemoryField {
    RobloxMemoryField {
        module: "RobloxPlayerBeta.exe".to_string(),
        base_offset: 0x100,
        dereference_offsets: vec![0x10],
        value_kind: kind,
    }
}

fn schema() -> RobloxMemorySchema {
    RobloxMemorySchema {
        game_build: "version-1".to_string(),
        schema_version: "3".to_string(),
        player_position: Some(field(RobloxMemoryValueKind::Vec3I32)),
        player_velocity: None,
        camera_yaw_milli_degrees: Some(field(RobloxMemoryValueKind::I32)),
        camera_pitch_milli_degrees: None,
        prompt_visible: Some(field(RobloxMemoryValueKind::U8Bool)),
        prompt_distance_millimeters: None,
        objects: vec![RobloxObjectField {
            id: "chest".to_string(),
            label: "Chest".to_string(),
            kind: "loot".to_string(),
            interactable: false,
            position: field(RobloxMemoryValueKind::Vec3I32),
        }],
    }
}

#[test]
fn live_frames_report_distances_to_every_point() {
    let reads = LiveMemoryReads {
        player_position: Some([0, 0, 0]),
        player_velocity: None,
        camera_yaw: Some(45_000),
        camera_pitch: None,
        prompt_visible: Some(true),
        prompt_distance: None,
        object_positions: vec![[0, 600, 800]],
    };
    let entities = live_entities([0, 0, 0], 2000, &schema(), &reads);
    assert_eq!(
        sighting_ids(&entities),
        vec![
            "player",
            "live-patrol-region",
            "live-patrol-waypoint-0",
            "live-patrol-waypoint-1",
            "live-patrol-waypoint-2",
            "live-patrol-waypoint-3",
            "chest",
            "live-prompt"
        ]
    );
    assert_eq!(entities[0].label, "Local Player");
    assert_eq!(entities[2].label, "Patrol Waypoint 1");
    assert_eq!(entities[2].confidence_percent, 90);
    assert_eq!(entities[3].tags, vec!["world_mm:0,0,2000".to_string(), "distance_mm:2000".to_string()]);
    assert_eq!(entities[6].kind, EntityKind::VisualMarker);
    assert_eq!(
        entities[6].tags,
        vec!["world_mm:0,600,800".to_string(), "distance_mm:1000".to_string(), "kind:loot".to_string()]
    );
    assert_eq!(entities[7].tags, vec!["distance_mm:0".to_string()]);

    let details = live_memory_details(&schema(), &reads);
    assert_eq!(details.snapshot_id, "roblox-live");
    let player = details.player_state.expect("player state");
    assert_eq!(player.movement_state, Some(ObservationMovementState::Unknown));
    assert_eq!(player.active_modes, vec!["live".to_string(), "roblox".to_string()]);
    assert_eq!(details.nearby_objects[0].distance_millimeters, Some(1000));
    assert_eq!(details.camera_state.expect("camera").mode, Some("third_person".to_string()));

    let unknown = LiveMemoryReads { player_position: None, ..reads };
    let entities = live_entities([0, 0, 0], 2000, &schema(), &unknown);
    assert_eq!(entities[0].id, "live-patrol-region");
    assert_eq!(entities[1].tags[1], "distance_mm:0");
}

#[test]
fn live_frame_texts_name_build_schema_and_process() {
    assert_eq!(live_frame_detail(&schema()), "live Roblox memory snapshot build=version-1 schema=3");
    assert_eq!(live_snapshot_id(Some(4242)), "roblox-live-4242");
    assert_eq!(live_snapshot_id(None), "roblox-live-unknown");
}

#[test]
fn captured_buffers_swap_red_and_blue() {
    let mut buffer = vec![1, 2, 3, 4, 5, 6, 7, 8, 9, 10];
    swap_red_blue(&mut buffer);
    assert_eq!(buffer, vec![3, 2, 1, 4, 7, 6, 5, 8, 9, 10]);
    swap_red_blue(&mut buffer);
    assert_eq!(buffer, vec![1, 2, 3, 4, 5, 6, 7, 8, 9, 10]);

    let image = pixels_from_buffer(1, 2, vec![0; 8]).expect("exact size");
    assert_eq!((image.width, image.height, image.data.len()), (1, 2, 8));
    assert!(pixels_from_buffer(2, 2, vec![0; 8]).is_none());
}

const CLIENT_MODULE: &str = "RobloxPlayerBeta.exe";

fn module_field(base_offset: usize, dereference_offsets: Vec<usize>, kind: RobloxMemoryValueKind) -> RobloxMemoryField {
    RobloxMemoryField {
        module: CLIENT_MODULE.to_string(),
        base_offset,
        dereference_offsets,
        value_kind: kind,
    }
}

fn sample_schema() -> RobloxMemorySchema {
    RobloxMemorySchema {
        game_build: "test".to_string(),
        schema_version: "1".to_string(),
        player_position: Some(module_field(0x1000, vec![0x20], RobloxMemoryValueKind::Vec3F32)),
        player_velocity: None,
        camera_yaw_milli_degrees: Some(module_field(0x2000, Vec::new(), RobloxMemoryValueKind::I32)),
        camera_pitch_milli_degrees: None,
        prompt_visible: Some(module_field(0x3000, Vec::new(), RobloxMemoryValueKind::U8Bool)),
        prompt_distance_millimeters: None,
        objects: vec![RobloxObjectField {
            id: "rock-1".to_string(),
            label: "Rock".to_string(),
            kind: "resource_node".to_string(),
            interactable: true,
            position: module_field(0x4000, Vec::new(), RobloxMemoryValueKind::Vec3I32),
        }],
    }
}

/// A process memory made of byte runs, each starting at an address.
struct FakeMemory {
    modules: HashMap<String, usize>,
    bytes: HashMap<usize, Vec<u8>>,
}

impl FakeMemory {
    fn read(&self, address: usize, len: usize) -> Vec<u8> {
        let run = self.bytes.get(&address).expect("mapped address");
        run[..len].to_vec()
    }

    fn resolve(&self, field: &RobloxMemoryField) -> usize {
        let base = *self.modules.get(&field.module).expect("module base");
        let mut cursor = field_start_address(field, base).expect("start address");
        for offset in &field.dereference_offsets {
            let pointer = decode_u64_le(&self.read(cursor, 8)) as usize;
            cursor = follow_pointer(pointer, *offset).expect("pointer");
        }
        cursor
    }
}

fn meters_to_millimeters(bytes: &[u8]) -> i32 {
    let meters = f32::from_le_bytes([bytes[0], bytes[1], bytes[2], bytes[3]]);
    (meters * 1000.0).round() as i32
}

#[test]
fn schema_observer_projects_live_entities() {
    let mut memory = FakeMemory { modules: HashMap::new(), bytes: HashMap::new() };
    memory.modules.insert(CLIENT_MODULE.to_string(), 0x10000000);
    memory.bytes.insert(0x10001000, (0x20000000u64).to_le_bytes().to_vec());
    memory.bytes.insert(
        0x20000020,
        [1.0f32.to_le_bytes(), 0.0f32.to_le_bytes(), 2.5f32.to_le_bytes()].concat(),
    );
    memory.bytes.insert(0x10002000, 90000_i32.to_le_bytes().to_vec());
    memory.bytes.insert(0x10003000, vec![1_u8]);
    memory.bytes.insert(
        0x10004000,
        [1100_i32.to_le_bytes(), 0_i32.to_le_bytes(), 2500_i32.to_le_bytes()].concat(),
    );

    let schema = sample_schema();
    let position = memory.read(memory.resolve(schema.player_position.as_ref().unwrap()), 12);
    let player = [
        meters_to_millimeters(&position[0..4]),
        meters_to_millimeters(&position[4..8]),
        meters_to_millimeters(&position[8..12]),
    ];
    assert_eq!(player, [1000, 0, 2500]);
    let yaw = decode_i32_le(&memory.read(memory.resolve(schema.camera_yaw_milli_degrees.as_ref().unwrap()), 4));
    let prompt = decode_bool(&memory.read(memory.resolve(schema.prompt_visible.as_ref().unwrap()), 1));
    let rock = decode_vec3_i32(&memory.read(memory.resolve(&schema.objects[0].position), 12));
    assert_eq!(yaw, 90000);
    assert_eq!(rock, [1100, 0, 2500]);

    let reads = LiveMemoryReads {
        player_position: Some(player),
        player_velocity: None,
        camera_yaw: Some(yaw),
        camera_pitch: None,
        prompt_visible: Some(prompt),
        prompt_distance: None,
        object_positions: vec![rock],
    };
    let entities = live_entities([1000, 0, 2000], 500, &schema, &reads);
    assert!(entities.iter().any(|entity| entity.id == "live-patrol-region"));
    assert!(entities.iter().any(|entity| entity.id == "rock-1"));
    assert!(entities.iter().any(|entity| entity.id == "live-prompt"));
    let details = live_memory_details(&schema, &reads);
    assert_eq!(details.nearby_objects[0].distance_millimeters, Some(100));
}

#[test]
fn world_model_marks_lost_and_reacquired_entities() {
    let limits = TrackerLimits::default();
    let (tracks, _) = frame(Vec::new(), &[("marker-1", 80)], 1, limits);
    let (tracks, _) = frame(tracks, &[], 2, limits);
    let (tracks, lost) = frame(tracks, &[], 3, limits);
    assert_eq!(lost.lost_entities, vec!["marker-1".to_string()]);

    let (tracks, reacquired) = frame(tracks, &[("marker-1", 80)], 4, limits);
    assert_eq!(reacquired.reacquired_entities, vec!["marker-1".to_string()]);
    let marker = &tracks[find_track(&tracks, "marker-1").expect("marker should exist")];
    assert_eq!(marker.status, TrackedEntityStatus::Reacquired);
}

fn memory_metadata(frame_id: u64, freshness_ms: u64) -> ObservationMetadata {
    ObservationMetadata {
        version: ObservationStateVersion::V1,
        backend: AdvancedProfileBackend::Inject,
        source: ObservationSourceKind::MemoryState,
        frame_id,
        timestamp_ms: 1000,
        freshness_ms,
    }
}

#[test]
fn freshness_assessment_and_replay_tape_flag_stale_frames() {
    let fresh = memory_metadata(1, 20);
    let stale = memory_metadata(2, 180);
    let policy = ObservationFreshnessPolicy::default();
    let tape: Vec<(ObservationMetadata, Vec<String>)> =
        vec![(fresh.clone(), Vec::new()), (stale.clone(), vec!["late frame".to_string()])];

    let fresh_assessment = assess_freshness(&fresh, &policy);
    let stale_assessment = assess_freshness(&stale, &policy);

    assert_eq!(fresh_assessment.status, ObservationFreshnessStatus::Fresh);
    assert_eq!(stale_assessment.status, ObservationFreshnessStatus::Stale);
    assert_eq!(tape.last().expect("latest frame should exist").0.frame_id, 2);
    let stale_frames = tape
        .iter()
        .filter(|(metadata, _)| assess_freshness(metadata, &policy).status == ObservationFreshnessStatus::Stale)
        .count();
    assert_eq!(stale_frames, 1);
    let second = tape.iter().find(|(metadata, _)| metadata.frame_id == 2).expect("frame id 2 should exist");
    assert_eq!(second.1[0], "late frame");
}
