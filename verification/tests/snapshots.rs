use bua::capabilities::CapabilitySet;
use bua::json::JsonValue;
use bua::snapshot::{crc32_simple, decode_frames, encode_frames, Frame, FORMAT_VERSION};
use bua::snapshot_ctx::{SnapshotConfig, SnapshotContext};
use bua::strata::{LayeredSnapshot, Snapshot, StrataPayloads, StratumTag, ToolCallRecord};
use bua::types::ExecutionId;

fn full_snap() -> LayeredSnapshot {
    LayeredSnapshot::new(ExecutionId::new())
        .with_label("test".to_string())
        .with_vm(vec![0xDE, 0xAD])
        .with_capability(CapabilitySet::new(), 0)
        .with_trace(r#"{"id":0}"#.into(), 1)
        .with_tool_log(vec![ToolCallRecord {
            sequence: 0,
            name: "t".into(),
            args_json: "{}".into(),
            result_json: "{}".into(),
            duration_us: 100,
            was_error: false,
        }])
        .with_scheduler(vec![], 0)
        .with_memory(vec![("k".to_string(), JsonValue::String("v".to_string()))], "ns".into())
}

/// The payloads a full snapshot serializes to (its strata as JSON text).
fn full_payloads() -> StrataPayloads {
    StrataPayloads {
        header: Some(br#"{"execution_id":"x","timestamp_us":1,"format_version":2,"label":"test"}"#.to_vec()),
        vm: Some(br#"{"heap_bytes":[222,173],"jsc_version":"JSC/stub-0.1"}"#.to_vec()),
        capability: Some(br#"{"capabilities":{"caps":[],"generation":0},"generation":0}"#.to_vec()),
        trace: Some(br#"{"ndjson":"{\"id\":0}","event_count":1}"#.to_vec()),
        tool: Some(br#"{"call_log":[]}"#.to_vec()),
        scheduler: Some(br#"{"child_agent_ids":[],"pending_task_count":0}"#.to_vec()),
        memory: Some(br#"{"entries":{"k":"v"},"namespace":"ns"}"#.to_vec()),
    }
}

fn present(p: &StrataPayloads) -> usize {
    [&p.vm, &p.capability, &p.trace, &p.tool, &p.scheduler, &p.memory]
        .iter()
        .filter(|x| x.is_some())
        .count()
}

#[test]
fn roundtrip() {
    let snap = full_snap();
    assert_eq!(snap.strata_count(), 6);
    let payloads = full_payloads();
    let bytes = payloads.serialize();
    let loaded = StrataPayloads::deserialize(&bytes).unwrap();
    assert_eq!(present(&loaded), 6);
    assert_eq!(loaded.vm, payloads.vm);
    assert_eq!(loaded.header, payloads.header);
    assert_eq!(snap.vm.unwrap().heap_bytes, vec![0xDE, 0xAD]);
    assert_eq!(snap.header.unwrap().label.as_deref(), Some("test"));
}

#[test]
fn crc_detect() {
    let mut bytes = full_payloads().serialize();
    let mid = bytes.len() / 2;
    bytes[mid] ^= 0xFF;
    assert!(StrataPayloads::deserialize(&bytes).err().unwrap().message().contains("CRC"));
}

#[test]
fn wrong_magic() {
    let mut bytes = full_payloads().serialize();
    bytes[0] = 0xFF;
    assert!(StrataPayloads::deserialize(&bytes).is_err());
}

#[test]
fn partial_snap() {
    let snap = LayeredSnapshot::new(ExecutionId::new()).with_trace("{}".into(), 0);
    assert!(!snap.has_vm() && snap.has_trace());
    let payloads = StrataPayloads {
        header: Some(b"null".to_vec()),
        vm: None,
        capability: None,
        trace: Some(br#"{"ndjson":"{}","event_count":0}"#.to_vec()),
        tool: None,
        scheduler: None,
        memory: None,
    };
    let bytes = payloads.serialize();
    let loaded = StrataPayloads::deserialize(&bytes).unwrap();
    assert!(loaded.vm.is_none());
    assert!(loaded.trace.is_some());
}

#[test]
fn legacy_upgrade() {
    let old = Snapshot::new(ExecutionId::new(), CapabilitySet::new(), "{}\n".into(), vec![1, 2]);
    let new = old.upgrade();
    assert!(new.has_vm() && new.has_trace() && new.has_capability());
}

#[test]
fn error_messages_of_each_check() {
    let short = StrataPayloads::deserialize(&[0u8; 5]).err().unwrap();
    assert_eq!(short.message(), "snapshot restore failed: too short");
    let magic = StrataPayloads::deserialize(&[0u8; 14]).err().unwrap();
    assert_eq!(magic.message(), "snapshot restore failed: invalid magic");

    let mut bytes = full_payloads().serialize();
    let n = bytes.len();
    bytes[n - 1] ^= 0x01;
    let crc = StrataPayloads::deserialize(&bytes).err().unwrap().message();
    assert!(crc.starts_with("snapshot restore failed: CRC mismatch: stored=0x"));
    assert!(crc.contains(" computed=0x"));

    // a newer version with a valid checksum
    let mut body = b"BUASNAP\x02".to_vec();
    body.extend_from_slice(&3u16.to_le_bytes());
    body.extend_from_slice(&crc32_simple(&body).to_le_bytes());
    let v = StrataPayloads::deserialize(&body).err().unwrap();
    assert_eq!(v.message(), "snapshot restore failed: unsupported version 3");

    // a frame running past the checksum
    let mut over = b"BUASNAP\x02".to_vec();
    over.extend_from_slice(&2u16.to_le_bytes());
    over.extend_from_slice(&1u16.to_le_bytes());
    over.extend_from_slice(&100u32.to_le_bytes());
    over.extend_from_slice(&crc32_simple(&over).to_le_bytes());
    let o = StrataPayloads::deserialize(&over).err().unwrap();
    assert_eq!(o.message(), "snapshot restore failed: stratum overflow");
}

#[test]
fn crc32_known_value() {
    assert_eq!(crc32_simple(b"123456789"), 0xCBF4_3926);
    assert_eq!(crc32_simple(b""), 0);
}

#[test]
fn frames_roundtrip_and_last_frame_wins() {
    let frames = vec![
        Frame { tag: 1, payload: vec![1] },
        Frame { tag: 9, payload: vec![9, 9] },
        Frame { tag: 1, payload: vec![2] },
    ];
    let bytes = encode_frames(&frames);
    let d = decode_frames(&bytes).unwrap();
    assert_eq!(d.version, FORMAT_VERSION);
    assert_eq!(d.frames.len(), 3);
    assert_eq!(d.frames[1].payload, vec![9, 9]);
    let p = StrataPayloads::deserialize(&bytes).unwrap();
    assert_eq!(p.vm, Some(vec![2]));
    assert!(p.header.is_none());
}

#[test]
fn stratum_tags() {
    assert_eq!(StratumTag::from_u16(4), Some(StratumTag::Tool));
    assert_eq!(StratumTag::from_u16(7), None);
    assert_eq!(StratumTag::Memory.to_u16(), 6);
}

#[test]
fn auto_checkpoint_trigger() {
    let ctx = SnapshotContext::new(
        ExecutionId::new(),
        SnapshotConfig { auto_snapshot_every: Some(5), ..Default::default() },
    );
    assert!(!ctx.should_auto_checkpoint(4));
    assert!(ctx.should_auto_checkpoint(5));
    assert!(!ctx.should_auto_checkpoint(6));
    assert!(ctx.should_auto_checkpoint(10));
}

#[test]
fn checkpoint_names_and_eviction() {
    let id = ExecutionId::from_u128(0x0123_4567_89ab_cdef_0123_4567_89ab_cdef);
    let mut ctx = SnapshotContext::new(id, SnapshotConfig { dir: "/snaps".to_string(), max_snapshots: 2, auto_snapshot_every: None });
    let (n0, p0) = ctx.next_checkpoint();
    let (n1, p1) = ctx.next_checkpoint();
    assert_eq!(n0, 0);
    assert_eq!(n1, 1);
    assert_eq!(p0, "/snaps/0123456789abcdef0123456789abcdef-snap-0000.bsnap");
    assert_eq!(p1, "/snaps/0123456789abcdef0123456789abcdef-snap-0001.bsnap");
    assert!(ctx.is_own_snapshot("0123456789abcdef0123456789abcdef-snap-0001.bsnap"));
    assert!(!ctx.is_own_snapshot("0123456789abcdef0123456789abcdef-snap-0001.tmp"));
    assert!(!ctx.is_own_snapshot("other-snap-0001.bsnap"));
    assert_eq!(ctx.eviction_count(5), 3);
    assert_eq!(ctx.eviction_count(1), 0);
    assert!(!SnapshotContext::new(id, SnapshotConfig::default()).should_auto_checkpoint(0));
}
