use nexus_core::error::NexusError;
use nexus_core::files::{hash_hex, require_complete, FileAssembler, ManifestBuilder};
use nexus_core::model::FILE_CHUNK_SIZE;

#[test]
fn manifest_of_chunks() {
    let data: Vec<u8> = (0..700_000_u32).map(|i| (i % 251) as u8).collect();
    let mut builder = ManifestBuilder::new();
    for (i, chunk) in data.chunks(FILE_CHUNK_SIZE).enumerate() {
        let d = builder.add_chunk(chunk);
        assert_eq!(d.index as usize, i);
        assert_eq!(d.size as usize, chunk.len());
        assert_eq!(d.hash, blake3::hash(chunk).to_hex().to_string());
    }
    let manifest = builder.finish("id".into(), "photo.bin".into(), "application/octet-stream".into());
    assert_eq!(manifest.size, 700_000);
    assert_eq!(manifest.chunk_size, 262_144);
    assert_eq!(manifest.chunks.len(), 3);
    assert_eq!(manifest.chunks[2].size, 700_000 - 2 * 262_144);
    assert_eq!(manifest.file_hash, blake3::hash(&data).to_hex().to_string());
    assert_eq!(manifest.name, "photo.bin");
}

#[test]
fn empty_file_manifest() {
    let manifest = ManifestBuilder::new().finish("id".into(), "empty".into(), "t".into());
    assert_eq!(manifest.size, 0);
    assert!(manifest.chunks.is_empty());
    assert_eq!(manifest.file_hash, hash_hex(b""));
    let assembler = FileAssembler::new();
    assert_eq!(assembler.finish(&manifest), Ok(()));
}

#[test]
fn assembly_checks_sizes_and_hash() {
    let mut builder = ManifestBuilder::new();
    builder.add_chunk(b"hello ");
    builder.add_chunk(b"world");
    let manifest = builder.finish("id".into(), "f".into(), "t".into());

    let mut ok = FileAssembler::new();
    ok.add_chunk(&manifest, b"hello ").unwrap();
    ok.add_chunk(&manifest, b"world").unwrap();
    assert_eq!(ok.finish(&manifest), Ok(()));

    let mut wrong_size = FileAssembler::new();
    assert_eq!(wrong_size.add_chunk(&manifest, b"hello"), Err(NexusError::StoredChunkSizeMismatch));
    assert_eq!(NexusError::StoredChunkSizeMismatch.message(), "stored chunk size mismatch");

    let mut wrong_bytes = FileAssembler::new();
    wrong_bytes.add_chunk(&manifest, b"HELLO ").unwrap();
    wrong_bytes.add_chunk(&manifest, b"world").unwrap();
    assert_eq!(wrong_bytes.finish(&manifest), Err(NexusError::AssembledHashMismatch));

    assert_eq!(require_complete(&vec![]), Ok(()));
    assert_eq!(require_complete(&vec!["h".to_string()]), Err(NexusError::FileIncomplete));
    assert_eq!(NexusError::FileIncomplete.message(), "file is not complete");
}

#[test]
fn manifests_get_a_fresh_ulid() {
    let mut builder = ManifestBuilder::new();
    builder.add_chunk(b"abc");
    let manifest = builder.finish_with_new_id("f".into(), "t".into());
    assert_eq!(manifest.id.len(), 26);
    assert_eq!(manifest.name, "f");
    assert_eq!(manifest.media_type, "t");
    assert_eq!(manifest.chunks.len(), 1);
    assert_eq!(manifest.file_hash, hash_hex(b"abc"));
}
