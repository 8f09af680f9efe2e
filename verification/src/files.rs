//! File manifests: a file is split into chunks of at most 256 KiB, each chunk
//! is named by its BLAKE3 hash, and the whole file by the BLAKE3 hash of all of
//! its bytes. Materializing a file rechecks every chunk's size and the whole
//! hash before the file is placed.

use vstd::prelude::*;
use crate::error::NexusError;
use crate::model::{ChunkDescriptor, FileManifest, FILE_CHUNK_SIZE};
use crate::primitives::{blake3_digest, blake3_hash, hasher_finalize, hasher_input, hasher_new, hasher_update, hex_encode, new_ulid};
use crate::text::hex_lower;

verus! {

/// The bytes of all parts, in order.
pub open spec fn joined(parts: Seq<Seq<u8>>) -> Seq<u8> {
    parts.flatten_alt()
}

/// The hash text a chunk or file is named by: its BLAKE3 digest in lowercase hex.
pub open spec fn content_hash(data: Seq<u8>) -> Seq<char> {
    hex_lower(blake3_digest(data))
}

/// The hex BLAKE3 hash of some bytes.
pub fn hash_hex(data: &[u8]) -> (hash: String)
    ensures
        hash@ == content_hash(data@),
{
    let digest = blake3_hash(data);
    hex_encode(digest.as_slice())
}

/// Whether a manifest lists the chunks of a file given as its parts: one
/// descriptor per part in order, with its position, hash and size; the total
/// size; the chunk size; and the hash of the whole file.
pub open spec fn manifest_describes(manifest: FileManifest, parts: Seq<Seq<u8>>) -> bool {
    &&& manifest.chunks@.len() == parts.len()
    &&& forall|i: int| 0 <= i < parts.len() ==> {
        &&& (#[trigger] manifest.chunks@[i]).index == i
        &&& manifest.chunks@[i].hash@ == content_hash(parts[i])
        &&& manifest.chunks@[i].size == parts[i].len()
    }
    &&& manifest.size == joined(parts).len()
    &&& manifest.chunk_size == FILE_CHUNK_SIZE
    &&& manifest.file_hash@ == content_hash(joined(parts))
}

/// Builds a manifest while a file is read chunk by chunk.
pub struct ManifestBuilder {
    chunks: Vec<ChunkDescriptor>,
    total: u64,
    hasher: blake3::Hasher,
    parts: Ghost<Seq<Seq<u8>>>,
}

impl ManifestBuilder {
    /// The chunks added so far.
    pub closed spec fn parts(&self) -> Seq<Seq<u8>> {
        self.parts@
    }

    /// The builder's fields agree with the chunks added so far.
    pub closed spec fn wf(&self) -> bool {
        &&& self.chunks@.len() == self.parts@.len()
        &&& forall|i: int| 0 <= i < self.parts@.len() ==> {
            &&& (#[trigger] self.chunks@[i]).index == i
            &&& self.chunks@[i].hash@ == content_hash(self.parts@[i])
            &&& self.chunks@[i].size == self.parts@[i].len()
        }
        &&& self.total == joined(self.parts@).len()
        &&& hasher_input(self.hasher) == joined(self.parts@)
    }

    /// A builder with no chunks.
    pub fn new() -> (builder: ManifestBuilder)
        ensures
            builder.wf(),
            builder.parts() == Seq::<Seq<u8>>::empty(),
    {
        ManifestBuilder {
            chunks: Vec::new(),
            total: 0,
            hasher: hasher_new(),
            parts: Ghost(Seq::empty()),
        }
    }

    /// Adds the next chunk of the file and returns its descriptor.
    pub fn add_chunk(&mut self, data: &[u8]) -> (descriptor: ChunkDescriptor)
        requires
            old(self).wf(),
            data@.len() <= FILE_CHUNK_SIZE,
            old(self).parts().len() < 0xffff_ffff,
            joined(old(self).parts()).len() + data@.len() <= u64::MAX,
        ensures
            final(self).wf(),
            final(self).parts() == old(self).parts().push(data@),
            descriptor.index == old(self).parts().len(),
            descriptor.hash@ == content_hash(data@),
            descriptor.size == data@.len(),
    {
        let ghost before = self.parts@;
        let hash = hash_hex(data);
        let descriptor = ChunkDescriptor {
            index: self.chunks.len() as u32,
            hash: hash.clone(),
            size: data.len() as u32,
        };
        hasher_update(&mut self.hasher, data);
        self.total = self.total + data.len() as u64;
        self.chunks.push(ChunkDescriptor { index: descriptor.index, hash, size: descriptor.size });
        self.parts = Ghost(before.push(data@));
        assert(before.push(data@).drop_last() =~= before);
        assert forall|i: int| 0 <= i < self.parts@.len() implies {
            &&& (#[trigger] self.chunks@[i]).index == i
            &&& self.chunks@[i].hash@ == content_hash(self.parts@[i])
            &&& self.chunks@[i].size == self.parts@[i].len()
        } by {
            if i < before.len() {
                assert(self.parts@[i] == before[i]);
            }
        }
        descriptor
    }

    /// The manifest of the file read so far.
    pub fn finish(self, id: String, name: String, media_type: String) -> (manifest: FileManifest)
        requires
            self.wf(),
        ensures
            manifest.id@ == id@,
            manifest.name@ == name@,
            manifest.media_type@ == media_type@,
            manifest_describes(manifest, self.parts()),
    {
        let digest = hasher_finalize(&self.hasher);
        let file_hash = hex_encode(digest.as_slice());
        FileManifest {
            id,
            name,
            media_type,
            size: self.total,
            chunk_size: FILE_CHUNK_SIZE as u32,
            chunks: self.chunks,
            file_hash,
        }
    }

    /// The manifest of the file read so far, under a fresh ULID.
    pub fn finish_with_new_id(self, name: String, media_type: String) -> (manifest: FileManifest)
        requires
            self.wf(),
        ensures
            manifest.id@.len() == 26,
            manifest.name@ == name@,
            manifest.media_type@ == media_type@,
            manifest_describes(manifest, self.parts()),
    {
        let id = new_ulid();
        self.finish(id, name, media_type)
    }
}

/// A file is materialized only once no chunk is missing.
pub fn require_complete(missing: &Vec<String>) -> (checked: Result<(), NexusError>)
    ensures
        checked == if missing@.len() == 0 { Ok::<(), NexusError>(()) } else { Err(NexusError::FileIncomplete) },
{
    if missing.len() == 0 {
        Ok(())
    } else {
        Err(NexusError::FileIncomplete)
    }
}

/// Whether the stored parts, in order, are what the manifest asks for: each
/// has the size of its descriptor, and together they hash to the file hash.
pub open spec fn reassembles(manifest: FileManifest, parts: Seq<Seq<u8>>) -> bool {
    &&& parts.len() == manifest.chunks@.len()
    &&& forall|i: int| 0 <= i < parts.len() ==> (#[trigger] parts[i]).len() == manifest.chunks@[i].size
    &&& content_hash(joined(parts)) == manifest.file_hash@
}

/// Checks a file's stored chunks, in manifest order, while they are written out.
pub struct FileAssembler {
    next: usize,
    hasher: blake3::Hasher,
    parts: Ghost<Seq<Seq<u8>>>,
}

impl FileAssembler {
    /// The chunks accepted so far.
    pub closed spec fn parts(&self) -> Seq<Seq<u8>> {
        self.parts@
    }

    /// The assembler's fields agree with the chunks accepted so far.
    pub closed spec fn wf(&self) -> bool {
        &&& self.next == self.parts@.len()
        &&& hasher_input(self.hasher) == joined(self.parts@)
    }

    /// An assembler that has accepted nothing.
    pub fn new() -> (assembler: FileAssembler)
        ensures
            assembler.wf(),
            assembler.parts() == Seq::<Seq<u8>>::empty(),
    {
        FileAssembler { next: 0, hasher: hasher_new(), parts: Ghost(Seq::empty()) }
    }

    /// Accepts the next stored chunk if it has the size its descriptor lists.
    pub fn add_chunk(&mut self, manifest: &FileManifest, bytes: &[u8]) -> (accepted: Result<(), NexusError>)
        requires
            old(self).wf(),
            old(self).parts().len() < manifest.chunks@.len(),
        ensures
            final(self).wf(),
            accepted is Ok <==> bytes@.len() == manifest.chunks@[old(self).parts().len() as int].size,
            accepted matches Err(e) ==> e == NexusError::StoredChunkSizeMismatch && final(self).parts() == old(self).parts(),
            accepted is Ok ==> final(self).parts() == old(self).parts().push(bytes@),
    {
        let count = manifest.chunks.len();
        if bytes.len() != manifest.chunks[self.next].size as usize {
            return Err(NexusError::StoredChunkSizeMismatch);
        }
        let ghost before = self.parts@;
        hasher_update(&mut self.hasher, bytes);
        self.next = self.next + 1;
        self.parts = Ghost(before.push(bytes@));
        assert(before.push(bytes@).drop_last() =~= before);
        Ok(())
    }

    /// Accepts the file once all chunks are in if they hash to the file hash.
    pub fn finish(&self, manifest: &FileManifest) -> (accepted: Result<(), NexusError>)
        requires
            self.wf(),
        ensures
            accepted is Ok <==> content_hash(joined(self.parts())) == manifest.file_hash@,
            accepted matches Err(e) ==> e == NexusError::AssembledHashMismatch,
    {
        let digest = hasher_finalize(&self.hasher);
        let hash = hex_encode(digest.as_slice());
        if hash == manifest.file_hash {
            Ok(())
        } else {
            Err(NexusError::AssembledHashMismatch)
        }
    }
}

/// The chunks a manifest was built from reassemble into the file it describes.
pub proof fn lemma_described_file_reassembles(manifest: FileManifest, parts: Seq<Seq<u8>>)
    requires
        manifest_describes(manifest, parts),
    ensures
        reassembles(manifest, parts),
{
    assert forall|i: int| 0 <= i < parts.len() implies (#[trigger] parts[i]).len() == manifest.chunks@[i].size by {
        assert(manifest.chunks@[i].size == parts[i].len());
    }
}

} // verus!
