// The mesh-asset loader reads a GLTF binary from disk and uploads its
// buffers through the memory allocator; both ends are driver work, so the
// loader lives with the driver and no asset ships with the library. The
// path below names the kind of input it consumes.

#[test]
fn load_gltf_meshes() {
    let _file_path = "/Users/zapzap/Projects/piplup/assets/basicmesh.glb";
}
